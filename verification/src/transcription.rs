//! What a transcription request is made with.

use crate::config::Config;
use vstd::prelude::*;

verus! {

/// Configuration for transcription.
pub struct TranscriptionConfig {
    pub model: String,
    pub prompt: String,
    pub language: String,
}

/// The text of an optional setting: empty where it is not set.
pub open spec fn text_or_empty(setting: Option<String>) -> Seq<char> {
    match setting {
        Some(text) => text@,
        None => Seq::<char>::empty(),
    }
}

impl TranscriptionConfig {
    /// The request settings of a configuration: its model, and its prompt
    /// and language where they are set.
    pub fn from_config(config: &Config) -> (settings: Self)
        ensures
            settings.model@ == config.model@,
            settings.prompt@ == text_or_empty(config.whisper_prompt),
            settings.language@ == text_or_empty(config.language),
    {
        let prompt = match &config.whisper_prompt {
            Some(text) => text.clone(),
            None => String::new(),
        };
        let language = match &config.language {
            Some(text) => text.clone(),
            None => String::new(),
        };
        TranscriptionConfig { model: config.model.clone(), prompt, language }
    }
}

} // verus!
