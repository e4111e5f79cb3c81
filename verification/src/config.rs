//! The daemon's configuration: its fields, their defaults and what makes a
//! configuration usable.

use crate::audio::feedback::FeedbackSoundType;
use vstd::prelude::*;
use vstd::string::StringExecFns;

verus! {

/// The configuration of the daemon.
#[derive(Debug)]
pub struct Config {
    pub primary_shortcut: String,
    pub api_url: String,
    pub api_key: String,
    pub model: String,
    pub language: Option<String>,
    pub whisper_prompt: Option<String>,
    pub paste_mode: String,
    /// Words to replace in a transcript, each with its replacement.
    pub word_overrides: Vec<(String, String)>,
    pub audio_feedback: bool,
    pub start_sound_path: String,
    pub stop_sound_path: String,
    /// Seconds to wait for the transcription service.
    pub timeout: u64,
    pub max_retries: u32,
}

/// Why a configuration is not usable.
#[derive(Clone, Copy, Debug, PartialEq, Eq, Structural)]
pub enum ConfigError {
    EmptyApiUrl,
    EmptyModel,
    InvalidPasteMode,
}

impl ConfigError {
    /// The text of the error.
    pub fn message(&self) -> (text: String)
        ensures
            text@ == match *self {
                ConfigError::EmptyApiUrl => "api_url cannot be empty"@,
                ConfigError::EmptyModel => "model cannot be empty"@,
                ConfigError::InvalidPasteMode => "paste_mode must be one of: super, ctrl_shift, ctrl"@,
            },
    {
        match self {
            ConfigError::EmptyApiUrl => String::from_str("api_url cannot be empty"),
            ConfigError::EmptyModel => String::from_str("model cannot be empty"),
            ConfigError::InvalidPasteMode => String::from_str(
                "paste_mode must be one of: super, ctrl_shift, ctrl",
            ),
        }
    }
}

pub fn default_shortcut() -> (s: String)
    ensures
        s@ == "SUPER+ALT+D"@,
{
    String::from_str("SUPER+ALT+D")
}

pub fn default_api_url() -> (s: String)
    ensures
        s@ == "http://localhost:8000"@,
{
    String::from_str("http://localhost:8000")
}

pub fn default_api_key() -> (s: String)
    ensures
        s@ == "dummy"@,
{
    String::from_str("dummy")
}

pub fn default_model() -> (s: String)
    ensures
        s@ == "Systran/faster-whisper-base"@,
{
    String::from_str("Systran/faster-whisper-base")
}

pub fn default_paste_mode() -> (s: String)
    ensures
        s@ == "ctrl_shift"@,
{
    String::from_str("ctrl_shift")
}

pub fn default_audio_feedback() -> (enabled: bool)
    ensures
        enabled,
{
    true
}

pub fn default_start_sound() -> (s: String)
    ensures
        s@ == "ping-up.opus"@,
{
    String::from_str("ping-up.opus")
}

pub fn default_stop_sound() -> (s: String)
    ensures
        s@ == "ping-down.opus"@,
{
    String::from_str("ping-down.opus")
}

pub fn default_timeout() -> (seconds: u64)
    ensures
        seconds == 30,
{
    30
}

pub fn default_max_retries() -> (retries: u32)
    ensures
        retries == 2,
{
    2
}

/// Whether a paste mode is one the daemon knows.
pub open spec fn is_paste_mode(mode: Seq<char>) -> bool {
    mode == "super"@ || mode == "ctrl_shift"@ || mode == "ctrl"@
}

impl Default for Config {
    fn default() -> (config: Self)
        ensures
            config.primary_shortcut@ == "SUPER+ALT+D"@,
            config.api_url@ == "http://localhost:8000"@,
            config.api_key@ == "dummy"@,
            config.model@ == "Systran/faster-whisper-base"@,
            config.language is None,
            config.whisper_prompt is None,
            config.paste_mode@ == "ctrl_shift"@,
            config.word_overrides@.len() == 0,
            config.audio_feedback,
            config.start_sound_path@ == "ping-up.opus"@,
            config.stop_sound_path@ == "ping-down.opus"@,
            config.timeout == 30,
            config.max_retries == 2,
    {
        Config {
            primary_shortcut: default_shortcut(),
            api_url: default_api_url(),
            api_key: default_api_key(),
            model: default_model(),
            language: None,
            whisper_prompt: None,
            paste_mode: default_paste_mode(),
            word_overrides: Vec::new(),
            audio_feedback: default_audio_feedback(),
            start_sound_path: default_start_sound(),
            stop_sound_path: default_stop_sound(),
            timeout: default_timeout(),
            max_retries: default_max_retries(),
        }
    }
}

impl Config {
    /// What `validate` answers: the first of the three checks that fails.
    pub open spec fn spec_validate(&self) -> Result<(), ConfigError> {
        if self.api_url@.len() == 0 {
            Err(ConfigError::EmptyApiUrl)
        } else if self.model@.len() == 0 {
            Err(ConfigError::EmptyModel)
        } else if !is_paste_mode(self.paste_mode@) {
            Err(ConfigError::InvalidPasteMode)
        } else {
            Ok(())
        }
    }

    /// Validates the configuration: the service address and the model must
    /// not be empty, and the paste mode must be a known one.
    pub fn validate(&self) -> (r: Result<(), ConfigError>)
        ensures
            r == self.spec_validate(),
    {
        if self.api_url.as_str().is_empty() {
            return Err(ConfigError::EmptyApiUrl);
        }
        if self.model.as_str().is_empty() {
            return Err(ConfigError::EmptyModel);
        }
        let mode = self.paste_mode.as_str();
        if !(mode.eq("super") || mode.eq("ctrl_shift") || mode.eq("ctrl")) {
            return Err(ConfigError::InvalidPasteMode);
        }
        Ok(())
    }

    /// The sound to play for a moment of the dictation, if any: none while
    /// audio feedback is switched off, and none for completion, for which no
    /// sound is configured.
    pub fn feedback_sound(&self, kind: FeedbackSoundType) -> (path: Option<String>)
        ensures
            path is Some <==> self.audio_feedback && kind != FeedbackSoundType::Complete,
            path is Some && kind == FeedbackSoundType::Start ==> path->Some_0@
                == self.start_sound_path@,
            path is Some && kind == FeedbackSoundType::Stop ==> path->Some_0@
                == self.stop_sound_path@,
    {
        if !self.audio_feedback {
            return None;
        }
        match kind {
            FeedbackSoundType::Start => Some(self.start_sound_path.clone()),
            FeedbackSoundType::Stop => Some(self.stop_sound_path.clone()),
            FeedbackSoundType::Complete => None,
        }
    }
}

} // verus!
