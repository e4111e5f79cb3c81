use dictator::audio::feedback::{candidate_paths, AudioFeedback, FeedbackSoundType};
use dictator::config::{
    default_api_key, default_api_url, default_audio_feedback, default_max_retries, default_model,
    default_paste_mode, default_shortcut, default_start_sound, default_stop_sound, default_timeout, Config,
    ConfigError,
};
use dictator::messages::{AppState, ToggleAction};
use dictator::text_injection::{PasteMode, SETTLE_MILLIS};
use dictator::transcription::TranscriptionConfig;

#[test]
fn defaults_one_by_one() {
    assert_eq!(default_shortcut(), "SUPER+ALT+D");
    assert_eq!(default_api_url(), "http://localhost:8000");
    assert_eq!(default_api_key(), "dummy");
    assert_eq!(default_model(), "Systran/faster-whisper-base");
    assert_eq!(default_paste_mode(), "ctrl_shift");
    assert!(default_audio_feedback());
    assert_eq!(default_start_sound(), "ping-up.opus");
    assert_eq!(default_stop_sound(), "ping-down.opus");
    assert_eq!(default_timeout(), 30);
    assert_eq!(default_max_retries(), 2);
}

#[test]
fn default_config_is_valid() {
    let config = Config::default();
    assert_eq!(config.primary_shortcut, "SUPER+ALT+D");
    assert_eq!(config.api_url, "http://localhost:8000");
    assert_eq!(config.api_key, "dummy");
    assert_eq!(config.model, "Systran/faster-whisper-base");
    assert_eq!(config.language, None);
    assert_eq!(config.whisper_prompt, None);
    assert_eq!(config.paste_mode, "ctrl_shift");
    assert!(config.word_overrides.is_empty());
    assert!(config.audio_feedback);
    assert_eq!(config.start_sound_path, "ping-up.opus");
    assert_eq!(config.stop_sound_path, "ping-down.opus");
    assert_eq!(config.timeout, 30);
    assert_eq!(config.max_retries, 2);
    assert_eq!(config.validate(), Ok(()));
}

#[test]
fn validate_names_the_first_failure() {
    let mut config = Config::default();
    config.api_url = String::new();
    config.model = String::new();
    config.paste_mode = "alt".to_string();
    assert_eq!(config.validate(), Err(ConfigError::EmptyApiUrl));
    config.api_url = "http://example".to_string();
    assert_eq!(config.validate(), Err(ConfigError::EmptyModel));
    config.model = "base".to_string();
    assert_eq!(config.validate(), Err(ConfigError::InvalidPasteMode));
    for mode in ["super", "ctrl_shift", "ctrl"] {
        config.paste_mode = mode.to_string();
        assert_eq!(config.validate(), Ok(()));
    }
    for mode in ["", "Super", "ctrl ", "none", "ctrl_shif"] {
        config.paste_mode = mode.to_string();
        assert_eq!(config.validate(), Err(ConfigError::InvalidPasteMode));
    }
}

#[test]
fn config_error_texts() {
    assert_eq!(ConfigError::EmptyApiUrl.message(), "api_url cannot be empty");
    assert_eq!(ConfigError::EmptyModel.message(), "model cannot be empty");
    assert_eq!(
        ConfigError::InvalidPasteMode.message(),
        "paste_mode must be one of: super, ctrl_shift, ctrl"
    );
}

#[test]
fn feedback_sound_follows_the_switch() {
    let mut config = Config::default();
    assert_eq!(config.feedback_sound(FeedbackSoundType::Start), Some("ping-up.opus".to_string()));
    assert_eq!(config.feedback_sound(FeedbackSoundType::Stop), Some("ping-down.opus".to_string()));
    assert_eq!(config.feedback_sound(FeedbackSoundType::Complete), None);
    config.audio_feedback = false;
    assert_eq!(config.feedback_sound(FeedbackSoundType::Start), None);
    assert_eq!(config.feedback_sound(FeedbackSoundType::Stop), None);
}

#[test]
fn audio_feedback_keeps_the_last_path_of_each_moment() {
    let feedback = AudioFeedback::new(vec![
        (FeedbackSoundType::Start, "a.opus".to_string()),
        (FeedbackSoundType::Stop, "b.opus".to_string()),
        (FeedbackSoundType::Start, "c.opus".to_string()),
    ]);
    assert_eq!(feedback.path_for(FeedbackSoundType::Start), Some("c.opus".to_string()));
    assert_eq!(feedback.path_for(FeedbackSoundType::Stop), Some("b.opus".to_string()));
    assert_eq!(feedback.path_for(FeedbackSoundType::Complete), None);
    let empty = AudioFeedback::new(Vec::new());
    assert_eq!(empty.path_for(FeedbackSoundType::Start), None);
}

#[test]
fn sound_files_are_looked_for_in_three_places() {
    assert_eq!(
        candidate_paths("ping-up.opus"),
        vec![
            "ping-up.opus".to_string(),
            "assets/ping-up.opus".to_string(),
            "/usr/share/dictator/assets/ping-up.opus".to_string(),
        ]
    );
}

#[test]
fn transcription_settings_come_from_the_config() {
    let mut config = Config::default();
    let plain = TranscriptionConfig::from_config(&config);
    assert_eq!(plain.model, "Systran/faster-whisper-base");
    assert_eq!(plain.prompt, "");
    assert_eq!(plain.language, "");
    config.whisper_prompt = Some("Names: Ada".to_string());
    config.language = Some("en".to_string());
    config.model = "large".to_string();
    let set = TranscriptionConfig::from_config(&config);
    assert_eq!(set.model, "large");
    assert_eq!(set.prompt, "Names: Ada");
    assert_eq!(set.language, "en");
}

#[test]
fn app_states_are_distinct() {
    assert_ne!(AppState::Idle, AppState::Recording);
    assert_ne!(AppState::Recording, AppState::Processing);
    assert_eq!(AppState::Idle.clone(), AppState::Idle);
}

#[test]
fn toggle_walks_through_the_states() {
    assert_eq!(AppState::Idle.toggled(), (AppState::Recording, ToggleAction::StartRecording));
    assert_eq!(AppState::Recording.toggled(), (AppState::Processing, ToggleAction::StopAndProcess));
    assert_eq!(AppState::Processing.toggled(), (AppState::Processing, ToggleAction::Ignore));
    assert_eq!(AppState::Processing.processed(), AppState::Idle);
    assert_eq!(AppState::Idle.processed(), AppState::Idle);
    assert_eq!(AppState::Recording.processed(), AppState::Recording);
}

#[test]
fn paste_modes_and_their_keys() {
    assert_eq!(PasteMode::from_name("super"), Some(PasteMode::Super));
    assert_eq!(PasteMode::from_name("ctrl_shift"), Some(PasteMode::CtrlShift));
    assert_eq!(PasteMode::from_name("ctrl"), Some(PasteMode::Ctrl));
    assert_eq!(PasteMode::from_name("none"), None);
    assert_eq!(PasteMode::from_name("SUPER"), None);
    assert_eq!(PasteMode::from_name(""), None);
    assert_eq!(PasteMode::Super.keys(), Some("125:1 47:1 47:0 125:0"));
    assert_eq!(PasteMode::CtrlShift.keys(), Some("29:1 42:1 47:1 47:0 42:0 29:0"));
    assert_eq!(PasteMode::Ctrl.keys(), Some("29:1 47:1 47:0 29:0"));
    assert_eq!(PasteMode::CopyOnly.keys(), None);
    assert_eq!(SETTLE_MILLIS, 120);
}
