use dictator::shortcuts::{
    get_key_alias, parse_shortcut, resolve_part, split_on_plus, starts_with_key_prefix, KeyMonitor,
    ShortcutError, DEBOUNCE_MILLIS,
};
use evdev::KeyCode;
use std::collections::HashSet;

#[test]
fn test_parse_shortcut() {
    let keys = parse_shortcut("SUPER+ALT+D").unwrap();
    assert_eq!(keys.len(), 3);
    assert!(keys.contains(&KeyCode::KEY_LEFTMETA.code()));
    assert!(keys.contains(&KeyCode::KEY_LEFTALT.code()));
    assert!(keys.contains(&KeyCode::KEY_D.code()));
}

#[test]
fn test_parse_shortcut_function_key() {
    let keys = parse_shortcut("F12").unwrap();
    assert_eq!(keys.len(), 1);
    assert!(keys.contains(&KeyCode::KEY_F12.code()));
}

#[test]
fn test_parse_shortcut_right_modifiers() {
    let keys = parse_shortcut("RCTRL+RSHIFT+A").unwrap();
    assert_eq!(keys.len(), 3);
    assert!(keys.contains(&KeyCode::KEY_RIGHTCTRL.code()));
    assert!(keys.contains(&KeyCode::KEY_RIGHTSHIFT.code()));
    assert!(keys.contains(&KeyCode::KEY_A.code()));
}

#[test]
fn test_parse_shortcut_numbers_and_special() {
    let keys = parse_shortcut("CTRL+1").unwrap();
    assert_eq!(keys.len(), 2);
    assert!(keys.contains(&KeyCode::KEY_LEFTCTRL.code()));
    assert!(keys.contains(&KeyCode::KEY_1.code()));

    let keys = parse_shortcut("SUPER+ENTER").unwrap();
    assert_eq!(keys.len(), 2);
    assert!(keys.contains(&KeyCode::KEY_LEFTMETA.code()));
    assert!(keys.contains(&KeyCode::KEY_ENTER.code()));
}

#[test]
fn test_parse_shortcut_direct_evdev_names() {
    let keys = parse_shortcut("KEY_COMMA").unwrap();
    assert_eq!(keys.len(), 1);
    assert!(keys.contains(&KeyCode::KEY_COMMA.code()));

    let keys = parse_shortcut("SUPER+KEY_COMMA").unwrap();
    assert_eq!(keys.len(), 2);
    assert!(keys.contains(&KeyCode::KEY_LEFTMETA.code()));
    assert!(keys.contains(&KeyCode::KEY_COMMA.code()));
}

#[test]
fn test_parse_shortcut_automatic_prefix() {
    let keys = parse_shortcut("COMMA").unwrap();
    assert_eq!(keys.len(), 1);
    assert!(keys.contains(&KeyCode::KEY_COMMA.code()));
}

#[test]
fn test_parse_shortcut_media_keys() {
    let keys = parse_shortcut("VOLUMEUP").unwrap();
    assert_eq!(keys.len(), 1);
    assert!(keys.contains(&KeyCode::KEY_VOLUMEUP.code()));

    let keys = parse_shortcut("CTRL+PLAYPAUSE").unwrap();
    assert_eq!(keys.len(), 2);
    assert!(keys.contains(&KeyCode::KEY_LEFTCTRL.code()));
    assert!(keys.contains(&KeyCode::KEY_PLAYPAUSE.code()));
}

#[test]
fn test_parse_shortcut_navigation() {
    let keys = parse_shortcut("CTRL+UP").unwrap();
    assert_eq!(keys.len(), 2);
    assert!(keys.contains(&KeyCode::KEY_LEFTCTRL.code()));
    assert!(keys.contains(&KeyCode::KEY_UP.code()));

    let keys = parse_shortcut("ALT+PAGEUP").unwrap();
    assert_eq!(keys.len(), 2);
    assert!(keys.contains(&KeyCode::KEY_LEFTALT.code()));
    assert!(keys.contains(&KeyCode::KEY_PAGEUP.code()));
}

#[test]
fn test_parse_shortcut_aliases() {
    let keys1 = parse_shortcut("SUPER").unwrap();
    let keys2 = parse_shortcut("META").unwrap();
    let keys3 = parse_shortcut("WIN").unwrap();
    assert_eq!(keys1, keys2);
    assert_eq!(keys2, keys3);
    assert!(keys1.contains(&KeyCode::KEY_LEFTMETA.code()));
}

#[test]
fn test_parse_shortcut_invalid_key() {
    let result = parse_shortcut("INVALIDKEY123");
    assert!(result.is_err());
    let err = result.unwrap_err().message();
    assert!(err.contains("Unknown key"));
}

#[test]
fn unknown_key_names_the_part_and_what_was_tried() {
    let err = parse_shortcut("ctrl+ nope +D").unwrap_err();
    assert_eq!(
        err,
        ShortcutError::UnknownKey { part: " nope ".to_string(), tried: "KEY_NOPE".to_string() }
    );
    assert_eq!(err.message(), "Unknown key:  nope  (tried parsing as 'KEY_NOPE')");
    let first = parse_shortcut("bad1+bad2").unwrap_err();
    assert_eq!(
        first,
        ShortcutError::UnknownKey { part: "bad1".to_string(), tried: "KEY_BAD1".to_string() }
    );
    let empty = parse_shortcut("CTRL+").unwrap_err();
    assert_eq!(empty, ShortcutError::UnknownKey { part: "".to_string(), tried: "KEY_".to_string() });
}

#[test]
fn parts_are_trimmed_and_case_is_ignored() {
    let keys = parse_shortcut(" super + alt+d ").unwrap();
    assert_eq!(keys.len(), 3);
    assert!(keys.contains(&125));
    assert!(keys.contains(&56));
    assert!(keys.contains(&32));
    let twice = parse_shortcut("A+a+KEY_A").unwrap();
    assert_eq!(twice.len(), 1);
    assert!(twice.contains(&30));
}

#[test]
fn split_keeps_empty_parts() {
    assert_eq!(split_on_plus("SUPER+ALT+D"), vec!["SUPER", "ALT", "D"]);
    assert_eq!(split_on_plus("F12"), vec!["F12"]);
    assert_eq!(split_on_plus(""), vec![""]);
    assert_eq!(split_on_plus("+"), vec!["", ""]);
    assert_eq!(split_on_plus("a++b+"), vec!["a", "", "b", ""]);
    assert_eq!(split_on_plus("é+ü"), vec!["é", "ü"]);
    for text in ["", "+", "a+b", "++a", "x+ y +z+", "plain"] {
        let expected: Vec<&str> = text.split('+').collect();
        assert_eq!(split_on_plus(text), expected);
    }
}

#[test]
fn key_prefix_is_recognised() {
    assert!(starts_with_key_prefix("KEY_A"));
    assert!(starts_with_key_prefix("KEY_"));
    assert!(!starts_with_key_prefix("KEY"));
    assert!(!starts_with_key_prefix("key_a"));
    assert!(!starts_with_key_prefix("AKEY_"));
    assert!(!starts_with_key_prefix(""));
}

#[test]
fn aliases_by_group() {
    assert_eq!(get_key_alias("SUPER"), Some("KEY_LEFTMETA"));
    assert_eq!(get_key_alias("CONTROL"), Some("KEY_LEFTCTRL"));
    assert_eq!(get_key_alias("RWIN"), Some("KEY_RIGHTMETA"));
    assert_eq!(get_key_alias("F1"), Some("KEY_F1"));
    assert_eq!(get_key_alias("F24"), Some("KEY_F24"));
    assert_eq!(get_key_alias("0"), Some("KEY_0"));
    assert_eq!(get_key_alias("PGDOWN"), Some("KEY_PAGEDOWN"));
    assert_eq!(get_key_alias("RETURN"), Some("KEY_ENTER"));
    assert_eq!(get_key_alias("PERIOD"), Some("KEY_DOT"));
    assert_eq!(get_key_alias("DOT"), Some("KEY_DOT"));
    assert_eq!(get_key_alias("CAPS"), Some("KEY_CAPSLOCK"));
    assert_eq!(get_key_alias("STOP"), Some("KEY_STOPCD"));
    assert_eq!(get_key_alias("KPMULTIPLY"), Some("KEY_KPASTERISK"));
    assert_eq!(get_key_alias("HOMEPAGE"), Some("KEY_HOMEPAGE"));
    assert_eq!(get_key_alias("Z"), Some("KEY_Z"));
    assert_eq!(get_key_alias("super"), None);
    assert_eq!(get_key_alias("KEY_A"), None);
    assert_eq!(get_key_alias("F25"), None);
    assert_eq!(get_key_alias(""), None);
}

#[test]
fn every_alias_names_a_key_of_the_input_layer() {
    let names = [
        "SUPER", "META", "WIN", "ALT", "CTRL", "CONTROL", "SHIFT", "RSUPER", "RMETA", "RWIN", "RALT", "RCTRL",
        "RCONTROL", "RSHIFT", "UP", "DOWN", "LEFT", "RIGHT", "HOME", "END", "PAGEUP", "PGUP", "PAGEDOWN",
        "PGDOWN", "ENTER", "RETURN", "SPACE", "BACKSPACE", "BKSP", "TAB", "ESC", "ESCAPE", "DELETE", "DEL",
        "INSERT", "INS", "COMMA", "PERIOD", "DOT", "SLASH", "BACKSLASH", "SEMICOLON", "APOSTROPHE", "QUOTE",
        "GRAVE", "BACKTICK", "LEFTBRACE", "LBRACKET", "RIGHTBRACE", "RBRACKET", "MINUS", "DASH", "EQUAL",
        "EQUALS", "CAPSLOCK", "CAPS", "NUMLOCK", "SCROLLLOCK", "VOLUMEUP", "VOLUP", "VOLUMEDOWN", "VOLDOWN",
        "MUTE", "PLAYPAUSE", "PLAY", "STOP", "PREVIOUSSONG", "PREV", "NEXTSONG", "NEXT", "KPENTER", "KPPLUS",
        "KPMINUS", "KPASTERISK", "KPMULTIPLY", "KPSLASH", "KPDIVIDE", "KPDOT", "BACK", "FORWARD", "REFRESH",
        "HOMEPAGE",
    ];
    let mut all: Vec<String> = names.iter().map(|n| n.to_string()).collect();
    for n in 1..=24 {
        all.push(format!("F{}", n));
    }
    for n in 0..=9 {
        all.push(format!("{}", n));
        all.push(format!("KP{}", n));
    }
    for c in 'A'..='Z' {
        all.push(c.to_string());
    }
    assert_eq!(all.len(), 82 + 24 + 20 + 26);
    for name in all {
        let alias = get_key_alias(&name).expect("the name has an alias");
        assert!(alias.starts_with("KEY_"));
        assert_eq!(resolve_part(&name), alias);
        let keys = parse_shortcut(&name).unwrap();
        assert_eq!(keys.len(), 1);
        let expected: KeyCode = alias.parse().unwrap();
        assert!(keys.contains(&expected.code()));
    }
}

#[test]
fn resolve_part_has_three_tiers() {
    assert_eq!(resolve_part(" win "), "KEY_LEFTMETA");
    assert_eq!(resolve_part("key_comma"), "KEY_COMMA");
    assert_eq!(resolve_part("micmute"), "KEY_MICMUTE");
    assert_eq!(resolve_part(""), "KEY_");
}

#[test]
fn monitor_triggers_when_all_keys_are_held() {
    let mut monitor = KeyMonitor::new(HashSet::from([125, 56, 32]));
    assert!(!monitor.all_held());
    assert!(!monitor.on_key(125, 1, 1000));
    assert!(!monitor.on_key(56, 1, 1010));
    assert!(monitor.on_key(32, 1, 1020));
    assert!(monitor.all_held());
    assert!(!monitor.on_key(32, 0, 1100));
    assert!(!monitor.all_held());
    assert!(!monitor.on_key(32, 1, 1200));
    assert!(!monitor.on_key(32, 0, 1300));
    assert!(!monitor.on_key(32, 1, 1520));
    assert!(!monitor.on_key(32, 0, 1521));
    assert!(monitor.on_key(32, 1, 1521));
}

#[test]
fn monitor_ignores_repeats_and_other_keys() {
    let mut monitor = KeyMonitor::new(HashSet::from([29]));
    assert!(!monitor.on_key(29, 2, 5000));
    assert!(!monitor.all_held());
    assert!(!monitor.on_key(30, 1, 5000));
    assert!(monitor.on_key(29, 1, 5000));
    assert!(!monitor.on_key(29, 2, 9000));
    assert!(monitor.on_key(31, 1, 9000));
}

#[test]
fn monitor_waits_out_the_first_debounce_period() {
    assert_eq!(DEBOUNCE_MILLIS, 500);
    let mut early = KeyMonitor::new(HashSet::from([59]));
    assert!(!early.on_key(59, 1, 500));
    assert!(!early.on_key(59, 0, 500));
    assert!(early.on_key(59, 1, 501));
    let mut empty = KeyMonitor::new(HashSet::new());
    assert!(empty.all_held());
    assert!(!empty.on_key(1, 1, 10));
    assert!(empty.on_key(1, 1, 600));
}

#[test]
fn monitor_takes_the_keys_that_parsing_gives() {
    let keys = parse_shortcut("SUPER+ALT+D").unwrap();
    let mut monitor = KeyMonitor::new(keys);
    assert!(!monitor.on_key(KeyCode::KEY_D.code(), 1, 1000));
    assert!(!monitor.on_key(KeyCode::KEY_LEFTALT.code(), 1, 1001));
    assert!(monitor.on_key(KeyCode::KEY_LEFTMETA.code(), 1, 1002));
}
