use syncinput::command::{parse_command, Command};
use syncinput::config::Config;
use syncinput::json::decimal_text;

const DEFAULT_COMPACT: &str = r#"{"theme":"light","font_size":16,"font_family":"","auto_copy":false,"copy_delay":2,"width":400,"height":600,"auto_start":false,"close_to_tray":false}"#;

#[test]
fn default_config_values() {
    let c = Config::default();
    assert_eq!(c.theme, "light");
    assert_eq!(c.font_size, 16);
    assert_eq!(c.font_family, "");
    assert!(!c.auto_copy);
    assert_eq!(c.copy_delay, 2);
    assert_eq!(c.width, 400);
    assert_eq!(c.height, 600);
    assert!(!c.auto_start);
    assert!(!c.close_to_tray);
}

#[test]
fn config_to_json_is_compact_in_field_order() {
    assert_eq!(Config::default().to_json(), DEFAULT_COMPACT);
}

#[test]
fn config_to_json_pretty_matches_serde_layout() {
    let mut c = Config::default();
    c.font_family = "Fira \"Code\"".to_string();
    c.auto_start = true;
    let expected = "{\n  \"theme\": \"light\",\n  \"font_size\": 16,\n  \"font_family\": \"Fira \\\"Code\\\"\",\n  \"auto_copy\": false,\n  \"copy_delay\": 2,\n  \"width\": 400,\n  \"height\": 600,\n  \"auto_start\": true,\n  \"close_to_tray\": false\n}";
    assert_eq!(c.to_json_pretty(), expected);
}

#[test]
fn settings_from_the_page() {
    let mut c = Config::default();
    c.apply_setting("theme", "dark");
    assert_eq!(c.theme, "dark");
    c.apply_setting("fontSize", "20");
    assert_eq!(c.font_size, 20);
    c.apply_setting("fontSize", "big");
    assert_eq!(c.font_size, 20);
    c.apply_setting("fontFamily", "Consolas");
    assert_eq!(c.font_family, "Consolas");
    c.apply_setting("autoCopy", "true");
    assert!(c.auto_copy);
    c.apply_setting("autoCopy", "yes");
    assert!(!c.auto_copy);
    c.apply_setting("copyDelay", "+5");
    assert_eq!(c.copy_delay, 5);
    c.apply_setting("copyDelay", "-1");
    assert_eq!(c.copy_delay, 5);
    c.apply_setting("autoStart", "true");
    assert!(c.auto_start);
    c.apply_setting("closeToTray", "true");
    assert!(c.close_to_tray);
    c.apply_setting("closeToTray", "True");
    assert!(!c.close_to_tray);
}

#[test]
fn unknown_setting_changes_nothing_in_json() {
    let mut c = Config::default();
    c.apply_setting("width", "10");
    c.apply_setting("Theme", "dark");
    assert_eq!(c.to_json(), DEFAULT_COMPACT);
}

#[test]
fn setting_twice_is_setting_once() {
    let mut once = Config::default();
    once.apply_setting("fontSize", "30");
    let mut twice = Config::default();
    twice.apply_setting("fontSize", "30");
    twice.apply_setting("fontSize", "30");
    assert_eq!(once.to_json(), twice.to_json());
}

#[test]
fn window_commands() {
    assert!(matches!(parse_command("pin"), Command::Pin));
    assert!(matches!(parse_command("min"), Command::Minimize));
    assert!(matches!(parse_command("max"), Command::Maximize));
    assert!(matches!(parse_command("close"), Command::Close));
    assert!(matches!(parse_command("pin "), Command::Ignore));
    assert!(matches!(parse_command("PIN"), Command::Ignore));
    assert!(matches!(parse_command(""), Command::Ignore));
}

#[test]
fn copy_commands_carry_their_text() {
    match parse_command("copy:hello: world") {
        Command::Copy(t) => assert_eq!(t, "hello: world"),
        _ => panic!("not a copy"),
    }
    match parse_command("copy:") {
        Command::Copy(t) => assert_eq!(t, ""),
        _ => panic!("not a copy"),
    }
}

#[test]
fn resize_commands() {
    assert!(matches!(parse_command("resize,800x600"), Command::Resize(800, 600)));
    assert!(matches!(parse_command("resize,+8x06"), Command::Resize(8, 6)));
    assert!(matches!(parse_command("resize,800x"), Command::Ignore));
    assert!(matches!(parse_command("resize,800"), Command::Ignore));
    assert!(matches!(parse_command("resize,1x2x3"), Command::Ignore));
    assert!(matches!(parse_command("resize,-1x2"), Command::Ignore));
    assert!(matches!(parse_command("resize,4294967296x2"), Command::Ignore));
}

#[test]
fn setting_commands() {
    match parse_command("cfg:theme:dark") {
        Command::Setting(k, v) => {
            assert_eq!(k, "theme");
            assert_eq!(v, "dark");
        },
        _ => panic!("not a setting"),
    }
    match parse_command("cfg:fontFamily:a:b") {
        Command::Setting(k, v) => {
            assert_eq!(k, "fontFamily");
            assert_eq!(v, "a:b");
        },
        _ => panic!("not a setting"),
    }
    assert!(matches!(parse_command("cfg:theme"), Command::Ignore));
    assert!(matches!(parse_command("cfg"), Command::Ignore));
}

#[test]
fn settings_with_different_keys_commute() {
    let mut a = Config::default();
    a.apply_setting("theme", "dark");
    a.apply_setting("fontSize", "18");
    let mut b = Config::default();
    b.apply_setting("fontSize", "18");
    b.apply_setting("theme", "dark");
    assert_eq!(a.to_json(), b.to_json());
}

#[test]
fn copy_message_round_trip() {
    for text in ["", "plain", "copy:copy:", "日本語\n", "pin"] {
        match parse_command(&format!("copy:{text}")) {
            Command::Copy(t) => assert_eq!(t, text),
            _ => panic!("not a copy"),
        }
    }
}

#[test]
fn resize_message_round_trip() {
    for (w, h) in [(0u32, 0u32), (1, 2), (400, 600), (1920, 1080), (u32::MAX, 7)] {
        let body = format!("resize,{}x{}", decimal_text(w as u64), decimal_text(h as u64));
        match parse_command(&body) {
            Command::Resize(a, b) => assert_eq!((a, b), (w, h)),
            _ => panic!("not a resize"),
        }
    }
}

#[test]
fn setting_message_round_trip() {
    for (k, v) in [("theme", "dark"), ("x", ""), ("", "a:b:c"), ("fontFamily", "Noto Sans")] {
        match parse_command(&format!("cfg:{k}:{v}")) {
            Command::Setting(a, b) => assert_eq!((a.as_str(), b.as_str()), (k, v)),
            _ => panic!("not a setting"),
        }
    }
}

#[test]
fn set_size_records_width_and_height_only() {
    let mut c = Config::default();
    c.set_size(1024, 768);
    assert_eq!((c.width, c.height), (1024, 768));
    let mut d = Config::default();
    d.width = 1024;
    d.height = 768;
    assert_eq!(c.to_json(), d.to_json());
}
