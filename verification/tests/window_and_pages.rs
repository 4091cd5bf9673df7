use syncinput::command::Command;
use syncinput::config::Config;
use syncinput::icon::load_icon;
use syncinput::probe::{after_probe, ProbeStep, PORT_PROBE_ATTEMPTS};
use syncinput::shell::{
    Shell, ShellAction, TrayClick, WindowEvent, WindowFacts, CLIPBOARD_CHECK_INTERVAL,
    FLASH_INTERVAL, RESIZE_SAVE_INTERVAL,
};
use syncinput::web::{qr_page, render_index, server_url_text};

const SHOWN: WindowFacts = WindowFacts { visible: true, maximized: false };
const HIDDEN: WindowFacts = WindowFacts { visible: false, maximized: false };

fn names(acts: &[ShellAction]) -> Vec<String> {
    acts.iter()
        .map(|a| match a {
            ShellAction::SetAlwaysOnTop(b) => format!("top {b}"),
            ShellAction::MinimizeWindow => "minimize".into(),
            ShellAction::SetMaximized(b) => format!("maximized {b}"),
            ShellAction::ShowWindow => "show".into(),
            ShellAction::HideWindow => "hide".into(),
            ShellAction::FocusWindow => "focus".into(),
            ShellAction::ExitProcess => "exit process".into(),
            ShellAction::ExitEventLoop => "exit loop".into(),
            ShellAction::SetClipboard(t) => format!("clipboard {t}"),
            ShellAction::ResizeWindow(w, h) => format!("resize {w}x{h}"),
            ShellAction::ApplySetting(k, v) => format!("setting {k}={v}"),
            ShellAction::SetAutoStart(b) => format!("autostart {b}"),
            ShellAction::SaveConfig(_) => "save".into(),
            ShellAction::ShowTrayIcon => "icon".into(),
            ShellAction::HideTrayIcon => "no icon".into(),
            ShellAction::ShowTrayMenu => "menu".into(),
            ShellAction::RecordSize(w, h) => format!("record {w}x{h}"),
        })
        .collect()
}

#[test]
fn pin_toggles_always_on_top() {
    let mut s = Shell::new(false, 0);
    assert_eq!(names(&s.handle_command(Command::Pin, SHOWN)), ["top false"]);
    assert!(!s.pinned);
    assert_eq!(names(&s.handle_command(Command::Pin, SHOWN)), ["top true"]);
    assert!(s.pinned);
}

#[test]
fn window_buttons() {
    let mut s = Shell::new(false, 0);
    assert_eq!(names(&s.handle_command(Command::Minimize, SHOWN)), ["minimize"]);
    let maxed = WindowFacts { visible: true, maximized: true };
    assert_eq!(names(&s.handle_command(Command::Maximize, maxed)), ["maximized false"]);
    assert_eq!(names(&s.handle_command(Command::Maximize, SHOWN)), ["maximized true"]);
    assert_eq!(names(&s.handle_command(Command::Close, SHOWN)), ["exit process"]);
    let mut t = Shell::new(true, 0);
    assert_eq!(names(&t.handle_command(Command::Close, SHOWN)), ["hide"]);
    assert_eq!(names(&t.handle_command(Command::Resize(300, 200), SHOWN)), ["resize 300x200"]);
    assert!(t.handle_command(Command::Ignore, SHOWN).is_empty());
}

#[test]
fn copy_while_hidden_starts_flashing() {
    let mut s = Shell::new(true, 0);
    assert_eq!(names(&s.handle_command(Command::Copy("x".into()), SHOWN)), ["clipboard x"]);
    assert!(!s.flash_active);
    assert_eq!(s.last_copied, "x");
    s.handle_command(Command::Copy("y".into()), HIDDEN);
    assert!(s.flash_active);
    assert_eq!(s.last_copied, "y");
}

#[test]
fn flashing_hides_and_shows_the_icon_in_turn() {
    let mut s = Shell::new(true, 0);
    s.handle_command(Command::Copy("y".into()), HIDDEN);
    let t1 = FLASH_INTERVAL + 1;
    assert!(!s.clipboard_check_due(t1));
    assert_eq!(names(&s.flash_tick(t1, None)), ["no icon"]);
    assert_eq!(names(&s.flash_tick(t1 + 10, None)), Vec::<String>::new());
    let t2 = 2 * t1;
    assert_eq!(names(&s.flash_tick(t2, None)), ["icon"]);
    assert_eq!(names(&s.flash_tick(3 * t1, None)), ["no icon"]);
    assert!(s.flash_active);
}

#[test]
fn a_new_clipboard_text_stops_the_flashing() {
    let mut s = Shell::new(true, 0);
    s.handle_command(Command::Copy("y".into()), HIDDEN);
    let t = CLIPBOARD_CHECK_INTERVAL + 1;
    assert!(s.clipboard_check_due(t));
    assert_eq!(names(&s.flash_tick(t, Some("y".into()))), ["no icon"]);
    assert!(s.flash_active);
    let t2 = 2 * t;
    assert_eq!(names(&s.flash_tick(t2, Some("other".into()))), ["icon", "icon"]);
    assert!(!s.flash_active);
    assert!(s.flash_tick(3 * t, Some("more".into())).is_empty());
}

#[test]
fn tray_and_menu() {
    let mut s = Shell::new(true, 0);
    s.handle_command(Command::Copy("y".into()), HIDDEN);
    assert_eq!(names(&s.tray_click(TrayClick::Right)), ["menu"]);
    assert!(s.flash_active);
    assert_eq!(names(&s.tray_click(TrayClick::Left)), ["show", "focus", "icon"]);
    assert!(!s.flash_active);
    assert!(s.tray_click(TrayClick::Other).is_empty());
    s.handle_command(Command::Copy("z".into()), HIDDEN);
    assert_eq!(names(&s.menu_choice("restore")), ["show", "focus", "icon"]);
    assert!(!s.flash_active);
    assert_eq!(names(&s.menu_choice("quit")), ["exit process"]);
    assert!(s.menu_choice("other").is_empty());
}

#[test]
fn window_events() {
    let mut s = Shell::new(false, 0);
    assert_eq!(names(&s.window_event(WindowEvent::CloseRequested, 0)), ["exit loop"]);
    s.close_to_tray = true;
    assert_eq!(names(&s.window_event(WindowEvent::CloseRequested, 0)), ["hide"]);
    s.handle_command(Command::Copy("y".into()), HIDDEN);
    assert!(s.window_event(WindowEvent::Focused(false), 0).is_empty());
    assert!(s.flash_active);
    assert_eq!(names(&s.window_event(WindowEvent::Focused(true), 0)), ["icon"]);
    assert!(!s.flash_active);
    assert!(s.window_event(WindowEvent::Resized(1, 2), RESIZE_SAVE_INTERVAL).is_empty());
    let t = RESIZE_SAVE_INTERVAL + 1;
    assert_eq!(names(&s.window_event(WindowEvent::Resized(1, 2), t)), ["record 1x2"]);
    assert!(s.window_event(WindowEvent::Resized(3, 4), t + 5).is_empty());
    assert_eq!(names(&s.window_event(WindowEvent::Resized(3, 4), 2 * t)), ["record 3x4"]);
    assert!(s.window_event(WindowEvent::Other, 9 * t).is_empty());
}

#[test]
fn settings_through_the_shell() {
    let mut s = Shell::new(false, 0);
    let mut cfg = Config::default();
    let acts = s.apply_setting(&mut cfg, "closeToTray", "true");
    assert!(s.close_to_tray);
    assert_eq!(names(&acts), ["save"]);
    match &acts[0] {
        ShellAction::SaveConfig(text) => assert_eq!(text, &cfg.to_json_pretty()),
        _ => panic!("not a save"),
    }
    let acts = s.apply_setting(&mut cfg, "autoStart", "true");
    assert_eq!(names(&acts), ["autostart true", "save"]);
    let acts = s.apply_setting(&mut cfg, "nothing", "x");
    assert_eq!(names(&acts), ["save"]);
    assert!(s.close_to_tray);
}

#[test]
fn index_page_fills_its_placeholders() {
    let cfg = Config::default();
    let page = render_index("<a>__SYNCINPUT_IP__</a><s>__SYNCINPUT_CONFIG__</s>", "10.0.0.2", &cfg);
    assert_eq!(page, format!("<a>10.0.0.2:5200</a><s>{}</s>", cfg.to_json()));
    assert_eq!(render_index("plain page", "1.2.3.4", &cfg), "plain page");
    let twice = render_index("__SYNCINPUT_IP__ __SYNCINPUT_IP__", "h", &cfg);
    assert_eq!(twice, "h:5200 h:5200");
}

#[test]
fn server_address() {
    assert_eq!(server_url_text("192.168.1.5"), "http://192.168.1.5:5200");
}

#[test]
fn qr_code_of_the_address_is_svg() {
    let svg = qr_page("192.168.1.5").unwrap();
    assert!(svg.starts_with(r#"<?xml version="1.0" standalone="yes"?><svg"#));
    assert!(svg.ends_with(r#""/></svg>"#));
    assert_ne!(svg, "192.168.1.5");
    assert_ne!(qr_page("10.0.0.1").unwrap(), svg);
    assert!(qr_page(&"9".repeat(8000)).is_none());
}

#[test]
fn addresses_up_to_138_characters_always_get_a_qr_code() {
    let patterns = ["😀", "9", "a", "1a", "1A.", "é1", "1é", "A😀1", "あ", "1あA", "Zz"];
    for p in patterns {
        let ip: String = p.chars().cycle().take(138).collect();
        assert_eq!(ip.chars().count(), 138);
        assert!(qr_page(&ip).is_some(), "{p:?}");
    }
}

#[test]
fn icon_decoding() {
    let mut png = Vec::new();
    let pic = image::RgbaImage::from_raw(2, 1, vec![1, 2, 3, 4, 5, 6, 7, 8]).unwrap();
    pic.write_to(&mut std::io::Cursor::new(&mut png), image::ImageFormat::Png).unwrap();
    let icon = load_icon(&png).unwrap();
    assert_eq!((icon.width, icon.height), (2, 1));
    assert_eq!(icon.rgba, vec![1, 2, 3, 4, 5, 6, 7, 8]);
    assert!(load_icon(b"not a picture").is_none());
}

#[test]
fn port_probing_stops_after_thirty_tries() {
    assert_eq!(PORT_PROBE_ATTEMPTS, 30);
    assert!(after_probe(1, true) == ProbeStep::Ready);
    assert!(after_probe(1, false) == ProbeStep::Retry);
    assert!(after_probe(29, false) == ProbeStep::Retry);
    assert!(after_probe(30, false) == ProbeStep::GiveUp);
    assert!(after_probe(30, true) == ProbeStep::Ready);
}
