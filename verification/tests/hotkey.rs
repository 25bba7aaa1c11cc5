use wtm::config::{Config, GridConfig, GridConfigKey, Keybind};
use wtm::event::{Event, HotkeyType};
use wtm::hotkey::{
    parse_hotkey, vkcode, Hotkey, HotkeyError, MOD_ALT, MOD_CONTROL, MOD_NOREPEAT, MOD_SHIFT,
    MOD_WIN,
};
use wtm::monitor::{foreground_event, MonitorTracker};
use wtm::window::Window;

#[test]
fn parse_hotkey_reads_modifiers_and_key() {
    assert_eq!(
        parse_hotkey("CTRL+ALT+S"),
        Ok(Hotkey { modifiers: MOD_CONTROL | MOD_ALT | MOD_NOREPEAT, key: 'S' })
    );
    assert_eq!(parse_hotkey("WIN+q"), Ok(Hotkey { modifiers: 0x4008, key: 'q' }));
    assert_eq!(
        parse_hotkey("SHIFT+CTRL+ALT+WIN+M"),
        Ok(Hotkey { modifiers: MOD_SHIFT | MOD_CONTROL | MOD_ALT | MOD_WIN | MOD_NOREPEAT, key: 'M' })
    );
    assert_eq!(parse_hotkey("ALT+ALT+x"), Ok(Hotkey { modifiers: 0x4001, key: 'x' }));
}

#[test]
fn parse_hotkey_takes_the_first_character_of_the_last_part() {
    assert_eq!(parse_hotkey("ALT+Space"), Ok(Hotkey { modifiers: 0x4001, key: 'S' }));
    assert_eq!(parse_hotkey("ALT+ü"), Ok(Hotkey { modifiers: 0x4001, key: 'ü' }));
}

#[test]
fn parse_hotkey_trims_whitespace_around_every_part() {
    assert_eq!(parse_hotkey(" CTRL + ALT\t+ S "), Ok(Hotkey { modifiers: 0x4003, key: 'S' }));
    assert_eq!(parse_hotkey("CTRL\u{2003}+\u{a0}S\n"), Ok(Hotkey { modifiers: 0x4002, key: 'S' }));
    // whitespace inside a part stays, and what is no whitespace is not trimmed
    assert_eq!(parse_hotkey("CT RL+S"), Err(HotkeyError::UnknownModifier));
    assert_eq!(parse_hotkey("_CTRL+S"), Err(HotkeyError::UnknownModifier));
    assert_eq!(parse_hotkey("CTRL+ _"), Ok(Hotkey { modifiers: 0x4002, key: '_' }));
}

#[test]
fn parse_hotkey_wants_two_to_five_parts() {
    assert_eq!(parse_hotkey(""), Err(HotkeyError::Length));
    assert_eq!(parse_hotkey("S"), Err(HotkeyError::Length));
    assert_eq!(parse_hotkey("CTRL"), Err(HotkeyError::Length));
    assert_eq!(parse_hotkey("CTRL+ALT+SHIFT+WIN+ALT+S"), Err(HotkeyError::Length));
    assert_eq!(parse_hotkey("+++++"), Err(HotkeyError::Length));
    assert_eq!(parse_hotkey("x+y+z+a+b+c"), Err(HotkeyError::Length));
}

#[test]
fn parse_hotkey_wants_a_key() {
    assert_eq!(parse_hotkey("CTRL+"), Err(HotkeyError::MissingKey));
    assert_eq!(parse_hotkey("CTRL+ALT+  "), Err(HotkeyError::MissingKey));
    assert_eq!(parse_hotkey("+"), Err(HotkeyError::MissingKey));
    // a missing key is noticed before an unknown modifier
    assert_eq!(parse_hotkey("FOO+"), Err(HotkeyError::MissingKey));
}

#[test]
fn parse_hotkey_knows_four_modifiers() {
    assert_eq!(parse_hotkey("ctrl+S"), Err(HotkeyError::UnknownModifier));
    assert_eq!(parse_hotkey("CONTROL+S"), Err(HotkeyError::UnknownModifier));
    assert_eq!(parse_hotkey("CTRL+FOO+S"), Err(HotkeyError::UnknownModifier));
    assert_eq!(parse_hotkey("+S"), Err(HotkeyError::UnknownModifier));
    assert_eq!(parse_hotkey("ALT++S"), Err(HotkeyError::UnknownModifier));
    assert_eq!(parse_hotkey("ALTX+S"), Err(HotkeyError::UnknownModifier));
    assert_eq!(parse_hotkey("AL+S"), Err(HotkeyError::UnknownModifier));
}

#[test]
fn vkcode_is_the_low_byte() {
    assert_eq!(vkcode(-1), None);
    assert_eq!(vkcode(0x0053), Some(0x53));
    assert_eq!(vkcode(0x0141), Some(0x41));
    assert_eq!(vkcode(-2), Some(0xfe));
    assert_eq!(vkcode(0), Some(0));
}

#[test]
fn monitor_tracker_reports_changes_only() {
    let mut tracker = MonitorTracker::new("\\\\.\\DISPLAY1".to_string());
    assert_eq!(tracker.poll("\\\\.\\DISPLAY1".to_string()), None);
    assert_eq!(tracker.poll("\\\\.\\DISPLAY2".to_string()), Some(Event::MonitorChange));
    assert_eq!(tracker.previous, "\\\\.\\DISPLAY2");
    assert_eq!(tracker.poll("\\\\.\\DISPLAY2".to_string()), None);
    assert_eq!(tracker.poll("\\\\.\\DISPLAY1".to_string()), Some(Event::MonitorChange));
}

#[test]
fn foreground_event_filters_the_picker() {
    assert_eq!(foreground_event(Window(5), Some(Window(5))), None);
    assert_eq!(
        foreground_event(Window(6), Some(Window(5))),
        Some(Event::ActiveWindowChange(Window(6)))
    );
    assert_eq!(foreground_event(Window(0), None), Some(Event::ActiveWindowChange(Window(0))));
}

#[test]
fn config_types_hold_what_they_are_given() {
    let config = Config {
        margin: 10,
        padding: 12,
        auto_start: false,
        keybinds: vec![Keybind { hotkey: "CTRL+ALT+S".to_string(), typ: HotkeyType::Main }],
    };
    assert_eq!(parse_hotkey(&config.keybinds[0].hotkey).map(|h| h.key), Ok('S'));
    assert_eq!(GridConfig::default(), GridConfig { rows: 2, columns: 2 });
    let key = GridConfigKey::new("DISPLAY1".to_string(), "Default".to_string());
    assert!(key.same(&GridConfigKey::new("DISPLAY1".to_string(), "Default".to_string())));
    assert!(!key.same(&GridConfigKey::new("DISPLAY2".to_string(), "Default".to_string())));
    assert!(!key.same(&GridConfigKey::new("DISPLAY1".to_string(), "Profile2".to_string())));
}

#[test]
fn hotkey_errors_say_what_is_wrong() {
    assert_eq!(HotkeyError::Length.message(), "Combination must be between 2 to 5 keys long.");
    assert_eq!(
        HotkeyError::UnknownModifier.message(),
        "Unidentified modifier in hotkey combination. Valid modifiers are CTRL, ALT, SHIFT, WIN."
    );
    assert_eq!(
        HotkeyError::MissingKey.message(),
        "The key is missing at the end of the combination."
    );
}
