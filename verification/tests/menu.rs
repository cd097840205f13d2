use mxks::engine::{Command, Status};
use mxks::menu::{command_for_menu_id, MenuView};

fn status(capturing: bool) -> Status {
    Status {
        enabled: false,
        autocorrect: true,
        hotkey: "Pause".into(),
        capturing,
        autocomplete: false,
        terminal_auto: true,
        accept_key: "Tab".into(),
        autostart: true,
    }
}

#[test]
fn menu_view_reflects_status_and_capture() {
    let normal = MenuView::from_status(&status(false));
    assert!(!normal.enabled);
    assert!(normal.autocorrect);
    assert!(!normal.autocomplete);
    assert!(normal.terminal_auto);
    assert!(normal.autostart);
    assert_eq!(normal.hotkey_text, "Change hotkey (now: Pause)");
    assert_eq!(normal.accept_key_text, "Change accept key (now: Tab)");
    assert!(normal.capture_actions_enabled);

    let capturing = MenuView::from_status(&status(true));
    assert_eq!(capturing.hotkey_text, "Press a key…");
    assert_eq!(capturing.accept_key_text, "Press a key…");
    assert!(!capturing.capture_actions_enabled);
}

#[test]
fn menu_ids_map_to_commands() {
    let cases = [
        ("toggle-enabled", Command::ToggleEnabled),
        ("toggle-autocorrect", Command::ToggleAutocorrect),
        ("toggle-autocomplete", Command::ToggleAutocomplete),
        ("toggle-terminal-auto", Command::ToggleTerminalAuto),
        ("set-hotkey", Command::SetHotkey),
        ("set-accept-key", Command::SetAcceptKey),
        ("open-config", Command::OpenConfig),
        ("reload-config", Command::ReloadConfig),
        ("export-autocomplete-counters", Command::ExportAutocompleteCounters),
        ("import-autocomplete-counters", Command::ImportAutocompleteCounters),
        ("toggle-autostart", Command::ToggleAutostart),
        ("quit", Command::Quit),
    ];
    for (id, expected) in cases {
        assert_eq!(command_for_menu_id(id), Some(expected));
    }
    assert_eq!(command_for_menu_id("unknown"), None);
}
