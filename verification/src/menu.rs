//! What the tray menu shows for an engine status, and which command each
//! menu entry sends.

use vstd::prelude::*;

use crate::engine::{Command, Status};
use crate::text::{chars_eq, chars_of, push_str, string_from};

verus! {

broadcast use vstd::string::group_string_axioms;

/// The state of the tray menu's entries.
#[derive(Clone, Debug)]
pub struct MenuView {
    pub enabled: bool,
    pub autocorrect: bool,
    pub autocomplete: bool,
    pub terminal_auto: bool,
    pub autostart: bool,
    pub hotkey_text: String,
    pub accept_key_text: String,
    /// Whether "change hotkey" and "change accept key" can be chosen (not
    /// while a key is being captured).
    pub capture_actions_enabled: bool,
}

/// The label shown while waiting for a key.
pub open spec fn press_a_key() -> Seq<char> {
    "Press a key…"@
}

/// The label of the hotkey entry for the current hotkey `hotkey`.
pub open spec fn hotkey_label(hotkey: Seq<char>) -> Seq<char> {
    "Change hotkey (now: "@ + hotkey + ")"@
}

/// The label of the accept-key entry for the current accept key `key`.
pub open spec fn accept_label(key: Seq<char>) -> Seq<char> {
    "Change accept key (now: "@ + key + ")"@
}

impl MenuView {
    /// The menu for `status`: the switches as check marks, and the two
    /// "change key" entries labelled with the current keys, or disabled and
    /// labelled "Press a key…" while capturing.
    pub fn from_status(status: &Status) -> (r: MenuView)
        ensures
            r.enabled == status.enabled,
            r.autocorrect == status.autocorrect,
            r.autocomplete == status.autocomplete,
            r.terminal_auto == status.terminal_auto,
            r.autostart == status.autostart,
            r.capture_actions_enabled == !status.capturing,
            r.hotkey_text@ == if status.capturing {
                press_a_key()
            } else {
                hotkey_label(status.hotkey@)
            },
            r.accept_key_text@ == if status.capturing {
                press_a_key()
            } else {
                accept_label(status.accept_key@)
            },
    {
        let capture_actions_enabled = !status.capturing;
        let hotkey_text = if capture_actions_enabled {
            let mut s = string_from("Change hotkey (now: ");
            push_str(&mut s, status.hotkey.as_str());
            push_str(&mut s, ")");
            s
        } else {
            string_from("Press a key…")
        };
        let accept_key_text = if capture_actions_enabled {
            let mut s = string_from("Change accept key (now: ");
            push_str(&mut s, status.accept_key.as_str());
            push_str(&mut s, ")");
            s
        } else {
            string_from("Press a key…")
        };
        MenuView {
            enabled: status.enabled,
            autocorrect: status.autocorrect,
            autocomplete: status.autocomplete,
            terminal_auto: status.terminal_auto,
            autostart: status.autostart,
            hotkey_text,
            accept_key_text,
            capture_actions_enabled,
        }
    }
}

/// The command of each menu entry id.
pub open spec fn menu_command(id: Seq<char>) -> Option<Command> {
    if id == "toggle-enabled"@ {
        Some(Command::ToggleEnabled)
    } else if id == "toggle-autocorrect"@ {
        Some(Command::ToggleAutocorrect)
    } else if id == "toggle-autocomplete"@ {
        Some(Command::ToggleAutocomplete)
    } else if id == "toggle-terminal-auto"@ {
        Some(Command::ToggleTerminalAuto)
    } else if id == "set-hotkey"@ {
        Some(Command::SetHotkey)
    } else if id == "set-accept-key"@ {
        Some(Command::SetAcceptKey)
    } else if id == "open-config"@ {
        Some(Command::OpenConfig)
    } else if id == "reload-config"@ {
        Some(Command::ReloadConfig)
    } else if id == "export-autocomplete-counters"@ {
        Some(Command::ExportAutocompleteCounters)
    } else if id == "import-autocomplete-counters"@ {
        Some(Command::ImportAutocompleteCounters)
    } else if id == "toggle-autostart"@ {
        Some(Command::ToggleAutostart)
    } else if id == "quit"@ {
        Some(Command::Quit)
    } else {
        None
    }
}

fn same(a: &Vec<char>, lit: &str) -> (r: bool)
    ensures
        r == (a@ == lit@),
{
    let b = chars_of(lit);
    chars_eq(a.as_slice(), b.as_slice())
}

/// The command a menu entry sends, by its id.
pub fn command_for_menu_id(id: &str) -> (r: Option<Command>)
    ensures
        r == menu_command(id@),
{
    let v = chars_of(id);
    if same(&v, "toggle-enabled") {
        Some(Command::ToggleEnabled)
    } else if same(&v, "toggle-autocorrect") {
        Some(Command::ToggleAutocorrect)
    } else if same(&v, "toggle-autocomplete") {
        Some(Command::ToggleAutocomplete)
    } else if same(&v, "toggle-terminal-auto") {
        Some(Command::ToggleTerminalAuto)
    } else if same(&v, "set-hotkey") {
        Some(Command::SetHotkey)
    } else if same(&v, "set-accept-key") {
        Some(Command::SetAcceptKey)
    } else if same(&v, "open-config") {
        Some(Command::OpenConfig)
    } else if same(&v, "reload-config") {
        Some(Command::ReloadConfig)
    } else if same(&v, "export-autocomplete-counters") {
        Some(Command::ExportAutocompleteCounters)
    } else if same(&v, "import-autocomplete-counters") {
        Some(Command::ImportAutocompleteCounters)
    } else if same(&v, "toggle-autostart") {
        Some(Command::ToggleAutostart)
    } else if same(&v, "quit") {
        Some(Command::Quit)
    } else {
        None
    }
}

} // verus!
