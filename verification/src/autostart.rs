//! The "start at login" records the installers create, as text: the Linux
//! desktop entry, the macOS launch-agent property list, and the Windows
//! registry value. Whether a record exists, and writing or removing it, is
//! the application's work.

use vstd::prelude::*;

use crate::text::{chars_of, push_char, push_str};

verus! {

broadcast use vstd::string::group_string_axioms;

/// The text before the executable path in the desktop entry.
pub open spec fn desktop_head() -> Seq<char> {
    "[Desktop Entry]\nType=Application\nName=MX Keyboard Switcher\nExec=\""@
}

/// The text after the executable path in the desktop entry.
pub open spec fn desktop_tail() -> Seq<char> {
    "\"\nX-GNOME-Autostart-enabled=true\n"@
}

/// The autostart desktop entry for `exe`; the path is quoted, as the
/// Desktop Entry specification asks for paths with spaces.
pub fn desktop_entry(exe: &str) -> (r: String)
    ensures
        r@ == desktop_head() + exe@ + desktop_tail(),
{
    let mut s = String::new();
    push_str(&mut s, "[Desktop Entry]\nType=Application\nName=MX Keyboard Switcher\nExec=\"");
    push_str(&mut s, exe);
    push_str(&mut s, "\"\nX-GNOME-Autostart-enabled=true\n");
    s
}

/// The XML escape of one char: `&`, `<` and `>` become entities.
pub open spec fn xml_char(c: char) -> Seq<char> {
    if c == '&' {
        seq!['&', 'a', 'm', 'p', ';']
    } else if c == '<' {
        seq!['&', 'l', 't', ';']
    } else if c == '>' {
        seq!['&', 'g', 't', ';']
    } else {
        seq![c]
    }
}

/// The XML escape of a text, char by char.
pub open spec fn xml_text(s: Seq<char>) -> Seq<char>
    decreases s.len(),
{
    if s.len() == 0 {
        seq![]
    } else {
        xml_text(s.drop_last()) + xml_char(s.last())
    }
}

/// Escape `&`, `<` and `>` for XML text.
pub fn xml_escape(s: &str) -> (r: String)
    ensures
        r@ == xml_text(s@),
{
    let v = chars_of(s);
    let mut out = String::new();
    let mut i: usize = 0;
    while i < v.len()
        invariant
            i <= v.len(),
            out@ == xml_text(v@.take(i as int)),
        decreases v.len() - i,
    {
        let c = v[i];
        assert(v@.take(i + 1).drop_last() =~= v@.take(i as int));
        if c == '&' {
            push_char(&mut out, '&');
            push_char(&mut out, 'a');
            push_char(&mut out, 'm');
            push_char(&mut out, 'p');
            push_char(&mut out, ';');
        } else if c == '<' {
            push_char(&mut out, '&');
            push_char(&mut out, 'l');
            push_char(&mut out, 't');
            push_char(&mut out, ';');
        } else if c == '>' {
            push_char(&mut out, '&');
            push_char(&mut out, 'g');
            push_char(&mut out, 't');
            push_char(&mut out, ';');
        } else {
            push_char(&mut out, c);
        }
        assert(out@ =~= xml_text(v@.take(i + 1)));
        i = i + 1;
    }
    assert(v@.take(v.len() as int) =~= v@);
    out
}

/// The text before the escaped executable path in the launch agent.
pub open spec fn plist_head() -> Seq<char> {
    "<?xml version=\"1.0\" encoding=\"UTF-8\"?>\n<!DOCTYPE plist PUBLIC \"-//Apple//DTD PLIST 1.0//EN\" \"http://www.apple.com/DTDs/PropertyList-1.0.dtd\">\n<plist version=\"1.0\">\n  <dict>\n    <key>Label</key>\n    <string>com.itmaxk.mx-keyboard-switcher</string>\n    <key>ProgramArguments</key>\n    <array>\n      <string>"@
}

/// The text after the escaped executable path in the launch agent.
pub open spec fn plist_tail() -> Seq<char> {
    "</string>\n    </array>\n    <key>RunAtLoad</key>\n    <true/>\n    <key>KeepAlive</key>\n    <dict>\n      <key>SuccessfulExit</key>\n      <false/>\n    </dict>\n  </dict>\n</plist>\n"@
}

/// The launch-agent property list that starts `exe` at login (and restarts
/// it after a crash).
pub fn plist(exe: &str) -> (r: String)
    ensures
        r@ == plist_head() + xml_text(exe@) + plist_tail(),
{
    let escaped = xml_escape(exe);
    let mut s = String::new();
    push_str(&mut s, "<?xml version=\"1.0\" encoding=\"UTF-8\"?>\n<!DOCTYPE plist PUBLIC \"-//Apple//DTD PLIST 1.0//EN\" \"http://www.apple.com/DTDs/PropertyList-1.0.dtd\">\n<plist version=\"1.0\">\n  <dict>\n    <key>Label</key>\n    <string>com.itmaxk.mx-keyboard-switcher</string>\n    <key>ProgramArguments</key>\n    <array>\n      <string>");
    push_str(&mut s, escaped.as_str());
    push_str(&mut s, "</string>\n    </array>\n    <key>RunAtLoad</key>\n    <true/>\n    <key>KeepAlive</key>\n    <dict>\n      <key>SuccessfulExit</key>\n      <false/>\n    </dict>\n  </dict>\n</plist>\n");
    s
}

/// The registry `Run` value for `exe`: the quoted path.
pub fn run_value(exe: &str) -> (r: String)
    ensures
        r@ == seq!['"'] + exe@ + seq!['"'],
{
    let mut s = String::new();
    push_char(&mut s, '"');
    push_str(&mut s, exe);
    push_char(&mut s, '"');
    s
}

} // verus!
