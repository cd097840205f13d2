use mxks::autostart::{desktop_entry, plist, run_value, xml_escape};

#[test]
fn desktop_entry_quotes_the_executable() {
    let body = desktop_entry("/some dir/mx-keyboard-switcher");
    assert!(body.contains("[Desktop Entry]"));
    assert!(body.contains("Exec=\"/some dir/mx-keyboard-switcher\""));
    assert_eq!(
        body,
        "[Desktop Entry]\nType=Application\nName=MX Keyboard Switcher\nExec=\"/some dir/mx-keyboard-switcher\"\nX-GNOME-Autostart-enabled=true\n"
    );
}

#[test]
fn plist_escapes_the_executable() {
    assert_eq!(xml_escape("a&b<c>d"), "a&amp;b&lt;c&gt;d");
    let p = plist("/Apps/R&D <x>");
    assert!(p.contains("<string>/Apps/R&amp;D &lt;x&gt;</string>"));
    assert!(p.contains("<string>com.itmaxk.mx-keyboard-switcher</string>"));
    assert!(p.starts_with("<?xml version=\"1.0\" encoding=\"UTF-8\"?>\n"));
}

#[test]
fn registry_value_is_the_quoted_path() {
    assert_eq!(run_value("C:\\Program Files\\mx.exe"), "\"C:\\Program Files\\mx.exe\"");
}
