//! Editing one key of the configuration file's text while keeping its
//! comments, layout and other tables. The document model is `toml_edit`'s;
//! whether a text is a valid configuration is decided by the application's
//! schema parser and handed in.

use vstd::prelude::*;

verus! {

/// A value written into the configuration file.
#[derive(Clone, Debug)]
pub enum ConfigValue {
    /// A TOML boolean.
    Flag(bool),
    /// A TOML string (escaped as TOML requires).
    Text(String),
}

/// The mathematical value of a [`ConfigValue`].
pub enum ConfigValueView {
    Flag(bool),
    Text(Seq<char>),
}

impl View for ConfigValue {
    type V = ConfigValueView;

    open spec fn view(&self) -> ConfigValueView {
        match self {
            ConfigValue::Flag(b) => ConfigValueView::Flag(*b),
            ConfigValue::Text(s) => ConfigValueView::Text(s@),
        }
    }
}

/// Why a configuration key was not updated.
#[derive(Clone, Debug, PartialEq, Eq)]
pub enum ConfigEditError {
    /// The text is not a valid configuration; it is not overwritten with a
    /// partly repaired document.
    InvalidConfig,
    /// The TOML document could not be edited (the message of the editor).
    Toml(String),
}

/// What `toml_edit` makes of setting `[section] key = value` in `text`: the
/// whole document written back with the value in place (keeping the old
/// value's comments and spacing), or the editor's error message.
pub uninterp spec fn toml_set_result(
    text: Seq<char>,
    section: Seq<char>,
    key: Seq<char>,
    value: ConfigValueView,
) -> Result<Seq<char>, Seq<char>>;

/// A text-or-message result by the views of its strings.
pub open spec fn text_result(r: Result<String, String>) -> Result<Seq<char>, Seq<char>> {
    match r {
        Ok(s) => Ok(s@),
        Err(e) => Err(e@),
    }
}

/// Parses `text` as a `toml_edit::Document`, sets `[section] key = value`
/// (carrying over the decoration of the value it replaces), and writes the
/// document back; a parse error, or a `section` that is not a table, gives
/// the error message. Claimed: the result is the named [`toml_set_result`]
/// of the arguments.
#[verifier::external_body]
fn toml_set(text: &str, section: &str, key: &str, value: &ConfigValue) -> (r: Result<String, String>)
    ensures
        text_result(r) == toml_set_result(text@, section@, key@, value@),
{
    let mut doc = match text.parse::<toml_edit::Document>() { Ok(d) => d, Err(e) => return Err(e.to_string()) };
    let mut v: toml_edit::Value = match value { ConfigValue::Flag(b) => (*b).into(), ConfigValue::Text(s) => s.as_str().into() };
    if let Some(table) = doc.get(section) {
        if let Some(old) = table.get(key).and_then(toml_edit::Item::as_value) {
            *v.decor_mut() = old.decor().clone();
        }
    }
    let Some(slot) = doc[section].get_mut(key) else { return Err(format!("[{section}] is not a table")) };
    *slot = toml_edit::Item::Value(v);
    Ok(doc.to_string())
}

/// Set `[section] key = value` in the configuration text `text`. `valid`
/// says whether `text` is a valid configuration; an invalid one is refused
/// rather than overwritten. Otherwise the result is the edited document, or
/// the editor's error.
pub fn update_key(text: &str, section: &str, key: &str, value: ConfigValue, valid: bool) -> (r: Result<
    String,
    ConfigEditError,
>)
    ensures
        !valid ==> r == Err::<String, ConfigEditError>(ConfigEditError::InvalidConfig),
        valid ==> match toml_set_result(text@, section@, key@, value@) {
            Ok(out) => r matches Ok(s) && s@ == out,
            Err(e) => r matches Err(ConfigEditError::Toml(m)) && m@ == e,
        },
{
    if !valid {
        return Err(ConfigEditError::InvalidConfig);
    }
    match toml_set(text, section, key, &value) {
        Ok(out) => Ok(out),
        Err(e) => Err(ConfigEditError::Toml(e)),
    }
}

} // verus!
