//! The settings file: which hotkey toggles the microphone, and the text
//! written when no settings file exists yet.
use vstd::prelude::*;
use vstd::string::*;

verus! {

/// Directory under the home directory that holds the settings file.
pub const SETTINGS_DIR: &'static str = ".muter";

/// Name of the settings file inside [`SETTINGS_DIR`].
pub const SETTINGS_FILE: &'static str = "settings.toml";

/// What a TOML document holds as a string under a top-level key, if it parses
/// and the key holds a string.
pub uninterp spec fn toml_string_entry(text: Seq<char>, key: Seq<char>) -> Option<Seq<char>>;

pub open spec fn spec_default_hotkey() -> Seq<char> {
    "ctrl+shift+m"@
}

pub open spec fn spec_hotkey_key() -> Seq<char> {
    "hotkey"@
}

/// The hotkey that a settings document selects: its `hotkey` string, or the default.
pub open spec fn hotkey_of_document(text: Seq<char>) -> Seq<char> {
    match toml_string_entry(text, spec_hotkey_key()) {
        Some(h) => h,
        None => spec_default_hotkey(),
    }
}

/// The commented usage notes at the top of a freshly written settings file.
pub open spec fn settings_header() -> Seq<char> {
    "# Muter settings\n#\n# Hotkey to toggle microphone mute\n# Modifiers: ctrl, shift, alt, super\n# Keys: a-z, 0-9, F1-F12, Space, Tab, etc.\n#\n# Examples:\n#   hotkey = \"ctrl+shift+m\"\n#   hotkey = \"ctrl+alt+m\"\n#   hotkey = \"super+shift+a\"\n#   hotkey = \"ctrl+F9\"\n\n"@
}

/// The full text of a settings file that binds `hotkey`.
pub open spec fn settings_text(hotkey: Seq<char>) -> Seq<char> {
    settings_header() + "hotkey = \""@ + hotkey + "\"\n"@
}

/// Relies on `toml::from_str` into a `toml::Table`, then `Table::get`: the string
/// stored under `key` in the document `text`; `None` where the text is not TOML
/// or the key is absent or holds another kind of value.
#[verifier::external_body]
fn toml_string_value(text: &str, key: &str) -> (r: Option<String>)
    ensures
        toml_string_entry(text@, key@) == match r {
            Some(s) => Some(s@),
            None => None::<Seq<char>>,
        },
{
    match toml::from_str::<toml::Table>(text) {
        Ok(table) => match table.get(key) {
            Some(toml::Value::String(s)) => Some(s.clone()),
            _ => None,
        },
        Err(_) => None,
    }
}

/// The hotkey used when the settings name none.
pub fn default_hotkey() -> (r: String)
    ensures
        r@ == spec_default_hotkey(),
{
    String::from_str("ctrl+shift+m")
}

/// The hotkey to bind given what the settings' `hotkey` entry held: that
/// string, or the default where there was none.
pub fn hotkey_or_default(found: Option<String>) -> (r: String)
    ensures
        r@ == match found {
            Some(h) => h@,
            None => spec_default_hotkey(),
        },
{
    match found {
        Some(h) => h,
        None => default_hotkey(),
    }
}

/// The hotkey selected by the text of a settings file: its `hotkey` string,
/// or the default where the text is not TOML or names no hotkey string.
pub fn hotkey_from_text(text: &str) -> (r: String)
    ensures
        r@ == hotkey_of_document(text@),
{
    hotkey_or_default(toml_string_value(text, "hotkey"))
}

/// The text of a settings file that binds `hotkey`, with usage notes above it.
pub fn settings_file_content(hotkey: &str) -> (r: String)
    ensures
        r@ == settings_text(hotkey@),
{
    let mut s = String::from_str(
        "# Muter settings\n#\n# Hotkey to toggle microphone mute\n# Modifiers: ctrl, shift, alt, super\n# Keys: a-z, 0-9, F1-F12, Space, Tab, etc.\n#\n# Examples:\n#   hotkey = \"ctrl+shift+m\"\n#   hotkey = \"ctrl+alt+m\"\n#   hotkey = \"super+shift+a\"\n#   hotkey = \"ctrl+F9\"\n\n",
    );
    s.append("hotkey = \"");
    s.append(hotkey);
    s.append("\"\n");
    s
}

/// The outcome of reading the settings: the hotkey to bind, and the text to
/// write as a new settings file where none could be read.
pub struct LoadedSettings {
    pub hotkey: String,
    pub create: Option<String>,
}

/// What reading the settings file gave.
pub enum SettingsRead {
    /// There is no settings file.
    Missing,
    /// A file is there but could not be read as text (no permission, not UTF-8).
    Unreadable,
    /// The file's text.
    Text(String),
}

/// Decides the settings from what reading the file gave. A missing file is
/// created, binding the default hotkey; an unreadable or malformed one is left
/// as it is, and the default hotkey is used in its place.
pub fn load_settings(read: &SettingsRead) -> (r: LoadedSettings)
    ensures
        match read {
            SettingsRead::Missing => r.hotkey@ == spec_default_hotkey() && r.create is Some
                && r.create->0@ == settings_text(spec_default_hotkey()),
            SettingsRead::Unreadable => r.hotkey@ == spec_default_hotkey() && r.create is None,
            SettingsRead::Text(text) => r.hotkey@ == hotkey_of_document(text@) && r.create is None,
        },
{
    match read {
        SettingsRead::Missing => {
            let hotkey = default_hotkey();
            let create = settings_file_content(hotkey.as_str());
            LoadedSettings { hotkey, create: Some(create) }
        },
        SettingsRead::Unreadable => LoadedSettings { hotkey: default_hotkey(), create: None },
        SettingsRead::Text(text) => LoadedSettings {
            hotkey: hotkey_from_text(text.as_str()),
            create: None,
        },
    }
}

} // verus!
