//! The global hotkey binding, parsed from its text form (`ctrl+shift+m`).
use vstd::prelude::*;
use vstd::string::*;

verus! {

#[verifier::external_type_specification]
#[verifier::external_body]
pub struct ExHotKey(global_hotkey::hotkey::HotKey);

#[verifier::external_type_specification]
#[verifier::external_body]
pub struct ExHotKeyParseError(global_hotkey::hotkey::HotKeyParseError);

/// Whether global_hotkey's parser accepts a hotkey text.
pub uninterp spec fn hotkey_accepted(text: Seq<char>) -> bool;

/// Relies on `HotKey`'s `FromStr` impl in global_hotkey: `Ok` exactly for the
/// texts it accepts (modifiers first, then one known key, joined by `+`).
#[verifier::external_body]
fn parse_hotkey_text(text: &str) -> (r: Result<global_hotkey::hotkey::HotKey, global_hotkey::hotkey::HotKeyParseError>)
    ensures
        r is Ok == hotkey_accepted(text@),
{
    text.parse::<global_hotkey::hotkey::HotKey>()
}

/// A hotkey text that could not be parsed.
#[derive(Debug)]
pub struct HotkeyError {
    pub text: String,
}

/// Parses a hotkey text such as `ctrl+shift+m` into a binding. Fails, with the
/// text, on an unknown modifier or key, an empty token, or keys out of order.
pub fn parse_binding(text: &str) -> (r: Result<global_hotkey::hotkey::HotKey, HotkeyError>)
    ensures
        r is Ok == hotkey_accepted(text@),
        r is Err ==> r->Err_0.text@ == text@,
{
    match parse_hotkey_text(text) {
        Ok(h) => Ok(h),
        Err(_) => Err(HotkeyError { text: String::from_str(text) }),
    }
}

} // verus!
