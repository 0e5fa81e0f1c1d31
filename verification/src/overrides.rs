//! Configuration overrides: JSON on the way in, TOML for the plugin.

use vstd::prelude::*;

use crate::json::{object_members, object_members_of};

verus! {

/// A TOML value. It is carried through to the plugin and not looked into.
#[verifier::external_type_specification]
#[verifier::external_body]
pub struct ExTomlValue(toml::Value);

/// What `serde_json` makes of a JSON text that is to be a TOML value: the value, or the words in
/// which it says what is wrong.
pub uninterp spec fn json_as_toml(text: Seq<char>) -> Result<toml::Value, Seq<char>>;

/// `serde_json::from_str` at the type `toml::Value`.
#[verifier::external_body]
pub(crate) fn toml_from_json(text: &str) -> (r: Result<toml::Value, String>)
    ensures
        match r {
            Ok(value) => json_as_toml(text@) == Ok::<toml::Value, Seq<char>>(value),
            Err(words) => json_as_toml(text@) == Err::<toml::Value, Seq<char>>(words@),
        },
{
    serde_json::from_str::<toml::Value>(text).map_err(|e| e.to_string())
}

/// What is said of overrides that are no object.
pub const NOT_A_TABLE_TEXT: &'static str =
    "config_overrides must be a JSON object; null, scalars, and arrays are rejected";

/// The table that overrides write, or what is wrong with them: they have to be an object.
pub open spec fn table_of(text: Seq<char>) -> Result<toml::Value, Seq<char>> {
    if object_members_of(text) is Some {
        json_as_toml(text)
    } else {
        Err(NOT_A_TABLE_TEXT@)
    }
}

/// Reads overrides that have to be an object.
pub fn table_from_json(text: &str) -> (r: Result<toml::Value, String>)
    ensures
        match r {
            Ok(value) => table_of(text@) == Ok::<toml::Value, Seq<char>>(value),
            Err(words) => table_of(text@) == Err::<toml::Value, Seq<char>>(words@),
        },
{
    if object_members(text).is_some() {
        toml_from_json(text)
    } else {
        Err(NOT_A_TABLE_TEXT.to_owned())
    }
}

} // verus!
