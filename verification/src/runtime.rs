use vstd::prelude::*;

use crate::strings::str_eq;

verus! {

/// The string found under `key` at the top level of the JSON text `json`:
/// `None` where the text is not JSON, is not an object, has no such key, or
/// holds something other than a string there.
pub uninterp spec fn json_string_at(json: Seq<char>, key: Seq<char>) -> Option<Seq<char>>;

/// Parses `json` with `serde_json::from_str` into a `serde_json::Value`,
/// reads the member `key` of it with `Value::get` and takes that member's
/// text with `Value::as_str`, which answers `None` for anything but a JSON
/// string. The result is named: it depends on the two arguments alone.
#[verifier::external_body]
fn json_get_string(json: &str, key: &str) -> (r: Option<String>)
    ensures
        r.deep_view() == json_string_at(json@, key@),
{
    match serde_json::from_str::<serde_json::Value>(json) {
        Ok(value) => match value.get(key) {
            Some(member) => member.as_str().map(String::from),
            None => None,
        },
        Err(_) => None,
    }
}

/// The settings that the runtime configuration handed to `start` provides.
pub struct RuntimeConfig {
    /// Where the app keeps its data.
    pub data_folder: String,
}

/// The data folder that a runtime configuration names, or `/tmp/` where it
/// names none.
pub open spec fn spec_data_folder(field: Option<Seq<char>>) -> Seq<char> {
    match field {
        Some(folder) => folder,
        None => "/tmp/"@,
    }
}

/// The data folder, given what the runtime configuration holds under
/// `data_folder`: that string, or `/tmp/` where there is none.
pub fn data_folder_or_default(field: Option<String>) -> (r: String)
    ensures
        r@ == spec_data_folder(field.deep_view()),
        field matches Some(folder) ==> r@ == folder@,
        field is None ==> r@ == "/tmp/"@,
{
    match field {
        Some(folder) => folder,
        None => String::from_str("/tmp/"),
    }
}

/// Reads the runtime configuration, a JSON object given as text, and takes
/// the values the app cares about from it. Text that is not a JSON object
/// counts as an empty object; a missing `data_folder` becomes `/tmp/`.
pub fn process_runtime_config(config_str: &str) -> (r: RuntimeConfig)
    ensures
        r.data_folder@ == spec_data_folder(json_string_at(config_str@, "data_folder"@)),
        json_string_at(config_str@, "data_folder"@) matches Some(folder) ==> r.data_folder@ == folder,
        json_string_at(config_str@, "data_folder"@) is None ==> r.data_folder@ == "/tmp/"@,
{
    let field = json_get_string(config_str, "data_folder");
    RuntimeConfig { data_folder: data_folder_or_default(field) }
}

/// Whether the app must create its data folder before it starts: always,
/// but for the in-memory store named `:memory:`.
pub fn needs_data_folder(data_folder: &str) -> (r: bool)
    ensures
        r == (data_folder@ != ":memory:"@),
{
    !str_eq(data_folder, ":memory:")
}

/// A data folder that the runtime configuration names is taken as it is,
/// whatever it holds; `/tmp/` stands in only where none is named.
pub proof fn lemma_data_folder_taken_as_given(folder: Seq<char>)
    ensures
        spec_data_folder(Some(folder)) == folder,
        spec_data_folder(None) == "/tmp/"@,
{
}

} // verus!
