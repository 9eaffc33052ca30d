use vstd::prelude::*;
use crate::settings::Setting;
use crate::json::{parse_config, json_text_valid, json_of, typescript_members};
use crate::settings::overrides_spec;
use crate::engine::{format_source, engine_outcome, entries_view, script_path, script_extension};
use crate::report::printed;
use crate::report::{Failure, reply_for};

verus! {

/// The overrides of the configuration file at `path`, given what reading it
/// gave: a read failure or a document that is not JSON fails with the path
/// and the underlying message.
pub fn load_overrides(path: String, read: Result<String, String>) -> (r: Result<
    Vec<(String, Setting)>,
    Failure,
>)
    ensures
        match read {
            Err(d) => r == Err::<Vec<(String, Setting)>, Failure>(Failure::LoadConfig(path, d)),
            Ok(text) => r is Ok == json_text_valid(text@) && (r is Ok ==> r->Ok_0@ == overrides_spec(
                typescript_members(json_of(text@)),
            )) && (r is Err ==> r->Err_0 is LoadConfig && r->Err_0->LoadConfig_0 == path),
        },
{
    match read {
        Err(d) => Err(Failure::LoadConfig(path, d)),
        Ok(text) => match parse_config(text.as_str()) {
            Ok(o) => Ok(o),
            Err(d) => Err(Failure::LoadConfig(path, d)),
        },
    }
}

/// Formats `code` with the overrides and returns the text to print: the
/// engine's new text, or `code` itself when nothing changed; the only failure
/// is the engine's, with its message.
pub fn format_invocation(code: String, overrides: &Vec<(String, Setting)>) -> (r: Result<
    String,
    Failure,
>)
    ensures
        match engine_outcome(script_path(), script_extension(), code@, entries_view(overrides@)) {
            Ok(o) => r is Ok && r->Ok_0@ == printed(code@, o),
            Err(m) => r is Err && r->Err_0 is Format && r->Err_0->Format_0@ == m,
        },
{
    let outcome = format_source(&code, overrides);
    reply_for(code, outcome)
}

} // verus!
