use vstd::prelude::*;
use dprint_core::configuration::ConfigKeyValue;
use crate::args::opt_text;
use crate::settings::Setting;

verus! {

#[verifier::external_type_specification]
#[verifier::external_body]
pub struct ExConfigKeyValue(ConfigKeyValue);

/// dprint_core's `ConfigKeyValue::from_bool`: a boolean option value.
pub assume_specification[ ConfigKeyValue::from_bool ](value: bool) -> ConfigKeyValue;

/// dprint_core's `ConfigKeyValue::from_i32`: an integer option value.
pub assume_specification[ ConfigKeyValue::from_i32 ](value: i32) -> ConfigKeyValue;

/// dprint_core's `ConfigKeyValue::from_str`: a string option value.
pub assume_specification[ ConfigKeyValue::from_str ](value: &str) -> ConfigKeyValue;

/// What the engine makes of a text, given the file path and extension it is
/// told, and the overrides laid over its defaults: `Ok(None)` when nothing
/// changes, `Ok(Some(t))` with the new text, `Err` with its message.
pub uninterp spec fn engine_outcome(
    path: Seq<char>,
    extension: Seq<char>,
    text: Seq<char>,
    overrides: Seq<(Seq<char>, Setting)>,
) -> Result<Option<Seq<char>>, Seq<char>>;

pub open spec fn entries_view(ov: Seq<(String, Setting)>) -> Seq<(Seq<char>, Setting)> {
    ov.map_values(|p: (String, Setting)| (p.0@, p.1))
}

pub open spec fn outcome_view(r: Result<Option<String>, String>) -> Result<
    Option<Seq<char>>,
    Seq<char>,
> {
    match r {
        Ok(o) => Ok(opt_text(o)),
        Err(e) => Err(e@),
    }
}

fn config_value(s: &Setting) -> ConfigKeyValue {
    match s {
        Setting::Bool(b) => ConfigKeyValue::from_bool(*b),
        Setting::Int(i) => ConfigKeyValue::from_i32(*i),
        Setting::Text(t) => ConfigKeyValue::from_str(t.as_str()),
    }
}

/// Relies on dprint_plugin_typescript::configuration::resolve_config, which
/// merges the overrides onto the plugin's defaults under the default global
/// configuration (its diagnostics are not consulted), and on
/// dprint_plugin_typescript::format_text with that configuration. The
/// outcome depends on the arguments alone.
#[verifier::external_body]
fn run_engine(path: &str, extension: &str, text: &String, overrides: &Vec<(String, Setting)>) -> (r:
    Result<Option<String>, String>)
    ensures
        outcome_view(r) == engine_outcome(path@, extension@, text@, entries_view(overrides@)),
{
    let map = overrides.iter().map(|(k, v)| (k.clone(), config_value(v))).collect();
    let resolved = dprint_plugin_typescript::configuration::resolve_config(map, &Default::default());
    dprint_plugin_typescript::format_text(
        dprint_plugin_typescript::FormatTextOptions {
            path: std::path::Path::new(path),
            extension: Some(extension),
            text: text.clone(),
            config: &resolved.config,
            external_formatter: None,
        },
    ).map_err(|e| e.to_string())
}

/// The file path the engine is told: its extension marks script source.
pub open spec fn script_path() -> Seq<char> {
    "input.js"@
}

pub open spec fn script_extension() -> Seq<char> {
    "js"@
}

/// Formats `code` as script source, with the overrides laid over the
/// engine's defaults; the text reaches the engine as it is.
pub fn format_source(code: &String, overrides: &Vec<(String, Setting)>) -> (r: Result<
    Option<String>,
    String,
>)
    ensures
        outcome_view(r) == engine_outcome(
            script_path(),
            script_extension(),
            code@,
            entries_view(overrides@),
        ),
{
    run_engine("input.js", "js", code, overrides)
}

} // verus!
