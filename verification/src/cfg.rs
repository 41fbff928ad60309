//! The settings consumed once at startup, as plain optional values. Loading
//! them from the settings file is the caller's business; absent entries fall
//! back to fixed defaults here.

use vstd::prelude::*;
use vstd::string::StringExecFns;

verus! {

/// The settings the translation loops read: the endpoint to call and the
/// window theme. An absent entry means "use the default".
#[derive(Debug)]
pub struct Settings {
    pub api: Option<String>,
    pub theme: Option<String>,
}

/// The endpoint used when none is configured.
pub open spec fn default_api() -> Seq<char> {
    "https://deepl.deno.dev/translate"@
}

/// The theme used when none is configured.
pub open spec fn default_theme() -> Seq<char> {
    "dark"@
}

impl Settings {
    /// No entries configured at all: every lookup falls back to its default.
    pub fn new() -> (r: Settings)
        ensures
            r.api is None,
            r.theme is None,
    {
        Settings { api: None, theme: None }
    }
}

/// The configured translation endpoint, or the default endpoint.
pub fn get_api(settings: &Settings) -> (r: String)
    ensures
        r@ == (match settings.api {
            Some(a) => a@,
            None => default_api(),
        }),
{
    match &settings.api {
        Some(a) => a.clone(),
        None => String::from_str("https://deepl.deno.dev/translate"),
    }
}

/// The configured window theme, or the default theme.
pub fn get_theme(settings: &Settings) -> (r: String)
    ensures
        r@ == (match settings.theme {
            Some(t) => t@,
            None => default_theme(),
        }),
{
    match &settings.theme {
        Some(t) => t.clone(),
        None => String::from_str("dark"),
    }
}

} // verus!
