//! The configuration data model and its validation rules.

use vstd::prelude::*;
use crate::text::contains_seq;
use crate::text::contains_substr;
use vstd::string::StrSliceExecFns;

verus! {

/// One configured tunnel instance: a unique name, the local port to expose,
/// the tunnel protocol, the auth token and the region.
#[derive(Debug, Clone)]
pub struct NgrokInstance {
    pub name: String,
    pub authtoken: String,
    pub port: u16,
    pub protocol: String,
    pub region: String,
}

/// One notification sink: a display name, its kind ("discord" or "generic"),
/// the endpoint URL and an on/off switch.
#[derive(Debug, Clone)]
pub struct Webhook {
    pub name: String,
    pub kind: String,
    pub url: String,
    pub enabled: bool,
}

/// Global supervisor settings.
#[derive(Debug, Clone)]
pub struct Settings {
    pub check_interval_seconds: u64,
    pub auto_restart: bool,
    pub log_level: String,
}

/// The whole configuration handed to the supervisor at startup.
#[derive(Debug, Clone)]
pub struct Config {
    pub ngrok_instances: Vec<NgrokInstance>,
    pub webhooks: Vec<Webhook>,
    pub settings: Settings,
}

/// An auth token is acceptable iff it is non-empty and does not look like a
/// placeholder left in a configuration template (it must not contain
/// `your_`, as in `your_token_here`).
pub open spec fn token_valid(tok: Seq<char>) -> bool {
    tok.len() > 0 && !contains_seq(tok, "your_"@)
}

/// Decides `token_valid` for a real token.
pub fn token_is_valid(tok: &String) -> (r: bool)
    ensures
        r == token_valid(tok@),
{
    let s = tok.as_str();
    if s.unicode_len() == 0 {
        return false;
    }
    !contains_substr(s, "your_")
}

} // verus!
