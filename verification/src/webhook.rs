//! Verified decisions around notification sinks: which sinks are active,
//! which sender a sink's kind selects, and which style a message gets.
//! The payload bytes themselves and the HTTP delivery are the embedding
//! binary's business.

use vstd::prelude::*;
use crate::config::Webhook;
use crate::text::contains_seq;
use crate::text::contains_substr;
use crate::text::str_eq;
use crate::tunnel::NgrokTunnel;
use vstd::string::StringExecFns;

verus! {

/// Discord embed colour for error notifications.
pub const COLOR_ERROR: u32 = 15158332;

/// Discord embed colour for restart notifications.
pub const COLOR_RESTARTING: u32 = 16776960;

/// Discord embed colour for stop notifications.
pub const COLOR_STOPPED: u32 = 9807270;

/// Discord embed colour for start notifications.
pub const COLOR_STARTED: u32 = 5814783;

/// The sinks that notifications go to, in order: exactly those switched on.
pub open spec fn spec_enabled(ws: Seq<Webhook>) -> Seq<Webhook>
    decreases ws.len(),
{
    if ws.len() == 0 {
        Seq::empty()
    } else {
        let init = spec_enabled(ws.drop_last());
        if ws.last().enabled {
            init.push(ws.last())
        } else {
            init
        }
    }
}

fn clone_webhook(w: &Webhook) -> (r: Webhook)
    ensures
        r == *w,
{
    Webhook {
        name: w.name.clone(),
        kind: w.kind.clone(),
        url: w.url.clone(),
        enabled: w.enabled,
    }
}

/// Keeps exactly the sinks that are switched on, in configuration order.
pub fn enabled_webhooks(webhooks: &Vec<Webhook>) -> (r: Vec<Webhook>)
    ensures
        r@ == spec_enabled(webhooks@),
{
    let n = webhooks.len();
    let mut r: Vec<Webhook> = Vec::new();
    let mut i: usize = 0;
    while i < n
        invariant
            webhooks@.len() == n as int,
            i <= n,
            r@ == spec_enabled(webhooks@.take(i as int)),
        decreases n - i,
    {
        if webhooks[i].enabled {
            r.push(clone_webhook(&webhooks[i]));
        }
        proof {
            assert(webhooks@.take(i as int + 1).drop_last() =~= webhooks@.take(i as int));
            assert(webhooks@.take(i as int + 1).last() == webhooks@[i as int]);
            assert(r@ == spec_enabled(webhooks@.take(i as int + 1)));
        }
        i += 1;
    }
    proof {
        assert(webhooks@.take(n as int) =~= webhooks@);
    }
    r
}

/// One line per discovered tunnel: `- <public url> -> <local address>`.
pub open spec fn spec_tunnel_lines(ts: Seq<NgrokTunnel>) -> Seq<char>
    decreases ts.len(),
{
    if ts.len() == 0 {
        Seq::empty()
    } else {
        spec_tunnel_lines(ts.drop_last()) + "- "@ + ts.last().public_url@ + " -> "@
            + ts.last().config.addr@ + "\n"@
    }
}

/// The plain-text "tunnels are ready" message for the generic sinks: a
/// header naming the instance, then one line per tunnel.
pub open spec fn spec_ready_message(name: Seq<char>, ts: Seq<NgrokTunnel>) -> Seq<char> {
    "Ngrok tunnels for '"@ + name + "' are ready:\n"@ + spec_tunnel_lines(ts)
}

/// Composes `spec_ready_message` for real values.
pub fn generic_ready_message(instance_name: &String, tunnels: &Vec<NgrokTunnel>) -> (r: String)
    ensures
        r@ == spec_ready_message(instance_name@, tunnels@),
{
    let mut r = "Ngrok tunnels for '".to_owned();
    r.append(instance_name.as_str());
    r.append("' are ready:\n");
    let ghost header = r@;
    let n = tunnels.len();
    let mut i: usize = 0;
    while i < n
        invariant
            tunnels@.len() == n as int,
            i <= n,
            header == "Ngrok tunnels for '"@ + instance_name@ + "' are ready:\n"@,
            r@ == header + spec_tunnel_lines(tunnels@.take(i as int)),
        decreases n - i,
    {
        r.append("- ");
        r.append(tunnels[i].public_url.as_str());
        r.append(" -> ");
        r.append(tunnels[i].config.addr.as_str());
        r.append("\n");
        proof {
            assert(tunnels@.take(i as int + 1).drop_last() =~= tunnels@.take(i as int));
            assert(tunnels@.take(i as int + 1).last() == tunnels@[i as int]);
            assert(r@ =~= header + spec_tunnel_lines(tunnels@.take(i as int + 1)));
        }
        i += 1;
    }
    proof {
        assert(tunnels@.take(n as int) =~= tunnels@);
        assert(r@ =~= spec_ready_message(instance_name@, tunnels@));
    }
    r
}

/// Which sender a sink's `kind` string selects.
#[derive(Clone, Copy, Debug, PartialEq, Eq, Structural)]
pub enum WebhookKind {
    Discord,
    Generic,
    Unknown,
}

/// Classifies a sink by its `kind` string; anything but `discord` and
/// `generic` is unknown and only logged.
pub fn webhook_kind(w: &Webhook) -> (k: WebhookKind)
    ensures
        k is Discord <==> w.kind@ == "discord"@,
        k is Generic <==> w.kind@ == "generic"@,
        k is Unknown <==> (w.kind@ != "discord"@ && w.kind@ != "generic"@),
{
    proof {
        reveal_strlit("discord");
        reveal_strlit("generic");
        assert("discord"@ != "generic"@) by {
            assert("discord"@[0] == 'd' && "generic"@[0] == 'g');
        }
    }
    if str_eq(w.kind.as_str(), "discord") {
        WebhookKind::Discord
    } else if str_eq(w.kind.as_str(), "generic") {
        WebhookKind::Generic
    } else {
        WebhookKind::Unknown
    }
}

/// The Discord embed style (title, colour) a plain-text message gets,
/// chosen by the most alarming keyword it contains.
pub fn discord_style(message: &String) -> (r: (&'static str, u32))
    ensures
        contains_seq(message@, "Error"@) ==> r.0@ == "Error"@ && r.1 == COLOR_ERROR,
        !contains_seq(message@, "Error"@) && contains_seq(message@, "Restarting"@) ==> r.0@
            == "Restarting"@ && r.1 == COLOR_RESTARTING,
        !contains_seq(message@, "Error"@) && !contains_seq(message@, "Restarting"@)
            && contains_seq(message@, "stopped"@) ==> r.0@ == "Stopped"@ && r.1 == COLOR_STOPPED,
        !contains_seq(message@, "Error"@) && !contains_seq(message@, "Restarting"@)
            && !contains_seq(message@, "stopped"@) ==> r.0@ == "Started"@ && r.1 == COLOR_STARTED,
{
    let s = message.as_str();
    if contains_substr(s, "Error") {
        ("Error", COLOR_ERROR)
    } else if contains_substr(s, "Restarting") {
        ("Restarting", COLOR_RESTARTING)
    } else if contains_substr(s, "stopped") {
        ("Stopped", COLOR_STOPPED)
    } else {
        ("Started", COLOR_STARTED)
    }
}

} // verus!
