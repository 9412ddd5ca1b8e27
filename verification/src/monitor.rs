//! Per-tick health-monitor decisions.
//!
//! Each tick the embedding binary sleeps the check interval, takes
//! `check_health`, and for every unhealthy instance calls
//! `handle_unhealthy`, performs the returned plan, and feeds the spawn and
//! discovery outcomes back through `handle_spawn_result` and
//! `handle_discovery_result`. The one-time startup pass uses
//! `handle_initial_discovery` instead.

use vstd::prelude::*;
use crate::action::Action;
use crate::action::POST_RESTART_DISCOVERY_DELAY_SECONDS;
use crate::action::count_ready;
use crate::action::restart_plan;
use crate::ledger::NotificationLedger;
use crate::manager::NgrokManager;
use crate::manager::entry_of;
use crate::manager::idx_of;
use crate::manager::registered;
use crate::manager::live_handle;
use crate::process::NgrokProcess;
use crate::process::ProcessHandle;
use crate::tunnel::NgrokTunnel;

verus! {

/// The decision for one unhealthy instance: with auto-restart off, nothing
/// is done (the finding is only logged); with it on, a "restarting"
/// notification is sent and a restart begins — unless the instance is
/// unknown, in which case the restart fails on the spot and only the
/// notifications go out.
pub fn handle_unhealthy(manager: &mut NgrokManager, name: &String, auto_restart: bool) -> (acts:
    Vec<Action>)
    requires
        old(manager).wf(),
    ensures
        final(manager).wf(),
        !auto_restart ==> final(manager)@ == old(manager)@ && acts@ =~= Seq::<Action>::empty(),
        auto_restart && !registered(old(manager)@, name@) ==> final(manager)@ == old(manager)@
            && acts@ =~= seq![
            Action::NotifyRestarting { name: *name },
            Action::NotifyRestartFailed { name: *name },
        ],
        auto_restart && registered(old(manager)@, name@) ==> final(manager)@ =~= old(
            manager,
        )@.update(
            idx_of(old(manager)@, name@),
            NgrokProcess {
                config: entry_of(old(manager)@, name@).config,
                process: Option::None,
            },
        ) && acts@ =~= seq![Action::NotifyRestarting { name: *name }] + restart_plan(
            *name,
            live_handle(old(manager)@, name@),
        ),
{
    let mut acts: Vec<Action> = Vec::new();
    if !auto_restart {
        return acts;
    }
    acts.push(Action::NotifyRestarting { name: name.clone() });
    match manager.restart_instance(name) {
        Ok(mut plan) => {
            acts.append(&mut plan);
        },
        Err(_) => {
            acts.push(Action::NotifyRestartFailed { name: name.clone() });
        },
    }
    acts
}

/// The decision after the restart's spawn attempt: a failed spawn (or an
/// unknown instance) is reported as a failed restart and the instance
/// stays down for the next tick to retry; a successful one records the
/// handle, waits the discovery delay, and re-runs discovery — but only for
/// an instance not already in the notification ledger.
pub fn handle_spawn_result(
    manager: &mut NgrokManager,
    ledger: &NotificationLedger,
    name: &String,
    spawned: Option<ProcessHandle>,
) -> (acts: Vec<Action>)
    requires
        old(manager).wf(),
        registered(old(manager)@, name@) ==> entry_of(old(manager)@, name@).process is None,
    ensures
        final(manager).wf(),
        spawned is None || !registered(old(manager)@, name@) ==> final(manager)@ == old(manager)@
            && acts@ =~= seq![Action::NotifyRestartFailed { name: *name }],
        spawned is Some && registered(old(manager)@, name@) ==> final(manager)@ =~= old(
            manager,
        )@.update(
            idx_of(old(manager)@, name@),
            NgrokProcess { config: entry_of(old(manager)@, name@).config, process: spawned },
        ) && (if ledger@.contains(name@) {
            acts@ =~= seq![Action::Wait { seconds: POST_RESTART_DISCOVERY_DELAY_SECONDS }]
        } else {
            acts@ =~= seq![
                Action::Wait { seconds: POST_RESTART_DISCOVERY_DELAY_SECONDS },
                Action::Discover { name: *name },
            ]
        }),
{
    let mut acts: Vec<Action> = Vec::new();
    match manager.start_instance(name, spawned) {
        Err(_) => {
            acts.push(Action::NotifyRestartFailed { name: name.clone() });
        },
        Ok(()) => {
            acts.push(Action::Wait { seconds: POST_RESTART_DISCOVERY_DELAY_SECONDS });
            if !ledger.is_notified(name) {
                acts.push(Action::Discover { name: name.clone() });
            }
        },
    }
    acts
}

/// The view of an optional borrowed discovery result.
pub open spec fn opt_tunnels_view(t: Option<&Vec<NgrokTunnel>>) -> Option<Seq<NgrokTunnel>> {
    match t {
        Option::None => Option::None,
        Option::Some(v) => Option::Some(v@),
    }
}

/// What one discovery outcome decides during the health loop: the new
/// ledger contents and the notifications to send. An error (`None`) or an
/// empty result changes nothing; a non-empty result notifies "ready" and
/// marks the instance, but only if it was not marked already.
pub open spec fn discovery_decision(
    led: Set<Seq<char>>,
    name: String,
    tunnels: Option<Seq<NgrokTunnel>>,
) -> (Set<Seq<char>>, Seq<Action>) {
    match tunnels {
        Option::None => (led, Seq::empty()),
        Option::Some(ts) => if ts.len() > 0 && !led.contains(name@) {
            (led.insert(name@), seq![Action::NotifyReady { name: name }])
        } else {
            (led, Seq::empty())
        },
    }
}

/// Applies `discovery_decision` after a restart's re-discovery: a
/// discovery error is only logged (the ledger is left unchanged, so the
/// instance stays eligible), an empty result does nothing, and a non-empty
/// result sends the at-most-once "ready" notification.
pub fn handle_discovery_result(
    ledger: &mut NotificationLedger,
    name: &String,
    tunnels: Option<&Vec<NgrokTunnel>>,
) -> (acts: Vec<Action>)
    ensures
        final(ledger)@ == discovery_decision(old(ledger)@, *name, opt_tunnels_view(tunnels)).0,
        acts@ =~= discovery_decision(old(ledger)@, *name, opt_tunnels_view(tunnels)).1,
{
    let mut acts: Vec<Action> = Vec::new();
    match tunnels {
        None => {},
        Some(ts) => {
            if ts.len() > 0 && !ledger.is_notified(name) {
                ledger.mark_notified(name);
                acts.push(Action::NotifyReady { name: name.clone() });
            }
        },
    }
    acts
}

/// What one discovery outcome decides during the startup pass. It differs
/// from the health loop's decision in one respect: a startup discovery
/// error additionally sends an error notification, where the loop only
/// logs it.
pub open spec fn initial_discovery_decision(
    led: Set<Seq<char>>,
    name: String,
    tunnels: Option<Seq<NgrokTunnel>>,
) -> (Set<Seq<char>>, Seq<Action>) {
    match tunnels {
        Option::None => (led, seq![Action::NotifyError { name: name }]),
        Option::Some(_) => discovery_decision(led, name, tunnels),
    }
}

/// Applies `initial_discovery_decision` for one instance of the startup
/// discovery pass.
pub fn handle_initial_discovery(
    ledger: &mut NotificationLedger,
    name: &String,
    tunnels: Option<&Vec<NgrokTunnel>>,
) -> (acts: Vec<Action>)
    ensures
        final(ledger)@ == initial_discovery_decision(
            old(ledger)@,
            *name,
            opt_tunnels_view(tunnels),
        ).0,
        acts@ =~= initial_discovery_decision(old(ledger)@, *name, opt_tunnels_view(tunnels)).1,
{
    let mut acts: Vec<Action> = Vec::new();
    match tunnels {
        None => {
            acts.push(Action::NotifyError { name: name.clone() });
        },
        Some(ts) => {
            if ts.len() > 0 && !ledger.is_notified(name) {
                ledger.mark_notified(name);
                acts.push(Action::NotifyReady { name: name.clone() });
            }
        },
    }
    acts
}

/// Once an instance is marked notified, a discovery outcome — whatever it
/// holds — emits nothing for it and the mark stays: no second "ready"
/// notification until the ledger is cleared.
pub proof fn lemma_ready_at_most_once(
    led: Set<Seq<char>>,
    name: String,
    tunnels: Option<Seq<NgrokTunnel>>,
)
    requires
        led.contains(name@),
    ensures
        discovery_decision(led, name, tunnels).0 == led,
        discovery_decision(led, name, tunnels).1 =~= Seq::<Action>::empty(),
{
}

/// Across two discovery rounds with no intervening clear, at most one
/// "ready" notification goes out, however many tunnels each round reports.
pub proof fn lemma_ready_once_across_ticks(
    led: Set<Seq<char>>,
    name: String,
    t1: Option<Seq<NgrokTunnel>>,
    t2: Option<Seq<NgrokTunnel>>,
)
    ensures
        ({
            let r1 = discovery_decision(led, name, t1);
            let r2 = discovery_decision(r1.0, name, t2);
            count_ready(r1.1) + count_ready(r2.1) <= 1
        }),
{
    let r1 = discovery_decision(led, name, t1);
    let r2 = discovery_decision(r1.0, name, t2);
    assert(count_ready(Seq::<Action>::empty()) == 0);
    let one = seq![Action::NotifyReady { name: name }];
    assert(one.drop_last() =~= Seq::<Action>::empty());
    assert(count_ready(one) == 1);
    if r1.1.len() > 0 {
        assert(r1.0.contains(name@));
        assert(r2.1 =~= Seq::<Action>::empty());
    }
}

/// A discovery error leaves the notified-state unchanged and sends
/// nothing, so the instance stays eligible: a later non-empty result still
/// emits its "ready" notification.
pub proof fn lemma_discovery_error_keeps_eligibility(
    led: Set<Seq<char>>,
    name: String,
    ts: Seq<NgrokTunnel>,
)
    requires
        !led.contains(name@),
        ts.len() > 0,
    ensures
        discovery_decision(led, name, Option::None).0 == led,
        discovery_decision(led, name, Option::None).1 =~= Seq::<Action>::empty(),
        ({
            let after_error = discovery_decision(led, name, Option::None).0;
            let retry = discovery_decision(after_error, name, Option::Some(ts));
            &&& retry.1 =~= seq![Action::NotifyReady { name: name }]
            &&& retry.0.contains(name@)
        }),
{
}

} // verus!
