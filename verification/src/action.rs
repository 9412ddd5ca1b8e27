//! The actions a supervision decision asks the embedding binary to perform.
//!
//! The verified core never sleeps, spawns, kills or sends anything itself:
//! it returns a plan, a sequence of `Action`s, and the embedding binary
//! carries the plan out in order, reporting outcomes back through the
//! supervisor's event functions.

use vstd::prelude::*;
use crate::process::ProcessHandle;

verus! {

/// Seconds to wait between stopping and re-spawning an instance.
pub const RESTART_COOLDOWN_SECONDS: u64 = 2;

/// Seconds to let a freshly spawned process settle before it is considered
/// started.
pub const START_SETTLE_SECONDS: u64 = 3;

/// Seconds to wait after a successful restart before re-running discovery.
pub const POST_RESTART_DISCOVERY_DELAY_SECONDS: u64 = 5;

/// One step of a supervision plan, to be performed by the embedding binary.
#[derive(Debug, Clone, PartialEq, Eq)]
pub enum Action {
    /// Sleep for the given number of seconds.
    Wait { seconds: u64 },
    /// Send a termination request to the named instance's old process.
    KillProcess { name: String, pid: u32 },
    /// Spawn a fresh process for the named instance (see `spawn_args`) and
    /// report the outcome to `start_instance` or `handle_spawn_result`.
    SpawnInstance { name: String },
    /// Query the discovery endpoint and report the outcome to
    /// `handle_discovery_result`.
    Discover { name: String },
    /// Best-effort "restarting" notification.
    NotifyRestarting { name: String },
    /// Best-effort "tunnel ready" notification.
    NotifyReady { name: String },
    /// Best-effort "restart failed" notification.
    NotifyRestartFailed { name: String },
    /// Best-effort error notification.
    NotifyError { name: String },
}

/// The plan for restarting `name` when its recorded handle was `h`:
/// terminate the old process if one was running, wait out the cool-down,
/// spawn anew, then wait the settle delay. The stop half always precedes
/// the start half.
pub open spec fn restart_plan(name: String, h: Option<ProcessHandle>) -> Seq<Action> {
    let tail = seq![
        Action::Wait { seconds: RESTART_COOLDOWN_SECONDS },
        Action::SpawnInstance { name: name },
        Action::Wait { seconds: START_SETTLE_SECONDS },
    ];
    match h {
        Option::Some(p) => seq![Action::KillProcess { name: name, pid: p.pid }] + tail,
        Option::None => tail,
    }
}

/// How many termination requests a plan holds.
pub open spec fn count_kills(acts: Seq<Action>) -> nat
    decreases acts.len(),
{
    if acts.len() == 0 {
        0
    } else {
        count_kills(acts.drop_last()) + (if acts.last() is KillProcess {
            1nat
        } else {
            0nat
        })
    }
}

/// How many spawn requests a plan holds.
pub open spec fn count_spawns(acts: Seq<Action>) -> nat
    decreases acts.len(),
{
    if acts.len() == 0 {
        0
    } else {
        count_spawns(acts.drop_last()) + (if acts.last() is SpawnInstance {
            1nat
        } else {
            0nat
        })
    }
}

/// How many "ready" notifications a plan holds.
pub open spec fn count_ready(acts: Seq<Action>) -> nat
    decreases acts.len(),
{
    if acts.len() == 0 {
        0
    } else {
        count_ready(acts.drop_last()) + (if acts.last() is NotifyReady {
            1nat
        } else {
            0nat
        })
    }
}

/// A restart stops the old process exactly once when one was running (not
/// at all otherwise), spawns exactly once, and the stop comes before the
/// spawn with the cool-down wait strictly between the two.
pub proof fn lemma_restart_stop_then_start(name: String, h: Option<ProcessHandle>)
    ensures
        count_spawns(restart_plan(name, h)) == 1,
        count_kills(restart_plan(name, h)) == (if h is Some {
            1nat
        } else {
            0nat
        }),
        h matches Some(p) ==> {
            let plan = restart_plan(name, h);
            &&& plan.len() == 4
            &&& plan[0] == (Action::KillProcess { name: name, pid: p.pid })
            &&& plan[1] == (Action::Wait { seconds: RESTART_COOLDOWN_SECONDS })
            &&& plan[2] == (Action::SpawnInstance { name: name })
        },
{
    let w1 = Action::Wait { seconds: RESTART_COOLDOWN_SECONDS };
    let sp = Action::SpawnInstance { name: name };
    let w2 = Action::Wait { seconds: START_SETTLE_SECONDS };
    let tail = seq![w1, sp, w2];
    assert(seq![w1].drop_last() =~= Seq::<Action>::empty());
    assert(count_spawns(seq![w1]) == 0) by {
        assert(count_spawns(Seq::<Action>::empty()) == 0);
    }
    assert(count_kills(seq![w1]) == 0) by {
        assert(count_kills(Seq::<Action>::empty()) == 0);
    }
    assert(seq![w1, sp].drop_last() =~= seq![w1]);
    assert(count_spawns(seq![w1, sp]) == 1);
    assert(count_kills(seq![w1, sp]) == 0);
    assert(tail.drop_last() =~= seq![w1, sp]);
    assert(count_spawns(tail) == 1);
    assert(count_kills(tail) == 0);
    match h {
        Option::Some(p) => {
            let k = Action::KillProcess { name: name, pid: p.pid };
            let plan = restart_plan(name, h);
            assert(seq![k].drop_last() =~= Seq::<Action>::empty());
            assert(count_spawns(seq![k]) == 0) by {
                assert(count_spawns(Seq::<Action>::empty()) == 0);
            }
            assert(count_kills(seq![k]) == 1) by {
                assert(count_kills(Seq::<Action>::empty()) == 0);
            }
            assert(seq![k, w1].drop_last() =~= seq![k]);
            assert(count_spawns(seq![k, w1]) == 0);
            assert(count_kills(seq![k, w1]) == 1);
            assert(seq![k, w1, sp].drop_last() =~= seq![k, w1]);
            assert(count_spawns(seq![k, w1, sp]) == 1);
            assert(count_kills(seq![k, w1, sp]) == 1);
            assert(plan =~= seq![k, w1, sp, w2]);
            assert(plan.drop_last() =~= seq![k, w1, sp]);
            assert(count_spawns(plan) == 1);
            assert(count_kills(plan) == 1);
        },
        Option::None => {
            assert(restart_plan(name, h) == tail);
        },
    }
}

} // verus!
