//! The instance registry and process supervisor.

use vstd::prelude::*;
use crate::action::Action;
use crate::action::RESTART_COOLDOWN_SECONDS;
use crate::action::START_SETTLE_SECONDS;
use crate::action::restart_plan;
use crate::config::NgrokInstance;
use crate::config::token_is_valid;
use crate::config::token_valid;
use crate::errors::SupervisorError;
use crate::process::NgrokProcess;
use crate::process::ProcessHandle;
use crate::process::handle_live;
use crate::text::decimal_string;
use crate::text::spec_decimal;

verus! {

/// Whether some entry of `s` is named `name`.
pub open spec fn registered(s: Seq<NgrokProcess>, name: Seq<char>) -> bool {
    exists|i: int| 0 <= i < s.len() && s[i].config.name@ == name
}

/// The index of the entry named `name` (unique under `distinct_names`).
pub open spec fn idx_of(s: Seq<NgrokProcess>, name: Seq<char>) -> int {
    choose|i: int| 0 <= i < s.len() && s[i].config.name@ == name
}

/// The entry named `name`.
pub open spec fn entry_of(s: Seq<NgrokProcess>, name: Seq<char>) -> NgrokProcess {
    s[idx_of(s, name)]
}

/// The handle currently recorded for `name`; `None` when unregistered.
pub open spec fn live_handle(s: Seq<NgrokProcess>, name: Seq<char>) -> Option<ProcessHandle> {
    if registered(s, name) {
        entry_of(s, name).process
    } else {
        Option::None
    }
}

/// No two entries share a name: names are unique registry keys.
pub open spec fn distinct_names(s: Seq<NgrokProcess>) -> bool {
    forall|i: int, j: int| 0 <= i < j < s.len() ==> s[i].config.name@ != s[j].config.name@
}

/// The argument vector for spawning one instance's external process:
/// protocol and port first, then the auth token and region flags, then the
/// fixed logging flags.
pub open spec fn spec_spawn_args(c: NgrokInstance) -> Seq<Seq<char>> {
    seq![
        c.protocol@,
        spec_decimal(c.port as nat),
        "--authtoken"@,
        c.authtoken@,
        "--region"@,
        c.region@,
        "--log"@,
        "stdout"@,
        "--log-format"@,
        "json"@,
    ]
}

/// The termination requests a shutdown issues: one per instance that holds
/// a handle, in registry order.
pub open spec fn kill_actions(s: Seq<NgrokProcess>) -> Seq<Action>
    decreases s.len(),
{
    if s.len() == 0 {
        Seq::empty()
    } else {
        let init = kill_actions(s.drop_last());
        match s.last().process {
            Option::Some(p) => init.push(
                Action::KillProcess { name: s.last().config.name, pid: p.pid },
            ),
            Option::None => init,
        }
    }
}

/// The names of the configurations with acceptable tokens, in order.
pub open spec fn accepted_names(cs: Seq<NgrokInstance>) -> Seq<Seq<char>>
    decreases cs.len(),
{
    if cs.len() == 0 {
        Seq::empty()
    } else {
        let init = accepted_names(cs.drop_last());
        if token_valid(cs.last().authtoken@) {
            init.push(cs.last().name@)
        } else {
            init
        }
    }
}

/// How many termination requests of a plan name `name`.
pub open spec fn count_kills_named(acts: Seq<Action>, name: Seq<char>) -> nat
    decreases acts.len(),
{
    if acts.len() == 0 {
        0
    } else {
        count_kills_named(acts.drop_last(), name) + (if acts.last() matches Action::KillProcess {
            name: n,
            ..
        } && n@ == name {
            1nat
        } else {
            0nat
        })
    }
}

/// The startup plan: spawn every registered instance, in registry order,
/// each followed by its settle delay.
pub open spec fn start_plan(s: Seq<NgrokProcess>) -> Seq<Action>
    decreases s.len(),
{
    if s.len() == 0 {
        Seq::empty()
    } else {
        start_plan(s.drop_last()) + seq![
            Action::SpawnInstance { name: s.last().config.name },
            Action::Wait { seconds: START_SETTLE_SECONDS },
        ]
    }
}

/// How many spawn requests of a plan name `name`.
pub open spec fn count_spawns_named(acts: Seq<Action>, name: Seq<char>) -> nat
    decreases acts.len(),
{
    if acts.len() == 0 {
        0
    } else {
        count_spawns_named(acts.drop_last(), name) + (if acts.last()
            matches Action::SpawnInstance { name: n } && n@ == name {
            1nat
        } else {
            0nat
        })
    }
}

/// The registry of configured instances and their process handles.
///
/// The registry owns the supervision bookkeeping; the embedding binary owns
/// the operating-system side and drives it by executing the plans these
/// methods return.
pub struct NgrokManager {
    instances: Vec<NgrokProcess>,
}

impl View for NgrokManager {
    type V = Seq<NgrokProcess>;

    closed spec fn view(&self) -> Seq<NgrokProcess> {
        self.instances@
    }
}

impl NgrokManager {
    /// Registry invariant: instance names are unique keys.
    pub open spec fn wf(&self) -> bool {
        distinct_names(self@)
    }

    /// An empty registry.
    pub fn new() -> (m: Self)
        ensures
            m@ =~= Seq::<NgrokProcess>::empty(),
            m.wf(),
    {
        NgrokManager { instances: Vec::new() }
    }

    fn find_index(&self, name: &String) -> (r: Option<usize>)
        requires
            self.wf(),
        ensures
            match r {
                Option::Some(k) => registered(self@, name@) && k as int == idx_of(self@, name@)
                    && k < self@.len() && self@[k as int].config.name@ == name@,
                Option::None => !registered(self@, name@),
            },
    {
        let n = self.instances.len();
        let mut i: usize = 0;
        while i < n
            invariant
                self.wf(),
                self@.len() == n as int,
                i <= n,
                forall|j: int| 0 <= j < i ==> self@[j].config.name@ != name@,
            decreases n - i,
        {
            if self.instances[i].config.name == *name {
                proof {
                    assert(registered(self@, name@));
                    let k = idx_of(self@, name@);
                    assert(0 <= k < self@.len() && self@[k].config.name@ == name@);
                    if k != i as int {
                        assert(self@[k].config.name@ != self@[i as int].config.name@);
                    }
                }
                return Some(i);
            }
            i += 1;
        }
        proof {
            assert(!registered(self@, name@));
        }
        None
    }

    /// Validates and registers one instance. A token that is empty or looks
    /// like a placeholder is rejected with `ValidationError` and the
    /// registry is left unchanged, so the instance can never be started. A
    /// duplicate name silently replaces the earlier entry (last write
    /// wins); the fresh entry starts with no process handle.
    pub fn add_instance(&mut self, config: NgrokInstance) -> (r: Result<(), SupervisorError>)
        requires
            old(self).wf(),
        ensures
            final(self).wf(),
            !token_valid(config.authtoken@) ==> r == Err::<(), SupervisorError>(
                SupervisorError::ValidationError,
            ) && final(self)@ == old(self)@,
            token_valid(config.authtoken@) ==> r == Ok::<(), SupervisorError>(()) && (
            if registered(old(self)@, config.name@) {
                final(self)@ =~= old(self)@.update(
                    idx_of(old(self)@, config.name@),
                    NgrokProcess { config: config, process: Option::None },
                )
            } else {
                final(self)@ =~= old(self)@.push(
                    NgrokProcess { config: config, process: Option::None },
                )
            }),
    {
        if !token_is_valid(&config.authtoken) {
            return Err(SupervisorError::ValidationError);
        }
        let entry = NgrokProcess { config, process: None };
        match self.find_index(&entry.config.name) {
            Some(k) => {
                let ghost pre = self@;
                self.instances.remove(k);
                self.instances.insert(k, entry);
                proof {
                    assert(self@ =~= pre.update(k as int, self@[k as int]));
                    assert(forall|i: int|
                        0 <= i < self@.len() ==> self@[i].config.name@
                            == pre[i].config.name@);
                }
            },
            None => {
                let ghost pre = self@;
                self.instances.push(entry);
                proof {
                    assert(forall|i: int|
                        0 <= i < pre.len() ==> self@[i].config.name@ == pre[i].config.name@);
                    assert(self.wf());
                }
            },
        }
        Ok(())
    }

    /// A snapshot of the registered instance names, in registry order.
    pub fn all_names(&self) -> (names: Vec<String>)
        ensures
            names@.len() == self@.len(),
            forall|i: int| 0 <= i < names@.len() ==> names@[i]@ == self@[i].config.name@,
    {
        let n = self.instances.len();
        let mut names: Vec<String> = Vec::new();
        let mut i: usize = 0;
        while i < n
            invariant
                self@.len() == n as int,
                i <= n,
                names@.len() == i as int,
                forall|j: int| 0 <= j < i ==> names@[j]@ == self@[j].config.name@,
            decreases n - i,
        {
            names.push(self.instances[i].config.name.clone());
            i += 1;
        }
        names
    }

    /// Liveness of one instance: true iff a process handle is recorded and
    /// its OS identifier is resolvable (non-zero). This checks the
    /// supervisor's bookkeeping only, not the tunnel itself.
    pub fn is_healthy(&self, name: &String) -> (r: bool)
        requires
            self.wf(),
        ensures
            r == handle_live(live_handle(self@, name@)),
    {
        match self.find_index(name) {
            None => false,
            Some(k) => match self.instances[k].process {
                Some(p) => p.pid != 0,
                None => false,
            },
        }
    }

    /// `is_healthy` for every registered instance, in one pass, in registry
    /// order.
    pub fn check_health(&self) -> (health: Vec<(String, bool)>)
        ensures
            health@.len() == self@.len(),
            forall|i: int|
                0 <= i < health@.len() ==> health@[i].0@ == self@[i].config.name@
                    && health@[i].1 == self@[i].is_healthy_spec(),
    {
        let n = self.instances.len();
        let mut health: Vec<(String, bool)> = Vec::new();
        let mut i: usize = 0;
        while i < n
            invariant
                self@.len() == n as int,
                i <= n,
                health@.len() == i as int,
                forall|j: int|
                    0 <= j < i ==> health@[j].0@ == self@[j].config.name@
                        && health@[j].1 == self@[j].is_healthy_spec(),
            decreases n - i,
        {
            let alive = match self.instances[i].process {
                Some(p) => p.pid != 0,
                None => false,
            };
            health.push((self.instances[i].config.name.clone(), alive));
            i += 1;
        }
        health
    }

    /// The argument vector for spawning `name`'s external process, or
    /// `NotFound` when no such instance is registered.
    pub fn spawn_args(&self, name: &String) -> (r: Result<Vec<String>, SupervisorError>)
        requires
            self.wf(),
        ensures
            r is Ok <==> registered(self@, name@),
            !registered(self@, name@) ==> r == Err::<Vec<String>, SupervisorError>(
                SupervisorError::NotFound,
            ),
            r matches Ok(v) ==> v@.map_values(|s: String| s@) =~= spec_spawn_args(
                entry_of(self@, name@).config,
            ),
    {
        let k = match self.find_index(name) {
            None => {
                return Err(SupervisorError::NotFound);
            },
            Some(k) => k,
        };
        let c = &self.instances[k].config;
        let mut v: Vec<String> = Vec::new();
        v.push(c.protocol.clone());
        v.push(decimal_string(c.port));
        v.push("--authtoken".to_owned());
        v.push(c.authtoken.clone());
        v.push("--region".to_owned());
        v.push(c.region.clone());
        v.push("--log".to_owned());
        v.push("stdout".to_owned());
        v.push("--log-format".to_owned());
        v.push("json".to_owned());
        proof {
            assert(v@.map_values(|s: String| s@) =~= spec_spawn_args(
                entry_of(self@, name@).config,
            ));
        }
        Ok(v)
    }

    /// Clears the instance's recorded handle and returns it so the
    /// embedding binary can send the termination request. Idempotent:
    /// stopping an instance that has no process succeeds with `None`.
    pub fn stop_instance(&mut self, name: &String) -> (r: Result<
        Option<ProcessHandle>,
        SupervisorError,
    >)
        requires
            old(self).wf(),
        ensures
            final(self).wf(),
            !registered(old(self)@, name@) ==> r == Err::<Option<ProcessHandle>, SupervisorError>(
                SupervisorError::NotFound,
            ) && final(self)@ == old(self)@,
            registered(old(self)@, name@) ==> r == Ok::<Option<ProcessHandle>, SupervisorError>(
                live_handle(old(self)@, name@),
            ) && final(self)@ =~= old(self)@.update(
                idx_of(old(self)@, name@),
                NgrokProcess {
                    config: entry_of(old(self)@, name@).config,
                    process: Option::None,
                },
            ),
    {
        let k = match self.find_index(name) {
            None => {
                return Err(SupervisorError::NotFound);
            },
            Some(k) => k,
        };
        let ghost pre = self@;
        let mut entry = self.instances.remove(k);
        let h = entry.process;
        entry.process = None;
        self.instances.insert(k, entry);
        proof {
            assert(self@ =~= pre.update(k as int, self@[k as int]));
            assert(forall|i: int|
                0 <= i < self@.len() ==> self@[i].config.name@ == pre[i].config.name@);
        }
        Ok(h)
    }

    /// Records the outcome of a spawn attempt for `name`. The embedding
    /// binary performs the actual spawn (with `spawn_args`), waits the
    /// settle delay, and reports the handle here; `None` means the
    /// operating system refused to create the process, which leaves no
    /// handle recorded. Starting is only permitted while the instance holds
    /// no handle: exactly one live process per instance, stop first.
    pub fn start_instance(&mut self, name: &String, spawned: Option<ProcessHandle>) -> (r: Result<
        (),
        SupervisorError,
    >)
        requires
            old(self).wf(),
            registered(old(self)@, name@) ==> entry_of(old(self)@, name@).process is None,
        ensures
            final(self).wf(),
            !registered(old(self)@, name@) ==> r == Err::<(), SupervisorError>(
                SupervisorError::NotFound,
            ) && final(self)@ == old(self)@,
            registered(old(self)@, name@) && spawned is None ==> r == Err::<(), SupervisorError>(
                SupervisorError::SpawnError,
            ) && final(self)@ == old(self)@,
            registered(old(self)@, name@) && spawned is Some ==> r == Ok::<(), SupervisorError>(())
                && final(self)@ =~= old(self)@.update(
                idx_of(old(self)@, name@),
                NgrokProcess { config: entry_of(old(self)@, name@).config, process: spawned },
            ),
    {
        let k = match self.find_index(name) {
            None => {
                return Err(SupervisorError::NotFound);
            },
            Some(k) => k,
        };
        if spawned.is_none() {
            return Err(SupervisorError::SpawnError);
        }
        let ghost pre = self@;
        let mut entry = self.instances.remove(k);
        entry.process = spawned;
        self.instances.insert(k, entry);
        proof {
            assert(self@ =~= pre.update(k as int, self@[k as int]));
            assert(forall|i: int|
                0 <= i < self@.len() ==> self@[i].config.name@ == pre[i].config.name@);
        }
        Ok(())
    }

    /// Begins a restart of `name`. The stop half is applied at once (the
    /// handle is cleared) and the returned plan tells the embedding binary
    /// the rest, in order: terminate the old process when one was running,
    /// wait the cool-down, spawn anew, wait the settle delay — then report
    /// the spawn outcome (to `start_instance` or `handle_spawn_result`).
    /// If that spawn fails the instance simply stays down until a later
    /// health tick retries.
    pub fn restart_instance(&mut self, name: &String) -> (r: Result<Vec<Action>, SupervisorError>)
        requires
            old(self).wf(),
        ensures
            final(self).wf(),
            !registered(old(self)@, name@) ==> r == Err::<Vec<Action>, SupervisorError>(
                SupervisorError::NotFound,
            ) && final(self)@ == old(self)@,
            registered(old(self)@, name@) ==> (r matches Ok(acts) && acts@ =~= restart_plan(
                *name,
                live_handle(old(self)@, name@),
            )) && final(self)@ =~= old(self)@.update(
                idx_of(old(self)@, name@),
                NgrokProcess {
                    config: entry_of(old(self)@, name@).config,
                    process: Option::None,
                },
            ),
    {
        let h = match self.stop_instance(name) {
            Err(e) => {
                return Err(e);
            },
            Ok(h) => h,
        };
        let mut acts: Vec<Action> = Vec::new();
        match h {
            Some(p) => acts.push(Action::KillProcess { name: name.clone(), pid: p.pid }),
            None => (),
        }
        acts.push(Action::Wait { seconds: RESTART_COOLDOWN_SECONDS });
        acts.push(Action::SpawnInstance { name: name.clone() });
        acts.push(Action::Wait { seconds: START_SETTLE_SECONDS });
        proof {
            assert(acts@ =~= restart_plan(*name, live_handle(old(self)@, name@)));
        }
        Ok(acts)
    }

    /// The startup pass: the plan that attempts a start for every
    /// registered instance independently, in registry order. One
    /// instance's spawn failure does not keep the others from being
    /// attempted: the embedding binary reports each outcome to
    /// `start_instance` on its own, and a partially-running fleet is an
    /// acceptable operating state.
    pub fn start_all(&self) -> (acts: Vec<Action>)
        ensures
            acts@ == start_plan(self@),
    {
        let n = self.instances.len();
        let mut acts: Vec<Action> = Vec::new();
        let mut i: usize = 0;
        while i < n
            invariant
                self@.len() == n as int,
                i <= n,
                acts@ == start_plan(self@.take(i as int)),
            decreases n - i,
        {
            acts.push(Action::SpawnInstance { name: self.instances[i].config.name.clone() });
            acts.push(Action::Wait { seconds: START_SETTLE_SECONDS });
            proof {
                assert(self@.take(i as int + 1).drop_last() =~= self@.take(i as int));
                assert(self@.take(i as int + 1).last() == self@[i as int]);
                assert(acts@ =~= start_plan(self@.take(i as int + 1)));
            }
            i += 1;
        }
        proof {
            assert(self@.take(n as int) =~= self@);
        }
        acts
    }

    /// Tears the fleet down: releases every live handle for termination,
    /// each exactly once, in registry order, and leaves every instance
    /// without a handle. This is the supervisor's single cleanup path, run
    /// on every exit.
    pub fn shutdown(&mut self) -> (acts: Vec<Action>)
        requires
            old(self).wf(),
        ensures
            final(self).wf(),
            acts@ == kill_actions(old(self)@),
            final(self)@.len() == old(self)@.len(),
            forall|i: int|
                0 <= i < final(self)@.len() ==> final(self)@[i].config == old(self)@[i].config
                    && final(self)@[i].process is None,
    {
        let n = self.instances.len();
        let mut acts: Vec<Action> = Vec::new();
        let mut i: usize = 0;
        while i < n
            invariant
                self@.len() == n as int,
                old(self)@.len() == n as int,
                i <= n,
                forall|j: int|
                    0 <= j < i ==> self@[j].config == old(self)@[j].config
                        && self@[j].process is None,
                forall|j: int| i <= j < n ==> self@[j] == old(self)@[j],
                acts@ == kill_actions(old(self)@.take(i as int)),
            decreases n - i,
        {
            let mut entry = self.instances.remove(i);
            match entry.process {
                Some(p) => acts.push(
                    Action::KillProcess { name: entry.config.name.clone(), pid: p.pid },
                ),
                None => (),
            }
            entry.process = None;
            self.instances.insert(i, entry);
            proof {
                assert(old(self)@.take(i as int + 1).drop_last() =~= old(self)@.take(i as int));
                assert(old(self)@.take(i as int + 1).last() == old(self)@[i as int]);
                assert(acts@ == kill_actions(old(self)@.take(i as int + 1)));
            }
            i += 1;
        }
        proof {
            assert(old(self)@.take(n as int) =~= old(self)@);
            assert(forall|a: int, b: int|
                0 <= a < b < self@.len() ==> self@[a].config.name@ != self@[b].config.name@);
        }
        acts
    }
}

fn clone_instance(c: &NgrokInstance) -> (r: NgrokInstance)
    ensures
        r == *c,
{
    NgrokInstance {
        name: c.name.clone(),
        authtoken: c.authtoken.clone(),
        port: c.port,
        protocol: c.protocol.clone(),
        region: c.region.clone(),
    }
}

/// The one-time registration pass: registers every configuration with an
/// acceptable token, skips the invalid ones (they are excluded, not
/// fatal), and returns the accepted names in order. Only when no instance
/// at all is accepted does the pass fail, with `ValidationError`, leaving
/// the registry unchanged: a supervisor with nothing to run is a fatal
/// misconfiguration.
pub fn configure_instances(manager: &mut NgrokManager, configs: &Vec<NgrokInstance>) -> (r: Result<
    Vec<String>,
    SupervisorError,
>)
    requires
        old(manager).wf(),
    ensures
        final(manager).wf(),
        r matches Ok(names) ==> names@.map_values(|s: String| s@) =~= accepted_names(configs@)
            && names@.len() > 0,
        r is Err ==> r == Err::<Vec<String>, SupervisorError>(SupervisorError::ValidationError)
            && accepted_names(configs@).len() == 0 && final(manager)@ == old(manager)@,
        forall|i: int|
            0 <= i < configs@.len() && token_valid(configs@[i].authtoken@) ==> registered(
                final(manager)@,
                configs@[i].name@,
            ),
        forall|n: Seq<char>|
            registered(final(manager)@, n) ==> registered(old(manager)@, n) || accepted_names(
                configs@,
            ).contains(n),
{
    let n = configs.len();
    let mut names: Vec<String> = Vec::new();
    let mut i: usize = 0;
    while i < n
        invariant
            manager.wf(),
            configs@.len() == n as int,
            i <= n,
            names@.map_values(|s: String| s@) =~= accepted_names(configs@.take(i as int)),
            accepted_names(configs@.take(i as int)).len() == 0 ==> manager@ == old(manager)@,
            forall|k: int|
                0 <= k < i && token_valid(configs@[k].authtoken@) ==> registered(
                    manager@,
                    configs@[k].name@,
                ),
            forall|nm: Seq<char>|
                registered(manager@, nm) ==> registered(old(manager)@, nm) || accepted_names(
                    configs@.take(i as int),
                ).contains(nm),
        decreases n - i,
    {
        let ghost pre = manager@;
        let ghost acc_a = accepted_names(configs@.take(i as int));
        let ghost acc_b = accepted_names(configs@.take(i as int + 1));
        proof {
            assert(configs@.take(i as int + 1).drop_last() =~= configs@.take(i as int));
            assert(configs@.take(i as int + 1).last() == configs@[i as int]);
            assert forall|nm: Seq<char>| acc_a.contains(nm) implies acc_b.contains(nm) by {
                let j = choose|j: int| 0 <= j < acc_a.len() && acc_a[j] == nm;
                assert(acc_b[j] == nm);
            }
        }
        let c = clone_instance(&configs[i]);
        match manager.add_instance(c) {
            Ok(()) => {
                names.push(configs[i].name.clone());
                proof {
                    let ghost cname = configs@[i as int].name@;
                    assert forall|j: int|
                        0 <= j < pre.len() implies manager@[j].config.name@
                        == pre[j].config.name@ by {
                        if registered(pre, cname) {
                            let k0 = idx_of(pre, cname);
                            assert(pre[k0].config.name@ == cname);
                        }
                    }
                    assert(registered(manager@, cname)) by {
                        if registered(pre, cname) {
                            let k0 = idx_of(pre, cname);
                            assert(manager@[k0].config.name@ == cname);
                        } else {
                            assert(manager@[pre.len() as int].config.name@ == cname);
                        }
                    }
                    assert(acc_b == acc_a.push(cname));
                    assert(names@.map_values(|s: String| s@) =~= acc_b);
                    assert forall|k: int|
                        0 <= k < i + 1 && token_valid(configs@[k].authtoken@) implies registered(
                        manager@,
                        configs@[k].name@,
                    ) by {
                        if k < i {
                            let j = choose|j: int|
                                0 <= j < pre.len() && pre[j].config.name@ == configs@[k].name@;
                            assert(manager@[j].config.name@ == configs@[k].name@);
                        }
                    }
                    assert forall|nm: Seq<char>| registered(manager@, nm) implies registered(
                        old(manager)@,
                        nm,
                    ) || acc_b.contains(nm) by {
                        let j = choose|j: int|
                            0 <= j < manager@.len() && manager@[j].config.name@ == nm;
                        if j < pre.len() {
                            assert(pre[j].config.name@ == nm);
                            assert(registered(pre, nm));
                        } else {
                            assert(nm == cname);
                            assert(acc_b[acc_b.len() - 1] == nm);
                        }
                    }
                }
            },
            Err(_) => {
                proof {
                    assert(acc_b == acc_a);
                    assert(names@.map_values(|s: String| s@) =~= acc_b);
                }
            },
        }
        i += 1;
    }
    proof {
        assert(configs@.take(n as int) =~= configs@);
    }
    if names.len() == 0 {
        proof {
            assert(accepted_names(configs@).len() == names@.map_values(
                |s: String| s@,
            ).len());
        }
        Err(SupervisorError::ValidationError)
    } else {
        Ok(names)
    }
}

/// An instance whose token was rejected is never registered by a
/// registration pass: if its name was not in the registry before the pass
/// and no accepted configuration of the pass shares the name, it is not in
/// the registry after, and no startup plan over that registry ever
/// attempts to spawn it.
pub proof fn lemma_invalid_never_started(
    pre: Seq<NgrokProcess>,
    post: Seq<NgrokProcess>,
    cs: Seq<NgrokInstance>,
    i: int,
)
    requires
        0 <= i < cs.len(),
        !token_valid(cs[i].authtoken@),
        !registered(pre, cs[i].name@),
        !accepted_names(cs).contains(cs[i].name@),
        forall|n: Seq<char>|
            registered(post, n) ==> registered(pre, n) || accepted_names(cs).contains(n),
    ensures
        !registered(post, cs[i].name@),
        count_spawns_named(start_plan(post), cs[i].name@) == 0,
{
    let name = cs[i].name@;
    assert(forall|j: int| 0 <= j < post.len() ==> post[j].config.name@ != name);
    lemma_start_plan_absent(post, name);
}

/// A name absent from the registry is never spawned by the startup plan.
/// Together with `configure_instances`' contract this is what keeps a
/// rejected instance out of every start pass.
pub proof fn lemma_start_plan_absent(s: Seq<NgrokProcess>, name: Seq<char>)
    requires
        forall|j: int| 0 <= j < s.len() ==> s[j].config.name@ != name,
    ensures
        count_spawns_named(start_plan(s), name) == 0,
    decreases s.len(),
{
    if s.len() > 0 {
        lemma_start_plan_absent(s.drop_last(), name);
        let init = start_plan(s.drop_last());
        let a = Action::SpawnInstance { name: s.last().config.name };
        let b = Action::Wait { seconds: START_SETTLE_SECONDS };
        assert(start_plan(s) =~= init.push(a).push(b));
        assert(start_plan(s).drop_last() =~= init.push(a));
        assert(init.push(a).drop_last() =~= init);
        assert(count_spawns_named(init.push(a), name) == count_spawns_named(init, name));
    }
}

/// The startup plan attempts each registered instance exactly once.
pub proof fn lemma_start_plan_each_once(s: Seq<NgrokProcess>, i: int)
    requires
        distinct_names(s),
        0 <= i < s.len(),
    ensures
        count_spawns_named(start_plan(s), s[i].config.name@) == 1,
    decreases s.len(),
{
    let name = s[i].config.name@;
    let init = start_plan(s.drop_last());
    let a = Action::SpawnInstance { name: s.last().config.name };
    let b = Action::Wait { seconds: START_SETTLE_SECONDS };
    assert(start_plan(s) =~= init.push(a).push(b));
    assert(start_plan(s).drop_last() =~= init.push(a));
    assert(init.push(a).drop_last() =~= init);
    if i == s.len() - 1 {
        lemma_start_plan_absent(s.drop_last(), name);
        assert(count_spawns_named(init.push(a), name) == 1);
    } else {
        lemma_start_plan_each_once(s.drop_last(), i);
        assert(s.drop_last()[i] == s[i]);
        assert(s.last().config.name@ != name);
        assert(count_spawns_named(init.push(a), name) == count_spawns_named(init, name));
    }
}

/// An instance with no recorded process handle is not healthy.
pub proof fn lemma_no_handle_unhealthy(s: Seq<NgrokProcess>, name: Seq<char>)
    requires
        !registered(s, name) || entry_of(s, name).process is None,
    ensures
        !handle_live(live_handle(s, name)),
{
}

/// Immediately after a successful start records a live handle, the
/// instance is healthy.
pub proof fn lemma_healthy_after_start(
    pre: Seq<NgrokProcess>,
    post: Seq<NgrokProcess>,
    name: Seq<char>,
    h: ProcessHandle,
)
    requires
        distinct_names(pre),
        registered(pre, name),
        h.pid != 0,
        post == pre.update(
            idx_of(pre, name),
            NgrokProcess { config: entry_of(pre, name).config, process: Option::Some(h) },
        ),
    ensures
        handle_live(live_handle(post, name)),
{
    let k = idx_of(pre, name);
    assert(0 <= k < pre.len() && pre[k].config.name@ == name);
    assert(post[k].config.name@ == name);
    assert(registered(post, name));
    let k2 = idx_of(post, name);
    assert(0 <= k2 < post.len() && post[k2].config.name@ == name);
    if k2 != k {
        if k2 < k {
            assert(pre[k2].config.name@ != pre[k].config.name@);
        } else {
            assert(pre[k].config.name@ != pre[k2].config.name@);
        }
        assert(post[k2].config.name@ == pre[k2].config.name@);
        assert(false);
    }
    assert(entry_of(post, name).process == Option::Some(h));
}

/// No termination request names an instance that is absent from the
/// registry slice.
pub proof fn lemma_kills_absent(s: Seq<NgrokProcess>, name: Seq<char>)
    requires
        forall|j: int| 0 <= j < s.len() ==> s[j].config.name@ != name,
    ensures
        count_kills_named(kill_actions(s), name) == 0,
    decreases s.len(),
{
    if s.len() > 0 {
        lemma_kills_absent(s.drop_last(), name);
        match s.last().process {
            Option::Some(p) => {
                let a = Action::KillProcess { name: s.last().config.name, pid: p.pid };
                assert(kill_actions(s).drop_last() =~= kill_actions(s.drop_last()));
                assert(kill_actions(s).last() == a);
            },
            Option::None => {},
        }
    }
}

/// Shutdown terminates each instance that holds a handle exactly once and
/// each instance without one not at all: no duplicate kill attempts.
pub proof fn lemma_shutdown_kills_each_once(s: Seq<NgrokProcess>, i: int)
    requires
        distinct_names(s),
        0 <= i < s.len(),
    ensures
        count_kills_named(kill_actions(s), s[i].config.name@) == (if s[i].process is Some {
            1nat
        } else {
            0nat
        }),
    decreases s.len(),
{
    let name = s[i].config.name@;
    if i == s.len() - 1 {
        lemma_kills_absent(s.drop_last(), name);
        match s.last().process {
            Option::Some(p) => {
                let a = Action::KillProcess { name: s.last().config.name, pid: p.pid };
                assert(kill_actions(s).drop_last() =~= kill_actions(s.drop_last()));
                assert(kill_actions(s).last() == a);
            },
            Option::None => {},
        }
    } else {
        lemma_shutdown_kills_each_once(s.drop_last(), i);
        assert(s.drop_last()[i] == s[i]);
        match s.last().process {
            Option::Some(p) => {
                let a = Action::KillProcess { name: s.last().config.name, pid: p.pid };
                assert(kill_actions(s).drop_last() =~= kill_actions(s.drop_last()));
                assert(kill_actions(s).last() == a);
                assert(s.last().config.name@ != name);
            },
            Option::None => {},
        }
    }
}

/// After a shutdown nothing is left to kill: a registry whose instances
/// hold no handles yields an empty termination plan, so a second shutdown
/// attempts nothing.
pub proof fn lemma_no_live_handles_no_kills(s: Seq<NgrokProcess>)
    requires
        forall|i: int| 0 <= i < s.len() ==> s[i].process is None,
    ensures
        kill_actions(s) =~= Seq::<Action>::empty(),
    decreases s.len(),
{
    if s.len() > 0 {
        lemma_no_live_handles_no_kills(s.drop_last());
    }
}

} // verus!
