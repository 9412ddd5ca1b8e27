//! Bookkeeping for one externally spawned process.

use vstd::prelude::*;
use crate::config::NgrokInstance;

verus! {

/// The supervisor's record of a live operating-system process.
/// A handle's identifier is the OS process id; a live process always has a
/// non-zero id.
#[derive(Debug, Clone, Copy, PartialEq, Eq, Structural)]
pub struct ProcessHandle {
    pub pid: u32,
}

/// Whether an optional handle counts as live: present, with a resolvable
/// (non-zero) OS identifier.
pub open spec fn handle_live(h: Option<ProcessHandle>) -> bool {
    h matches Some(p) && p.pid != 0
}

/// One registered instance: its immutable configuration and the handle of
/// its currently running process, if any.
#[derive(Debug)]
pub struct NgrokProcess {
    pub config: NgrokInstance,
    pub process: Option<ProcessHandle>,
}

impl NgrokProcess {
    /// Liveness is a pure function of the handle state.
    pub open spec fn is_healthy_spec(&self) -> bool {
        handle_live(self.process)
    }

    /// Releases the handle so the embedding binary can terminate the OS
    /// process; the record is left with no handle. Calling it on an
    /// instance that has no process is a no-op returning `None`.
    pub fn kill(&mut self) -> (h: Option<ProcessHandle>)
        ensures
            final(self).config == old(self).config,
            final(self).process is None,
            h == old(self).process,
    {
        let h = self.process;
        self.process = None;
        h
    }
}

} // verus!
