//! The sidecar supervisor's bookkeeping: at most one worker process is
//! tracked at a time, by its process id. Launching the worker binary and
//! signaling it are performed by the surrounding application, which hands the
//! outcomes in; the rules of when a handle is recorded, handed out and
//! discarded live here.

use vstd::prelude::*;

verus! {

/// Errors of the supervisor. A worker binary that cannot be launched is
/// fatal to the supervisor's caller.
#[derive(Clone, Copy, Debug, PartialEq, Eq, Structural)]
pub enum SidecarError {
    SpawnFailure,
}

/// The record of the one worker process that may be tracked.
pub struct SidecarState {
    pub process_id: Option<u32>,
}

impl SidecarState {
    /// A supervisor tracking no worker.
    pub fn new() -> (r: Self)
        ensures
            r.process_id is None,
    {
        SidecarState { process_id: None }
    }

    /// Records what launching the worker binary gave: the new process id, or
    /// nothing when the binary could not be launched, which is `SpawnFailure`
    /// and leaves the supervisor tracking no worker. A second worker must
    /// never be spawned while one is still tracked, so a recorded handle has
    /// to be discarded first.
    pub fn record_spawn(&mut self, pid: Option<u32>) -> (r: Result<u32, SidecarError>)
        requires
            old(self).process_id is None,
        ensures
            match pid {
                Some(p) => {
                    &&& r == Ok::<u32, SidecarError>(p)
                    &&& final(self).process_id == Some(p)
                },
                None => {
                    &&& r == Err::<u32, SidecarError>(SidecarError::SpawnFailure)
                    &&& final(self).process_id is None
                },
            },
    {
        match pid {
            Some(p) => {
                self.process_id = Some(p);
                Ok(p)
            },
            None => Err(SidecarError::SpawnFailure),
        }
    }

    /// Hands out the recorded process id so the caller can signal it, and
    /// discards the handle: termination is fire-and-forget, and whether the
    /// signal succeeds or not, the stale handle is dropped. With no handle
    /// recorded — in particular on any second call — this is a no-op and
    /// there is nothing to signal.
    pub fn kill_sidecar(&mut self) -> (r: Option<u32>)
        ensures
            r == old(self).process_id,
            final(self).process_id is None,
    {
        let pid = self.process_id;
        self.process_id = None;
        pid
    }
}

/// A fresh supervisor state tracking no worker. The surrounding application
/// shares it between its startup and shutdown paths under its own mutual
/// exclusion.
pub fn new_sidecar_state() -> (r: SidecarState)
    ensures
        r.process_id is None,
{
    SidecarState::new()
}

} // verus!
