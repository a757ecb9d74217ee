//! The control service over the worker registry: list, pause and resume.

use crate::ctrl::{ControlError, Ctrl, CtrlSnapshot};
use crate::state::{names_a_state, state_name, SealingState};
use vstd::prelude::*;

verus! {

/// A point-in-time description of one worker, as the service reports it.
#[derive(Clone, Debug, PartialEq, Eq)]
pub struct WorkerInfo {
    pub index: usize,
    pub location: String,
    pub sector_id: Option<String>,
    pub paused: bool,
    pub paused_elapsed: Option<String>,
    pub state: String,
    pub last_error: Option<String>,
}

/// How a pause of `nanos` nanoseconds is written for an operator.
pub uninterp spec fn elapsed_text(nanos: u64) -> Seq<char>;

/// Relies on the Debug format of std::time::Duration, which depends on the
/// duration alone.
#[verifier::external_body]
fn format_elapsed(nanos: u64) -> (r: String)
    ensures
        r@ == elapsed_text(nanos),
{
    format!("{:?}", std::time::Duration::from_nanos(nanos))
}

/// Time spent paused, from the pause moment `at` to the reading `now`.
pub open spec fn spec_elapsed(at: u64, now: u64) -> u64 {
    if at <= now {
        (now - at) as u64
    } else {
        0
    }
}

/// Time spent paused; a reading before the pause moment counts as none.
pub fn elapsed(at: u64, now: u64) -> (r: u64)
    ensures
        r == spec_elapsed(at, now),
{
    if at <= now {
        now - at
    } else {
        0
    }
}

/// A pause that lasts is reported with an elapsed time that never shrinks.
pub proof fn lemma_elapsed_monotone(at: u64, now1: u64, now2: u64)
    requires
        now1 <= now2,
    ensures
        spec_elapsed(at, now1) <= spec_elapsed(at, now2),
{
}

/// What `worker_info` reports for a snapshot of the worker at `index`.
pub open spec fn describes(
    r: WorkerInfo,
    index: usize,
    location: Seq<char>,
    snap: CtrlSnapshot,
) -> bool {
    &&& r.index == index
    &&& r.location@ == location
    &&& r.sector_id == snap.sector_id
    &&& r.last_error == snap.last_error
    &&& r.state@ == state_name(snap.state)
    &&& r.paused == snap.paused_at.is_some()
    &&& match snap.paused_at {
        Some(at) => r.paused_elapsed matches Some(e) && e@ == elapsed_text(
            spec_elapsed(at, snap.now),
        ),
        None => r.paused_elapsed.is_none(),
    }
}

/// Assembles the description of the worker at `index` from a snapshot.
pub fn worker_info(index: usize, location: &String, snap: CtrlSnapshot) -> (r: WorkerInfo)
    ensures
        describes(r, index, location@, snap),
{
    let paused = snap.paused_at.is_some();
    let paused_elapsed = match snap.paused_at {
        Some(at) => Some(format_elapsed(elapsed(at, snap.now))),
        None => None,
    };
    WorkerInfo {
        index,
        location: location.clone(),
        sector_id: snap.sector_id,
        paused,
        paused_elapsed,
        state: snap.state.name().to_string(),
        last_error: snap.last_error,
    }
}

/// The registry of worker handles and the operations on it.
pub struct Service {
    ctrls: Vec<(usize, Ctrl)>,
}

impl Service {
    /// The registry, in order.
    pub closed spec fn entries(&self) -> Seq<(usize, Ctrl)> {
        self.ctrls@
    }

    /// A service that owns the given registry.
    pub fn new(ctrls: Vec<(usize, Ctrl)>) -> (r: Service)
        ensures
            r.entries() == ctrls@,
    {
        Service { ctrls }
    }

    /// The number of registered workers.
    pub fn len(&self) -> (r: usize)
        ensures
            r == self.entries().len(),
    {
        self.ctrls.len()
    }

    /// Whether other components wait for this one to start: they do not.
    pub fn should_wait(&self) -> (r: bool)
        ensures
            !r,
    {
        false
    }

    /// The name of this component.
    pub fn id(&self) -> (r: String)
        ensures
            r@ == "worker-server"@,
    {
        "worker-server".to_string()
    }

    /// The handle at position `index` of the registry.
    pub fn get_ctrl(&self, index: usize) -> (r: Result<&Ctrl, ControlError>)
        ensures
            index < self.entries().len() ==> (r matches Ok(c) && *c == self.entries()[index as int].1),
            index >= self.entries().len() ==> r == Err::<&Ctrl, ControlError>(
                ControlError::NotFound(index),
            ),
    {
        if index < self.ctrls.len() {
            Ok(&self.ctrls[index].1)
        } else {
            Err(ControlError::NotFound(index))
        }
    }

    /// Whether `r` lists the registry: one entry per worker, in registry
    /// order, each with that worker's index and location.
    pub open spec fn lists_registry(&self, r: Seq<WorkerInfo>) -> bool {
        &&& r.len() == self.entries().len()
        &&& forall|i: int|
            0 <= i < r.len() ==> {
                &&& (#[trigger] r[i]).index == self.entries()[i].0
                &&& r[i].location@ == self.entries()[i].1.spec_location()
                &&& r[i].paused == r[i].paused_elapsed.is_some()
                &&& names_a_state(r[i].state@)
            }
    }

    /// Describes every registered worker from `snaps`, a snapshot of each
    /// in registry order.
    pub fn describe_registry(&self, snaps: Vec<CtrlSnapshot>) -> (r: Vec<WorkerInfo>)
        requires
            snaps@.len() == self.entries().len(),
        ensures
            self.lists_registry(r@),
            forall|k: int|
                0 <= k < r@.len() ==> describes(
                    #[trigger] r@[k],
                    self.entries()[k].0,
                    self.entries()[k].1.spec_location(),
                    snaps@[k],
                ),
    {
        let ghost all = snaps@;
        let mut rest = snaps;
        let mut out: Vec<WorkerInfo> = Vec::new();
        let mut i: usize = 0;
        while i < self.ctrls.len()
            invariant
                i <= self.ctrls@.len(),
                all.len() == self.ctrls@.len(),
                rest@ == all.subrange(i as int, all.len() as int),
                out@.len() == i,
                forall|k: int|
                    0 <= k < i ==> describes(
                        #[trigger] out@[k],
                        self.entries()[k].0,
                        self.entries()[k].1.spec_location(),
                        all[k],
                    ),
            decreases self.ctrls@.len() - i,
        {
            let (idx, ctrl) = &self.ctrls[i];
            let snap = rest.remove(0);
            assert(snap == all[i as int]);
            let info = worker_info(*idx, ctrl.location(), snap);
            out.push(info);
            assert(rest@ =~= all.subrange(i + 1, all.len() as int));
            i = i + 1;
        }
        assert forall|k: int| 0 <= k < out@.len() implies {
            &&& (#[trigger] out@[k]).index == self.entries()[k].0
            &&& out@[k].location@ == self.entries()[k].1.spec_location()
            &&& out@[k].paused == out@[k].paused_elapsed.is_some()
            &&& names_a_state(out@[k].state@)
        } by {
            assert(describes(out@[k], self.entries()[k].0, self.entries()[k].1.spec_location(), all[k]));
            assert(state_name(all[k].state) == out@[k].state@);
        }
        out
    }

    /// Describes every registered worker, in registry order, each from a
    /// fresh snapshot of its own status.
    pub fn worker_list(&self) -> (r: Vec<WorkerInfo>)
        ensures
            self.lists_registry(r@),
    {
        let mut snaps: Vec<CtrlSnapshot> = Vec::new();
        let mut i: usize = 0;
        while i < self.ctrls.len()
            invariant
                i <= self.ctrls@.len(),
                snaps@.len() == i,
            decreases self.ctrls@.len() - i,
        {
            snaps.push(self.ctrls[i].1.snapshot());
            i = i + 1;
        }
        self.describe_registry(snaps)
    }

    /// Asks worker `index` to pause at its checkpoint.
    pub fn worker_pause(&self, index: usize) -> (r: Result<bool, ControlError>)
        ensures
            index >= self.entries().len() ==> r == Err::<bool, ControlError>(
                ControlError::NotFound(index),
            ),
            index < self.entries().len() ==> (r.is_ok() || r == Err::<bool, ControlError>(
                ControlError::ChannelFailure,
            )),
    {
        let ctrl = match self.get_ctrl(index) {
            Ok(c) => c,
            Err(e) => {
                return Err(e);
            },
        };
        ctrl.request_pause()
    }

    /// Asks paused worker `index` to go on, from state `set_to` if named.
    pub fn worker_resume(&self, index: usize, set_to: Option<String>) -> (r: Result<
        bool,
        ControlError,
    >)
        ensures
            index >= self.entries().len() ==> r == Err::<bool, ControlError>(
                ControlError::NotFound(index),
            ),
            index < self.entries().len() && (set_to matches Some(t) && !names_a_state(t@)) ==> (
            r matches Err(ControlError::InvalidParams(e)) && e.text@ == set_to.unwrap()@),
            index < self.entries().len() && !(set_to matches Some(t) && !names_a_state(t@)) ==> (
            r.is_ok() || r == Err::<bool, ControlError>(ControlError::ChannelFailure)),
    {
        let ctrl = match self.get_ctrl(index) {
            Ok(c) => c,
            Err(e) => {
                return Err(e);
            },
        };
        match set_to {
            Some(s) => ctrl.request_resume(Some(s.as_str())),
            None => ctrl.request_resume(None),
        }
    }
}

/// Two listings of one registry give each position the same worker index.
pub proof fn lemma_list_order_stable(s: &Service, r1: Seq<WorkerInfo>, r2: Seq<WorkerInfo>)
    requires
        s.lists_registry(r1),
        s.lists_registry(r2),
    ensures
        r1.len() == r2.len(),
        forall|i: int| 0 <= i < r1.len() ==> (#[trigger] r1[i]).index == r2[i].index,
{
    assert forall|i: int| 0 <= i < r1.len() implies (#[trigger] r1[i]).index == r2[i].index by {
        assert(r1[i].index == s.entries()[i].0);
        assert(r2[i].index == s.entries()[i].0);
    }
}

} // verus!
