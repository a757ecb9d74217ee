//! The per-worker control handle: status publication for the pipeline
//! thread, and the pause / resume rendezvous between it and the service.

use crate::cell::StatusCell;
use crate::state::{names_a_state, InvalidState, SealingState};
use crossbeam_channel::{Receiver, Sender};
use std::time::Instant;
use vstd::prelude::*;

verus! {

#[verifier::external_type_specification]
#[verifier::external_body]
#[verifier::reject_recursive_types(T)]
pub struct ExSender<T>(Sender<T>);

#[verifier::external_type_specification]
#[verifier::external_body]
#[verifier::reject_recursive_types(T)]
pub struct ExReceiver<T>(Receiver<T>);

#[verifier::external_type_specification]
#[verifier::external_body]
pub struct ExInstant(Instant);

/// What became of an attempt to hand a signal over.
#[derive(Clone, Copy, Debug, PartialEq, Eq, Structural)]
pub enum SendOutcome {
    /// A receiver was waiting and took the signal.
    Delivered,
    /// No receiver was waiting; nothing was queued.
    NotReady,
    /// The receiving side is gone.
    Closed,
}

/// What a wait for a signal gave.
pub enum RecvOutcome<T> {
    Received(T),
    /// Nothing came before the wait ended.
    Nothing,
    /// The sending side is gone.
    Closed,
}

/// Errors of the control operations.
#[derive(Clone, Debug, PartialEq, Eq)]
pub enum ControlError {
    /// No worker has this index.
    NotFound(usize),
    /// The requested state name is not a sealing state.
    InvalidParams(InvalidState),
    /// A rendezvous channel is closed: its pipeline thread has ended.
    ChannelFailure,
}

/// Relies on crossbeam_channel::bounded(0): a channel without buffer, whose
/// sends complete only when a receiver takes them.
#[verifier::external_body]
fn rendezvous<T>() -> (r: (Sender<T>, Receiver<T>)) {
    crossbeam_channel::bounded(0)
}

/// Relies on Sender::try_send: on a channel without buffer it succeeds only
/// if a receiver is waiting at that moment, and never blocks.
#[verifier::external_body]
fn offer<T>(tx: &Sender<T>, v: T) -> (r: SendOutcome) {
    match tx.try_send(v) {
        Ok(()) => SendOutcome::Delivered,
        Err(crossbeam_channel::TrySendError::Full(_)) => SendOutcome::NotReady,
        Err(crossbeam_channel::TrySendError::Disconnected(_)) => SendOutcome::Closed,
    }
}

/// Relies on Receiver::recv_timeout: waits at most `millis` milliseconds for a
/// sender.
#[verifier::external_body]
fn wait_for<T>(rx: &Receiver<T>, millis: u64) -> (r: RecvOutcome<T>) {
    match rx.recv_timeout(std::time::Duration::from_millis(millis)) {
        Ok(v) => RecvOutcome::Received(v),
        Err(crossbeam_channel::RecvTimeoutError::Timeout) => RecvOutcome::Nothing,
        Err(crossbeam_channel::RecvTimeoutError::Disconnected) => RecvOutcome::Closed,
    }
}

/// Relies on Receiver::recv: blocks until a value comes, or the channel closes.
#[verifier::external_body]
fn wait<T>(rx: &Receiver<T>) -> (r: Option<T>) {
    rx.recv().ok()
}

/// Relies on Instant::now: the current reading of the monotonic clock.
#[verifier::external_body]
fn clock_now() -> (r: Instant) {
    Instant::now()
}

/// Relies on Instant::elapsed: nanoseconds from `origin` to now.
#[verifier::external_body]
fn nanos_since(origin: &Instant) -> (r: u64) {
    origin.elapsed().as_nanos() as u64
}

/// The reply owed to a control request once its signal was offered.
pub open spec fn spec_signal_reply(o: SendOutcome) -> Result<bool, ControlError> {
    match o {
        SendOutcome::Delivered => Ok(true),
        SendOutcome::NotReady => Ok(false),
        SendOutcome::Closed => Err(ControlError::ChannelFailure),
    }
}

/// Maps the outcome of a signal offer to the reply of a control request.
pub fn signal_reply(o: SendOutcome) -> (r: Result<bool, ControlError>)
    ensures
        r == spec_signal_reply(o),
{
    match o {
        SendOutcome::Delivered => Ok(true),
        SendOutcome::NotReady => Ok(false),
        SendOutcome::Closed => Err(ControlError::ChannelFailure),
    }
}

/// The stage the pipeline goes on with after a resume.
pub open spec fn spec_resumed_cursor(cursor: SealingState, target: Option<SealingState>) -> SealingState {
    match target {
        Some(t) => t,
        None => cursor,
    }
}

/// The stage to go on with after a resume carrying `target`: the target if
/// one was given, else the stage the pipeline was about to run.
pub fn resumed_cursor(cursor: SealingState, target: Option<SealingState>) -> (r: SealingState)
    ensures
        r == spec_resumed_cursor(cursor, target),
{
    match target {
        Some(t) => t,
        None => cursor,
    }
}

/// What a checkpoint does with the outcome of its wait for a pause signal:
/// without a signal it goes on with `cursor`, on a closed channel it fails,
/// and after a signal (`None` here) it pauses.
pub fn after_poll(o: &RecvOutcome<()>, cursor: SealingState) -> (r: Option<
    Result<SealingState, ControlError>,
>)
    ensures
        *o matches RecvOutcome::Nothing ==> r == Some(Ok::<SealingState, ControlError>(cursor)),
        *o matches RecvOutcome::Closed ==> r == Some(
            Err::<SealingState, ControlError>(ControlError::ChannelFailure),
        ),
        *o matches RecvOutcome::Received(_) ==> r is None,
{
    match o {
        RecvOutcome::Nothing => Some(Ok(cursor)),
        RecvOutcome::Closed => Some(Err(ControlError::ChannelFailure)),
        RecvOutcome::Received(_) => None,
    }
}

/// The result of a paused checkpoint, from what its wait for a resume gave:
/// the resumed stage, or a failure if the channel closed.
pub open spec fn spec_after_resume(w: Option<Option<SealingState>>, cursor: SealingState) -> Result<
    SealingState,
    ControlError,
> {
    match w {
        Some(t) => Ok(spec_resumed_cursor(cursor, t)),
        None => Err(ControlError::ChannelFailure),
    }
}

/// The result of a paused checkpoint, from what its wait for a resume gave.
pub fn after_resume(w: Option<Option<SealingState>>, cursor: SealingState) -> (r: Result<
    SealingState,
    ControlError,
>)
    ensures
        r == spec_after_resume(w, cursor),
{
    match w {
        Some(t) => Ok(resumed_cursor(cursor, t)),
        None => Err(ControlError::ChannelFailure),
    }
}

/// The state read from a state cell; an empty cell reads as the first stage.
pub open spec fn spec_state_or_empty(o: Option<SealingState>) -> SealingState {
    match o {
        Some(s) => s,
        None => SealingState::Empty,
    }
}

/// The state read from a state cell; an empty cell reads as the first stage.
pub fn state_or_empty(o: Option<SealingState>) -> (r: SealingState)
    ensures
        r == spec_state_or_empty(o),
{
    match o {
        Some(s) => s,
        None => SealingState::Empty,
    }
}

/// A point-in-time copy of a worker's published status.
pub struct CtrlSnapshot {
    pub state: SealingState,
    pub sector_id: Option<String>,
    pub last_error: Option<String>,
    /// Clock reading, in nanoseconds, at which the pipeline paused.
    pub paused_at: Option<u64>,
    /// Clock reading, in nanoseconds, when the snapshot was taken.
    pub now: u64,
}

/// The service's control handle of one worker slot.
///
/// It reads the status that the worker's pipeline publishes and offers it
/// signals. The receiving ends live only on the pipeline's handle, so the
/// channels close when the pipeline goes away.
pub struct Ctrl {
    location: String,
    origin: Instant,
    sealing_state: StatusCell<SealingState>,
    sector_id: StatusCell<String>,
    last_error: StatusCell<String>,
    paused_at: StatusCell<u64>,
    pause_tx: Sender<()>,
    resume_tx: Sender<Option<SealingState>>,
}

/// The pipeline thread's handle of one worker slot: the only writer of its
/// status, and the receiving end of its signals.
pub struct PipelineCtrl {
    origin: Instant,
    sealing_state: StatusCell<SealingState>,
    sector_id: StatusCell<String>,
    last_error: StatusCell<String>,
    paused_at: StatusCell<u64>,
    pause_rx: Receiver<()>,
    resume_rx: Receiver<Option<SealingState>>,
}

impl Ctrl {
    /// The root of the worker's working directory.
    pub closed spec fn spec_location(&self) -> Seq<char> {
        self.location@
    }

    /// The root of the worker's working directory.
    pub fn location(&self) -> (r: &String)
        ensures
            r@ == self.spec_location(),
    {
        &self.location
    }

    /// The two handles of a worker rooted at `location`: the service's and
    /// the pipeline's, sharing the status cells and the two channels.
    pub fn new(location: String) -> (r: (Ctrl, PipelineCtrl))
        ensures
            r.0.spec_location() == location@,
    {
        let (pause_tx, pause_rx) = rendezvous();
        let (resume_tx, resume_rx) = rendezvous();
        let origin = clock_now();
        let sealing_state = StatusCell::new(Some(SealingState::Empty));
        let sector_id = StatusCell::new(None);
        let last_error = StatusCell::new(None);
        let paused_at = StatusCell::new(None);
        let pipeline = PipelineCtrl {
            origin,
            sealing_state: sealing_state.share(),
            sector_id: sector_id.share(),
            last_error: last_error.share(),
            paused_at: paused_at.share(),
            pause_rx,
            resume_rx,
        };
        let ctrl = Ctrl {
            location,
            origin,
            sealing_state,
            sector_id,
            last_error,
            paused_at,
            pause_tx,
            resume_tx,
        };
        (ctrl, pipeline)
    }

    /// Reads the published status fields, each at its own moment.
    pub fn snapshot(&self) -> (r: CtrlSnapshot) {
        let state = state_or_empty(self.sealing_state.read());
        let sector_id = self.sector_id.read();
        let last_error = self.last_error.read();
        let paused_at = self.paused_at.read();
        let now = nanos_since(&self.origin);
        CtrlSnapshot { state, sector_id, last_error, paused_at, now }
    }

    /// Asks the pipeline to pause at its checkpoint. `Ok(true)` only if the
    /// pipeline was parked there and took the signal; `Ok(false)` at once
    /// otherwise, with nothing left pending.
    pub fn request_pause(&self) -> (r: Result<bool, ControlError>)
        ensures
            r.is_ok() || r == Err::<bool, ControlError>(ControlError::ChannelFailure),
    {
        signal_reply(offer(&self.pause_tx, ()))
    }

    /// Asks a paused pipeline to go on, from `target` if one is named. A name
    /// that is no sealing state is refused before any signal is offered.
    pub fn request_resume(&self, target: Option<&str>) -> (r: Result<bool, ControlError>)
        ensures
            target matches Some(t) && !names_a_state(t@) ==> (r matches Err(
                ControlError::InvalidParams(e),
            ) && e.text@ == target.unwrap()@),
            !(target matches Some(t) && !names_a_state(t@)) ==> (r.is_ok() || r == Err::<
                bool,
                ControlError,
            >(ControlError::ChannelFailure)),
    {
        let state = match target {
            Some(t) => match SealingState::parse(t) {
                Ok(s) => Some(s),
                Err(e) => {
                    return Err(ControlError::InvalidParams(e));
                },
            },
            None => None,
        };
        signal_reply(offer(&self.resume_tx, state))
    }
}

impl PipelineCtrl {
    /// Publishes the stage the pipeline is at.
    pub fn set_state(&self, s: SealingState) {
        self.sealing_state.write(Some(s))
    }

    /// Publishes the sector in progress, if any.
    pub fn set_sector_id(&self, id: Option<String>) {
        self.sector_id.write(id)
    }

    /// Publishes the latest pipeline error, if any.
    pub fn set_last_error(&self, err: Option<String>) {
        self.last_error.write(err)
    }

    /// A checkpoint between stages, with `cursor` the stage the pipeline is
    /// about to run. Waits at most `wait_millis` for a pause signal and goes
    /// on as `after_poll` says. After a signal it publishes the pause, blocks
    /// until a resume comes, clears the pause, and goes on as `after_resume`
    /// says, publishing the stage it resumes at.
    pub fn checkpoint(&self, cursor: SealingState, wait_millis: u64) -> (r: Result<
        SealingState,
        ControlError,
    >)
        ensures
            r matches Err(e) ==> e == ControlError::ChannelFailure,
    {
        let polled = wait_for(&self.pause_rx, wait_millis);
        match after_poll(&polled, cursor) {
            Some(r) => r,
            None => {
                self.paused_at.write(Some(nanos_since(&self.origin)));
                let resumed = wait(&self.resume_rx);
                self.paused_at.write(None);
                let r = after_resume(resumed, cursor);
                match r {
                    Ok(next) => self.sealing_state.write(Some(next)),
                    Err(_) => {},
                }
                r
            },
        }
    }
}

} // verus!
