//! Pipeline execution: the state the stage actors keep between messages, and
//! the synchronous executor used in tests.
//!
//! The stage actors run as tasks outside the verified library; a source actor
//! asks its [`SourceRunState`] what each control message means, and a sink actor
//! counts consumed frames in a [`SinkProgress`].

use vstd::prelude::*;
use crate::error::ElementError;
use crate::frame::Frame;
use crate::message::ControlMessage;

verus! {

/// The run state of a source actor: whether it is producing, and how many frames it produced.
pub struct SourceRunState {
    running: bool,
    frames_produced: u64,
}

/// The abstract run state: producing or not, and the count of frames produced.
pub struct RunView {
    pub running: bool,
    pub frames_produced: nat,
}

impl View for SourceRunState {
    type V = RunView;

    closed spec fn view(&self) -> RunView {
        RunView { running: self.running, frames_produced: self.frames_produced as nat }
    }
}

/// How a control message changes the run state, and whether production (re)starts.
pub open spec fn control_step(v: RunView, msg: ControlMessage) -> (RunView, bool) {
    match msg {
        ControlMessage::Start => (RunView { running: true, ..v }, true),
        ControlMessage::Resume => (RunView { running: true, ..v }, true),
        ControlMessage::Pause => (RunView { running: false, ..v }, false),
        ControlMessage::Stop => (RunView { running: false, ..v }, false),
        ControlMessage::Configure(_) => (v, false),
    }
}

impl SourceRunState {
    /// A source that has not started and has produced nothing.
    pub fn new() -> (r: SourceRunState)
        ensures
            r@ == (RunView { running: false, frames_produced: 0 }),
    {
        SourceRunState { running: false, frames_produced: 0 }
    }

    /// Applies a control message; returns whether the source should produce frames now.
    /// Start and resume set it running and start production; pause and stop halt it;
    /// a configuration change leaves it as it is.
    pub fn on_control(&mut self, msg: &ControlMessage) -> (produce: bool)
        ensures
            (final(self)@, produce) == control_step(old(self)@, *msg),
    {
        match msg {
            ControlMessage::Start => {
                self.running = true;
                true
            },
            ControlMessage::Resume => {
                self.running = true;
                true
            },
            ControlMessage::Pause => {
                self.running = false;
                false
            },
            ControlMessage::Stop => {
                self.running = false;
                false
            },
            ControlMessage::Configure(_) => false,
        }
    }

    /// Whether the source is producing.
    pub fn is_running(&self) -> (r: bool)
        ensures
            r == self@.running,
    {
        self.running
    }

    /// Counts one produced frame.
    pub fn on_produced(&mut self)
        requires
            old(self)@.frames_produced < u64::MAX,
        ensures
            final(self)@ == (RunView { frames_produced: old(self)@.frames_produced + 1, ..old(self)@ }),
    {
        self.frames_produced = self.frames_produced + 1;
    }

    /// The number of frames produced.
    pub fn frames_produced(&self) -> (r: u64)
        ensures
            r == self@.frames_produced,
    {
        self.frames_produced
    }
}

/// The progress of a sink actor: the number of frames it consumed.
pub struct SinkProgress {
    pub frames_consumed: u64,
}

impl SinkProgress {
    /// A sink that has consumed nothing.
    pub fn new() -> (r: SinkProgress)
        ensures
            r.frames_consumed == 0,
    {
        SinkProgress { frames_consumed: 0 }
    }

    /// Counts one consumed frame.
    pub fn on_consumed(&mut self)
        requires
            old(self).frames_consumed < u64::MAX,
        ensures
            final(self).frames_consumed == old(self).frames_consumed + 1,
    {
        self.frames_consumed = self.frames_consumed + 1;
    }
}

/// Simple synchronous pipeline executor for testing.
pub struct SyncExecutor;

impl SyncExecutor {
    /// Runs a chain of elements, given as one processing function, on a single frame.
    pub fn run_once<I, O, F>(input: Frame<I>, process: F) -> (r: Result<Option<Frame<O>>, ElementError>)
        where
            F: FnOnce(Frame<I>) -> Result<Option<Frame<O>>, ElementError>,
        requires
            process.requires((input,)),
        ensures
            process.ensures((input,), r),
    {
        process(input)
    }
}

/// Resuming a paused source starts production again, and pausing a running one halts it,
/// without changing the count of frames produced.
pub proof fn law_pause_resume(v: RunView)
    ensures
        control_step(control_step(v, ControlMessage::Pause).0, ControlMessage::Resume) == (
        RunView { running: true, ..v }, true),
        control_step(v, ControlMessage::Pause).0.frames_produced == v.frames_produced,
        !control_step(v, ControlMessage::Stop).0.running,
{
}

} // verus!
