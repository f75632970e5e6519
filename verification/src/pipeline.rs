//! The pipeline from watch signals to observations, and how it ends.

use vstd::prelude::*;
use vstd::string::*;
use crate::notifier::{observation, observe_all, Observation};
use crate::status::PodSnapshotView;
use crate::watch::{
    advanced, command_of, delivered, outcome_of, snapshots, SessionStateView, StepOutcome,
    WatchCommand, WatchController, WatchFault, WatchSignal, WatchSignalView,
};

verus! {

/// What one turn of the pipeline comes to: the observations of the applied
/// events, in order; how the watch stands; and what to do next.
#[derive(Debug, Clone, PartialEq, Eq)]
pub struct Turn {
    pub observations: Vec<Observation>,
    pub outcome: StepOutcome,
    pub next: WatchCommand,
}

/// How the whole pipeline ended.
#[derive(Debug, Clone, Copy, PartialEq, Eq)]
pub enum PipelineEnd {
    /// No release could be determined from the operator's input.
    MissingRelease,
    /// The watch was stopped.
    Done,
    /// The watch ended on a terminal fault.
    WatchFailed { fault: WatchFault },
}

/// The exit status for each way the pipeline can end: a terminal watch fault
/// is a failure; a stop, and a release that could not be determined, are not.
pub open spec fn exit_status(end: PipelineEnd) -> u8 {
    match end {
        PipelineEnd::WatchFailed { fault } => 1,
        _ => 0,
    }
}

/// The closing line printed for each way the pipeline can end.
pub open spec fn closing_text(end: PipelineEnd) -> Seq<char> {
    match end {
        PipelineEnd::MissingRelease => "Missing pod/release name"@,
        PipelineEnd::Done => "Done."@,
        PipelineEnd::WatchFailed { fault } => "Watch failed."@,
    }
}

/// How the pipeline ends when a step leaves the watch with `outcome`, if it
/// ends at all.
pub open spec fn end_of(outcome: StepOutcome) -> Option<PipelineEnd> {
    match outcome {
        StepOutcome::Continue => None,
        StepOutcome::Stopped => Some(PipelineEnd::Done),
        StepOutcome::Failed { fault } => Some(PipelineEnd::WatchFailed { fault }),
    }
}

/// Takes one signal through the pipeline: the controller steps, and each
/// applied event of the step is observed, fully and in order, before the next
/// command is given out.
pub fn advance(controller: &mut WatchController, signal: WatchSignal) -> (r: Turn)
    ensures
        final(controller)@ == advanced(old(controller)@, signal@),
        r.observations.len() == delivered(old(controller)@.state, signal@).len(),
        forall|i: int|
            0 <= i < r.observations.len() ==> (#[trigger] r.observations[i])@ == observation(
                delivered(old(controller)@.state, signal@)[i],
            ),
        r.outcome == outcome_of(old(controller)@.state, signal@),
        r.next@ == command_of(final(controller)@),
{
    let step = controller.step(signal);
    let observations = observe_all(&step.applied);
    let next = controller.next_command();
    proof {
        assert(snapshots(step.applied@).len() == step.applied@.len());
        assert forall|i: int| 0 <= i < observations.len() implies (#[trigger] observations[i])@
            == observation(snapshots(step.applied@)[i]) by {
            assert(snapshots(step.applied@)[i] == step.applied@[i]@);
        }
    }
    Turn { observations, outcome: step.outcome, next }
}

/// Says whether the pipeline ends after a step, and how.
pub fn pipeline_end(outcome: StepOutcome) -> (r: Option<PipelineEnd>)
    ensures
        r == end_of(outcome),
{
    match outcome {
        StepOutcome::Continue => None,
        StepOutcome::Stopped => Some(PipelineEnd::Done),
        StepOutcome::Failed { fault } => Some(PipelineEnd::WatchFailed { fault }),
    }
}

/// The process exit status for an ended pipeline.
pub fn exit_code(end: PipelineEnd) -> (r: u8)
    ensures
        r == exit_status(end),
{
    match end {
        PipelineEnd::WatchFailed { fault } => 1,
        _ => 0,
    }
}

/// The closing line for an ended pipeline.
pub fn closing_line(end: PipelineEnd) -> (r: String)
    ensures
        r@ == closing_text(end),
{
    match end {
        PipelineEnd::MissingRelease => String::from_str("Missing pod/release name"),
        PipelineEnd::Done => String::from_str("Done."),
        PipelineEnd::WatchFailed { fault } => String::from_str("Watch failed."),
    }
}

/// A cancelled turn observes nothing: no alert is raised for an event that
/// was not delivered in full.
pub proof fn cancelled_turn_is_silent(state: SessionStateView)
    ensures
        delivered(state, WatchSignalView::Cancelled) == Seq::<
            PodSnapshotView,
        >::empty(),
        end_of(outcome_of(state, WatchSignalView::Cancelled)) == Some(
            PipelineEnd::Done,
        ),
{
}

/// The pipeline fails exactly when a step surfaces a terminal fault; only
/// then is the exit status not zero.
pub proof fn failure_exits_nonzero(outcome: StepOutcome)
    ensures
        end_of(outcome) is Some ==> (exit_status(end_of(outcome)->0) != 0 <==> outcome is Failed),
{
}

} // verus!
