//! The watch controller: a resumable, label-scoped watch session as a state
//! machine. The caller performs the requests; the controller decides what to
//! request next, which events reach the consumer, and when the watch ends.

use vstd::prelude::*;
use vstd::string::*;
use crate::status::{text_of, PodSnapshot, PodSnapshotView};

verus! {

/// The number of seconds after which the server may close a watch session
/// in the ordinary way.
pub const SESSION_TIMEOUT_SECS: u32 = 9;

/// Where a watch session stands.
#[derive(Debug, Clone, PartialEq, Eq)]
pub enum SessionState {
    /// No usable cursor: the current state has to be listed afresh.
    NeedsSync,
    /// A cursor is known and a session has to be opened from it.
    Resuming { cursor: String },
    /// A session is open; `cursor` is the last resource version seen.
    Streaming { cursor: String },
    /// The watch has ended, by cancellation or by a terminal fault.
    Closed,
}

/// A fault reported by the transport or by the server.
#[derive(Debug, Clone, Copy, PartialEq, Eq)]
pub enum WatchFault {
    /// The connection failed below the level of a server answer.
    Transport,
    /// The server answered with an error status.
    Status { code: u16 },
}

/// How the controller treats a fault.
#[derive(Debug, Clone, Copy, PartialEq, Eq)]
pub enum FaultClass {
    /// Recoverable: the session is reopened.
    Transient,
    /// The cursor is too old: resumption is not possible, resync.
    CursorExpired,
    /// Unrecoverable: reported to the caller, the watch ends.
    Terminal,
}

/// What the caller hands back after carrying out a command.
#[derive(Debug, Clone, PartialEq, Eq)]
pub enum WatchSignal {
    /// The current pods were listed; `cursor` is the list's resource version.
    Listed { items: Vec<PodSnapshot>, cursor: String },
    /// A session was opened.
    Opened,
    Added { pod: PodSnapshot },
    Modified { pod: PodSnapshot },
    Deleted { pod: PodSnapshot },
    /// A progress marker that carries nothing but a newer cursor.
    Bookmark { cursor: String },
    /// The server closed the session in the ordinary way, as it does when
    /// the session's time is up.
    SessionEnded,
    Fault { fault: WatchFault },
    /// The caller asks the watch to stop.
    Cancelled,
}

/// What the caller is to do next.
#[derive(Debug, Clone, PartialEq, Eq)]
pub enum WatchCommand {
    /// List the pods that match the selector.
    List { selector: String },
    /// Open a session for the selector, from the cursor, for at most
    /// `timeout_secs`.
    Open { selector: String, cursor: String, timeout_secs: u32 },
    /// Wait for the next event of the open session.
    Await,
    /// Nothing more: the watch has ended.
    Halt,
}

/// How a step leaves the watch.
#[derive(Debug, Clone, Copy, PartialEq, Eq)]
pub enum StepOutcome {
    /// The watch goes on.
    Continue,
    /// The watch was cancelled, now or earlier.
    Stopped,
    /// A terminal fault ended the watch.
    Failed { fault: WatchFault },
}

/// The result of one step: the applied events to hand to the consumer, in
/// order, and how the watch stands.
#[derive(Debug, Clone, PartialEq, Eq)]
pub struct Step {
    pub applied: Vec<PodSnapshot>,
    pub outcome: StepOutcome,
}

/// A watch over the pods that match one label selector.
#[derive(Debug, Clone, PartialEq, Eq)]
pub struct WatchController {
    pub selector: String,
    pub timeout_secs: u32,
    pub state: SessionState,
}

pub enum SessionStateView {
    NeedsSync,
    Resuming { cursor: Seq<char> },
    Streaming { cursor: Seq<char> },
    Closed,
}

pub enum WatchSignalView {
    Listed { items: Seq<PodSnapshotView>, cursor: Seq<char> },
    Opened,
    Added { pod: PodSnapshotView },
    Modified { pod: PodSnapshotView },
    Deleted { pod: PodSnapshotView },
    Bookmark { cursor: Seq<char> },
    SessionEnded,
    Fault { fault: WatchFault },
    Cancelled,
}

pub enum WatchCommandView {
    List { selector: Seq<char> },
    Open { selector: Seq<char>, cursor: Seq<char>, timeout_secs: u32 },
    Await,
    Halt,
}

pub struct StepView {
    pub applied: Seq<PodSnapshotView>,
    pub outcome: StepOutcome,
}

pub struct WatchControllerView {
    pub selector: Seq<char>,
    pub timeout_secs: u32,
    pub state: SessionStateView,
}

/// The views of a run of signals.
pub open spec fn signal_views(signals: Seq<WatchSignal>) -> Seq<WatchSignalView> {
    signals.map_values(|s: WatchSignal| s@)
}

/// The views of a run of snapshots.
pub open spec fn snapshots(pods: Seq<PodSnapshot>) -> Seq<PodSnapshotView> {
    pods.map_values(|p: PodSnapshot| p@)
}

impl View for SessionState {
    type V = SessionStateView;

    open spec fn view(&self) -> SessionStateView {
        match self {
            SessionState::NeedsSync => SessionStateView::NeedsSync,
            SessionState::Resuming { cursor } => SessionStateView::Resuming { cursor: cursor@ },
            SessionState::Streaming { cursor } => SessionStateView::Streaming { cursor: cursor@ },
            SessionState::Closed => SessionStateView::Closed,
        }
    }
}

impl View for WatchSignal {
    type V = WatchSignalView;

    open spec fn view(&self) -> WatchSignalView {
        match self {
            WatchSignal::Listed { items, cursor } => WatchSignalView::Listed {
                items: snapshots(items@),
                cursor: cursor@,
            },
            WatchSignal::Opened => WatchSignalView::Opened,
            WatchSignal::Added { pod } => WatchSignalView::Added { pod: pod@ },
            WatchSignal::Modified { pod } => WatchSignalView::Modified { pod: pod@ },
            WatchSignal::Deleted { pod } => WatchSignalView::Deleted { pod: pod@ },
            WatchSignal::Bookmark { cursor } => WatchSignalView::Bookmark { cursor: cursor@ },
            WatchSignal::SessionEnded => WatchSignalView::SessionEnded,
            WatchSignal::Fault { fault } => WatchSignalView::Fault { fault: *fault },
            WatchSignal::Cancelled => WatchSignalView::Cancelled,
        }
    }
}

impl View for WatchCommand {
    type V = WatchCommandView;

    open spec fn view(&self) -> WatchCommandView {
        match self {
            WatchCommand::List { selector } => WatchCommandView::List { selector: selector@ },
            WatchCommand::Open { selector, cursor, timeout_secs } => WatchCommandView::Open {
                selector: selector@,
                cursor: cursor@,
                timeout_secs: *timeout_secs,
            },
            WatchCommand::Await => WatchCommandView::Await,
            WatchCommand::Halt => WatchCommandView::Halt,
        }
    }
}

impl View for Step {
    type V = StepView;

    open spec fn view(&self) -> StepView {
        StepView { applied: snapshots(self.applied@), outcome: self.outcome }
    }
}

impl View for WatchController {
    type V = WatchControllerView;

    open spec fn view(&self) -> WatchControllerView {
        WatchControllerView {
            selector: self.selector@,
            timeout_secs: self.timeout_secs,
            state: self.state@,
        }
    }
}

/// How a fault is treated. A status of 410 says that the cursor has expired;
/// 400, 401 and 403 say that the request itself is refused (a selector that
/// does not parse, credentials that are not accepted) and will be refused
/// again; everything else, and every transport fault, is passing.
pub open spec fn fault_class(fault: WatchFault) -> FaultClass {
    match fault {
        WatchFault::Transport => FaultClass::Transient,
        WatchFault::Status { code } => if code == 410 {
            FaultClass::CursorExpired
        } else if code == 400 || code == 401 || code == 403 {
            FaultClass::Terminal
        } else {
            FaultClass::Transient
        },
    }
}

/// Whether a resource version can serve as a cursor: it is there and not
/// empty.
pub open spec fn usable_cursor(version: Option<Seq<char>>) -> bool {
    version is Some && version->0.len() > 0
}

/// The state that an open session is in after an object event: it goes on
/// from the object's resource version, or falls back to a resync where the
/// object carries none.
pub open spec fn after_object(pod: PodSnapshotView) -> SessionStateView {
    if usable_cursor(pod.resource_version) {
        SessionStateView::Streaming { cursor: pod.resource_version->0 }
    } else {
        SessionStateView::NeedsSync
    }
}

/// The state after a signal. A closed watch stays closed. Cancellation and
/// terminal faults close it. An expired cursor asks for a resync; any other
/// fault, and the ordinary end of a session, reopen the session from the last
/// cursor. A signal that does not fit the state leaves the state as it is.
pub open spec fn next_state(state: SessionStateView, signal: WatchSignalView) -> SessionStateView {
    match state {
        SessionStateView::Closed => SessionStateView::Closed,
        _ => match signal {
            WatchSignalView::Cancelled => SessionStateView::Closed,
            WatchSignalView::Fault { fault } => match fault_class(fault) {
                FaultClass::Terminal => SessionStateView::Closed,
                FaultClass::CursorExpired => SessionStateView::NeedsSync,
                FaultClass::Transient => match state {
                    SessionStateView::Streaming { cursor } => SessionStateView::Resuming { cursor },
                    _ => state,
                },
            },
            WatchSignalView::Listed { items, cursor } => match state {
                SessionStateView::NeedsSync => if cursor.len() > 0 {
                    SessionStateView::Resuming { cursor }
                } else {
                    SessionStateView::NeedsSync
                },
                _ => state,
            },
            WatchSignalView::Opened => match state {
                SessionStateView::Resuming { cursor } => SessionStateView::Streaming { cursor },
                _ => state,
            },
            WatchSignalView::Added { pod } => match state {
                SessionStateView::Streaming { cursor } => after_object(pod),
                _ => state,
            },
            WatchSignalView::Modified { pod } => match state {
                SessionStateView::Streaming { cursor } => after_object(pod),
                _ => state,
            },
            WatchSignalView::Deleted { pod } => match state {
                SessionStateView::Streaming { cursor } => after_object(pod),
                _ => state,
            },
            WatchSignalView::Bookmark { cursor } => match state {
                SessionStateView::Streaming { cursor: _ } => SessionStateView::Streaming { cursor },
                _ => state,
            },
            WatchSignalView::SessionEnded => match state {
                SessionStateView::Streaming { cursor } => SessionStateView::Resuming { cursor },
                _ => state,
            },
        },
    }
}

/// The applied events that a signal gives rise to: the listed pods of a
/// resync that came with a cursor, and the pod of an add or a modify on an
/// open session where it carries a resource version. Deletions, bookmarks,
/// faults and signals that do not fit the state give none.
pub open spec fn delivered(state: SessionStateView, signal: WatchSignalView) -> Seq<
    PodSnapshotView,
> {
    match (state, signal) {
        (SessionStateView::NeedsSync, WatchSignalView::Listed { items, cursor }) => if cursor.len()
            > 0 {
            items
        } else {
            Seq::empty()
        },
        (SessionStateView::Streaming { cursor }, WatchSignalView::Added { pod }) => if usable_cursor(
            pod.resource_version,
        ) {
            seq![pod]
        } else {
            Seq::empty()
        },
        (
            SessionStateView::Streaming { cursor },
            WatchSignalView::Modified { pod },
        ) => if usable_cursor(pod.resource_version) {
            seq![pod]
        } else {
            Seq::empty()
        },
        _ => Seq::empty(),
    }
}

/// How a signal leaves the watch: stopped where it was closed already or is
/// cancelled now, failed where the signal is a terminal fault, and going on
/// otherwise.
pub open spec fn outcome_of(state: SessionStateView, signal: WatchSignalView) -> StepOutcome {
    match state {
        SessionStateView::Closed => StepOutcome::Stopped,
        _ => match signal {
            WatchSignalView::Cancelled => StepOutcome::Stopped,
            WatchSignalView::Fault { fault } => if fault_class(fault) == FaultClass::Terminal {
                StepOutcome::Failed { fault }
            } else {
                StepOutcome::Continue
            },
            _ => StepOutcome::Continue,
        },
    }
}

/// The command that a controller asks for in its state.
pub open spec fn command_of(c: WatchControllerView) -> WatchCommandView {
    match c.state {
        SessionStateView::NeedsSync => WatchCommandView::List { selector: c.selector },
        SessionStateView::Resuming { cursor } => WatchCommandView::Open {
            selector: c.selector,
            cursor,
            timeout_secs: c.timeout_secs,
        },
        SessionStateView::Streaming { cursor } => WatchCommandView::Await,
        SessionStateView::Closed => WatchCommandView::Halt,
    }
}

/// The controller after a signal: the same selector and timeout, the next
/// state.
pub open spec fn advanced(c: WatchControllerView, signal: WatchSignalView) -> WatchControllerView {
    WatchControllerView {
        selector: c.selector,
        timeout_secs: c.timeout_secs,
        state: next_state(c.state, signal),
    }
}

/// Classifies a fault.
pub fn classify(fault: WatchFault) -> (r: FaultClass)
    ensures
        r == fault_class(fault),
{
    match fault {
        WatchFault::Transport => FaultClass::Transient,
        WatchFault::Status { code } => {
            if code == 410 {
                FaultClass::CursorExpired
            } else if code == 400 || code == 401 || code == 403 {
                FaultClass::Terminal
            } else {
                FaultClass::Transient
            }
        },
    }
}

/// Whether the pod carries a resource version that can serve as a cursor.
fn has_cursor(pod: &PodSnapshot) -> (r: bool)
    ensures
        r == usable_cursor(pod@.resource_version),
{
    match &pod.resource_version {
        Some(v) => !v.as_str().is_empty(),
        None => false,
    }
}

/// The state of an open session after an event for `pod`.
fn object_state(pod: &PodSnapshot) -> (r: SessionState)
    ensures
        r@ == after_object(pod@),
{
    match &pod.resource_version {
        Some(v) => {
            if v.as_str().is_empty() {
                SessionState::NeedsSync
            } else {
                SessionState::Streaming { cursor: v.clone() }
            }
        },
        None => SessionState::NeedsSync,
    }
}

impl SessionState {
    /// Whether the watch has ended.
    pub fn is_closed(&self) -> (r: bool)
        ensures
            r == (self@ == SessionStateView::Closed),
    {
        match self {
            SessionState::Closed => true,
            _ => false,
        }
    }

    /// A state equal to this one.
    pub fn duplicate(&self) -> (r: SessionState)
        ensures
            r@ == self@,
    {
        match self {
            SessionState::NeedsSync => SessionState::NeedsSync,
            SessionState::Resuming { cursor } => SessionState::Resuming { cursor: cursor.clone() },
            SessionState::Streaming { cursor } => SessionState::Streaming {
                cursor: cursor.clone(),
            },
            SessionState::Closed => SessionState::Closed,
        }
    }

    /// The state after `signal`.
    pub fn after(&self, signal: &WatchSignal) -> (r: SessionState)
        ensures
            r@ == next_state(self@, signal@),
    {
        if self.is_closed() {
            return SessionState::Closed;
        }
        match signal {
            WatchSignal::Cancelled => SessionState::Closed,
            WatchSignal::Fault { fault } => match classify(*fault) {
                FaultClass::Terminal => SessionState::Closed,
                FaultClass::CursorExpired => SessionState::NeedsSync,
                FaultClass::Transient => match self {
                    SessionState::Streaming { cursor } => SessionState::Resuming {
                        cursor: cursor.clone(),
                    },
                    _ => self.duplicate(),
                },
            },
            WatchSignal::Listed { items, cursor } => match self {
                SessionState::NeedsSync => {
                    if cursor.as_str().is_empty() {
                        SessionState::NeedsSync
                    } else {
                        SessionState::Resuming { cursor: cursor.clone() }
                    }
                },
                _ => self.duplicate(),
            },
            WatchSignal::Opened => match self {
                SessionState::Resuming { cursor } => SessionState::Streaming {
                    cursor: cursor.clone(),
                },
                _ => self.duplicate(),
            },
            WatchSignal::Added { pod } => match self {
                SessionState::Streaming { cursor } => object_state(pod),
                _ => self.duplicate(),
            },
            WatchSignal::Modified { pod } => match self {
                SessionState::Streaming { cursor } => object_state(pod),
                _ => self.duplicate(),
            },
            WatchSignal::Deleted { pod } => match self {
                SessionState::Streaming { cursor } => object_state(pod),
                _ => self.duplicate(),
            },
            WatchSignal::Bookmark { cursor } => match self {
                SessionState::Streaming { cursor: _ } => SessionState::Streaming {
                    cursor: cursor.clone(),
                },
                _ => self.duplicate(),
            },
            WatchSignal::SessionEnded => match self {
                SessionState::Streaming { cursor } => SessionState::Resuming {
                    cursor: cursor.clone(),
                },
                _ => self.duplicate(),
            },
        }
    }

    /// How `signal` leaves the watch.
    pub fn outcome(&self, signal: &WatchSignal) -> (r: StepOutcome)
        ensures
            r == outcome_of(self@, signal@),
    {
        if self.is_closed() {
            return StepOutcome::Stopped;
        }
        match signal {
            WatchSignal::Cancelled => StepOutcome::Stopped,
            WatchSignal::Fault { fault } => match classify(*fault) {
                FaultClass::Terminal => StepOutcome::Failed { fault: *fault },
                _ => StepOutcome::Continue,
            },
            _ => StepOutcome::Continue,
        }
    }

    /// The applied events that `signal` gives rise to in this state.
    pub fn deliver(&self, signal: WatchSignal) -> (r: Vec<PodSnapshot>)
        ensures
            snapshots(r@) == delivered(self@, signal@),
    {
        let mut out: Vec<PodSnapshot> = Vec::new();
        assert(snapshots(out@) =~= Seq::empty());
        match signal {
            WatchSignal::Listed { items, cursor } => match self {
                SessionState::NeedsSync => {
                    if !cursor.as_str().is_empty() {
                        out = items;
                    }
                },
                _ => {},
            },
            WatchSignal::Added { pod } => match self {
                SessionState::Streaming { cursor } => {
                    if has_cursor(&pod) {
                        out.push(pod);
                        assert(snapshots(out@) =~= seq![pod@]);
                    }
                },
                _ => {},
            },
            WatchSignal::Modified { pod } => match self {
                SessionState::Streaming { cursor } => {
                    if has_cursor(&pod) {
                        out.push(pod);
                        assert(snapshots(out@) =~= seq![pod@]);
                    }
                },
                _ => {},
            },
            _ => {},
        }
        out
    }
}

impl WatchController {
    /// A controller for `selector` that has yet to list the current state.
    /// Each session it opens is bounded by `timeout_secs`.
    pub fn new(selector: String, timeout_secs: u32) -> (r: WatchController)
        ensures
            r@ == (WatchControllerView {
                selector: selector@,
                timeout_secs,
                state: SessionStateView::NeedsSync,
            }),
    {
        WatchController { selector, timeout_secs, state: SessionState::NeedsSync }
    }

    /// What the caller is to do next: list where a resync is due, open a
    /// session where a cursor is known, wait where a session is open, and
    /// nothing once the watch has ended.
    pub fn next_command(&self) -> (r: WatchCommand)
        ensures
            r@ == command_of(self@),
    {
        match &self.state {
            SessionState::NeedsSync => WatchCommand::List { selector: self.selector.clone() },
            SessionState::Resuming { cursor } => WatchCommand::Open {
                selector: self.selector.clone(),
                cursor: cursor.clone(),
                timeout_secs: self.timeout_secs,
            },
            SessionState::Streaming { cursor } => WatchCommand::Await,
            SessionState::Closed => WatchCommand::Halt,
        }
    }

    /// Takes in what came of the last command. The selector and the timeout
    /// never change; the state moves on as `next_state` says; the result
    /// holds the applied events for the consumer and says whether the watch
    /// goes on.
    pub fn step(&mut self, signal: WatchSignal) -> (r: Step)
        ensures
            final(self)@ == advanced(old(self)@, signal@),
            r@ == (StepView {
                applied: delivered(old(self)@.state, signal@),
                outcome: outcome_of(old(self)@.state, signal@),
            }),
    {
        let next = self.state.after(&signal);
        let outcome = self.state.outcome(&signal);
        let applied = self.state.deliver(signal);
        self.state = next;
        Step { applied, outcome }
    }

    /// Takes in a run of signals, one step after the other, and returns the
    /// applied events of all the steps in the order they arose.
    pub fn run(&mut self, signals: Vec<WatchSignal>) -> (r: Vec<PodSnapshot>)
        ensures
            final(self)@ == (WatchControllerView {
                selector: old(self)@.selector,
                timeout_secs: old(self)@.timeout_secs,
                state: state_after(old(self)@.state, signal_views(signals@)),
            }),
            snapshots(r@) == delivered_over(old(self)@.state, signal_views(signals@)),
    {
        let ghost all = signal_views(signals@);
        let ghost start = self@;
        let mut rest = signals;
        let mut out: Vec<PodSnapshot> = Vec::new();
        assert(snapshots(out@) =~= Seq::empty());
        assert(all.subrange(0, 0) =~= Seq::empty());
        assert(all.subrange(0, all.len() as int) =~= all);
        while rest.len() > 0
            invariant
                rest.len() <= all.len(),
                signal_views(rest@) == all.subrange(all.len() - rest.len(), all.len() as int),
                self@.selector == start.selector,
                self@.timeout_secs == start.timeout_secs,
                self@.state == state_after(start.state, all.subrange(0, all.len() - rest.len())),
                snapshots(out@) == delivered_over(
                    start.state,
                    all.subrange(0, all.len() - rest.len()),
                ),
            decreases rest.len(),
        {
            let ghost done = all.len() - rest.len();
            let ghost had = out@;
            let ghost queued = rest@;
            let signal = rest.remove(0);
            let mut step = self.step(signal);
            let ghost got = step.applied@;
            out.append(&mut step.applied);
            proof {
                assert(signal@ == signal_views(queued)[0]);
                assert(signal@ == all[done]);
                assert forall|k: int| 0 <= k < rest@.len() implies signal_views(rest@)[k]
                    == all[done + 1 + k] by {
                    assert(rest@[k] == queued[k + 1]);
                    assert(signal_views(queued)[k + 1] == queued[k + 1]@);
                    assert(all.subrange(done, all.len() as int)[k + 1] == all[done + 1 + k]);
                }
                assert(signal_views(rest@) =~= all.subrange(done + 1, all.len() as int));
                assert(all.subrange(0, done + 1).drop_last() =~= all.subrange(0, done));
                assert(snapshots(out@) =~= snapshots(had) + snapshots(got));
            }
        }
        assert(all.subrange(0, all.len() as int) =~= all);
        out
    }
}

/// The state after a run of signals, taken in order.
pub open spec fn state_after(state: SessionStateView, signals: Seq<WatchSignalView>) -> SessionStateView
    decreases signals.len(),
{
    if signals.len() == 0 {
        state
    } else {
        next_state(state_after(state, signals.drop_last()), signals.last())
    }
}

/// The applied events that a run of signals gives rise to, in order.
pub open spec fn delivered_over(state: SessionStateView, signals: Seq<WatchSignalView>) -> Seq<
    PodSnapshotView,
>
    decreases signals.len(),
{
    if signals.len() == 0 {
        Seq::empty()
    } else {
        delivered_over(state, signals.drop_last()) + delivered(
            state_after(state, signals.drop_last()),
            signals.last(),
        )
    }
}

/// When an open session ends in the ordinary way, or on a passing fault, the
/// controller asks for a new session with the same selector and timeout, from
/// the last cursor it saw. Ending the session delivers nothing, so nothing
/// that was delivered is delivered again; once the new session is open, every
/// added or modified pod that carries a resource version is delivered.
pub proof fn session_end_resumes(
    c: WatchControllerView,
    cursor: Seq<char>,
    fault: WatchFault,
    pod: PodSnapshotView,
)
    requires
        c.state == (SessionStateView::Streaming { cursor }),
        fault_class(fault) == FaultClass::Transient,
        usable_cursor(pod.resource_version),
    ensures
        command_of(advanced(c, WatchSignalView::SessionEnded)) == (WatchCommandView::Open {
            selector: c.selector,
            cursor,
            timeout_secs: c.timeout_secs,
        }),
        advanced(c, WatchSignalView::Fault { fault }) == advanced(c, WatchSignalView::SessionEnded),
        delivered(c.state, WatchSignalView::SessionEnded) == Seq::<PodSnapshotView>::empty(),
        delivered(c.state, WatchSignalView::Fault { fault }) == Seq::<PodSnapshotView>::empty(),
        outcome_of(c.state, WatchSignalView::SessionEnded) == StepOutcome::Continue,
        outcome_of(c.state, WatchSignalView::Fault { fault }) == StepOutcome::Continue,
        advanced(advanced(c, WatchSignalView::SessionEnded), WatchSignalView::Opened) == c,
        delivered(c.state, WatchSignalView::Added { pod }) == seq![pod],
        delivered(c.state, WatchSignalView::Modified { pod }) == seq![pod],
{
}

/// When the server says that the cursor has expired, the controller falls
/// back to listing the current state, under the same selector, and a listing
/// that comes with a cursor is delivered whole.
pub proof fn expired_cursor_resyncs(
    c: WatchControllerView,
    items: Seq<PodSnapshotView>,
    cursor: Seq<char>,
)
    requires
        c.state != SessionStateView::Closed,
        cursor.len() > 0,
    ensures
        fault_class(WatchFault::Status { code: 410 }) == FaultClass::CursorExpired,
        command_of(advanced(c, WatchSignalView::Fault { fault: WatchFault::Status { code: 410 } }))
            == (WatchCommandView::List { selector: c.selector }),
        delivered(SessionStateView::NeedsSync, WatchSignalView::Listed { items, cursor }) == items,
        next_state(SessionStateView::NeedsSync, WatchSignalView::Listed { items, cursor })
            == (SessionStateView::Resuming { cursor }),
{
}

/// A step fails exactly on a terminal fault that reaches a watch still
/// running, and then it names that fault and closes the watch. No other
/// fault ever surfaces.
pub proof fn terminal_fault_surfaces(state: SessionStateView, signal: WatchSignalView)
    ensures
        outcome_of(state, signal) is Failed <==> state != SessionStateView::Closed && signal is Fault
            && fault_class(signal->fault) == FaultClass::Terminal,
        outcome_of(state, signal) is Failed ==> outcome_of(state, signal) == (StepOutcome::Failed {
            fault: signal->fault,
        }) && next_state(state, signal) == SessionStateView::Closed && delivered(state, signal)
            == Seq::<PodSnapshotView>::empty(),
{
}

/// Cancelling ends the watch at once, whatever its state: the step delivers
/// nothing, reports the stop, and leaves the controller asking for nothing
/// more.
pub proof fn cancellation_is_clean(c: WatchControllerView)
    ensures
        advanced(c, WatchSignalView::Cancelled).state == SessionStateView::Closed,
        command_of(advanced(c, WatchSignalView::Cancelled)) == WatchCommandView::Halt,
        delivered(c.state, WatchSignalView::Cancelled) == Seq::<PodSnapshotView>::empty(),
        outcome_of(c.state, WatchSignalView::Cancelled) == StepOutcome::Stopped,
{
}

/// A watch that has ended stays ended: whatever signals still arrive, it
/// delivers nothing and does not leave the closed state.
pub proof fn closed_watch_stays_silent(signals: Seq<WatchSignalView>)
    ensures
        state_after(SessionStateView::Closed, signals) == SessionStateView::Closed,
        delivered_over(SessionStateView::Closed, signals) == Seq::<PodSnapshotView>::empty(),
    decreases signals.len(),
{
    if signals.len() > 0 {
        closed_watch_stays_silent(signals.drop_last());
        assert(delivered_over(SessionStateView::Closed, signals) =~= Seq::<
            PodSnapshotView,
        >::empty());
    }
}

/// A step delivers at most the pods that its signal carries: every applied
/// event comes from the signal at hand.
pub proof fn delivers_only_what_arrived(state: SessionStateView, signal: WatchSignalView)
    ensures
        delivered(state, signal).len() > 0 ==> match signal {
            WatchSignalView::Listed { items, cursor } => delivered(state, signal) == items,
            WatchSignalView::Added { pod } => delivered(state, signal) == seq![pod],
            WatchSignalView::Modified { pod } => delivered(state, signal) == seq![pod],
            _ => false,
        },
{
}

} // verus!
