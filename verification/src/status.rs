//! Pod snapshots and their flattened status.

use vstd::prelude::*;
use vstd::string::*;

verus! {

/// The status part of a pod, as far as the watcher reads it.
#[derive(Debug, Clone, PartialEq, Eq)]
pub struct PodStatusFields {
    pub phase: Option<String>,
    pub reason: Option<String>,
}

/// The current state of one pod as the cluster delivered it.
#[derive(Debug, Clone, PartialEq, Eq)]
pub struct PodSnapshot {
    pub name: Option<String>,
    pub generate_name: Option<String>,
    pub resource_version: Option<String>,
    pub status: Option<PodStatusFields>,
}

/// A lossy, comparable projection of a pod's status.
#[derive(Debug, Clone, PartialEq, Eq)]
pub struct FlatPodStatus {
    pub phase: String,
    pub reason: Option<String>,
}

pub struct PodStatusFieldsView {
    pub phase: Option<Seq<char>>,
    pub reason: Option<Seq<char>>,
}

pub struct PodSnapshotView {
    pub name: Option<Seq<char>>,
    pub generate_name: Option<Seq<char>>,
    pub resource_version: Option<Seq<char>>,
    pub status: Option<PodStatusFieldsView>,
}

pub struct FlatStatusView {
    pub phase: Seq<char>,
    pub reason: Option<Seq<char>>,
}

/// The characters of an optional string.
pub open spec fn text_of(o: Option<String>) -> Option<Seq<char>> {
    match o {
        Some(s) => Some(s@),
        None => None,
    }
}

impl View for PodStatusFields {
    type V = PodStatusFieldsView;

    open spec fn view(&self) -> PodStatusFieldsView {
        PodStatusFieldsView { phase: text_of(self.phase), reason: text_of(self.reason) }
    }
}

impl View for PodSnapshot {
    type V = PodSnapshotView;

    open spec fn view(&self) -> PodSnapshotView {
        PodSnapshotView {
            name: text_of(self.name),
            generate_name: text_of(self.generate_name),
            resource_version: text_of(self.resource_version),
            status: match self.status {
                Some(s) => Some(s@),
                None => None,
            },
        }
    }
}

impl View for FlatPodStatus {
    type V = FlatStatusView;

    open spec fn view(&self) -> FlatStatusView {
        FlatStatusView { phase: self.phase@, reason: text_of(self.reason) }
    }
}

/// The phase reported when a pod declares none.
pub open spec fn unknown_phase() -> Seq<char> {
    "Unknown"@
}

/// The phase of a healthy pod.
pub open spec fn running_phase() -> Seq<char> {
    "Running"@
}

/// What a status sub-structure flattens to: its phase, or `Unknown` where the
/// phase or the whole status is absent, and its reason if it has one.
pub open spec fn flattened(status: Option<PodStatusFieldsView>) -> FlatStatusView {
    match status {
        Some(s) => FlatStatusView {
            phase: match s.phase {
                Some(p) => p,
                None => unknown_phase(),
            },
            reason: s.reason,
        },
        None => FlatStatusView { phase: unknown_phase(), reason: None },
    }
}

/// The name a pod goes by: its name, else its generated-name prefix, else
/// the empty string.
pub open spec fn display_name(pod: PodSnapshotView) -> Seq<char> {
    match pod.name {
        Some(n) => n,
        None => match pod.generate_name {
            Some(g) => g,
            None => Seq::<char>::empty(),
        },
    }
}

/// The text that `{:?}` formatting gives for a string: the string in double
/// quotes, with the characters that need it escaped.
pub uninterp spec fn debug_quoted(s: Seq<char>) -> Seq<char>;

/// Formats a string with `core::fmt::Debug` for `str`. The result is a
/// function of the characters alone; the contract only names it.
#[verifier::external_body]
fn quote(s: &str) -> (r: String)
    ensures
        r@ == debug_quoted(s@),
{
    format!("{:?}", s)
}

/// The display form built from an already quoted phase and reason:
/// the phase alone, or the phase followed by the reason in parentheses.
pub open spec fn display_text(quoted_phase: Seq<char>, quoted_reason: Option<Seq<char>>) -> Seq<
    char,
> {
    match quoted_reason {
        Some(r) => quoted_phase + " ("@ + r + ")"@,
        None => quoted_phase,
    }
}

/// The display form of a flattened status.
pub open spec fn rendered(status: FlatStatusView) -> Seq<char> {
    display_text(
        debug_quoted(status.phase),
        match status.reason {
            Some(r) => Some(debug_quoted(r)),
            None => None,
        },
    )
}

/// Joins a quoted phase and an optional quoted reason into the display form.
pub fn compose_display(quoted_phase: String, quoted_reason: Option<String>) -> (r: String)
    ensures
        r@ == display_text(quoted_phase@, text_of(quoted_reason)),
{
    match quoted_reason {
        Some(reason) => {
            let mut out = quoted_phase;
            out.append(" (");
            out.append(reason.as_str());
            out.append(")");
            out
        },
        None => quoted_phase,
    }
}

impl FlatPodStatus {
    /// The text shown for this status in logs and alerts.
    pub fn render(&self) -> (r: String)
        ensures
            r@ == rendered(self@),
    {
        let quoted_phase = quote(self.phase.as_str());
        let quoted_reason = match &self.reason {
            Some(reason) => Some(quote(reason.as_str())),
            None => None,
        };
        compose_display(quoted_phase, quoted_reason)
    }

    /// Whether the phase is the nominal `Running`.
    pub fn is_running(&self) -> (r: bool)
        ensures
            r == (self@.phase == running_phase()),
    {
        let running = String::from_str("Running");
        self.phase == running
    }
}

impl PodSnapshot {
    /// The name to show for this pod.
    pub fn name_any(&self) -> (r: String)
        ensures
            r@ == display_name(self@),
    {
        match &self.name {
            Some(n) => n.clone(),
            None => match &self.generate_name {
                Some(g) => g.clone(),
                None => String::new(),
            },
        }
    }
}

/// Flattens the status of a pod snapshot. Total: a snapshot without a status,
/// or without a phase, is reported as `Unknown`.
pub fn extract_pod_status(pod: &PodSnapshot) -> (r: FlatPodStatus)
    ensures
        r@ == flattened(pod@.status),
{
    match &pod.status {
        Some(status) => {
            let phase = match &status.phase {
                Some(p) => p.clone(),
                None => String::from_str("Unknown"),
            };
            let reason = match &status.reason {
                Some(r) => Some(r.clone()),
                None => None,
            };
            FlatPodStatus { phase, reason }
        },
        None => FlatPodStatus { phase: String::from_str("Unknown"), reason: None },
    }
}

/// Flattening reads nothing but the snapshot's status: two snapshots with the
/// same status flatten alike, and a snapshot without a status flattens to
/// `Unknown` with no reason.
pub proof fn flattening_is_pure(a: PodSnapshot, b: PodSnapshot)
    ensures
        a@.status == b@.status ==> flattened(a@.status) == flattened(b@.status),
        a@.status is None ==> flattened(a@.status) == (FlatStatusView {
            phase: unknown_phase(),
            reason: None,
        }),
{
}

} // verus!
