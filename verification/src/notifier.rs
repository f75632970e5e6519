//! Deciding which observations of a pod are worth an alert.

use vstd::prelude::*;
use vstd::string::*;
use crate::status::{
    display_name, extract_pod_status, flattened, rendered, running_phase, FlatPodStatus,
    PodSnapshot, PodSnapshotView,
};

verus! {

/// An alert for the operator.
#[derive(Debug, Clone, PartialEq, Eq)]
pub struct Notification {
    pub title: String,
    pub body: String,
}

/// What one applied event comes to: a line for the log, and an alert where
/// the pod is not running.
#[derive(Debug, Clone, PartialEq, Eq)]
pub struct Observation {
    pub log_line: String,
    pub alert: Option<Notification>,
}

pub struct NotificationView {
    pub title: Seq<char>,
    pub body: Seq<char>,
}

pub struct ObservationView {
    pub log_line: Seq<char>,
    pub alert: Option<NotificationView>,
}

impl View for Notification {
    type V = NotificationView;

    open spec fn view(&self) -> NotificationView {
        NotificationView { title: self.title@, body: self.body@ }
    }
}

impl View for Observation {
    type V = ObservationView;

    open spec fn view(&self) -> ObservationView {
        ObservationView {
            log_line: self.log_line@,
            alert: match self.alert {
                Some(n) => Some(n@),
                None => None,
            },
        }
    }
}

/// The alert raised for a pod of the given name whose status displays as
/// `display`.
pub open spec fn alert_text(name: Seq<char>, display: Seq<char>) -> NotificationView {
    NotificationView {
        title: "Pod "@ + name,
        body: "Is in non 'Running' phase: "@ + display,
    }
}

/// The log line for a pod of the given name whose status displays as
/// `display`.
pub open spec fn log_text(name: Seq<char>, display: Seq<char>) -> Seq<char> {
    "POD: "@ + name + ", status: "@ + display
}

/// The observation made of a pod, given its name, its phase and the display
/// form of its status: always a log line, and an alert exactly when the phase
/// is not `Running`.
pub open spec fn report_of(name: Seq<char>, phase: Seq<char>, display: Seq<char>) -> ObservationView {
    ObservationView {
        log_line: log_text(name, display),
        alert: if phase == running_phase() {
            None
        } else {
            Some(alert_text(name, display))
        },
    }
}

/// The observation made of a pod snapshot.
pub open spec fn observation(pod: PodSnapshotView) -> ObservationView {
    report_of(
        display_name(pod),
        flattened(pod.status).phase,
        rendered(flattened(pod.status)),
    )
}

/// Builds the observation for a pod from its name, its flattened status and
/// the display form of that status.
pub fn report(name: &str, status: &FlatPodStatus, display: &str) -> (r: Observation)
    ensures
        r@ == report_of(name@, status@.phase, display@),
{
    let mut log_line = String::from_str("POD: ");
    log_line.append(name);
    log_line.append(", status: ");
    log_line.append(display);
    let alert = if status.is_running() {
        None
    } else {
        let mut title = String::from_str("Pod ");
        title.append(name);
        let mut body = String::from_str("Is in non 'Running' phase: ");
        body.append(display);
        Some(Notification { title, body })
    };
    Observation { log_line, alert }
}

/// Projects one applied event and evaluates the alert policy on it: zero or
/// one alert per event, one exactly when the pod is not in phase `Running`.
pub fn observe(pod: &PodSnapshot) -> (r: Observation)
    ensures
        r@ == observation(pod@),
{
    let status = extract_pod_status(pod);
    let display = status.render();
    let name = pod.name_any();
    report(name.as_str(), &status, display.as_str())
}

/// Observes a run of applied events in order. Every event is judged on its
/// own: a status that repeats is reported again.
pub fn observe_all(pods: &Vec<PodSnapshot>) -> (r: Vec<Observation>)
    ensures
        r.len() == pods.len(),
        forall|i: int| 0 <= i < pods.len() ==> (#[trigger] r[i])@ == observation(pods[i]@),
{
    let mut out: Vec<Observation> = Vec::new();
    let mut i: usize = 0;
    while i < pods.len()
        invariant
            i <= pods.len(),
            out.len() == i,
            forall|k: int| 0 <= k < i ==> (#[trigger] out[k])@ == observation(pods[k]@),
        decreases pods.len() - i,
    {
        out.push(observe(&pods[i]));
        i += 1;
    }
    out
}

/// The number of alerts among the observations of a run of events.
pub open spec fn alert_count(pods: Seq<PodSnapshotView>) -> nat
    decreases pods.len(),
{
    if pods.len() == 0 {
        0
    } else {
        let rest = alert_count(pods.drop_last());
        if observation(pods.last()).alert is Some {
            rest + 1
        } else {
            rest
        }
    }
}

/// The number of events of a run whose phase is not `Running`.
pub open spec fn unhealthy_count(pods: Seq<PodSnapshotView>) -> nat
    decreases pods.len(),
{
    if pods.len() == 0 {
        0
    } else {
        let rest = unhealthy_count(pods.drop_last());
        if flattened(pods.last().status).phase != running_phase() {
            rest + 1
        } else {
            rest
        }
    }
}

/// An event raises an alert exactly when its phase is not `Running`, and the
/// alert names the pod in its title and shows the status in its body.
pub proof fn alert_exactly_when_not_running(pod: PodSnapshotView)
    ensures
        observation(pod).alert is Some <==> flattened(pod.status).phase != running_phase(),
        observation(pod).alert is Some ==> observation(pod).alert->0 == alert_text(
            display_name(pod),
            rendered(flattened(pod.status)),
        ),
{
}

/// Over a run of events there are as many alerts as events that are not
/// running: nothing is merged and nothing is held back.
pub proof fn alerts_match_unhealthy_events(pods: Seq<PodSnapshotView>)
    ensures
        alert_count(pods) == unhealthy_count(pods),
    decreases pods.len(),
{
    if pods.len() > 0 {
        alerts_match_unhealthy_events(pods.drop_last());
    }
}

} // verus!
