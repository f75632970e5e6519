use release_watch::notifier::{observe, observe_all, report, Notification, Observation};
use release_watch::status::{FlatPodStatus, PodSnapshot, PodStatusFields};

fn pod_in(name: &str, phase: &str, reason: Option<&str>) -> PodSnapshot {
    PodSnapshot {
        name: Some(name.to_string()),
        generate_name: None,
        resource_version: Some("7".to_string()),
        status: Some(PodStatusFields {
            phase: Some(phase.to_string()),
            reason: reason.map(String::from),
        }),
    }
}

#[test]
fn running_pod_raises_no_alert() {
    let seen = observe(&pod_in("web-0", "Running", None));
    assert_eq!(
        seen,
        Observation { log_line: "POD: web-0, status: \"Running\"".to_string(), alert: None }
    );
}

#[test]
fn failed_pod_raises_an_alert() {
    let seen = observe(&pod_in("web-0", "Failed", Some("OOMKilled")));
    assert_eq!(seen.log_line, "POD: web-0, status: \"Failed\" (\"OOMKilled\")");
    assert_eq!(
        seen.alert,
        Some(Notification {
            title: "Pod web-0".to_string(),
            body: "Is in non 'Running' phase: \"Failed\" (\"OOMKilled\")".to_string(),
        })
    );
}

#[test]
fn pod_without_status_raises_an_alert() {
    let pod = PodSnapshot {
        name: None,
        generate_name: Some("job-".to_string()),
        resource_version: None,
        status: None,
    };
    let seen = observe(&pod);
    assert_eq!(seen.log_line, "POD: job-, status: \"Unknown\"");
    assert_eq!(
        seen.alert,
        Some(Notification {
            title: "Pod job-".to_string(),
            body: "Is in non 'Running' phase: \"Unknown\"".to_string(),
        })
    );
}

#[test]
fn one_alert_for_one_unhealthy_event() {
    let events = vec![
        pod_in("web-0", "Running", None),
        pod_in("web-0", "Running", None),
        pod_in("web-0", "CrashLoopBackOff", None),
        pod_in("web-0", "Running", None),
    ];
    let seen = observe_all(&events);
    assert_eq!(seen.len(), 4);
    let alerts: Vec<usize> =
        seen.iter().enumerate().filter(|(_, o)| o.alert.is_some()).map(|(i, _)| i).collect();
    assert_eq!(alerts, vec![2]);
    assert_eq!(
        seen[2].alert,
        Some(Notification {
            title: "Pod web-0".to_string(),
            body: "Is in non 'Running' phase: \"CrashLoopBackOff\"".to_string(),
        })
    );
}

#[test]
fn repeated_unhealthy_status_alerts_each_time() {
    let events = vec![
        pod_in("web-0", "Pending", None),
        pod_in("web-0", "Pending", None),
        pod_in("web-1", "Running", None),
        pod_in("web-0", "Pending", None),
    ];
    let seen = observe_all(&events);
    let alerts = seen.iter().filter(|o| o.alert.is_some()).count();
    assert_eq!(alerts, 3);
    assert_eq!(seen[0], seen[1]);
    assert_eq!(seen[2].alert, None);
}

#[test]
fn no_events_no_observations() {
    assert_eq!(observe_all(&Vec::new()), Vec::new());
}

#[test]
fn report_uses_the_given_display() {
    let status = FlatPodStatus { phase: "Failed".to_string(), reason: None };
    let seen = report("db-1", &status, "<shown>");
    assert_eq!(seen.log_line, "POD: db-1, status: <shown>");
    assert_eq!(
        seen.alert,
        Some(Notification {
            title: "Pod db-1".to_string(),
            body: "Is in non 'Running' phase: <shown>".to_string(),
        })
    );
    let status = FlatPodStatus { phase: "Running".to_string(), reason: Some("r".to_string()) };
    let seen = report("db-1", &status, "<shown>");
    assert_eq!(seen, Observation { log_line: "POD: db-1, status: <shown>".to_string(), alert: None });
}
