use traymonitor::poll::{
    alerts_notification, builds_notification, should_refresh, POLLING_FAILED_MESSAGE,
};
use traymonitor::record::{Alert, AlertCategory, AlertPriority, Build, BuildStatus, DateTime};
use traymonitor::settings::AppSettings;
use traymonitor::state::AppState;
use traymonitor::store::{AlertStore, BuildStore};

fn build(id: i64, status: BuildStatus) -> Build {
    Build {
        id,
        configuration: 4,
        configuration_path: "root/service".to_string(),
        master_node_address: "node:8810".to_string(),
        requester: 2,
        requester_name: Some("Robin".to_string()),
        canceller: None,
        canceller_name: None,
        version: "2.3".to_string(),
        status,
        begin_date: DateTime { unix_nanos: 0, offset_seconds: 3600 },
        status_date: Some(DateTime { unix_nanos: 5, offset_seconds: 0 }),
        duration: 20,
        wait_duration: 1,
    }
}

fn alert(ctime: i64, subject: &str) -> Alert {
    Alert {
        id: ctime,
        subject: subject.to_string(),
        priority: AlertPriority::Medium,
        category: AlertCategory::Metric,
        alert_message: "cpu high".to_string(),
        trigger: "cpu".to_string(),
        fixed: true,
        ctime,
        ack_time: 7,
    }
}

fn state() -> AppState {
    AppState::new(AppSettings::default(), BuildStore::new(), AlertStore::new())
}

fn failed() -> Option<String> {
    Some(POLLING_FAILED_MESSAGE.to_string())
}

#[test]
fn refresh_follows_error_transitions() {
    let a = Some("A".to_string());
    let b = Some("B".to_string());
    assert!(!should_refresh(&None, &None, 0));
    assert!(should_refresh(&None, &a, 0));
    assert!(should_refresh(&a, &None, 0));
    assert!(!should_refresh(&a, &a.clone(), 0));
    assert!(should_refresh(&a, &b, 0));
    assert!(should_refresh(&None, &None, 3));
    assert!(should_refresh(&a, &a.clone(), 1));
}

#[test]
fn empty_fetch_refreshes_only_after_an_error() {
    let mut s = state();
    s.add_builds(vec![build(5, BuildStatus::Failed), build(6, BuildStatus::Failed), build(7, BuildStatus::Failed)]);
    assert_eq!(s.get_last_notified_build_id(), Some(7));
    let quiet = s.record_builds_fetch(Some(vec![]));
    assert!(!quiet.refresh);
    assert!(!quiet.save);
    assert!(quiet.notification.is_none());
    assert_eq!(s.get_builds().len(), 3);

    s.build_polling_error = failed();
    let recovered = s.record_builds_fetch(Some(vec![]));
    assert!(recovered.refresh);
    assert!(!recovered.save);
    assert_eq!(s.build_polling_error, None);
}

#[test]
fn failed_fetch_sets_error_once() {
    let mut s = state();
    let first = s.record_alerts_fetch(None);
    assert!(first.refresh);
    assert!(!first.save);
    assert_eq!(s.alert_polling_error, failed());
    let second = s.record_alerts_fetch(None);
    assert!(!second.refresh);
    assert!(s.get_alerts().is_empty());
}

#[test]
fn fetched_builds_are_merged_and_announced() {
    let mut s = state();
    let one = s.record_builds_fetch(Some(vec![build(3, BuildStatus::Successful)]));
    assert!(one.save && one.refresh);
    let n = one.notification.unwrap();
    assert_eq!(n.title, "Build 2.3 finished successfully 🎉");
    assert_eq!(
        n.body.unwrap(),
        "\nConfiguration:    root/service\nTriggered by:     Robin\n        "
    );
    let many = s.record_builds_fetch(Some(vec![
        build(4, BuildStatus::Failed),
        build(9, BuildStatus::Running),
        build(8, BuildStatus::Timeout),
    ]));
    let n = many.notification.unwrap();
    assert_eq!(n.title, "3 new builds are finished");
    assert_eq!(n.body, None);
    let ids: Vec<i64> = s.get_builds().iter().map(|b| b.id).collect();
    assert_eq!(ids, vec![9, 8, 4, 3]);
    assert_eq!(s.get_last_notified_build_id(), Some(9));
}

#[test]
fn build_subjects_name_the_status() {
    assert_eq!(build(1, BuildStatus::Cancelled).get_subject(), "Build 2.3 cancelled");
    assert_eq!(build(1, BuildStatus::Failed).get_subject(), "Build 2.3 failed");
    assert_eq!(build(1, BuildStatus::Timeout).get_subject(), "Build 2.3 timed out");
    assert_eq!(build(1, BuildStatus::Recommended).get_subject(), "Build 2.3 was recommended");
    assert_eq!(build(1, BuildStatus::Running).get_subject(), "Build 2.3 is running");
    let mut anonymous = build(1, BuildStatus::Failed);
    anonymous.requester_name = None;
    assert_eq!(
        anonymous.get_body(),
        "\nConfiguration:    root/service\nTriggered by:     \n        "
    );
}

#[test]
fn alert_notifications() {
    assert!(alerts_notification(&vec![]).is_none());
    assert!(builds_notification(&vec![]).is_none());
    let one = alerts_notification(&vec![alert(1, "Disk")]).unwrap();
    assert_eq!(one.title, "Disk");
    assert_eq!(one.body.as_deref(), Some("cpu high"));
    let many: Vec<Alert> = (1..=12).map(|t| alert(t, "Queue")).collect();
    let n = alerts_notification(&many).unwrap();
    assert_eq!(n.title, "12 new alerts are available");
    assert_eq!(n.body.as_deref(), Some("Queue: cpu high\n\n and 11 more ..."));
    let two = alerts_notification(&vec![alert(1, ""), alert(2, "")]).unwrap();
    assert_eq!(two.title, "2 new alerts are available");
}

#[test]
fn clearing_and_polling_time() {
    let mut s = state();
    s.add_alerts(vec![alert(10, "x"), alert(20, "y")]);
    assert_eq!(s.get_last_notified_time(), Some(20));
    s.clear_alerts();
    assert_eq!(s.get_last_notified_time(), None);
    assert!(!s.add_builds(vec![]));
    assert!(s.add_builds(vec![build(1, BuildStatus::Failed)]));
    s.clear_builds();
    assert!(s.get_builds().is_empty());
    let now = DateTime { unix_nanos: 99, offset_seconds: 0 };
    s.mark_polled(now);
    assert_eq!(s.last_polling_time, Some(now));
}
