use traymonitor::history::CAPACITY;
use traymonitor::persist::{after_stage, PersistError, SaveStage, SaveStep};
use traymonitor::record::{Alert, AlertCategory, AlertPriority, Build, BuildStatus, DateTime};
use traymonitor::store::{AlertStore, BuildStore};

fn build(id: i64) -> Build {
    Build {
        id,
        configuration: 1,
        configuration_path: "root/app".to_string(),
        master_node_address: "node:8810".to_string(),
        requester: 2,
        requester_name: Some("admin".to_string()),
        canceller: None,
        canceller_name: None,
        version: format!("1.0.{id}"),
        status: BuildStatus::Successful,
        begin_date: DateTime { unix_nanos: 1_700_000_000_000_000_000, offset_seconds: 0 },
        status_date: None,
        duration: 1000,
        wait_duration: 0,
    }
}

fn alert(ctime: i64) -> Alert {
    Alert {
        id: ctime * 10,
        subject: format!("alert {ctime}"),
        priority: AlertPriority::High,
        category: AlertCategory::System,
        alert_message: "disk full".to_string(),
        trigger: "disk".to_string(),
        fixed: false,
        ctime,
        ack_time: 0,
    }
}

fn ids(builds: &[Build]) -> Vec<i64> {
    builds.iter().map(|b| b.id).collect()
}

#[test]
fn capacity_three_evicts_the_lowest_id() {
    let mut store = BuildStore::with_capacity(3);
    store.add_builds(vec![build(1), build(2), build(3), build(4)]);
    assert_eq!(ids(&store.get_all()), vec![4, 3, 2]);
}

#[test]
fn empty_fetch_leaves_store_and_cursor() {
    let mut store = BuildStore::new();
    store.add_builds(vec![build(5), build(6), build(7)]);
    assert_eq!(store.get_last_notified_build_id(), Some(7));
    store.add_builds(vec![]);
    assert_eq!(ids(&store.get_all()), vec![7, 6, 5]);
    assert_eq!(store.get_last_notified_build_id(), Some(7));
}

#[test]
fn store_never_exceeds_capacity() {
    let mut store = BuildStore::new();
    let mut next = 0;
    for batch_len in [0usize, 1, 57, 80, 3, 150] {
        let batch: Vec<Build> = (0..batch_len).map(|k| build(next + k as i64)).collect();
        next += batch_len as i64;
        store.add_builds(batch);
        assert!(store.get_all().len() <= CAPACITY);
    }
    assert_eq!(store.get_all().len(), CAPACITY);
    assert_eq!(store.get_last_notified_build_id(), Some(next - 1));
}

#[test]
fn get_all_is_newest_first() {
    let mut store = BuildStore::new();
    store.add_builds(vec![build(9), build(2), build(40), build(7)]);
    store.add_builds(vec![build(1), build(30)]);
    let all = ids(&store.get_all());
    assert_eq!(all, vec![40, 30, 9, 7, 2, 1]);
    let mut ascending = all.clone();
    ascending.reverse();
    assert_eq!(ascending, vec![1, 2, 7, 9, 30, 40]);
}

#[test]
fn last_key_is_the_largest_kept_key() {
    let mut store = BuildStore::with_capacity(4);
    store.add_builds(vec![build(10), build(3)]);
    assert_eq!(store.get_last_notified_build_id(), Some(10));
    store.add_builds(vec![build(8), build(12), build(1)]);
    assert_eq!(store.get_last_notified_build_id(), Some(12));
    assert_eq!(ids(&store.get_all()), vec![12, 10, 8, 3]);
}

#[test]
fn empty_store_has_no_cursor() {
    let store = AlertStore::new();
    assert_eq!(store.get_last_notified_time(), None);
    assert!(store.get_all().is_empty());
}

#[test]
fn redelivered_key_is_replaced_not_duplicated() {
    let mut store = BuildStore::new();
    store.add_builds(vec![build(1), build(2)]);
    let mut again = build(2);
    again.version = "second".to_string();
    store.add_builds(vec![again]);
    let all = store.get_all();
    assert_eq!(ids(&all), vec![2, 1]);
    assert_eq!(all[0].version, "second");
}

#[test]
fn alerts_are_ordered_by_creation_time() {
    let mut store = AlertStore::new();
    store.add_alerts(vec![alert(300), alert(100), alert(200)]);
    let times: Vec<i64> = store.get_all().iter().map(|a| a.ctime).collect();
    assert_eq!(times, vec![300, 200, 100]);
    assert_eq!(store.get_last_notified_time(), Some(300));
    store.clear();
    assert!(store.get_all().is_empty());
    assert_eq!(store.get_last_notified_time(), None);
}

#[test]
fn reload_reproduces_saved_order() {
    let mut store = BuildStore::new();
    store.add_builds(vec![build(4), build(11), build(6)]);
    let saved = store.get_all();
    let mut fresh = BuildStore::new();
    fresh.load_from(Some(saved.clone()));
    assert_eq!(ids(&fresh.get_all()), ids(&saved));

    let mut empty = AlertStore::new();
    empty.load_from(Some(vec![]));
    assert!(empty.get_all().is_empty());
}

#[test]
fn absent_file_leaves_store_unchanged() {
    let mut store = BuildStore::new();
    store.add_builds(vec![build(1), build(5)]);
    store.load_from(None);
    assert_eq!(ids(&store.get_all()), vec![5, 1]);
    store.load_from(Some(vec![build(3)]));
    assert_eq!(ids(&store.get_all()), vec![5, 3, 1]);
}

#[test]
fn unreadable_file_loads_as_empty_store() {
    let mut store = BuildStore::new();
    store.load_from(Some(vec![]));
    assert!(store.get_all().is_empty());
    store.add_builds(vec![build(2), build(3)]);
    assert_eq!(ids(&store.get_all()), vec![3, 2]);
    assert_eq!(after_stage(SaveStage::CreateDirectory, true), SaveStep::Next(SaveStage::Serialize));
    assert_eq!(after_stage(SaveStage::Serialize, true), SaveStep::Next(SaveStage::WriteTemp));
    assert_eq!(after_stage(SaveStage::WriteTemp, true), SaveStep::Next(SaveStage::Rename));
    assert_eq!(after_stage(SaveStage::Rename, true), SaveStep::Done);
}

#[test]
fn failed_rename_removes_temp_and_keeps_memory() {
    let mut store = BuildStore::new();
    store.add_builds(vec![build(1), build(2)]);
    let before = ids(&store.get_all());
    assert_eq!(after_stage(SaveStage::WriteTemp, true), SaveStep::Next(SaveStage::Rename));
    assert_eq!(
        after_stage(SaveStage::Rename, false),
        SaveStep::RemoveTempThenFail(PersistError::Rename)
    );
    assert_eq!(ids(&store.get_all()), before);
}

#[test]
fn failed_write_fails_without_rename() {
    assert_eq!(after_stage(SaveStage::WriteTemp, false), SaveStep::Fail(PersistError::WriteTemp));
    assert_eq!(
        after_stage(SaveStage::CreateDirectory, false),
        SaveStep::Fail(PersistError::CreateDirectory)
    );
    assert_eq!(after_stage(SaveStage::Serialize, false), SaveStep::Fail(PersistError::Serialize));
}
