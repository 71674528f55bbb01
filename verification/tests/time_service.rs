use safe_rent::entry::TimeEntry;
use safe_rent::error::ContractError;
use safe_rent::identity::Identity;
use safe_rent::store::{Namespace, RecordKey, RecordStore};
use safe_rent::timesheet::TimeEntryContract;

fn worker() -> Identity {
    Identity::new("W")
}

fn logged(entry_id: u64, approved: bool) -> TimeEntry {
    TimeEntry {
        entry_id,
        worker: worker(),
        task_ref: String::from("T1"),
        start_time: 100,
        end_time: 160,
        hours: 60,
        approved,
    }
}

fn store_with_entry(entry_id: u64) -> RecordStore {
    let mut store = RecordStore::new();
    assert_eq!(
        TimeEntryContract::log_time(&mut store, entry_id, worker(), String::from("T1"), 100, 160),
        Ok(())
    );
    store
}

#[test]
fn log_time_rejects_an_empty_span() {
    let mut store = RecordStore::new();
    assert_eq!(
        TimeEntryContract::log_time(&mut store, 1, worker(), String::from("T1"), 100, 100),
        Err(ContractError::InvalidTimeRange)
    );
    assert_eq!(TimeEntryContract::get_time_entry(&store, 1), None);
}

#[test]
fn log_time_rejects_a_span_that_runs_backwards() {
    let mut store = RecordStore::new();
    assert_eq!(
        TimeEntryContract::log_time(&mut store, 1, worker(), String::from("T1"), 160, 100),
        Err(ContractError::InvalidTimeRange)
    );
    assert_eq!(TimeEntryContract::get_time_entry(&store, 1), None);
}

#[test]
fn log_time_stores_the_length_of_the_span() {
    let store = store_with_entry(1);
    let stored = TimeEntryContract::get_time_entry(&store, 1).unwrap();
    assert_eq!(stored.hours, 60);
    assert_eq!(stored, logged(1, false));
}

#[test]
fn log_time_accepts_the_longest_span() {
    let mut store = RecordStore::new();
    assert_eq!(
        TimeEntryContract::log_time(&mut store, 2, worker(), String::new(), 0, u64::MAX),
        Ok(())
    );
    let stored = TimeEntryContract::get_time_entry(&store, 2).unwrap();
    assert_eq!(stored.hours, u64::MAX);
    assert_eq!(stored.start_time, 0);
    assert_eq!(stored.end_time, u64::MAX);
}

#[test]
fn log_time_accepts_the_shortest_span() {
    let mut store = RecordStore::new();
    assert_eq!(
        TimeEntryContract::log_time(&mut store, 2, worker(), String::from("x"), 41, 42),
        Ok(())
    );
    assert_eq!(TimeEntryContract::get_time_entry(&store, 2).unwrap().hours, 1);
}

#[test]
fn second_log_time_fails_with_duplicate_id() {
    let mut store = store_with_entry(1);
    assert_eq!(
        TimeEntryContract::log_time(&mut store, 1, Identity::new("X"), String::from("T2"), 5, 9),
        Err(ContractError::DuplicateId)
    );
    assert_eq!(TimeEntryContract::get_time_entry(&store, 1), Some(logged(1, false)));
}

#[test]
fn second_log_time_with_a_bad_span_fails_with_duplicate_id() {
    let mut store = store_with_entry(1);
    assert_eq!(
        TimeEntryContract::log_time(&mut store, 1, worker(), String::from("T1"), 100, 100),
        Err(ContractError::DuplicateId)
    );
    assert_eq!(
        TimeEntryContract::log_time(&mut store, 1, Identity::new("X"), String::from("T2"), 9, 3),
        Err(ContractError::DuplicateId)
    );
    assert_eq!(TimeEntryContract::get_time_entry(&store, 1), Some(logged(1, false)));
}

#[test]
fn bad_span_under_a_free_id_fails_with_invalid_time_range() {
    let mut store = store_with_entry(1);
    assert_eq!(
        TimeEntryContract::log_time(&mut store, 2, worker(), String::from("T1"), 100, 100),
        Err(ContractError::InvalidTimeRange)
    );
    assert_eq!(TimeEntryContract::get_time_entry(&store, 2), None);
    assert_eq!(TimeEntryContract::get_time_entry(&store, 1), Some(logged(1, false)));
}

#[test]
fn time_key_files_entries_in_the_time_namespace() {
    assert_eq!(
        TimeEntryContract::time_key(5),
        RecordKey { namespace: Namespace::Time, id: 5 }
    );
    assert_eq!(TimeEntryContract::time_key(0).id, 0);
    let store = store_with_entry(5);
    assert!(store.has(TimeEntryContract::time_key(5)));
    assert!(!store.has(TimeEntryContract::time_key(6)));
}

#[test]
fn log_time_after_approval_still_fails_with_duplicate_id() {
    let mut store = store_with_entry(1);
    assert_eq!(TimeEntryContract::approve_time(&mut store, 1), Ok(()));
    assert_eq!(
        TimeEntryContract::log_time(&mut store, 1, worker(), String::from("T1"), 100, 160),
        Err(ContractError::DuplicateId)
    );
    assert_eq!(TimeEntryContract::get_time_entry(&store, 1), Some(logged(1, true)));
}

#[test]
fn approve_time_marks_the_entry() {
    let mut store = store_with_entry(1);
    assert!(!TimeEntryContract::is_time_approved(&store, 1));
    assert_eq!(TimeEntryContract::approve_time(&mut store, 1), Ok(()));
    assert!(TimeEntryContract::is_time_approved(&store, 1));
    assert_eq!(TimeEntryContract::get_time_entry(&store, 1), Some(logged(1, true)));
}

#[test]
fn approve_time_twice_keeps_the_entry_approved() {
    let mut store = store_with_entry(1);
    assert_eq!(TimeEntryContract::approve_time(&mut store, 1), Ok(()));
    assert_eq!(TimeEntryContract::approve_time(&mut store, 1), Ok(()));
    assert!(TimeEntryContract::is_time_approved(&store, 1));
    assert_eq!(TimeEntryContract::get_time_entry(&store, 1), Some(logged(1, true)));
}

#[test]
fn approve_time_on_a_missing_entry_fails_with_not_found() {
    let mut store = store_with_entry(1);
    assert_eq!(
        TimeEntryContract::approve_time(&mut store, 2),
        Err(ContractError::NotFound)
    );
    assert!(!TimeEntryContract::is_time_approved(&store, 2));
    assert_eq!(TimeEntryContract::get_time_entry(&store, 2), None);
    assert_eq!(TimeEntryContract::get_time_entry(&store, 1), Some(logged(1, false)));
}

#[test]
fn is_time_approved_cannot_tell_absence_from_waiting() {
    let store = store_with_entry(1);
    assert!(!TimeEntryContract::is_time_approved(&store, 1));
    assert!(!TimeEntryContract::is_time_approved(&store, 2));
    assert!(TimeEntryContract::get_time_entry(&store, 1).is_some());
    assert!(TimeEntryContract::get_time_entry(&store, 2).is_none());
}

#[test]
fn approval_of_one_entry_leaves_the_others() {
    let mut store = store_with_entry(1);
    assert_eq!(
        TimeEntryContract::log_time(&mut store, 2, worker(), String::from("T1"), 100, 160),
        Ok(())
    );
    assert_eq!(TimeEntryContract::approve_time(&mut store, 2), Ok(()));
    assert!(!TimeEntryContract::is_time_approved(&store, 1));
    assert!(TimeEntryContract::is_time_approved(&store, 2));
}

#[test]
fn new_entry_computes_its_duration() {
    assert_eq!(
        TimeEntry::create(1, worker(), String::from("T1"), 100, 160),
        Ok(logged(1, false))
    );
    assert_eq!(
        TimeEntry::create(1, worker(), String::from("T1"), 100, 99),
        Err(ContractError::InvalidTimeRange)
    );
    assert_eq!(
        TimeEntry::create(1, worker(), String::from("T1"), u64::MAX, u64::MAX),
        Err(ContractError::InvalidTimeRange)
    );
}

#[test]
fn approve_changes_the_approval_only() {
    assert_eq!(logged(3, false).approve(), logged(3, true));
    assert_eq!(logged(3, true).approve(), logged(3, true));
    assert_eq!(logged(3, false).clone(), logged(3, false));
    assert_ne!(logged(3, false), logged(3, true));
}
