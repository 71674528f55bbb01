//! The time entry service: entries filed in the store under their
//! identifier, logged unapproved and approved once, for good.

use crate::entry::{EntryView, TimeEntry};
use crate::error::ContractError;
use crate::identity::Identity;
use crate::store::{Contents, Namespace, Record, RecordKey, RecordStore, RecordView};
use vstd::prelude::*;

verus! {

/// The operations of the time entry service.
pub struct TimeEntryContract;

impl TimeEntryContract {
    /// The key under which the entry `entry_id` is filed.
    pub open spec fn key_of(entry_id: u64) -> RecordKey {
        RecordKey { namespace: Namespace::Time, id: entry_id }
    }

    /// The entry filed under `entry_id` in `store`, if there is one. A record
    /// of another family under the key of `entry_id` takes the key without
    /// being an entry.
    pub open spec fn entry_at(store: Contents, entry_id: u64) -> Option<EntryView> {
        if store.contains_key(Self::key_of(entry_id)) {
            match store[Self::key_of(entry_id)] {
                RecordView::Entry(entry) => Some(entry),
                RecordView::Agreement(_) => None,
            }
        } else {
            None
        }
    }

    /// How logging under `entry_id` is answered: with `DuplicateId` where the
    /// identifier is taken, whatever the span; else with `InvalidTimeRange`
    /// where the span is refused.
    pub open spec fn log_reply(
        store: Contents,
        entry_id: u64,
        start_time: int,
        end_time: int,
    ) -> Result<(), ContractError> {
        if store.contains_key(Self::key_of(entry_id)) {
            Err(ContractError::DuplicateId)
        } else if !EntryView::span_valid(start_time, end_time) {
            Err(ContractError::InvalidTimeRange)
        } else {
            Ok(())
        }
    }

    /// The store after logging under `entry_id` was asked for: with the
    /// fresh entry filed where logging is accepted, untouched where it is
    /// refused.
    pub open spec fn after_log(
        store: Contents,
        entry_id: u64,
        worker: Seq<char>,
        task_ref: Seq<char>,
        start_time: int,
        end_time: int,
    ) -> Contents {
        if Self::log_reply(store, entry_id, start_time, end_time) is Ok {
            store.insert(
                Self::key_of(entry_id),
                RecordView::Entry(
                    EntryView::fresh(entry_id, worker, task_ref, start_time, end_time),
                ),
            )
        } else {
            store
        }
    }

    /// How approval of `entry_id` is answered.
    pub open spec fn approve_reply(store: Contents, entry_id: u64) -> Result<(), ContractError> {
        match Self::entry_at(store, entry_id) {
            Some(_) => Ok(()),
            None => Err(ContractError::NotFound),
        }
    }

    /// The store after approval of `entry_id` was asked for: with the entry
    /// approved where there is one, untouched where there is none.
    pub open spec fn after_approve(store: Contents, entry_id: u64) -> Contents {
        match Self::entry_at(store, entry_id) {
            Some(entry) => store.insert(Self::key_of(entry_id), RecordView::Entry(entry.approve())),
            None => store,
        }
    }

    /// Whether an approved entry is filed under `entry_id`.
    pub open spec fn approved(store: Contents, entry_id: u64) -> bool {
        match Self::entry_at(store, entry_id) {
            Some(entry) => entry.approved,
            None => false,
        }
    }

    /// The key under which the entry `id` is filed.
    pub fn time_key(id: u64) -> (key: RecordKey)
        ensures
            key == Self::key_of(id),
    {
        RecordKey { namespace: Namespace::Time, id }
    }

    /// Logs the span from `start_time` to `end_time` under `entry_id`,
    /// unapproved, with the length of the span as its duration. Refused with
    /// `DuplicateId` where `entry_id` is taken, whatever the other
    /// arguments, and else with `InvalidTimeRange` unless the span ends
    /// after it starts.
    pub fn log_time(
        store: &mut RecordStore,
        entry_id: u64,
        worker: Identity,
        task_ref: String,
        start_time: u64,
        end_time: u64,
    ) -> (reply: Result<(), ContractError>)
        ensures
            reply == Self::log_reply(old(store)@, entry_id, start_time as int, end_time as int),
            final(store)@ == Self::after_log(
                old(store)@,
                entry_id,
                worker@,
                task_ref@,
                start_time as int,
                end_time as int,
            ),
    {
        let key = Self::time_key(entry_id);
        if store.has(key) {
            return Err(ContractError::DuplicateId);
        }
        match TimeEntry::create(entry_id, worker, task_ref, start_time, end_time) {
            Ok(entry) => {
                store.set(key, Record::Entry(entry));
                Ok(())
            },
            Err(error) => Err(error),
        }
    }

    /// Approves the entry filed under `entry_id`, whoever asks. Refused with
    /// `NotFound` where there is none. An approved entry stays approved.
    pub fn approve_time(
        store: &mut RecordStore,
        entry_id: u64,
    ) -> (reply: Result<(), ContractError>)
        ensures
            reply == Self::approve_reply(old(store)@, entry_id),
            final(store)@ == Self::after_approve(old(store)@, entry_id),
    {
        let key = Self::time_key(entry_id);
        match store.get(key) {
            Some(Record::Entry(entry)) => {
                store.set(key, Record::Entry(entry.approve()));
                Ok(())
            },
            _ => Err(ContractError::NotFound),
        }
    }

    /// Whether an approved entry is filed under `entry_id`: `false` both
    /// where there is no entry and where the entry awaits approval.
    pub fn is_time_approved(store: &RecordStore, entry_id: u64) -> (approved: bool)
        ensures
            approved == Self::approved(store@, entry_id),
    {
        match store.get(Self::time_key(entry_id)) {
            Some(Record::Entry(entry)) => entry.approved,
            _ => false,
        }
    }

    /// The entry filed under `entry_id`, if there is one.
    pub fn get_time_entry(store: &RecordStore, entry_id: u64) -> (found: Option<TimeEntry>)
        ensures
            match found {
                Some(entry) => Self::entry_at(store@, entry_id) == Some(entry@),
                None => Self::entry_at(store@, entry_id) is None,
            },
    {
        match store.get(Self::time_key(entry_id)) {
            Some(Record::Entry(entry)) => Some(entry),
            _ => None,
        }
    }
}

} // verus!
