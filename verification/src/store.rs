//! The record store: a key-value store shared by the services, in which the
//! namespace of a key keeps the record families apart.

use crate::agreement::{AgreementView, RentAgreement};
use crate::entry::{EntryView, TimeEntry};
use std::collections::HashMap;
use vstd::prelude::*;

verus! {

broadcast use vstd::std_specs::hash::group_hash_axioms;

/// The family of records that a key belongs to.
#[derive(Clone, Copy, Debug, PartialEq, Eq, Structural)]
pub enum Namespace {
    Rent,
    Time,
}

impl Namespace {
    /// The tag under which the keys of this namespace are filed.
    pub open spec fn tag_text(self) -> Seq<char> {
        match self {
            Namespace::Rent => "RENT"@,
            Namespace::Time => "TIME"@,
        }
    }

    /// The tag under which the keys of this namespace are filed.
    pub fn tag(&self) -> (tag: &'static str)
        ensures
            tag@ == self.tag_text(),
    {
        match self {
            Namespace::Rent => "RENT",
            Namespace::Time => "TIME",
        }
    }
}

/// The key of a record: its namespace and its identifier in that namespace.
#[derive(Clone, Copy, Debug, PartialEq, Eq, Structural)]
pub struct RecordKey {
    pub namespace: Namespace,
    pub id: u64,
}

/// A stored value: a record of one of the families.
#[derive(Debug)]
pub enum Record {
    Agreement(RentAgreement),
    Entry(TimeEntry),
}

/// The mathematical value of a [`Record`].
pub enum RecordView {
    Agreement(AgreementView),
    Entry(EntryView),
}

impl RecordView {
    /// The key that a record is filed under by the service that owns it.
    pub open spec fn key(self) -> RecordKey {
        match self {
            RecordView::Agreement(agreement) => RecordKey {
                namespace: Namespace::Rent,
                id: agreement.rent_id,
            },
            RecordView::Entry(entry) => RecordKey {
                namespace: Namespace::Time,
                id: entry.entry_id,
            },
        }
    }
}

impl View for Record {
    type V = RecordView;

    open spec fn view(&self) -> RecordView {
        match self {
            Record::Agreement(agreement) => RecordView::Agreement(agreement@),
            Record::Entry(entry) => RecordView::Entry(entry@),
        }
    }
}

impl Clone for Record {
    fn clone(&self) -> (copy: Record)
        ensures
            copy == *self,
    {
        match self {
            Record::Agreement(agreement) => Record::Agreement(agreement.clone()),
            Record::Entry(entry) => Record::Entry(entry.clone()),
        }
    }
}

impl PartialEq for Record {
    fn eq(&self, other: &Record) -> (same: bool) {
        match (self, other) {
            (Record::Agreement(mine), Record::Agreement(theirs)) => mine == theirs,
            (Record::Entry(mine), Record::Entry(theirs)) => mine == theirs,
            _ => false,
        }
    }
}

impl vstd::std_specs::cmp::PartialEqSpecImpl for Record {
    open spec fn obeys_eq_spec() -> bool {
        true
    }

    open spec fn eq_spec(&self, other: &Record) -> bool {
        self@ == other@
    }
}

/// What a store holds: for each key in use, the value of its record.
pub type Contents = Map<RecordKey, RecordView>;

/// A keyed store of records with point lookup and unconditional upsert.
/// Each namespace has a shelf of its own, so that equal identifiers of
/// different namespaces never meet.
#[derive(Debug)]
pub struct RecordStore {
    rent_shelf: HashMap<u64, Record>,
    time_shelf: HashMap<u64, Record>,
}

impl RecordStore {
    /// The records filed under the keys of `namespace`, by identifier.
    closed spec fn shelf(&self, namespace: Namespace) -> Map<u64, Record> {
        match namespace {
            Namespace::Rent => self.rent_shelf@,
            Namespace::Time => self.time_shelf@,
        }
    }
}

impl View for RecordStore {
    type V = Contents;

    closed spec fn view(&self) -> Contents {
        Map::new(
            |key: RecordKey| self.shelf(key.namespace).contains_key(key.id),
            |key: RecordKey| self.shelf(key.namespace)[key.id]@,
        )
    }
}

impl RecordStore {
    /// A store that holds nothing.
    pub fn new() -> (store: RecordStore)
        ensures
            store@ == Contents::empty(),
    {
        let store = RecordStore { rent_shelf: HashMap::new(), time_shelf: HashMap::new() };
        assert(store@ =~= Contents::empty());
        store
    }

    /// Whether a record is stored under `key`.
    pub fn has(&self, key: RecordKey) -> (present: bool)
        ensures
            present == self@.contains_key(key),
    {
        match key.namespace {
            Namespace::Rent => self.rent_shelf.contains_key(&key.id),
            Namespace::Time => self.time_shelf.contains_key(&key.id),
        }
    }

    /// The record stored under `key`, if there is one.
    pub fn get(&self, key: RecordKey) -> (found: Option<Record>)
        ensures
            match found {
                Some(record) => self@.contains_key(key) && record@ == self@[key],
                None => !self@.contains_key(key),
            },
    {
        let filed = match key.namespace {
            Namespace::Rent => self.rent_shelf.get(&key.id),
            Namespace::Time => self.time_shelf.get(&key.id),
        };
        match filed {
            Some(record) => Some(record.clone()),
            None => None,
        }
    }

    /// Stores `value` under `key`, in place of whatever was stored there;
    /// every other key keeps its record.
    pub fn set(&mut self, key: RecordKey, value: Record)
        ensures
            final(self)@ == old(self)@.insert(key, value@),
    {
        let ghost stored = value@;
        match key.namespace {
            Namespace::Rent => {
                self.rent_shelf.insert(key.id, value);
            },
            Namespace::Time => {
                self.time_shelf.insert(key.id, value);
            },
        }
        assert(self@ =~= old(self)@.insert(key, stored));
    }
}

} // verus!
