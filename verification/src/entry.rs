//! Time entries: a span of logged work that can be approved once, for good.

use crate::error::ContractError;
use crate::identity::Identity;
use vstd::prelude::*;

verus! {

/// A span of work logged by a worker against a task.
#[derive(Debug)]
pub struct TimeEntry {
    pub entry_id: u64,
    pub worker: Identity,
    pub task_ref: String,
    pub start_time: u64,
    pub end_time: u64,
    /// The length of the span, fixed when the entry is logged.
    pub hours: u64,
    pub approved: bool,
}

/// The mathematical value of a [`TimeEntry`].
pub struct EntryView {
    pub entry_id: u64,
    pub worker: Seq<char>,
    pub task_ref: Seq<char>,
    pub start_time: int,
    pub end_time: int,
    pub hours: int,
    pub approved: bool,
}

impl EntryView {
    /// The spans that an entry may be logged with: those that end after
    /// they start.
    pub open spec fn span_valid(start_time: int, end_time: int) -> bool {
        start_time < end_time
    }

    /// An entry as it is logged: unapproved, and lasting as long as its
    /// span.
    pub open spec fn fresh(
        entry_id: u64,
        worker: Seq<char>,
        task_ref: Seq<char>,
        start_time: int,
        end_time: int,
    ) -> EntryView {
        EntryView {
            entry_id,
            worker,
            task_ref,
            start_time,
            end_time,
            hours: end_time - start_time,
            approved: false,
        }
    }

    /// What logging yields: the fresh entry, unless the span is refused.
    pub open spec fn create(
        entry_id: u64,
        worker: Seq<char>,
        task_ref: Seq<char>,
        start_time: int,
        end_time: int,
    ) -> Result<EntryView, ContractError> {
        if Self::span_valid(start_time, end_time) {
            Ok(Self::fresh(entry_id, worker, task_ref, start_time, end_time))
        } else {
            Err(ContractError::InvalidTimeRange)
        }
    }

    /// This entry approved, all else kept.
    pub open spec fn approve(self) -> EntryView {
        EntryView { approved: true, ..self }
    }
}

impl View for TimeEntry {
    type V = EntryView;

    open spec fn view(&self) -> EntryView {
        EntryView {
            entry_id: self.entry_id,
            worker: self.worker@,
            task_ref: self.task_ref@,
            start_time: self.start_time as int,
            end_time: self.end_time as int,
            hours: self.hours as int,
            approved: self.approved,
        }
    }
}

/// The view of what logging returned.
pub open spec fn logged_view(
    outcome: Result<TimeEntry, ContractError>,
) -> Result<EntryView, ContractError> {
    match outcome {
        Ok(entry) => Ok(entry@),
        Err(error) => Err(error),
    }
}

impl TimeEntry {
    /// An unapproved entry for the span from `start_time` to `end_time`.
    /// Refused with `InvalidTimeRange` unless the span ends after it starts.
    pub fn create(
        entry_id: u64,
        worker: Identity,
        task_ref: String,
        start_time: u64,
        end_time: u64,
    ) -> (outcome: Result<TimeEntry, ContractError>)
        ensures
            logged_view(outcome) == EntryView::create(
                entry_id,
                worker@,
                task_ref@,
                start_time as int,
                end_time as int,
            ),
    {
        if end_time <= start_time {
            return Err(ContractError::InvalidTimeRange);
        }
        Ok(
            TimeEntry {
                entry_id,
                worker,
                task_ref,
                start_time,
                end_time,
                hours: end_time - start_time,
                approved: false,
            },
        )
    }

    /// This entry approved. Approving an approved entry changes nothing.
    pub fn approve(self) -> (next: TimeEntry)
        ensures
            next@ == self@.approve(),
    {
        let mut next = self;
        next.approved = true;
        next
    }
}

impl Clone for TimeEntry {
    fn clone(&self) -> (copy: TimeEntry)
        ensures
            copy == *self,
    {
        TimeEntry {
            entry_id: self.entry_id,
            worker: self.worker.clone(),
            task_ref: self.task_ref.clone(),
            start_time: self.start_time,
            end_time: self.end_time,
            hours: self.hours,
            approved: self.approved,
        }
    }
}

impl PartialEq for TimeEntry {
    fn eq(&self, other: &TimeEntry) -> (same: bool) {
        self.entry_id == other.entry_id
            && self.worker == other.worker
            && self.task_ref == other.task_ref
            && self.start_time == other.start_time
            && self.end_time == other.end_time
            && self.hours == other.hours
            && self.approved == other.approved
    }
}

impl vstd::std_specs::cmp::PartialEqSpecImpl for TimeEntry {
    open spec fn obeys_eq_spec() -> bool {
        true
    }

    open spec fn eq_spec(&self, other: &TimeEntry) -> bool {
        self@ == other@
    }
}

} // verus!
