//! What holds of the two services whatever is asked of them, stated over the
//! views that the contracts of their operations speak of.

use crate::agreement::{AgreementView, RentAction, Role};
use crate::entry::EntryView;
use crate::error::ContractError;
use crate::rent::SafeRentContract;
use crate::store::{Contents, Namespace, RecordKey, RecordView};
use crate::timesheet::TimeEntryContract;
use vstd::prelude::*;

verus! {

/// A call of one of the operations that write to the store.
pub enum Call {
    CreateAgreement {
        rent_id: u64,
        landlord: Seq<char>,
        tenant: Seq<char>,
        monthly_rent: int,
        security_deposit: int,
    },
    Transition { rent_id: u64, action: RentAction, caller: Seq<char> },
    LogTime {
        entry_id: u64,
        worker: Seq<char>,
        task_ref: Seq<char>,
        start_time: int,
        end_time: int,
    },
    ApproveTime { entry_id: u64 },
}

impl Call {
    /// How the call is answered on `store`.
    pub open spec fn reply(self, store: Contents) -> Result<(), ContractError> {
        match self {
            Call::CreateAgreement { rent_id, monthly_rent, security_deposit, .. } => {
                SafeRentContract::create_reply(store, rent_id, monthly_rent, security_deposit)
            },
            Call::Transition { rent_id, action, caller } => {
                SafeRentContract::reply(store, rent_id, action, caller)
            },
            Call::LogTime { entry_id, start_time, end_time, .. } => {
                TimeEntryContract::log_reply(store, entry_id, start_time, end_time)
            },
            Call::ApproveTime { entry_id } => TimeEntryContract::approve_reply(store, entry_id),
        }
    }

    /// The store that the call leaves behind on `store`.
    pub open spec fn after(self, store: Contents) -> Contents {
        match self {
            Call::CreateAgreement { rent_id, landlord, tenant, monthly_rent, security_deposit } => {
                SafeRentContract::after_create(
                    store,
                    rent_id,
                    landlord,
                    tenant,
                    monthly_rent,
                    security_deposit,
                )
            },
            Call::Transition { rent_id, action, caller } => {
                SafeRentContract::after(store, rent_id, action, caller)
            },
            Call::LogTime { entry_id, worker, task_ref, start_time, end_time } => {
                TimeEntryContract::after_log(
                    store,
                    entry_id,
                    worker,
                    task_ref,
                    start_time,
                    end_time,
                )
            },
            Call::ApproveTime { entry_id } => TimeEntryContract::after_approve(store, entry_id),
        }
    }

    /// The one key that the call may write to.
    pub open spec fn target(self) -> RecordKey {
        match self {
            Call::CreateAgreement { rent_id, .. } => SafeRentContract::key_of(rent_id),
            Call::Transition { rent_id, .. } => SafeRentContract::key_of(rent_id),
            Call::LogTime { entry_id, .. } => TimeEntryContract::key_of(entry_id),
            Call::ApproveTime { entry_id } => TimeEntryContract::key_of(entry_id),
        }
    }
}

/// The store that a run of calls, made one after the other, leaves behind.
pub open spec fn after_all(store: Contents, calls: Seq<Call>) -> Contents
    decreases calls.len(),
{
    if calls.len() == 0 {
        store
    } else {
        calls.last().after(after_all(store, calls.drop_last()))
    }
}

/// Whether a record has the shape that its service gives it: an agreement
/// has a positive rent and a deposit that is not negative; an entry ends
/// after it starts and lasts as long as its span.
pub open spec fn sound(record: RecordView) -> bool {
    match record {
        RecordView::Agreement(agreement) => AgreementView::amounts_valid(
            agreement.monthly_rent,
            agreement.security_deposit,
        ),
        RecordView::Entry(entry) => EntryView::span_valid(entry.start_time, entry.end_time)
            && entry.hours == entry.end_time - entry.start_time,
    }
}

/// Whether every record of `store` is sound and filed under its own key.
pub open spec fn consistent(store: Contents) -> bool {
    forall|key: RecordKey| #[trigger]
        store.contains_key(key) ==> store[key].key() == key && sound(store[key])
}

/// Distinct namespaces are filed under distinct tags, so that the key of an
/// agreement is never the key of an entry.
pub proof fn namespaces_keep_families_apart(
    one: Namespace,
    other: Namespace,
    rent_id: u64,
    entry_id: u64,
)
    ensures
        one != other ==> one.tag_text() != other.tag_text(),
        SafeRentContract::key_of(rent_id) != TimeEntryContract::key_of(entry_id),
{
    reveal_strlit("RENT");
    reveal_strlit("TIME");
    assert("RENT"@[0] != "TIME"@[0]);
}

/// A refused call changes nothing.
pub proof fn refused_calls_change_nothing(store: Contents, call: Call)
    requires
        call.reply(store) is Err,
    ensures
        call.after(store) == store,
{
}

/// A call writes to its target at most: every other key keeps its record,
/// or stays unused.
pub proof fn calls_touch_their_target_only(store: Contents, call: Call, key: RecordKey)
    requires
        key != call.target(),
    ensures
        call.after(store).contains_key(key) == store.contains_key(key),
        store.contains_key(key) ==> call.after(store)[key] == store[key],
{
}

/// The two services keep apart: no call of the rent service changes which
/// entry is filed under an identifier, and no call of the time service
/// changes which agreement is.
pub proof fn services_keep_apart(store: Contents, call: Call, id: u64)
    ensures
        call.target().namespace == Namespace::Rent ==> TimeEntryContract::entry_at(
            call.after(store),
            id,
        ) == TimeEntryContract::entry_at(store, id),
        call.target().namespace == Namespace::Time ==> SafeRentContract::agreement_at(
            call.after(store),
            id,
        ) == SafeRentContract::agreement_at(store, id),
{
}

/// No call deletes a record: a key in use stays in use.
pub proof fn records_are_never_deleted(store: Contents, call: Call, key: RecordKey)
    requires
        store.contains_key(key),
    ensures
        call.after(store).contains_key(key),
{
}

/// No run of calls deletes a record.
pub proof fn records_outlast_every_run(store: Contents, calls: Seq<Call>, key: RecordKey)
    requires
        store.contains_key(key),
    ensures
        after_all(store, calls).contains_key(key),
    decreases calls.len(),
{
    if calls.len() > 0 {
        records_outlast_every_run(store, calls.drop_last(), key);
        records_are_never_deleted(after_all(store, calls.drop_last()), calls.last(), key);
    }
}

/// The empty store is consistent.
pub proof fn the_empty_store_is_consistent()
    ensures
        consistent(Contents::empty()),
{
}

/// Every call keeps a consistent store consistent.
pub proof fn calls_keep_the_store_consistent(store: Contents, call: Call)
    requires
        consistent(store),
    ensures
        consistent(call.after(store)),
{
    let next = call.after(store);
    assert forall|key: RecordKey| #[trigger] next.contains_key(key) implies next[key].key() == key
        && sound(next[key]) by {
        if key != call.target() {
            assert(store.contains_key(key));
        } else if store.contains_key(key) {
            assert(store[key].key() == key && sound(store[key]));
        }
    }
}

/// Every store that a run of calls builds from the empty store is
/// consistent.
pub proof fn every_run_builds_a_consistent_store(calls: Seq<Call>)
    ensures
        consistent(after_all(Contents::empty(), calls)),
    decreases calls.len(),
{
    if calls.len() > 0 {
        every_run_builds_a_consistent_store(calls.drop_last());
        calls_keep_the_store_consistent(
            after_all(Contents::empty(), calls.drop_last()),
            calls.last(),
        );
    }
}

/// Creation under an identifier that is taken is always refused with
/// `DuplicateId`, whatever the arguments, and leaves the store as it was.
pub proof fn taken_rent_id_refuses_creation(
    store: Contents,
    rent_id: u64,
    landlord: Seq<char>,
    tenant: Seq<char>,
    monthly_rent: int,
    security_deposit: int,
)
    requires
        store.contains_key(SafeRentContract::key_of(rent_id)),
    ensures
        SafeRentContract::create_reply(store, rent_id, monthly_rent, security_deposit) == Err::<
            (),
            ContractError,
        >(ContractError::DuplicateId),
        SafeRentContract::after_create(
            store,
            rent_id,
            landlord,
            tenant,
            monthly_rent,
            security_deposit,
        ) == store,
{
}

/// After an agreement was created, a second creation under its identifier is
/// refused with `DuplicateId`, after any run of calls in between and
/// whatever the arguments, and changes nothing.
pub proof fn second_creation_is_refused(
    store: Contents,
    rent_id: u64,
    landlord: Seq<char>,
    tenant: Seq<char>,
    monthly_rent: int,
    security_deposit: int,
    between: Seq<Call>,
    other_landlord: Seq<char>,
    other_tenant: Seq<char>,
    other_rent: int,
    other_deposit: int,
)
    requires
        SafeRentContract::create_reply(store, rent_id, monthly_rent, security_deposit) is Ok,
    ensures
        ({
            let created = SafeRentContract::after_create(
                store,
                rent_id,
                landlord,
                tenant,
                monthly_rent,
                security_deposit,
            );
            let later = after_all(created, between);
            &&& SafeRentContract::create_reply(later, rent_id, other_rent, other_deposit) == Err::<
                (),
                ContractError,
            >(ContractError::DuplicateId)
            &&& SafeRentContract::after_create(
                later,
                rent_id,
                other_landlord,
                other_tenant,
                other_rent,
                other_deposit,
            ) == later
        }),
{
    let created = SafeRentContract::after_create(
        store,
        rent_id,
        landlord,
        tenant,
        monthly_rent,
        security_deposit,
    );
    assert(created.contains_key(SafeRentContract::key_of(rent_id)));
    records_outlast_every_run(created, between, SafeRentContract::key_of(rent_id));
}

/// Logging under an identifier that is taken is always refused with
/// `DuplicateId`, whatever the arguments, and leaves the store as it was.
pub proof fn taken_entry_id_refuses_logging(
    store: Contents,
    entry_id: u64,
    worker: Seq<char>,
    task_ref: Seq<char>,
    start_time: int,
    end_time: int,
)
    requires
        store.contains_key(TimeEntryContract::key_of(entry_id)),
    ensures
        TimeEntryContract::log_reply(store, entry_id, start_time, end_time) == Err::<
            (),
            ContractError,
        >(ContractError::DuplicateId),
        TimeEntryContract::after_log(store, entry_id, worker, task_ref, start_time, end_time)
            == store,
{
}

/// After an entry was logged, a second logging under its identifier is
/// refused with `DuplicateId`, after any run of calls in between and
/// whatever the arguments, and changes nothing.
pub proof fn second_logging_is_refused(
    store: Contents,
    entry_id: u64,
    worker: Seq<char>,
    task_ref: Seq<char>,
    start_time: int,
    end_time: int,
    between: Seq<Call>,
    other_worker: Seq<char>,
    other_task_ref: Seq<char>,
    other_start: int,
    other_end: int,
)
    requires
        TimeEntryContract::log_reply(store, entry_id, start_time, end_time) is Ok,
    ensures
        ({
            let logged = TimeEntryContract::after_log(
                store,
                entry_id,
                worker,
                task_ref,
                start_time,
                end_time,
            );
            let later = after_all(logged, between);
            &&& TimeEntryContract::log_reply(later, entry_id, other_start, other_end) == Err::<
                (),
                ContractError,
            >(ContractError::DuplicateId)
            &&& TimeEntryContract::after_log(
                later,
                entry_id,
                other_worker,
                other_task_ref,
                other_start,
                other_end,
            ) == later
        }),
{
    let logged = TimeEntryContract::after_log(
        store,
        entry_id,
        worker,
        task_ref,
        start_time,
        end_time,
    );
    assert(logged.contains_key(TimeEntryContract::key_of(entry_id)));
    records_outlast_every_run(logged, between, TimeEntryContract::key_of(entry_id));
}

/// A transition leaves the terms of an agreement alone: its identifier, its
/// parties and its amounts stay, and the count of months paid never falls.
/// The status moves along an edge of the lifecycle.
pub proof fn transitions_keep_the_terms(
    agreement: AgreementView,
    action: RentAction,
    caller: Seq<char>,
)
    requires
        agreement.apply(action, caller) is Ok,
    ensures
        ({
            let next = agreement.apply(action, caller)->Ok_0;
            &&& next.rent_id == agreement.rent_id
            &&& next.landlord == agreement.landlord
            &&& next.tenant == agreement.tenant
            &&& next.monthly_rent == agreement.monthly_rent
            &&& next.security_deposit == agreement.security_deposit
            &&& next.months_paid >= agreement.months_paid
            &&& next.months_paid == agreement.months_paid + (if action == RentAction::PayRent {
                1nat
            } else {
                0nat
            })
            &&& agreement.status == action.source()
            &&& next.status == action.target()
        }),
{
}

/// Whatever is called, an agreement that is filed stays filed with its
/// identifier, its parties and its amounts, and with no fewer months paid.
pub proof fn agreements_keep_their_terms(store: Contents, rent_id: u64, call: Call)
    requires
        SafeRentContract::agreement_at(store, rent_id) is Some,
    ensures
        SafeRentContract::agreement_at(call.after(store), rent_id) is Some,
        ({
            let before = SafeRentContract::agreement_at(store, rent_id)->Some_0;
            let after = SafeRentContract::agreement_at(call.after(store), rent_id)->Some_0;
            &&& after.rent_id == before.rent_id
            &&& after.landlord == before.landlord
            &&& after.tenant == before.tenant
            &&& after.monthly_rent == before.monthly_rent
            &&& after.security_deposit == before.security_deposit
            &&& after.months_paid >= before.months_paid
        }),
{
}

/// Whatever is called, an entry that is filed stays filed as it was logged;
/// only its approval may change, and only from waiting to approved.
pub proof fn entries_keep_their_span(store: Contents, entry_id: u64, call: Call)
    requires
        TimeEntryContract::entry_at(store, entry_id) is Some,
    ensures
        TimeEntryContract::entry_at(call.after(store), entry_id) is Some,
        ({
            let before = TimeEntryContract::entry_at(store, entry_id)->Some_0;
            let after = TimeEntryContract::entry_at(call.after(store), entry_id)->Some_0;
            &&& after == (EntryView { approved: after.approved, ..before })
            &&& before.approved ==> after.approved
        }),
{
}

/// A transition is accepted exactly when the agreement is in the status that
/// the action starts from and the caller holds the role that the action is
/// reserved to.
pub proof fn transitions_are_gated(agreement: AgreementView, action: RentAction, caller: Seq<char>)
    ensures
        agreement.apply(action, caller) is Ok <==> agreement.status == action.source() && caller
            == agreement.party(action.role()),
        agreement.apply(action, caller) is Err ==> agreement.apply(action, caller)->Err_0
            == ContractError::InvalidState || agreement.apply(action, caller)->Err_0
            == ContractError::Unauthorized,
{
}

/// A caller who does not hold the role that an action is reserved to is
/// refused, and the agreement stays in its status. Where the agreement is in
/// the status that the action starts from, the refusal is `Unauthorized`.
pub proof fn strangers_are_refused(
    store: Contents,
    rent_id: u64,
    action: RentAction,
    caller: Seq<char>,
)
    requires
        SafeRentContract::agreement_at(store, rent_id) is Some,
        caller != SafeRentContract::agreement_at(store, rent_id)->Some_0.party(action.role()),
    ensures
        SafeRentContract::reply(store, rent_id, action, caller) is Err,
        SafeRentContract::agreement_at(store, rent_id)->Some_0.status == action.source()
            ==> SafeRentContract::reply(store, rent_id, action, caller) == Err::<
            (),
            ContractError,
        >(ContractError::Unauthorized),
        SafeRentContract::after(store, rent_id, action, caller) == store,
{
}

/// Once an agreement is `Completed` or `Cancelled`, every transition asked of
/// it is refused, with `InvalidState` or, where the caller is tested first
/// and is not the landlord, with `Unauthorized`; the store stays as it was.
pub proof fn terminal_agreements_refuse_every_transition(
    store: Contents,
    rent_id: u64,
    action: RentAction,
    caller: Seq<char>,
)
    requires
        SafeRentContract::agreement_at(store, rent_id) is Some,
        SafeRentContract::agreement_at(store, rent_id)->Some_0.status.terminal(),
    ensures
        SafeRentContract::reply(store, rent_id, action, caller) == Err::<(), ContractError>(
            if action.role() == Role::Landlord && caller != SafeRentContract::agreement_at(
                store,
                rent_id,
            )->Some_0.landlord {
                ContractError::Unauthorized
            } else {
                ContractError::InvalidState
            },
        ),
        SafeRentContract::after(store, rent_id, action, caller) == store,
{
}

/// Once an agreement is `Completed` or `Cancelled`, no call changes it.
pub proof fn terminal_agreements_are_final(store: Contents, rent_id: u64, call: Call)
    requires
        SafeRentContract::agreement_at(store, rent_id) is Some,
        SafeRentContract::agreement_at(store, rent_id)->Some_0.status.terminal(),
    ensures
        SafeRentContract::agreement_at(call.after(store), rent_id)
            == SafeRentContract::agreement_at(store, rent_id),
{
}

/// Once an agreement is `Completed` or `Cancelled`, no run of calls changes
/// it.
pub proof fn terminal_agreements_outlast_every_run(
    store: Contents,
    rent_id: u64,
    calls: Seq<Call>,
)
    requires
        SafeRentContract::agreement_at(store, rent_id) is Some,
        SafeRentContract::agreement_at(store, rent_id)->Some_0.status.terminal(),
    ensures
        SafeRentContract::agreement_at(after_all(store, calls), rent_id)
            == SafeRentContract::agreement_at(store, rent_id),
    decreases calls.len(),
{
    if calls.len() > 0 {
        terminal_agreements_outlast_every_run(store, rent_id, calls.drop_last());
        terminal_agreements_are_final(after_all(store, calls.drop_last()), rent_id, calls.last());
    }
}

/// Approving an entry that is approved leaves the store as it was.
pub proof fn approval_is_idempotent(store: Contents, entry_id: u64)
    requires
        TimeEntryContract::approved(store, entry_id),
    ensures
        TimeEntryContract::approve_reply(store, entry_id) is Ok,
        TimeEntryContract::after_approve(store, entry_id) == store,
{
    assert(TimeEntryContract::after_approve(store, entry_id) =~= store);
}

/// An approved entry stays approved: no call takes the approval back, and
/// none changes anything else of the entry.
pub proof fn approval_is_permanent(store: Contents, entry_id: u64, call: Call)
    requires
        TimeEntryContract::approved(store, entry_id),
    ensures
        TimeEntryContract::approved(call.after(store), entry_id),
        TimeEntryContract::entry_at(call.after(store), entry_id) == TimeEntryContract::entry_at(
            store,
            entry_id,
        ),
{
}

/// An approved entry stays approved after every run of calls.
pub proof fn approval_outlasts_every_run(store: Contents, entry_id: u64, calls: Seq<Call>)
    requires
        TimeEntryContract::approved(store, entry_id),
    ensures
        TimeEntryContract::approved(after_all(store, calls), entry_id),
    decreases calls.len(),
{
    if calls.len() > 0 {
        approval_outlasts_every_run(store, entry_id, calls.drop_last());
        approval_is_permanent(after_all(store, calls.drop_last()), entry_id, calls.last());
    }
}

/// The approval query answers `false` both for an identifier that is not in
/// use and for an entry that awaits approval; the lookup tells the two
/// apart.
pub proof fn absence_and_waiting_look_alike(absent: Contents, waiting: Contents, entry_id: u64)
    requires
        TimeEntryContract::entry_at(absent, entry_id) is None,
        TimeEntryContract::entry_at(waiting, entry_id) is Some,
        !TimeEntryContract::entry_at(waiting, entry_id)->Some_0.approved,
    ensures
        TimeEntryContract::approved(absent, entry_id) == TimeEntryContract::approved(
            waiting,
            entry_id,
        ),
        !TimeEntryContract::approved(absent, entry_id),
        TimeEntryContract::entry_at(absent, entry_id) != TimeEntryContract::entry_at(
            waiting,
            entry_id,
        ),
{
}

} // verus!
