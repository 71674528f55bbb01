//! The rent agreement service: agreements filed in the store under their
//! identifier, created by the landlord and moved on by the party whose turn
//! it is.

use crate::agreement::{AgreementView, RentAction, RentAgreement};
use crate::error::ContractError;
use crate::identity::Identity;
use crate::store::{Contents, Namespace, Record, RecordKey, RecordStore, RecordView};
use vstd::prelude::*;

verus! {

/// The operations of the rent agreement service.
pub struct SafeRentContract;

impl SafeRentContract {
    /// The key under which the agreement `rent_id` is filed.
    pub open spec fn key_of(rent_id: u64) -> RecordKey {
        RecordKey { namespace: Namespace::Rent, id: rent_id }
    }

    /// The agreement filed under `rent_id` in `store`, if there is one. A
    /// record of another family under the key of `rent_id` takes the key
    /// without being an agreement.
    pub open spec fn agreement_at(store: Contents, rent_id: u64) -> Option<AgreementView> {
        if store.contains_key(Self::key_of(rent_id)) {
            match store[Self::key_of(rent_id)] {
                RecordView::Agreement(agreement) => Some(agreement),
                RecordView::Entry(_) => None,
            }
        } else {
            None
        }
    }

    /// How creation under `rent_id` is answered: with `DuplicateId` where the
    /// identifier is taken, whatever the amounts; else with `InvalidAmount`
    /// where the amounts are refused.
    pub open spec fn create_reply(
        store: Contents,
        rent_id: u64,
        monthly_rent: int,
        security_deposit: int,
    ) -> Result<(), ContractError> {
        if store.contains_key(Self::key_of(rent_id)) {
            Err(ContractError::DuplicateId)
        } else if !AgreementView::amounts_valid(monthly_rent, security_deposit) {
            Err(ContractError::InvalidAmount)
        } else {
            Ok(())
        }
    }

    /// The store after creation under `rent_id` was asked for: with the
    /// fresh agreement filed where creation is accepted, untouched where it
    /// is refused.
    pub open spec fn after_create(
        store: Contents,
        rent_id: u64,
        landlord: Seq<char>,
        tenant: Seq<char>,
        monthly_rent: int,
        security_deposit: int,
    ) -> Contents {
        if Self::create_reply(store, rent_id, monthly_rent, security_deposit) is Ok {
            store.insert(
                Self::key_of(rent_id),
                RecordView::Agreement(
                    AgreementView::fresh(rent_id, landlord, tenant, monthly_rent, security_deposit),
                ),
            )
        } else {
            store
        }
    }

    /// What `action`, asked for by `caller`, yields on the agreement filed
    /// under `rent_id`: `NotFound` where there is none, else what the
    /// agreement's own rules yield.
    pub open spec fn outcome(
        store: Contents,
        rent_id: u64,
        action: RentAction,
        caller: Seq<char>,
    ) -> Result<AgreementView, ContractError> {
        match Self::agreement_at(store, rent_id) {
            Some(agreement) => agreement.apply(action, caller),
            None => Err(ContractError::NotFound),
        }
    }

    /// How `action` on `rent_id` is answered.
    pub open spec fn reply(
        store: Contents,
        rent_id: u64,
        action: RentAction,
        caller: Seq<char>,
    ) -> Result<(), ContractError> {
        match Self::outcome(store, rent_id, action, caller) {
            Ok(_) => Ok(()),
            Err(error) => Err(error),
        }
    }

    /// The store after `action` on `rent_id` was asked for: with the moved
    /// agreement in place of the old one where the action is accepted,
    /// untouched where it is refused.
    pub open spec fn after(
        store: Contents,
        rent_id: u64,
        action: RentAction,
        caller: Seq<char>,
    ) -> Contents {
        match Self::outcome(store, rent_id, action, caller) {
            Ok(next) => store.insert(Self::key_of(rent_id), RecordView::Agreement(next)),
            Err(_) => store,
        }
    }

    /// The key under which the agreement `id` is filed.
    pub fn rent_key(id: u64) -> (key: RecordKey)
        ensures
            key == Self::key_of(id),
    {
        RecordKey { namespace: Namespace::Rent, id }
    }

    /// Loads the agreement, runs `action` on it and files what comes out.
    fn transition(
        store: &mut RecordStore,
        rent_id: u64,
        action: RentAction,
        caller: &Identity,
    ) -> (reply: Result<(), ContractError>)
        requires
            action == RentAction::PayRent ==> (Self::outcome(
                old(store)@,
                rent_id,
                action,
                caller@,
            ) matches Ok(next) ==> next.months_paid <= u32::MAX),
        ensures
            reply == Self::reply(old(store)@, rent_id, action, caller@),
            final(store)@ == Self::after(old(store)@, rent_id, action, caller@),
    {
        let key = Self::rent_key(rent_id);
        let agreement = match store.get(key) {
            Some(Record::Agreement(agreement)) => agreement,
            _ => {
                return Err(ContractError::NotFound);
            },
        };
        match agreement.apply(action, caller) {
            Ok(next) => {
                store.set(key, Record::Agreement(next));
                Ok(())
            },
            Err(error) => Err(error),
        }
    }

    /// The landlord opens an agreement under `rent_id`, in `Created` and with
    /// no month paid. Refused with `DuplicateId` where `rent_id` is taken,
    /// whatever the other arguments, and else with `InvalidAmount` unless
    /// the rent is positive and the deposit is not negative.
    pub fn create_agreement(
        store: &mut RecordStore,
        rent_id: u64,
        landlord: Identity,
        tenant: Identity,
        monthly_rent: i128,
        security_deposit: i128,
    ) -> (reply: Result<(), ContractError>)
        ensures
            reply == Self::create_reply(
                old(store)@,
                rent_id,
                monthly_rent as int,
                security_deposit as int,
            ),
            final(store)@ == Self::after_create(
                old(store)@,
                rent_id,
                landlord@,
                tenant@,
                monthly_rent as int,
                security_deposit as int,
            ),
    {
        let key = Self::rent_key(rent_id);
        if store.has(key) {
            return Err(ContractError::DuplicateId);
        }
        match RentAgreement::create(rent_id, landlord, tenant, monthly_rent, security_deposit) {
            Ok(agreement) => {
                store.set(key, Record::Agreement(agreement));
                Ok(())
            },
            Err(error) => Err(error),
        }
    }

    /// The tenant confirms the agreement: `Created` becomes `Active`.
    /// Refused with `NotFound`, with `InvalidState` outside `Created`, and
    /// with `Unauthorized` for any caller but the tenant.
    pub fn activate_agreement(
        store: &mut RecordStore,
        rent_id: u64,
        caller: Identity,
    ) -> (reply: Result<(), ContractError>)
        ensures
            reply == Self::reply(old(store)@, rent_id, RentAction::Activate, caller@),
            final(store)@ == Self::after(old(store)@, rent_id, RentAction::Activate, caller@),
    {
        Self::transition(store, rent_id, RentAction::Activate, &caller)
    }

    /// The tenant logs the payment of one month's rent: the count of months
    /// paid goes up by one. Refused with `NotFound`, with `InvalidState`
    /// outside `Active`, and with `Unauthorized` for any caller but the
    /// tenant. No value moves here. Where the payment is admitted, the
    /// counter must have room for it.
    pub fn pay_rent(
        store: &mut RecordStore,
        rent_id: u64,
        caller: Identity,
    ) -> (reply: Result<(), ContractError>)
        requires
            Self::outcome(old(store)@, rent_id, RentAction::PayRent, caller@) matches Ok(next)
                ==> next.months_paid <= u32::MAX,
        ensures
            reply == Self::reply(old(store)@, rent_id, RentAction::PayRent, caller@),
            final(store)@ == Self::after(old(store)@, rent_id, RentAction::PayRent, caller@),
    {
        Self::transition(store, rent_id, RentAction::PayRent, &caller)
    }

    /// The landlord closes the agreement: `Active` becomes `Completed`.
    /// Refused with `NotFound`, with `Unauthorized` for any caller but the
    /// landlord, and with `InvalidState` outside `Active`.
    pub fn complete_agreement(
        store: &mut RecordStore,
        rent_id: u64,
        caller: Identity,
    ) -> (reply: Result<(), ContractError>)
        ensures
            reply == Self::reply(old(store)@, rent_id, RentAction::Complete, caller@),
            final(store)@ == Self::after(old(store)@, rent_id, RentAction::Complete, caller@),
    {
        Self::transition(store, rent_id, RentAction::Complete, &caller)
    }

    /// The landlord withdraws the agreement before the tenant has confirmed
    /// it: `Created` becomes `Cancelled`. Refused with `NotFound`, with
    /// `Unauthorized` for any caller but the landlord, and with
    /// `InvalidState` outside `Created`.
    pub fn cancel_agreement(
        store: &mut RecordStore,
        rent_id: u64,
        caller: Identity,
    ) -> (reply: Result<(), ContractError>)
        ensures
            reply == Self::reply(old(store)@, rent_id, RentAction::Cancel, caller@),
            final(store)@ == Self::after(old(store)@, rent_id, RentAction::Cancel, caller@),
    {
        Self::transition(store, rent_id, RentAction::Cancel, &caller)
    }

    /// The agreement filed under `rent_id`, if there is one. Anyone may ask.
    pub fn get_agreement(store: &RecordStore, rent_id: u64) -> (found: Option<RentAgreement>)
        ensures
            match found {
                Some(agreement) => Self::agreement_at(store@, rent_id) == Some(agreement@),
                None => Self::agreement_at(store@, rent_id) is None,
            },
    {
        match store.get(Self::rent_key(rent_id)) {
            Some(Record::Agreement(agreement)) => Some(agreement),
            _ => None,
        }
    }
}

} // verus!
