//! Rent agreements and the transitions that move them through their lifecycle.
//!
//! ```text
//! Created --(tenant: activate)--> Active
//! Created --(landlord: cancel)--> Cancelled
//! Active  --(tenant: pay rent)--> Active
//! Active  --(landlord: complete)--> Completed
//! ```

use crate::error::ContractError;
use crate::identity::Identity;
use vstd::prelude::*;

verus! {

/// Where an agreement stands in its lifecycle.
#[derive(Clone, Copy, Debug, PartialEq, Eq, Structural)]
pub enum RentStatus {
    Created,
    Active,
    Completed,
    Cancelled,
}

impl RentStatus {
    /// A terminal status admits no further transition.
    pub open spec fn terminal(self) -> bool {
        self == RentStatus::Completed || self == RentStatus::Cancelled
    }
}

/// The two parties recorded on an agreement.
#[derive(Clone, Copy, Debug, PartialEq, Eq, Structural)]
pub enum Role {
    Landlord,
    Tenant,
}

/// The transitions of an agreement.
#[derive(Clone, Copy, Debug, PartialEq, Eq, Structural)]
pub enum RentAction {
    Activate,
    PayRent,
    Complete,
    Cancel,
}

impl RentAction {
    /// The role that the action is reserved to.
    pub open spec fn role(self) -> Role {
        match self {
            RentAction::Activate | RentAction::PayRent => Role::Tenant,
            RentAction::Complete | RentAction::Cancel => Role::Landlord,
        }
    }

    /// The status that the action starts from.
    pub open spec fn source(self) -> RentStatus {
        match self {
            RentAction::Activate | RentAction::Cancel => RentStatus::Created,
            RentAction::PayRent | RentAction::Complete => RentStatus::Active,
        }
    }

    /// The status that the action leads to.
    pub open spec fn target(self) -> RentStatus {
        match self {
            RentAction::Activate | RentAction::PayRent => RentStatus::Active,
            RentAction::Complete => RentStatus::Completed,
            RentAction::Cancel => RentStatus::Cancelled,
        }
    }
}

/// A rent agreement between a landlord and a tenant.
#[derive(Debug)]
pub struct RentAgreement {
    pub rent_id: u64,
    pub landlord: Identity,
    pub tenant: Identity,
    pub monthly_rent: i128,
    pub security_deposit: i128,
    pub status: RentStatus,
    pub months_paid: u32,
}

/// The mathematical value of a [`RentAgreement`].
pub struct AgreementView {
    pub rent_id: u64,
    pub landlord: Seq<char>,
    pub tenant: Seq<char>,
    pub monthly_rent: int,
    pub security_deposit: int,
    pub status: RentStatus,
    pub months_paid: nat,
}

impl AgreementView {
    /// The amounts that an agreement may be created with.
    pub open spec fn amounts_valid(monthly_rent: int, security_deposit: int) -> bool {
        monthly_rent > 0 && security_deposit >= 0
    }

    /// An agreement as it is created: in `Created`, with no month paid.
    pub open spec fn fresh(
        rent_id: u64,
        landlord: Seq<char>,
        tenant: Seq<char>,
        monthly_rent: int,
        security_deposit: int,
    ) -> AgreementView {
        AgreementView {
            rent_id,
            landlord,
            tenant,
            monthly_rent,
            security_deposit,
            status: RentStatus::Created,
            months_paid: 0,
        }
    }

    /// What creation yields: the fresh agreement, unless the amounts are
    /// refused.
    pub open spec fn create(
        rent_id: u64,
        landlord: Seq<char>,
        tenant: Seq<char>,
        monthly_rent: int,
        security_deposit: int,
    ) -> Result<AgreementView, ContractError> {
        if Self::amounts_valid(monthly_rent, security_deposit) {
            Ok(Self::fresh(rent_id, landlord, tenant, monthly_rent, security_deposit))
        } else {
            Err(ContractError::InvalidAmount)
        }
    }

    /// The party that holds `role` on this agreement.
    pub open spec fn party(self, role: Role) -> Seq<char> {
        match role {
            Role::Landlord => self.landlord,
            Role::Tenant => self.tenant,
        }
    }

    /// This agreement after `action`: in the status that the action leads
    /// to, with one more month paid where the action is a payment, all else
    /// kept.
    pub open spec fn effect(self, action: RentAction) -> AgreementView {
        AgreementView {
            status: action.target(),
            months_paid: if action == RentAction::PayRent {
                self.months_paid + 1
            } else {
                self.months_paid
            },
            ..self
        }
    }

    /// Why `action`, asked for by `caller`, is refused on this agreement, if
    /// it is: with `InvalidState` outside the status that the action starts
    /// from, with `Unauthorized` for a caller who does not hold the role
    /// that the action is reserved to. Where both apply, the tenant's
    /// actions answer for the status and the landlord's for the caller.
    pub open spec fn refusal(self, action: RentAction, caller: Seq<char>) -> Option<ContractError> {
        let wrong_status = self.status != action.source();
        let wrong_caller = caller != self.party(action.role());
        if wrong_status && wrong_caller {
            match action.role() {
                Role::Tenant => Some(ContractError::InvalidState),
                Role::Landlord => Some(ContractError::Unauthorized),
            }
        } else if wrong_status {
            Some(ContractError::InvalidState)
        } else if wrong_caller {
            Some(ContractError::Unauthorized)
        } else {
            None
        }
    }

    /// What `action`, asked for by `caller`, yields on this agreement: the
    /// agreement after the action, or the refusal.
    pub open spec fn apply(
        self,
        action: RentAction,
        caller: Seq<char>,
    ) -> Result<AgreementView, ContractError> {
        match self.refusal(action, caller) {
            Some(error) => Err(error),
            None => Ok(self.effect(action)),
        }
    }
}

impl View for RentAgreement {
    type V = AgreementView;

    open spec fn view(&self) -> AgreementView {
        AgreementView {
            rent_id: self.rent_id,
            landlord: self.landlord@,
            tenant: self.tenant@,
            monthly_rent: self.monthly_rent as int,
            security_deposit: self.security_deposit as int,
            status: self.status,
            months_paid: self.months_paid as nat,
        }
    }
}

/// The view of what a transition returned.
pub open spec fn outcome_view(
    outcome: Result<RentAgreement, ContractError>,
) -> Result<AgreementView, ContractError> {
    match outcome {
        Ok(agreement) => Ok(agreement@),
        Err(error) => Err(error),
    }
}

impl RentAgreement {
    /// A fresh agreement in `Created` with no month paid. Refused with
    /// `InvalidAmount` unless the rent is positive and the deposit is not
    /// negative.
    pub fn create(
        rent_id: u64,
        landlord: Identity,
        tenant: Identity,
        monthly_rent: i128,
        security_deposit: i128,
    ) -> (outcome: Result<RentAgreement, ContractError>)
        ensures
            outcome_view(outcome) == AgreementView::create(
                rent_id,
                landlord@,
                tenant@,
                monthly_rent as int,
                security_deposit as int,
            ),
    {
        if monthly_rent <= 0 || security_deposit < 0 {
            return Err(ContractError::InvalidAmount);
        }
        Ok(
            RentAgreement {
                rent_id,
                landlord,
                tenant,
                monthly_rent,
                security_deposit,
                status: RentStatus::Created,
                months_paid: 0,
            },
        )
    }

    /// Whether `caller` is the party that holds `role` on this agreement.
    pub fn holds_role(&self, caller: &Identity, role: Role) -> (held: bool)
        ensures
            held == (caller@ == self@.party(role)),
    {
        match role {
            Role::Landlord => caller.same_as(&self.landlord),
            Role::Tenant => caller.same_as(&self.tenant),
        }
    }

    /// Whether this agreement is in `status`.
    pub fn in_status(&self, status: RentStatus) -> (there: bool)
        ensures
            there == (self@.status == status),
    {
        self.status == status
    }

    /// The tenant confirms the agreement: `Created` becomes `Active`.
    pub fn activate(self, caller: &Identity) -> (outcome: Result<RentAgreement, ContractError>)
        ensures
            outcome_view(outcome) == self@.apply(RentAction::Activate, caller@),
    {
        if !self.in_status(RentStatus::Created) {
            return Err(ContractError::InvalidState);
        }
        if !self.holds_role(caller, Role::Tenant) {
            return Err(ContractError::Unauthorized);
        }
        let mut next = self;
        next.status = RentStatus::Active;
        Ok(next)
    }

    /// The tenant logs the payment of one month's rent on an `Active`
    /// agreement. The counter must have room for the payment.
    pub fn pay_rent(self, caller: &Identity) -> (outcome: Result<RentAgreement, ContractError>)
        requires
            self@.apply(RentAction::PayRent, caller@) matches Ok(next)
                ==> next.months_paid <= u32::MAX,
        ensures
            outcome_view(outcome) == self@.apply(RentAction::PayRent, caller@),
    {
        if !self.in_status(RentStatus::Active) {
            return Err(ContractError::InvalidState);
        }
        if !self.holds_role(caller, Role::Tenant) {
            return Err(ContractError::Unauthorized);
        }
        let mut next = self;
        next.months_paid = next.months_paid + 1;
        Ok(next)
    }

    /// The landlord closes an `Active` agreement: it becomes `Completed`.
    pub fn complete(self, caller: &Identity) -> (outcome: Result<RentAgreement, ContractError>)
        ensures
            outcome_view(outcome) == self@.apply(RentAction::Complete, caller@),
    {
        if !self.holds_role(caller, Role::Landlord) {
            return Err(ContractError::Unauthorized);
        }
        if !self.in_status(RentStatus::Active) {
            return Err(ContractError::InvalidState);
        }
        let mut next = self;
        next.status = RentStatus::Completed;
        Ok(next)
    }

    /// The landlord withdraws an agreement that the tenant has not
    /// confirmed: `Created` becomes `Cancelled`.
    pub fn cancel(self, caller: &Identity) -> (outcome: Result<RentAgreement, ContractError>)
        ensures
            outcome_view(outcome) == self@.apply(RentAction::Cancel, caller@),
    {
        if !self.holds_role(caller, Role::Landlord) {
            return Err(ContractError::Unauthorized);
        }
        if !self.in_status(RentStatus::Created) {
            return Err(ContractError::InvalidState);
        }
        let mut next = self;
        next.status = RentStatus::Cancelled;
        Ok(next)
    }

    /// Runs `action` on behalf of `caller`. A payment needs room in the
    /// counter.
    pub fn apply(
        self,
        action: RentAction,
        caller: &Identity,
    ) -> (outcome: Result<RentAgreement, ContractError>)
        requires
            self@.apply(action, caller@) matches Ok(next) ==> next.months_paid <= u32::MAX,
        ensures
            outcome_view(outcome) == self@.apply(action, caller@),
    {
        match action {
            RentAction::Activate => self.activate(caller),
            RentAction::PayRent => self.pay_rent(caller),
            RentAction::Complete => self.complete(caller),
            RentAction::Cancel => self.cancel(caller),
        }
    }
}

impl Clone for RentAgreement {
    fn clone(&self) -> (copy: RentAgreement)
        ensures
            copy == *self,
    {
        RentAgreement {
            rent_id: self.rent_id,
            landlord: self.landlord.clone(),
            tenant: self.tenant.clone(),
            monthly_rent: self.monthly_rent,
            security_deposit: self.security_deposit,
            status: self.status,
            months_paid: self.months_paid,
        }
    }
}

impl PartialEq for RentAgreement {
    fn eq(&self, other: &RentAgreement) -> (same: bool) {
        self.rent_id == other.rent_id
            && self.landlord == other.landlord
            && self.tenant == other.tenant
            && self.monthly_rent == other.monthly_rent
            && self.security_deposit == other.security_deposit
            && self.status == other.status
            && self.months_paid == other.months_paid
    }
}

impl vstd::std_specs::cmp::PartialEqSpecImpl for RentAgreement {
    open spec fn obeys_eq_spec() -> bool {
        true
    }

    open spec fn eq_spec(&self, other: &RentAgreement) -> bool {
        self@ == other@
    }
}

} // verus!
