use safe_rent::agreement::{RentAction, RentAgreement, RentStatus, Role};
use safe_rent::error::ContractError;
use safe_rent::identity::Identity;

fn agreement(status: RentStatus, months_paid: u32) -> RentAgreement {
    RentAgreement {
        rent_id: 11,
        landlord: Identity::new("landlord"),
        tenant: Identity::new("tenant"),
        monthly_rent: 900,
        security_deposit: 0,
        status,
        months_paid,
    }
}

#[test]
fn new_agreement_starts_created_with_no_month_paid() {
    let made = RentAgreement::create(
        11,
        Identity::new("landlord"),
        Identity::new("tenant"),
        900,
        0,
    );
    assert_eq!(made, Ok(agreement(RentStatus::Created, 0)));
}

#[test]
fn new_agreement_needs_a_positive_rent() {
    let made = RentAgreement::create(11, Identity::new("l"), Identity::new("t"), 0, 5);
    assert_eq!(made, Err(ContractError::InvalidAmount));
    let made = RentAgreement::create(11, Identity::new("l"), Identity::new("t"), i128::MIN, 5);
    assert_eq!(made, Err(ContractError::InvalidAmount));
    let made = RentAgreement::create(11, Identity::new("l"), Identity::new("t"), 1, 0);
    assert!(made.is_ok());
}

#[test]
fn new_agreement_needs_a_deposit_that_is_not_negative() {
    let made = RentAgreement::create(11, Identity::new("l"), Identity::new("t"), 1, -1);
    assert_eq!(made, Err(ContractError::InvalidAmount));
}

#[test]
fn holds_role_compares_the_caller_with_the_party() {
    let record = agreement(RentStatus::Created, 0);
    assert!(record.holds_role(&Identity::new("landlord"), Role::Landlord));
    assert!(!record.holds_role(&Identity::new("landlord"), Role::Tenant));
    assert!(record.holds_role(&Identity::new("tenant"), Role::Tenant));
    assert!(!record.holds_role(&Identity::new("tenant"), Role::Landlord));
    assert!(!record.holds_role(&Identity::new("Tenant"), Role::Tenant));
    assert!(!record.holds_role(&Identity::new(""), Role::Tenant));
}

#[test]
fn in_status_tells_the_status() {
    let record = agreement(RentStatus::Active, 0);
    assert!(record.in_status(RentStatus::Active));
    assert!(!record.in_status(RentStatus::Created));
    assert!(!record.in_status(RentStatus::Completed));
    assert!(!record.in_status(RentStatus::Cancelled));
}

#[test]
fn each_action_follows_its_edge() {
    let tenant = Identity::new("tenant");
    let landlord = Identity::new("landlord");
    assert_eq!(
        agreement(RentStatus::Created, 0).apply(RentAction::Activate, &tenant),
        Ok(agreement(RentStatus::Active, 0))
    );
    assert_eq!(
        agreement(RentStatus::Active, 4).apply(RentAction::PayRent, &tenant),
        Ok(agreement(RentStatus::Active, 5))
    );
    assert_eq!(
        agreement(RentStatus::Active, 4).apply(RentAction::Complete, &landlord),
        Ok(agreement(RentStatus::Completed, 4))
    );
    assert_eq!(
        agreement(RentStatus::Created, 0).apply(RentAction::Cancel, &landlord),
        Ok(agreement(RentStatus::Cancelled, 0))
    );
}

#[test]
fn the_named_transitions_agree_with_apply() {
    let tenant = Identity::new("tenant");
    let landlord = Identity::new("landlord");
    assert_eq!(
        agreement(RentStatus::Created, 0).activate(&tenant),
        Ok(agreement(RentStatus::Active, 0))
    );
    assert_eq!(
        agreement(RentStatus::Active, 0).pay_rent(&tenant),
        Ok(agreement(RentStatus::Active, 1))
    );
    assert_eq!(
        agreement(RentStatus::Active, 1).complete(&landlord),
        Ok(agreement(RentStatus::Completed, 1))
    );
    assert_eq!(
        agreement(RentStatus::Created, 0).cancel(&landlord),
        Ok(agreement(RentStatus::Cancelled, 0))
    );
}

#[test]
fn every_action_is_refused_off_its_edge() {
    let tenant = Identity::new("tenant");
    let landlord = Identity::new("landlord");
    let all = [
        RentStatus::Created,
        RentStatus::Active,
        RentStatus::Completed,
        RentStatus::Cancelled,
    ];
    for status in all {
        if status != RentStatus::Created {
            assert_eq!(
                agreement(status, 0).apply(RentAction::Activate, &tenant),
                Err(ContractError::InvalidState)
            );
            assert_eq!(
                agreement(status, 0).apply(RentAction::Cancel, &landlord),
                Err(ContractError::InvalidState)
            );
        }
        if status != RentStatus::Active {
            assert_eq!(
                agreement(status, 0).apply(RentAction::PayRent, &tenant),
                Err(ContractError::InvalidState)
            );
            assert_eq!(
                agreement(status, 0).apply(RentAction::Complete, &landlord),
                Err(ContractError::InvalidState)
            );
        }
    }
}

#[test]
fn the_tenant_is_tested_after_the_status_and_the_landlord_before() {
    let tenant = Identity::new("tenant");
    let landlord = Identity::new("landlord");
    assert_eq!(
        agreement(RentStatus::Completed, 0).apply(RentAction::Activate, &landlord),
        Err(ContractError::InvalidState)
    );
    assert_eq!(
        agreement(RentStatus::Created, 0).apply(RentAction::PayRent, &landlord),
        Err(ContractError::InvalidState)
    );
    assert_eq!(
        agreement(RentStatus::Created, 0).apply(RentAction::Complete, &tenant),
        Err(ContractError::Unauthorized)
    );
    assert_eq!(
        agreement(RentStatus::Active, 0).apply(RentAction::Cancel, &tenant),
        Err(ContractError::Unauthorized)
    );
    assert_eq!(
        agreement(RentStatus::Created, 0).apply(RentAction::Activate, &landlord),
        Err(ContractError::Unauthorized)
    );
    assert_eq!(
        agreement(RentStatus::Active, 0).apply(RentAction::PayRent, &landlord),
        Err(ContractError::Unauthorized)
    );
}

#[test]
fn the_counter_reaches_its_largest_value() {
    let tenant = Identity::new("tenant");
    assert_eq!(
        agreement(RentStatus::Active, u32::MAX - 1).pay_rent(&tenant),
        Ok(agreement(RentStatus::Active, u32::MAX))
    );
}

#[test]
fn a_clone_keeps_every_field() {
    let record = agreement(RentStatus::Active, 3);
    assert_eq!(record.clone(), record);
    assert_ne!(record, agreement(RentStatus::Active, 4));
    assert_ne!(record, agreement(RentStatus::Completed, 3));
}

#[test]
fn identities_compare_by_name() {
    let alice = Identity::new("alice");
    assert!(alice.same_as(&Identity::new("alice")));
    assert!(!alice.same_as(&Identity::new("bob")));
    assert!(!alice.same_as(&Identity::new("alice ")));
    assert_eq!(alice.name(), "alice");
    assert_eq!(alice.clone(), alice);
    assert_ne!(alice, Identity::new("bob"));
}
