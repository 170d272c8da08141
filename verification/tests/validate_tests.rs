use deep_blue_fund::account::{AccountConstraint, AccountRef, InitRule, OwnerRule};
use deep_blue_fund::errors::{CheckedValue, ConstraintKind, ProgramError, Violation};
use deep_blue_fund::validate::validate;

fn test_id(byte: u8) -> Vec<u8> {
    vec![byte; 32]
}

fn free_account(address_byte: u8) -> AccountRef {
    AccountRef {
        address: test_id(address_byte),
        is_signer: false,
        is_writable: false,
        owner: test_id(0),
        data: vec![],
    }
}

fn open_constraint() -> AccountConstraint {
    AccountConstraint {
        require_signer: false,
        require_writable: false,
        owner: OwnerRule::Unconstrained,
        seeds: None,
        init: InitRule::Unconstrained,
    }
}

#[test]
fn count_mismatch_checked_before_slots() {
    let program_id = test_id(7);
    // The sole declared slot would itself be violated, but the count check
    // comes first.
    let schema = vec![AccountConstraint { require_signer: true, ..open_constraint() }];
    let supplied = vec![free_account(1), free_account(2)];
    let r = validate(&program_id, &schema, supplied);
    assert_eq!(r.unwrap_err(), ProgramError::AccountCountMismatch);
}

#[test]
fn empty_schema_accepts_empty_list() {
    let program_id = test_id(7);
    let schema: Vec<AccountConstraint> = vec![];
    let ctx = validate(&program_id, &schema, vec![]).unwrap();
    assert!(ctx.accounts.is_empty());
}

#[test]
fn context_preserves_supplied_order() {
    let program_id = test_id(7);
    let schema = vec![open_constraint(), open_constraint()];
    let a = free_account(1);
    let b = free_account(2);
    let ctx = validate(&program_id, &schema, vec![a.clone(), b.clone()]).unwrap();
    assert_eq!(ctx.accounts, vec![a, b]);
}

#[test]
fn missing_signer_reported_at_position() {
    let program_id = test_id(7);
    let schema = vec![AccountConstraint { require_signer: true, ..open_constraint() }];
    let supplied = vec![free_account(1)];
    let r = validate(&program_id, &schema, supplied);
    assert_eq!(
        r.unwrap_err(),
        ProgramError::ConstraintViolation(Violation {
            position: 0,
            kind: ConstraintKind::Signer,
            expected: CheckedValue::Flag(true),
            actual: CheckedValue::Flag(false),
        })
    );
}

#[test]
fn signer_checked_before_writable_in_a_slot() {
    let program_id = test_id(7);
    // The account fails both the signer and the writable requirement; the
    // signer check comes first in the fixed per-slot order.
    let schema = vec![AccountConstraint {
        require_signer: true,
        require_writable: true,
        ..open_constraint()
    }];
    let supplied = vec![free_account(1)];
    let r = validate(&program_id, &schema, supplied);
    match r.unwrap_err() {
        ProgramError::ConstraintViolation(v) => {
            assert_eq!(v.kind, ConstraintKind::Signer);
            assert_eq!(v.position, 0);
        }
        other => panic!("expected a constraint violation, got {:?}", other),
    }
}

#[test]
fn first_failing_slot_wins() {
    let program_id = test_id(7);
    let schema = vec![
        open_constraint(),
        AccountConstraint { require_writable: true, ..open_constraint() },
        AccountConstraint { require_signer: true, ..open_constraint() },
    ];
    let supplied = vec![free_account(1), free_account(2), free_account(3)];
    let r = validate(&program_id, &schema, supplied);
    match r.unwrap_err() {
        ProgramError::ConstraintViolation(v) => {
            assert_eq!(v.position, 1);
            assert_eq!(v.kind, ConstraintKind::Writable);
        }
        other => panic!("expected a constraint violation, got {:?}", other),
    }
}

#[test]
fn ownership_by_this_program_enforced() {
    let program_id = test_id(7);
    let schema = vec![AccountConstraint { owner: OwnerRule::ThisProgram, ..open_constraint() }];
    let mut stranger = free_account(1);
    stranger.owner = test_id(9);
    let r = validate(&program_id, &schema, vec![stranger]);
    assert_eq!(
        r.unwrap_err(),
        ProgramError::ConstraintViolation(Violation {
            position: 0,
            kind: ConstraintKind::Ownership,
            expected: CheckedValue::Address(test_id(7)),
            actual: CheckedValue::Address(test_id(9)),
        })
    );
}

#[test]
fn ownership_by_other_program_enforced() {
    let program_id = test_id(7);
    let schema = vec![AccountConstraint {
        owner: OwnerRule::OtherProgram(test_id(5)),
        ..open_constraint()
    }];
    let mut owned = free_account(1);
    owned.owner = test_id(5);
    assert!(validate(&program_id, &schema, vec![owned]).is_ok());
    let r = validate(&program_id, &schema, vec![free_account(1)]);
    match r.unwrap_err() {
        ProgramError::ConstraintViolation(v) => assert_eq!(v.kind, ConstraintKind::Ownership),
        other => panic!("expected a constraint violation, got {:?}", other),
    }
}

#[test]
fn derived_address_must_match_and_is_deterministic() {
    let program_id = test_id(7);
    let seeds = vec![b"vault".to_vec(), vec![1u8, 2, 3]];
    let schema = vec![AccountConstraint { seeds: Some(seeds), ..open_constraint() }];
    // A wrong address is rejected, and the violation names the expected
    // derived address.
    let r = validate(&program_id, &schema, vec![free_account(1)]);
    let derived = match r.unwrap_err() {
        ProgramError::ConstraintViolation(v) => {
            assert_eq!(v.position, 0);
            assert_eq!(v.kind, ConstraintKind::DerivedAddress);
            assert_eq!(v.actual, CheckedValue::Address(test_id(1)));
            match v.expected {
                CheckedValue::Address(d) => d,
                other => panic!("expected a derived address, got {:?}", other),
            }
        }
        other => panic!("expected a constraint violation, got {:?}", other),
    };
    // The derivation is not the seed bytes themselves.
    assert_eq!(derived.len(), 32);
    assert_ne!(derived, b"vault".to_vec());
    // An account carrying the derived address is accepted, and a second run
    // derives the same address.
    let mut pda_account = free_account(1);
    pda_account.address = derived.clone();
    let ctx = validate(&program_id, &schema, vec![pda_account]).unwrap();
    assert_eq!(ctx.accounts[0].address, derived);
}

#[test]
fn distinct_seed_sets_derive_distinct_addresses() {
    let program_id = test_id(7);
    let schema_a = vec![AccountConstraint {
        seeds: Some(vec![b"alpha".to_vec()]),
        ..open_constraint()
    }];
    let schema_b = vec![AccountConstraint {
        seeds: Some(vec![b"beta".to_vec()]),
        ..open_constraint()
    }];
    let derived_of = |schema: &Vec<AccountConstraint>| -> Vec<u8> {
        match validate(&program_id, schema, vec![free_account(1)]).unwrap_err() {
            ProgramError::ConstraintViolation(Violation {
                expected: CheckedValue::Address(d),
                ..
            }) => d,
            other => panic!("expected a derived-address violation, got {:?}", other),
        }
    };
    let da = derived_of(&schema_a);
    let db = derived_of(&schema_b);
    assert_ne!(da, db);
    // An address accepted for one seed set is rejected for the other.
    let mut account_a = free_account(1);
    account_a.address = da;
    assert!(validate(&program_id, &schema_a, vec![account_a.clone()]).is_ok());
    assert!(validate(&program_id, &schema_b, vec![account_a]).is_err());
}

#[test]
fn initialization_rules_enforced() {
    let program_id = test_id(7);
    let must_exist = vec![AccountConstraint { init: InitRule::Initialized, ..open_constraint() }];
    let must_be_fresh = vec![AccountConstraint {
        init: InitRule::Uninitialized,
        ..open_constraint()
    }];
    let empty = free_account(1);
    let mut filled = free_account(1);
    filled.data = vec![0xaa, 0xbb];

    let r = validate(&program_id, &must_exist, vec![empty.clone()]);
    assert_eq!(
        r.unwrap_err(),
        ProgramError::ConstraintViolation(Violation {
            position: 0,
            kind: ConstraintKind::Initialization,
            expected: CheckedValue::Flag(true),
            actual: CheckedValue::Flag(false),
        })
    );
    assert!(validate(&program_id, &must_exist, vec![filled.clone()]).is_ok());

    let r = validate(&program_id, &must_be_fresh, vec![filled]);
    assert_eq!(
        r.unwrap_err(),
        ProgramError::ConstraintViolation(Violation {
            position: 0,
            kind: ConstraintKind::Initialization,
            expected: CheckedValue::Flag(false),
            actual: CheckedValue::Flag(true),
        })
    );
    assert!(validate(&program_id, &must_be_fresh, vec![empty]).is_ok());
}
