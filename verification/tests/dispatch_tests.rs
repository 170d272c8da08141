use deep_blue_fund::account::{AccountConstraint, AccountRef, InitRule, OwnerRule};
use deep_blue_fund::codec::{ArgValue, FieldType, encode_arguments};
use deep_blue_fund::dispatch::{HandlerKind, InstructionDescriptor, Registry, RegistryError};
use deep_blue_fund::errors::{CheckedValue, ConstraintKind, ProgramError, Violation};
use deep_blue_fund::program::{greet_registry, process_instruction};

fn test_id(byte: u8) -> Vec<u8> {
    vec![byte; 32]
}

// The first eight bytes of sha256("global:greet").
const GREET_DISCRIMINATOR: [u8; 8] = [203, 194, 3, 150, 228, 58, 181, 62];

fn unrelated_account() -> AccountRef {
    AccountRef {
        address: test_id(1),
        is_signer: false,
        is_writable: false,
        owner: test_id(0),
        data: vec![],
    }
}

#[test]
fn discriminator_is_derived_from_the_name() {
    let d = InstructionDescriptor::new(b"greet".to_vec(), vec![], vec![], HandlerKind::Greet);
    assert_eq!(d.discriminator, GREET_DISCRIMINATOR.to_vec());
    assert_eq!(d.name, b"greet".to_vec());
}

#[test]
fn distinct_names_get_distinct_discriminators() {
    let a = InstructionDescriptor::new(b"greet".to_vec(), vec![], vec![], HandlerKind::Greet);
    let b = InstructionDescriptor::new(b"other".to_vec(), vec![], vec![], HandlerKind::Greet);
    assert_eq!(a.discriminator.len(), 8);
    assert_eq!(b.discriminator.len(), 8);
    assert_ne!(a.discriminator, b.discriminator);
}

#[test]
fn valid_no_account_call_succeeds() {
    let reg = greet_registry(test_id(7));
    let payload = GREET_DISCRIMINATOR.to_vec();
    let r = reg.dispatch(&payload, vec![]);
    assert_eq!(r, Ok(()));
}

#[test]
fn entrypoint_returns_zero_on_success() {
    let payload = GREET_DISCRIMINATOR.to_vec();
    assert_eq!(process_instruction(test_id(7), &payload, vec![]), 0);
}

#[test]
fn wrong_account_count_rejected() {
    let reg = greet_registry(test_id(7));
    let payload = GREET_DISCRIMINATOR.to_vec();
    let r = reg.dispatch(&payload, vec![unrelated_account()]);
    assert_eq!(r, Err(ProgramError::AccountCountMismatch));
    assert_eq!(process_instruction(test_id(7), &payload, vec![unrelated_account()]), 3);
}

#[test]
fn unknown_discriminator_rejected() {
    let reg = greet_registry(test_id(7));
    // The first eight bytes of sha256("global:other"), which is not
    // registered; the trailing garbage after the prefix is never examined.
    let mut payload = vec![77u8, 235, 194, 27, 141, 47, 39, 195];
    payload.extend_from_slice(&[0xde, 0xad]);
    let r = reg.dispatch(&payload, vec![]);
    assert_eq!(r, Err(ProgramError::UnknownInstruction));
    assert_eq!(process_instruction(test_id(7), &payload, vec![]), 1);
}

#[test]
fn short_payload_matches_nothing() {
    let reg = greet_registry(test_id(7));
    let payload = vec![203u8, 194, 3];
    assert_eq!(reg.dispatch(&payload, vec![]), Err(ProgramError::UnknownInstruction));
    assert_eq!(reg.dispatch(&vec![], vec![]), Err(ProgramError::UnknownInstruction));
}

#[test]
fn trailing_payload_bytes_are_malformed_arguments() {
    let reg = greet_registry(test_id(7));
    // greet declares no arguments, so any byte after the discriminator is
    // rejected by the argument decoder.
    let mut payload = GREET_DISCRIMINATOR.to_vec();
    payload.push(0);
    let r = reg.dispatch(&payload, vec![]);
    assert_eq!(r, Err(ProgramError::MalformedArguments));
    assert_eq!(process_instruction(test_id(7), &payload, vec![]), 2);
}

#[test]
fn missing_signer_surfaces_through_dispatch() {
    let mut reg = Registry::new(test_id(7));
    let schema = vec![AccountConstraint {
        require_signer: true,
        require_writable: false,
        owner: OwnerRule::Unconstrained,
        seeds: None,
        init: InitRule::Unconstrained,
    }];
    let d = InstructionDescriptor::new(b"guarded".to_vec(), vec![], schema, HandlerKind::Greet);
    let disc = d.discriminator.clone();
    reg.register(d).unwrap();
    let r = reg.dispatch(&disc, vec![unrelated_account()]);
    assert_eq!(
        r,
        Err(ProgramError::ConstraintViolation(Violation {
            position: 0,
            kind: ConstraintKind::Signer,
            expected: CheckedValue::Flag(true),
            actual: CheckedValue::Flag(false),
        }))
    );
    // The same reference with the signer flag set is accepted.
    let mut signed = unrelated_account();
    signed.is_signer = true;
    assert_eq!(reg.dispatch(&disc, vec![signed]), Ok(()));
}

#[test]
fn arguments_decoded_against_matched_schema() {
    let mut reg = Registry::new(test_id(7));
    let d = InstructionDescriptor::new(
        b"configure".to_vec(),
        vec![FieldType::U32, FieldType::Bool],
        vec![],
        HandlerKind::Greet,
    );
    let disc = d.discriminator.clone();
    reg.register(d).unwrap();

    let mut good = disc.clone();
    good.extend_from_slice(&encode_arguments(&vec![ArgValue::U32(77), ArgValue::Bool(true)]));
    assert_eq!(reg.dispatch(&good, vec![]), Ok(()));

    let mut truncated = disc.clone();
    truncated.extend_from_slice(&[1, 2, 3]);
    assert_eq!(reg.dispatch(&truncated, vec![]), Err(ProgramError::MalformedArguments));
}

#[test]
fn handler_failure_code_passed_through() {
    let mut reg = Registry::new(test_id(7));
    let d = InstructionDescriptor::new(
        b"doomed".to_vec(),
        vec![],
        vec![],
        HandlerKind::AlwaysFail(42),
    );
    let disc = d.discriminator.clone();
    reg.register(d).unwrap();
    let r = reg.dispatch(&disc, vec![]);
    assert_eq!(r, Err(ProgramError::HandlerError(42)));
    assert_eq!(ProgramError::HandlerError(42).status_code(), 5);
}

#[test]
fn duplicate_discriminator_rejected_at_registration() {
    let mut reg = greet_registry(test_id(7));
    let again = InstructionDescriptor::new(b"greet".to_vec(), vec![], vec![], HandlerKind::Greet);
    assert_eq!(reg.register(again), Err(RegistryError::DuplicateDiscriminator));
    // The registry is unchanged and still dispatches the original entry.
    assert_eq!(reg.dispatch(&GREET_DISCRIMINATOR.to_vec(), vec![]), Ok(()));
}

#[test]
fn multiple_instructions_route_by_discriminator() {
    let mut reg = greet_registry(test_id(7));
    let fail = InstructionDescriptor::new(
        b"doomed".to_vec(),
        vec![],
        vec![],
        HandlerKind::AlwaysFail(7),
    );
    let fail_disc = fail.discriminator.clone();
    reg.register(fail).unwrap();
    assert_eq!(reg.dispatch(&GREET_DISCRIMINATOR.to_vec(), vec![]), Ok(()));
    assert_eq!(reg.dispatch(&fail_disc, vec![]), Err(ProgramError::HandlerError(7)));
}

#[test]
fn status_codes_are_stable() {
    assert_eq!(ProgramError::UnknownInstruction.status_code(), 1);
    assert_eq!(ProgramError::MalformedArguments.status_code(), 2);
    assert_eq!(ProgramError::AccountCountMismatch.status_code(), 3);
    assert_eq!(
        ProgramError::ConstraintViolation(Violation {
            position: 0,
            kind: ConstraintKind::Signer,
            expected: CheckedValue::Flag(true),
            actual: CheckedValue::Flag(false),
        })
        .status_code(),
        4
    );
    assert_eq!(ProgramError::HandlerError(9).status_code(), 5);
}
