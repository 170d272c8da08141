//! The closed error surface returned to the caller, with its spec-level
//! models and stable numeric status codes.

use vstd::prelude::*;

verus! {

/// Which kind of account constraint was violated, in the fixed per-slot
/// checking order: signer, writable, ownership, derived address,
/// initialization.
#[derive(Clone, Copy, Debug, PartialEq, Eq, Structural)]
pub enum ConstraintKind {
    Signer,
    Writable,
    Ownership,
    DerivedAddress,
    Initialization,
}

/// An expected or actual value reported with a constraint violation: a
/// boolean flag, an address, or the marker that no address could be derived
/// from the declared seeds.
#[derive(Clone, Debug, PartialEq, Eq)]
pub enum CheckedValue {
    Flag(bool),
    Address(Vec<u8>),
    Underivable,
}

/// Spec-level model of a [`CheckedValue`].
pub enum ValueModel {
    Flag(bool),
    Address(Seq<u8>),
    Underivable,
}

impl View for CheckedValue {
    type V = ValueModel;

    open spec fn view(&self) -> ValueModel {
        match self {
            CheckedValue::Flag(b) => ValueModel::Flag(*b),
            CheckedValue::Address(a) => ValueModel::Address(a@),
            CheckedValue::Underivable => ValueModel::Underivable,
        }
    }
}

/// One violated account constraint: where it was found, which kind of check
/// failed, and what was expected against what was supplied.
#[derive(Clone, Debug, PartialEq, Eq)]
pub struct Violation {
    pub position: usize,
    pub kind: ConstraintKind,
    pub expected: CheckedValue,
    pub actual: CheckedValue,
}

/// Spec-level model of a [`Violation`].
#[verifier::ext_equal]
pub struct ViolationModel {
    pub position: int,
    pub kind: ConstraintKind,
    pub expected: ValueModel,
    pub actual: ValueModel,
}

impl View for Violation {
    type V = ViolationModel;

    open spec fn view(&self) -> ViolationModel {
        ViolationModel {
            position: self.position as int,
            kind: self.kind,
            expected: self.expected@,
            actual: self.actual@,
        }
    }
}

/// The closed set of failures a call can surface. Nothing else is ever
/// returned; nothing is retried internally.
#[derive(Clone, Debug, PartialEq, Eq)]
pub enum ProgramError {
    /// The payload's discriminator matched no registered descriptor.
    UnknownInstruction,
    /// The argument bytes did not decode against the matched schema.
    MalformedArguments,
    /// The wrong number of accounts was supplied.
    AccountCountMismatch,
    /// A specific account constraint failed.
    ConstraintViolation(Violation),
    /// The invoked handler's own domain-specific failure, passed through
    /// unchanged.
    HandlerError(u64),
}

/// Spec-level model of a [`ProgramError`].
pub enum ErrorModel {
    UnknownInstruction,
    MalformedArguments,
    AccountCountMismatch,
    ConstraintViolation(ViolationModel),
    HandlerError(u64),
}

impl View for ProgramError {
    type V = ErrorModel;

    open spec fn view(&self) -> ErrorModel {
        match self {
            ProgramError::UnknownInstruction => ErrorModel::UnknownInstruction,
            ProgramError::MalformedArguments => ErrorModel::MalformedArguments,
            ProgramError::AccountCountMismatch => ErrorModel::AccountCountMismatch,
            ProgramError::ConstraintViolation(v) => ErrorModel::ConstraintViolation(v@),
            ProgramError::HandlerError(c) => ErrorModel::HandlerError(*c),
        }
    }
}

/// The stable numeric code of each error class, for the host runtime and
/// client tooling; 0 is reserved for success.
pub open spec fn status_code_of(e: ErrorModel) -> u64 {
    match e {
        ErrorModel::UnknownInstruction => 1,
        ErrorModel::MalformedArguments => 2,
        ErrorModel::AccountCountMismatch => 3,
        ErrorModel::ConstraintViolation(_) => 4,
        ErrorModel::HandlerError(_) => 5,
    }
}

impl ProgramError {
    /// The stable numeric code of this error's class.
    pub fn status_code(&self) -> (r: u64)
        ensures
            r == status_code_of(self@),
    {
        match self {
            ProgramError::UnknownInstruction => 1,
            ProgramError::MalformedArguments => 2,
            ProgramError::AccountCountMismatch => 3,
            ProgramError::ConstraintViolation(_) => 4,
            ProgramError::HandlerError(_) => 5,
        }
    }
}

} // verus!
