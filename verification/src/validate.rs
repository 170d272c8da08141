//! The account-context validator: checks an untrusted supplied account list
//! against a declared schema, slot by slot, failing fast with the first
//! violated constraint.

use vstd::prelude::*;
use crate::account::{
    AccountConstraint, AccountModel, AccountRef, ConstraintModel, InitRule, OwnerRuleModel,
    OwnerRule, account_models, constraint_models,
};
use crate::bytes::{bytes_eq, copy_bytes};
use crate::errors::{
    CheckedValue, ConstraintKind, ErrorModel, ProgramError, ValueModel, Violation, ViolationModel,
};
use crate::pda::{derived_address_of, find_derived_address};

verus! {

/// The owner an account in a slot must have, if any.
pub open spec fn expected_owner(program_id: Seq<u8>, rule: OwnerRuleModel) -> Option<Seq<u8>> {
    match rule {
        OwnerRuleModel::Unconstrained => Option::None,
        OwnerRuleModel::ThisProgram => Option::Some(program_id),
        OwnerRuleModel::OtherProgram(p) => Option::Some(p),
    }
}

/// Whether an account counts as initialized: it holds data.
pub open spec fn account_initialized(a: AccountModel) -> bool {
    a.data.len() > 0
}

/// The first constraint violated by account `a` against constraint `c` in
/// slot `position`, checked in the fixed order signer, writable, ownership,
/// derived address, initialization; nothing when every check passes.
pub open spec fn slot_violation(
    program_id: Seq<u8>,
    c: ConstraintModel,
    a: AccountModel,
    position: int,
) -> Option<ViolationModel> {
    if c.require_signer && !a.is_signer {
        Option::Some(
            ViolationModel {
                position,
                kind: ConstraintKind::Signer,
                expected: ValueModel::Flag(true),
                actual: ValueModel::Flag(false),
            },
        )
    } else if c.require_writable && !a.is_writable {
        Option::Some(
            ViolationModel {
                position,
                kind: ConstraintKind::Writable,
                expected: ValueModel::Flag(true),
                actual: ValueModel::Flag(false),
            },
        )
    } else if expected_owner(program_id, c.owner) matches Option::Some(want) && a.owner != want {
        Option::Some(
            ViolationModel {
                position,
                kind: ConstraintKind::Ownership,
                expected: ValueModel::Address(expected_owner(program_id, c.owner)->0),
                actual: ValueModel::Address(a.owner),
            },
        )
    } else if c.seeds matches Option::Some(seeds) && derived_address_of(seeds, program_id)
        is None {
        Option::Some(
            ViolationModel {
                position,
                kind: ConstraintKind::DerivedAddress,
                expected: ValueModel::Underivable,
                actual: ValueModel::Address(a.address),
            },
        )
    } else if c.seeds matches Option::Some(seeds) && a.address != derived_address_of(
        seeds,
        program_id,
    )->0 {
        Option::Some(
            ViolationModel {
                position,
                kind: ConstraintKind::DerivedAddress,
                expected: ValueModel::Address(derived_address_of(c.seeds->0, program_id)->0),
                actual: ValueModel::Address(a.address),
            },
        )
    } else if c.init == InitRule::Initialized && !account_initialized(a) {
        Option::Some(
            ViolationModel {
                position,
                kind: ConstraintKind::Initialization,
                expected: ValueModel::Flag(true),
                actual: ValueModel::Flag(false),
            },
        )
    } else if c.init == InitRule::Uninitialized && account_initialized(a) {
        Option::Some(
            ViolationModel {
                position,
                kind: ConstraintKind::Initialization,
                expected: ValueModel::Flag(false),
                actual: ValueModel::Flag(true),
            },
        )
    } else {
        Option::None
    }
}

/// The first violation at or after slot `i`, scanning slots in order.
pub open spec fn first_violation_from(
    program_id: Seq<u8>,
    schema: Seq<ConstraintModel>,
    accounts: Seq<AccountModel>,
    i: int,
) -> Option<ViolationModel>
    decreases schema.len() - i,
{
    if i < 0 || i >= schema.len() {
        Option::None
    } else {
        match slot_violation(program_id, schema[i], accounts[i], i) {
            Option::Some(v) => Option::Some(v),
            Option::None => first_violation_from(program_id, schema, accounts, i + 1),
        }
    }
}

/// The first violation over all slots.
pub open spec fn first_violation(
    program_id: Seq<u8>,
    schema: Seq<ConstraintModel>,
    accounts: Seq<AccountModel>,
) -> Option<ViolationModel> {
    first_violation_from(program_id, schema, accounts, 0)
}

/// What the validator returns: the count check first, then the first
/// violated constraint in slot order, else success.
pub open spec fn validate_spec(
    program_id: Seq<u8>,
    schema: Seq<ConstraintModel>,
    accounts: Seq<AccountModel>,
) -> Result<(), ErrorModel> {
    if accounts.len() != schema.len() {
        Result::Err(ErrorModel::AccountCountMismatch)
    } else {
        match first_violation(program_id, schema, accounts) {
            Option::Some(v) => Result::Err(ErrorModel::ConstraintViolation(v)),
            Option::None => Result::Ok(()),
        }
    }
}

/// The validator's output on success: the supplied references, in order,
/// each checked against its declared slot.
#[derive(Debug)]
pub struct ValidatedContext {
    pub accounts: Vec<AccountRef>,
}

/// Checks one slot; returns the first violated constraint, if any.
fn check_slot(program_id: &Vec<u8>, c: &AccountConstraint, a: &AccountRef, position: usize) -> (r:
    Option<Violation>)
    requires
        program_id@.len() == 32,
    ensures
        match r {
            Option::Some(v) => slot_violation(program_id@, c@, a@, position as int)
                == Option::Some(v@),
            Option::None => slot_violation(program_id@, c@, a@, position as int) is None,
        },
{
    if c.require_signer && !a.is_signer {
        return Option::Some(
            Violation {
                position,
                kind: ConstraintKind::Signer,
                expected: CheckedValue::Flag(true),
                actual: CheckedValue::Flag(false),
            },
        );
    }
    if c.require_writable && !a.is_writable {
        return Option::Some(
            Violation {
                position,
                kind: ConstraintKind::Writable,
                expected: CheckedValue::Flag(true),
                actual: CheckedValue::Flag(false),
            },
        );
    }
    match &c.owner {
        OwnerRule::Unconstrained => {},
        OwnerRule::ThisProgram => {
            if !bytes_eq(&a.owner, program_id) {
                return Option::Some(
                    Violation {
                        position,
                        kind: ConstraintKind::Ownership,
                        expected: CheckedValue::Address(copy_bytes(program_id)),
                        actual: CheckedValue::Address(copy_bytes(&a.owner)),
                    },
                );
            }
        },
        OwnerRule::OtherProgram(p) => {
            if !bytes_eq(&a.owner, p) {
                return Option::Some(
                    Violation {
                        position,
                        kind: ConstraintKind::Ownership,
                        expected: CheckedValue::Address(copy_bytes(p)),
                        actual: CheckedValue::Address(copy_bytes(&a.owner)),
                    },
                );
            }
        },
    }
    match &c.seeds {
        Option::None => {},
        Option::Some(seeds) => {
            match find_derived_address(seeds, program_id) {
                Option::None => {
                    return Option::Some(
                        Violation {
                            position,
                            kind: ConstraintKind::DerivedAddress,
                            expected: CheckedValue::Underivable,
                            actual: CheckedValue::Address(copy_bytes(&a.address)),
                        },
                    );
                },
                Option::Some(derived) => {
                    if !bytes_eq(&a.address, &derived) {
                        return Option::Some(
                            Violation {
                                position,
                                kind: ConstraintKind::DerivedAddress,
                                expected: CheckedValue::Address(derived),
                                actual: CheckedValue::Address(copy_bytes(&a.address)),
                            },
                        );
                    }
                },
            }
        },
    }
    match c.init {
        InitRule::Unconstrained => {},
        InitRule::Initialized => {
            if a.data.len() == 0 {
                return Option::Some(
                    Violation {
                        position,
                        kind: ConstraintKind::Initialization,
                        expected: CheckedValue::Flag(true),
                        actual: CheckedValue::Flag(false),
                    },
                );
            }
        },
        InitRule::Uninitialized => {
            if a.data.len() > 0 {
                return Option::Some(
                    Violation {
                        position,
                        kind: ConstraintKind::Initialization,
                        expected: CheckedValue::Flag(false),
                        actual: CheckedValue::Flag(true),
                    },
                );
            }
        },
    }
    Option::None
}

/// Validates the supplied account list against the declared schema under the
/// given program identity. Fails with `AccountCountMismatch` on a length
/// mismatch before any per-slot check; otherwise fails fast with the first
/// violated constraint in slot order; on success returns the supplied
/// references unchanged and in order.
pub fn validate(program_id: &Vec<u8>, schema: &Vec<AccountConstraint>, supplied: Vec<AccountRef>)
    -> (r: Result<ValidatedContext, ProgramError>)
    requires
        program_id@.len() == 32,
    ensures
        match r {
            Result::Ok(ctx) => validate_spec(
                program_id@,
                constraint_models(schema@),
                account_models(supplied@),
            ) is Ok && ctx.accounts == supplied,
            Result::Err(e) => validate_spec(
                program_id@,
                constraint_models(schema@),
                account_models(supplied@),
            ) == Result::Err::<(), ErrorModel>(e@),
        },
{
    let ghost gschema = constraint_models(schema@);
    let ghost gaccounts = account_models(supplied@);
    if supplied.len() != schema.len() {
        return Result::Err(ProgramError::AccountCountMismatch);
    }
    let mut i: usize = 0;
    while i < schema.len()
        invariant
            program_id@.len() == 32,
            0 <= i <= schema@.len(),
            supplied@.len() == schema@.len(),
            gschema == constraint_models(schema@),
            gaccounts == account_models(supplied@),
            first_violation(program_id@, gschema, gaccounts) == first_violation_from(
                program_id@,
                gschema,
                gaccounts,
                i as int,
            ),
        decreases schema@.len() - i,
    {
        assert(gschema[i as int] == schema@[i as int]@);
        assert(gaccounts[i as int] == supplied@[i as int]@);
        match check_slot(program_id, &schema[i], &supplied[i], i) {
            Option::Some(v) => {
                return Result::Err(ProgramError::ConstraintViolation(v));
            },
            Option::None => {},
        }
        i += 1;
    }
    Result::Ok(ValidatedContext { accounts: supplied })
}

/// Law: a supplied list of the wrong length is rejected with
/// `AccountCountMismatch`, before any per-slot constraint is checked.
pub proof fn lemma_count_mismatch_rejected(
    program_id: Seq<u8>,
    schema: Seq<ConstraintModel>,
    accounts: Seq<AccountModel>,
)
    requires
        accounts.len() != schema.len(),
    ensures
        validate_spec(program_id, schema, accounts) == Result::Err::<(), ErrorModel>(
            ErrorModel::AccountCountMismatch,
        ),
{
}

/// When every slot before `k` passes, the scan's outcome is the scan's
/// outcome from `k` on.
proof fn lemma_first_violation_skips_clean_prefix(
    program_id: Seq<u8>,
    schema: Seq<ConstraintModel>,
    accounts: Seq<AccountModel>,
    k: int,
)
    requires
        0 <= k <= schema.len(),
        forall|j: int| 0 <= j < k ==> slot_violation(program_id, schema[j], accounts[j], j)
            is None,
    ensures
        first_violation(program_id, schema, accounts) == first_violation_from(
            program_id,
            schema,
            accounts,
            k,
        ),
    decreases k,
{
    if k > 0 {
        lemma_first_violation_skips_clean_prefix(program_id, schema, accounts, k - 1);
    }
}

/// A scan that finds nothing from `k` on found every later slot clean.
proof fn lemma_clean_scan_means_clean_slots(
    program_id: Seq<u8>,
    schema: Seq<ConstraintModel>,
    accounts: Seq<AccountModel>,
    k: int,
)
    requires
        0 <= k <= schema.len(),
        first_violation_from(program_id, schema, accounts, k) is None,
    ensures
        forall|j: int| k <= j < schema.len() ==> slot_violation(
            program_id,
            schema[j],
            accounts[j],
            j,
        ) is None,
    decreases schema.len() - k,
{
    if k < schema.len() {
        lemma_clean_scan_means_clean_slots(program_id, schema, accounts, k + 1);
    }
}

/// Law: a context the validator accepts satisfies, by construction, every
/// declared constraint at every slot.
pub proof fn lemma_accepted_context_satisfies_schema(
    program_id: Seq<u8>,
    schema: Seq<ConstraintModel>,
    accounts: Seq<AccountModel>,
)
    requires
        validate_spec(program_id, schema, accounts) is Ok,
    ensures
        accounts.len() == schema.len(),
        forall|i: int| 0 <= i < schema.len() ==> slot_violation(
            program_id,
            schema[i],
            accounts[i],
            i,
        ) is None,
{
    lemma_clean_scan_means_clean_slots(program_id, schema, accounts, 0);
}

/// Law: a slot that requires a signer rejects an unsigned reference at that
/// slot with a signer violation, whatever stands in the later slots, as long
/// as the earlier slots pass (the scan fails fast at the first bad slot, and
/// within a slot the signer flag is checked before every other constraint).
pub proof fn lemma_missing_signer_rejected(
    program_id: Seq<u8>,
    schema: Seq<ConstraintModel>,
    accounts: Seq<AccountModel>,
    i: int,
)
    requires
        accounts.len() == schema.len(),
        0 <= i < schema.len(),
        forall|j: int| 0 <= j < i ==> slot_violation(program_id, schema[j], accounts[j], j)
            is None,
        schema[i].require_signer,
        !accounts[i].is_signer,
    ensures
        validate_spec(program_id, schema, accounts) == Result::Err::<(), ErrorModel>(
            ErrorModel::ConstraintViolation(
                ViolationModel {
                    position: i,
                    kind: ConstraintKind::Signer,
                    expected: ValueModel::Flag(true),
                    actual: ValueModel::Flag(false),
                },
            ),
        ),
{
    lemma_first_violation_skips_clean_prefix(program_id, schema, accounts, i);
}

/// Law: acceptance of a derived-address constraint is deterministic — any
/// two account references accepted for the same seed set under the same
/// program identity carry the same address.
pub proof fn lemma_derivation_deterministic(
    program_id: Seq<u8>,
    c: ConstraintModel,
    a1: AccountModel,
    a2: AccountModel,
    i: int,
    j: int,
)
    requires
        c.seeds is Some,
        slot_violation(program_id, c, a1, i) is None,
        slot_violation(program_id, c, a2, j) is None,
    ensures
        a1.address == a2.address,
{
}

/// Law: two seed sets accepted for one and the same supplied address derive
/// to byte-identical addresses — distinct derivations never both match one
/// address.
pub proof fn lemma_derivation_injective(
    program_id: Seq<u8>,
    c1: ConstraintModel,
    c2: ConstraintModel,
    a1: AccountModel,
    a2: AccountModel,
    i: int,
    j: int,
)
    requires
        c1.seeds is Some,
        c2.seeds is Some,
        slot_violation(program_id, c1, a1, i) is None,
        slot_violation(program_id, c2, a2, j) is None,
        a1.address == a2.address,
    ensures
        derived_address_of(c1.seeds->0, program_id) == derived_address_of(c2.seeds->0, program_id),
{
}

} // verus!
