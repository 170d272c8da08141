//! Account references supplied by the runtime, and the declared constraints
//! a handler places on each account slot.

use vstd::prelude::*;

verus! {

/// An untrusted, runtime-supplied account reference: address, flags set by
/// the runtime, current owner, and raw data bytes.
#[derive(Clone, Debug, PartialEq, Eq)]
pub struct AccountRef {
    pub address: Vec<u8>,
    pub is_signer: bool,
    pub is_writable: bool,
    pub owner: Vec<u8>,
    pub data: Vec<u8>,
}

/// Spec-level model of an [`AccountRef`].
#[verifier::ext_equal]
pub struct AccountModel {
    pub address: Seq<u8>,
    pub is_signer: bool,
    pub is_writable: bool,
    pub owner: Seq<u8>,
    pub data: Seq<u8>,
}

impl View for AccountRef {
    type V = AccountModel;

    open spec fn view(&self) -> AccountModel {
        AccountModel {
            address: self.address@,
            is_signer: self.is_signer,
            is_writable: self.is_writable,
            owner: self.owner@,
            data: self.data@,
        }
    }
}

/// The views of a sequence of account references.
pub open spec fn account_models(accounts: Seq<AccountRef>) -> Seq<AccountModel> {
    accounts.map_values(|a: AccountRef| a@)
}

/// Who must own the account in a slot: nobody in particular, this program
/// itself, or a specific other program.
#[derive(Clone, Debug, PartialEq, Eq)]
pub enum OwnerRule {
    Unconstrained,
    ThisProgram,
    OtherProgram(Vec<u8>),
}

/// Spec-level model of an [`OwnerRule`].
pub enum OwnerRuleModel {
    Unconstrained,
    ThisProgram,
    OtherProgram(Seq<u8>),
}

impl View for OwnerRule {
    type V = OwnerRuleModel;

    open spec fn view(&self) -> OwnerRuleModel {
        match self {
            OwnerRule::Unconstrained => OwnerRuleModel::Unconstrained,
            OwnerRule::ThisProgram => OwnerRuleModel::ThisProgram,
            OwnerRule::OtherProgram(p) => OwnerRuleModel::OtherProgram(p@),
        }
    }
}

/// Whether the account in a slot must already be initialized (hold data),
/// must be uninitialized, or may be either.
#[derive(Clone, Copy, Debug, PartialEq, Eq, Structural)]
pub enum InitRule {
    Unconstrained,
    Initialized,
    Uninitialized,
}

/// The declared constraints on one required account slot. Order in a schema
/// is significant: slot `i` is checked against the runtime's `i`-th supplied
/// reference.
#[derive(Clone, Debug, PartialEq, Eq)]
pub struct AccountConstraint {
    pub require_signer: bool,
    pub require_writable: bool,
    pub owner: OwnerRule,
    /// When present, the account's address must equal the address derived
    /// from these seed bytes under the program's identity.
    pub seeds: Option<Vec<Vec<u8>>>,
    pub init: InitRule,
}

/// Spec-level model of an [`AccountConstraint`].
#[verifier::ext_equal]
pub struct ConstraintModel {
    pub require_signer: bool,
    pub require_writable: bool,
    pub owner: OwnerRuleModel,
    pub seeds: Option<Seq<Seq<u8>>>,
    pub init: InitRule,
}

impl View for AccountConstraint {
    type V = ConstraintModel;

    open spec fn view(&self) -> ConstraintModel {
        ConstraintModel {
            require_signer: self.require_signer,
            require_writable: self.require_writable,
            owner: self.owner@,
            seeds: match self.seeds {
                Option::Some(s) => Option::Some(crate::pda::seed_views(s@)),
                Option::None => Option::None,
            },
            init: self.init,
        }
    }
}

/// The views of a sequence of account constraints.
pub open spec fn constraint_models(schema: Seq<AccountConstraint>) -> Seq<ConstraintModel> {
    schema.map_values(|c: AccountConstraint| c@)
}

} // verus!
