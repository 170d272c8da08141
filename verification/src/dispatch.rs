//! The instruction dispatcher: a registry of instruction descriptors built
//! once at program-definition time, and the single entry that matches a
//! payload's discriminator, decodes the arguments, validates the accounts
//! and runs the bound handler.

use vstd::prelude::*;
use crate::account::{AccountConstraint, AccountModel, AccountRef, account_models, constraint_models};
use crate::bytes::{bytes_eq, take_prefix, drop_prefix};
use crate::codec::{ArgValue, FieldType, decode_arguments, decoded_args};
use crate::errors::{ErrorModel, ProgramError};
use crate::sha256::{sha256, sha256_of};
use crate::validate::{ValidatedContext, validate, validate_spec};

verus! {

/// Which handler a descriptor binds. This skeleton carries no real business
/// logic: the no-op greeting handler always succeeds, and a handler may be
/// declared to report a fixed domain-specific failure code.
#[derive(Clone, Copy, Debug, PartialEq, Eq, Structural)]
pub enum HandlerKind {
    Greet,
    AlwaysFail(u64),
}

/// The declared outcome of a handler: success, or its domain-specific
/// failure code, passed through unchanged by the dispatcher.
pub open spec fn handler_outcome(h: HandlerKind) -> Result<(), u64> {
    match h {
        HandlerKind::Greet => Result::Ok(()),
        HandlerKind::AlwaysFail(code) => Result::Err(code),
    }
}

/// The no-op greeting handler: takes its validated context and decoded
/// arguments and reports success.
pub fn greet(_ctx: &ValidatedContext, _args: &Vec<ArgValue>) -> (r: Result<(), u64>)
    ensures
        r == Result::Ok::<(), u64>(()),
{
    Result::Ok(())
}

/// Runs the handler a descriptor binds, with exclusive access to the
/// validated context and the decoded arguments.
fn run_handler(h: &HandlerKind, ctx: &ValidatedContext, args: &Vec<ArgValue>) -> (r: Result<
    (),
    u64,
>)
    ensures
        r == handler_outcome(*h),
{
    match h {
        HandlerKind::Greet => greet(ctx, args),
        HandlerKind::AlwaysFail(code) => Result::Err(*code),
    }
}

/// The bytes of the namespace prefix `"global:"` that stands before a
/// handler's name in its discriminator preimage.
pub open spec fn global_namespace_prefix() -> Seq<u8> {
    seq![103u8, 108u8, 111u8, 98u8, 97u8, 108u8, 58u8]
}

/// A handler's discriminator: the first eight bytes of the digest of
/// `"global:"` followed by the handler's declared name.
pub open spec fn discriminator_of(name: Seq<u8>) -> Seq<u8> {
    sha256_of(global_namespace_prefix() + name).take(8)
}

/// One registered instruction: its declared name, the discriminator derived
/// from that name, the argument schema, the required-account schema, and the
/// bound handler.
#[derive(Clone, Debug, PartialEq, Eq)]
pub struct InstructionDescriptor {
    pub name: Vec<u8>,
    pub discriminator: Vec<u8>,
    pub arg_schema: Vec<FieldType>,
    pub account_schema: Vec<AccountConstraint>,
    pub handler: HandlerKind,
}

/// Spec-level model of an [`InstructionDescriptor`].
#[verifier::ext_equal]
pub struct DescriptorModel {
    pub name: Seq<u8>,
    pub discriminator: Seq<u8>,
    pub arg_schema: Seq<FieldType>,
    pub account_schema: Seq<crate::account::ConstraintModel>,
    pub handler: HandlerKind,
}

impl View for InstructionDescriptor {
    type V = DescriptorModel;

    open spec fn view(&self) -> DescriptorModel {
        DescriptorModel {
            name: self.name@,
            discriminator: self.discriminator@,
            arg_schema: self.arg_schema@,
            account_schema: constraint_models(self.account_schema@),
            handler: self.handler,
        }
    }
}

/// The views of a sequence of descriptors.
pub open spec fn descriptor_models(entries: Seq<InstructionDescriptor>) -> Seq<DescriptorModel> {
    entries.map_values(|d: InstructionDescriptor| d@)
}

/// A well-formed descriptor carries exactly the eight-byte discriminator
/// derived from its declared name.
pub open spec fn descriptor_wf(d: DescriptorModel) -> bool {
    &&& d.discriminator.len() == 8
    &&& d.discriminator == discriminator_of(d.name)
}

impl InstructionDescriptor {
    /// Builds a descriptor for a handler, deriving its discriminator
    /// deterministically from the declared name.
    pub fn new(
        name: Vec<u8>,
        arg_schema: Vec<FieldType>,
        account_schema: Vec<AccountConstraint>,
        handler: HandlerKind,
    ) -> (d: InstructionDescriptor)
        ensures
            d@.name == name@,
            d@.arg_schema == arg_schema@,
            d@.account_schema == constraint_models(account_schema@),
            d@.handler == handler,
            descriptor_wf(d@),
    {
        let mut preimage: Vec<u8> = Vec::new();
        preimage.push(103u8);
        preimage.push(108u8);
        preimage.push(111u8);
        preimage.push(98u8);
        preimage.push(97u8);
        preimage.push(108u8);
        preimage.push(58u8);
        assert(preimage@ =~= global_namespace_prefix());
        let mut i: usize = 0;
        while i < name.len()
            invariant
                0 <= i <= name@.len(),
                preimage@ == global_namespace_prefix() + name@.take(i as int),
            decreases name@.len() - i,
        {
            preimage.push(name[i]);
            assert(preimage@ =~= global_namespace_prefix() + name@.take(i + 1 as int));
            i += 1;
        }
        assert(name@.take(name@.len() as int) =~= name@);
        let digest = sha256(&preimage);
        let discriminator = take_prefix(&digest, 8);
        InstructionDescriptor { name, discriminator, arg_schema, account_schema, handler }
    }
}

/// The slot of the first registered descriptor whose discriminator equals
/// `disc`, if any.
pub open spec fn find_index(entries: Seq<DescriptorModel>, disc: Seq<u8>) -> Option<int>
    decreases entries.len(),
{
    if entries.len() == 0 {
        Option::None
    } else if entries[0].discriminator == disc {
        Option::Some(0)
    } else {
        match find_index(entries.skip(1), disc) {
            Option::Some(i) => Option::Some(i + 1),
            Option::None => Option::None,
        }
    }
}

/// What `find_index` finds: the first match, or nothing where no descriptor
/// matches.
proof fn lemma_find_index_spec(entries: Seq<DescriptorModel>, disc: Seq<u8>)
    ensures
        match find_index(entries, disc) {
            Option::Some(i) => 0 <= i < entries.len() && entries[i].discriminator == disc
                && forall|j: int| 0 <= j < i ==> entries[j].discriminator != disc,
            Option::None => forall|j: int|
                0 <= j < entries.len() ==> entries[j].discriminator != disc,
        },
    decreases entries.len(),
{
    if entries.len() > 0 && entries[0].discriminator != disc {
        lemma_find_index_spec(entries.skip(1), disc);
        assert(forall|j: int| 1 <= j < entries.len() ==> entries[j] == entries.skip(1)[j - 1]);
    }
}

/// No two descriptors share a discriminator.
pub open spec fn distinct_discriminators(entries: Seq<DescriptorModel>) -> bool {
    forall|i: int, j: int|
        0 <= i < j < entries.len() ==> entries[i].discriminator != entries[j].discriminator
}

/// Law: dispatch is total over discriminators — against a collision-free
/// registry, every discriminator value either selects exactly one registered
/// descriptor or selects none.
pub proof fn lemma_dispatch_total(entries: Seq<DescriptorModel>, disc: Seq<u8>)
    requires
        distinct_discriminators(entries),
    ensures
        match find_index(entries, disc) {
            Option::Some(i) => 0 <= i < entries.len() && entries[i].discriminator == disc
                && forall|j: int|
                0 <= j < entries.len() && entries[j].discriminator == disc ==> j == i,
            Option::None => forall|j: int|
                0 <= j < entries.len() ==> entries[j].discriminator != disc,
        },
{
    lemma_find_index_spec(entries, disc);
}

/// Why a descriptor was refused at registration time.
#[derive(Clone, Copy, Debug, PartialEq, Eq, Structural)]
pub enum RegistryError {
    /// Another registered descriptor already carries this discriminator.
    DuplicateDiscriminator,
}

/// The static discriminator-to-handler table: the program's identity and its
/// registered instruction descriptors, built once at program-definition time
/// and never mutated afterwards.
pub struct Registry {
    pub program_id: Vec<u8>,
    pub entries: Vec<InstructionDescriptor>,
}

impl Registry {
    /// A well-formed registry: a 32-byte program identity, every descriptor
    /// well formed, and no two descriptors sharing a discriminator.
    pub open spec fn wf(&self) -> bool {
        &&& self.program_id@.len() == 32
        &&& forall|i: int|
            0 <= i < self.entries@.len() ==> descriptor_wf(descriptor_models(self.entries@)[i])
        &&& distinct_discriminators(descriptor_models(self.entries@))
    }

    /// An empty registry for the given program identity.
    pub fn new(program_id: Vec<u8>) -> (r: Registry)
        requires
            program_id@.len() == 32,
        ensures
            r.wf(),
            r.program_id@ == program_id@,
            r.entries@.len() == 0,
    {
        Registry { program_id, entries: Vec::new() }
    }

    /// Registers a descriptor, refusing one whose discriminator collides
    /// with a descriptor already registered. Collisions are caught here, at
    /// program-definition time, never per call.
    pub fn register(&mut self, d: InstructionDescriptor) -> (r: Result<(), RegistryError>)
        requires
            old(self).wf(),
            descriptor_wf(d@),
        ensures
            final(self).wf(),
            final(self).program_id@ == old(self).program_id@,
            match r {
                Result::Ok(()) => (forall|j: int|
                    0 <= j < old(self).entries@.len() ==> descriptor_models(old(self).entries@)[j]
                        .discriminator != d@.discriminator) && descriptor_models(
                    final(self).entries@,
                ) == descriptor_models(old(self).entries@).push(d@),
                Result::Err(RegistryError::DuplicateDiscriminator) => (exists|j: int|
                    0 <= j < old(self).entries@.len() && descriptor_models(old(self).entries@)[j]
                        .discriminator == d@.discriminator) && final(self).entries@ == old(
                    self,
                ).entries@,
            },
    {
        let ghost gentries = descriptor_models(self.entries@);
        let mut i: usize = 0;
        while i < self.entries.len()
            invariant
                *self == *old(self),
                old(self).wf(),
                gentries == descriptor_models(self.entries@),
                0 <= i <= self.entries@.len(),
                forall|j: int| 0 <= j < i ==> gentries[j].discriminator != d@.discriminator,
            decreases self.entries@.len() - i,
        {
            assert(gentries[i as int] == self.entries@[i as int]@);
            if bytes_eq(&self.entries[i].discriminator, &d.discriminator) {
                return Result::Err(RegistryError::DuplicateDiscriminator);
            }
            i += 1;
        }
        self.entries.push(d);
        assert(descriptor_models(self.entries@) =~= gentries.push(d@));
        Result::Ok(())
    }

    /// What one dispatch returns: unknown discriminators first, then
    /// argument decoding, then account validation, then the handler's own
    /// declared outcome, tagged as a handler error on failure.
    pub open spec fn dispatch_spec(
        program_id: Seq<u8>,
        entries: Seq<DescriptorModel>,
        payload: Seq<u8>,
        accounts: Seq<AccountModel>,
    ) -> Result<(), ErrorModel> {
        if payload.len() < 8 {
            Result::Err(ErrorModel::UnknownInstruction)
        } else {
            match find_index(entries, payload.take(8)) {
                Option::None => Result::Err(ErrorModel::UnknownInstruction),
                Option::Some(i) => {
                    let e = entries[i];
                    match decoded_args(e.arg_schema, payload.skip(8)) {
                        Option::None => Result::Err(ErrorModel::MalformedArguments),
                        Option::Some(_args) => match validate_spec(
                            program_id,
                            e.account_schema,
                            accounts,
                        ) {
                            Result::Err(err) => Result::Err(err),
                            Result::Ok(()) => match handler_outcome(e.handler) {
                                Result::Ok(()) => Result::Ok(()),
                                Result::Err(code) => Result::Err(ErrorModel::HandlerError(code)),
                            },
                        },
                    }
                },
            }
        }
    }

    /// Dispatches one instruction call: matches the payload's eight-byte
    /// discriminator prefix against the registered descriptors, decodes the
    /// remaining bytes against the matched argument schema, validates the
    /// supplied accounts against the matched account schema, and runs the
    /// bound handler, surfacing every failure as its error value.
    pub fn dispatch(&self, payload: &Vec<u8>, accounts: Vec<AccountRef>) -> (r: Result<
        (),
        ProgramError,
    >)
        requires
            self.wf(),
        ensures
            match r {
                Result::Ok(()) => Self::dispatch_spec(
                    self.program_id@,
                    descriptor_models(self.entries@),
                    payload@,
                    account_models(accounts@),
                ) == Result::Ok::<(), ErrorModel>(()),
                Result::Err(e) => Self::dispatch_spec(
                    self.program_id@,
                    descriptor_models(self.entries@),
                    payload@,
                    account_models(accounts@),
                ) == Result::Err::<(), ErrorModel>(e@),
            },
    {
        let ghost gentries = descriptor_models(self.entries@);
        if payload.len() < 8 {
            return Result::Err(ProgramError::UnknownInstruction);
        }
        let disc = take_prefix(payload, 8);
        let mut i: usize = 0;
        let n = self.entries.len();
        while i < n
            invariant
                self.wf(),
                gentries == descriptor_models(self.entries@),
                n == self.entries@.len(),
                0 <= i <= n,
                payload@.len() >= 8,
                disc@ == payload@.take(8),
                forall|j: int| 0 <= j < i ==> gentries[j].discriminator != payload@.take(8),
            decreases n - i,
        {
            assert(gentries[i as int] == self.entries@[i as int]@);
            if bytes_eq(&self.entries[i].discriminator, &disc) {
                proof {
                    lemma_find_index_spec(gentries, payload@.take(8));
                    assert(find_index(gentries, payload@.take(8)) == Option::Some(i as int));
                }
                let entry = &self.entries[i];
                let arg_bytes = drop_prefix(payload, 8);
                let args = match decode_arguments(&entry.arg_schema, &arg_bytes) {
                    Option::None => {
                        return Result::Err(ProgramError::MalformedArguments);
                    },
                    Option::Some(args) => args,
                };
                let ctx = match validate(&self.program_id, &entry.account_schema, accounts) {
                    Result::Err(e) => {
                        return Result::Err(e);
                    },
                    Result::Ok(ctx) => ctx,
                };
                match run_handler(&entry.handler, &ctx, &args) {
                    Result::Ok(()) => {
                        return Result::Ok(());
                    },
                    Result::Err(code) => {
                        return Result::Err(ProgramError::HandlerError(code));
                    },
                }
            }
            i += 1;
        }
        proof {
            lemma_find_index_spec(gentries, payload@.take(8));
            assert(find_index(gentries, payload@.take(8)) is None);
        }
        Result::Err(ProgramError::UnknownInstruction)
    }
}

} // verus!
