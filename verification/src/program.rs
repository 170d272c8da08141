//! The program itself: a registry holding the single no-op greeting
//! instruction, and the entrypoint boundary that the host runtime calls with
//! a program identity, an account list and a raw payload.

use vstd::prelude::*;
use crate::account::{AccountRef, account_models};
use crate::dispatch::{
    DescriptorModel, HandlerKind, InstructionDescriptor, Registry, descriptor_models,
    discriminator_of,
};
use crate::errors::status_code_of;

verus! {

/// The declared name of the program's sole instruction, `"greet"`.
pub open spec fn greet_name() -> Seq<u8> {
    seq![103u8, 114u8, 101u8, 101u8, 116u8]
}

/// The one registered descriptor of this program: the greeting instruction,
/// with no arguments and no required accounts.
pub open spec fn greet_program_entries() -> Seq<DescriptorModel> {
    seq![
        DescriptorModel {
            name: greet_name(),
            discriminator: discriminator_of(greet_name()),
            arg_schema: Seq::empty(),
            account_schema: Seq::empty(),
            handler: HandlerKind::Greet,
        },
    ]
}

/// Builds this program's registry: the given program identity and the single
/// greeting instruction.
pub fn greet_registry(program_id: Vec<u8>) -> (r: Registry)
    requires
        program_id@.len() == 32,
    ensures
        r.wf(),
        r.program_id@ == program_id@,
        descriptor_models(r.entries@) == greet_program_entries(),
{
    let mut reg = Registry::new(program_id);
    let mut name: Vec<u8> = Vec::new();
    name.push(103u8);
    name.push(114u8);
    name.push(101u8);
    name.push(101u8);
    name.push(116u8);
    assert(name@ =~= greet_name());
    let d = InstructionDescriptor::new(name, Vec::new(), Vec::new(), HandlerKind::Greet);
    assert(d@ =~= greet_program_entries()[0]) by {
        assert(crate::account::constraint_models(Seq::empty()) =~= Seq::empty());
    }
    match reg.register(d) {
        Result::Ok(()) => {},
        Result::Err(_) => {
            proof {
                assert(false);
            }
        },
    }
    assert(descriptor_models(reg.entries@) =~= greet_program_entries());
    reg
}

/// The entrypoint boundary: one call per transaction instruction targeting
/// this program, taking the program identity, the raw instruction payload
/// and the runtime-supplied account list, and returning a stable status
/// code, 0 for success.
pub fn process_instruction(program_id: Vec<u8>, payload: &Vec<u8>, accounts: Vec<AccountRef>) -> (r:
    u64)
    requires
        program_id@.len() == 32,
    ensures
        r == (match Registry::dispatch_spec(
            program_id@,
            greet_program_entries(),
            payload@,
            account_models(accounts@),
        ) {
            Result::Ok(()) => 0u64,
            Result::Err(e) => status_code_of(e),
        }),
{
    let reg = greet_registry(program_id);
    match reg.dispatch(payload, accounts) {
        Result::Ok(()) => 0,
        Result::Err(e) => e.status_code(),
    }
}

} // verus!
