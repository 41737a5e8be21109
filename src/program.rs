//! The program's entrypoint: one function per instruction, and the dispatcher
//! that decodes instruction data and routes it to them.
use vstd::prelude::*;
use vstd::string::StringSliceAdditionalSpecFns;
use crate::codec::{discriminator, discriminator_of, le_value, read_u64_le, tagged_at};
use crate::errors::InstructionError;
use crate::events::{DepositEvent, WithdrawEvent};
use crate::instructions::{
    handled, Close, Deposit, Initialize, SignerAccount, VaultAccount, VaultInstruction, Withdraw,
};
use crate::state::Pubkey;

verus! {

/// Runs the `Initialize` handler; its error, if any, aborts the transaction.
pub fn intialize_instruction(ctx: &mut Initialize) -> (r: Result<(), InstructionError>)
    ensures
        handled(
            (old(ctx).vault, old(ctx).owner),
            (final(ctx).vault, final(ctx).owner),
            old(ctx).instruction(),
            r,
        ),
        final(ctx).system_program == old(ctx).system_program,
        final(ctx).rent == old(ctx).rent,
{
    ctx.intialize_instruction()
}

/// Runs the `Deposit` handler; its error, if any, aborts the transaction.
pub fn deposit_instruction(ctx: &mut Deposit, amount: u64) -> (r: Result<DepositEvent, InstructionError>)
    ensures
        handled(
            (old(ctx).vault, old(ctx).owner),
            (final(ctx).vault, final(ctx).owner),
            VaultInstruction::Deposit { amount },
            r,
        ),
        r is Ok ==> r->Ok_0 == (DepositEvent { amount }),
{
    ctx.intialize_instruction(amount)
}

/// Runs the `Withdraw` handler; its error, if any, aborts the transaction.
pub fn withdraw_instruction(ctx: &mut Withdraw, amount: u64) -> (r: Result<WithdrawEvent, InstructionError>)
    ensures
        handled(
            (old(ctx).vault, old(ctx).owner),
            (final(ctx).vault, final(ctx).owner),
            VaultInstruction::Withdraw { amount },
            r,
        ),
        r is Ok ==> r->Ok_0 == (WithdrawEvent { amount }),
{
    ctx.withdraw_instruction(amount)
}

/// Runs the `Close` handler; its error, if any, aborts the transaction.
pub fn close_instruction(ctx: &mut Close) -> (r: Result<(), InstructionError>)
    ensures
        handled(
            (old(ctx).vault, old(ctx).owner),
            (final(ctx).vault, final(ctx).owner),
            VaultInstruction::Close,
            r,
        ),
{
    ctx.close_instruction()
}

/// An instruction as its data encodes it.
#[derive(Clone, Copy, Debug, PartialEq, Eq, Structural)]
pub enum InstructionData {
    Initialize,
    Deposit { amount: u64 },
    Withdraw { amount: u64 },
    Close,
}

pub open spec fn initialize_tag() -> Seq<u8> {
    discriminator_of("global:initialize_instruction".spec_bytes())
}

pub open spec fn deposit_tag() -> Seq<u8> {
    discriminator_of("global:deposit_instruction".spec_bytes())
}

pub open spec fn withdraw_tag() -> Seq<u8> {
    discriminator_of("global:withdraw_instruction".spec_bytes())
}

pub open spec fn close_tag() -> Seq<u8> {
    discriminator_of("global:close_instruction".spec_bytes())
}

/// The discriminators of the four instructions.
#[derive(Clone, Copy, Debug, PartialEq, Eq)]
pub struct InstructionTags {
    pub initialize: [u8; 8],
    pub deposit: [u8; 8],
    pub withdraw: [u8; 8],
    pub close: [u8; 8],
}

/// The meaning of instruction data under the given discriminators: an 8-byte
/// discriminator, then the `u64` amount (LE) for a deposit or a withdrawal.
/// Trailing bytes are ignored.
pub open spec fn decoded_with(
    data: Seq<u8>,
    initialize: Seq<u8>,
    deposit: Seq<u8>,
    withdraw: Seq<u8>,
    close: Seq<u8>,
) -> Result<InstructionData, InstructionError> {
    if data.len() < 8 {
        Err(InstructionError::InstructionMissing)
    } else if data.subrange(0, 8) == initialize {
        Ok(InstructionData::Initialize)
    } else if data.subrange(0, 8) == deposit {
        if data.len() < 16 {
            Err(InstructionError::InstructionDidNotDeserialize)
        } else {
            Ok(InstructionData::Deposit { amount: le_value(data.subrange(8, 16)) })
        }
    } else if data.subrange(0, 8) == withdraw {
        if data.len() < 16 {
            Err(InstructionError::InstructionDidNotDeserialize)
        } else {
            Ok(InstructionData::Withdraw { amount: le_value(data.subrange(8, 16)) })
        }
    } else if data.subrange(0, 8) == close {
        Ok(InstructionData::Close)
    } else {
        Err(InstructionError::InstructionFallbackNotFound)
    }
}

/// The meaning of instruction data under this program's discriminators.
pub open spec fn decoded(data: Seq<u8>) -> Result<InstructionData, InstructionError> {
    decoded_with(data, initialize_tag(), deposit_tag(), withdraw_tag(), close_tag())
}

/// This program's instruction discriminators.
pub fn instruction_tags() -> (r: InstructionTags)
    ensures
        r.initialize@ == initialize_tag(),
        r.deposit@ == deposit_tag(),
        r.withdraw@ == withdraw_tag(),
        r.close@ == close_tag(),
{
    InstructionTags {
        initialize: discriminator("global:initialize_instruction".as_bytes()),
        deposit: discriminator("global:deposit_instruction".as_bytes()),
        withdraw: discriminator("global:withdraw_instruction".as_bytes()),
        close: discriminator("global:close_instruction".as_bytes()),
    }
}

/// Decodes instruction data under the discriminators `tags`.
pub fn decode_tagged(data: &[u8], tags: &InstructionTags) -> (r: Result<
    InstructionData,
    InstructionError,
>)
    ensures
        r == decoded_with(
            data@,
            tags.initialize@,
            tags.deposit@,
            tags.withdraw@,
            tags.close@,
        ),
{
    if data.len() < 8 {
        return Err(InstructionError::InstructionMissing);
    }
    if tagged_at(data, 0, &tags.initialize) {
        return Ok(InstructionData::Initialize);
    }
    if tagged_at(data, 0, &tags.deposit) {
        if data.len() < 16 {
            return Err(InstructionError::InstructionDidNotDeserialize);
        }
        return Ok(InstructionData::Deposit { amount: read_u64_le(data, 8) });
    }
    if tagged_at(data, 0, &tags.withdraw) {
        if data.len() < 16 {
            return Err(InstructionError::InstructionDidNotDeserialize);
        }
        return Ok(InstructionData::Withdraw { amount: read_u64_le(data, 8) });
    }
    if tagged_at(data, 0, &tags.close) {
        return Ok(InstructionData::Close);
    }
    Err(InstructionError::InstructionFallbackNotFound)
}

/// Decodes instruction data.
pub fn decode_instruction(data: &[u8]) -> (r: Result<InstructionData, InstructionError>)
    ensures
        r == decoded(data@),
{
    let tags = instruction_tags();
    decode_tagged(data, &tags)
}

/// The instruction that decoded data stands for, given the system-program slot
/// and the rent-exempt minimum the runtime supplies.
pub open spec fn with_context(d: InstructionData, system_program: Pubkey, rent: u64) -> VaultInstruction {
    match d {
        InstructionData::Initialize => VaultInstruction::Initialize { system_program, rent },
        InstructionData::Deposit { amount } => VaultInstruction::Deposit { amount },
        InstructionData::Withdraw { amount } => VaultInstruction::Withdraw { amount },
        InstructionData::Close => VaultInstruction::Close,
    }
}

/// What a successful instruction writes to the log.
pub open spec fn logged(d: InstructionData) -> Seq<u8> {
    match d {
        InstructionData::Deposit { amount } => DepositEvent { amount }.spec_data(),
        InstructionData::Withdraw { amount } => WithdrawEvent { amount }.spec_data(),
        _ => Seq::empty(),
    }
}

/// Decodes `data`, runs the instruction it names on the accounts, and returns
/// the log record of the event it emits (empty where it emits none). On an
/// error the accounts are left as they were.
pub fn process_instruction(
    vault: &mut VaultAccount,
    owner: &mut SignerAccount,
    system_program: Pubkey,
    rent: u64,
    data: &[u8],
) -> (r: Result<Vec<u8>, InstructionError>)
    ensures
        match decoded(data@) {
            Err(e) => r == Err::<Vec<u8>, InstructionError>(e) && *final(vault) == *old(vault)
                && *final(owner) == *old(owner),
            Ok(d) => handled(
                (*old(vault), *old(owner)),
                (*final(vault), *final(owner)),
                with_context(d, system_program, rent),
                r,
            ) && (r is Ok ==> r->Ok_0@ == logged(d)),
        },
{
    let d = match decode_instruction(data) {
        Ok(d) => d,
        Err(e) => return Err(e),
    };
    match d {
        InstructionData::Initialize => {
            let mut ctx = Initialize { vault: *vault, owner: *owner, system_program, rent };
            let res = intialize_instruction(&mut ctx);
            *vault = ctx.vault;
            *owner = ctx.owner;
            match res {
                Ok(()) => Ok(Vec::new()),
                Err(e) => Err(e),
            }
        },
        InstructionData::Deposit { amount } => {
            let mut ctx = Deposit { vault: *vault, owner: *owner };
            let res = deposit_instruction(&mut ctx, amount);
            *vault = ctx.vault;
            *owner = ctx.owner;
            match res {
                Ok(event) => Ok(event.data()),
                Err(e) => Err(e),
            }
        },
        InstructionData::Withdraw { amount } => {
            let mut ctx = Withdraw { vault: *vault, owner: *owner };
            let res = withdraw_instruction(&mut ctx, amount);
            *vault = ctx.vault;
            *owner = ctx.owner;
            match res {
                Ok(event) => Ok(event.data()),
                Err(e) => Err(e),
            }
        },
        InstructionData::Close => {
            let mut ctx = Close { vault: *vault, owner: *owner };
            let res = close_instruction(&mut ctx);
            *vault = ctx.vault;
            *owner = ctx.owner;
            match res {
                Ok(()) => Ok(Vec::new()),
                Err(e) => Err(e),
            }
        },
    }
}

} // verus!
