//! The failures an instruction can end in.
use vstd::prelude::*;

verus! {

/// The program's own error kinds. Their codes are part of the external ABI:
/// they follow declaration order from the framework's base offset.
#[derive(Clone, Copy, Debug, PartialEq, Eq, Structural)]
pub enum VaultError {
    InsufficientBalance,
    Unauthorized,
    /// A deposit would carry the balance past the 64-bit maximum.
    BalanceOverflow,
}

/// Relies on anchor_lang::error::ERROR_CODE_OFFSET: the first code a program's
/// own error enum is numbered from.
#[verifier::external_body]
fn error_code_offset() -> (r: u32)
    ensures
        r == 6000,
{
    anchor_lang::error::ERROR_CODE_OFFSET
}

impl VaultError {
    /// Position of the kind in declaration order.
    pub open spec fn index(self) -> u32 {
        match self {
            VaultError::InsufficientBalance => 0,
            VaultError::Unauthorized => 1,
            VaultError::BalanceOverflow => 2,
        }
    }

    /// The stable numeric code reported to clients.
    pub fn code(&self) -> (r: u32)
        ensures
            r == 6000 + self.index(),
    {
        let base = error_code_offset();
        match self {
            VaultError::InsufficientBalance => base,
            VaultError::Unauthorized => base + 1,
            VaultError::BalanceOverflow => base + 2,
        }
    }

    /// The human-readable message.
    pub fn message(&self) -> (r: &'static str)
        ensures
            r@ == match self {
                VaultError::InsufficientBalance => "Insufficient balance"@,
                VaultError::Unauthorized => "Unauthorized"@,
                VaultError::BalanceOverflow => "Balance overflow"@,
            },
    {
        match self {
            VaultError::InsufficientBalance => "Insufficient balance",
            VaultError::Unauthorized => "Unauthorized",
            VaultError::BalanceOverflow => "Balance overflow",
        }
    }
}

/// Why a transaction was aborted: a program error, or a check on the accounts
/// that the runtime's account model imposes before a handler body runs.
#[derive(Clone, Copy, Debug, PartialEq, Eq, Structural)]
pub enum InstructionError {
    Vault(VaultError),
    /// Initialization named an account that already holds a vault record.
    AlreadyInitialized,
    /// The vault slot holds no vault record.
    NotInitialized,
    /// The system-program slot names another program.
    InvalidProgramId,
    /// The payer cannot cover the rent deposit.
    InsufficientFunds,
    /// A lamport transfer would overflow the receiving account.
    LamportOverflow,
    /// The instruction data is too short to hold a discriminator.
    InstructionMissing,
    /// The discriminator names no instruction of this program.
    InstructionFallbackNotFound,
    /// The instruction's arguments are cut short.
    InstructionDidNotDeserialize,
}

} // verus!
