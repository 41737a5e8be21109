//! The four instructions: their account contexts, the checks made on those
//! accounts, and the handlers that change them.
//!
//! `transition` states, for the accounts one transaction sees, what each
//! instruction makes of them or which error aborts it. Every handler is proved
//! to do exactly that, and to leave its accounts untouched when it fails, as the
//! runtime's rollback would.
use vstd::prelude::*;
use crate::errors::{InstructionError, VaultError};
use crate::events::{DepositEvent, WithdrawEvent};
use crate::state::{Pubkey, Vault};

verus! {

broadcast use vstd::array::group_array_axioms;

/// The `owner` slot: a principal, whether it signed the transaction, and the
/// native balance (lamports) it holds.
#[derive(Clone, Copy, Debug, PartialEq, Eq)]
pub struct SignerAccount {
    pub key: Pubkey,
    pub is_signer: bool,
    pub lamports: u64,
}

/// The `vault` slot: the record it holds, if any, and its native balance, which
/// is the rent deposit once the record exists.
#[derive(Clone, Copy, Debug, PartialEq, Eq)]
pub struct VaultAccount {
    pub record: Option<Vault>,
    pub lamports: u64,
}

/// An instruction with its decoded scalar arguments. `Initialize` also carries
/// what the transaction names as the system program, and the rent-exempt
/// minimum that the runtime asks for a vault's bytes.
#[derive(Clone, Copy, Debug, PartialEq, Eq)]
pub enum VaultInstruction {
    Initialize { system_program: Pubkey, rent: u64 },
    Deposit { amount: u64 },
    Withdraw { amount: u64 },
    Close,
}

/// The system program's key: 32 zero bytes.
pub open spec fn is_system_program(k: Pubkey) -> bool {
    forall|i: int| 0 <= i < 32 ==> #[trigger] k.bytes[i] == 0
}

/// Relies on anchor_lang::system_program::ID, the system program's key, which is
/// declared from the all-zero address "11111111111111111111111111111111".
#[verifier::external_body]
fn system_program_id() -> (r: Pubkey)
    ensures
        is_system_program(r),
{
    Pubkey { bytes: anchor_lang::system_program::ID.to_bytes() }
}

/// Lamports the payer must add so that the vault account reaches `rent`.
pub open spec fn rent_top_up(held: u64, rent: u64) -> nat {
    if held >= rent {
        0
    } else {
        (rent - held) as nat
    }
}

/// The account checks shared by every instruction on an existing vault: the
/// slot holds a record, `owner` signed, and the record names `owner`.
pub open spec fn owner_checked(vault: VaultAccount, owner: SignerAccount) -> Result<
    Vault,
    InstructionError,
> {
    match vault.record {
        None => Err(InstructionError::NotInitialized),
        Some(v) => if !owner.is_signer || v.owner != owner.key {
            Err(InstructionError::Vault(VaultError::Unauthorized))
        } else {
            Ok(v)
        },
    }
}

/// What one instruction makes of the accounts, or why it is rejected.
pub open spec fn transition(
    vault: VaultAccount,
    owner: SignerAccount,
    ix: VaultInstruction,
) -> Result<(VaultAccount, SignerAccount), InstructionError> {
    match ix {
        VaultInstruction::Initialize { system_program, rent } => {
            if vault.record is Some {
                Err(InstructionError::AlreadyInitialized)
            } else if !owner.is_signer {
                Err(InstructionError::Vault(VaultError::Unauthorized))
            } else if !is_system_program(system_program) {
                Err(InstructionError::InvalidProgramId)
            } else if owner.lamports < rent_top_up(vault.lamports, rent) {
                Err(InstructionError::InsufficientFunds)
            } else {
                Ok(
                    (
                        VaultAccount {
                            record: Some(Vault { owner: owner.key, balance: 0 }),
                            lamports: if vault.lamports >= rent { vault.lamports } else { rent },
                        },
                        SignerAccount {
                            key: owner.key,
                            is_signer: owner.is_signer,
                            lamports: (owner.lamports - rent_top_up(vault.lamports, rent)) as u64,
                        },
                    ),
                )
            }
        },
        VaultInstruction::Deposit { amount } => match owner_checked(vault, owner) {
            Err(e) => Err(e),
            Ok(v) => if v.balance + amount > u64::MAX {
                Err(InstructionError::Vault(VaultError::BalanceOverflow))
            } else {
                Ok(
                    (
                        VaultAccount {
                            record: Some(Vault { owner: v.owner, balance: (v.balance + amount) as u64 }),
                            lamports: vault.lamports,
                        },
                        owner,
                    ),
                )
            },
        },
        VaultInstruction::Withdraw { amount } => match owner_checked(vault, owner) {
            Err(e) => Err(e),
            Ok(v) => if amount > v.balance {
                Err(InstructionError::Vault(VaultError::InsufficientBalance))
            } else {
                Ok(
                    (
                        VaultAccount {
                            record: Some(Vault { owner: v.owner, balance: (v.balance - amount) as u64 }),
                            lamports: vault.lamports,
                        },
                        owner,
                    ),
                )
            },
        },
        VaultInstruction::Close => match owner_checked(vault, owner) {
            Err(e) => Err(e),
            Ok(v) => if owner.lamports + vault.lamports > u64::MAX {
                Err(InstructionError::LamportOverflow)
            } else {
                Ok(
                    (
                        VaultAccount { record: None, lamports: 0 },
                        SignerAccount {
                            key: owner.key,
                            is_signer: owner.is_signer,
                            lamports: (owner.lamports + vault.lamports) as u64,
                        },
                    ),
                )
            },
        },
    }
}

/// The accounts after a transaction made of `ix`: the new accounts when it
/// succeeds, the old ones when it is rolled back.
pub open spec fn transact(
    vault: VaultAccount,
    owner: SignerAccount,
    ix: VaultInstruction,
) -> (VaultAccount, SignerAccount) {
    match transition(vault, owner, ix) {
        Ok(next) => next,
        Err(_) => (vault, owner),
    }
}

/// A handler with result `r` took the accounts from `before` to `after` as
/// `transition` says: the error it reports is the one `transition` gives, and
/// on an error the accounts are untouched.
pub open spec fn handled<T>(
    before: (VaultAccount, SignerAccount),
    after: (VaultAccount, SignerAccount),
    ix: VaultInstruction,
    r: Result<T, InstructionError>,
) -> bool {
    match transition(before.0, before.1, ix) {
        Ok(next) => r is Ok && after == next,
        Err(e) => r == Err::<T, InstructionError>(e) && after == before,
    }
}

/// Checks the vault slot and the `owner` slot of an instruction on an existing
/// vault, and hands back the record.
fn check_owner(vault: &VaultAccount, owner: &SignerAccount) -> (r: Result<Vault, InstructionError>)
    ensures
        r == owner_checked(*vault, *owner),
{
    match vault.record {
        None => Err(InstructionError::NotInitialized),
        Some(v) => {
            if !owner.is_signer || !v.owner.same_as(&owner.key) {
                Err(InstructionError::Vault(VaultError::Unauthorized))
            } else {
                Ok(v)
            }
        },
    }
}

/// Accounts of the instruction that creates a vault; `owner` pays its rent.
#[derive(Clone, Copy, Debug, PartialEq, Eq)]
pub struct Initialize {
    pub vault: VaultAccount,
    pub owner: SignerAccount,
    pub system_program: Pubkey,
    /// The rent-exempt minimum for a vault's bytes, as the runtime reports it.
    pub rent: u64,
}

impl Initialize {
    pub open spec fn instruction(self) -> VaultInstruction {
        VaultInstruction::Initialize { system_program: self.system_program, rent: self.rent }
    }

    /// Creates the vault record, owned by the signer with a zero balance, and
    /// moves from the signer what the account lacks of its rent deposit.
    pub fn intialize_instruction(&mut self) -> (r: Result<(), InstructionError>)
        ensures
            handled(
                (old(self).vault, old(self).owner),
                (final(self).vault, final(self).owner),
                old(self).instruction(),
                r,
            ),
            final(self).system_program == old(self).system_program,
            final(self).rent == old(self).rent,
    {
        if self.vault.record.is_some() {
            return Err(InstructionError::AlreadyInitialized);
        }
        if !self.owner.is_signer {
            return Err(InstructionError::Vault(VaultError::Unauthorized));
        }
        let system = system_program_id();
        if !self.system_program.same_as(&system) {
            proof {
                if is_system_program(self.system_program) {
                    assert(self.system_program.bytes =~= system.bytes);
                }
            }
            return Err(InstructionError::InvalidProgramId);
        }
        proof {
            assert(self.system_program.bytes =~= system.bytes);
        }
        let top_up: u64 = if self.vault.lamports >= self.rent {
            0
        } else {
            self.rent - self.vault.lamports
        };
        if self.owner.lamports < top_up {
            return Err(InstructionError::InsufficientFunds);
        }
        self.owner.lamports = self.owner.lamports - top_up;
        self.vault.lamports = self.vault.lamports + top_up;
        self.vault.record = Some(Vault { owner: self.owner.key, balance: 0 });
        Ok(())
    }
}

/// Accounts of a deposit.
#[derive(Clone, Copy, Debug, PartialEq, Eq)]
pub struct Deposit {
    pub vault: VaultAccount,
    pub owner: SignerAccount,
}

impl Deposit {
    /// Credits `amount` to the vault's balance and reports the deposit.
    pub fn intialize_instruction(&mut self, amount: u64) -> (r: Result<DepositEvent, InstructionError>)
        ensures
            handled(
                (old(self).vault, old(self).owner),
                (final(self).vault, final(self).owner),
                VaultInstruction::Deposit { amount },
                r,
            ),
            r is Ok ==> r->Ok_0 == (DepositEvent { amount }),
    {
        let v = match check_owner(&self.vault, &self.owner) {
            Ok(v) => v,
            Err(e) => return Err(e),
        };
        let balance = match v.balance.checked_add(amount) {
            Some(b) => b,
            None => return Err(InstructionError::Vault(VaultError::BalanceOverflow)),
        };
        self.vault.record = Some(Vault { owner: v.owner, balance });
        Ok(DepositEvent { amount })
    }
}

/// Accounts of a withdrawal.
#[derive(Clone, Copy, Debug, PartialEq, Eq)]
pub struct Withdraw {
    pub vault: VaultAccount,
    pub owner: SignerAccount,
}

impl Withdraw {
    /// Debits `amount` from the vault's logical balance and reports the
    /// withdrawal. No lamports move.
    pub fn withdraw_instruction(&mut self, amount: u64) -> (r: Result<WithdrawEvent, InstructionError>)
        ensures
            handled(
                (old(self).vault, old(self).owner),
                (final(self).vault, final(self).owner),
                VaultInstruction::Withdraw { amount },
                r,
            ),
            r is Ok ==> r->Ok_0 == (WithdrawEvent { amount }),
    {
        let v = match check_owner(&self.vault, &self.owner) {
            Ok(v) => v,
            Err(e) => return Err(e),
        };
        if amount > v.balance {
            return Err(InstructionError::Vault(VaultError::InsufficientBalance));
        }
        self.vault.record = Some(Vault { owner: v.owner, balance: v.balance - amount });
        Ok(WithdrawEvent { amount })
    }
}

/// Accounts of the instruction that removes a vault.
#[derive(Clone, Copy, Debug, PartialEq, Eq)]
pub struct Close {
    pub vault: VaultAccount,
    pub owner: SignerAccount,
}

impl Close {
    /// Removes the vault record and returns the account's lamports, its rent
    /// deposit, to the owner.
    pub fn close_instruction(&mut self) -> (r: Result<(), InstructionError>)
        ensures
            handled(
                (old(self).vault, old(self).owner),
                (final(self).vault, final(self).owner),
                VaultInstruction::Close,
                r,
            ),
    {
        match check_owner(&self.vault, &self.owner) {
            Ok(_) => {},
            Err(e) => return Err(e),
        }
        let refunded = match self.owner.lamports.checked_add(self.vault.lamports) {
            Some(l) => l,
            None => return Err(InstructionError::LamportOverflow),
        };
        self.owner.lamports = refunded;
        self.vault.lamports = 0;
        self.vault.record = None;
        Ok(())
    }
}

} // verus!
