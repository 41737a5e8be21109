//! Properties of the vault program over whole transactions and sequences of
//! them, proved from `transition`, which every handler is proved to follow.
use vstd::prelude::*;
use crate::errors::{InstructionError, VaultError};
use crate::instructions::{
    is_system_program, rent_top_up, transact, transition, SignerAccount, VaultAccount,
    VaultInstruction,
};
use crate::state::Vault;

verus! {

/// The accounts after each instruction of `ixs` in turn, or `None` if one of
/// them is rejected.
pub open spec fn run(vault: VaultAccount, owner: SignerAccount, ixs: Seq<VaultInstruction>) -> Option<
    (VaultAccount, SignerAccount),
>
    decreases ixs.len(),
{
    if ixs.len() == 0 {
        Some((vault, owner))
    } else {
        match transition(vault, owner, ixs[0]) {
            Ok(next) => run(next.0, next.1, ixs.drop_first()),
            Err(_) => None,
        }
    }
}

/// The logical balance of a vault slot; zero where it holds no record.
pub open spec fn balance_of(vault: VaultAccount) -> int {
    match vault.record {
        Some(v) => v.balance as int,
        None => 0,
    }
}

/// Sum of the amounts of the deposits in `ixs`.
pub open spec fn deposited(ixs: Seq<VaultInstruction>) -> int
    decreases ixs.len(),
{
    if ixs.len() == 0 {
        0
    } else {
        (match ixs[0] {
            VaultInstruction::Deposit { amount } => amount as int,
            _ => 0,
        }) + deposited(ixs.drop_first())
    }
}

/// Sum of the amounts of the withdrawals in `ixs`.
pub open spec fn withdrawn(ixs: Seq<VaultInstruction>) -> int
    decreases ixs.len(),
{
    if ixs.len() == 0 {
        0
    } else {
        (match ixs[0] {
            VaultInstruction::Withdraw { amount } => amount as int,
            _ => 0,
        }) + withdrawn(ixs.drop_first())
    }
}

/// `ixs` holds no `Close`.
pub open spec fn closes_nothing(ixs: Seq<VaultInstruction>) -> bool {
    forall|i: int| 0 <= i < ixs.len() ==> !(#[trigger] ixs[i] is Close)
}

/// An instruction that needs the owner's signature on an existing vault.
pub open spec fn is_mutating(ix: VaultInstruction) -> bool {
    ix is Deposit || ix is Withdraw || ix is Close
}

/// Over any sequence of successful instructions that does not close the vault,
/// the balance moves by exactly the deposits minus the withdrawals. From a
/// fresh account, the balance is the deposits minus the withdrawals.
pub proof fn lemma_balance_is_net_flow(
    vault: VaultAccount,
    owner: SignerAccount,
    ixs: Seq<VaultInstruction>,
)
    requires
        run(vault, owner, ixs) is Some,
        closes_nothing(ixs),
    ensures
        balance_of(run(vault, owner, ixs)->Some_0.0) == balance_of(vault) + deposited(ixs)
            - withdrawn(ixs),
    decreases ixs.len(),
{
    if ixs.len() > 0 {
        let next = transition(vault, owner, ixs[0])->Ok_0;
        assert(!(ixs[0] is Close));
        assert(closes_nothing(ixs.drop_first())) by {
            assert forall|i: int| 0 <= i < ixs.drop_first().len() implies !(
            #[trigger] ixs.drop_first()[i] is Close) by {
                assert(ixs.drop_first()[i] == ixs[i + 1]);
            }
        }
        lemma_balance_is_net_flow(next.0, next.1, ixs.drop_first());
    }
}

/// The balance never goes below zero: over any sequence of successful
/// instructions that does not close the vault, no more is withdrawn than the
/// starting balance and the deposits.
pub proof fn lemma_withdrawals_covered(
    vault: VaultAccount,
    owner: SignerAccount,
    ixs: Seq<VaultInstruction>,
)
    requires
        run(vault, owner, ixs) is Some,
        closes_nothing(ixs),
    ensures
        balance_of(run(vault, owner, ixs)->Some_0.0) >= 0,
        withdrawn(ixs) <= balance_of(vault) + deposited(ixs),
{
    lemma_balance_is_net_flow(vault, owner, ixs);
}

/// The record's owner is set once: no instruction on an existing vault but
/// `Close` removes or changes it.
pub proof fn lemma_owner_fixed(vault: VaultAccount, owner: SignerAccount, ix: VaultInstruction)
    requires
        vault.record is Some,
        !(ix is Close),
    ensures
        transact(vault, owner, ix).0.record is Some,
        transact(vault, owner, ix).0.record->Some_0.owner == vault.record->Some_0.owner,
{
}

/// An instruction on an existing vault whose signer is not the vault's owner
/// fails with `Unauthorized`, and the transaction leaves the accounts as they
/// were.
pub proof fn lemma_wrong_signer_rejected(
    vault: VaultAccount,
    owner: SignerAccount,
    ix: VaultInstruction,
)
    requires
        is_mutating(ix),
        vault.record is Some,
        vault.record->Some_0.owner != owner.key,
    ensures
        transition(vault, owner, ix) == Err::<(VaultAccount, SignerAccount), InstructionError>(
            InstructionError::Vault(VaultError::Unauthorized),
        ),
        transact(vault, owner, ix) == (vault, owner),
{
}

/// A withdrawal by the owner of more than the balance fails with
/// `InsufficientBalance`, and the transaction leaves the accounts as they were.
pub proof fn lemma_overdraw_rejected(vault: VaultAccount, owner: SignerAccount, amount: u64)
    requires
        vault.record is Some,
        vault.record->Some_0.owner == owner.key,
        owner.is_signer,
        amount > vault.record->Some_0.balance,
    ensures
        transition(vault, owner, VaultInstruction::Withdraw { amount }) == Err::<
            (VaultAccount, SignerAccount),
            InstructionError,
        >(InstructionError::Vault(VaultError::InsufficientBalance)),
        transact(vault, owner, VaultInstruction::Withdraw { amount }) == (vault, owner),
{
}

/// A successful `Close` removes the vault record, empties the account, and
/// credits all its lamports, the rent deposit, to the owner.
pub proof fn lemma_close_refunds(vault: VaultAccount, owner: SignerAccount)
    requires
        transition(vault, owner, VaultInstruction::Close) is Ok,
    ensures
        ({
            let next = transition(vault, owner, VaultInstruction::Close)->Ok_0;
            &&& next.0.record is None
            &&& next.0.lamports == 0
            &&& next.1.key == owner.key
            &&& next.1.lamports == owner.lamports + vault.lamports
        }),
{
}

/// Replaying a rejected instruction against the accounts the rejected
/// transaction left gives the same rejection.
pub proof fn lemma_rejection_replays(vault: VaultAccount, owner: SignerAccount, ix: VaultInstruction)
    requires
        transition(vault, owner, ix) is Err,
    ensures
        transition(transact(vault, owner, ix).0, transact(vault, owner, ix).1, ix) == transition(
            vault,
            owner,
            ix,
        ),
{
}

/// `Initialize; Deposit(a); Withdraw(a); Close` removes the vault and returns
/// the signer's lamports to their starting value, plus whatever the account
/// already held before it was initialized.
pub proof fn lemma_round_trip(
    vault: VaultAccount,
    owner: SignerAccount,
    system_program: crate::state::Pubkey,
    rent: u64,
    amount: u64,
)
    requires
        vault.record is None,
        owner.is_signer,
        is_system_program(system_program),
        owner.lamports >= rent_top_up(vault.lamports, rent),
        owner.lamports + vault.lamports <= u64::MAX,
    ensures
        run(
            vault,
            owner,
            seq![
                VaultInstruction::Initialize { system_program, rent },
                VaultInstruction::Deposit { amount },
                VaultInstruction::Withdraw { amount },
                VaultInstruction::Close,
            ],
        ) == Some(
            (
                VaultAccount { record: None, lamports: 0 },
                SignerAccount {
                    key: owner.key,
                    is_signer: owner.is_signer,
                    lamports: (owner.lamports + vault.lamports) as u64,
                },
            ),
        ),
{
    let ixs = seq![
        VaultInstruction::Initialize { system_program, rent },
        VaultInstruction::Deposit { amount },
        VaultInstruction::Withdraw { amount },
        VaultInstruction::Close,
    ];
    let s1 = transition(vault, owner, ixs[0])->Ok_0;
    assert(s1.0.record == Some(Vault { owner: owner.key, balance: 0 }));
    let s2 = transition(s1.0, s1.1, ixs[1])->Ok_0;
    let s3 = transition(s2.0, s2.1, ixs[2])->Ok_0;
    let s4 = transition(s3.0, s3.1, ixs[3])->Ok_0;
    assert(ixs.drop_first() =~= seq![ixs[1], ixs[2], ixs[3]]);
    assert(ixs.drop_first().drop_first() =~= seq![ixs[2], ixs[3]]);
    assert(ixs.drop_first().drop_first().drop_first() =~= seq![ixs[3]]);
    assert(ixs.drop_first().drop_first().drop_first().drop_first() =~= Seq::<
        VaultInstruction,
    >::empty());
    let t3 = ixs.drop_first().drop_first().drop_first();
    let t2 = ixs.drop_first().drop_first();
    let t1 = ixs.drop_first();
    assert(run(s4.0, s4.1, t3.drop_first()) == Some(s4));
    assert(run(s3.0, s3.1, t3) == Some(s4));
    assert(run(s2.0, s2.1, t2) == Some(s4));
    assert(run(s1.0, s1.1, t1) == Some(s4));
    assert(s4.1.lamports == owner.lamports + vault.lamports);
}

} // verus!
