use vstd::prelude::*;
use crate::address::Address;
use crate::error::VaultError;
use crate::ops::{deposit_transition, withdraw_transition};
use crate::pda::{authority_proof_seeds, cpa_of};
use crate::state::CustodyState;
use crate::token::MintState;

verus! {

// ---------------------------------------------------------------------------
// Laws of the deposit/withdraw state machine, stated over the transition
// functions the executable operations are proved to implement.
// ---------------------------------------------------------------------------

/// The custody state a properly set up (vault, asset, depositor) triple
/// presents: both token accounts hold the declared asset, the depositor is
/// the authorized mover of their personal account, and the custody
/// account's sole authorized mover is the identity that the signing
/// authority's derivation proof resolves to.
pub open spec fn custody_state_wf(
    s: CustodyState,
    mint: MintState,
    customer: Address,
    vault: Address,
    authority_bump: u8,
    program: Seq<u8>,
) -> bool {
    &&& s.customer_token_account.mint@ == mint.address@
    &&& s.vault_token_account.mint@ == mint.address@
    &&& s.customer_token_account.owner@ == customer@
    &&& cpa_of(authority_proof_seeds(vault@, mint.address@, customer@, authority_bump), program)
        == Some(s.vault_token_account.owner@)
}

/// Round trip: depositing `a` and then withdrawing `a`, with `a` strictly
/// below the post-deposit custody balance (the strict `>` withdrawal
/// boundary) and both reconciliation reads available, succeeds twice and
/// returns every balance to where it started; in particular the balance
/// record ends mirroring the pre-deposit custody balance.
pub proof fn lemma_deposit_withdraw_round_trip(
    s0: CustodyState,
    mint: MintState,
    customer: Address,
    vault: Address,
    custody_address: Address,
    authority_bump: u8,
    program: Seq<u8>,
    a: u64,
)
    requires
        custody_state_wf(s0, mint, customer, vault, authority_bump, program),
        a > 0,
        a <= s0.customer_token_account.amount,
        s0.vault_token_account.amount + a <= u64::MAX,
        a < s0.vault_token_account.amount + a,
    ensures
        ({
            let (s1, r1) = deposit_transition(s0, mint, customer, custody_address, a, true);
            let (s2, r2) = withdraw_transition(
                s1,
                mint,
                customer,
                vault,
                authority_bump,
                program,
                a,
                true,
            );
            &&& r1 == Ok::<(), VaultError>(())
            &&& r2 == Ok::<(), VaultError>(())
            &&& s2.customer_vault_account.balance == s0.vault_token_account.amount
            &&& s2.vault_token_account.amount == s0.vault_token_account.amount
            &&& s2.customer_token_account.amount == s0.customer_token_account.amount
        }),
{
}

/// A zero-amount deposit fails `InvalidDepositAmount`; no account is
/// mutated, whether or not the reconciliation read would have been
/// available.
pub proof fn lemma_zero_deposit_rejected(
    s: CustodyState,
    mint: MintState,
    customer: Address,
    custody_address: Address,
    reload_ok: bool,
)
    ensures
        deposit_transition(s, mint, customer, custody_address, 0, reload_ok) == (
            s,
            Err::<(), VaultError>(VaultError::InvalidDepositAmount),
        ),
{
}

/// A zero-amount withdrawal fails `InvalidWithdrawAmount`; no account is
/// mutated.
pub proof fn lemma_zero_withdraw_rejected(
    s: CustodyState,
    mint: MintState,
    customer: Address,
    vault: Address,
    authority_bump: u8,
    program: Seq<u8>,
    reload_ok: bool,
)
    ensures
        withdraw_transition(s, mint, customer, vault, authority_bump, program, 0, reload_ok) == (
            s,
            Err::<(), VaultError>(VaultError::InvalidWithdrawAmount),
        ),
{
}

/// Withdrawing exactly the custody balance fails `InsufficientFunds`: the
/// sufficiency boundary is strict `>`, not `>=`. (A zero balance is left
/// out: there the zero-amount check fires first.)
pub proof fn lemma_exact_balance_withdraw_rejected(
    s: CustodyState,
    mint: MintState,
    customer: Address,
    vault: Address,
    authority_bump: u8,
    program: Seq<u8>,
    reload_ok: bool,
)
    requires
        s.vault_token_account.amount > 0,
    ensures
        withdraw_transition(
            s,
            mint,
            customer,
            vault,
            authority_bump,
            program,
            s.vault_token_account.amount,
            reload_ok,
        ) == (s, Err::<(), VaultError>(VaultError::InsufficientFunds)),
{
}

/// A withdrawal whose accounts do not all hold the declared asset fails
/// `InvalidMint` before any transfer is attempted: no account is mutated.
pub proof fn lemma_mint_mismatch_withdraw_rejected(
    s: CustodyState,
    mint: MintState,
    customer: Address,
    vault: Address,
    authority_bump: u8,
    program: Seq<u8>,
    amount: u64,
    reload_ok: bool,
)
    requires
        amount > 0,
        s.vault_token_account.amount > amount,
        s.customer_token_account.mint@ != mint.address@ || s.vault_token_account.mint@
            != mint.address@,
    ensures
        withdraw_transition(s, mint, customer, vault, authority_bump, program, amount, reload_ok)
            == (s, Err::<(), VaultError>(VaultError::InvalidMint)),
{
}

/// Two serialized withdrawals of the same amount against one triple, where
/// the custody balance covers one withdrawal but not two (six tenths of
/// the balance, for instance): the first succeeds and the second observes
/// `InsufficientFunds`, touching nothing.
pub proof fn lemma_double_withdraw_serializes(
    s0: CustodyState,
    mint: MintState,
    customer: Address,
    vault: Address,
    authority_bump: u8,
    program: Seq<u8>,
    a: u64,
)
    requires
        custody_state_wf(s0, mint, customer, vault, authority_bump, program),
        a > 0,
        s0.vault_token_account.amount > a,
        s0.vault_token_account.amount <= 2 * a,
        s0.customer_token_account.amount + a <= u64::MAX,
    ensures
        ({
            let (s1, r1) = withdraw_transition(
                s0,
                mint,
                customer,
                vault,
                authority_bump,
                program,
                a,
                true,
            );
            let (s2, r2) = withdraw_transition(
                s1,
                mint,
                customer,
                vault,
                authority_bump,
                program,
                a,
                true,
            );
            &&& r1 == Ok::<(), VaultError>(())
            &&& r2 == Err::<(), VaultError>(VaultError::InsufficientFunds)
            &&& s2 == s1
        }),
{
}

/// Where the reconciliation read is unavailable after a deposit's committed
/// transfer, the deposit still reports success and the balance record keeps
/// its pre-operation value: stale, not rolled back.
pub proof fn lemma_stale_reconciliation_deposit(
    s0: CustodyState,
    mint: MintState,
    customer: Address,
    custody_address: Address,
    a: u64,
)
    requires
        s0.customer_token_account.mint@ == mint.address@,
        s0.vault_token_account.mint@ == mint.address@,
        s0.customer_token_account.owner@ == customer@,
        a > 0,
        a <= s0.customer_token_account.amount,
        s0.vault_token_account.amount + a <= u64::MAX,
    ensures
        ({
            let (s1, r1) = deposit_transition(s0, mint, customer, custody_address, a, false);
            &&& r1 == Ok::<(), VaultError>(())
            &&& s1.customer_vault_account == s0.customer_vault_account
            &&& s1.vault_token_account.amount == s0.vault_token_account.amount + a
        }),
{
}

/// The same staleness policy on the withdraw side: a committed transfer
/// with an unavailable reconciliation read reports success and leaves the
/// balance record at its pre-operation value.
pub proof fn lemma_stale_reconciliation_withdraw(
    s0: CustodyState,
    mint: MintState,
    customer: Address,
    vault: Address,
    authority_bump: u8,
    program: Seq<u8>,
    a: u64,
)
    requires
        custody_state_wf(s0, mint, customer, vault, authority_bump, program),
        a > 0,
        s0.vault_token_account.amount > a,
        s0.customer_token_account.amount + a <= u64::MAX,
    ensures
        ({
            let (s1, r1) = withdraw_transition(
                s0,
                mint,
                customer,
                vault,
                authority_bump,
                program,
                a,
                false,
            );
            &&& r1 == Ok::<(), VaultError>(())
            &&& s1.customer_vault_account == s0.customer_vault_account
            &&& s1.vault_token_account.amount == s0.vault_token_account.amount - a
        }),
{
}


/// The balance-mirror invariant: a deposit whose reconciliation read is
/// available leaves the balance record equal to the custody account's true
/// amount, with its back-reference set to the custody account.
pub proof fn lemma_mirror_synced_after_deposit(
    s: CustodyState,
    mint: MintState,
    customer: Address,
    custody_address: Address,
    amount: u64,
)
    ensures
        ({
            let (s1, r1) = deposit_transition(s, mint, customer, custody_address, amount, true);
            r1 == Ok::<(), VaultError>(()) ==> {
                &&& s1.customer_vault_account.balance == s1.vault_token_account.amount
                &&& s1.customer_vault_account.vault_token_account == custody_address
            }
        }),
{
}

/// The same invariant on the withdraw side: a withdrawal whose
/// reconciliation read is available leaves the balance record equal to the
/// custody account's true amount.
pub proof fn lemma_mirror_synced_after_withdraw(
    s: CustodyState,
    mint: MintState,
    customer: Address,
    vault: Address,
    authority_bump: u8,
    program: Seq<u8>,
    amount: u64,
)
    ensures
        ({
            let (s1, r1) = withdraw_transition(
                s,
                mint,
                customer,
                vault,
                authority_bump,
                program,
                amount,
                true,
            );
            r1 == Ok::<(), VaultError>(()) ==> s1.customer_vault_account.balance
                == s1.vault_token_account.amount
        }),
{
}

} // verus!
