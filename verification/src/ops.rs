use vstd::prelude::*;
use crate::address::Address;
use crate::error::VaultError;
use crate::pda::{authority_proof_seeds, cpa_of};
use crate::state::{CustodyState, CustomerVaultAccount, Vault};
use crate::token::{transfer_checked, transfer_transition, Authority, MintState};

verus! {

// ---------------------------------------------------------------------------
// The three vault operations. Each runs as one atomic unit of work under
// the execution host; a precondition failure aborts with zero side effects,
// and a failure after a committed transfer (only the reconciliation read,
// whose availability the host reports in `reload_ok`) is never surfaced as
// an operation failure.
// ---------------------------------------------------------------------------

/// What initializing the vault does to the registry slot.
pub open spec fn initialize_transition(slot: Option<Vault>, manager: Address) -> (Option<
    Vault,
>, Result<(), VaultError>) {
    match slot {
        Some(v) => (Some(v), Err(VaultError::AlreadyInitialized)),
        None => (Some(Vault { manager }), Ok(())),
    }
}

/// Create the vault registry record, storing the manager identity. Fails
/// with `AlreadyInitialized` where the record already exists, leaving it
/// untouched. The recorded manager is never re-checked by any operation.
pub fn initialize_vault(slot: &mut Option<Vault>, manager: &Address) -> (r: Result<
    (),
    VaultError,
>)
    ensures
        (*final(slot), r) == initialize_transition(*old(slot), *manager),
{
    if slot.is_some() {
        Err(VaultError::AlreadyInitialized)
    } else {
        *slot = Some(Vault { manager: *manager });
        Ok(())
    }
}

/// What depositing does to the custody state, and the result it reports:
/// a zero amount and an asset-identity mismatch are refused before any
/// transfer; a refused transfer aborts with no state change; after a
/// committed transfer the balance record is reconciled to the custody
/// account's true amount, or left stale where the read is unavailable.
pub open spec fn deposit_transition(
    s: CustodyState,
    mint: MintState,
    customer: Address,
    custody_address: Address,
    amount: u64,
    reload_ok: bool,
) -> (CustodyState, Result<(), VaultError>) {
    if amount == 0 {
        (s, Err(VaultError::InvalidDepositAmount))
    } else if !(s.customer_token_account.mint@ == mint.address@
        && s.vault_token_account.mint@ == mint.address@) {
        (s, Err(VaultError::InvalidMint))
    } else {
        let t = transfer_transition(
            s.customer_token_account,
            s.vault_token_account,
            mint,
            mint.decimals,
            Some(customer@),
            amount,
        );
        match t.2 {
            Ok(()) => {
                let record = if reload_ok {
                    CustomerVaultAccount {
                        vault_token_account: custody_address,
                        balance: t.1.amount,
                    }
                } else {
                    s.customer_vault_account
                };
                (
                    CustodyState {
                        customer_token_account: t.0,
                        vault_token_account: t.1,
                        customer_vault_account: record,
                    },
                    Ok(()),
                )
            },
            Err(e) => (s, Err(VaultError::TransferFailed(e))),
        }
    }
}

/// Deposit `amount` units of the declared asset from the depositor's
/// personal token account into the custody account, authorized by the
/// depositor directly. On success the balance record is overwritten with
/// the custody account's post-transfer amount and its back-reference set;
/// where the reconciliation read is unavailable (`reload_ok` false) the
/// deposit still succeeds and the record stays as it was.
pub fn deposit(
    state: &mut CustodyState,
    mint: &MintState,
    customer: &Address,
    custody_address: &Address,
    program: &Address,
    amount: u64,
    reload_ok: bool,
) -> (r: Result<(), VaultError>)
    ensures
        (*final(state), r) == deposit_transition(
            *old(state),
            *mint,
            *customer,
            *custody_address,
            amount,
            reload_ok,
        ),
{
    if amount == 0 {
        return Err(VaultError::InvalidDepositAmount);
    }
    if !(state.customer_token_account.mint.same_as(&mint.address)
        && state.vault_token_account.mint.same_as(&mint.address)) {
        return Err(VaultError::InvalidMint);
    }
    let authority = Authority::DirectSigner(*customer);
    let mut from = state.customer_token_account;
    let mut to = state.vault_token_account;
    let outcome = transfer_checked(
        &mut from,
        &mut to,
        mint,
        amount,
        mint.decimals,
        &authority,
        program,
    );
    match outcome {
        Ok(()) => {
            state.customer_token_account = from;
            state.vault_token_account = to;
            if reload_ok {
                state.customer_vault_account = CustomerVaultAccount {
                    vault_token_account: *custody_address,
                    balance: state.vault_token_account.amount,
                };
            }
            Ok(())
        },
        Err(e) => Err(VaultError::TransferFailed(e)),
    }
}

/// What withdrawing does to the custody state, and the result it
/// reports: a zero amount, a custody balance not strictly greater than the amount, and an
/// asset-identity mismatch are refused before any transfer, in that order;
/// the transfer is authorized by the derivation proof the seeds and bump
/// rebuild; reconciliation follows the same staleness policy as deposits.
pub open spec fn withdraw_transition(
    s: CustodyState,
    mint: MintState,
    customer: Address,
    vault: Address,
    authority_bump: u8,
    program: Seq<u8>,
    amount: u64,
    reload_ok: bool,
) -> (CustodyState, Result<(), VaultError>) {
    if amount == 0 {
        (s, Err(VaultError::InvalidWithdrawAmount))
    } else if !(s.vault_token_account.amount > amount) {
        (s, Err(VaultError::InsufficientFunds))
    } else if !(s.customer_token_account.mint@ == mint.address@
        && s.vault_token_account.mint@ == mint.address@) {
        (s, Err(VaultError::InvalidMint))
    } else {
        let authority = cpa_of(
            authority_proof_seeds(vault@, mint.address@, customer@, authority_bump),
            program,
        );
        let t = transfer_transition(
            s.vault_token_account,
            s.customer_token_account,
            mint,
            mint.decimals,
            authority,
            amount,
        );
        match t.2 {
            Ok(()) => {
                let record = if reload_ok {
                    CustomerVaultAccount {
                        vault_token_account: s.customer_vault_account.vault_token_account,
                        balance: t.0.amount,
                    }
                } else {
                    s.customer_vault_account
                };
                (
                    CustodyState {
                        customer_token_account: t.1,
                        vault_token_account: t.0,
                        customer_vault_account: record,
                    },
                    Ok(()),
                )
            },
            Err(e) => (s, Err(VaultError::TransferFailed(e))),
        }
    }
}

/// Withdraw `amount` units of the declared asset from the custody account
/// back to the depositor's personal token account. The custody account must
/// hold strictly more than `amount` (an exact-balance withdrawal is
/// refused). Authorization is by the recomputed signing-authority
/// derivation seeds — the only path by which funds leave a custody
/// account — never by a conventional signature. On success the balance
/// record is reconciled as deposits are.
pub fn withdraw(
    state: &mut CustodyState,
    mint: &MintState,
    customer: &Address,
    vault: &Address,
    authority_bump: u8,
    program: &Address,
    amount: u64,
    reload_ok: bool,
) -> (r: Result<(), VaultError>)
    ensures
        (*final(state), r) == withdraw_transition(
            *old(state),
            *mint,
            *customer,
            *vault,
            authority_bump,
            program@,
            amount,
            reload_ok,
        ),
{
    if amount == 0 {
        return Err(VaultError::InvalidWithdrawAmount);
    }
    if !(state.vault_token_account.amount > amount) {
        return Err(VaultError::InsufficientFunds);
    }
    if !(state.customer_token_account.mint.same_as(&mint.address)
        && state.vault_token_account.mint.same_as(&mint.address)) {
        return Err(VaultError::InvalidMint);
    }
    let seeds = crate::pda::build_authority_proof_seeds(
        vault,
        &mint.address,
        customer,
        authority_bump,
    );
    let authority = Authority::DerivedProof(seeds);
    let mut from = state.vault_token_account;
    let mut to = state.customer_token_account;
    let outcome = transfer_checked(
        &mut from,
        &mut to,
        mint,
        amount,
        mint.decimals,
        &authority,
        program,
    );
    match outcome {
        Ok(()) => {
            state.vault_token_account = from;
            state.customer_token_account = to;
            if reload_ok {
                state.customer_vault_account = CustomerVaultAccount {
                    vault_token_account: state.customer_vault_account.vault_token_account,
                    balance: state.vault_token_account.amount,
                };
            }
            Ok(())
        },
        Err(e) => Err(VaultError::TransferFailed(e)),
    }
}

} // verus!
