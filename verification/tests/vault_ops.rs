use asset_manager_vault::address::Address;
use asset_manager_vault::error::{TransferError, VaultError};
use asset_manager_vault::ops::{deposit, initialize_vault, withdraw};
use asset_manager_vault::pda::{derive_custody_account, derive_signing_authority};
use asset_manager_vault::state::{ensure_custody_accounts, CustodyState, CustomerVaultAccount, Vault};
use asset_manager_vault::token::{MintState, TokenAccountState};

fn addr(b: u8) -> Address {
    Address::new([b; 32])
}

struct Setup {
    program: Address,
    vault: Address,
    mint: MintState,
    customer: Address,
    custody_address: Address,
    authority_bump: u8,
    state: CustodyState,
}

/// A properly derived custody setup: the custody token account is owned by
/// the derived signing authority and starts empty; the depositor owns their
/// personal account with `customer_amount` units.
fn setup(customer_amount: u64) -> Setup {
    let program = addr(9);
    let vault = addr(1);
    let mint = MintState { address: addr(2), decimals: 6 };
    let customer = addr(3);
    let (custody_address, _) =
        derive_custody_account(&vault, &mint.address, &customer, &program).unwrap();
    let (authority, authority_bump) =
        derive_signing_authority(&vault, &mint.address, &customer, &program).unwrap();
    let (vault_token_account, customer_vault_account) =
        ensure_custody_accounts(None, &mint, &authority);
    let state = CustodyState {
        customer_token_account: TokenAccountState {
            mint: mint.address,
            owner: customer,
            amount: customer_amount,
        },
        vault_token_account,
        customer_vault_account,
    };
    Setup { program, vault, mint, customer, custody_address, authority_bump, state }
}

#[test]
fn initialize_vault_records_manager_once() {
    let manager = addr(5);
    let mut slot: Option<Vault> = None;
    assert_eq!(initialize_vault(&mut slot, &manager), Ok(()));
    assert!(slot.as_ref().unwrap().manager.same_as(&manager));
    let again = initialize_vault(&mut slot, &addr(6));
    assert_eq!(again, Err(VaultError::AlreadyInitialized));
    assert!(slot.as_ref().unwrap().manager.same_as(&manager));
}

#[test]
fn deposit_zero_amount_rejected_without_mutation() {
    let mut s = setup(500);
    let r = deposit(
        &mut s.state,
        &s.mint,
        &s.customer,
        &s.custody_address,
        &s.program,
        0,
        true,
    );
    assert_eq!(r, Err(VaultError::InvalidDepositAmount));
    assert_eq!(s.state.customer_token_account.amount, 500);
    assert_eq!(s.state.vault_token_account.amount, 0);
    assert_eq!(s.state.customer_vault_account.balance, 0);
}

#[test]
fn withdraw_zero_amount_rejected_without_mutation() {
    let mut s = setup(500);
    let r = withdraw(
        &mut s.state,
        &s.mint,
        &s.customer,
        &s.vault,
        s.authority_bump,
        &s.program,
        0,
        true,
    );
    assert_eq!(r, Err(VaultError::InvalidWithdrawAmount));
    assert_eq!(s.state.customer_token_account.amount, 500);
    assert_eq!(s.state.vault_token_account.amount, 0);
}

#[test]
fn deposit_mint_mismatch_rejected() {
    let mut s = setup(500);
    s.state.customer_token_account.mint = addr(11);
    let r = deposit(
        &mut s.state,
        &s.mint,
        &s.customer,
        &s.custody_address,
        &s.program,
        100,
        true,
    );
    assert_eq!(r, Err(VaultError::InvalidMint));
    assert_eq!(s.state.customer_token_account.amount, 500);
    assert_eq!(s.state.vault_token_account.amount, 0);
}

#[test]
fn withdraw_mint_mismatch_rejected_before_transfer() {
    let mut s = setup(500);
    let r = deposit(
        &mut s.state,
        &s.mint,
        &s.customer,
        &s.custody_address,
        &s.program,
        100,
        true,
    );
    assert_eq!(r, Ok(()));
    // A mismatched declared asset must be caught before any transfer.
    let wrong_mint = MintState { address: addr(12), decimals: 6 };
    let r = withdraw(
        &mut s.state,
        &wrong_mint,
        &s.customer,
        &s.vault,
        s.authority_bump,
        &s.program,
        40,
        true,
    );
    assert_eq!(r, Err(VaultError::InvalidMint));
    assert_eq!(s.state.vault_token_account.amount, 100);
    assert_eq!(s.state.customer_vault_account.balance, 100);
}

#[test]
fn withdraw_exact_balance_hits_strict_boundary() {
    let mut s = setup(500);
    assert_eq!(
        deposit(&mut s.state, &s.mint, &s.customer, &s.custody_address, &s.program, 100, true),
        Ok(())
    );
    // The sufficiency check is strict `>`: withdrawing the exact balance fails.
    let r = withdraw(
        &mut s.state,
        &s.mint,
        &s.customer,
        &s.vault,
        s.authority_bump,
        &s.program,
        100,
        true,
    );
    assert_eq!(r, Err(VaultError::InsufficientFunds));
    assert_eq!(s.state.vault_token_account.amount, 100);
    assert_eq!(s.state.customer_token_account.amount, 400);
}

#[test]
fn deposit_insufficient_customer_funds_fails_transfer() {
    let mut s = setup(50);
    let r = deposit(
        &mut s.state,
        &s.mint,
        &s.customer,
        &s.custody_address,
        &s.program,
        100,
        true,
    );
    assert_eq!(r, Err(VaultError::TransferFailed(TransferError::InsufficientBalance)));
    assert_eq!(s.state.customer_token_account.amount, 50);
    assert_eq!(s.state.vault_token_account.amount, 0);
    assert_eq!(s.state.customer_vault_account.balance, 0);
}

#[test]
fn deposit_overflowing_custody_balance_fails_transfer() {
    let mut s = setup(500);
    s.state.vault_token_account.amount = u64::MAX - 10;
    let r = deposit(
        &mut s.state,
        &s.mint,
        &s.customer,
        &s.custody_address,
        &s.program,
        100,
        true,
    );
    assert_eq!(r, Err(VaultError::TransferFailed(TransferError::AmountOverflow)));
    assert_eq!(s.state.customer_token_account.amount, 500);
    assert_eq!(s.state.vault_token_account.amount, u64::MAX - 10);
}

#[test]
fn withdraw_with_wrong_bump_is_refused_by_the_transfer() {
    let mut s = setup(500);
    assert_eq!(
        deposit(&mut s.state, &s.mint, &s.customer, &s.custody_address, &s.program, 100, true),
        Ok(())
    );
    let wrong_bump = s.authority_bump.wrapping_sub(1);
    let r = withdraw(
        &mut s.state,
        &s.mint,
        &s.customer,
        &s.vault,
        wrong_bump,
        &s.program,
        40,
        true,
    );
    assert!(matches!(r, Err(VaultError::TransferFailed(_))));
    assert_eq!(s.state.vault_token_account.amount, 100);
    assert_eq!(s.state.customer_token_account.amount, 400);
}

#[test]
fn reconciliation_failure_leaves_mirror_stale_but_reports_success() {
    let mut s = setup(500);
    assert_eq!(
        deposit(&mut s.state, &s.mint, &s.customer, &s.custody_address, &s.program, 100, true),
        Ok(())
    );
    assert_eq!(s.state.customer_vault_account.balance, 100);
    // The transfer commits, the re-read fails: success, stale mirror.
    let r = deposit(
        &mut s.state,
        &s.mint,
        &s.customer,
        &s.custody_address,
        &s.program,
        30,
        false,
    );
    assert_eq!(r, Ok(()));
    assert_eq!(s.state.vault_token_account.amount, 130);
    assert_eq!(s.state.customer_vault_account.balance, 100);
}

#[test]
fn deposit_then_withdraw_round_trip_restores_balances() {
    let mut s = setup(500);
    // Seed the custody account so the strict boundary admits a full withdrawal.
    assert_eq!(
        deposit(&mut s.state, &s.mint, &s.customer, &s.custody_address, &s.program, 10, true),
        Ok(())
    );
    assert_eq!(
        deposit(&mut s.state, &s.mint, &s.customer, &s.custody_address, &s.program, 100, true),
        Ok(())
    );
    assert_eq!(s.state.customer_vault_account.balance, 110);
    let r = withdraw(
        &mut s.state,
        &s.mint,
        &s.customer,
        &s.vault,
        s.authority_bump,
        &s.program,
        100,
        true,
    );
    assert_eq!(r, Ok(()));
    assert_eq!(s.state.customer_vault_account.balance, 10);
    assert_eq!(s.state.vault_token_account.amount, 10);
    assert_eq!(s.state.customer_token_account.amount, 490);
}

#[test]
fn double_withdraw_of_six_tenths_serializes() {
    let mut s = setup(500);
    assert_eq!(
        deposit(&mut s.state, &s.mint, &s.customer, &s.custody_address, &s.program, 100, true),
        Ok(())
    );
    let first = withdraw(
        &mut s.state,
        &s.mint,
        &s.customer,
        &s.vault,
        s.authority_bump,
        &s.program,
        60,
        true,
    );
    let second = withdraw(
        &mut s.state,
        &s.mint,
        &s.customer,
        &s.vault,
        s.authority_bump,
        &s.program,
        60,
        true,
    );
    assert_eq!(first, Ok(()));
    assert_eq!(second, Err(VaultError::InsufficientFunds));
    assert_eq!(s.state.vault_token_account.amount, 40);
    assert_eq!(s.state.customer_vault_account.balance, 40);
}

#[test]
fn scenario_deposit_100_withdraw_40_then_60_hits_boundary() {
    let manager = addr(5);
    let mut slot: Option<Vault> = None;
    assert_eq!(initialize_vault(&mut slot, &manager), Ok(()));

    let mut s = setup(1000);
    assert_eq!(
        deposit(&mut s.state, &s.mint, &s.customer, &s.custody_address, &s.program, 100, true),
        Ok(())
    );
    assert_eq!(s.state.customer_vault_account.balance, 100);
    assert!(s.state.customer_vault_account.vault_token_account.same_as(&s.custody_address));

    assert_eq!(
        withdraw(
            &mut s.state,
            &s.mint,
            &s.customer,
            &s.vault,
            s.authority_bump,
            &s.program,
            40,
            true,
        ),
        Ok(())
    );
    assert_eq!(s.state.customer_vault_account.balance, 60);

    assert_eq!(
        withdraw(
            &mut s.state,
            &s.mint,
            &s.customer,
            &s.vault,
            s.authority_bump,
            &s.program,
            60,
            true,
        ),
        Err(VaultError::InsufficientFunds)
    );
    assert_eq!(s.state.customer_vault_account.balance, 60);
}

#[test]
fn ensure_custody_accounts_creates_then_looks_up() {
    let mint = MintState { address: addr(2), decimals: 6 };
    let authority = addr(8);
    let (custody, record) = ensure_custody_accounts(None, &mint, &authority);
    assert!(custody.mint.same_as(&mint.address));
    assert!(custody.owner.same_as(&authority));
    assert_eq!(custody.amount, 0);
    assert_eq!(record.balance, 0);
    assert!(record.vault_token_account.same_as(&Address::new([0; 32])));

    let used = TokenAccountState { mint: mint.address, owner: authority, amount: 77 };
    let kept = CustomerVaultAccount { vault_token_account: addr(4), balance: 77 };
    let (custody2, record2) = ensure_custody_accounts(Some((used, kept)), &mint, &authority);
    assert_eq!(custody2.amount, 77);
    assert_eq!(record2.balance, 77);
    assert!(record2.vault_token_account.same_as(&addr(4)));
}
