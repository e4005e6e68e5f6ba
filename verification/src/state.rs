use vstd::prelude::*;
use crate::address::Address;
use crate::token::{MintState, TokenAccountState};

verus! {

/// The vault registry root record: the identity recorded as the vault's
/// manager at initialization. Created exactly once, immutable thereafter.
#[derive(Clone, Copy, Debug)]
pub struct Vault {
    pub manager: Address,
}

/// The per-(vault, asset, depositor) balance record: the local mirror of
/// the custody token account, refreshed after every successful transfer.
#[derive(Clone, Copy, Debug)]
pub struct CustomerVaultAccount {
    /// Back-reference to the custody token account this record mirrors.
    pub vault_token_account: Address,
    /// Last-observed amount held in the custody token account. May go
    /// briefly stale where a reconciliation read fails.
    pub balance: u64,
}

/// All per-(vault, asset, depositor) custody state one deposit or
/// withdrawal touches: the depositor's personal token account, the custody
/// token account, and the balance record mirroring the custody account.
#[derive(Clone, Copy, Debug)]
pub struct CustodyState {
    pub customer_token_account: TokenAccountState,
    pub vault_token_account: TokenAccountState,
    pub customer_vault_account: CustomerVaultAccount,
}

/// The identity bytes of a freshly created, still unset back-reference.
pub open spec fn unset_address() -> Seq<u8> {
    Seq::new(32, |i: int| 0u8)
}

/// Resolve the custody token account and balance record for a triple,
/// creating both on first use: the custody account starts empty, holding
/// the declared asset with the signing authority as its sole authorized
/// mover; the balance record starts zeroed. An existing pair is handed
/// back untouched, so repeated resolution is idempotent.
pub fn ensure_custody_accounts(
    existing: Option<(TokenAccountState, CustomerVaultAccount)>,
    mint: &MintState,
    signing_authority: &Address,
) -> (r: (TokenAccountState, CustomerVaultAccount))
    ensures
        existing matches Some(e) ==> r == e,
        existing is None ==> {
            &&& r.0.mint@ == mint.address@
            &&& r.0.owner@ == signing_authority@
            &&& r.0.amount == 0
            &&& r.1.vault_token_account@ == unset_address()
            &&& r.1.balance == 0
        },
{
    match existing {
        Some(pair) => pair,
        None => {
            let custody = TokenAccountState {
                mint: mint.address,
                owner: *signing_authority,
                amount: 0,
            };
            let record = CustomerVaultAccount {
                vault_token_account: Address::new([0u8; 32]),
                balance: 0,
            };
            proof {
                assert(record.vault_token_account@ =~= unset_address());
            }
            (custody, record)
        },
    }
}

} // verus!
