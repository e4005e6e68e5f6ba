use vstd::prelude::*;
use crate::address::Address;
use crate::error::TransferError;
use crate::pda::cpa_of;

verus! {

// ---------------------------------------------------------------------------
// The token-transfer service, specified at the boundary.
//
// The authoritative fungible-token ledger is an external collaborator; this
// module models the accounts it keeps and the one primitive this library
// relies on: moving an amount between two token-holding accounts under an
// authority check. The surrounding execution host runs each vault operation
// as one atomic unit, so within an operation the modelled accounts are the
// ledger's truth.
// ---------------------------------------------------------------------------

/// An external fungible-token definition: its identity and its fixed
/// decimal precision. Referenced, never owned, by this library.
#[derive(Clone, Copy, Debug)]
pub struct MintState {
    pub address: Address,
    pub decimals: u8,
}

/// A token-holding account of the external ledger: the asset it holds, its
/// sole authorized mover, and the amount it currently holds.
#[derive(Clone, Copy, Debug)]
pub struct TokenAccountState {
    pub mint: Address,
    pub owner: Address,
    pub amount: u64,
}

/// How a transfer is authorized: by the account holder signing for
/// themselves, or by a keyless derived identity whose authority is proven
/// by presenting its derivation seeds.
pub enum Authority {
    DirectSigner(Address),
    DerivedProof(Vec<Vec<u8>>),
}

/// The identity an authority resolves to under a program: a direct signer
/// stands for itself (the host has already verified the signature); a
/// derivation proof stands for whatever address its seeds derive, or for
/// nothing where the derivation is refused.
pub open spec fn resolved_authority(authority: Authority, program: Seq<u8>) -> Option<Seq<u8>> {
    match authority {
        Authority::DirectSigner(signer) => Some(signer@),
        Authority::DerivedProof(seeds) => cpa_of(seeds.deep_view(), program),
    }
}

/// What one call of the transfer primitive does: the two accounts
/// afterward and the result it reports. A refused transfer leaves both accounts unchanged.
pub open spec fn transfer_transition(
    from: TokenAccountState,
    to: TokenAccountState,
    mint: MintState,
    decimals: u8,
    authority: Option<Seq<u8>>,
    amount: u64,
) -> (TokenAccountState, TokenAccountState, Result<(), TransferError>) {
    if authority is None {
        (from, to, Err(TransferError::InvalidAuthorityProof))
    } else if authority != Some(from.owner@) {
        (from, to, Err(TransferError::OwnerMismatch))
    } else if from.mint@ != mint.address@ || to.mint@ != mint.address@ {
        (from, to, Err(TransferError::MintMismatch))
    } else if decimals != mint.decimals {
        (from, to, Err(TransferError::DecimalsMismatch))
    } else if from.amount < amount {
        (from, to, Err(TransferError::InsufficientBalance))
    } else if to.amount + amount > u64::MAX {
        (from, to, Err(TransferError::AmountOverflow))
    } else {
        (
            TokenAccountState { mint: from.mint, owner: from.owner, amount: (from.amount - amount) as u64 },
            TokenAccountState { mint: to.mint, owner: to.owner, amount: (to.amount + amount) as u64 },
            Ok(()),
        )
    }
}

/// Resolve an authority to the identity it stands for. A derivation proof
/// is resolved by recomputing the derivation from the presented seeds;
/// no key is ever involved.
pub fn resolve_authority(authority: &Authority, program: &Address) -> (r: Option<Address>)
    ensures
        r matches Some(a) ==> resolved_authority(*authority, program@) == Some(a@),
        r is None ==> resolved_authority(*authority, program@) is None,
{
    match authority {
        Authority::DirectSigner(signer) => Some(*signer),
        Authority::DerivedProof(seeds) => crate::pda::create_program_address_call(seeds, program),
    }
}

/// Move `amount` units of `mint` from `from` to `to`, authorized by
/// `authority` under `program`: the in-model realization of the external
/// transfer primitive's documented behaviour.
pub fn transfer_checked(
    from: &mut TokenAccountState,
    to: &mut TokenAccountState,
    mint: &MintState,
    amount: u64,
    decimals: u8,
    authority: &Authority,
    program: &Address,
) -> (r: Result<(), TransferError>)
    ensures
        (*final(from), *final(to), r) == transfer_transition(
            *old(from),
            *old(to),
            *mint,
            decimals,
            resolved_authority(*authority, program@),
            amount,
        ),
{
    let resolved = resolve_authority(authority, program);
    match resolved {
        None => Err(TransferError::InvalidAuthorityProof),
        Some(mover) => {
            if !mover.same_as(&from.owner) {
                Err(TransferError::OwnerMismatch)
            } else if !(from.mint.same_as(&mint.address) && to.mint.same_as(&mint.address)) {
                Err(TransferError::MintMismatch)
            } else if decimals != mint.decimals {
                Err(TransferError::DecimalsMismatch)
            } else if from.amount < amount {
                Err(TransferError::InsufficientBalance)
            } else if to.amount > u64::MAX - amount {
                Err(TransferError::AmountOverflow)
            } else {
                from.amount = from.amount - amount;
                to.amount = to.amount + amount;
                Ok(())
            }
        },
    }
}

} // verus!
