use vstd::prelude::*;
use crate::address::Address;

verus! {

// ---------------------------------------------------------------------------
// What the host's address derivation returns.
//
// The derivation hashes a seed list together with a program id; its result
// has no statement shorter than the hash itself, so it is given a name and
// the trusted calls below are the only places that speak for it.
// ---------------------------------------------------------------------------

/// What `Pubkey::create_program_address` returns for a seed list and a
/// program id: `None` where the derivation is refused, otherwise the derived
/// 32-byte address. The result depends on the arguments alone.
pub uninterp spec fn cpa_of(seeds: Seq<Seq<u8>>, program: Seq<u8>) -> Option<Seq<u8>>;

/// What `Pubkey::try_find_program_address` returns for a seed list and a
/// program id: `None` where no bump yields a valid address, otherwise the
/// derived address and the bump found. The result depends on the arguments
/// alone.
pub uninterp spec fn pda_of(seeds: Seq<Seq<u8>>, program: Seq<u8>) -> Option<(Seq<u8>, u8)>;

/// Relies on `Pubkey::try_find_program_address` (through
/// `anchor_lang::solana_program`): deterministic in the seed list and the
/// program id; never panics; the address it returns is the one
/// `create_program_address` derives from the seeds extended with the bump.
#[verifier::external_body]
fn find_program_address_call(seeds: &Vec<Vec<u8>>, program: &Address) -> (r: Option<(Address, u8)>)
    ensures
        r matches Some(p) ==> pda_of(seeds.deep_view(), program@) == Some((p.0@, p.1)),
        r is None ==> pda_of(seeds.deep_view(), program@) is None,
        r matches Some(p) ==> cpa_of(seeds.deep_view().push(seq![p.1]), program@) == Some(p.0@),
{
    let refs: Vec<&[u8]> = seeds.iter().map(|s| s.as_slice()).collect();
    let pk = anchor_lang::solana_program::pubkey::Pubkey::new_from_array(program.to_array());
    anchor_lang::solana_program::pubkey::Pubkey::try_find_program_address(&refs, &pk)
        .map(|(a, b)| (Address::new(a.to_bytes()), b))
}

/// Relies on `Pubkey::create_program_address` (through
/// `anchor_lang::solana_program`): deterministic in the seed list and the
/// program id; never panics; refuses over-long seed lists and seed lists
/// whose derived point lies on the ed25519 curve.
#[verifier::external_body]
pub(crate) fn create_program_address_call(seeds: &Vec<Vec<u8>>, program: &Address) -> (r: Option<Address>)
    ensures
        r matches Some(a) ==> cpa_of(seeds.deep_view(), program@) == Some(a@),
        r is None ==> cpa_of(seeds.deep_view(), program@) is None,
{
    let refs: Vec<&[u8]> = seeds.iter().map(|s| s.as_slice()).collect();
    let pk = anchor_lang::solana_program::pubkey::Pubkey::new_from_array(program.to_array());
    anchor_lang::solana_program::pubkey::Pubkey::create_program_address(&refs, &pk)
        .ok()
        .map(|a| Address::new(a.to_bytes()))
}

// ---------------------------------------------------------------------------
// The seed lists this library derives from.
// ---------------------------------------------------------------------------

/// Domain-separation tag of the vault registry root: the bytes of "vault".
pub open spec fn vault_tag() -> Seq<u8> {
    seq![118u8, 97u8, 117u8, 108u8, 116u8]
}

/// Domain-separation tag distinguishing the signing authority (and balance
/// record) from the custody token account: the bytes of "customer".
pub open spec fn customer_tag() -> Seq<u8> {
    seq![99u8, 117u8, 115u8, 116u8, 111u8, 109u8, 101u8, 114u8]
}

/// Seed list of the vault registry root record.
pub open spec fn vault_root_seeds() -> Seq<Seq<u8>> {
    seq![vault_tag()]
}

/// Seed list of the custody token account for (vault, asset, depositor).
pub open spec fn custody_seeds(vault: Seq<u8>, asset: Seq<u8>, depositor: Seq<u8>) -> Seq<Seq<u8>> {
    seq![vault, asset, depositor]
}

/// Seed list of the signing authority (and balance record) for
/// (vault, asset, depositor): the custody seeds plus the distinguishing tag.
pub open spec fn authority_seeds(vault: Seq<u8>, asset: Seq<u8>, depositor: Seq<u8>) -> Seq<Seq<u8>> {
    seq![vault, asset, depositor, customer_tag()]
}

/// The seed list a withdrawal presents as its proof of delegated authority:
/// the signing-authority seeds extended with the bump byte.
pub open spec fn authority_proof_seeds(
    vault: Seq<u8>,
    asset: Seq<u8>,
    depositor: Seq<u8>,
    bump: u8,
) -> Seq<Seq<u8>> {
    authority_seeds(vault, asset, depositor).push(seq![bump])
}

fn customer_tag_bytes() -> (r: Vec<u8>)
    ensures
        r@ == customer_tag(),
{
    let mut v: Vec<u8> = Vec::new();
    v.push(99u8);
    v.push(117u8);
    v.push(115u8);
    v.push(116u8);
    v.push(111u8);
    v.push(109u8);
    v.push(101u8);
    v.push(114u8);
    proof {
        assert(v@ =~= customer_tag());
    }
    v
}

fn vault_tag_bytes() -> (r: Vec<u8>)
    ensures
        r@ == vault_tag(),
{
    let mut v: Vec<u8> = Vec::new();
    v.push(118u8);
    v.push(97u8);
    v.push(117u8);
    v.push(108u8);
    v.push(116u8);
    proof {
        assert(v@ =~= vault_tag());
    }
    v
}

// ---------------------------------------------------------------------------
// The three derivations.
// ---------------------------------------------------------------------------

/// Derive the vault registry root address for a program.
pub fn derive_vault_root(program: &Address) -> (r: Option<(Address, u8)>)
    ensures
        r matches Some(p) ==> pda_of(vault_root_seeds(), program@) == Some((p.0@, p.1)),
        r is None ==> pda_of(vault_root_seeds(), program@) is None,
{
    let mut seeds: Vec<Vec<u8>> = Vec::new();
    seeds.push(vault_tag_bytes());
    proof {
        assert(seeds.deep_view() =~~= vault_root_seeds());
    }
    find_program_address_call(&seeds, program)
}

/// Derive the custody token account address for (vault, asset, depositor):
/// the account that physically holds the depositor's funds.
pub fn derive_custody_account(
    vault: &Address,
    asset: &Address,
    depositor: &Address,
    program: &Address,
) -> (r: Option<(Address, u8)>)
    ensures
        r matches Some(p) ==> pda_of(custody_seeds(vault@, asset@, depositor@), program@)
            == Some((p.0@, p.1)),
        r is None ==> pda_of(custody_seeds(vault@, asset@, depositor@), program@) is None,
{
    let mut seeds: Vec<Vec<u8>> = Vec::new();
    seeds.push(vault.to_seed());
    seeds.push(asset.to_seed());
    seeds.push(depositor.to_seed());
    proof {
        assert(seeds.deep_view() =~~= custody_seeds(vault@, asset@, depositor@));
    }
    find_program_address_call(&seeds, program)
}

/// Derive the signing authority for (vault, asset, depositor): the keyless
/// identity that is the sole authorized mover of the custody account, and
/// the address at which the balance record lives. Returns the address and
/// the bump with which a withdrawal rebuilds the derivation proof.
pub fn derive_signing_authority(
    vault: &Address,
    asset: &Address,
    depositor: &Address,
    program: &Address,
) -> (r: Option<(Address, u8)>)
    ensures
        r matches Some(p) ==> pda_of(authority_seeds(vault@, asset@, depositor@), program@)
            == Some((p.0@, p.1)),
        r is None ==> pda_of(authority_seeds(vault@, asset@, depositor@), program@) is None,
        r matches Some(p) ==> cpa_of(
            authority_proof_seeds(vault@, asset@, depositor@, p.1),
            program@,
        ) == Some(p.0@),
{
    let mut seeds: Vec<Vec<u8>> = Vec::new();
    seeds.push(vault.to_seed());
    seeds.push(asset.to_seed());
    seeds.push(depositor.to_seed());
    seeds.push(customer_tag_bytes());
    proof {
        assert(seeds.deep_view() =~~= authority_seeds(vault@, asset@, depositor@));
    }
    find_program_address_call(&seeds, program)
}

/// Rebuild, in executable form, the seed list whose derivation proves the
/// signing authority of a withdrawal.
pub fn build_authority_proof_seeds(
    vault: &Address,
    asset: &Address,
    depositor: &Address,
    bump: u8,
) -> (r: Vec<Vec<u8>>)
    ensures
        r.deep_view() == authority_proof_seeds(vault@, asset@, depositor@, bump),
{
    let mut seeds: Vec<Vec<u8>> = Vec::new();
    seeds.push(vault.to_seed());
    seeds.push(asset.to_seed());
    seeds.push(depositor.to_seed());
    seeds.push(customer_tag_bytes());
    let mut bump_seed: Vec<u8> = Vec::new();
    bump_seed.push(bump);
    seeds.push(bump_seed);
    proof {
        assert(seeds.deep_view() =~~= authority_proof_seeds(vault@, asset@, depositor@, bump));
    }
    seeds
}

// ---------------------------------------------------------------------------
// Laws of the derivation.
// ---------------------------------------------------------------------------

/// Derivation is stable: two derivations from the same
/// (vault, asset, depositor, program) inputs yield the same result, for the
/// custody account and the signing authority alike.
pub proof fn lemma_derivation_stable(
    vault: Seq<u8>,
    asset: Seq<u8>,
    depositor: Seq<u8>,
    program: Seq<u8>,
    c1: Option<(Seq<u8>, u8)>,
    c2: Option<(Seq<u8>, u8)>,
    s1: Option<(Seq<u8>, u8)>,
    s2: Option<(Seq<u8>, u8)>,
)
    requires
        c1 == pda_of(custody_seeds(vault, asset, depositor), program),
        c2 == pda_of(custody_seeds(vault, asset, depositor), program),
        s1 == pda_of(authority_seeds(vault, asset, depositor), program),
        s2 == pda_of(authority_seeds(vault, asset, depositor), program),
    ensures
        c1 == c2,
        s1 == s2,
{
}

/// Distinct (vault, asset, depositor) triples present distinct seed lists
/// to the derivation, for the custody account and the signing authority
/// alike: no two distinct triples share a derivation input.
pub proof fn lemma_distinct_triples_distinct_seeds(
    v1: Seq<u8>,
    a1: Seq<u8>,
    d1: Seq<u8>,
    v2: Seq<u8>,
    a2: Seq<u8>,
    d2: Seq<u8>,
)
    requires
        v1 != v2 || a1 != a2 || d1 != d2,
    ensures
        custody_seeds(v1, a1, d1) != custody_seeds(v2, a2, d2),
        authority_seeds(v1, a1, d1) != authority_seeds(v2, a2, d2),
{
    if custody_seeds(v1, a1, d1) == custody_seeds(v2, a2, d2) {
        assert(custody_seeds(v1, a1, d1)[0] == custody_seeds(v2, a2, d2)[0]);
        assert(custody_seeds(v1, a1, d1)[1] == custody_seeds(v2, a2, d2)[1]);
        assert(custody_seeds(v1, a1, d1)[2] == custody_seeds(v2, a2, d2)[2]);
    }
    if authority_seeds(v1, a1, d1) == authority_seeds(v2, a2, d2) {
        assert(authority_seeds(v1, a1, d1)[0] == authority_seeds(v2, a2, d2)[0]);
        assert(authority_seeds(v1, a1, d1)[1] == authority_seeds(v2, a2, d2)[1]);
        assert(authority_seeds(v1, a1, d1)[2] == authority_seeds(v2, a2, d2)[2]);
    }
}

/// A custody seed list never coincides with a signing-authority seed list:
/// the distinguishing tag keeps the two derivation domains apart.
pub proof fn lemma_custody_authority_domains_disjoint(
    v1: Seq<u8>,
    a1: Seq<u8>,
    d1: Seq<u8>,
    v2: Seq<u8>,
    a2: Seq<u8>,
    d2: Seq<u8>,
)
    ensures
        custody_seeds(v1, a1, d1) != authority_seeds(v2, a2, d2),
{
    assert(custody_seeds(v1, a1, d1).len() == 3);
    assert(authority_seeds(v2, a2, d2).len() == 4);
}

} // verus!
