//! Deterministic, keyless addresses: each custody account and each stake
//! record sits at an address derived from a namespace tag, the owner where
//! there is one, and the program's own address.

use vstd::prelude::*;
use anchor_lang::prelude::Pubkey;

verus! {

/// Namespace of the per-user stake records: the ASCII bytes of `stake`.
pub const STAKE_STATE_SEED: [u8; 5] = [115, 116, 97, 107, 101];

/// Namespace of the reward pool: the ASCII bytes of `vault`.
pub const VAULT_SEED: [u8; 5] = [118, 97, 117, 108, 116];

/// Namespace of the per-user escrow accounts: the ASCII bytes of `token`.
pub const TOKEN_SEED: [u8; 5] = [116, 111, 107, 101, 110];

/// The address and bump that the seeds derive under the program, if any.
pub uninterp spec fn program_address(seeds: Seq<Seq<u8>>, program_id: Seq<u8>) -> Option<
    (Seq<u8>, u8),
>;

/// An address and bump, seen as bytes.
pub open spec fn address_view(r: Option<([u8; 32], u8)>) -> Option<(Seq<u8>, u8)> {
    match r {
        Some((a, b)) => Some((a@, b)),
        None => None,
    }
}

/// Relies on `Pubkey::try_find_program_address`: the address and bump depend
/// on the seeds and the program id alone.
#[verifier::external_body]
fn find_program_address(seeds: &Vec<Vec<u8>>, program_id: &[u8; 32]) -> (r: Option<
    ([u8; 32], u8),
>)
    ensures
        address_view(r) == program_address(seeds.deep_view(), program_id@),
{
    let s: Vec<&[u8]> = seeds.iter().map(|x| x.as_slice()).collect();
    Pubkey::try_find_program_address(&s, &Pubkey::new_from_array(*program_id)).map(
        |(k, b)| (k.to_bytes(), b),
    )
}

fn bytes_of(s: &[u8]) -> (r: Vec<u8>)
    ensures
        r@ == s@,
{
    let mut r: Vec<u8> = Vec::new();
    let mut i: usize = 0;
    while i < s.len()
        invariant
            i <= s@.len(),
            r@ == s@.subrange(0, i as int),
        decreases s@.len() - i,
    {
        r.push(s[i]);
        i = i + 1;
    }
    assert(r@ == s@);
    r
}

/// The seeds of a namespace, followed by the owner's address where there is
/// one.
pub open spec fn seeds_of(namespace: Seq<u8>, owner: Option<[u8; 32]>) -> Seq<Seq<u8>> {
    match owner {
        Some(o) => seq![namespace, o@],
        None => seq![namespace],
    }
}

/// Derives the address and bump of `namespace`, qualified by `owner`, under
/// `program_id`. The same inputs always give the same result.
pub fn derive_address(namespace: &[u8], owner: Option<[u8; 32]>, program_id: &[u8; 32]) -> (r: Option<
    ([u8; 32], u8),
>)
    ensures
        address_view(r) == program_address(seeds_of(namespace@, owner), program_id@),
{
    let mut seeds: Vec<Vec<u8>> = Vec::new();
    let ns = bytes_of(namespace);
    assert(ns.deep_view() =~= namespace@);
    seeds.push(ns);
    match owner {
        Some(o) => {
            let ob = bytes_of(&o);
            assert(ob.deep_view() =~= o@);
            seeds.push(ob);
        },
        None => {},
    }
    assert(seeds.deep_view() =~= seeds_of(namespace@, owner));
    find_program_address(&seeds, program_id)
}

/// The address of the reward pool.
pub fn vault_address(program_id: &[u8; 32]) -> (r: Option<([u8; 32], u8)>)
    ensures
        address_view(r) == program_address(seq![VAULT_SEED@], program_id@),
{
    derive_address(&VAULT_SEED, None, program_id)
}

/// The address of `user`'s escrow account.
pub fn escrow_address(program_id: &[u8; 32], user: [u8; 32]) -> (r: Option<([u8; 32], u8)>)
    ensures
        address_view(r) == program_address(seq![TOKEN_SEED@, user@], program_id@),
{
    derive_address(&TOKEN_SEED, Some(user), program_id)
}

/// The address of `user`'s stake record.
pub fn stake_record_address(program_id: &[u8; 32], user: [u8; 32]) -> (r: Option<
    ([u8; 32], u8),
>)
    ensures
        address_view(r) == program_address(seq![STAKE_STATE_SEED@, user@], program_id@),
{
    derive_address(&STAKE_STATE_SEED, Some(user), program_id)
}

/// Derivation is deterministic: two results of `derive_address` on the same
/// namespace, owner and program are the same address with the same bump.
pub proof fn lemma_derive_deterministic(
    namespace: Seq<u8>,
    owner: Option<[u8; 32]>,
    program_id: Seq<u8>,
    r1: Option<([u8; 32], u8)>,
    r2: Option<([u8; 32], u8)>,
)
    requires
        address_view(r1) == program_address(seeds_of(namespace, owner), program_id),
        address_view(r2) == program_address(seeds_of(namespace, owner), program_id),
    ensures
        r1 == r2,
{
    match (r1, r2) {
        (Some((a1, b1)), Some((a2, b2))) => {
            assert(a1@ == a2@);
            assert(a1 =~= a2);
        },
        _ => {},
    }
}

} // verus!
