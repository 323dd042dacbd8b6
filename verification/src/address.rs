//! Slot addresses derived from an author and a seed.
//!
//! An address is the hash of a tag, the author, the seed and a one-byte bump,
//! accepted only where it is no public key that somebody could hold the
//! private key of. The bump is searched from 255 downwards, and the first
//! that gives an address is stored with the post so that the address can be
//! checked again without a search.

use vstd::prelude::*;
use crate::error::ErrorCode;

verus! {

/// The tag that starts the seeds of every post's address.
pub const TWEET_TAG: [u8; 5] = [116, 119, 101, 101, 116];

/// The identity of the program that owns the slots.
pub const PROGRAM_ID: [u8; 32] = [
    155, 160, 98, 36, 41, 109, 57, 199, 195, 28, 31, 76, 244, 91, 114, 95,
    81, 79, 101, 27, 122, 124, 128, 82, 223, 215, 146, 66, 250, 193, 236, 77,
];

/// What `Pubkey::create_program_address` gives for the seeds `tag`, `owner`,
/// `seed` and the single byte `bump` under the program `program`: the address,
/// or `None` where it turns the seeds down.
pub uninterp spec fn program_address(
    tag: Seq<u8>,
    owner: Seq<u8>,
    seed: Seq<u8>,
    bump: u8,
    program: Seq<u8>,
) -> Option<Seq<u8>>;

/// Calls `Pubkey::create_program_address` of anchor_lang with the four seeds
/// `tag`, `owner`, `seed`, `[bump]` and the program `program`.
///
/// Trusted: the result is `program_address` of the same values, `Some` with
/// the address's 32 bytes where the call gives an address and `None` where it
/// gives an error. The call hashes its arguments and tests the hash, so the
/// same values always give the same result.
#[verifier::external_body]
fn create_program_address(
    tag: &[u8; 5],
    owner: &[u8; 32],
    seed: &[u8; 16],
    bump: u8,
    program: &[u8; 32],
) -> (r: Option<[u8; 32]>)
    ensures
        match r {
            Some(a) => program_address(tag@, owner@, seed@, bump, program@) == Some(a@),
            None => program_address(tag@, owner@, seed@, bump, program@) is None,
        },
{
    let id = anchor_lang::prelude::Pubkey::new_from_array(*program);
    let last = [bump];
    let seeds: [&[u8]; 4] = [tag, owner, seed, &last];
    match anchor_lang::prelude::Pubkey::create_program_address(&seeds, &id) {
        Ok(key) => Some(key.to_bytes()),
        Err(_) => None,
    }
}

/// The address of the post of `owner` with `seed` under `bump`, if that bump
/// gives one.
pub open spec fn tweet_address(owner: Seq<u8>, seed: Seq<u8>, bump: u8) -> Option<Seq<u8>> {
    program_address(TWEET_TAG@, owner, seed, bump, PROGRAM_ID@)
}

/// `bump` gives an address and no larger bump does.
pub open spec fn is_canonical_bump(owner: Seq<u8>, seed: Seq<u8>, bump: u8) -> bool {
    &&& tweet_address(owner, seed, bump) is Some
    &&& forall|b: u8| bump < b ==> tweet_address(owner, seed, b) is None
}

/// No bump gives an address.
pub open spec fn exhausted(owner: Seq<u8>, seed: Seq<u8>) -> bool {
    forall|b: u8| tweet_address(owner, seed, b) is None
}

/// The address and bump of the post of `owner` with `seed`: those of the
/// largest bump that gives an address, or `None` where no bump gives one.
pub open spec fn derived(owner: Seq<u8>, seed: Seq<u8>) -> Option<(Seq<u8>, u8)> {
    if exists|b: u8| is_canonical_bump(owner, seed, b) {
        let bump = choose|b: u8| is_canonical_bump(owner, seed, b);
        Some((tweet_address(owner, seed, bump)->0, bump))
    } else {
        None
    }
}

/// Two canonical bumps of one owner and seed are the same bump, so the
/// derivation has one result.
pub proof fn lemma_canonical_bump_unique(owner: Seq<u8>, seed: Seq<u8>, b1: u8, b2: u8)
    requires
        is_canonical_bump(owner, seed, b1),
        is_canonical_bump(owner, seed, b2),
    ensures
        b1 == b2,
{
}

/// A canonical bump is the derivation's result, with its address.
pub proof fn lemma_derived_is_canonical(owner: Seq<u8>, seed: Seq<u8>, bump: u8)
    requires
        is_canonical_bump(owner, seed, bump),
    ensures
        derived(owner, seed) == Some((tweet_address(owner, seed, bump)->0, bump)),
{
    let c = choose|b: u8| is_canonical_bump(owner, seed, b);
    lemma_canonical_bump_unique(owner, seed, bump, c);
}

/// Where no bump gives an address the derivation has no result.
pub proof fn lemma_derived_none(owner: Seq<u8>, seed: Seq<u8>)
    requires
        exhausted(owner, seed),
    ensures
        derived(owner, seed) is None,
{
}

/// Derives the address of the post of `owner` with `seed`, trying the bumps
/// from 255 down to 0 and keeping the first that gives an address.
pub fn find_address(owner: &[u8; 32], seed: &[u8; 16]) -> (r: Result<([u8; 32], u8), ErrorCode>)
    ensures
        match r {
            Ok((address, bump)) => derived(owner@, seed@) == Some((address@, bump)),
            Err(e) => e == ErrorCode::AddressDerivationExhausted && derived(owner@, seed@) is None,
        },
        r is Ok <==> exists|b: u8| tweet_address(owner@, seed@, b) is Some,
        r matches Ok((address, bump)) ==> is_canonical_bump(owner@, seed@, bump)
            && tweet_address(owner@, seed@, bump) == Some(address@),
{
    let mut bump: u8 = 255;
    loop
        invariant
            forall|b: u8| bump < b ==> tweet_address(owner@, seed@, b) is None,
        decreases bump,
    {
        match create_program_address(&TWEET_TAG, owner, seed, bump, &PROGRAM_ID) {
            Some(address) => {
                proof {
                    lemma_derived_is_canonical(owner@, seed@, bump);
                }
                return Ok((address, bump));
            },
            None => {},
        }
        if bump == 0 {
            proof {
                lemma_derived_none(owner@, seed@);
            }
            return Err(ErrorCode::AddressDerivationExhausted);
        }
        bump = bump - 1;
    }
}

/// Tells whether `address` is the one that `owner`, `seed` and the stored
/// `bump` give, by one derivation and no search.
pub fn verify_address(owner: &[u8; 32], seed: &[u8; 16], bump: u8, address: &[u8; 32]) -> (r: bool)
    ensures
        r == (tweet_address(owner@, seed@, bump) == Some(address@)),
{
    match create_program_address(&TWEET_TAG, owner, seed, bump, &PROGRAM_ID) {
        Some(found) => same_bytes(&found, address),
        None => false,
    }
}

/// Tells whether two identities or addresses hold the same bytes.
pub fn same_bytes(a: &[u8; 32], b: &[u8; 32]) -> (r: bool)
    ensures
        r == (a@ == b@),
{
    let mut i: usize = 0;
    while i < 32
        invariant
            i <= 32,
            forall|j: int| 0 <= j < i ==> a@[j] == b@[j],
        decreases 32 - i,
    {
        if a[i] != b[i] {
            return false;
        }
        i = i + 1;
    }
    assert(a@ =~= b@);
    true
}

} // verus!
