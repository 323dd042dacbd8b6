use anchor_lang::prelude::Pubkey;
use solana_twitter::{find_address, same_bytes, verify_address, ErrorCode, PROGRAM_ID, TWEET_TAG};
use std::str::FromStr;

fn owner() -> [u8; 32] {
    let mut o = [0u8; 32];
    for (i, b) in o.iter_mut().enumerate() {
        *b = (i as u8).wrapping_mul(7).wrapping_add(3);
    }
    o
}

#[test]
fn program_id_is_the_declared_identity() {
    let id = Pubkey::from_str("BUW39Wm8Q3cXfkbQ6aesRKARc3bKxUJL3vHWFMn6ntRz").unwrap();
    assert_eq!(id.to_bytes(), PROGRAM_ID);
}

#[test]
fn tag_spells_tweet() {
    assert_eq!(&TWEET_TAG, b"tweet");
}

#[test]
fn derivation_is_deterministic() {
    let seed = [5u8; 16];
    let first = find_address(&owner(), &seed);
    let second = find_address(&owner(), &seed);
    assert!(first.is_ok());
    assert_eq!(first, second);
}

#[test]
fn derivation_agrees_with_the_program_address_search() {
    let id = Pubkey::new_from_array(PROGRAM_ID);
    for s in 0u8..40 {
        let seed = [s; 16];
        let o = owner();
        let (key, bump) = Pubkey::find_program_address(&[b"tweet", &o, &seed], &id);
        assert_eq!(find_address(&o, &seed), Ok((key.to_bytes(), bump)));
    }
}

#[test]
fn derived_address_is_off_the_curve_and_not_an_input() {
    let seed = [9u8; 16];
    let o = owner();
    let (address, _) = find_address(&o, &seed).unwrap();
    assert!(!Pubkey::new_from_array(address).is_on_curve());
    assert_ne!(address, o);
    assert_ne!(address, PROGRAM_ID);
}

#[test]
fn derivation_takes_the_largest_bump_that_gives_an_address() {
    let id = Pubkey::new_from_array(PROGRAM_ID);
    let o = owner();
    let mut skipped = 0;
    for s in 0u8..60 {
        let seed = [s; 16];
        let (_, bump) = find_address(&o, &seed).unwrap();
        let mut b = 255u8;
        while b > bump {
            assert!(Pubkey::create_program_address(&[b"tweet", &o, &seed, &[b]], &id).is_err());
            skipped += 1;
            b -= 1;
        }
        assert!(Pubkey::create_program_address(&[b"tweet", &o, &seed, &[bump]], &id).is_ok());
    }
    assert!(skipped > 0);
}

#[test]
fn different_seeds_and_owners_give_different_addresses() {
    let o = owner();
    let mut other = o;
    other[0] ^= 1;
    let a = find_address(&o, &[1u8; 16]).unwrap().0;
    let b = find_address(&o, &[2u8; 16]).unwrap().0;
    let c = find_address(&other, &[1u8; 16]).unwrap().0;
    assert_ne!(a, b);
    assert_ne!(a, c);
    assert_ne!(b, c);
}

#[test]
fn stored_bump_confirms_the_address() {
    let o = owner();
    let seed = [3u8; 16];
    let (address, bump) = find_address(&o, &seed).unwrap();
    assert!(verify_address(&o, &seed, bump, &address));
}

#[test]
fn verification_turns_down_what_was_not_derived() {
    let o = owner();
    let seed = [3u8; 16];
    let (address, bump) = find_address(&o, &seed).unwrap();
    let mut wrong = address;
    wrong[31] ^= 0x80;
    assert!(!verify_address(&o, &seed, bump, &wrong));
    assert!(!verify_address(&o, &[4u8; 16], bump, &address));
    let mut stranger = o;
    stranger[5] ^= 1;
    assert!(!verify_address(&stranger, &seed, bump, &address));
    assert!(!verify_address(&o, &seed, bump.wrapping_sub(1), &address));
    assert!(!verify_address(&o, &seed, bump, &o));
}

#[test]
fn same_bytes_compares_every_byte() {
    let a = [7u8; 32];
    let mut b = a;
    assert!(same_bytes(&a, &b));
    b[31] = 8;
    assert!(!same_bytes(&a, &b));
    b[31] = 7;
    b[0] = 6;
    assert!(!same_bytes(&a, &b));
}

#[test]
fn exhaustion_has_its_own_error() {
    assert_ne!(ErrorCode::AddressDerivationExhausted, ErrorCode::NotFound);
    assert_eq!(
        ErrorCode::AddressDerivationExhausted.message(),
        "No address can be derived for this seed."
    );
}
