use anchor_lang::solana_program::pubkey::Pubkey;
use test_token::{derive_authority, find_authority, signer_seeds, Address, MINT_LABEL};

fn program() -> Address {
    Address { bytes: [7u8; 32] }
}

#[test]
fn label_is_the_word_mint() {
    assert_eq!(&MINT_LABEL[..], "mint".as_bytes());
}

#[test]
fn seeds_are_label_then_counter() {
    assert_eq!(signer_seeds(&MINT_LABEL, 254), vec![vec![109, 105, 110, 116], vec![254]]);
    assert_eq!(signer_seeds(&[], 0), vec![vec![], vec![0]]);
}

#[test]
fn found_authority_matches_the_chain() {
    let (expected, counter) = Pubkey::find_program_address(&[b"mint"], &Pubkey::from([7u8; 32]));
    let found = find_authority(&MINT_LABEL, &program());
    assert_eq!(found, Some((Address { bytes: expected.to_bytes() }, counter)));
    assert_ne!(expected.to_bytes(), [7u8; 32]);
}

#[test]
fn found_counter_derives_the_found_authority() {
    for seed in 0u8..20 {
        let program = Address { bytes: [seed; 32] };
        let (authority, counter) = find_authority(&MINT_LABEL, &program).unwrap();
        assert_eq!(derive_authority(&MINT_LABEL, counter, &program), Some(authority));
    }
}

#[test]
fn derived_authority_matches_the_chain() {
    for counter in 0u8..=255 {
        let expected = Pubkey::create_program_address(&[b"mint", &[counter]], &Pubkey::from([7u8; 32]))
            .ok()
            .map(|key| Address { bytes: key.to_bytes() });
        assert_eq!(derive_authority(&MINT_LABEL, counter, &program()), expected);
    }
}

#[test]
fn deriving_twice_gives_one_address() {
    let (_, counter) = find_authority(&MINT_LABEL, &program()).unwrap();
    let first = derive_authority(&MINT_LABEL, counter, &program());
    let second = derive_authority(&MINT_LABEL, counter, &program());
    assert!(first.is_some());
    assert_eq!(first, second);
}

#[test]
fn some_counter_derives_no_authority() {
    let rejected = (0u8..=255).filter(|c| derive_authority(&MINT_LABEL, *c, &program()).is_none()).count();
    assert!(rejected > 0);
    assert!(rejected < 256);
}

#[test]
fn other_label_counter_or_program_gives_another_authority() {
    let (authority, counter) = find_authority(&MINT_LABEL, &program()).unwrap();
    let other_program = Address { bytes: [8u8; 32] };
    assert_ne!(find_authority(&MINT_LABEL, &other_program).map(|f| f.0), Some(authority));
    assert_ne!(find_authority(b"burn", &program()).map(|f| f.0), Some(authority));
    assert_ne!(derive_authority(&MINT_LABEL, counter.wrapping_sub(1), &program()), Some(authority));
}

#[test]
fn label_of_more_than_32_bytes_derives_nothing() {
    assert!(find_authority(&[1u8; 32], &program()).is_some());
    assert_eq!(find_authority(&[1u8; 33], &program()), None);
    for counter in 0u8..=255 {
        assert_eq!(derive_authority(&[1u8; 33], counter, &program()), None);
    }
}
