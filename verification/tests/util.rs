#![allow(deprecated)]

use solana_program::program_option::COption;
use solana_program::program_pack::Pack;
use solanaroll::error::SolanarollError;
use solanaroll::util::{
    get_slot_hash, hash_value, lookup_historical_hash, unpack_mint, Hash32, Mint,
};
use std::collections::hash_map::DefaultHasher;
use std::hash::{Hash, Hasher};

fn std_digest<T: Hash>(value: T) -> u64 {
    let mut hasher = DefaultHasher::new();
    value.hash(&mut hasher);
    hasher.finish()
}

/// A history whose newest entry is that of `newest`, with `entries` entries;
/// the hash of the entry `i` places back is made of the byte `i + 1`.
fn history(newest: u64, entries: usize) -> Vec<u8> {
    let mut data = Vec::new();
    data.extend_from_slice(&(entries as u64).to_le_bytes());
    for i in 0..entries {
        data.extend_from_slice(&(newest - i as u64).to_le_bytes());
        data.extend_from_slice(&[(i % 251) as u8 + 1; 32]);
    }
    data
}

fn mint_bytes(supply: u64, initialized: bool) -> Vec<u8> {
    let mint = spl_token::state::Mint {
        mint_authority: COption::Some(solana_program::pubkey::Pubkey::new_from_array([3; 32])),
        supply,
        decimals: 9,
        is_initialized: initialized,
        freeze_authority: COption::None,
    };
    let mut data = vec![0u8; 82];
    spl_token::state::Mint::pack(mint, &mut data).unwrap();
    data
}

#[test]
fn hash_value_of_u64_is_the_default_hashers() {
    for value in [0u64, 1, 42, 1 << 40, u64::MAX] {
        assert_eq!(hash_value(value), std_digest(value));
    }
}

#[test]
fn hash_value_of_u64_is_one_write_of_its_little_endian_bytes() {
    for value in [0u64, 1, 0x0102_0304_0506_0708, u64::MAX] {
        let mut hasher = DefaultHasher::new();
        hasher.write(&value.to_le_bytes());
        assert_eq!(hash_value(value), hasher.finish());
    }
}

#[test]
fn hash_value_of_u64_is_stable_and_spreads() {
    assert_eq!(hash_value(1u64), 2206609067086327257);
    assert_eq!(hash_value(7u64), hash_value(7u64));
    assert_ne!(hash_value(7u64), 7);
    assert_ne!(hash_value(7u64), hash_value(8u64));
}

#[test]
fn hash_value_of_block_hash_is_the_default_hashers() {
    for byte in [0u8, 1, 200] {
        let expected = std_digest(solana_program::hash::Hash::new_from_array([byte; 32]));
        assert_eq!(hash_value(Hash32 { bytes: [byte; 32] }), expected);
    }
    let mut bytes = [0u8; 32];
    bytes[31] = 1;
    assert_ne!(hash_value(Hash32 { bytes }), hash_value(Hash32 { bytes: [0; 32] }));
}

#[test]
fn hash_value_of_block_hash_is_one_write_of_its_bytes() {
    let bytes = [9u8; 32];
    let mut hasher = DefaultHasher::new();
    hasher.write(&bytes);
    assert_eq!(hash_value(Hash32 { bytes }), hasher.finish());
}

#[test]
fn lookup_finds_the_entry_by_its_distance() {
    let data = history(99, 5);
    assert_eq!(lookup_historical_hash(&data, 99, 99), Some(Hash32 { bytes: [1; 32] }));
    assert_eq!(lookup_historical_hash(&data, 99, 98), Some(Hash32 { bytes: [2; 32] }));
    assert_eq!(lookup_historical_hash(&data, 99, 95), Some(Hash32 { bytes: [5; 32] }));
}

#[test]
fn lookup_does_not_find_a_later_slot() {
    let data = history(99, 5);
    assert_eq!(lookup_historical_hash(&data, 99, 100), None);
    assert_eq!(lookup_historical_hash(&data, 0, u64::MAX), None);
}

#[test]
fn lookup_does_not_find_what_the_data_does_not_hold() {
    let data = history(99, 5);
    assert_eq!(lookup_historical_hash(&data, 99, 94), None);
    assert_eq!(lookup_historical_hash(&data[..data.len() - 1], 99, 95), None);
    assert_eq!(lookup_historical_hash(&[], 99, 99), None);
}

#[test]
fn lookup_reaches_512_slots_back_and_no_further() {
    let data = history(1000, 513);
    assert_eq!(
        lookup_historical_hash(&data, 1000, 1000 - 512),
        Some(Hash32 { bytes: [(512 % 251) as u8 + 1; 32] })
    );
    let longer = history(1000, 514);
    assert_eq!(lookup_historical_hash(&longer, 1000, 1000 - 513), None);
    assert_eq!(lookup_historical_hash(&longer, 1000, 0), None);
}

#[test]
fn lookup_returns_a_hash_of_zeros_as_found() {
    let mut data = history(10, 2);
    for byte in data[16..48].iter_mut() {
        *byte = 0;
    }
    assert_eq!(lookup_historical_hash(&data, 10, 10), Some(Hash32 { bytes: [0; 32] }));
}

#[test]
fn get_slot_hash_counts_back_from_the_newest_entry() {
    let data = history(99, 5);
    assert_eq!(get_slot_hash(&data, 99), Some(Hash32 { bytes: [1; 32] }));
    assert_eq!(get_slot_hash(&data, 97), Some(Hash32 { bytes: [3; 32] }));
    assert_eq!(get_slot_hash(&data, 100), None);
    assert_eq!(get_slot_hash(&data, 94), None);
}

#[test]
fn get_slot_hash_needs_a_newest_entry() {
    assert_eq!(get_slot_hash(&[], 0), None);
    assert_eq!(get_slot_hash(&[0u8; 15], 0), None);
    assert_eq!(get_slot_hash(&[0u8; 16], 0), None);
    assert_eq!(get_slot_hash(&[0u8; 48], 0), Some(Hash32 { bytes: [0; 32] }));
}

#[test]
fn unpack_mint_reads_the_supply() {
    assert_eq!(unpack_mint(&mint_bytes(2000, true)), Ok(Mint { supply: 2000 }));
    assert_eq!(unpack_mint(&mint_bytes(0, true)), Ok(Mint { supply: 0 }));
    assert_eq!(unpack_mint(&mint_bytes(u64::MAX, true)), Ok(Mint { supply: u64::MAX }));
}

#[test]
fn unpack_mint_reads_the_supply_from_bytes_36_to_44() {
    let mut data = vec![0u8; 82];
    data[36] = 0x34;
    data[37] = 0x12;
    data[45] = 1;
    assert_eq!(unpack_mint(&data), Ok(Mint { supply: 0x1234 }));
}

#[test]
fn unpack_mint_rejects_what_is_no_initialised_mint() {
    assert_eq!(unpack_mint(&mint_bytes(2000, false)), Err(SolanarollError::ExpectedMint));
    assert_eq!(unpack_mint(&[]), Err(SolanarollError::ExpectedMint));
    let good = mint_bytes(2000, true);
    assert_eq!(unpack_mint(&good[..81]), Err(SolanarollError::ExpectedMint));
    let mut longer = good.clone();
    longer.push(0);
    assert_eq!(unpack_mint(&longer), Err(SolanarollError::ExpectedMint));
    let mut bad_flag = good.clone();
    bad_flag[45] = 2;
    assert_eq!(unpack_mint(&bad_flag), Err(SolanarollError::ExpectedMint));
    let mut bad_tag = good.clone();
    bad_tag[0] = 2;
    assert_eq!(unpack_mint(&bad_tag), Err(SolanarollError::ExpectedMint));
    let mut bad_tag_tail = good.clone();
    bad_tag_tail[3] = 1;
    assert_eq!(unpack_mint(&bad_tag_tail), Err(SolanarollError::ExpectedMint));
    let mut bad_freeze = good;
    bad_freeze[47] = 1;
    assert_eq!(unpack_mint(&bad_freeze), Err(SolanarollError::ExpectedMint));
}
