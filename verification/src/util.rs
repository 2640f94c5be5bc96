//! Digests, the history of block hashes, and the share mint's supply.

use crate::bytes::{le_bytes_u64, le_u64, read_le_u64, write_le_u64};
use crate::error::SolanarollError;
use solana_program::program_error::ProgramError;
use solana_program::program_pack::Pack;
use spl_token::state::Mint as TokenMint;
use std::collections::hash_map::DefaultHasher;
use std::hash::{Hash, Hasher};
use vstd::prelude::*;
use vstd::std_specs::hash::DefaultHasherAdditionalSpecFns;

verus! {

/// The number of bytes in a block hash.
pub const HASH_BYTES: usize = 32;

/// How many slots back the history of block hashes reaches.
pub const MAX_NUM_SLOT_HASHES: u64 = 512;

/// Where the newest entry's slot number starts in the history's bytes.
pub const NEWEST_SLOT_OFFSET: usize = 8;

/// Where the newest entry's hash starts in the history's bytes.
pub const FIRST_HASH_OFFSET: usize = 16;

/// The number of bytes from one entry's hash to the next.
pub const ENTRY_STRIDE: usize = 40;

/// The number of bytes in a share mint's account data.
pub const MINT_LEN: usize = 82;

/// An opaque 32-byte block hash.
#[derive(Clone, Copy, Debug, PartialEq, Eq)]
pub struct Hash32 {
    pub bytes: [u8; 32],
}

impl View for Hash32 {
    type V = Seq<u8>;

    open spec fn view(&self) -> Seq<u8> {
        self.bytes@
    }
}

/// What the logic reads of the share mint: the number of shares issued.
#[derive(Clone, Copy, Debug, PartialEq, Eq, Structural)]
pub struct Mint {
    pub supply: u64,
}

/// `<solana_program::hash::Hash as std::hash::Hash>::hash` into a default
/// hasher, on the hash made of `bytes` by `Hash::new_from_array`. That impl
/// makes a single write, of the 32 bytes and nothing else.
#[verifier::external_body]
fn feed_hash(hasher: &mut DefaultHasher, bytes: &[u8; 32])
    ensures
        final(hasher)@ == old(hasher)@.push(bytes@),
{
    solana_program::hash::Hash::new_from_array(*bytes).hash(hasher)
}

/// A value that [`hash_value`] digests. A hasher's state is the sequence of
/// the byte strings written to it.
pub trait Digestible {
    /// The hasher's state after this value was fed into one whose state was
    /// `before`.
    spec fn fed(&self, before: Seq<Seq<u8>>) -> Seq<Seq<u8>>;

    /// Feeds the value into `hasher`.
    fn feed(&self, hasher: &mut DefaultHasher)
        ensures
            final(hasher)@ == self.fed(old(hasher)@),
    ;
}

/// A `u64` is fed as one write of its eight bytes, lowest first.
impl Digestible for u64 {
    open spec fn fed(&self, before: Seq<Seq<u8>>) -> Seq<Seq<u8>> {
        before.push(le_bytes_u64(*self))
    }

    fn feed(&self, hasher: &mut DefaultHasher) {
        let bytes = write_le_u64(*self);
        hasher.write(bytes.as_slice());
    }
}

/// A block hash is fed as one write of its 32 bytes.
impl Digestible for Hash32 {
    open spec fn fed(&self, before: Seq<Seq<u8>>) -> Seq<Seq<u8>> {
        before.push(self@)
    }

    fn feed(&self, hasher: &mut DefaultHasher) {
        feed_hash(hasher, &self.bytes)
    }
}

/// The 64-bit digest of `obj`: what a fresh default hasher finishes with
/// after `obj` alone was fed into it.
pub open spec fn digest<T: Digestible>(obj: T) -> u64 {
    DefaultHasher::spec_finish(obj.fed(Seq::empty()))
}

/// The digest of a `u64`.
pub open spec fn digest_of_u64(value: u64) -> u64 {
    digest(value)
}

/// The digest of the block hash made of `bytes`.
pub open spec fn digest_of_hash(bytes: Seq<u8>) -> u64 {
    DefaultHasher::spec_finish(Seq::<Seq<u8>>::empty().push(bytes))
}

/// Digests `obj` with the standard library's default hasher. The digest is
/// fixed by the value; it is not a cryptographic hash.
pub fn hash_value<T: Digestible>(obj: T) -> (out: u64)
    ensures
        out == digest(obj),
{
    let mut hasher = DefaultHasher::new();
    obj.feed(&mut hasher);
    hasher.finish()
}

/// The hash that the history `data` holds for `target_slot`, when its newest
/// entry is that of `current_slot`.
///
/// The entry lies `current_slot - target_slot` places behind the newest one.
/// There is none for a slot after `current_slot`, for one more than
/// [`MAX_NUM_SLOT_HASHES`] slots back, or where `data` ends before the entry
/// does.
pub open spec fn history_hash(data: Seq<u8>, current_slot: u64, target_slot: u64) -> Option<
    Seq<u8>,
> {
    let diff = current_slot - target_slot;
    let start = FIRST_HASH_OFFSET + diff * ENTRY_STRIDE;
    if target_slot <= current_slot && diff <= MAX_NUM_SLOT_HASHES && start + HASH_BYTES
        <= data.len() {
        Some(data.subrange(start, start + HASH_BYTES))
    } else {
        None
    }
}

/// The slot of the newest entry in the history `data`, if `data` is long
/// enough to hold one.
pub open spec fn newest_slot(data: Seq<u8>) -> Option<u64> {
    if data.len() >= FIRST_HASH_OFFSET {
        Some(le_u64(data.skip(NEWEST_SLOT_OFFSET as int)) as u64)
    } else {
        None
    }
}

/// The hash that the history `data` holds for `slot_height`, counted back
/// from the history's own newest slot.
pub open spec fn slot_hash(data: Seq<u8>, slot_height: u64) -> Option<Seq<u8>> {
    match newest_slot(data) {
        Some(current_slot) => history_hash(data, current_slot, slot_height),
        None => None,
    }
}

/// Looks up the hash of `target_slot` in the history `data`, whose newest
/// entry is that of `current_slot`. A slot that the history does not reach
/// is not found; it is never reported as a hash of zeros.
pub fn lookup_historical_hash(data: &[u8], current_slot: u64, target_slot: u64) -> (found: Option<
    Hash32,
>)
    ensures
        found is Some <==> history_hash(data@, current_slot, target_slot) is Some,
        found matches Some(hash) ==> history_hash(data@, current_slot, target_slot) == Some(hash@),
{
    if target_slot > current_slot {
        return None;
    }
    let diff: u64 = current_slot - target_slot;
    if diff > MAX_NUM_SLOT_HASHES {
        return None;
    }
    let start: usize = FIRST_HASH_OFFSET + (diff as usize) * ENTRY_STRIDE;
    if data.len() < start + HASH_BYTES {
        return None;
    }
    let mut bytes = [0u8; 32];
    let mut i: usize = 0;
    while i < HASH_BYTES
        invariant
            i <= HASH_BYTES,
            start + HASH_BYTES <= data.len(),
            forall|k: int| 0 <= k < i ==> bytes@[k] == data@[start + k],
        decreases HASH_BYTES - i,
    {
        bytes[i] = data[start + i];
        i = i + 1;
    }
    assert(bytes@ =~= data@.subrange(start as int, start + HASH_BYTES));
    Some(Hash32 { bytes })
}

/// Looks up the hash of `slot_height` in the history `data`, counting back
/// from the slot of the history's own newest entry.
pub fn get_slot_hash(data: &[u8], slot_height: u64) -> (found: Option<Hash32>)
    ensures
        found is Some <==> slot_hash(data@, slot_height) is Some,
        found matches Some(hash) ==> slot_hash(data@, slot_height) == Some(hash@),
{
    if data.len() < FIRST_HASH_OFFSET {
        return None;
    }
    let tail = vstd::slice::slice_subrange(data, NEWEST_SLOT_OFFSET, data.len());
    match read_le_u64(tail) {
        Some(current_slot) => lookup_historical_hash(data, current_slot, slot_height),
        None => None,
    }
}

/// Whether the four bytes of `data` from `at` on are the tag of an optional
/// key: 0 or 1 in the first byte, and zeros after it.
pub open spec fn key_tag_ok(data: Seq<u8>, at: int) -> bool {
    &&& data[at] == 0 || data[at] == 1
    &&& data[at + 1] == 0
    &&& data[at + 2] == 0
    &&& data[at + 3] == 0
}

/// The supply of the initialised mint that `data` packs, if it packs one:
/// [`MINT_LEN`] bytes, made of the optional mint authority (a tag and a key),
/// the supply in eight little-endian bytes, the decimals, the initialised
/// flag, which must be 1, and the optional freeze authority.
pub open spec fn mint_supply(data: Seq<u8>) -> Option<u64> {
    if data.len() == MINT_LEN && key_tag_ok(data, 0) && data[45] == 1 && key_tag_ok(data, 46) {
        Some(le_u64(data.skip(36)) as u64)
    } else {
        None
    }
}

/// `solana_program::program_error::ProgramError`, which the token program's
/// functions fail with. It is passed on unread.
#[verifier::external_type_specification]
#[verifier::external_body]
pub struct ExProgramError(ProgramError);

/// `Pack::unpack` of `spl_token::state::Mint`, keeping the supply. It accepts
/// exactly the data that [`mint_supply`] describes: any other length, tag or
/// flag is an error, and so is a mint that is not initialised.
#[verifier::external_body]
fn unpack_token_mint(data: &[u8]) -> (out: Result<u64, ProgramError>)
    ensures
        out is Ok <==> mint_supply(data@) is Some,
        out matches Ok(supply) ==> mint_supply(data@) == Some(supply),
{
    TokenMint::unpack(data).map(|mint| mint.supply)
}

/// Reads the share mint from its account data.
pub fn unpack_mint(data: &[u8]) -> (out: Result<Mint, SolanarollError>)
    ensures
        out == match mint_supply(data@) {
            Some(supply) => Ok::<Mint, SolanarollError>(Mint { supply }),
            None => Err(SolanarollError::ExpectedMint),
        },
{
    match unpack_token_mint(data) {
        Ok(supply) => Ok(Mint { supply }),
        Err(_) => Err(SolanarollError::ExpectedMint),
    }
}

} // verus!
