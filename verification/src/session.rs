//! Per-project session isolation: each project's web views use a data store
//! whose identifier is derived from the project id.

use vstd::prelude::*;

verus! {

/// The 64-bit hash that `std`'s `DefaultHasher`, as made by `DefaultHasher::new`,
/// gives a string.
pub uninterp spec fn project_id_hash(project_id: Seq<char>) -> u64;

/// Hashes a project id.
///
/// Calls `BuildHasher::hash_one` on `BuildHasherDefault<DefaultHasher>`, which
/// hashes `project_id` with a `DefaultHasher::new()` and returns `finish()`.
/// std documents every `DefaultHasher::new()` as equal to every other, so the
/// result depends on the string alone; the contract names it and says no more.
#[verifier::external_body]
fn hash_project_id(project_id: &str) -> (h: u64)
    ensures
        h == project_id_hash(project_id@),
{
    std::hash::BuildHasher::hash_one(
        &std::hash::BuildHasherDefault::<std::collections::hash_map::DefaultHasher>::default(),
        project_id,
    )
}

/// Byte `k` (0 = least significant) of `x`.
pub open spec fn le_byte(x: u64, k: int) -> u8 {
    (x >> (8 * k) as u64) as u8
}

/// The constant by which the hash is multiplied for the upper eight bytes.
pub const UUID_MIX: u64 = 0x517cc1b727220a95;

/// The 16 identifier bytes made from `hash`: the hash and the hash times
/// `UUID_MIX` (wrapping), each in little-endian order, with the version
/// nibble of byte 6 set to 4 and the variant bits of byte 8 set to `10`.
pub open spec fn uuid_bytes_of(hash: u64) -> Seq<u8> {
    let hash2 = hash.wrapping_mul(UUID_MIX);
    Seq::new(
        16,
        |i: int|
            if i == 6 {
                (le_byte(hash, 6) & 0x0f) | 0x40
            } else if i == 8 {
                (le_byte(hash2, 0) & 0x3f) | 0x80
            } else if i < 8 {
                le_byte(hash, i)
            } else {
                le_byte(hash2, i - 8)
            },
    )
}

/// The identifier bytes made from a project-id hash (see `uuid_bytes_of`).
pub fn uuid_bytes_from_hash(hash: u64) -> (bytes: [u8; 16])
    ensures
        bytes@ == uuid_bytes_of(hash),
{
    let hash2 = hash.wrapping_mul(UUID_MIX);
    let bytes: [u8; 16] = [
        (hash >> 0u64) as u8,
        (hash >> 8u64) as u8,
        (hash >> 16u64) as u8,
        (hash >> 24u64) as u8,
        (hash >> 32u64) as u8,
        (hash >> 40u64) as u8,
        (((hash >> 48u64) as u8) & 0x0f) | 0x40,
        (hash >> 56u64) as u8,
        (((hash2 >> 0u64) as u8) & 0x3f) | 0x80,
        (hash2 >> 8u64) as u8,
        (hash2 >> 16u64) as u8,
        (hash2 >> 24u64) as u8,
        (hash2 >> 32u64) as u8,
        (hash2 >> 40u64) as u8,
        (hash2 >> 48u64) as u8,
        (hash2 >> 56u64) as u8,
    ];
    assert(bytes@ =~= uuid_bytes_of(hash));
    bytes
}

/// The identifier of the data store of the project `project_id`.
pub fn project_store_uuid(project_id: &str) -> (bytes: [u8; 16])
    ensures
        bytes@ == uuid_bytes_of(project_id_hash(project_id@)),
{
    let hash = hash_project_id(project_id);
    uuid_bytes_from_hash(hash)
}

/// Every data-store identifier is a version-4, RFC 4122-variant UUID.
pub proof fn lemma_uuid_is_version_4(hash: u64)
    ensures
        uuid_bytes_of(hash).len() == 16,
        uuid_bytes_of(hash)[6] >> 4u8 == 4,
        uuid_bytes_of(hash)[8] >> 6u8 == 2,
{
    let b6 = le_byte(hash, 6);
    let b8 = le_byte(hash.wrapping_mul(UUID_MIX), 0);
    assert(((b6 & 0x0f) | 0x40) >> 4u8 == 4) by (bit_vector);
    assert(((b8 & 0x3f) | 0x80) >> 6u8 == 2) by (bit_vector);
}

/// The same project always gets the same data store.
pub proof fn lemma_same_project_same_store(a: Seq<char>, b: Seq<char>)
    requires
        a == b,
    ensures
        uuid_bytes_of(project_id_hash(a)) == uuid_bytes_of(project_id_hash(b)),
{
}

/// The identifier keeps the hash: bytes 0 to 5 and 7 are the hash's bytes in
/// little-endian order and byte 6 keeps the low nibble of the hash's byte 6;
/// bytes 9 to 15 are those of the hash times `UUID_MIX` (wrapping) and byte 8
/// keeps its low six bits.
pub proof fn lemma_uuid_keeps_hash_bytes(hash: u64)
    ensures
        uuid_bytes_of(hash)[0] == hash % 0x100,
        uuid_bytes_of(hash)[1] == hash / 0x100 % 0x100,
        uuid_bytes_of(hash)[2] == hash / 0x1_0000 % 0x100,
        uuid_bytes_of(hash)[3] == hash / 0x100_0000 % 0x100,
        uuid_bytes_of(hash)[4] == hash / 0x1_0000_0000 % 0x100,
        uuid_bytes_of(hash)[5] == hash / 0x100_0000_0000 % 0x100,
        uuid_bytes_of(hash)[6] % 16 == hash / 0x1_0000_0000_0000 % 16,
        uuid_bytes_of(hash)[7] == hash / 0x100_0000_0000_0000,
        uuid_bytes_of(hash)[8] % 64 == hash.wrapping_mul(UUID_MIX) % 64,
        uuid_bytes_of(hash)[9] == hash.wrapping_mul(UUID_MIX) / 0x100 % 0x100,
        uuid_bytes_of(hash)[10] == hash.wrapping_mul(UUID_MIX) / 0x1_0000 % 0x100,
        uuid_bytes_of(hash)[11] == hash.wrapping_mul(UUID_MIX) / 0x100_0000 % 0x100,
        uuid_bytes_of(hash)[12] == hash.wrapping_mul(UUID_MIX) / 0x1_0000_0000 % 0x100,
        uuid_bytes_of(hash)[13] == hash.wrapping_mul(UUID_MIX) / 0x100_0000_0000 % 0x100,
        uuid_bytes_of(hash)[14] == hash.wrapping_mul(UUID_MIX) / 0x1_0000_0000_0000 % 0x100,
        uuid_bytes_of(hash)[15] == hash.wrapping_mul(UUID_MIX) / 0x100_0000_0000_0000,
{
    let h = hash;
    let w = hash.wrapping_mul(UUID_MIX);
    assert((h >> 0u64) as u8 == h % 0x100) by (bit_vector);
    assert((h >> 8u64) as u8 == h / 0x100 % 0x100) by (bit_vector);
    assert((h >> 16u64) as u8 == h / 0x1_0000 % 0x100) by (bit_vector);
    assert((h >> 24u64) as u8 == h / 0x100_0000 % 0x100) by (bit_vector);
    assert((h >> 32u64) as u8 == h / 0x1_0000_0000 % 0x100) by (bit_vector);
    assert((h >> 40u64) as u8 == h / 0x100_0000_0000 % 0x100) by (bit_vector);
    assert((((h >> 48u64) as u8) & 0x0f | 0x40) % 16 == h / 0x1_0000_0000_0000 % 16) by (bit_vector);
    assert((h >> 56u64) as u8 == h / 0x100_0000_0000_0000) by (bit_vector);
    assert((((w >> 0u64) as u8) & 0x3f | 0x80) % 64 == w % 64) by (bit_vector);
    assert((w >> 8u64) as u8 == w / 0x100 % 0x100) by (bit_vector);
    assert((w >> 16u64) as u8 == w / 0x1_0000 % 0x100) by (bit_vector);
    assert((w >> 24u64) as u8 == w / 0x100_0000 % 0x100) by (bit_vector);
    assert((w >> 32u64) as u8 == w / 0x1_0000_0000 % 0x100) by (bit_vector);
    assert((w >> 40u64) as u8 == w / 0x100_0000_0000 % 0x100) by (bit_vector);
    assert((w >> 48u64) as u8 == w / 0x1_0000_0000_0000 % 0x100) by (bit_vector);
    assert((w >> 56u64) as u8 == w / 0x100_0000_0000_0000) by (bit_vector);
}

/// Hashes that differ anywhere outside bits 52 to 55 (the nibble the version
/// number replaces) give different identifiers, so distinct projects share a
/// data store only when their hashes agree on every other bit.
pub proof fn lemma_uuid_distinguishes_hashes(h1: u64, h2: u64)
    requires
        uuid_bytes_of(h1) == uuid_bytes_of(h2),
    ensures
        h1 % 0x10_0000_0000_0000 == h2 % 0x10_0000_0000_0000,
        h1 / 0x100_0000_0000_0000 == h2 / 0x100_0000_0000_0000,
{
    lemma_uuid_keeps_hash_bytes(h1);
    lemma_uuid_keeps_hash_bytes(h2);
    assert(uuid_bytes_of(h1)[0] == uuid_bytes_of(h2)[0]);
    assert(uuid_bytes_of(h1)[1] == uuid_bytes_of(h2)[1]);
    assert(uuid_bytes_of(h1)[2] == uuid_bytes_of(h2)[2]);
    assert(uuid_bytes_of(h1)[3] == uuid_bytes_of(h2)[3]);
    assert(uuid_bytes_of(h1)[4] == uuid_bytes_of(h2)[4]);
    assert(uuid_bytes_of(h1)[5] == uuid_bytes_of(h2)[5]);
    assert(uuid_bytes_of(h1)[6] == uuid_bytes_of(h2)[6]);
    assert(uuid_bytes_of(h1)[7] == uuid_bytes_of(h2)[7]);
    assert(h1 % 0x10_0000_0000_0000 == h2 % 0x10_0000_0000_0000) by (bit_vector)
        requires
            h1 % 0x100 == h2 % 0x100,
            h1 / 0x100 % 0x100 == h2 / 0x100 % 0x100,
            h1 / 0x1_0000 % 0x100 == h2 / 0x1_0000 % 0x100,
            h1 / 0x100_0000 % 0x100 == h2 / 0x100_0000 % 0x100,
            h1 / 0x1_0000_0000 % 0x100 == h2 / 0x1_0000_0000 % 0x100,
            h1 / 0x100_0000_0000 % 0x100 == h2 / 0x100_0000_0000 % 0x100,
            h1 / 0x1_0000_0000_0000 % 16 == h2 / 0x1_0000_0000_0000 % 16,
    ;
}

} // verus!
