//! The stable hash of a shard: the CRC-32 of its registration name and a fixed
//! salt.
use vstd::prelude::*;
use vstd::string::*;

verus! {

/// The reflected generator polynomial of CRC-32 (IEEE 802.3).
pub const CRC32_POLYNOMIAL: u32 = 0xEDB8_8320;

/// One step of the bitwise division: the register moves right by one bit, and
/// the polynomial is subtracted if a one fell out.
pub open spec fn spec_crc32_shift(crc: u32) -> u32 {
    if crc & 1 == 1 {
        (crc >> 1) ^ CRC32_POLYNOMIAL
    } else {
        crc >> 1
    }
}

/// The register after one more byte of input.
pub open spec fn spec_crc32_byte(crc: u32, byte: u8) -> u32 {
    let c0 = crc ^ (byte as u32);
    let c1 = spec_crc32_shift(c0);
    let c2 = spec_crc32_shift(c1);
    let c3 = spec_crc32_shift(c2);
    let c4 = spec_crc32_shift(c3);
    let c5 = spec_crc32_shift(c4);
    let c6 = spec_crc32_shift(c5);
    let c7 = spec_crc32_shift(c6);
    spec_crc32_shift(c7)
}

/// The register after all of `bytes`, starting from `crc`.
pub open spec fn spec_crc32_update(crc: u32, bytes: Seq<u8>) -> u32
    decreases bytes.len(),
{
    if bytes.len() == 0 {
        crc
    } else {
        spec_crc32_byte(spec_crc32_update(crc, bytes.drop_last()), bytes.last())
    }
}

/// The CRC-32 checksum of `bytes`: the register starts with all bits set and
/// is inverted at the end.
pub open spec fn spec_crc32(bytes: Seq<u8>) -> u32 {
    spec_crc32_update(0xFFFF_FFFF, bytes) ^ 0xFFFF_FFFF
}

/// What is appended to a shard's registration name before it is hashed.
pub open spec fn spec_hash_salt() -> Seq<char> {
    "-rust-0x20200101"@
}

/// The stable hash of the shard registered as `name`.
pub open spec fn spec_stable_hash(name: Seq<char>) -> u32 {
    spec_crc32(vstd::utf8::encode_utf8(name) + vstd::utf8::encode_utf8(spec_hash_salt()))
}

/// Feeding two runs of bytes one after the other is feeding their
/// concatenation.
pub proof fn lemma_crc32_update_concat(crc: u32, a: Seq<u8>, b: Seq<u8>)
    ensures
        spec_crc32_update(crc, a + b) == spec_crc32_update(spec_crc32_update(crc, a), b),
    decreases b.len(),
{
    if b.len() > 0 {
        assert((a + b).drop_last() =~= a + b.drop_last());
        lemma_crc32_update_concat(crc, a, b.drop_last());
    }
}

fn crc32_shift(crc: u32) -> (next: u32)
    ensures
        next == spec_crc32_shift(crc),
{
    if crc & 1 == 1 {
        (crc >> 1) ^ CRC32_POLYNOMIAL
    } else {
        crc >> 1
    }
}

fn crc32_byte(crc: u32, byte: u8) -> (next: u32)
    ensures
        next == spec_crc32_byte(crc, byte),
{
    let mut c: u32 = crc ^ (byte as u32);
    c = crc32_shift(c);
    c = crc32_shift(c);
    c = crc32_shift(c);
    c = crc32_shift(c);
    c = crc32_shift(c);
    c = crc32_shift(c);
    c = crc32_shift(c);
    crc32_shift(c)
}

fn crc32_update(crc: u32, bytes: &[u8]) -> (next: u32)
    ensures
        next == spec_crc32_update(crc, bytes@),
{
    let mut c: u32 = crc;
    let mut i: usize = 0;
    while i < bytes.len()
        invariant
            i <= bytes.len(),
            c == spec_crc32_update(crc, bytes@.take(i as int)),
        decreases bytes.len() - i,
    {
        assert(bytes@.take(i + 1).drop_last() =~= bytes@.take(i as int));
        c = crc32_byte(c, bytes[i]);
        i = i + 1;
    }
    assert(bytes@.take(i as int) =~= bytes@);
    c
}

/// The CRC-32 (IEEE 802.3) checksum of `bytes`.
pub fn crc32(bytes: &[u8]) -> (checksum: u32)
    ensures
        checksum == spec_crc32(bytes@),
{
    crc32_update(0xFFFF_FFFF, bytes) ^ 0xFFFF_FFFF
}

/// The stable hash of the shard registered as `name`: the CRC-32 of the name
/// followed by the salt. It depends on nothing else, so it is the same in every
/// build.
pub fn stable_hash(name: &str) -> (hash: u32)
    ensures
        hash == spec_stable_hash(name@),
{
    let salt = "-rust-0x20200101";
    let named: u32 = crc32_update(0xFFFF_FFFF, name.as_bytes());
    let salted: u32 = crc32_update(named, salt.as_bytes());
    proof {
        lemma_crc32_update_concat(0xFFFF_FFFF, name.spec_bytes(), salt.spec_bytes());
    }
    salted ^ 0xFFFF_FFFF
}

} // verus!
