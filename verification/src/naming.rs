//! Identifier derivation for the shared-memory cache entry that stores an
//! unwrapped key.
//!
//! The identifier is a hash of the key file's canonical path, prefixed with a
//! fixed namespace tag and truncated to 31 bytes (the tightest name-length
//! limit among the supported platforms). Hashing is for namespacing, not
//! secrecy: it keeps distinct key files from colliding on one cache entry.
//! The truncation shrinks the effective collision resistance to the digits
//! that remain; that is an accepted residual risk, not a guarantee.

use vstd::prelude::*;

verus! {

/// The SHA-256 digest of a byte sequence, as the `sha2` crate computes it.
/// The digest depends on the input bytes alone.
pub uninterp spec fn sha256_of(bytes: Seq<u8>) -> Seq<u8>;

/// Relies on `sha2::Sha256::digest` (via the `sha2::Digest` trait): returns
/// the 32-byte SHA-256 digest of the input, a function of the input alone.
#[verifier::external_body]
fn sha256(bytes: &[u8]) -> (r: Vec<u8>)
    ensures
        r@ == sha256_of(bytes@),
        r@.len() == 32,
{
    <sha2::Sha256 as sha2::Digest>::digest(bytes).to_vec()
}

/// Relies on `String::from_utf8`: ASCII bytes decode to exactly the
/// corresponding characters.
#[verifier::external_body]
pub(crate) fn ascii_bytes_to_string(bytes: &Vec<u8>) -> (r: String)
    requires
        forall|i: int| 0 <= i < bytes@.len() ==> bytes@[i] < 128,
    ensures
        r@ == bytes@.map_values(|b: u8| b as char),
{
    String::from_utf8(bytes.clone()).unwrap_or_default()
}

/// The ASCII code of the lower-case hexadecimal digit for `n`.
pub open spec fn hex_digit_byte(n: int) -> u8
    recommends
        0 <= n < 16,
{
    if n < 10 {
        (0x30 + n) as u8
    } else {
        (0x57 + n) as u8
    }
}

/// The lower-case hexadecimal encoding of a byte sequence, two digits per
/// byte, high nibble first.
pub open spec fn hex_bytes_of(bytes: Seq<u8>) -> Seq<u8> {
    Seq::new(
        bytes.len() * 2,
        |i: int|
            if i % 2 == 0 {
                hex_digit_byte(bytes[i / 2] as int / 16)
            } else {
                hex_digit_byte(bytes[i / 2] as int % 16)
            },
    )
}

/// The namespace tag put in front of every cache-entry identifier, followed
/// by the separator that joins it to the hex digest: `"/_kbs2_uk_"`.
pub open spec fn shm_prefix_bytes() -> Seq<u8> {
    seq![
        '/' as u8,
        '_' as u8,
        'k' as u8,
        'b' as u8,
        's' as u8,
        '2' as u8,
        '_' as u8,
        'u' as u8,
        'k' as u8,
        '_' as u8,
    ]
}

/// The cache-entry identifier for a key file with the given canonical path,
/// as raw ASCII bytes: the namespace tag, then the hex digest of the path,
/// the whole truncated to 31 bytes.
pub open spec fn shm_name_bytes(canonical: Seq<u8>) -> Seq<u8> {
    (shm_prefix_bytes() + hex_bytes_of(sha256_of(canonical))).take(31)
}

/// The cache-entry identifier as a character string.
pub open spec fn shm_name_spec(canonical: Seq<u8>) -> Seq<char> {
    shm_name_bytes(canonical).map_values(|b: u8| b as char)
}

fn hex_digit(n: u8) -> (r: u8)
    requires
        n < 16,
    ensures
        r == hex_digit_byte(n as int),
{
    if n < 10 {
        0x30 + n
    } else {
        0x57 + n
    }
}

fn hex_bytes(bytes: &Vec<u8>) -> (r: Vec<u8>)
    ensures
        r@ == hex_bytes_of(bytes@),
{
    let mut out: Vec<u8> = Vec::new();
    let mut i: usize = 0;
    while i < bytes.len()
        invariant
            i <= bytes@.len(),
            out@ == hex_bytes_of(bytes@.take(i as int)),
        decreases bytes@.len() - i,
    {
        let b = bytes[i];
        out.push(hex_digit(b / 16));
        out.push(hex_digit(b % 16));
        i = i + 1;
        proof {
            assert(out@ =~= hex_bytes_of(bytes@.take(i as int)));
        }
    }
    proof {
        assert(bytes@.take(bytes@.len() as int) =~= bytes@);
    }
    out
}

/// Every byte of a hex encoding is an ASCII digit or lower-case letter.
proof fn lemma_hex_bytes_ascii(bytes: Seq<u8>)
    ensures
        forall|i: int| 0 <= i < hex_bytes_of(bytes).len() ==> hex_bytes_of(bytes)[i] < 128,
{
}

/// Derives the identifier under which the unwrapped form of the key file at
/// the given canonical (symlink-free, absolute) path is cached: the
/// namespace tag `"/_kbs2_uk_"` followed by the SHA-256 hex digest of the
/// path's bytes, truncated to 31 bytes.
pub fn shm_name_for(canonical_keyfile: &[u8]) -> (r: String)
    ensures
        r@ == shm_name_spec(canonical_keyfile@),
        r@.len() == 31,
{
    let digest = sha256(canonical_keyfile);
    let hex = hex_bytes(&digest);
    let mut name: Vec<u8> = Vec::new();
    name.push('/' as u8);
    name.push('_' as u8);
    name.push('k' as u8);
    name.push('b' as u8);
    name.push('s' as u8);
    name.push('2' as u8);
    name.push('_' as u8);
    name.push('u' as u8);
    name.push('k' as u8);
    name.push('_' as u8);
    proof {
        assert(name@ =~= shm_prefix_bytes());
    }
    let mut hex = hex;
    name.append(&mut hex);
    name.truncate(31);
    proof {
        lemma_hex_bytes_ascii(sha256_of(canonical_keyfile@));
        assert(name@ =~= shm_name_bytes(canonical_keyfile@));
    }
    ascii_bytes_to_string(&name)
}

/// The identifier depends on the canonical path alone: two spellings of a
/// key file's path that resolve to the same canonical form are cached under
/// the same name.
pub proof fn lemma_name_deterministic(canonical_a: Seq<u8>, canonical_b: Seq<u8>)
    requires
        canonical_a == canonical_b,
    ensures
        shm_name_spec(canonical_a) == shm_name_spec(canonical_b),
{
}

} // verus!
