//! Generation, hashing and format checks of static API keys.

use crate::error::AppError;
use rand::Rng;
use sha2::Digest;
use vstd::prelude::*;
use vstd::utf8::encode_utf8;

verus! {

/// Bytes of randomness in a freshly generated key (64 hex characters).
pub const API_KEY_LENGTH: usize = 32;

/// Number of characters of a key that are shown back to its owner.
pub const DISPLAY_PREFIX_LENGTH: usize = 16;

/// Minimum length, in characters, of a key that passes the format check.
pub const MIN_KEY_LENGTH: usize = 40;

pub const PREFIX_LIVE: &'static str = "mnt_live_";

pub const PREFIX_TEST: &'static str = "mnt_test_";

pub open spec fn live_prefix() -> Seq<char> {
    seq!['m', 'n', 't', '_', 'l', 'i', 'v', 'e', '_']
}

pub open spec fn test_prefix() -> Seq<char> {
    seq!['m', 'n', 't', '_', 't', 'e', 's', 't', '_']
}

pub open spec fn discriminator(is_live: bool) -> Seq<char> {
    if is_live {
        live_prefix()
    } else {
        test_prefix()
    }
}

pub open spec fn starts_with(s: Seq<char>, p: Seq<char>) -> bool {
    p.len() <= s.len() && s.subrange(0, p.len() as int) == p
}

/// The lowercase hexadecimal digit of a value below 16.
pub open spec fn hex_digit(n: u8) -> char {
    seq!['0', '1', '2', '3', '4', '5', '6', '7', '8', '9', 'a', 'b', 'c', 'd', 'e', 'f'][n as int]
}

/// Lowercase hexadecimal text of a byte string: two digits per byte, high nibble first.
pub open spec fn hex_of(b: Seq<u8>) -> Seq<char>
    decreases b.len(),
{
    if b.len() == 0 {
        Seq::empty()
    } else {
        hex_of(b.drop_last()) + seq![hex_digit(b.last() / 16), hex_digit(b.last() % 16)]
    }
}

pub proof fn lemma_hex_len(b: Seq<u8>)
    ensures
        hex_of(b).len() == 2 * b.len(),
    decreases b.len(),
{
    if b.len() > 0 {
        lemma_hex_len(b.drop_last());
    }
}

/// Whether every character is a lowercase hexadecimal digit.
pub open spec fn is_lower_hex(s: Seq<char>) -> bool {
    forall|i: int| 0 <= i < s.len() ==> ('0' <= #[trigger] s[i] <= '9' || 'a' <= s[i] <= 'f')
}

pub proof fn lemma_hex_digits(b: Seq<u8>)
    ensures
        is_lower_hex(hex_of(b)),
    decreases b.len(),
{
    if b.len() > 0 {
        lemma_hex_digits(b.drop_last());
        let x = b.last();
        assert(x / 16 < 16 && x % 16 < 16);
        let h = hex_of(b);
        let p = hex_of(b.drop_last());
        assert forall|i: int| 0 <= i < h.len() implies ('0' <= #[trigger] h[i] <= '9' || 'a' <= h[i]
            <= 'f') by {
            if i < p.len() {
                assert(h[i] == p[i]);
            } else {
                let d: u8 = if i == p.len() { x / 16 } else { x % 16 };
                assert(h[i] == hex_digit(d));
                assert(0 <= d < 16);
                assert(seq!['0', '1', '2', '3', '4', '5', '6', '7', '8', '9', 'a', 'b', 'c', 'd', 'e', 'f'][d as int] == hex_digit(d));
                if d == 0 {} else if d == 1 {} else if d == 2 {} else if d == 3 {} else if d == 4 {}
                else if d == 5 {} else if d == 6 {} else if d == 7 {} else if d == 8 {} else if d == 9 {}
                else if d == 10 {} else if d == 11 {} else if d == 12 {} else if d == 13 {} else if d == 14 {}
                else {}
            }
        }
    }
}

/// The SHA-256 digest of a byte string.
pub uninterp spec fn sha256_of(b: Seq<u8>) -> Seq<u8>;

/// What is stored for a key: the hex text of the SHA-256 digest of its UTF-8 bytes.
pub open spec fn key_digest(key: Seq<char>) -> Seq<char> {
    hex_of(sha256_of(encode_utf8(key)))
}

/// A key whose shape is acceptable before any lookup.
pub open spec fn well_formed_key(key: Seq<char>) -> bool {
    (starts_with(key, live_prefix()) || starts_with(key, test_prefix())) && key.len()
        >= MIN_KEY_LENGTH
}

/// The full plaintext key built from a discriminator and random bytes.
pub open spec fn key_text(is_live: bool, random: Seq<u8>) -> Seq<char> {
    discriminator(is_live) + hex_of(random)
}

/// The non-secret display prefix of a key.
pub open spec fn display_prefix(key: Seq<char>) -> Seq<char> {
    if key.len() <= DISPLAY_PREFIX_LENGTH {
        key
    } else {
        key.take(DISPLAY_PREFIX_LENGTH as int)
    }
}

/// A key handed out once: the plaintext, its display prefix and its stored hash.
pub struct GeneratedApiKey {
    pub key: String,
    pub key_prefix: String,
    pub key_hash: String,
}

/// Relies on hex::encode: two lowercase hex digits per byte, in order.
#[verifier::external_body]
fn hex_encode(b: &[u8]) -> (r: String)
    ensures
        r@ == hex_of(b@),
{
    hex::encode(b)
}

/// Relies on sha2::Sha256::digest: a 32-byte digest that depends on the input alone.
#[verifier::external_body]
fn sha256_digest(b: &[u8]) -> (r: Vec<u8>)
    ensures
        r@ == sha256_of(b@),
        r@.len() == 32,
{
    sha2::Sha256::digest(b).to_vec()
}

/// Relies on rand::thread_rng: `n` bytes from the thread-local secure generator.
#[verifier::external_body]
fn random_bytes(n: usize) -> (r: Vec<u8>)
    ensures
        r@.len() == n,
{
    let mut rng = rand::thread_rng();
    (0..n).map(|_| rng.gen::<u8>()).collect()
}

/// Whether `s` begins with `p`.
pub fn has_prefix(s: &str, p: &str) -> (r: bool)
    ensures
        r == starts_with(s@, p@),
{
    let n = p.unicode_len();
    let m = s.unicode_len();
    if n > m {
        return false;
    }
    let mut i: usize = 0;
    while i < n
        invariant
            n == p@.len(),
            m == s@.len(),
            n <= m,
            i <= n,
            forall|j: int| 0 <= j < i ==> s@[j] == p@[j],
        decreases n - i,
    {
        if s.get_char(i) != p.get_char(i) {
            assert(s@.subrange(0, n as int)[i as int] != p@[i as int]);
            return false;
        }
        i = i + 1;
    }
    assert(s@.subrange(0, n as int) =~= p@);
    true
}

/// One-way hash of a key, stable across calls: hex of SHA-256 of its bytes.
pub fn hash_api_key(key: &str) -> (r: String)
    ensures
        r@ == key_digest(key@),
        r@.len() == 64,
        is_lower_hex(r@),
{
    let digest = sha256_digest(key.as_bytes());
    let r = hex_encode(digest.as_slice());
    proof {
        lemma_hex_len(digest@);
        lemma_hex_digits(digest@);
    }
    r
}

/// Whether `hash` is the stored hash of `key`.
pub open spec fn key_matches(key: Seq<char>, hash: Seq<char>) -> bool {
    key_digest(key) == hash
}

/// Recomputes the hash of `key` and compares it with `hash`.
pub fn verify_api_key(key: &str, hash: &str) -> (r: bool)
    ensures
        r == key_matches(key@, hash@),
{
    let computed = hash_api_key(key);
    let expected = hash.to_owned();
    computed == expected
}

/// Structural pre-check: a known discriminator and at least the minimum length.
pub fn validate_api_key_format(key: &str) -> (r: bool)
    ensures
        r == well_formed_key(key@),
{
    proof {
        reveal_strlit("mnt_live_");
        reveal_strlit("mnt_test_");
    }
    assert(PREFIX_LIVE@ =~= live_prefix());
    assert(PREFIX_TEST@ =~= test_prefix());
    (has_prefix(key, PREFIX_LIVE) || has_prefix(key, PREFIX_TEST)) && key.unicode_len()
        >= MIN_KEY_LENGTH
}

/// Builds a key from already drawn random bytes: discriminator, then their hex text.
pub fn api_key_from_bytes(is_live: bool, random: &[u8]) -> (r: GeneratedApiKey)
    ensures
        r.key@ == key_text(is_live, random@),
        r.key_prefix@ == display_prefix(r.key@),
        r.key_hash@ == key_digest(r.key@),
        r.key@.len() == 9 + 2 * random@.len(),
        r.key_hash@.len() == 64,
{
    proof {
        reveal_strlit("mnt_live_");
        reveal_strlit("mnt_test_");
    }
    let prefix = if is_live {
        PREFIX_LIVE
    } else {
        PREFIX_TEST
    };
    assert(prefix@ =~= discriminator(is_live));
    let random_part = hex_encode(random);
    proof {
        lemma_hex_len(random@);
    }
    let mut key = String::from_str(prefix);
    key.append(random_part.as_str());
    let key_hash = hash_api_key(key.as_str());
    let len = key.as_str().unicode_len();
    let shown = if len <= DISPLAY_PREFIX_LENGTH {
        len
    } else {
        DISPLAY_PREFIX_LENGTH
    };
    let key_prefix = String::from_str(key.as_str().substring_char(0, shown));
    assert(key_prefix@ =~= display_prefix(key@));
    GeneratedApiKey { key, key_prefix, key_hash }
}

/// Draws fresh random bytes and builds a key for the live or the test environment.
/// Never fails.
pub fn generate_api_key(is_live: bool) -> (r: Result<GeneratedApiKey, AppError>)
    ensures
        r matches Ok(g) && (exists|random: Seq<u8>|
            random.len() == API_KEY_LENGTH && g.key@ == #[trigger] key_text(is_live, random))
            && g.key_prefix@ == display_prefix(g.key@) && g.key_hash@ == key_digest(g.key@)
            && g.key_hash@.len() == 64 && g.key@.len() == 73 && g.key_hash@ != g.key@,
{
    let random = random_bytes(API_KEY_LENGTH);
    Ok(api_key_from_bytes(is_live, random.as_slice()))
}

/// Every key verifies against its own hash: hashing is a function of the key alone.
pub proof fn hashed_key_verifies(key: Seq<char>)
    ensures
        key_matches(key, key_digest(key)),
{
}

} // verus!
