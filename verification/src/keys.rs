//! Random server names and the MD5-based name key derivation.

use rand::Rng;
use vstd::prelude::*;
use vstd::utf8::encode_utf8;

use crate::text::{hex_lower, is_hex_lower_char, lemma_hex_lower_shape, push_char, to_hex_lower};

verus! {

#[verifier::external_type_specification]
#[verifier::external_body]
pub struct ExThreadRng(rand::rngs::ThreadRng);

/// Calls `rand::rng`, the handle to the thread-local generator. Nothing is
/// promised of the handle beyond its type.
#[verifier::external_body]
fn thread_rng() -> rand::rngs::ThreadRng {
    rand::rng()
}

/// Calls `Rng::random_range(0..bound)`. The crate documents that the value lies
/// in the given range and that the call panics on an empty range, hence the
/// `requires`. Which value comes out is chance, so nothing else is stated.
#[verifier::external_body]
fn random_below(rng: &mut rand::rngs::ThreadRng, bound: usize) -> (r: usize)
    requires
        bound > 0,
    ensures
        r < bound,
{
    rng.random_range(0..bound)
}

/// The number of characters a server name is drawn from.
pub const KEY_ALPHABET_LEN: usize = 36;

/// The `i`-th character of "abcdefghijklmnopqrstuvwxyz0123456789".
pub open spec fn key_alphabet_char(i: int) -> char {
    if i < 26 {
        (('a' as int) + i) as char
    } else {
        (('0' as int) + (i - 26)) as char
    }
}

/// A lowercase ASCII letter or an ASCII digit.
pub open spec fn is_key_char(c: char) -> bool {
    ('a' <= c && c <= 'z') || ('0' <= c && c <= '9')
}

/// The `i`-th character of the key alphabet.
pub fn key_char(i: usize) -> (c: char)
    requires
        i < KEY_ALPHABET_LEN,
    ensures
        c == key_alphabet_char(i as int),
        is_key_char(c),
{
    if i < 26 {
        let b: u8 = 97u8 + (i as u8);
        b as char
    } else {
        let b: u8 = 48u8 + ((i - 26) as u8);
        b as char
    }
}

/// Two different indices of the alphabet give different characters, and
/// every alphabet character is a lowercase letter or a digit.
pub proof fn lemma_key_alphabet_distinct(i: int, j: int)
    requires
        0 <= i < KEY_ALPHABET_LEN,
        0 <= j < KEY_ALPHABET_LEN,
    ensures
        is_key_char(key_alphabet_char(i)),
        i != j ==> key_alphabet_char(i) != key_alphabet_char(j),
{
}

/// The key spelled by indices into the alphabet.
pub fn key_from_draws(draws: &Vec<usize>) -> (key: String)
    requires
        forall|i: int| 0 <= i < draws@.len() ==> #[trigger] draws@[i] < KEY_ALPHABET_LEN,
    ensures
        key@.len() == draws@.len(),
        forall|i: int| 0 <= i < draws@.len() ==> #[trigger] key@[i] == key_alphabet_char(draws@[i] as int),
{
    let mut key = String::new();
    let n = draws.len();
    for k in 0..n
        invariant
            n == draws@.len(),
            forall|i: int| 0 <= i < draws@.len() ==> #[trigger] draws@[i] < KEY_ALPHABET_LEN,
            key@.len() == k,
            forall|i: int| 0 <= i < k ==> #[trigger] key@[i] == key_alphabet_char(draws@[i] as int),
    {
        push_char(&mut key, key_char(draws[k]));
    }
    key
}

/// Keys spelled by different index sequences of the same length differ:
/// the key keeps every draw.
pub proof fn lemma_keys_of_different_draws_differ(d1: Seq<usize>, d2: Seq<usize>, k1: Seq<char>, k2: Seq<char>)
    requires
        d1.len() == d2.len(),
        d1 != d2,
        forall|i: int| 0 <= i < d1.len() ==> #[trigger] d1[i] < KEY_ALPHABET_LEN,
        forall|i: int| 0 <= i < d2.len() ==> #[trigger] d2[i] < KEY_ALPHABET_LEN,
        k1.len() == d1.len(),
        k2.len() == d2.len(),
        forall|i: int| 0 <= i < d1.len() ==> #[trigger] k1[i] == key_alphabet_char(d1[i] as int),
        forall|i: int| 0 <= i < d2.len() ==> #[trigger] k2[i] == key_alphabet_char(d2[i] as int),
    ensures
        k1 != k2,
{
    assert(!(d1 =~= d2));
    let i = choose|i: int| 0 <= i < d1.len() && d1[i] != d2[i];
    lemma_key_alphabet_distinct(d1[i] as int, d2[i] as int);
    assert(k1[i] != k2[i]);
}

/// `length` random indices into the alphabet, each drawn from the generator.
pub fn draw_key_indices(length: usize) -> (draws: Vec<usize>)
    ensures
        draws@.len() == length,
        forall|i: int| 0 <= i < length ==> #[trigger] draws@[i] < KEY_ALPHABET_LEN,
{
    let mut rng = thread_rng();
    let mut draws: Vec<usize> = Vec::new();
    for n in 0..length
        invariant
            draws@.len() == n,
            forall|i: int| 0 <= i < n ==> #[trigger] draws@[i] < KEY_ALPHABET_LEN,
    {
        draws.push(random_below(&mut rng, KEY_ALPHABET_LEN));
    }
    draws
}

/// A random string of `length` characters, each drawn from the lowercase
/// letters and the digits: the key spelled by `length` random draws.
pub fn generate_random_key(length: usize) -> (key: String)
    ensures
        key@.len() == length,
        forall|i: int| 0 <= i < length ==> #[trigger] is_key_char(key@[i]),
        exists|draws: Seq<usize>|
            draws.len() == length
            && (forall|i: int| 0 <= i < length ==> #[trigger] draws[i] < KEY_ALPHABET_LEN)
            && (forall|i: int| 0 <= i < length ==> #[trigger] key@[i] == key_alphabet_char(draws[i] as int)),
{
    let draws = draw_key_indices(length);
    let key = key_from_draws(&draws);
    proof {
        assert forall|i: int| 0 <= i < length implies #[trigger] is_key_char(key@[i]) by {
            assert(key@[i] == key_alphabet_char(draws@[i] as int));
            lemma_key_alphabet_distinct(draws@[i] as int, draws@[i] as int);
        }
        assert(forall|i: int| 0 <= i < length ==> #[trigger] key@[i] == key_alphabet_char(draws@[i] as int));
    }
    key
}

/// What `md5::compute` returns for the given bytes, as the digest's bytes.
pub uninterp spec fn md5_digest(data: Seq<u8>) -> Seq<u8>;

/// Calls `md5::compute` and returns the sixteen bytes of the `Digest`. The
/// result is named `md5_digest` of the input; the crate's `Digest` wraps a
/// `[u8; 16]`, so it has sixteen bytes.
#[verifier::external_body]
fn md5_bytes(data: &[u8]) -> (d: Vec<u8>)
    ensures
        d@ == md5_digest(data@),
        d@.len() == 16,
{
    md5::compute(data).0.to_vec()
}

/// The key derived from a name and a token: the MD5 digest of the UTF-8 name
/// in lowercase hex, followed by the token, hashed again and rendered in hex.
pub open spec fn spec_name_key(name: Seq<char>, t: Seq<char>) -> Seq<char> {
    hex_lower(md5_digest(encode_utf8(name_key_iv(md5_digest(encode_utf8(name)), t))))
}

/// The text hashed in the second round: the first digest in hex, then the token.
pub open spec fn name_key_iv(name_digest: Seq<u8>, t: Seq<char>) -> Seq<char> {
    hex_lower(name_digest) + t
}

/// Builds the second-round input from the digest of the name and the token.
pub fn name_key_iv_text(name_digest: &[u8], t: &str) -> (iv: String)
    ensures
        iv@ == name_key_iv(name_digest@, t@),
{
    let mut iv = to_hex_lower(name_digest);
    iv.append(t);
    iv
}

/// The name key hashes the name's whole UTF-8 encoding in the first round,
/// then the first digest's lowercase hex followed by the whole token.
pub proof fn lemma_name_key_hashes_whole_name(name: Seq<char>, t: Seq<char>)
    ensures
        spec_name_key(name, t) == hex_lower(md5_digest(encode_utf8(hex_lower(md5_digest(encode_utf8(name))) + t))),
{
}

/// Derives the name key: `hex(md5(hex(md5(name_text)) + t))`.
pub fn decrypt_name_t(name_text: String, t: String) -> (key: String)
    ensures
        key@ == spec_name_key(name_text@, t@),
        key@ == hex_lower(md5_digest(encode_utf8(hex_lower(md5_digest(encode_utf8(name_text@))) + t@))),
        key@.len() == 32,
        forall|i: int| 0 <= i < 32 ==> #[trigger] is_hex_lower_char(key@[i]),
{
    let name_digest = md5_bytes(name_text.as_str().as_bytes());
    let iv = name_key_iv_text(name_digest.as_slice(), t.as_str());
    let hashed = md5_bytes(iv.as_str().as_bytes());
    let key = to_hex_lower(hashed.as_slice());
    proof {
        lemma_hex_lower_shape(hashed@);
    }
    key
}

} // verus!
