//! The deterministic random word behind each randomized draw.
//!
//! The word is reproducible from the block height and the caller's address:
//! it is fair only as long as whoever produces blocks is trusted, and it is
//! not meant to be unpredictable to them.
use vstd::prelude::*;
use vstd::string::StrSliceExecFns;
use vstd::utf8::encode_utf8;

verus! {

/// What `base64::encode` returns for these bytes.
pub uninterp spec fn base64_of(bytes: Seq<u8>) -> Seq<char>;

/// The SHA-256 digest of these bytes.
pub uninterp spec fn sha256_of(bytes: Seq<u8>) -> Seq<u8>;

/// The first 32 bytes of the ChaCha20 stream keyed by these 32 bytes.
pub uninterp spec fn chacha_bytes_of(key: Seq<u8>) -> Seq<u8>;

/// The first 32-bit word of the ChaCha20 stream keyed by these 32 bytes.
pub uninterp spec fn chacha_word_of(key: Seq<u8>) -> u32;

/// Relies on base64::encode (standard alphabet, padded): the text depends on
/// the bytes alone.
#[verifier::external_body]
fn encode_base64(bytes: &Vec<u8>) -> (r: String)
    ensures
        r@ == base64_of(bytes@),
{
    base64::encode(bytes)
}

/// Relies on sha2::Sha256::digest: the 32-byte digest of the bytes.
#[verifier::external_body]
fn sha256(bytes: &Vec<u8>) -> (r: Vec<u8>)
    ensures
        r@ == sha256_of(bytes@),
        r@.len() == 32,
{
    <sha2::Sha256 as sha2::Digest>::digest(bytes).to_vec()
}

/// Relies on rand_chacha::ChaChaRng::from_seed followed by fill_bytes on a
/// 32-byte buffer: the first 32 bytes of the stream for that key.
#[verifier::external_body]
fn chacha_bytes(key: &Vec<u8>) -> (r: Vec<u8>)
    requires
        key@.len() == 32,
    ensures
        r@ == chacha_bytes_of(key@),
        r@.len() == 32,
{
    let mut seed = [0u8; 32];
    seed.copy_from_slice(key);
    let mut rng = <rand_chacha::ChaChaRng as rand::SeedableRng>::from_seed(seed);
    let mut out = [0u8; 32];
    rand::RngCore::fill_bytes(&mut rng, &mut out);
    out.to_vec()
}

/// Relies on rand_chacha::ChaChaRng::from_seed followed by next_u32: the first
/// word of the stream for that key.
#[verifier::external_body]
fn chacha_word(key: &Vec<u8>) -> (r: u32)
    requires
        key@.len() == 32,
    ensures
        r == chacha_word_of(key@),
{
    let mut seed = [0u8; 32];
    seed.copy_from_slice(key);
    let mut rng = <rand_chacha::ChaChaRng as rand::SeedableRng>::from_seed(seed);
    rand::RngCore::next_u32(&mut rng)
}

/// The `n` low-order bytes of `x`, most significant first.
pub open spec fn be_bytes(x: nat, n: nat) -> Seq<u8>
    decreases n,
{
    if n == 0 {
        Seq::empty()
    } else {
        be_bytes(x / 256, (n - 1) as nat).push((x % 256) as u8)
    }
}

fn be_bytes_exec(x: u64, n: u64) -> (r: Vec<u8>)
    ensures
        r@ == be_bytes(x as nat, n as nat),
    decreases n,
{
    if n == 0 {
        Vec::new()
    } else {
        let mut v = be_bytes_exec(x / 256, n - 1);
        v.push((x % 256) as u8);
        v
    }
}

/// The fixed application seed: the digest of the base64 text of "entropy".
pub open spec fn app_seed() -> Seq<u8> {
    sha256_of(encode_utf8(base64_of(encode_utf8("entropy"@))))
}

/// The bytes mixed into the seed for a call: the block height (big-endian),
/// the caller's address, and auxiliary entropy.
pub open spec fn entropy_bytes(height: u64, sender: Seq<char>, entropy: Seq<u8>) -> Seq<u8> {
    be_bytes(height as nat, 8) + encode_utf8(sender) + entropy
}

/// The 32-byte key derived from `seed` and the call's entropy: the digest of
/// the seed followed by the entropy keys a ChaCha20 stream, whose first 32
/// bytes are the key.
pub open spec fn derived_key(seed: Seq<u8>, height: u64, sender: Seq<char>, entropy: Seq<u8>) -> Seq<u8> {
    chacha_bytes_of(sha256_of(seed + entropy_bytes(height, sender, entropy)))
}

/// The random word of a mint at block `height` by `sender`: the first word of
/// the ChaCha20 stream keyed by the key derived from the application seed,
/// with the application seed as auxiliary entropy.
pub open spec fn draw_word(height: u64, sender: Seq<char>) -> u32 {
    chacha_word_of(derived_key(app_seed(), height, sender, app_seed()))
}

/// Derives the 32-byte key for a call from `seed`, the block height, the
/// caller's address and the auxiliary `entropy`.
pub fn new_entropy(height: u64, sender: &String, seed: &Vec<u8>, entropy: &Vec<u8>) -> (r: Vec<u8>)
    ensures
        r@ == derived_key(seed@, height, sender@, entropy@),
        r@.len() == 32,
{
    let mut material = seed.clone();
    assert(material@ =~= seed@);
    let mut height_bytes = be_bytes_exec(height, 8);
    let mut sender_bytes = sender.as_str().as_bytes_vec();
    let mut extra = entropy.clone();
    assert(extra@ =~= entropy@);
    material.append(&mut height_bytes);
    material.append(&mut sender_bytes);
    material.append(&mut extra);
    assert(material@ =~= seed@ + entropy_bytes(height, sender@, entropy@));
    let key = sha256(&material);
    chacha_bytes(&key)
}

/// The random word of a mint at block `height` by `sender`.
pub fn mint_draw_word(height: u64, sender: &String) -> (r: u32)
    ensures
        r == draw_word(height, sender@),
{
    let label = "entropy".as_bytes_vec();
    let text = encode_base64(&label);
    let text_bytes = text.as_str().as_bytes_vec();
    let seed = sha256(&text_bytes);
    let key = new_entropy(height, sender, &seed, &seed);
    chacha_word(&key)
}

} // verus!
