//! The cipher envelope: `IV(16) || AES-128-CBC ciphertext || HMAC-SHA256 tag(32)`.
use crate::error::FileTransferError;
use aes::Aes128;
use block_modes::block_padding::Pkcs7;
use block_modes::{BlockMode, Cbc};
use hmac::{Hmac, Mac, NewMac};
use rand::Rng;
use sha2::Sha256;
use vstd::prelude::*;
use vstd::slice::slice_subrange;

verus! {

/// Bytes of the initialisation vector that opens an envelope.
pub const IV_SIZE: usize = 16;

/// Bytes of the block cipher's key, taken from the front of the shared key.
pub const CIPHER_KEY_SIZE: usize = 16;

/// Bytes of the authentication tag that closes an envelope.
pub const TAG_SIZE: usize = 32;

/// What AES-128-CBC with PKCS#7 padding makes of `plain` under `key` and `iv`.
pub uninterp spec fn cbc_encrypt_of(key: Seq<u8>, iv: Seq<u8>, plain: Seq<u8>) -> Seq<u8>;

/// What AES-128-CBC decryption and PKCS#7 unpadding make of `cipher`, or
/// `None` where the length or the padding is malformed.
pub uninterp spec fn cbc_decrypt_of(key: Seq<u8>, iv: Seq<u8>, cipher: Seq<u8>) -> Option<Seq<u8>>;

/// The HMAC-SHA256 tag of `msg` under `key`.
pub uninterp spec fn hmac_of(key: Seq<u8>, msg: Seq<u8>) -> Seq<u8>;

/// Length of a plaintext of `n` bytes after PKCS#7 padding to 16-byte blocks.
pub open spec fn padded_len(n: nat) -> nat {
    (n / 16 + 1) * 16
}

/// The part of the shared key that keys the block cipher.
pub open spec fn cipher_key(key: Seq<u8>) -> Seq<u8> {
    key.take(CIPHER_KEY_SIZE as int)
}

/// The envelope that sealing `plain` under `key` with the IV `iv` produces.
pub open spec fn envelope_of(key: Seq<u8>, iv: Seq<u8>, plain: Seq<u8>) -> Seq<u8> {
    let body = iv + cbc_encrypt_of(cipher_key(key), iv, plain);
    body + hmac_of(key, body)
}

/// `e` is an envelope of `plain` under `key`, read by the fixed offsets of
/// the format: whatever its IV, its middle is the ciphertext of `plain` and its
/// end is the tag of everything before it.
pub open spec fn sealed_by(e: Seq<u8>, key: Seq<u8>, plain: Seq<u8>) -> bool {
    &&& e.len() >= IV_SIZE + TAG_SIZE
    &&& key.len() >= CIPHER_KEY_SIZE
    &&& e.subrange(IV_SIZE as int, e.len() - TAG_SIZE) == cbc_encrypt_of(
        cipher_key(key),
        e.take(IV_SIZE as int),
        plain,
    )
    &&& e.skip(e.len() - TAG_SIZE) == hmac_of(key, e.take(e.len() - TAG_SIZE))
}

/// The outcome of opening the envelope `e` with `key`. The tag is checked
/// before anything is decrypted.
pub open spec fn decrypt_result(e: Seq<u8>, key: Seq<u8>) -> Result<Seq<u8>, FileTransferError> {
    if e.len() < IV_SIZE + TAG_SIZE {
        Err(FileTransferError::InvalidLength)
    } else if key.len() < CIPHER_KEY_SIZE {
        Err(FileTransferError::KeyIvError)
    } else if e.skip(e.len() - TAG_SIZE) != hmac_of(key, e.take(e.len() - TAG_SIZE)) {
        Err(FileTransferError::HmacVerifyFail)
    } else {
        match cbc_decrypt_of(
            cipher_key(key),
            e.take(IV_SIZE as int),
            e.subrange(IV_SIZE as int, e.len() - TAG_SIZE),
        ) {
            Some(p) => Ok(p),
            None => Err(FileTransferError::BlockModeError),
        }
    }
}

/// `r` is the executable form of the outcome `s`.
pub open spec fn result_is(r: Result<Vec<u8>, FileTransferError>, s: Result<Seq<u8>, FileTransferError>) -> bool {
    match r {
        Ok(v) => s == Ok::<Seq<u8>, FileTransferError>(v@),
        Err(e) => s == Err::<Seq<u8>, FileTransferError>(e),
    }
}

#[verifier::external_type_specification]
#[verifier::external_body]
pub struct ExBlockModeError(block_modes::BlockModeError);

/// Relies on block_modes' `Cbc::<Aes128, Pkcs7>::new_var` and `encrypt_vec`:
/// `new_var` accepts a 16-byte key with a 16-byte IV, and `encrypt_vec` pads
/// with PKCS#7 to whole 16-byte blocks, always adding at least one byte.
#[verifier::external_body]
fn aes_cbc_encrypt(key: &[u8], iv: &[u8], plain: &[u8]) -> (r: Vec<u8>)
    requires
        key@.len() == CIPHER_KEY_SIZE,
        iv@.len() == IV_SIZE,
    ensures
        r@ == cbc_encrypt_of(key@, iv@, plain@),
        r@.len() == padded_len(plain@.len()),
{
    Cbc::<Aes128, Pkcs7>::new_var(key, iv).expect("16-byte key and IV").encrypt_vec(plain)
}

/// Relies on block_modes' `Cbc::<Aes128, Pkcs7>::new_var` and `decrypt_vec`:
/// decryption inverts `encrypt_vec` under the same key and IV, and fails with
/// `BlockModeError` on a ragged length or malformed padding.
#[verifier::external_body]
fn aes_cbc_decrypt(key: &[u8], iv: &[u8], cipher: &[u8]) -> (r: Result<Vec<u8>, block_modes::BlockModeError>)
    requires
        key@.len() == CIPHER_KEY_SIZE,
        iv@.len() == IV_SIZE,
    ensures
        r is Ok <==> cbc_decrypt_of(key@, iv@, cipher@) is Some,
        r is Ok ==> r->Ok_0@ == cbc_decrypt_of(key@, iv@, cipher@)->Some_0,
        forall|p: Seq<u8>|
            cipher@ == cbc_encrypt_of(key@, iv@, p) ==> (r is Ok && r->Ok_0@ == p),
{
    Cbc::<Aes128, Pkcs7>::new_var(key, iv).expect("16-byte key and IV").decrypt_vec(cipher)
}

/// Relies on hmac's `Hmac::<Sha256>` through `new_varkey`, `update` and
/// `finalize`: a 32-byte tag, for a key of any length.
#[verifier::external_body]
fn hmac_sha256(key: &[u8], msg: &[u8]) -> (r: Vec<u8>)
    ensures
        r@ == hmac_of(key@, msg@),
        r@.len() == TAG_SIZE,
{
    let mut mac = Hmac::<Sha256>::new_varkey(key).expect("HMAC takes a key of any size");
    mac.update(msg);
    mac.finalize().into_bytes().to_vec()
}

/// Relies on hmac's `Mac::verify`: a constant-time comparison of the tag of
/// `msg` under `key` with `tag`, which fails on any difference, length included.
#[verifier::external_body]
fn hmac_sha256_verify(key: &[u8], msg: &[u8], tag: &[u8]) -> (r: bool)
    ensures
        r == (tag@ == hmac_of(key@, msg@)),
{
    let mut mac = Hmac::<Sha256>::new_varkey(key).expect("HMAC takes a key of any size");
    mac.update(msg);
    mac.verify(tag).is_ok()
}

/// Relies on rand's `thread_rng`: sixteen bytes from a cryptographically
/// secure generator. Nothing is known of their values.
#[verifier::external_body]
fn new_iv() -> (r: Vec<u8>)
    ensures
        r@.len() == IV_SIZE,
{
    rand::thread_rng().gen::<[u8; 16]>().to_vec()
}

/// Seals `data` under `key` with the given IV: `iv || ciphertext || tag`,
/// where the tag authenticates `iv || ciphertext` under the whole key and the
/// ciphertext uses the key's first 16 bytes.
pub fn encrypt_with_iv(data: &[u8], key: &[u8], iv: &[u8]) -> (r: Result<Vec<u8>, FileTransferError>)
    ensures
        r is Ok <==> (key@.len() >= CIPHER_KEY_SIZE && iv@.len() == IV_SIZE),
        r is Err ==> r == Err::<Vec<u8>, FileTransferError>(FileTransferError::KeyIvError),
        r is Ok ==> {
            &&& r->Ok_0@ == envelope_of(key@, iv@, data@)
            &&& r->Ok_0@.len() == IV_SIZE + padded_len(data@.len()) + TAG_SIZE
            &&& r->Ok_0@.take(IV_SIZE as int) == iv@
            &&& sealed_by(r->Ok_0@, key@, data@)
        },
{
    if key.len() < CIPHER_KEY_SIZE || iv.len() != IV_SIZE {
        return Err(FileTransferError::KeyIvError);
    }
    let cipher_key_bytes = slice_subrange(key, 0, CIPHER_KEY_SIZE);
    let cipher_text = aes_cbc_encrypt(cipher_key_bytes, iv, data);
    let mut full = vstd::slice::slice_to_vec(iv);
    let mut ct = cipher_text;
    full.append(&mut ct);
    let body = Ghost(full@);
    let mut tag = hmac_sha256(key, full.as_slice());
    full.append(&mut tag);
    proof {
        let e = full@;
        let n = e.len();
        assert(body@ =~= iv@ + cbc_encrypt_of(cipher_key(key@), iv@, data@));
        assert(e.take(IV_SIZE as int) =~= iv@);
        assert(e.take(n - TAG_SIZE) =~= body@);
        assert(e.skip(n - TAG_SIZE) =~= hmac_of(key@, body@));
        assert(e.subrange(IV_SIZE as int, n - TAG_SIZE) =~= cbc_encrypt_of(
            cipher_key(key@),
            iv@,
            data@,
        ));
    }
    Ok(full)
}

/// Seals `data` under `key` with a fresh random IV.
pub fn encrypt(data: &[u8], key: &[u8]) -> (r: Result<Vec<u8>, FileTransferError>)
    ensures
        r is Ok <==> key@.len() >= CIPHER_KEY_SIZE,
        r is Err ==> r == Err::<Vec<u8>, FileTransferError>(FileTransferError::KeyIvError),
        r is Ok ==> {
            &&& r->Ok_0@.len() == IV_SIZE + padded_len(data@.len()) + TAG_SIZE
            &&& r->Ok_0@ == envelope_of(key@, r->Ok_0@.take(IV_SIZE as int), data@)
            &&& sealed_by(r->Ok_0@, key@, data@)
        },
{
    let iv = new_iv();
    encrypt_with_iv(data, key, iv.as_slice())
}

/// Opens an envelope: checks its tag under `key` first, and only then
/// decrypts and strips the padding. Any envelope that sealing `p` under
/// `key` can produce opens to `p`.
pub fn decrypt(full_cipher: &[u8], key: &[u8]) -> (r: Result<Vec<u8>, FileTransferError>)
    ensures
        result_is(r, decrypt_result(full_cipher@, key@)),
        forall|p: Seq<u8>| sealed_by(full_cipher@, key@, p) ==> (r is Ok && r->Ok_0@ == p),
{
    let n = full_cipher.len();
    if n < IV_SIZE + TAG_SIZE {
        return Err(FileTransferError::InvalidLength);
    }
    if key.len() < CIPHER_KEY_SIZE {
        return Err(FileTransferError::KeyIvError);
    }
    let iv = slice_subrange(full_cipher, 0, IV_SIZE);
    let cipher_text = slice_subrange(full_cipher, IV_SIZE, n - TAG_SIZE);
    let mac_input = slice_subrange(full_cipher, 0, n - TAG_SIZE);
    let mac_act = slice_subrange(full_cipher, n - TAG_SIZE, n);
    proof {
        assert(mac_act@ =~= full_cipher@.skip(n - TAG_SIZE));
        assert(iv@ =~= full_cipher@.take(IV_SIZE as int));
        assert(mac_input@ =~= full_cipher@.take(n - TAG_SIZE));
    }
    if !hmac_sha256_verify(key, mac_input, mac_act) {
        return Err(FileTransferError::HmacVerifyFail);
    }
    let cipher_key_bytes = slice_subrange(key, 0, CIPHER_KEY_SIZE);
    match aes_cbc_decrypt(cipher_key_bytes, iv, cipher_text) {
        Ok(plain) => Ok(plain),
        Err(_) => Err(FileTransferError::BlockModeError),
    }
}

/// `e` with bit `bit` of byte `i` inverted.
pub open spec fn flip_bit(e: Seq<u8>, i: int, bit: u8) -> Seq<u8> {
    e.update(i, e[i] ^ (1u8 << bit))
}

/// An envelope opens only if its tag is the tag of its IV and ciphertext
/// under the key: nothing is decrypted before that check.
pub proof fn lemma_opens_only_authenticated(e: Seq<u8>, key: Seq<u8>)
    requires
        decrypt_result(e, key) is Ok,
    ensures
        e.len() >= IV_SIZE + TAG_SIZE,
        e.skip(e.len() - TAG_SIZE) == hmac_of(key, e.take(e.len() - TAG_SIZE)),
{
}

/// Inverting any bit of the tag of a sealed envelope makes it fail with an
/// integrity error.
pub proof fn lemma_tag_tamper_detected(e: Seq<u8>, key: Seq<u8>, plain: Seq<u8>, i: int, bit: u8)
    requires
        sealed_by(e, key, plain),
        e.len() - TAG_SIZE <= i < e.len(),
        bit < 8,
    ensures
        decrypt_result(flip_bit(e, i, bit), key) == Err::<Seq<u8>, FileTransferError>(
            FileTransferError::HmacVerifyFail,
        ),
{
    let f = flip_bit(e, i, bit);
    let n = e.len() - TAG_SIZE;
    let x = e[i];
    assert(x ^ (1u8 << bit) != x) by (bit_vector)
        requires bit < 8u8;
    assert(f.take(n) =~= e.take(n));
    assert(f.skip(n)[i - n] != e.skip(n)[i - n]);
}

/// Inverting a bit of the IV or ciphertext of a sealed envelope lets it open
/// only where the altered bytes have the same tag as the original ones under
/// the key: an HMAC-SHA256 collision.
pub proof fn lemma_body_tamper_needs_collision(e: Seq<u8>, key: Seq<u8>, plain: Seq<u8>, i: int, bit: u8)
    requires
        sealed_by(e, key, plain),
        0 <= i < e.len() - TAG_SIZE,
        bit < 8,
        decrypt_result(flip_bit(e, i, bit), key) is Ok,
    ensures
        ({
            let n = e.len() - TAG_SIZE;
            let f = flip_bit(e, i, bit);
            &&& f.take(n) != e.take(n)
            &&& hmac_of(key, f.take(n)) == hmac_of(key, e.take(n))
        }),
{
    let f = flip_bit(e, i, bit);
    let n = e.len() - TAG_SIZE;
    let x = e[i];
    assert(x ^ (1u8 << bit) != x) by (bit_vector)
        requires bit < 8u8;
    assert(f.take(n)[i] != e.take(n)[i]);
    assert(f.skip(n) =~= e.skip(n));
}

/// An envelope sealed under one key opens under another only where both keys
/// give its IV and ciphertext the same HMAC-SHA256 tag.
pub proof fn lemma_wrong_key_needs_collision(e: Seq<u8>, key: Seq<u8>, other: Seq<u8>, plain: Seq<u8>)
    requires
        sealed_by(e, key, plain),
        decrypt_result(e, other) is Ok,
    ensures
        hmac_of(other, e.take(e.len() - TAG_SIZE)) == hmac_of(key, e.take(e.len() - TAG_SIZE)),
{
}

} // verus!
