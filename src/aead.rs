//! The cipher constructions behind the modes: counter mode with the tag-mask
//! block skipped, AES-GCM, and AES-GCM-SIV, each over 16- or 32-byte keys.
use vstd::prelude::*;

use aes_gcm::aead::{Aead, KeyInit, Payload};
use ctr::cipher::{KeyIvInit, StreamCipher};

use crate::error::WitnessError;
use crate::keystream::{
    blocks_for, ctr_xor, lemma_ctr_xor_involution, CtrState, AES128_KEY_LEN, AES256_KEY_LEN, BLOCK_LEN,
    MAX_BLOCK_POS,
};
use crate::nonce::{build_aad, build_nonce, nonce_of, MAX_RECORD_LEN, NONCE_LEN};

verus! {

/// Bytes in an authentication tag.
pub const TAG_LEN: usize = 16;

/// Largest plaintext, and largest associated data, that GCM and GCM-SIV take.
pub const AEAD_MAX_LEN: u64 = 0x10_0000_0000;

/// Largest ciphertext body (tag excluded) that GCM decryption takes.
pub const AEAD_MAX_CT_LEN: u64 = 0x10_0000_0010;

/// Bytes that one keystream of the 32-bit counter covers without wrapping.
pub const CTR_MAX_LEN: u64 = 0xf_ffff_fff0;

/// Bytes that a record adds to its message: the content-type byte and the tag.
pub const RECORD_OVERHEAD: usize = 17;

/// The GHASH-based tag of GCM over `aad` and the ciphertext body `ct`.
pub uninterp spec fn gcm_tag(key: Seq<u8>, nonce: Seq<u8>, aad: Seq<u8>, ct: Seq<u8>) -> Seq<u8>;

/// AES-GCM-SIV ciphertext, tag appended.
pub uninterp spec fn gcm_siv_seal(key: Seq<u8>, nonce: Seq<u8>, aad: Seq<u8>, pt: Seq<u8>) -> Seq<u8>;

/// Whether `key` has the length of an AES-128 or an AES-256 key.
pub open spec fn aes_key_len_ok(key: Seq<u8>) -> bool {
    key.len() == AES128_KEY_LEN || key.len() == AES256_KEY_LEN
}

/// GCM's first counter block for a twelve-byte nonce: the nonce, then the
/// 32-bit counter 1.
pub open spec fn gcm_j0(nonce: Seq<u8>) -> Seq<u8> {
    nonce + seq![0u8, 0u8, 0u8, 1u8]
}

/// Counter-mode ciphertext: the plaintext XORed with the keystream that
/// follows the one skipped tag-mask block.
pub open spec fn ctr_ciphertext(key: Seq<u8>, iv: Seq<u8>, pt: Seq<u8>) -> Seq<u8> {
    ctr_xor(key, iv, 1, pt)
}

/// GCM ciphertext body: the counter-mode ciphertext from the first counter
/// block of `nonce`.
pub open spec fn gcm_body(key: Seq<u8>, nonce: Seq<u8>, pt: Seq<u8>) -> Seq<u8> {
    ctr_ciphertext(key, gcm_j0(nonce), pt)
}

/// GCM ciphertext: body, then tag.
pub open spec fn gcm_seal(key: Seq<u8>, nonce: Seq<u8>, aad: Seq<u8>, pt: Seq<u8>) -> Seq<u8> {
    gcm_body(key, nonce, pt) + gcm_tag(key, nonce, aad, gcm_body(key, nonce, pt))
}

/// Whether the last sixteen bytes of `ct` are the tag of the rest.
pub open spec fn gcm_tag_ok(key: Seq<u8>, nonce: Seq<u8>, aad: Seq<u8>, ct: Seq<u8>) -> bool {
    &&& ct.len() >= TAG_LEN
    &&& ct.subrange(ct.len() - TAG_LEN, ct.len() as int) == gcm_tag(
        key,
        nonce,
        aad,
        ct.subrange(0, ct.len() - TAG_LEN),
    )
}

/// GCM decryption: the plaintext when the tag checks out.
pub open spec fn gcm_open(key: Seq<u8>, nonce: Seq<u8>, aad: Seq<u8>, ct: Seq<u8>) -> Option<
    Seq<u8>,
> {
    if gcm_tag_ok(key, nonce, aad, ct) {
        Some(ctr_ciphertext(key, gcm_j0(nonce), ct.subrange(0, ct.len() - TAG_LEN)))
    } else {
        None
    }
}

/// Relies on ctr::Ctr32BE<aes::Aes128> (`KeyIvInit::new`,
/// `StreamCipher::apply_keystream`): `data` XORed with the keystream of
/// counter blocks `iv`, `iv + 1`, ... (32-bit big-endian counter in the last
/// four bytes). It panics past 2^32 - 1 blocks, which `requires` leaves out.
#[verifier::external_body]
fn ctr128_apply(key: &[u8], iv: &[u8], data: &[u8]) -> (r: Vec<u8>)
    requires
        key@.len() == AES128_KEY_LEN,
        iv@.len() == BLOCK_LEN,
        blocks_for(data@.len() as int) <= MAX_BLOCK_POS,
    ensures
        r@ == ctr_xor(key@, iv@, 0, data@),
{
    let mut cipher = ctr::Ctr32BE::<aes::Aes128>::new(key.into(), iv.into());
    let mut buf = data.to_vec();
    cipher.apply_keystream(&mut buf);
    buf
}

/// Relies on ctr::Ctr32BE<aes::Aes256> (`KeyIvInit::new`,
/// `StreamCipher::apply_keystream`), as `ctr128_apply` does for AES-128.
#[verifier::external_body]
fn ctr256_apply(key: &[u8], iv: &[u8], data: &[u8]) -> (r: Vec<u8>)
    requires
        key@.len() == AES256_KEY_LEN,
        iv@.len() == BLOCK_LEN,
        blocks_for(data@.len() as int) <= MAX_BLOCK_POS,
    ensures
        r@ == ctr_xor(key@, iv@, 0, data@),
{
    let mut cipher = ctr::Ctr32BE::<aes::Aes256>::new(key.into(), iv.into());
    let mut buf = data.to_vec();
    cipher.apply_keystream(&mut buf);
    buf
}

/// Relies on aes_gcm::Aes128Gcm (`KeyInit::new_from_slice`, `Aead::encrypt`):
/// the plaintext XORed with the keystream from counter block J0 + 1, then the
/// 16-byte tag. It fails only past its length limits, which `requires`
/// leaves out.
#[verifier::external_body]
fn gcm128_encrypt(key: &[u8], nonce: &[u8], aad: &[u8], pt: &[u8]) -> (r: Option<Vec<u8>>)
    requires
        key@.len() == AES128_KEY_LEN,
        nonce@.len() == NONCE_LEN,
        pt@.len() <= AEAD_MAX_LEN,
        aad@.len() <= AEAD_MAX_LEN,
    ensures
        r is Some,
        r->0@ == gcm_body(key@, nonce@, pt@) + gcm_tag(key@, nonce@, aad@, gcm_body(key@, nonce@, pt@)),
        r->0@.len() == pt@.len() + TAG_LEN,
{
    let cipher = aes_gcm::Aes128Gcm::new_from_slice(key).ok()?;
    cipher.encrypt(nonce.into(), Payload { msg: pt, aad }).ok()
}

/// Relies on aes_gcm::Aes256Gcm (`KeyInit::new_from_slice`, `Aead::encrypt`),
/// as `gcm128_encrypt` does for AES-128.
#[verifier::external_body]
fn gcm256_encrypt(key: &[u8], nonce: &[u8], aad: &[u8], pt: &[u8]) -> (r: Option<Vec<u8>>)
    requires
        key@.len() == AES256_KEY_LEN,
        nonce@.len() == NONCE_LEN,
        pt@.len() <= AEAD_MAX_LEN,
        aad@.len() <= AEAD_MAX_LEN,
    ensures
        r is Some,
        r->0@ == gcm_body(key@, nonce@, pt@) + gcm_tag(key@, nonce@, aad@, gcm_body(key@, nonce@, pt@)),
        r->0@.len() == pt@.len() + TAG_LEN,
{
    let cipher = aes_gcm::Aes256Gcm::new_from_slice(key).ok()?;
    cipher.encrypt(nonce.into(), Payload { msg: pt, aad }).ok()
}

/// Relies on aes_gcm::Aes128Gcm (`KeyInit::new_from_slice`, `Aead::decrypt`):
/// the last 16 bytes are checked against the tag of the rest; on a match the
/// rest is XORed with the keystream from counter block J0 + 1.
#[verifier::external_body]
fn gcm128_decrypt(key: &[u8], nonce: &[u8], aad: &[u8], ct: &[u8]) -> (r: Option<Vec<u8>>)
    requires
        key@.len() == AES128_KEY_LEN,
        nonce@.len() == NONCE_LEN,
        ct@.len() <= AEAD_MAX_CT_LEN,
        aad@.len() <= AEAD_MAX_LEN,
    ensures
        r matches Some(p) ==> gcm_open(key@, nonce@, aad@, ct@) == Some(p@),
        r is None ==> gcm_open(key@, nonce@, aad@, ct@) is None,
{
    let cipher = aes_gcm::Aes128Gcm::new_from_slice(key).ok()?;
    cipher.decrypt(nonce.into(), Payload { msg: ct, aad }).ok()
}

/// Relies on aes_gcm::Aes256Gcm (`KeyInit::new_from_slice`, `Aead::decrypt`),
/// as `gcm128_decrypt` does for AES-128.
#[verifier::external_body]
fn gcm256_decrypt(key: &[u8], nonce: &[u8], aad: &[u8], ct: &[u8]) -> (r: Option<Vec<u8>>)
    requires
        key@.len() == AES256_KEY_LEN,
        nonce@.len() == NONCE_LEN,
        ct@.len() <= AEAD_MAX_CT_LEN,
        aad@.len() <= AEAD_MAX_LEN,
    ensures
        r matches Some(p) ==> gcm_open(key@, nonce@, aad@, ct@) == Some(p@),
        r is None ==> gcm_open(key@, nonce@, aad@, ct@) is None,
{
    let cipher = aes_gcm::Aes256Gcm::new_from_slice(key).ok()?;
    cipher.decrypt(nonce.into(), Payload { msg: ct, aad }).ok()
}

/// Relies on aes_gcm_siv::Aes256GcmSiv (`KeyInit::new_from_slice`,
/// `Aead::encrypt`): the ciphertext with its 16-byte tag appended. It fails
/// only past its length limits, which `requires` leaves out.
#[verifier::external_body]
fn gcm_siv256_encrypt(key: &[u8], nonce: &[u8], aad: &[u8], pt: &[u8]) -> (r: Option<Vec<u8>>)
    requires
        key@.len() == AES256_KEY_LEN,
        nonce@.len() == NONCE_LEN,
        pt@.len() <= AEAD_MAX_LEN,
        aad@.len() <= AEAD_MAX_LEN,
    ensures
        r is Some,
        r->0@ == gcm_siv_seal(key@, nonce@, aad@, pt@),
        r->0@.len() == pt@.len() + TAG_LEN,
{
    let cipher = aes_gcm_siv::Aes256GcmSiv::new_from_slice(key).ok()?;
    cipher.encrypt(nonce.into(), Payload { msg: pt, aad }).ok()
}

/// Counter-mode encryption that first consumes one keystream block, the tag
/// mask, so that its output lines up with GCM's data keystream. Keys of 16
/// bytes select AES-128, of 32 bytes AES-256.
pub fn ctr_encrypt(key: &[u8], iv: &[u8], pt: &[u8]) -> (r: Result<Vec<u8>, WitnessError>)
    ensures
        !aes_key_len_ok(key@) ==> r == Err::<Vec<u8>, WitnessError>(WitnessError::InvalidKeyLength),
        aes_key_len_ok(key@) && iv@.len() != BLOCK_LEN ==> r == Err::<Vec<u8>, WitnessError>(
            WitnessError::InvalidIvLength,
        ),
        aes_key_len_ok(key@) && iv@.len() == BLOCK_LEN && pt@.len() + BLOCK_LEN > CTR_MAX_LEN
            ==> r == Err::<Vec<u8>, WitnessError>(WitnessError::LengthOverflow),
        aes_key_len_ok(key@) && iv@.len() == BLOCK_LEN && pt@.len() + BLOCK_LEN <= CTR_MAX_LEN
            ==> (r matches Ok(c) && c@ == ctr_ciphertext(key@, iv@, pt@)),
{
    if key.len() != AES128_KEY_LEN && key.len() != AES256_KEY_LEN {
        return Err(WitnessError::InvalidKeyLength);
    }
    if iv.len() != BLOCK_LEN {
        return Err(WitnessError::InvalidIvLength);
    }
    if pt.len() as u64 > CTR_MAX_LEN - BLOCK_LEN as u64 {
        return Err(WitnessError::LengthOverflow);
    }
    // The tag-mask block first, then the data.
    let mut data: Vec<u8> = vec![0u8; BLOCK_LEN];
    let mut k: usize = 0;
    while k < pt.len()
        invariant
            k <= pt@.len(),
            data@ == Seq::new(16, |i: int| 0u8) + pt@.subrange(0, k as int),
        decreases pt@.len() - k,
    {
        data.push(pt[k]);
        k = k + 1;
        assert(data@ =~= Seq::new(16, |i: int| 0u8) + pt@.subrange(0, k as int));
    }
    assert(pt@.subrange(0, k as int) =~= pt@);
    let stream = if key.len() == AES128_KEY_LEN {
        ctr128_apply(key, iv, data.as_slice())
    } else {
        ctr256_apply(key, iv, data.as_slice())
    };
    let mut out: Vec<u8> = Vec::new();
    let mut j: usize = BLOCK_LEN;
    while j < stream.len()
        invariant
            stream@ == ctr_xor(key@, iv@, 0, data@),
            data@.len() == pt@.len() + 16,
            data@ == Seq::new(16, |i: int| 0u8) + pt@,
            BLOCK_LEN <= j <= stream@.len(),
            out@.len() == j - 16,
            forall|i: int| 0 <= i < out@.len() ==> out@[i] == ctr_ciphertext(key@, iv@, pt@)[i],
        decreases stream@.len() - j,
    {
        out.push(stream[j]);
        assert(data@[j as int] == pt@[j - 16]);
        j = j + 1;
    }
    assert(out@ =~= ctr_ciphertext(key@, iv@, pt@));
    Ok(out)
}

/// AES-GCM encryption: ciphertext, then the 16-byte tag. Keys of 16 bytes
/// select AES-128, of 32 bytes AES-256; the nonce has twelve bytes.
pub fn gcm_encrypt(key: &[u8], nonce: &[u8], aad: &[u8], pt: &[u8]) -> (r: Result<
    Vec<u8>,
    WitnessError,
>)
    ensures
        !aes_key_len_ok(key@) ==> r == Err::<Vec<u8>, WitnessError>(WitnessError::InvalidKeyLength),
        aes_key_len_ok(key@) && nonce@.len() != NONCE_LEN ==> r == Err::<Vec<u8>, WitnessError>(
            WitnessError::InvalidIvLength,
        ),
        aes_key_len_ok(key@) && nonce@.len() == NONCE_LEN && (pt@.len() > AEAD_MAX_LEN
            || aad@.len() > AEAD_MAX_LEN) ==> r == Err::<Vec<u8>, WitnessError>(
            WitnessError::LengthOverflow,
        ),
        aes_key_len_ok(key@) && nonce@.len() == NONCE_LEN && pt@.len() <= AEAD_MAX_LEN
            && aad@.len() <= AEAD_MAX_LEN ==> (r matches Ok(c) && c@ == gcm_seal(key@, nonce@, aad@, pt@)
            && c@.len() == pt@.len() + TAG_LEN),
{
    if key.len() != AES128_KEY_LEN && key.len() != AES256_KEY_LEN {
        return Err(WitnessError::InvalidKeyLength);
    }
    if nonce.len() != NONCE_LEN {
        return Err(WitnessError::InvalidIvLength);
    }
    if pt.len() as u64 > AEAD_MAX_LEN || aad.len() as u64 > AEAD_MAX_LEN {
        return Err(WitnessError::LengthOverflow);
    }
    let sealed = if key.len() == AES128_KEY_LEN {
        gcm128_encrypt(key, nonce, aad, pt)
    } else {
        gcm256_encrypt(key, nonce, aad, pt)
    };
    match sealed {
        Some(c) => Ok(c),
        None => Err(WitnessError::LengthOverflow),
    }
}

/// AES-GCM decryption of ciphertext with its tag appended: the plaintext, or
/// `AuthenticationFailed` when the tag does not match.
pub fn gcm_decrypt(key: &[u8], nonce: &[u8], aad: &[u8], ct: &[u8]) -> (r: Result<
    Vec<u8>,
    WitnessError,
>)
    ensures
        !aes_key_len_ok(key@) ==> r == Err::<Vec<u8>, WitnessError>(WitnessError::InvalidKeyLength),
        aes_key_len_ok(key@) && nonce@.len() != NONCE_LEN ==> r == Err::<Vec<u8>, WitnessError>(
            WitnessError::InvalidIvLength,
        ),
        aes_key_len_ok(key@) && nonce@.len() == NONCE_LEN && (ct@.len() > AEAD_MAX_CT_LEN
            || aad@.len() > AEAD_MAX_LEN) ==> r == Err::<Vec<u8>, WitnessError>(
            WitnessError::LengthOverflow,
        ),
        aes_key_len_ok(key@) && nonce@.len() == NONCE_LEN && ct@.len() <= AEAD_MAX_CT_LEN
            && aad@.len() <= AEAD_MAX_LEN ==> match gcm_open(key@, nonce@, aad@, ct@) {
            Some(p) => (r matches Ok(v) && v@ == p),
            None => r == Err::<Vec<u8>, WitnessError>(WitnessError::AuthenticationFailed),
        },
{
    if key.len() != AES128_KEY_LEN && key.len() != AES256_KEY_LEN {
        return Err(WitnessError::InvalidKeyLength);
    }
    if nonce.len() != NONCE_LEN {
        return Err(WitnessError::InvalidIvLength);
    }
    if ct.len() as u64 > AEAD_MAX_CT_LEN || aad.len() as u64 > AEAD_MAX_LEN {
        return Err(WitnessError::LengthOverflow);
    }
    let opened = if key.len() == AES128_KEY_LEN {
        gcm128_decrypt(key, nonce, aad, ct)
    } else {
        gcm256_decrypt(key, nonce, aad, ct)
    };
    match opened {
        Some(p) => Ok(p),
        None => Err(WitnessError::AuthenticationFailed),
    }
}

/// AES-GCM-SIV encryption under a 32-byte key: ciphertext, then the tag.
pub fn gcm_siv_encrypt(key: &[u8], nonce: &[u8], aad: &[u8], pt: &[u8]) -> (r: Result<
    Vec<u8>,
    WitnessError,
>)
    ensures
        key@.len() != AES256_KEY_LEN ==> r == Err::<Vec<u8>, WitnessError>(
            WitnessError::InvalidKeyLength,
        ),
        key@.len() == AES256_KEY_LEN && nonce@.len() != NONCE_LEN ==> r == Err::<
            Vec<u8>,
            WitnessError,
        >(WitnessError::InvalidIvLength),
        key@.len() == AES256_KEY_LEN && nonce@.len() == NONCE_LEN && (pt@.len() > AEAD_MAX_LEN
            || aad@.len() > AEAD_MAX_LEN) ==> r == Err::<Vec<u8>, WitnessError>(
            WitnessError::LengthOverflow,
        ),
        key@.len() == AES256_KEY_LEN && nonce@.len() == NONCE_LEN && pt@.len() <= AEAD_MAX_LEN
            && aad@.len() <= AEAD_MAX_LEN ==> (r matches Ok(c) && c@ == gcm_siv_seal(key@, nonce@, aad@, pt@)
            && c@.len() == pt@.len() + TAG_LEN),
{
    if key.len() != AES256_KEY_LEN {
        return Err(WitnessError::InvalidKeyLength);
    }
    if nonce.len() != NONCE_LEN {
        return Err(WitnessError::InvalidIvLength);
    }
    if pt.len() as u64 > AEAD_MAX_LEN || aad.len() as u64 > AEAD_MAX_LEN {
        return Err(WitnessError::LengthOverflow);
    }
    match gcm_siv256_encrypt(key, nonce, aad, pt) {
        Some(c) => Ok(c),
        None => Err(WitnessError::LengthOverflow),
    }
}

/// GCM's first counter block for a twelve-byte nonce.
pub fn gcm_j0_exec(nonce: &[u8]) -> (r: Vec<u8>)
    requires
        nonce@.len() == NONCE_LEN,
    ensures
        r@ == gcm_j0(nonce@),
{
    let mut out = vstd::slice::slice_to_vec(nonce);
    out.push(0u8);
    out.push(0u8);
    out.push(0u8);
    out.push(1u8);
    assert(out@ =~= gcm_j0(nonce@));
    out
}

/// The body of an AES-128-GCM ciphertext, computed by hand: a keystream
/// generator is set to GCM's first counter block, the tag-mask block is
/// discarded, and the keystream is applied to the plaintext.
pub fn gcm_body_by_keystream(key: &[u8], nonce: &[u8], pt: &[u8]) -> (r: Result<
    Vec<u8>,
    WitnessError,
>)
    ensures
        key@.len() != AES128_KEY_LEN ==> r == Err::<Vec<u8>, WitnessError>(
            WitnessError::InvalidKeyLength,
        ),
        key@.len() == AES128_KEY_LEN && nonce@.len() != NONCE_LEN ==> r == Err::<
            Vec<u8>,
            WitnessError,
        >(WitnessError::InvalidIvLength),
        key@.len() == AES128_KEY_LEN && nonce@.len() == NONCE_LEN && pt@.len() + BLOCK_LEN
            > CTR_MAX_LEN ==> r == Err::<Vec<u8>, WitnessError>(WitnessError::LengthOverflow),
        key@.len() == AES128_KEY_LEN && nonce@.len() == NONCE_LEN && pt@.len() + BLOCK_LEN
            <= CTR_MAX_LEN ==> (r matches Ok(c) && c@ == gcm_body(key@, nonce@, pt@)),
{
    if key.len() != AES128_KEY_LEN {
        return Err(WitnessError::InvalidKeyLength);
    }
    if nonce.len() != NONCE_LEN {
        return Err(WitnessError::InvalidIvLength);
    }
    if pt.len() as u64 > CTR_MAX_LEN - BLOCK_LEN as u64 {
        return Err(WitnessError::LengthOverflow);
    }
    let j0 = gcm_j0_exec(nonce);
    let mut state = match CtrState::new(key, j0.as_slice()) {
        Ok(s) => s,
        Err(e) => return Err(e),
    };
    let _tag_mask = state.discard_tag_mask();
    let mut buffer = vstd::slice::slice_to_vec(pt);
    state.apply_keystream(&mut buffer);
    Ok(buffer)
}

/// The sealed record of `message` under AES-128-GCM: nonce from the first
/// twelve bytes of `iv` and `seq`, empty associated data.
pub open spec fn tls_record(message: Seq<u8>, key: Seq<u8>, iv: Seq<u8>, seq: u64) -> Seq<u8> {
    gcm_seal(key, nonce_of(iv, seq), Seq::empty(), message)
}

/// Seals one record in the style of the TLS record layer: the record length
/// counts the message, a content-type byte and the tag, and must fit in the
/// two-byte length field of the associated-data block; the nonce masks the
/// fixed IV with `seq`; the key is AES-128. The record is sealed with empty
/// associated data.
pub fn encrypt_tls(message: &[u8], key: &[u8], iv: &[u8], seq: u64) -> (r: Result<
    Vec<u8>,
    WitnessError,
>)
    ensures
        message@.len() + RECORD_OVERHEAD > MAX_RECORD_LEN ==> r == Err::<Vec<u8>, WitnessError>(
            WitnessError::LengthOverflow,
        ),
        message@.len() + RECORD_OVERHEAD <= MAX_RECORD_LEN && iv@.len() < NONCE_LEN ==> r == Err::<
            Vec<u8>,
            WitnessError,
        >(WitnessError::InvalidIvLength),
        message@.len() + RECORD_OVERHEAD <= MAX_RECORD_LEN && iv@.len() >= NONCE_LEN
            && key@.len() != AES128_KEY_LEN ==> r == Err::<Vec<u8>, WitnessError>(
            WitnessError::InvalidKeyLength,
        ),
        message@.len() + RECORD_OVERHEAD <= MAX_RECORD_LEN && iv@.len() >= NONCE_LEN
            && key@.len() == AES128_KEY_LEN ==> (r matches Ok(c) && c@ == tls_record(
            message@,
            key@,
            iv@,
            seq,
        ) && c@.len() == message@.len() + TAG_LEN),
{
    if message.len() > MAX_RECORD_LEN - RECORD_OVERHEAD {
        return Err(WitnessError::LengthOverflow);
    }
    let total_len = message.len() + RECORD_OVERHEAD;
    match build_aad(total_len) {
        Ok(_) => {},
        Err(e) => return Err(e),
    }
    let nonce = match build_nonce(iv, seq) {
        Ok(n) => n,
        Err(e) => return Err(e),
    };
    if key.len() != AES128_KEY_LEN {
        return Err(WitnessError::InvalidKeyLength);
    }
    let no_aad: Vec<u8> = Vec::new();
    gcm_encrypt(key, nonce.as_slice(), no_aad.as_slice(), message)
}

/// Counter mode with the tag-mask block skipped, started from GCM's first
/// counter block, gives exactly the part of the GCM ciphertext before the tag.
pub proof fn lemma_ctr_matches_gcm(key: Seq<u8>, nonce: Seq<u8>, aad: Seq<u8>, pt: Seq<u8>)
    ensures
        ctr_ciphertext(key, gcm_j0(nonce), pt) == gcm_seal(key, nonce, aad, pt).subrange(
            0,
            pt.len() as int,
        ),
{
    assert(ctr_ciphertext(key, gcm_j0(nonce), pt) =~= gcm_seal(key, nonce, aad, pt).subrange(
        0,
        pt.len() as int,
    ));
}

/// Decrypting what GCM encryption produced, with the same key, nonce and
/// associated data, passes the tag check and gives back the plaintext.
pub proof fn lemma_gcm_round_trip(key: Seq<u8>, nonce: Seq<u8>, aad: Seq<u8>, pt: Seq<u8>)
    requires
        gcm_seal(key, nonce, aad, pt).len() == pt.len() + TAG_LEN,
    ensures
        gcm_open(key, nonce, aad, gcm_seal(key, nonce, aad, pt)) == Some(pt),
{
    let body = gcm_body(key, nonce, pt);
    let ct = gcm_seal(key, nonce, aad, pt);
    assert(ct.subrange(0, ct.len() - TAG_LEN) =~= body);
    assert(ct.subrange(ct.len() - TAG_LEN, ct.len() as int) =~= gcm_tag(key, nonce, aad, body));
    lemma_ctr_xor_involution(key, gcm_j0(nonce), 1, pt);
}

/// A sealed record opens, under the record's key, its masked nonce and empty
/// associated data, to the message.
pub proof fn lemma_tls_record_round_trip(message: Seq<u8>, key: Seq<u8>, iv: Seq<u8>, seq: u64)
    requires
        tls_record(message, key, iv, seq).len() == message.len() + TAG_LEN,
    ensures
        gcm_open(key, nonce_of(iv, seq), Seq::empty(), tls_record(message, key, iv, seq)) == Some(
            message,
        ),
{
    lemma_gcm_round_trip(key, nonce_of(iv, seq), Seq::empty(), message);
}

} // verus!
