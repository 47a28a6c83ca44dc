//! The mode dispatcher and the records it produces.
use vstd::prelude::*;

use crate::aead::{
    ctr_ciphertext, ctr_encrypt, gcm_encrypt, gcm_seal, gcm_siv_encrypt, gcm_siv_seal,
    AEAD_MAX_LEN, CTR_MAX_LEN, TAG_LEN, gcm_j0, gcm_open, lemma_ctr_matches_gcm,
    lemma_gcm_round_trip,
};
use crate::error::WitnessError;
use crate::keystream::{aes_block, encrypt_block, AES128_KEY_LEN, AES256_KEY_LEN, BLOCK_LEN};
use crate::nonce::NONCE_LEN;

verus! {

/// The bytes of one encryption: key, twelve-byte IV or nonce, ciphertext,
/// plaintext.
#[derive(Debug, Clone)]
pub struct Witness {
    pub key: Vec<u8>,
    pub iv: Vec<u8>,
    pub ct: Vec<u8>,
    pub pt: Vec<u8>,
}

/// The same encryption under the field names of the GCM-SIV circuit's
/// inputs: key, nonce, associated data, ciphertext.
#[allow(non_snake_case)]
#[derive(Debug, Clone)]
pub struct AesGcmSivInputs {
    pub K1: Vec<u8>,
    pub N: Vec<u8>,
    pub AAD: Vec<u8>,
    pub CT: Vec<u8>,
}

/// The AES modes a witness can be produced under.
#[derive(Debug, Clone, Copy, PartialEq, Eq, Structural)]
pub enum CipherMode {
    /// One block through the raw block cipher, no IV.
    Vanilla,
    /// Counter mode under a 32-byte key.
    Ctr256,
    /// AES-256-GCM-SIV.
    GcmSiv,
    /// AES-256-GCM.
    Gcm256,
    /// Counter mode under a 16-byte key.
    Ctr128,
    /// AES-128-GCM: reserved, with no construction behind it.
    Gcm128,
}

/// The fixed inputs that the modes draw on.
#[derive(Debug, Clone)]
pub struct WitnessConfig {
    /// AES-128 key (`Vanilla`, `Ctr128`).
    pub key_128: Vec<u8>,
    /// AES-256 key (`Ctr256`, `Gcm256`, `GcmSiv`).
    pub key_256: Vec<u8>,
    /// Initial counter block of `Ctr128`.
    pub iv_128: Vec<u8>,
    /// Initial counter block of `Ctr256`.
    pub iv_256: Vec<u8>,
    /// Nonce of `Gcm256` and `GcmSiv`, and the IV that `Vanilla` records.
    pub nonce: Vec<u8>,
    /// Message block of `Vanilla` and `Ctr128`.
    pub block: Vec<u8>,
    /// Message of `Ctr256`, `Gcm256` and `GcmSiv`.
    pub message_256: Vec<u8>,
    /// Associated data of `Gcm256` and `GcmSiv`.
    pub aad: Vec<u8>,
}

/// A witness as four byte sequences: key, IV, ciphertext, plaintext.
pub type WitnessView = (Seq<u8>, Seq<u8>, Seq<u8>, Seq<u8>);

impl Witness {
    pub open spec fn view(&self) -> WitnessView {
        (self.key@, self.iv@, self.ct@, self.pt@)
    }

    /// A record that owns copies of the four byte sequences.
    pub fn new(key: &[u8], iv: &[u8], ct: &[u8], pt: &[u8]) -> (r: Self)
        ensures
            r.view() == (key@, iv@, ct@, pt@),
    {
        Witness {
            key: vstd::slice::slice_to_vec(key),
            iv: vstd::slice::slice_to_vec(iv),
            ct: vstd::slice::slice_to_vec(ct),
            pt: vstd::slice::slice_to_vec(pt),
        }
    }
}

/// The witness that `mode` yields on `cfg`, or the error that stops it.
pub open spec fn witness_of(mode: CipherMode, cfg: WitnessConfig) -> Result<WitnessView, WitnessError> {
    match mode {
        CipherMode::Vanilla => if cfg.key_128@.len() != AES128_KEY_LEN {
            Err(WitnessError::InvalidKeyLength)
        } else if cfg.block@.len() != BLOCK_LEN {
            Err(WitnessError::InvalidBlockLength)
        } else if cfg.nonce@.len() != NONCE_LEN {
            Err(WitnessError::InvalidIvLength)
        } else {
            Ok((cfg.key_128@, cfg.nonce@, aes_block(cfg.key_128@, cfg.block@), cfg.block@))
        },
        CipherMode::Ctr128 => if cfg.key_128@.len() != AES128_KEY_LEN {
            Err(WitnessError::InvalidKeyLength)
        } else if cfg.iv_128@.len() != BLOCK_LEN {
            Err(WitnessError::InvalidIvLength)
        } else if cfg.block@.len() + BLOCK_LEN > CTR_MAX_LEN {
            Err(WitnessError::LengthOverflow)
        } else {
            Ok(
                (
                    cfg.key_128@,
                    cfg.iv_128@.subrange(0, NONCE_LEN as int),
                    ctr_ciphertext(cfg.key_128@, cfg.iv_128@, cfg.block@),
                    cfg.block@,
                ),
            )
        },
        CipherMode::Ctr256 => if cfg.key_256@.len() != AES256_KEY_LEN {
            Err(WitnessError::InvalidKeyLength)
        } else if cfg.iv_256@.len() != BLOCK_LEN {
            Err(WitnessError::InvalidIvLength)
        } else if cfg.message_256@.len() + BLOCK_LEN > CTR_MAX_LEN {
            Err(WitnessError::LengthOverflow)
        } else {
            Ok(
                (
                    cfg.key_256@,
                    cfg.iv_256@.subrange(0, NONCE_LEN as int),
                    ctr_ciphertext(cfg.key_256@, cfg.iv_256@, cfg.message_256@),
                    cfg.message_256@,
                ),
            )
        },
        CipherMode::Gcm256 => if cfg.key_256@.len() != AES256_KEY_LEN {
            Err(WitnessError::InvalidKeyLength)
        } else if cfg.nonce@.len() != NONCE_LEN {
            Err(WitnessError::InvalidIvLength)
        } else if cfg.message_256@.len() > AEAD_MAX_LEN || cfg.aad@.len() > AEAD_MAX_LEN {
            Err(WitnessError::LengthOverflow)
        } else {
            Ok(
                (
                    cfg.key_256@,
                    cfg.nonce@,
                    gcm_seal(cfg.key_256@, cfg.nonce@, cfg.aad@, cfg.message_256@),
                    cfg.message_256@,
                ),
            )
        },
        CipherMode::GcmSiv => if cfg.key_256@.len() != AES256_KEY_LEN {
            Err(WitnessError::InvalidKeyLength)
        } else if cfg.nonce@.len() != NONCE_LEN {
            Err(WitnessError::InvalidIvLength)
        } else if cfg.message_256@.len() > AEAD_MAX_LEN || cfg.aad@.len() > AEAD_MAX_LEN {
            Err(WitnessError::LengthOverflow)
        } else {
            Ok(
                (
                    cfg.key_256@,
                    cfg.nonce@,
                    gcm_siv_seal(cfg.key_256@, cfg.nonce@, cfg.aad@, cfg.message_256@),
                    cfg.message_256@,
                ),
            )
        },
        CipherMode::Gcm128 => Err(WitnessError::ModeNotImplemented),
    }
}

/// Whether `r` is the outcome that `spec` describes.
pub open spec fn outcome_is(r: Result<Witness, WitnessError>, spec: Result<WitnessView, WitnessError>) -> bool {
    match spec {
        Ok(v) => r matches Ok(w) && w.view() == v,
        Err(e) => r == Err::<Witness, WitnessError>(e),
    }
}

fn witness_from(
    key: &Vec<u8>,
    iv: &Vec<u8>,
    ct: Result<Vec<u8>, WitnessError>,
    pt: &Vec<u8>,
) -> (r: Result<Witness, WitnessError>)
    ensures
        ct matches Ok(c) ==> (r matches Ok(w) && w.view() == (key@, iv@, c@, pt@)),
        ct matches Err(e) ==> r == Err::<Witness, WitnessError>(e),
{
    match ct {
        Ok(c) => Ok(Witness::new(key.as_slice(), iv.as_slice(), c.as_slice(), pt.as_slice())),
        Err(e) => Err(e),
    }
}

/// The first `n` bytes of `v`, or all of `v` when it is shorter.
fn leading_bytes(v: &[u8], n: usize) -> (r: Vec<u8>)
    ensures
        v@.len() >= n ==> r@ == v@.subrange(0, n as int),
        v@.len() < n ==> r@ == v@,
{
    let mut out: Vec<u8> = Vec::new();
    let mut k: usize = 0;
    while k < n && k < v.len()
        invariant
            k <= v@.len(),
            k <= n,
            out@ == v@.subrange(0, k as int),
        decreases v@.len() - k,
    {
        out.push(v[k]);
        k = k + 1;
        assert(out@ =~= v@.subrange(0, k as int));
    }
    assert(v@.len() < n ==> v@.subrange(0, k as int) =~= v@);
    out
}

/// Encrypts under `mode` with the inputs of `cfg` that the mode uses and
/// records key, IV, ciphertext and plaintext.
pub fn aes_witnesses(cipher_mode: CipherMode, cfg: &WitnessConfig) -> (r: Result<Witness, WitnessError>)
    ensures
        outcome_is(r, witness_of(cipher_mode, *cfg)),
        r matches Ok(w) ==> w.iv@.len() == NONCE_LEN,
        cipher_mode == CipherMode::Vanilla ==> (r matches Ok(w) ==> w.ct@.len() == BLOCK_LEN
            && w.pt@.len() == BLOCK_LEN),
        cipher_mode == CipherMode::Ctr128 || cipher_mode == CipherMode::Ctr256 ==> (r matches Ok(w)
            ==> w.ct@.len() == w.pt@.len()),
        cipher_mode == CipherMode::Gcm256 || cipher_mode == CipherMode::GcmSiv ==> (r matches Ok(w)
            ==> w.ct@.len() == w.pt@.len() + TAG_LEN),
{
    match cipher_mode {
        CipherMode::Vanilla => {
            let ct = encrypt_block(cfg.key_128.as_slice(), cfg.block.as_slice());
            if cfg.key_128.len() == AES128_KEY_LEN && cfg.block.len() == BLOCK_LEN
                && cfg.nonce.len() != NONCE_LEN {
                return Err(WitnessError::InvalidIvLength);
            }
            witness_from(&cfg.key_128, &cfg.nonce, ct, &cfg.block)
        },
        CipherMode::Ctr128 => {
            if cfg.key_128.len() != AES128_KEY_LEN {
                return Err(WitnessError::InvalidKeyLength);
            }
            let ct = ctr_encrypt(cfg.key_128.as_slice(), cfg.iv_128.as_slice(), cfg.block.as_slice());
            let iv = leading_bytes(cfg.iv_128.as_slice(), NONCE_LEN);
            witness_from(&cfg.key_128, &iv, ct, &cfg.block)
        },
        CipherMode::Ctr256 => {
            if cfg.key_256.len() != AES256_KEY_LEN {
                return Err(WitnessError::InvalidKeyLength);
            }
            let ct = ctr_encrypt(
                cfg.key_256.as_slice(),
                cfg.iv_256.as_slice(),
                cfg.message_256.as_slice(),
            );
            let iv = leading_bytes(cfg.iv_256.as_slice(), NONCE_LEN);
            witness_from(&cfg.key_256, &iv, ct, &cfg.message_256)
        },
        CipherMode::Gcm256 => {
            if cfg.key_256.len() != AES256_KEY_LEN {
                return Err(WitnessError::InvalidKeyLength);
            }
            let ct = gcm_encrypt(
                cfg.key_256.as_slice(),
                cfg.nonce.as_slice(),
                cfg.aad.as_slice(),
                cfg.message_256.as_slice(),
            );
            witness_from(&cfg.key_256, &cfg.nonce, ct, &cfg.message_256)
        },
        CipherMode::GcmSiv => {
            let ct = gcm_siv_encrypt(
                cfg.key_256.as_slice(),
                cfg.nonce.as_slice(),
                cfg.aad.as_slice(),
                cfg.message_256.as_slice(),
            );
            witness_from(&cfg.key_256, &cfg.nonce, ct, &cfg.message_256)
        },
        CipherMode::Gcm128 => Err(WitnessError::ModeNotImplemented),
    }
}

/// The GCM-SIV circuit's inputs for a witness made under `GcmSiv` with
/// associated data `aad`; other modes are refused.
pub fn to_circuit_inputs(witness: &Witness, mode: CipherMode, aad: &[u8]) -> (r: Result<
    AesGcmSivInputs,
    WitnessError,
>)
    ensures
        mode != CipherMode::GcmSiv ==> r == Err::<AesGcmSivInputs, WitnessError>(
            WitnessError::UnsupportedModeForSchema,
        ),
        mode == CipherMode::GcmSiv ==> (r matches Ok(c) && c.K1@ == witness.key@ && c.N@
            == witness.iv@ && c.AAD@ == aad@ && c.CT@ == witness.ct@),
{
    if mode != CipherMode::GcmSiv {
        return Err(WitnessError::UnsupportedModeForSchema);
    }
    Ok(
        AesGcmSivInputs {
            K1: witness.key.clone(),
            N: witness.iv.clone(),
            AAD: vstd::slice::slice_to_vec(aad),
            CT: witness.ct.clone(),
        },
    )
}

/// Producing a witness twice from the same mode and inputs gives the same
/// bytes: the outcome is a function of the mode and the inputs alone.
pub proof fn lemma_witness_deterministic(
    mode: CipherMode,
    cfg: WitnessConfig,
    first: Result<Witness, WitnessError>,
    second: Result<Witness, WitnessError>,
)
    requires
        outcome_is(first, witness_of(mode, cfg)),
        outcome_is(second, witness_of(mode, cfg)),
    ensures
        first is Ok <==> second is Ok,
        first matches Ok(a) ==> (second matches Ok(b) && a.view() == b.view()),
        first matches Err(e) ==> second == Err::<Witness, WitnessError>(e),
{
}

/// When the `Ctr256` counter block is GCM's first counter block for the
/// nonce, the `Ctr256` ciphertext is the `Gcm256` ciphertext without its tag.
pub proof fn lemma_ctr256_witness_matches_gcm256(cfg: WitnessConfig, ctr: Witness, gcm: Witness)
    requires
        witness_of(CipherMode::Ctr256, cfg) == Ok::<WitnessView, WitnessError>(ctr.view()),
        witness_of(CipherMode::Gcm256, cfg) == Ok::<WitnessView, WitnessError>(gcm.view()),
        cfg.iv_256@ == gcm_j0(cfg.nonce@),
        gcm.ct@.len() == gcm.pt@.len() + TAG_LEN,
    ensures
        ctr.ct@ == gcm.ct@.subrange(0, gcm.ct@.len() - TAG_LEN),
{
    lemma_ctr_matches_gcm(cfg.key_256@, cfg.nonce@, cfg.aad@, cfg.message_256@);
}

/// Decrypting a `Gcm256` witness with its key, its nonce and the associated
/// data it was made with gives back its plaintext.
pub proof fn lemma_gcm256_witness_round_trip(cfg: WitnessConfig, gcm: Witness)
    requires
        witness_of(CipherMode::Gcm256, cfg) == Ok::<WitnessView, WitnessError>(gcm.view()),
        gcm.ct@.len() == gcm.pt@.len() + TAG_LEN,
    ensures
        gcm_open(gcm.key@, gcm.iv@, cfg.aad@, gcm.ct@) == Some(gcm.pt@),
{
    lemma_gcm_round_trip(cfg.key_256@, cfg.nonce@, cfg.aad@, cfg.message_256@);
}

} // verus!
