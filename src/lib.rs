//! Deterministic AES witnesses: nonce and associated-data construction,
//! a counter-mode keystream applicator, and a mode dispatcher that produces
//! `{key, iv, ct, pt}` records under several AES modes.

pub mod aead;
pub mod error;
pub mod keystream;
pub mod nonce;
pub mod witness;

pub use aead::{
    ctr_encrypt, encrypt_tls, gcm_body_by_keystream, gcm_decrypt, gcm_encrypt, gcm_siv_encrypt,
};
pub use error::WitnessError;
pub use keystream::{encrypt_block, CtrState};
pub use nonce::{build_aad, build_nonce};
pub use witness::{aes_witnesses, to_circuit_inputs, AesGcmSivInputs, CipherMode, Witness, WitnessConfig};
