use aes_gcm::aead::{Aead, KeyInit, Payload};
use aes_witness::{
    aes_witnesses, build_aad, build_nonce, ctr_encrypt, encrypt_block, encrypt_tls,
    gcm_body_by_keystream, gcm_decrypt, gcm_encrypt, gcm_siv_encrypt, to_circuit_inputs,
    CipherMode, CtrState, WitnessConfig, WitnessError,
};

fn unhex(s: &str) -> Vec<u8> {
    hex::decode(s).unwrap()
}

fn j0(nonce: &[u8]) -> Vec<u8> {
    let mut v = nonce.to_vec();
    v.extend_from_slice(&[0, 0, 0, 1]);
    v
}

fn config() -> WitnessConfig {
    WitnessConfig {
        key_128: unhex("000102030405060708090a0b0c0d0e0f"),
        key_256: (0u8..32).collect(),
        iv_128: j0(&[0x31; 12]),
        iv_256: j0(&[0x42; 12]),
        nonce: vec![0x42; 12],
        block: unhex("00112233445566778899aabbccddeeff"),
        message_256: vec![0u8; 32],
        aad: vec![0x01, 0x02, 0x03, 0x04, 0x05],
    }
}

#[test]
fn test_aes_gcm_blocks() {
    let test_key = [0x31u8; 16];
    let test_iv = [0x31u8; 12];
    let message = String::from("testhello0000000testhello0000000");
    let ct = gcm_encrypt(&test_key, &test_iv, &[], message.as_bytes()).expect("error generating ct");
    assert_eq!(ct.len(), message.len() + 16);
    let reference = aes_gcm::Aes128Gcm::new_from_slice(&test_key)
        .unwrap()
        .encrypt((&test_iv).into(), Payload { msg: message.as_bytes(), aad: &[] })
        .unwrap();
    assert_eq!(ct, reference);
}

#[test]
fn test_aes_gcm_blocks_1_5() {
    let test_key = [0x31u8; 16];
    let test_iv = [0x31u8; 12];
    let message = String::from("testhello0000testhello0000");
    let ct = gcm_encrypt(&test_key, &test_iv, &[], message.as_bytes()).expect("error generating ct");
    // A block and a half of message, then the tag.
    assert_eq!(message.len(), 26);
    assert_eq!(ct.len(), 42);
    let body = gcm_body_by_keystream(&test_key, &test_iv, message.as_bytes()).unwrap();
    assert_eq!(&ct[..26], &body[..]);
}

#[test]
fn test_aes_gcm_siv() {
    let cfg = config();
    let mut witness = aes_witnesses(CipherMode::GcmSiv, &cfg).unwrap();
    assert_eq!(witness.key, cfg.key_256);
    assert_eq!(witness.iv, cfg.nonce);
    assert_eq!(witness.pt, cfg.message_256);
    assert_eq!(witness.ct.len(), cfg.message_256.len() + 16);
    let reference = aes_gcm_siv::Aes256GcmSiv::new_from_slice(&cfg.key_256)
        .unwrap()
        .encrypt((&cfg.nonce[..]).into(), Payload { msg: &cfg.message_256, aad: &cfg.aad })
        .unwrap();
    assert_eq!(witness.ct, reference);
    witness.iv.extend_from_slice(&[0; 4]);
    assert_eq!(witness.iv.len(), 16);
}

#[test]
fn gcm128_scenario_matches_ctr_with_tag_mask_skipped() {
    let key = [0x31u8; 16];
    let nonce = [0x31u8; 12];
    let pt = b"testhello0000000testhello0000000";
    let ct = gcm_encrypt(&key, &nonce, &[], pt).unwrap();
    assert_eq!(ct.len(), pt.len() + 16);
    let ctr = ctr_encrypt(&key, &j0(&nonce), pt).unwrap();
    assert_eq!(&ct[..pt.len()], &ctr[..]);
    let body = gcm_body_by_keystream(&key, &nonce, pt).unwrap();
    assert_eq!(body, ctr);
}

#[test]
fn ctr256_matches_gcm256_body() {
    let key: Vec<u8> = (0u8..32).collect();
    let nonce = [0x42u8; 12];
    let pt = vec![0u8; 40];
    let ct = gcm_encrypt(&key, &nonce, &[9, 9], &pt).unwrap();
    let ctr = ctr_encrypt(&key, &j0(&nonce), &pt).unwrap();
    assert_eq!(&ct[..40], &ctr[..]);
    assert_ne!(ctr, pt);
}

#[test]
fn gcm128_nist_test_vector() {
    let key = [0u8; 16];
    let nonce = [0u8; 12];
    let pt = [0u8; 16];
    let ct = gcm_encrypt(&key, &nonce, &[], &pt).unwrap();
    assert_eq!(hex::encode(&ct), "0388dace60b6a392f328c2b971b2fe78ab6e47d42cec13bdf53a67b21257bddf");
}

#[test]
fn gcm_round_trip_and_tamper() {
    let key = [0x31u8; 16];
    let nonce = [0x31u8; 12];
    let aad = build_aad(49).unwrap();
    let pt = b"testhello0000000testhello0000000";
    let ct = gcm_encrypt(&key, &nonce, &aad, pt).unwrap();
    assert_eq!(gcm_decrypt(&key, &nonce, &aad, &ct).unwrap(), pt.to_vec());
    let mut bad = ct.clone();
    bad[0] ^= 1;
    assert_eq!(gcm_decrypt(&key, &nonce, &aad, &bad), Err(WitnessError::AuthenticationFailed));
    assert_eq!(gcm_decrypt(&key, &nonce, &[], &ct), Err(WitnessError::AuthenticationFailed));
    assert_eq!(gcm_decrypt(&key, &nonce, &aad, &ct[..10]), Err(WitnessError::AuthenticationFailed));
    let key256: Vec<u8> = (0u8..32).collect();
    let ct256 = gcm_encrypt(&key256, &nonce, &aad, pt).unwrap();
    assert_eq!(gcm_decrypt(&key256, &nonce, &aad, &ct256).unwrap(), pt.to_vec());
}

#[test]
fn gcm_length_errors() {
    assert_eq!(gcm_encrypt(&[0u8; 15], &[0u8; 12], &[], b"x"), Err(WitnessError::InvalidKeyLength));
    assert_eq!(gcm_encrypt(&[0u8; 16], &[0u8; 11], &[], b"x"), Err(WitnessError::InvalidIvLength));
    assert_eq!(gcm_decrypt(&[0u8; 24], &[0u8; 12], &[], b"x"), Err(WitnessError::InvalidKeyLength));
    assert_eq!(gcm_decrypt(&[0u8; 32], &[0u8; 13], &[], b"x"), Err(WitnessError::InvalidIvLength));
}

#[test]
fn gcm_siv_rfc_vector_and_errors() {
    let mut key = vec![0u8; 32];
    key[0] = 1;
    let mut nonce = vec![0u8; 12];
    nonce[0] = 3;
    let ct = gcm_siv_encrypt(&key, &nonce, &[], &[]).unwrap();
    assert_eq!(hex::encode(&ct), "07f5f4169bbf55a8400cd47ea6fd400f");
    assert_eq!(gcm_siv_encrypt(&[0u8; 16], &nonce, &[], &[]), Err(WitnessError::InvalidKeyLength));
    assert_eq!(gcm_siv_encrypt(&key, &[0u8; 16], &[], &[]), Err(WitnessError::InvalidIvLength));
}

#[test]
fn vanilla_fips197_vector() {
    let key = unhex("000102030405060708090a0b0c0d0e0f");
    let block = unhex("00112233445566778899aabbccddeeff");
    let ct = encrypt_block(&key, &block).unwrap();
    assert_eq!(hex::encode(&ct), "69c4e0d86a7b0430d8cdb78070b4c55a");
    let key = unhex("2b7e151628aed2a6abf7158809cf4f3c");
    let block = unhex("3243f6a8885a308d313198a2e0370734");
    assert_eq!(hex::encode(encrypt_block(&key, &block).unwrap()), "3925841d02dc09fbdc118597196a0b32");
    assert_eq!(encrypt_block(&key, &block[..15]), Err(WitnessError::InvalidBlockLength));
    assert_eq!(encrypt_block(&key[..15], &block), Err(WitnessError::InvalidKeyLength));
}

#[test]
fn vanilla_mode_witness() {
    let cfg = config();
    let w = aes_witnesses(CipherMode::Vanilla, &cfg).unwrap();
    assert_eq!(hex::encode(&w.ct), "69c4e0d86a7b0430d8cdb78070b4c55a");
    assert_eq!(w.key, cfg.key_128);
    assert_eq!(w.iv, cfg.nonce);
    assert_eq!(w.ct.len(), 16);
    assert_eq!(w.pt, cfg.block);
}

#[test]
fn witnesses_are_deterministic() {
    let cfg = config();
    for mode in [CipherMode::Vanilla, CipherMode::Ctr128, CipherMode::Ctr256, CipherMode::Gcm256, CipherMode::GcmSiv] {
        let a = aes_witnesses(mode, &cfg).unwrap();
        let b = aes_witnesses(mode, &cfg).unwrap();
        assert_eq!((a.key, a.iv, a.ct, a.pt), (b.key, b.iv, b.ct, b.pt));
    }
}

#[test]
fn ctr_modes_match_gcm_modes() {
    let cfg = config();
    let ctr128 = aes_witnesses(CipherMode::Ctr128, &cfg).unwrap();
    assert_eq!(ctr128.iv, vec![0x31; 12]);
    let gcm128 = gcm_encrypt(&cfg.key_128, &[0x31; 12], &[], &cfg.block).unwrap();
    assert_eq!(ctr128.ct, gcm128[..16].to_vec());
    assert_eq!(ctr128.ct.len(), ctr128.pt.len());
    let ctr256 = aes_witnesses(CipherMode::Ctr256, &cfg).unwrap();
    assert_eq!(ctr256.iv, cfg.nonce);
    let gcm256 = aes_witnesses(CipherMode::Gcm256, &cfg).unwrap();
    assert_eq!(ctr256.ct, gcm256.ct[..32].to_vec());
    assert_eq!(gcm256.ct.len(), gcm256.pt.len() + 16);
    assert_eq!(ctr256.ct, gcm256.ct[..gcm256.ct.len() - 16].to_vec());
}

#[test]
fn gcm256_witness_decrypts_to_its_plaintext() {
    let cfg = config();
    let w = aes_witnesses(CipherMode::Gcm256, &cfg).unwrap();
    assert_eq!(gcm_decrypt(&w.key, &w.iv, &cfg.aad, &w.ct).unwrap(), w.pt);
}

#[test]
fn every_witness_carries_a_twelve_byte_iv() {
    let cfg = config();
    for mode in [CipherMode::Vanilla, CipherMode::Ctr128, CipherMode::Ctr256, CipherMode::Gcm256, CipherMode::GcmSiv] {
        assert_eq!(aes_witnesses(mode, &cfg).unwrap().iv.len(), 12);
    }
    let mut bad = config();
    bad.nonce = vec![0; 8];
    assert_eq!(aes_witnesses(CipherMode::Vanilla, &bad).err(), Some(WitnessError::InvalidIvLength));
}

#[test]
fn dispatcher_errors() {
    let cfg = config();
    assert_eq!(aes_witnesses(CipherMode::Gcm128, &cfg).err(), Some(WitnessError::ModeNotImplemented));
    let mut bad = config();
    bad.key_256 = vec![0; 16];
    for mode in [CipherMode::Ctr256, CipherMode::Gcm256, CipherMode::GcmSiv] {
        assert_eq!(aes_witnesses(mode, &bad).err(), Some(WitnessError::InvalidKeyLength));
    }
    let mut bad = config();
    bad.key_128 = vec![0; 32];
    assert_eq!(aes_witnesses(CipherMode::Vanilla, &bad).err(), Some(WitnessError::InvalidKeyLength));
    assert_eq!(aes_witnesses(CipherMode::Ctr128, &bad).err(), Some(WitnessError::InvalidKeyLength));
    let mut bad = config();
    bad.iv_128 = vec![0; 12];
    assert_eq!(aes_witnesses(CipherMode::Ctr128, &bad).err(), Some(WitnessError::InvalidIvLength));
    let mut bad = config();
    bad.nonce = vec![0; 16];
    assert_eq!(aes_witnesses(CipherMode::GcmSiv, &bad).err(), Some(WitnessError::InvalidIvLength));
    let mut bad = config();
    bad.block = vec![0; 17];
    assert_eq!(aes_witnesses(CipherMode::Vanilla, &bad).err(), Some(WitnessError::InvalidBlockLength));
}

#[test]
fn circuit_inputs_only_for_gcm_siv() {
    let cfg = config();
    let w = aes_witnesses(CipherMode::GcmSiv, &cfg).unwrap();
    let inputs = to_circuit_inputs(&w, CipherMode::GcmSiv, &cfg.aad).unwrap();
    assert_eq!(inputs.K1, w.key);
    assert_eq!(inputs.N, w.iv);
    assert_eq!(inputs.AAD, cfg.aad);
    assert_eq!(inputs.CT, w.ct);
    assert_eq!(
        to_circuit_inputs(&w, CipherMode::Gcm256, &cfg.aad).err(),
        Some(WitnessError::UnsupportedModeForSchema)
    );
}
