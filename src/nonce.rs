//! Per-record nonce and associated data in the style of the TLS record layer.
use vstd::prelude::*;

use crate::error::WitnessError;
use crate::keystream::lemma_xor_twice;

verus! {

/// Byte length of a nonce.
pub const NONCE_LEN: usize = 12;

/// Content-type byte of an application-data record.
pub const CONTENT_TYPE_APPLICATION_DATA: u8 = 0x17;

/// Both bytes of the legacy record-layer protocol version.
pub const LEGACY_VERSION_BYTE: u8 = 0x03;

/// Largest length that the two-byte length field can carry.
pub const MAX_RECORD_LEN: usize = 0xffff;

/// Byte `j` (0 = most significant) of the big-endian encoding of `x`.
pub open spec fn be_byte(x: u64, j: int) -> u8 {
    ((x >> ((7 - j) * 8) as u64) & 0xff) as u8
}

/// Byte `k` of the nonce: the fixed IV with its last eight bytes masked by
/// the big-endian sequence number.
pub open spec fn nonce_byte(fixed_iv: Seq<u8>, seq: u64, k: int) -> u8 {
    if k < 4 {
        fixed_iv[k]
    } else {
        fixed_iv[k] ^ be_byte(seq, k - 4)
    }
}

/// The nonce built from the first twelve bytes of `fixed_iv` and `seq`.
pub open spec fn nonce_of(fixed_iv: Seq<u8>, seq: u64) -> Seq<u8> {
    Seq::new(12, |k: int| nonce_byte(fixed_iv, seq, k))
}

/// The associated-data block for a record of `total_len` bytes.
pub open spec fn aad_of(total_len: nat) -> Seq<u8> {
    seq![
        CONTENT_TYPE_APPLICATION_DATA,
        LEGACY_VERSION_BYTE,
        LEGACY_VERSION_BYTE,
        (total_len / 256) as u8,
        (total_len % 256) as u8,
    ]
}

fn be_byte_exec(x: u64, j: usize) -> (r: u8)
    requires
        j < 8,
    ensures
        r == be_byte(x, j as int),
{
    let shift: u64 = ((7 - j) * 8) as u64;
    ((x >> shift) & 0xff) as u8
}

/// Combines the first twelve bytes of `fixed_iv` with `seq`: the last eight
/// bytes are XORed with the big-endian encoding of `seq`.
pub fn build_nonce(fixed_iv: &[u8], seq: u64) -> (r: Result<Vec<u8>, WitnessError>)
    ensures
        fixed_iv@.len() < NONCE_LEN ==> r == Err::<Vec<u8>, WitnessError>(
            WitnessError::InvalidIvLength,
        ),
        fixed_iv@.len() >= NONCE_LEN ==> (r matches Ok(n) && n@ == nonce_of(fixed_iv@, seq)),
{
    if fixed_iv.len() < NONCE_LEN {
        return Err(WitnessError::InvalidIvLength);
    }
    let mut out: Vec<u8> = Vec::new();
    let mut k: usize = 0;
    while k < NONCE_LEN
        invariant
            NONCE_LEN <= fixed_iv@.len(),
            k <= NONCE_LEN,
            out@.len() == k,
            forall|i: int| 0 <= i < k ==> out@[i] == nonce_byte(fixed_iv@, seq, i),
        decreases NONCE_LEN - k,
    {
        let b: u8 = if k < 4 {
            fixed_iv[k]
        } else {
            fixed_iv[k] ^ be_byte_exec(seq, k - 4)
        };
        out.push(b);
        k = k + 1;
    }
    assert(out@ =~= nonce_of(fixed_iv@, seq));
    Ok(out)
}

/// The five-byte associated data of a record: content type, protocol
/// version, and the big-endian record length. Lengths beyond the two-byte
/// field are refused.
pub fn build_aad(total_record_length: usize) -> (r: Result<Vec<u8>, WitnessError>)
    ensures
        total_record_length > MAX_RECORD_LEN ==> r == Err::<Vec<u8>, WitnessError>(
            WitnessError::LengthOverflow,
        ),
        total_record_length <= MAX_RECORD_LEN ==> (r matches Ok(a) && a@ == aad_of(
            total_record_length as nat,
        )),
{
    if total_record_length > MAX_RECORD_LEN {
        return Err(WitnessError::LengthOverflow);
    }
    let out: Vec<u8> = vec![
        CONTENT_TYPE_APPLICATION_DATA,
        LEGACY_VERSION_BYTE,
        LEGACY_VERSION_BYTE,
        (total_record_length / 256) as u8,
        (total_record_length % 256) as u8,
    ];
    assert(out@ =~= aad_of(total_record_length as nat));
    Ok(out)
}

/// Masking a nonce with the same sequence number a second time gives back
/// the first twelve bytes of the fixed IV.
pub proof fn lemma_nonce_unmask(fixed_iv: Seq<u8>, seq: u64)
    requires
        fixed_iv.len() >= 12,
    ensures
        nonce_of(nonce_of(fixed_iv, seq), seq) == fixed_iv.subrange(0, 12),
{
    assert forall|k: int| 0 <= k < 12 implies #[trigger] nonce_of(nonce_of(fixed_iv, seq), seq)[k]
        == fixed_iv[k] by {
        if k >= 4 {
            lemma_xor_twice(fixed_iv[k], be_byte(seq, k - 4));
        }
    }
    assert(nonce_of(nonce_of(fixed_iv, seq), seq) =~= fixed_iv.subrange(0, 12));
}

} // verus!
