//! AES in counter mode with a 32-bit big-endian block counter: the model of
//! its keystream, and an applicator that XORs it into a buffer block by block.
use vstd::prelude::*;

use aes::cipher::{BlockEncrypt, KeyInit};

use crate::error::WitnessError;

verus! {

/// Bytes in one AES block.
pub const BLOCK_LEN: usize = 16;

/// Bytes in an AES-128 key.
pub const AES128_KEY_LEN: usize = 16;

/// Bytes in an AES-256 key.
pub const AES256_KEY_LEN: usize = 32;

/// Largest block position the 32-bit counter reaches without wrapping.
pub const MAX_BLOCK_POS: u64 = 0xffff_ffff;

/// The AES block cipher: `block` encrypted under `key`.
pub uninterp spec fn aes_block(key: Seq<u8>, block: Seq<u8>) -> Seq<u8>;

/// The counter word held by the last four bytes of a counter block.
pub open spec fn counter_word(iv: Seq<u8>) -> int {
    iv[12] as int * 0x1000000 + iv[13] as int * 0x10000 + iv[14] as int * 0x100 + iv[15] as int
}

/// Counter value of block `n`: the initial word plus `n`, modulo 2^32.
pub open spec fn counter_at(iv: Seq<u8>, n: int) -> u32 {
    ((counter_word(iv) + n) % 0x1_0000_0000) as u32
}

/// Counter block `n`: the first twelve bytes of `iv`, then the counter
/// value in big-endian order.
pub open spec fn counter_block(iv: Seq<u8>, n: int) -> Seq<u8> {
    let c = counter_at(iv, n);
    iv.subrange(0, 12) + seq![(c >> 24u32) as u8, (c >> 16u32) as u8, (c >> 8u32) as u8, c as u8]
}

/// Keystream byte `i`, counted from the start of block 0.
pub open spec fn keystream_byte(key: Seq<u8>, iv: Seq<u8>, i: int) -> u8 {
    aes_block(key, counter_block(iv, i / 16))[i % 16]
}

/// `data` XORed with the keystream that starts at block `skip`.
pub open spec fn ctr_xor(key: Seq<u8>, iv: Seq<u8>, skip: int, data: Seq<u8>) -> Seq<u8> {
    Seq::new(data.len(), |i: int| data[i] ^ keystream_byte(key, iv, 16 * skip + i))
}

/// Number of blocks that cover `len` bytes.
pub open spec fn blocks_for(len: int) -> int {
    (len + 15) / 16
}

/// XORing the same byte twice is the identity.
pub proof fn lemma_xor_twice(a: u8, b: u8)
    ensures
        (a ^ b) ^ b == a,
{
    assert((a ^ b) ^ b == a) by (bit_vector);
}

/// Applying the same keystream twice gives the data back.
pub proof fn lemma_ctr_xor_involution(key: Seq<u8>, iv: Seq<u8>, skip: int, data: Seq<u8>)
    ensures
        ctr_xor(key, iv, skip, ctr_xor(key, iv, skip, data)) == data,
{
    assert forall|i: int| 0 <= i < data.len() implies #[trigger] ctr_xor(
        key,
        iv,
        skip,
        ctr_xor(key, iv, skip, data),
    )[i] == data[i] by {
        lemma_xor_twice(data[i], keystream_byte(key, iv, 16 * skip + i));
    }
    assert(ctr_xor(key, iv, skip, ctr_xor(key, iv, skip, data)) =~= data);
}

/// Relies on aes::Aes128 (`KeyInit::new`, `BlockEncrypt::encrypt_block`):
/// one 16-byte block encrypted under a 16-byte key.
#[verifier::external_body]
pub(crate) fn aes128_encrypt_block(key: &[u8], block: &[u8]) -> (r: Vec<u8>)
    requires
        key@.len() == AES128_KEY_LEN,
        block@.len() == BLOCK_LEN,
    ensures
        r@ == aes_block(key@, block@),
        r@.len() == BLOCK_LEN,
{
    let cipher = aes::Aes128::new(aes::cipher::generic_array::GenericArray::from_slice(key));
    let mut b = aes::cipher::generic_array::GenericArray::clone_from_slice(block);
    cipher.encrypt_block(&mut b);
    b.to_vec()
}

/// The counter block at position `n` of `iv`.
pub fn counter_block_exec(iv: &[u8], n: u64) -> (r: Vec<u8>)
    requires
        iv@.len() == BLOCK_LEN,
        n <= MAX_BLOCK_POS,
    ensures
        r@ == counter_block(iv@, n as int),
{
    let w: u64 = iv[12] as u64 * 0x1000000 + iv[13] as u64 * 0x10000 + iv[14] as u64 * 0x100
        + iv[15] as u64;
    let c: u32 = ((w + n) % 0x1_0000_0000) as u32;
    let mut out: Vec<u8> = Vec::new();
    let mut k: usize = 0;
    while k < 12
        invariant
            iv@.len() == BLOCK_LEN,
            k <= 12,
            out@ == iv@.subrange(0, k as int),
        decreases 12 - k,
    {
        out.push(iv[k]);
        k = k + 1;
        assert(out@ =~= iv@.subrange(0, k as int));
    }
    out.push((c >> 24u32) as u8);
    out.push((c >> 16u32) as u8);
    out.push((c >> 8u32) as u8);
    out.push(c as u8);
    assert(c == counter_at(iv@, n as int));
    assert(out@ =~= counter_block(iv@, n as int));
    out
}

/// One 16-byte block through AES-128, with no IV and no chaining.
pub fn encrypt_block(key: &[u8], block: &[u8]) -> (r: Result<Vec<u8>, WitnessError>)
    ensures
        key@.len() != AES128_KEY_LEN ==> r == Err::<Vec<u8>, WitnessError>(
            WitnessError::InvalidKeyLength,
        ),
        key@.len() == AES128_KEY_LEN && block@.len() != BLOCK_LEN ==> r == Err::<
            Vec<u8>,
            WitnessError,
        >(WitnessError::InvalidBlockLength),
        key@.len() == AES128_KEY_LEN && block@.len() == BLOCK_LEN ==> (r matches Ok(c) && c@
            == aes_block(key@, block@) && c@.len() == BLOCK_LEN),
{
    if key.len() != AES128_KEY_LEN {
        return Err(WitnessError::InvalidKeyLength);
    }
    if block.len() != BLOCK_LEN {
        return Err(WitnessError::InvalidBlockLength);
    }
    Ok(aes128_encrypt_block(key, block))
}

/// An AES-128 counter-mode keystream generator: key, initial counter block,
/// and the position (in blocks) of the next keystream block.
pub struct CtrState {
    pub key: Vec<u8>,
    pub iv: Vec<u8>,
    pub pos: u64,
}

impl CtrState {
    /// A 16-byte key, a 16-byte initial counter block, and a position that
    /// the 32-bit counter reaches without wrapping.
    pub open spec fn wf(&self) -> bool {
        &&& self.key@.len() == AES128_KEY_LEN
        &&& self.iv@.len() == BLOCK_LEN
        &&& self.pos <= MAX_BLOCK_POS
    }

    /// A generator positioned at block 0 of `iv` under `key`.
    pub fn new(key: &[u8], iv: &[u8]) -> (r: Result<CtrState, WitnessError>)
        ensures
            key@.len() != AES128_KEY_LEN ==> r == Err::<CtrState, WitnessError>(
                WitnessError::InvalidKeyLength,
            ),
            key@.len() == AES128_KEY_LEN && iv@.len() != BLOCK_LEN ==> r == Err::<
                CtrState,
                WitnessError,
            >(WitnessError::InvalidIvLength),
            key@.len() == AES128_KEY_LEN && iv@.len() == BLOCK_LEN ==> (r matches Ok(s) && s.wf()
                && s.key@ == key@ && s.iv@ == iv@ && s.pos == 0),
    {
        if key.len() != AES128_KEY_LEN {
            return Err(WitnessError::InvalidKeyLength);
        }
        if iv.len() != BLOCK_LEN {
            return Err(WitnessError::InvalidIvLength);
        }
        Ok(CtrState { key: vstd::slice::slice_to_vec(key), iv: vstd::slice::slice_to_vec(iv), pos: 0 })
    }

    /// Produces the keystream block at the current position and advances
    /// by one block.
    pub fn next_block(&mut self) -> (r: Vec<u8>)
        requires
            old(self).wf(),
            old(self).pos < MAX_BLOCK_POS,
        ensures
            final(self).wf(),
            final(self).key@ == old(self).key@,
            final(self).iv@ == old(self).iv@,
            final(self).pos == old(self).pos + 1,
            r@ == aes_block(old(self).key@, counter_block(old(self).iv@, old(self).pos as int)),
            r@.len() == BLOCK_LEN,
    {
        let cb = counter_block_exec(self.iv.as_slice(), self.pos);
        let r = aes128_encrypt_block(self.key.as_slice(), cb.as_slice());
        self.pos = self.pos + 1;
        r
    }

    /// Consumes one keystream block, the tag mask of GCM, before any data is
    /// processed, so that later blocks line up with GCM's data keystream.
    pub fn discard_tag_mask(&mut self) -> (tag_mask: Vec<u8>)
        requires
            old(self).wf(),
            old(self).pos < MAX_BLOCK_POS,
        ensures
            final(self).wf(),
            final(self).key@ == old(self).key@,
            final(self).iv@ == old(self).iv@,
            final(self).pos == old(self).pos + 1,
            tag_mask@ == aes_block(old(self).key@, counter_block(old(self).iv@, old(self).pos as int)),
    {
        self.next_block()
    }

    /// XORs the keystream, from the current position on, into `buffer` in
    /// place, one 16-byte block at a time; a final partial block uses only
    /// as many keystream bytes as remain.
    pub fn apply_keystream(&mut self, buffer: &mut Vec<u8>)
        requires
            old(self).wf(),
            old(self).pos + blocks_for(old(buffer)@.len() as int) <= MAX_BLOCK_POS,
        ensures
            final(self).wf(),
            final(self).key@ == old(self).key@,
            final(self).iv@ == old(self).iv@,
            final(self).pos == old(self).pos + blocks_for(old(buffer)@.len() as int),
            final(buffer)@ == ctr_xor(old(self).key@, old(self).iv@, old(self).pos as int, old(buffer)@),
    {
        let ghost orig = buffer@;
        let ghost start = self.pos as int;
        let ghost key = self.key@;
        let ghost iv = self.iv@;
        let n = buffer.len();
        let mut off: usize = 0;
        while off < n
            invariant
                self.wf(),
                self.key@ == key,
                self.iv@ == iv,
                buffer@.len() == n,
                n == orig.len(),
                off <= n,
                (off % 16 == 0 && self.pos == start + off / 16) || (off == n && self.pos == start
                    + blocks_for(n as int)),
                start + blocks_for(n as int) <= MAX_BLOCK_POS,
                forall|i: int| 0 <= i < off ==> buffer@[i] == orig[i] ^ keystream_byte(key, iv, 16 * start + i),
                forall|i: int| off <= i < n ==> buffer@[i] == orig[i],
            decreases n - off,
        {
            let ks = self.next_block();
            let ghost blk = (start + off / 16) as int;
            let mut j: usize = 0;
            while j < BLOCK_LEN && off + j < n
                invariant
                    ks@.len() == BLOCK_LEN,
                    ks@ == aes_block(key, counter_block(iv, blk)),
                    blk == start + off / 16,
                    off % 16 == 0,
                    buffer@.len() == n,
                    n == orig.len(),
                    off < n,
                    off + j <= n,
                    j <= BLOCK_LEN,
                    forall|i: int| 0 <= i < off + j ==> buffer@[i] == orig[i] ^ keystream_byte(key, iv, 16 * start + i),
                    forall|i: int| off + j <= i < n ==> buffer@[i] == orig[i],
                decreases BLOCK_LEN - j,
            {
                let b = buffer[off + j] ^ ks[j];
                buffer.set(off + j, b);
                assert((16 * start + off + j) / 16 == blk && (16 * start + off + j) % 16 == j as int);
                j = j + 1;
            }
            if j < BLOCK_LEN {
                off = n;
                assert(self.pos == start + blocks_for(n as int));
            } else {
                off = off + BLOCK_LEN;
            }
        }
        assert(buffer@ =~= ctr_xor(key, iv, start, orig));
    }
}

} // verus!
