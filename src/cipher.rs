//! Block-wise AES-128 encryption of a byte buffer, in place.

use aes::cipher::generic_array::GenericArray;
use aes::cipher::{BlockEncrypt, KeyInit};
use vstd::prelude::*;

verus! {

/// Size in bytes of one AES block, and of an AES-128 key.
pub const BLOCK_SIZE: usize = 16;

/// The AES-128 encryption (FIPS-197) of the block `block` under the key `key`, as
/// `aes::Aes128` computes it: a function of the key and the block alone.
pub uninterp spec fn aes128_encrypt_block(key: Seq<u8>, block: Seq<u8>) -> Seq<u8>;

/// The 16 bytes that the cipher puts in place of `block`.
pub open spec fn block_image(key: Seq<u8>, block: Seq<u8>) -> Seq<u8> {
    Seq::new(16, |j: int| aes128_encrypt_block(key, block)[j])
}

/// The `b`-th 16-byte window of `data`.
pub open spec fn block_at(data: Seq<u8>, b: int) -> Seq<u8> {
    data.subrange(16 * b, 16 * b + 16)
}

/// Number of bytes of `data` covered by whole blocks.
pub open spec fn aligned_len(len: nat) -> int {
    (len as int / 16) * 16
}

/// `data` with every whole 16-byte window replaced by its encryption under `key`;
/// a trailing partial block is left as it is.
pub open spec fn encrypt_blocks(key: Seq<u8>, data: Seq<u8>) -> Seq<u8> {
    Seq::new(
        data.len(),
        |i: int|
            if i < aligned_len(data.len()) {
                block_image(key, block_at(data, i / 16))[i % 16]
            } else {
                data[i]
            },
    )
}

#[verifier::external_type_specification]
#[verifier::external_body]
pub struct ExAes128(aes::Aes128);

/// An AES-128 cipher with its key schedule expanded once, for many blocks.
/// The fields are private and only `new` builds a value, so `schedule` is always
/// the expansion of `key`.
pub struct BlockCipher {
    key: [u8; 16],
    schedule: aes::Aes128,
}

impl View for BlockCipher {
    type V = Seq<u8>;

    /// The key the cipher was made with.
    closed spec fn view(&self) -> Seq<u8> {
        self.key@
    }
}

/// Relies on `aes::Aes128::new` (`KeyInit`): expands the round keys of `key`.
#[verifier::external_body]
fn expand_key(key: &[u8; 16]) -> aes::Aes128 {
    aes::Aes128::new(&GenericArray::from(*key))
}

/// Relies on `BlockEncrypt::encrypt_block` of `aes::Aes128`: replaces the block by
/// its AES-128 encryption under the key that `cipher.schedule` was expanded from.
#[verifier::external_body]
fn encrypt_block_with(cipher: &BlockCipher, block: &mut [u8; 16])
    ensures
        final(block)@ == aes128_encrypt_block(cipher@, old(block)@),
{
    cipher.schedule.encrypt_block(GenericArray::from_mut_slice(&mut block[..]));
}

impl BlockCipher {
    /// A cipher keyed by `key`.
    pub fn new(key: [u8; 16]) -> (r: BlockCipher)
        ensures
            r@ == key@,
    {
        let schedule = expand_key(&key);
        BlockCipher { key, schedule }
    }

    /// Encrypts one 16-byte block in place.
    pub fn encrypt_block(&self, block: &mut [u8; 16])
        ensures
            final(block)@ == block_image(self@, old(block)@),
    {
        encrypt_block_with(self, block);
        proof {
            assert(block@ =~= block_image(self@, old(block)@));
        }
    }
}

/// `data` with its `b`-th 16-byte window replaced by `block`.
pub open spec fn with_block(data: Seq<u8>, b: int, block: Seq<u8>) -> Seq<u8> {
    Seq::new(
        data.len(),
        |i: int|
            if 16 * b <= i < 16 * b + 16 {
                block[i - 16 * b]
            } else {
                data[i]
            },
    )
}

/// A copy of the `b`-th 16-byte window of `data`.
pub fn load_block(data: &Vec<u8>, b: usize) -> (r: [u8; 16])
    requires
        16 * b + 16 <= data@.len(),
    ensures
        r@ == block_at(data@, b as int),
{
    let len = data.len();
    assert(16 * b + 16 <= len);
    let base = b * BLOCK_SIZE;
    let mut block = [0u8; 16];
    let mut j: usize = 0;
    while j < BLOCK_SIZE
        invariant
            base == 16 * b,
            base + 16 <= data@.len(),
            j <= 16,
            forall|k: int| 0 <= k < j ==> block@[k] == data@[base + k],
        decreases 16 - j,
    {
        block[j] = data[base + j];
        j += 1;
    }
    assert(block@ =~= block_at(data@, b as int));
    block
}

/// Writes `block` over the `b`-th 16-byte window of `data`.
pub fn store_block(data: &mut Vec<u8>, b: usize, block: &[u8; 16])
    requires
        16 * b + 16 <= old(data)@.len(),
    ensures
        final(data)@ == with_block(old(data)@, b as int, block@),
{
    let len = data.len();
    assert(16 * b + 16 <= len);
    let base = b * BLOCK_SIZE;
    let ghost before = data@;
    let mut j: usize = 0;
    while j < BLOCK_SIZE
        invariant
            base == 16 * b,
            base + 16 <= before.len(),
            data@.len() == before.len(),
            j <= 16,
            forall|k: int| 0 <= k < j ==> data@[base + k] == block@[k],
            forall|i: int| 0 <= i < base ==> data@[i] == before[i],
            forall|i: int| base + j <= i < before.len() ==> data@[i] == before[i],
        decreases 16 - j,
    {
        data.set(base + j, block[j]);
        j += 1;
    }
    assert forall|i: int| 0 <= i < before.len() implies data@[i] == with_block(
        before,
        b as int,
        block@,
    )[i] by {
        if base <= i < base + 16 {
            assert(data@[base + (i - base)] == block@[i - base]);
        }
    }
    assert(data@ =~= with_block(before, b as int, block@));
}

/// Encrypts every whole 16-byte window of `data` in place, in buffer order.
/// A trailing partial block (fewer than 16 bytes) is left untouched: callers that
/// want every byte encrypted pass a length that is a multiple of 16.
pub fn encrypt_in_place(cipher: &BlockCipher, data: &mut Vec<u8>)
    ensures
        final(data)@ == encrypt_blocks(cipher@, old(data)@),
        final(data)@.len() == old(data)@.len(),
        forall|i: int|
            aligned_len(old(data)@.len()) <= i < old(data)@.len() ==> final(data)@[i] == old(
                data,
            )@[i],
{
    let n = data.len();
    let blocks = n / BLOCK_SIZE;
    let ghost before = data@;
    let mut b: usize = 0;
    while b < blocks
        invariant
            blocks == n / 16,
            n == before.len(),
            data@.len() == n,
            b <= blocks,
            forall|i: int| 0 <= i < 16 * b ==> data@[i] == encrypt_blocks(cipher@, before)[i],
            forall|i: int| 16 * b <= i < n ==> data@[i] == before[i],
        decreases blocks - b,
    {
        assert(16 * b + 16 <= aligned_len(n as nat)) by (nonlinear_arith)
            requires
                b < blocks,
                blocks == n / 16,
                aligned_len(n as nat) == blocks * 16,
        ;
        let mut block = load_block(data, b);
        assert(block@ =~= block_at(before, b as int)) by {
            assert forall|k: int| 0 <= k < 16 implies block@[k] == block_at(before, b as int)[k] by {
                assert(data@[16 * b + k] == before[16 * b + k]);
            }
        }
        cipher.encrypt_block(&mut block);
        let ghost mid = data@;
        store_block(data, b, &block);
        proof {
            assert forall|i: int| 0 <= i < 16 * (b + 1) implies data@[i] == encrypt_blocks(
                cipher@,
                before,
            )[i] by {
                if i >= 16 * b {
                    assert(i / 16 == b as int);
                    assert(i % 16 == i - 16 * b);
                } else {
                    assert(data@[i] == mid[i]);
                }
            }
        }
        b += 1;
    }
    proof {
        assert(aligned_len(n as nat) == 16 * blocks);
        assert(data@ =~= encrypt_blocks(cipher@, before));
    }
}

/// Encrypting a buffer twice under one key applies the block transform twice to
/// every whole block, and leaves a trailing partial block as it was.
pub proof fn lemma_encrypt_twice(key: Seq<u8>, data: Seq<u8>)
    ensures
        encrypt_blocks(key, encrypt_blocks(key, data)).len() == data.len(),
        forall|i: int|
            0 <= i < aligned_len(data.len()) ==> #[trigger] encrypt_blocks(
                key,
                encrypt_blocks(key, data),
            )[i] == block_image(key, block_image(key, block_at(data, i / 16)))[i % 16],
        forall|i: int|
            aligned_len(data.len()) <= i < data.len() ==> #[trigger] encrypt_blocks(
                key,
                encrypt_blocks(key, data),
            )[i] == data[i],
{
    let once = encrypt_blocks(key, data);
    assert forall|i: int| 0 <= i < aligned_len(data.len()) implies #[trigger] encrypt_blocks(
        key,
        once,
    )[i] == block_image(key, block_image(key, block_at(data, i / 16)))[i % 16] by {
        let b = i / 16;
        assert(16 * b + 16 <= aligned_len(data.len()));
        assert(block_at(once, b) =~= block_image(key, block_at(data, b))) by {
            assert forall|k: int| 0 <= k < 16 implies block_at(once, b)[k] == block_image(
                key,
                block_at(data, b),
            )[k] by {
                let j = 16 * b + k;
                assert(j / 16 == b);
                assert(j % 16 == k);
            }
        }
    }
}

/// Encrypting equal buffers under equal keys gives equal bytes: no state or
/// randomness other than the key and the input enters the result.
pub proof fn lemma_encrypt_deterministic(key: Seq<u8>, first: Seq<u8>, second: Seq<u8>)
    requires
        first == second,
    ensures
        encrypt_blocks(key, first) == encrypt_blocks(key, second),
{
}

} // verus!
