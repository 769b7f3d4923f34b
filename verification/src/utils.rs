//! Byte transforms: the additive checksum appended to every frame and the
//! key-based XOR obfuscation applied to host-to-device bytes.

use vstd::arithmetic::div_mod::{
    lemma_add_mod_noop, lemma_mod_bound, lemma_mod_sub_multiples_vanish, lemma_small_mod,
};
use vstd::prelude::*;
use vstd::wrapping::u8_specs;

verus! {

/// Sum of all bytes of `s`, as an unbounded integer.
pub open spec fn byte_sum(s: Seq<u8>) -> int
    decreases s.len(),
{
    if s.len() == 0 {
        0
    } else {
        byte_sum(s.drop_last()) + s.last()
    }
}

/// The checksum of a payload: the mod-256 (wrapping) sum of its bytes.
pub open spec fn spec_checksum(s: Seq<u8>) -> u8 {
    (byte_sum(s) % 256) as u8
}

/// A payload obfuscated with `key`: each byte XORed with `key`.
pub open spec fn spec_encrypt(s: Seq<u8>, key: u8) -> Seq<u8> {
    Seq::new(s.len(), |i: int| s[i] ^ key)
}

pub proof fn lemma_byte_sum_nonneg(s: Seq<u8>)
    ensures
        byte_sum(s) >= 0,
    decreases s.len(),
{
    if s.len() > 0 {
        lemma_byte_sum_nonneg(s.drop_last());
    }
}

pub proof fn lemma_byte_sum_concat(a: Seq<u8>, b: Seq<u8>)
    ensures
        byte_sum(a + b) == byte_sum(a) + byte_sum(b),
    decreases b.len(),
{
    if b.len() == 0 {
        assert(a + b =~= a);
    } else {
        assert((a + b).drop_last() =~= a + b.drop_last());
        lemma_byte_sum_concat(a, b.drop_last());
    }
}

/// Law: the checksum of a concatenation of two payloads is the wrapping sum
/// of their checksums.
pub proof fn lemma_checksum_concat(a: Seq<u8>, b: Seq<u8>)
    ensures
        spec_checksum(a + b) == u8_specs::wrapping_add(spec_checksum(a), spec_checksum(b)),
{
    lemma_byte_sum_concat(a, b);
    lemma_byte_sum_nonneg(a);
    lemma_byte_sum_nonneg(b);
    lemma_mod_bound(byte_sum(a), 256);
    lemma_mod_bound(byte_sum(b), 256);
    lemma_add_mod_noop(byte_sum(a), byte_sum(b), 256);
    let x = byte_sum(a) % 256;
    let y = byte_sum(b) % 256;
    if x + y > 255 {
        lemma_mod_sub_multiples_vanish(x + y, 256);
        lemma_small_mod((x + y - 256) as nat, 256);
    } else {
        lemma_small_mod((x + y) as nat, 256);
    }
}

/// Law: obfuscation is an involution; applying the same key twice returns
/// the original bytes.
pub proof fn lemma_encrypt_involutive(x: Seq<u8>, k: u8)
    ensures
        spec_encrypt(spec_encrypt(x, k), k) == x,
{
    assert forall|i: int| 0 <= i < x.len() implies spec_encrypt(spec_encrypt(x, k), k)[i]
        == x[i] by {
        let b = x[i];
        assert((b ^ k) ^ k == b) by (bit_vector);
    }
    assert(spec_encrypt(spec_encrypt(x, k), k) =~= x);
}

/// Law: obfuscation with the key zero leaves the bytes unchanged.
pub proof fn lemma_encrypt_key_zero(x: Seq<u8>)
    ensures
        spec_encrypt(x, 0) == x,
{
    assert forall|i: int| 0 <= i < x.len() implies spec_encrypt(x, 0)[i] == x[i] by {
        let b = x[i];
        assert(b ^ 0 == b) by (bit_vector);
    }
    assert(spec_encrypt(x, 0) =~= x);
}

/// Compute the checksum of the provided bytes.
pub fn checksum(data: &[u8]) -> (r: u8)
    ensures
        r == spec_checksum(data@),
{
    let mut acc: u8 = 0;
    let mut i: usize = 0;
    proof {
        assert(data@.take(0) =~= Seq::<u8>::empty());
    }
    while i < data.len()
        invariant
            0 <= i <= data@.len(),
            acc == spec_checksum(data@.take(i as int)),
        decreases data@.len() - i,
    {
        let b = data[i];
        proof {
            let prefix = data@.take(i as int);
            let next = data@.take(i as int + 1);
            assert(next.drop_last() =~= prefix);
            assert(next.last() == b);
            lemma_byte_sum_nonneg(prefix);
            lemma_mod_bound(byte_sum(prefix), 256);
            lemma_small_mod(b as nat, 256);
            lemma_add_mod_noop(byte_sum(prefix), b as int, 256);
            lemma_mod_bound(byte_sum(prefix) + b, 256);
        }
        acc = acc.wrapping_add(b);
        i = i + 1;
    }
    proof {
        assert(data@.take(data@.len() as int) =~= data@);
    }
    acc
}

/// Obfuscate the provided bytes by XORing each with the provided key.
pub fn encrypt(data: &[u8], key: u8) -> (r: Vec<u8>)
    ensures
        r@ == spec_encrypt(data@, key),
{
    let mut out: Vec<u8> = Vec::new();
    let mut i: usize = 0;
    while i < data.len()
        invariant
            0 <= i <= data@.len(),
            out@ =~= spec_encrypt(data@.take(i as int), key),
        decreases data@.len() - i,
    {
        out.push(data[i] ^ key);
        proof {
            assert(out@ =~= spec_encrypt(data@.take(i as int + 1), key));
        }
        i = i + 1;
    }
    proof {
        assert(data@.take(data@.len() as int) =~= data@);
        assert(out@ =~= spec_encrypt(data@, key));
    }
    out
}

} // verus!
