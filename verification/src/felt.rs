//! The 252-bit field element that every address, hash, balance and storage
//! cell of the chain is made of.

use vstd::prelude::*;

verus! {

/// An element of the Stark field, kept as the two 128-bit halves of its
/// 256-bit big-endian representation. The low half is exactly what fee
/// accounting reads: the low 16 bytes of the big-endian form, as an unsigned
/// 128-bit amount.
#[derive(Clone, Copy, Debug)]
pub struct Felt {
    pub hi: u128,
    pub lo: u128,
}

/// 2^128, the weight of the high half of a field element.
pub open spec fn pow2_128() -> int {
    0x100000000000000000000000000000000int
}

/// The Stark prime: 2^251 + 17 * 2^192 + 1. Field elements are reduced
/// below this bound.
pub open spec fn stark_prime() -> int {
    0x800000000000011000000000000000000000000000000000000000000000001int
}

impl View for Felt {
    type V = int;

    /// A field element denotes the integer its big-endian bytes encode.
    open spec fn view(&self) -> int {
        self.hi * pow2_128() + self.lo
    }
}

impl Felt {
    /// A well-formed field element is reduced modulo the Stark prime.
    pub open spec fn wf(self) -> bool {
        self@ < stark_prime()
    }

    /// The zero element.
    pub fn zero() -> (r: Felt)
        ensures
            r@ == 0,
            r.wf(),
    {
        Felt { hi: 0, lo: 0 }
    }

    /// Widen an unsigned 64-bit amount into the field, as the drip funding
    /// path does with a balance.
    pub fn from_u64(v: u64) -> (r: Felt)
        ensures
            r@ == v as int,
            r.wf(),
    {
        Felt { hi: 0, lo: v as u128 }
    }

    /// Build an element from the two halves of its big-endian representation.
    pub fn from_halves(hi: u128, lo: u128) -> (r: Felt)
        requires
            hi * pow2_128() + lo < stark_prime(),
        ensures
            r@ == hi * pow2_128() + lo,
            r.wf(),
    {
        Felt { hi, lo }
    }

    /// The low 16 bytes of the big-endian representation, read as an
    /// unsigned 128-bit integer: the value modulo 2^128.
    pub fn low_u128(&self) -> (r: u128)
        ensures
            r == self@ % pow2_128(),
    {
        proof {
            lemma_halves_mod(self.hi as int, self.lo as int);
        }
        self.lo
    }

    /// The high 16 bytes of the big-endian representation.
    pub fn high_u128(&self) -> (r: u128)
        ensures
            r == self@ / pow2_128(),
    {
        proof {
            lemma_halves_div(self.hi as int, self.lo as int);
        }
        self.hi
    }

    /// Equality of field elements is equality of the integers they denote.
    pub fn eq_felt(&self, other: &Felt) -> (r: bool)
        ensures
            r == (self@ == other@),
    {
        proof {
            if self.hi != other.hi || self.lo != other.lo {
                lemma_halves_injective(
                    self.hi as int,
                    self.lo as int,
                    other.hi as int,
                    other.lo as int,
                );
            }
        }
        self.hi == other.hi && self.lo == other.lo
    }
}

/// The value of a pair of halves, taken modulo 2^128, is the low half.
proof fn lemma_halves_mod(hi: int, lo: int)
    requires
        0 <= hi,
        0 <= lo < pow2_128(),
    ensures
        (hi * pow2_128() + lo) % pow2_128() == lo,
{
    assert((hi * 0x100000000000000000000000000000000int + lo) % 0x100000000000000000000000000000000int
        == lo) by (nonlinear_arith)
        requires
            0 <= hi,
            0 <= lo < 0x100000000000000000000000000000000int,
    ;
}

/// The value of a pair of halves, divided by 2^128, is the high half.
proof fn lemma_halves_div(hi: int, lo: int)
    requires
        0 <= hi,
        0 <= lo < pow2_128(),
    ensures
        (hi * pow2_128() + lo) / pow2_128() == hi,
{
    assert((hi * 0x100000000000000000000000000000000int + lo) / 0x100000000000000000000000000000000int
        == hi) by (nonlinear_arith)
        requires
            0 <= hi,
            0 <= lo < 0x100000000000000000000000000000000int,
    ;
}

/// Two distinct pairs of halves denote distinct integers.
proof fn lemma_halves_injective(hi1: int, lo1: int, hi2: int, lo2: int)
    requires
        0 <= hi1,
        0 <= lo1 < pow2_128(),
        0 <= hi2,
        0 <= lo2 < pow2_128(),
        hi1 != hi2 || lo1 != lo2,
    ensures
        hi1 * pow2_128() + lo1 != hi2 * pow2_128() + lo2,
{
    assert(hi1 * 0x100000000000000000000000000000000int + lo1 != hi2
        * 0x100000000000000000000000000000000int + lo2) by (nonlinear_arith)
        requires
            0 <= hi1,
            0 <= lo1 < 0x100000000000000000000000000000000int,
            0 <= hi2,
            0 <= lo2 < 0x100000000000000000000000000000000int,
            hi1 != hi2 || lo1 != lo2,
    ;
}

/// The integers denoted by a sequence of field elements.
pub open spec fn felt_values(s: Seq<Felt>) -> Seq<int> {
    s.map(|i: int, f: Felt| f@)
}

/// The integer a big-endian byte string encodes.
pub open spec fn be_bytes_val(s: Seq<u8>) -> int
    decreases s.len(),
{
    if s.len() == 0 {
        0
    } else {
        be_bytes_val(s.drop_last()) * 256 + s.last()
    }
}

/// 256 raised to the n-th power: the weight of a byte n places from the
/// end of a big-endian byte string.
pub open spec fn pow256(n: nat) -> int
    decreases n,
{
    if n == 0 {
        1
    } else {
        256 * pow256((n - 1) as nat)
    }
}

/// A big-endian byte string of length n encodes a value below 256^n.
pub proof fn lemma_be_bytes_val_bound(s: Seq<u8>)
    ensures
        0 <= be_bytes_val(s) < pow256(s.len()),
    decreases s.len(),
{
    if s.len() != 0 {
        lemma_be_bytes_val_bound(s.drop_last());
    }
}

/// Concatenation of byte strings shifts the first part by the length of
/// the second.
pub proof fn lemma_be_bytes_val_concat(a: Seq<u8>, b: Seq<u8>)
    ensures
        be_bytes_val(a + b) == be_bytes_val(a) * pow256(b.len()) + be_bytes_val(b),
    decreases b.len(),
{
    if b.len() == 0 {
        assert(a + b =~= a);
    } else {
        lemma_be_bytes_val_concat(a, b.drop_last());
        assert((a + b).drop_last() =~= a + b.drop_last());
        let x = be_bytes_val(a);
        let p = pow256((b.len() - 1) as nat);
        assert((x * p) * 256 == x * (256 * p)) by (nonlinear_arith);
    }
}

/// 256^16 is 2^128.
pub proof fn lemma_pow256_16()
    ensures
        pow256(16) == 0x100000000000000000000000000000000int,
{
    reveal_with_fuel(pow256, 17);
}

/// 256^31 is 2^248.
pub proof fn lemma_pow256_31()
    ensures
        pow256(31) == 0x100000000000000000000000000000000000000000000000000000000000000int,
{
    reveal_with_fuel(pow256, 32);
}

impl Felt {
    /// Build an element from its 32-byte big-endian representation.
    pub fn from_be_bytes(b: &Vec<u8>) -> (r: Felt)
        requires
            b@.len() == 32,
            be_bytes_val(b@) < stark_prime(),
        ensures
            r@ == be_bytes_val(b@),
            r.wf(),
    {
        let hi = u128_from_be_slice(b, 0, 16);
        let lo = u128_from_be_slice(b, 16, 32);
        proof {
            assert(b@.subrange(0, 16) + b@.subrange(16, 32) =~= b@);
            lemma_be_bytes_val_concat(b@.subrange(0, 16), b@.subrange(16, 32));
            lemma_pow256_16();
            lemma_be_bytes_val_bound(b@.subrange(0, 16));
            lemma_be_bytes_val_bound(b@.subrange(16, 32));
        }
        Felt { hi, lo }
    }
}

/// Decode at most 16 big-endian bytes of a byte vector into an unsigned
/// 128-bit integer.
fn u128_from_be_slice(b: &Vec<u8>, start: usize, end: usize) -> (r: u128)
    requires
        start <= end,
        end <= b@.len(),
        end - start <= 16,
    ensures
        r == be_bytes_val(b@.subrange(start as int, end as int)),
{
    let mut acc: u128 = 0;
    let mut j: usize = start;
    proof {
        assert(b@.subrange(start as int, start as int) =~= Seq::<u8>::empty());
    }
    while j < end
        invariant
            start <= j <= end,
            end <= b@.len(),
            end - start <= 16,
            acc == be_bytes_val(b@.subrange(start as int, j as int)),
        decreases end - j,
    {
        proof {
            let done = b@.subrange(start as int, j as int);
            assert(b@.subrange(start as int, j + 1).drop_last() =~= done);
            assert(b@.subrange(start as int, j + 1).last() == b@[j as int]);
            lemma_be_bytes_val_bound(done);
            lemma_pow256_le((j - start) as nat, 15);
            assert(pow256(15) == 0x1000000000000000000000000000000int) by {
                reveal_with_fuel(pow256, 16);
            }
            assert(acc < 0x1000000000000000000000000000000int);
        }
        acc = acc * 256 + (b[j] as u128);
        j = j + 1;
    }
    acc
}

/// Every power of 256 is positive.
proof fn lemma_pow256_pos(n: nat)
    ensures
        pow256(n) >= 1,
    decreases n,
{
    if n > 0 {
        lemma_pow256_pos((n - 1) as nat);
    }
}

/// Powers of 256 grow with the exponent.
proof fn lemma_pow256_le(a: nat, b: nat)
    requires
        a <= b,
    ensures
        pow256(a) <= pow256(b),
    decreases b,
{
    if a < b {
        lemma_pow256_le(a, (b - 1) as nat);
        lemma_pow256_pos((b - 1) as nat);
        assert(pow256(b) == 256 * pow256((b - 1) as nat));
    }
}

} // verus!
