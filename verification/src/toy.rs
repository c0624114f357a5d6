use vstd::prelude::*;
use vstd::string::StrSliceExecFns;

use crate::crh::BitCrh;
use crate::error::CrhError;
use crate::group::CommitmentGroup;

verus! {

/// The order of the toy group: a small prime, so the group of integers
/// modulo it under addition is a prime-order group.
pub const TOY_ORDER: u64 = 13;

/// The bit length of the toy scalar field: the smallest width that holds
/// every canonical scalar below the order.
pub const TOY_SCALAR_BITS: usize = 4;

/// A deterministic fold of a string into a residue modulo the toy order.
pub open spec fn toy_str_hash(s: Seq<char>) -> int
    decreases s.len(),
{
    if s.len() == 0 {
        0
    } else {
        (toy_str_hash(s.drop_last()) * 31 + (s.last() as u32)) % 13
    }
}

/// A deterministic fold of a bit string into a residue modulo the toy order,
/// starting from a seed residue.
pub open spec fn toy_bits_hash(seed: int, bits: Seq<bool>) -> int
    decreases bits.len(),
{
    if bits.len() == 0 {
        seed % 13
    } else {
        (toy_bits_hash(seed, bits.drop_last()) * 2 + (if bits.last() {
            1int
        } else {
            0int
        })) % 13
    }
}

/// Fold a string into a residue modulo the toy order.
pub fn toy_str_fold(s: &str) -> (r: u64)
    ensures
        r as int == toy_str_hash(s@),
        r < 13,
{
    let n = s.unicode_len();
    let mut acc: u64 = 0;
    let mut i: usize = 0;
    while i < n
        invariant
            n == s@.len(),
            i <= n,
            acc < 13,
            acc as int == toy_str_hash(s@.take(i as int)),
        decreases n - i,
    {
        let c = s.get_char(i);
        proof {
            assert(s@.take(i + 1).drop_last() =~= s@.take(i as int));
            assert(s@.take(i + 1).last() == s@[i as int]);
        }
        acc = (acc * 31 + (c as u32 as u64 % TOY_ORDER)) % TOY_ORDER;
        proof {
            assert(acc as int == toy_str_hash(s@.take(i + 1))) by {
                assert((toy_str_hash(s@.take(i as int)) * 31 + (s@[i as int] as u32)) % 13 == (
                toy_str_hash(s@.take(i as int)) * 31 + (s@[i as int] as u32 % 13)) % 13);
            }
        }
        i = i + 1;
    }
    proof {
        assert(s@.take(n as int) =~= s@);
    }
    acc
}

/// An element of the toy group: the integers modulo a small prime under
/// addition. Its model is its canonical residue.
pub struct ToyPoint {
    pub v: u64,
}

/// A toy scalar: an integer whose canonical form is its residue modulo the
/// toy order.
pub struct ToyScalar {
    pub v: u64,
}

impl CommitmentGroup for ToyPoint {
    type Scalar = ToyScalar;

    type Base = u64;

    open spec fn model(&self) -> int {
        (self.v as int) % 13
    }

    open spec fn madd(a: int, b: int) -> int {
        ((a % 13) + (b % 13)) % 13
    }

    open spec fn mzero() -> int {
        0
    }

    open spec fn msub(m: int) -> bool {
        true
    }

    open spec fn scalar_len() -> nat {
        4
    }

    open spec fn scalar_model(s: &ToyScalar) -> Seq<bool> {
        let c = (s.v as int) % 13;
        seq![c % 2 == 1, (c / 2) % 2 == 1, (c / 4) % 2 == 1, (c / 8) % 2 == 1]
    }

    open spec fn base_model(b: &u64) -> int {
        *b as int
    }

    open spec fn xcoord(m: int) -> int {
        m
    }

    open spec fn hash_str_model(s: Seq<char>) -> int {
        toy_str_hash(s)
    }

    fn scalar_len_exec() -> (n: usize) {
        TOY_SCALAR_BITS
    }

    fn zero() -> (r: Self) {
        ToyPoint { v: 0 }
    }

    fn in_subgroup(&self) -> (r: bool) {
        true
    }

    fn dup(&self) -> (r: Self) {
        ToyPoint { v: self.v }
    }

    fn add(&self, other: &Self) -> (r: Self) {
        ToyPoint { v: (self.v % TOY_ORDER + other.v % TOY_ORDER) % TOY_ORDER }
    }

    fn double(&self) -> (r: Self) {
        self.add(self)
    }

    fn to_x(&self) -> (r: u64) {
        self.v % TOY_ORDER
    }

    fn scalar_bits(s: &ToyScalar) -> (r: Vec<bool>) {
        let c = s.v % TOY_ORDER;
        let r: Vec<bool> = vec![c % 2 == 1, (c / 2) % 2 == 1, (c / 4) % 2 == 1, (c / 8) % 2 == 1];
        proof {
            assert(r@ =~= Self::scalar_model(s));
        }
        r
    }

    fn hash_to_group(domain: &str) -> (r: Self) {
        ToyPoint { v: toy_str_fold(domain) }
    }
}

/// Bit-length boundary of toy scalars: a scalar's decomposition always has
/// exactly the scalar field's bit length — shorter natural representations
/// are padded with zero bits — and depends only on the scalar's canonical
/// residue, so bits beyond the canonical form are ignored.
pub proof fn lemma_toy_scalar_bits_canonical(a: ToyScalar, b: ToyScalar)
    requires
        (a.v as int) % 13 == (b.v as int) % 13,
    ensures
        <ToyPoint as CommitmentGroup>::scalar_model(&a) == <ToyPoint as CommitmentGroup>::scalar_model(&b),
        <ToyPoint as CommitmentGroup>::scalar_model(&a).len() == <ToyPoint as CommitmentGroup>::scalar_len(),
{
}

/// A toy collision-resistant hash over the toy group: its parameters are the
/// residue its setup message folds to, and hashing folds the input bits into
/// that seed. Capacity is four bits, grouped as two windows of two bits.
pub struct ToyCrh {
    pub seed: u64,
}

impl BitCrh for ToyCrh {
    type Point = ToyPoint;

    open spec fn params_model(&self) -> Seq<int> {
        seq![(self.seed as int) % 13]
    }

    open spec fn wf(&self) -> bool {
        true
    }

    open spec fn params_of(message: Seq<char>) -> Seq<int> {
        seq![toy_str_hash(message)]
    }

    open spec fn capacity_spec() -> nat {
        4
    }

    open spec fn window_spec() -> (usize, usize) {
        (2, 2)
    }

    open spec fn hash_model(params: Seq<int>, bits: Seq<bool>) -> int {
        toy_bits_hash(params[0], bits)
    }

    proof fn window_matches_capacity() {
    }

    fn setup(message: &str) -> (r: Self) {
        ToyCrh { seed: toy_str_fold(message) }
    }

    fn dup(&self) -> (r: Self) {
        ToyCrh { seed: self.seed }
    }

    fn capacity() -> (r: usize) {
        4
    }

    fn window() -> (r: (usize, usize)) {
        (2, 2)
    }

    fn hash_bits(&self, input: &[bool]) -> (r: Result<ToyPoint, CrhError>) {
        let n = input.len();
        if n > 4 {
            Err(CrhError { len: n, capacity: 4 })
        } else {
            let ghost params = self.params_model();
            let mut acc: u64 = self.seed % TOY_ORDER;
            let mut i: usize = 0;
            while i < n
                invariant
                    n == input@.len(),
                    i <= n,
                    acc < 13,
                    params == self.params_model(),
                    acc as int == toy_bits_hash(params[0], input@.take(i as int)),
                decreases n - i,
            {
                proof {
                    assert(input@.take(i + 1).drop_last() =~= input@.take(i as int));
                    assert(input@.take(i + 1).last() == input@[i as int]);
                }
                acc = (acc * 2 + (if input[i] {
                    1u64
                } else {
                    0u64
                })) % TOY_ORDER;
                i = i + 1;
            }
            proof {
                assert(input@.take(n as int) =~= input@);
            }
            Ok(ToyPoint { v: acc })
        }
    }
}

} // verus!
