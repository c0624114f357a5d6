use vstd::prelude::*;
use vstd::string::StrSliceExecFns;

use snarkvm_curves::edwards_bls12::{EdwardsAffine, EdwardsProjective, Fq, Fr};
use snarkvm_curves::traits::{AffineCurve, ProjectiveCurve};
use snarkvm_fields::{PrimeField, Zero};
use snarkvm_utilities::bititerator::BitIteratorLE;

use crate::commitment::BHPCommitment;
use crate::group::CommitmentGroup;
use crate::pedersen::PedersenCrh;

verus! {

/// The bit length of the scalar field of the Edwards BLS12 curve: the
/// modulus of its scalar field is a 251-bit prime.
pub const ED_SCALAR_BITS: usize = 251;

/// A point of the Edwards BLS12 curve in projective form. Opaque: it is
/// abstracted by `ed_point_model`, an integer naming the group element it
/// represents.
#[verifier::external_body]
pub struct EdPoint {
    inner: EdwardsProjective,
}

/// A point of the Edwards BLS12 curve in affine form. Opaque, abstracted by
/// `ed_affine_point_model`.
#[verifier::external_body]
pub struct EdAffinePoint {
    inner: EdwardsAffine,
}

/// An element of the base field of the Edwards BLS12 curve. Opaque,
/// abstracted by `ed_base_value_model`.
#[verifier::external_body]
pub struct EdBase {
    inner: Fq,
}

/// An element of the scalar field of the Edwards BLS12 curve. Opaque,
/// abstracted by `ed_scalar_bits_model`, its canonical little-endian bit
/// decomposition.
#[verifier::external_body]
pub struct EdScalar {
    inner: Fr,
}

/// The name of the group element an `EdPoint` holds.
pub uninterp spec fn ed_point_model(p: &EdPoint) -> int;

/// The name of the point an `EdAffinePoint` holds.
pub uninterp spec fn ed_affine_point_model(a: &EdAffinePoint) -> int;

/// The name of the field element an `EdBase` holds.
pub uninterp spec fn ed_base_value_model(b: &EdBase) -> int;

/// The canonical little-endian bits of the scalar an `EdScalar` holds:
/// exactly the scalar field's bit length of them.
pub uninterp spec fn ed_scalar_bits_model(s: &EdScalar) -> Seq<bool>;

/// The name of the sum of the group elements named `a` and `b`.
pub uninterp spec fn ed_add_model(a: int, b: int) -> int;

/// The name of the affine form of the group element named `m`.
pub uninterp spec fn ed_affine_model(m: int) -> int;

/// The name of the x-coordinate of the affine point named `a`.
pub uninterp spec fn ed_x_model(a: int) -> int;

/// What attempting to read an affine point from a byte string yields: the
/// name of the decoded point, if the bytes decode to one.
pub uninterp spec fn ed_from_bytes_model(bytes: Seq<u8>) -> Option<int>;

/// The name of the affine point named `a` multiplied by the curve's
/// cofactor, as a projective point.
pub uninterp spec fn ed_cofactor_model(a: int) -> int;

/// Whether the affine point named `a` lies in the prime-order subgroup.
pub uninterp spec fn ed_subgroup_model(a: int) -> bool;

/// The little-endian bits of `n`, padded with zero bits to the scalar
/// field's bit length.
pub open spec fn u64_le_bits(n: u64) -> Seq<bool> {
    Seq::new(251, |i: int| 0 <= i < 64 && ((n >> (i as u64)) & 1u64 == 1u64))
}

/// Relies on `AffineCurve::from_random_bytes` of `snarkvm_curves`: whether
/// and what it decodes is a function of the byte string alone.
#[verifier::external_body]
fn ed_from_random_bytes(bytes: &[u8]) -> (r: Option<EdAffinePoint>)
    ensures
        r is Some <==> ed_from_bytes_model(bytes@) is Some,
        r matches Some(a) ==> ed_from_bytes_model(bytes@) == Some(ed_affine_point_model(&a)),
{
    EdwardsAffine::from_random_bytes(bytes).map(|p| EdAffinePoint { inner: p })
}

/// Relies on `AffineCurve::mul_by_cofactor_to_projective` of
/// `snarkvm_curves`: the result is a function of the point alone.
#[verifier::external_body]
fn ed_mul_by_cofactor(a: &EdAffinePoint) -> (r: EdPoint)
    ensures
        ed_point_model(&r) == ed_cofactor_model(ed_affine_point_model(a)),
{
    EdPoint { inner: a.inner.mul_by_cofactor_to_projective() }
}

/// Relies on `ProjectiveCurve::to_affine` of `snarkvm_curves`: the affine
/// form is a function of the group element alone.
#[verifier::external_body]
fn ed_to_affine(p: &EdPoint) -> (r: EdAffinePoint)
    ensures
        ed_affine_point_model(&r) == ed_affine_model(ed_point_model(p)),
{
    EdAffinePoint { inner: p.inner.to_affine() }
}

/// Relies on `AffineCurve::to_x_coordinate` of `snarkvm_curves`: the
/// x-coordinate is a function of the affine point alone.
#[verifier::external_body]
fn ed_affine_x(a: &EdAffinePoint) -> (r: EdBase)
    ensures
        ed_base_value_model(&r) == ed_x_model(ed_affine_point_model(a)),
{
    EdBase { inner: a.inner.to_x_coordinate() }
}

/// Relies on `AffineCurve::is_in_correct_subgroup_assuming_on_curve` of
/// `snarkvm_curves`: subgroup membership is a function of the point alone.
#[verifier::external_body]
fn ed_affine_subgroup_check(a: &EdAffinePoint) -> (r: bool)
    ensures
        r == ed_subgroup_model(ed_affine_point_model(a)),
{
    a.inner.is_in_correct_subgroup_assuming_on_curve()
}

/// Relies on `Zero::zero` for the projective Edwards point of
/// `snarkvm_curves`: the identity element, named zero here.
#[verifier::external_body]
fn ed_zero() -> (r: EdPoint)
    ensures
        ed_point_model(&r) == 0,
{
    EdPoint { inner: EdwardsProjective::zero() }
}

/// Relies on the `Copy` of the projective Edwards point of
/// `snarkvm_curves`: a bitwise copy is the same group element.
#[verifier::external_body]
fn ed_copy(p: &EdPoint) -> (r: EdPoint)
    ensures
        ed_point_model(&r) == ed_point_model(p),
{
    EdPoint { inner: p.inner }
}

/// Relies on `Add` for the projective Edwards point of `snarkvm_curves`:
/// the group sum is a function of the two elements alone.
#[verifier::external_body]
fn ed_add_points(a: &EdPoint, b: &EdPoint) -> (r: EdPoint)
    ensures
        ed_point_model(&r) == ed_add_model(ed_point_model(a), ed_point_model(b)),
{
    EdPoint { inner: a.inner + b.inner }
}

/// Relies on `ProjectiveCurve::double` of `snarkvm_curves`, which returns
/// `self + self`: the same sum that point addition yields.
#[verifier::external_body]
fn ed_double_point(p: &EdPoint) -> (r: EdPoint)
    ensures
        ed_point_model(&r) == ed_add_model(ed_point_model(p), ed_point_model(p)),
{
    EdPoint { inner: ProjectiveCurve::double(&p.inner) }
}

/// Relies on `PrimeField::to_bigint` of `snarkvm_fields`, which returns the
/// canonical representation, and on `BitIteratorLE` of `snarkvm_utilities`,
/// which iterates its bits little-endian first: the first 251 of them are
/// the scalar's canonical bits.
#[verifier::external_body]
fn ed_scalar_le_bits(s: &EdScalar) -> (r: Vec<bool>)
    ensures
        r@ == ed_scalar_bits_model(s),
        r@.len() == 251,
{
    BitIteratorLE::new(s.inner.to_bigint()).take(ED_SCALAR_BITS).collect()
}

impl EdBase {
    /// Whether two base-field elements are the same value. Relies on the
    /// `PartialEq` of `Fp256` of `snarkvm_fields`, which compares canonical
    /// representations.
    #[verifier::external_body]
    pub fn eq_base(&self, other: &EdBase) -> (r: bool)
        ensures
            r == (ed_base_value_model(self) == ed_base_value_model(other)),
    {
        self.inner == other.inner
    }
}

impl EdScalar {
    /// Build a scalar from an unsigned integer. Relies on `Fp256::from` of
    /// `snarkvm_fields`: for an argument below the modulus, the canonical
    /// representation is the argument itself, so its little-endian bits are
    /// the argument's bits padded with zeros.
    #[verifier::external_body]
    pub fn from_u64(n: u64) -> (r: EdScalar)
        ensures
            ed_scalar_bits_model(&r) == u64_le_bits(n),
    {
        EdScalar { inner: Fr::from(n) }
    }
}

/// The bytes a domain-separation string is encoded to before hashing to the
/// curve: each character's code point as four little-endian bytes.
pub open spec fn char_le_bytes(c: char) -> Seq<u8> {
    seq![
        (c as u32) as u8,
        ((c as u32) >> 8u32) as u8,
        ((c as u32) >> 16u32) as u8,
        ((c as u32) >> 24u32) as u8,
    ]
}

/// The encoding of a whole string.
pub open spec fn char_bytes(s: Seq<char>) -> Seq<u8>
    decreases s.len(),
{
    if s.len() == 0 {
        Seq::empty()
    } else {
        char_bytes(s.drop_last()) + char_le_bytes(s.last())
    }
}

/// Encode a string, character by character.
fn encode_chars(s: &str) -> (r: Vec<u8>)
    ensures
        r@ == char_bytes(s@),
{
    let n = s.unicode_len();
    let mut out: Vec<u8> = Vec::new();
    let mut i: usize = 0;
    while i < n
        invariant
            n == s@.len(),
            i <= n,
            out@ == char_bytes(s@.take(i as int)),
        decreases n - i,
    {
        let c = s.get_char(i);
        let ghost prev = out@;
        let u = c as u32;
        out.push(u as u8);
        out.push((u >> 8u32) as u8);
        out.push((u >> 16u32) as u8);
        out.push((u >> 24u32) as u8);
        proof {
            assert(s@.take(i + 1).drop_last() =~= s@.take(i as int));
            assert(s@.take(i + 1).last() == s@[i as int]);
            assert(out@ =~= prev + char_le_bytes(s@[i as int]));
        }
        i = i + 1;
    }
    proof {
        assert(s@.take(n as int) =~= s@);
    }
    out
}

/// The multiplier of the mixing fold: odd, so each step is a bijection of
/// the lane state and a change to any input byte propagates to the lane's
/// final value.
pub const MIX_PRIME: u64 = 16777619;

/// The pairwise distinct seeds of the eight digest lanes.
pub const MIX_SEED_0: u64 = 0x811C9DC5;

pub const MIX_SEED_1: u64 = 0x1F54177E;

pub const MIX_SEED_2: u64 = 0xBD8B9137;

pub const MIX_SEED_3: u64 = 0x5BC30AF0;

pub const MIX_SEED_4: u64 = 0xF9FA84A9;

pub const MIX_SEED_5: u64 = 0x9831FE62;

pub const MIX_SEED_6: u64 = 0x3669781B;

pub const MIX_SEED_7: u64 = 0xD4A0F1D4;

/// One lane of the mixing digest: a multiply-accumulate fold of every byte,
/// modulo two to the thirty-second, from a per-lane seed. The multiplier is
/// odd, so every byte of the input affects the lane's value.
pub open spec fn mix_fold(seed: u64, bytes: Seq<u8>) -> int
    decreases bytes.len(),
{
    if bytes.len() == 0 {
        (seed as int) % 0x100000000
    } else {
        (mix_fold(seed, bytes.drop_last()) * (MIX_PRIME as int) + (bytes.last() as int))
            % 0x100000000
    }
}

/// The finalization of a lane: two further multiplications by the odd
/// multiplier, so that the influence of the last absorbed bytes — the
/// counter byte in particular — spreads across every bit of the lane, not
/// only its low byte.
pub open spec fn mix_final(w: int) -> int {
    (((w * (MIX_PRIME as int)) % 0x100000000) * (MIX_PRIME as int)) % 0x100000000
}

/// The four little-endian bytes of a lane value.
pub open spec fn word_le_bytes(w: int) -> Seq<u8> {
    seq![
        (w % 256) as u8,
        ((w / 256) % 256) as u8,
        ((w / 65536) % 256) as u8,
        ((w / 16777216) % 256) as u8,
    ]
}

/// The thirty-two-byte digest of a byte string: eight independently seeded
/// lanes of four little-endian bytes each. The curve-point decoder reads
/// only the first thirty-two bytes of whatever it is handed (it copies into
/// a fixed buffer with a truncating zip and takes the sign flag from the
/// last of them), so the whole domain string is compressed into exactly that
/// window; every input byte affects every lane, and so every character of
/// the domain affects the decoded point.
pub open spec fn mix_bytes32(bytes: Seq<u8>) -> Seq<u8> {
    word_le_bytes(mix_final(mix_fold(MIX_SEED_0, bytes))) + word_le_bytes(
        mix_final(mix_fold(MIX_SEED_1, bytes)),
    ) + word_le_bytes(mix_final(mix_fold(MIX_SEED_2, bytes))) + word_le_bytes(
        mix_final(mix_fold(MIX_SEED_3, bytes)),
    ) + word_le_bytes(mix_final(mix_fold(MIX_SEED_4, bytes))) + word_le_bytes(
        mix_final(mix_fold(MIX_SEED_5, bytes)),
    ) + word_le_bytes(mix_final(mix_fold(MIX_SEED_6, bytes))) + word_le_bytes(
        mix_final(mix_fold(MIX_SEED_7, bytes)),
    )
}

/// One lane of the digest of `bytes` followed by `tail`.
fn mix_lane(seed: u64, bytes: &Vec<u8>, tail: u8) -> (r: u64)
    ensures
        r as int == mix_final(mix_fold(seed, bytes@.push(tail))),
        r < 0x100000000,
{
    let mut s: u64 = seed % 0x100000000;
    let mut i: usize = 0;
    proof {
        assert(bytes@.take(0) =~= Seq::<u8>::empty());
    }
    while i < bytes.len()
        invariant
            i <= bytes@.len(),
            s < 0x100000000,
            s as int == mix_fold(seed, bytes@.take(i as int)),
        decreases bytes@.len() - i,
    {
        proof {
            assert(bytes@.take(i + 1).drop_last() =~= bytes@.take(i as int));
            assert(bytes@.take(i + 1).last() == bytes@[i as int]);
        }
        s = (s * MIX_PRIME + (bytes[i] as u64)) % 0x100000000;
        i = i + 1;
    }
    proof {
        assert(bytes@.take(bytes@.len() as int) =~= bytes@);
        assert(bytes@.push(tail).drop_last() =~= bytes@);
        assert(bytes@.push(tail).last() == tail);
    }
    let absorbed = (s * MIX_PRIME + (tail as u64)) % 0x100000000;
    ((absorbed * MIX_PRIME) % 0x100000000 * MIX_PRIME) % 0x100000000
}

/// Append the four little-endian bytes of a lane value.
fn push_word(out: &mut Vec<u8>, w: u64)
    requires
        w < 0x100000000,
    ensures
        final(out)@ == old(out)@ + word_le_bytes(w as int),
{
    out.push((w % 256) as u8);
    out.push(((w / 256) % 256) as u8);
    out.push(((w / 65536) % 256) as u8);
    out.push(((w / 16777216) % 256) as u8);
    proof {
        assert(out@ =~= old(out)@ + word_le_bytes(w as int));
    }
}

/// The digest of `bytes` followed by the counter byte `tail`: the
/// thirty-two bytes handed to one curve-point decode attempt.
#[verifier::rlimit(50)]
fn mix_digest(bytes: &Vec<u8>, tail: u8) -> (r: Vec<u8>)
    ensures
        r@ == mix_bytes32(bytes@.push(tail)),
        r@.len() == 32,
{
    let l0 = mix_lane(MIX_SEED_0, bytes, tail);
    let l1 = mix_lane(MIX_SEED_1, bytes, tail);
    let l2 = mix_lane(MIX_SEED_2, bytes, tail);
    let l3 = mix_lane(MIX_SEED_3, bytes, tail);
    let l4 = mix_lane(MIX_SEED_4, bytes, tail);
    let l5 = mix_lane(MIX_SEED_5, bytes, tail);
    let l6 = mix_lane(MIX_SEED_6, bytes, tail);
    let l7 = mix_lane(MIX_SEED_7, bytes, tail);
    let mut out: Vec<u8> = Vec::new();
    push_word(&mut out, l0);
    push_word(&mut out, l1);
    push_word(&mut out, l2);
    push_word(&mut out, l3);
    push_word(&mut out, l4);
    push_word(&mut out, l5);
    push_word(&mut out, l6);
    push_word(&mut out, l7);
    proof {
        assert(out@ =~= word_le_bytes(l0 as int) + word_le_bytes(l1 as int) + word_le_bytes(
            l2 as int,
        ) + word_le_bytes(l3 as int) + word_le_bytes(l4 as int) + word_le_bytes(l5 as int)
            + word_le_bytes(l6 as int) + word_le_bytes(l7 as int));
        assert(out@ == mix_bytes32(bytes@.push(tail)));
    }
    out
}

/// The point the byte string `bytes` probes to, with `remaining` counter
/// values left to try: each attempt compresses the whole byte string
/// together with one counter byte into the thirty-two-byte window the
/// decoder reads, and tries to decode an affine point; the first success is
/// cleared of the cofactor. The attempts are pairwise distinct, so a run in
/// which all of them fail is astronomically unlikely; if it happens anyway,
/// the identity (named zero) is the result.
pub open spec fn ed_probe(bytes: Seq<u8>, remaining: nat) -> int
    decreases remaining,
{
    if remaining == 0 {
        0
    } else {
        let attempt = mix_bytes32(bytes.push((256 - remaining) as u8));
        match ed_from_bytes_model(attempt) {
            Some(a) => ed_cofactor_model(a),
            None => ed_probe(bytes, (remaining - 1) as nat),
        }
    }
}

impl CommitmentGroup for EdPoint {
    type Scalar = EdScalar;

    type Base = EdBase;

    open spec fn model(&self) -> int {
        ed_point_model(self)
    }

    open spec fn madd(a: int, b: int) -> int {
        ed_add_model(a, b)
    }

    open spec fn mzero() -> int {
        0
    }

    open spec fn msub(m: int) -> bool {
        ed_subgroup_model(ed_affine_model(m))
    }

    open spec fn scalar_len() -> nat {
        251
    }

    open spec fn scalar_model(s: &EdScalar) -> Seq<bool> {
        ed_scalar_bits_model(s)
    }

    open spec fn base_model(b: &EdBase) -> int {
        ed_base_value_model(b)
    }

    open spec fn xcoord(m: int) -> int {
        ed_x_model(ed_affine_model(m))
    }

    open spec fn hash_str_model(s: Seq<char>) -> int {
        ed_probe(char_bytes(s), 256)
    }

    fn scalar_len_exec() -> (n: usize) {
        ED_SCALAR_BITS
    }

    fn zero() -> (r: Self) {
        ed_zero()
    }

    fn in_subgroup(&self) -> (r: bool) {
        let a = ed_to_affine(self);
        ed_affine_subgroup_check(&a)
    }

    fn dup(&self) -> (r: Self) {
        ed_copy(self)
    }

    fn add(&self, other: &Self) -> (r: Self) {
        ed_add_points(self, other)
    }

    fn double(&self) -> (r: Self) {
        ed_double_point(self)
    }

    fn to_x(&self) -> (r: EdBase) {
        let a = ed_to_affine(self);
        ed_affine_x(&a)
    }

    fn scalar_bits(s: &EdScalar) -> (r: Vec<bool>) {
        ed_scalar_le_bits(s)
    }

    fn hash_to_group(domain: &str) -> (r: Self) {
        let bytes = encode_chars(domain);
        let mut ctr: usize = 0;
        while ctr < 256
            invariant
                bytes@ == char_bytes(domain@),
                ctr <= 256,
                ed_probe(bytes@, 256) == ed_probe(bytes@, (256 - ctr) as nat),
            decreases 256 - ctr,
        {
            let candidate = mix_digest(&bytes, ctr as u8);
            proof {
                assert((256 - (256 - ctr as int)) as u8 == ctr as u8);
            }
            match ed_from_random_bytes(candidate.as_slice()) {
                Some(a) => {
                    let r = ed_mul_by_cofactor(&a);
                    return r;
                },
                None => {
                    ctr = ctr + 1;
                },
            }
        }
        ed_zero()
    }
}

/// The commitment scheme over the Edwards BLS12 curve, with a Pedersen-style
/// hash of capacity `N` input bits (capped one below the scalar field's bit
/// length).
pub type EdwardsCommitment<const N: usize> = BHPCommitment<PedersenCrh<EdPoint, N>>;

/// Whether two curve points are the same group element. Relies on the
/// `PartialEq` of the projective Edwards point of `snarkvm_curves`, which
/// compares the group elements that the projective coordinates represent.
#[verifier::external_body]
pub fn ed_eq_point(a: &EdPoint, b: &EdPoint) -> (r: bool)
    ensures
        r == (ed_point_model(a) == ed_point_model(b)),
{
    a.inner == b.inner
}

} // verus!
