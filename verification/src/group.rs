use vstd::prelude::*;

verus! {

/// A prime-order group together with the pieces of its ambient curve that the
/// commitment construction reads: a scalar field whose elements decompose into
/// a fixed number of little-endian bits, a base field that carries affine
/// x-coordinates, and a deterministic hash from domain-separation strings to
/// group elements.
///
/// Every group element is abstracted by `model`, an integer naming the
/// element; all executable operations are pinned to spec-level counterparts
/// over models, so that callers can reason about the group without seeing a
/// concrete representation.
pub trait CommitmentGroup: Sized {
    /// An element of the scalar field of the group.
    type Scalar;

    /// An element of the base field of the group (the coordinate field).
    type Base;

    /// The abstract name of this group element.
    spec fn model(&self) -> int;

    /// Model-level addition: the name of the sum of the elements named `a` and `b`.
    spec fn madd(a: int, b: int) -> int;

    /// The name of the identity element.
    spec fn mzero() -> int;

    /// Whether the element named `m` lies in the prime-order subgroup.
    spec fn msub(m: int) -> bool;

    /// The bit length of the scalar field: how many little-endian bits a
    /// scalar decomposes into.
    spec fn scalar_len() -> nat;

    /// The canonical little-endian bit decomposition of a scalar, padded or
    /// truncated to exactly `scalar_len` bits.
    spec fn scalar_model(s: &Self::Scalar) -> Seq<bool>;

    /// The abstract name of a base-field element.
    spec fn base_model(b: &Self::Base) -> int;

    /// The affine x-coordinate, at the level of models, of the element named `m`.
    spec fn xcoord(m: int) -> int;

    /// The model of the element the domain-separation string `s` hashes to.
    spec fn hash_str_model(s: Seq<char>) -> int;

    /// The scalar field's bit length, as a runtime value.
    fn scalar_len_exec() -> (n: usize)
        ensures
            n as nat == Self::scalar_len(),
    ;

    /// The identity element.
    fn zero() -> (r: Self)
        ensures
            r.model() == Self::mzero(),
    ;

    /// Whether this element lies in the prime-order subgroup. Used as a
    /// run-time strict-mode check: a violation signals a broken group
    /// backend, not a caller error.
    fn in_subgroup(&self) -> (r: bool)
        ensures
            r == Self::msub(self.model()),
    ;

    /// An identical copy of this element.
    fn dup(&self) -> (r: Self)
        ensures
            r.model() == self.model(),
    ;

    /// Group addition.
    fn add(&self, other: &Self) -> (r: Self)
        ensures
            r.model() == Self::madd(self.model(), other.model()),
    ;

    /// Group doubling: `self + self`.
    fn double(&self) -> (r: Self)
        ensures
            r.model() == Self::madd(self.model(), self.model()),
    ;

    /// The affine x-coordinate of this element.
    fn to_x(&self) -> (r: Self::Base)
        ensures
            Self::base_model(&r) == Self::xcoord(self.model()),
    ;

    /// The canonical little-endian bits of a scalar: exactly `scalar_len`
    /// of them, padding with zero bits past the scalar's natural length and
    /// ignoring anything beyond the canonical representation.
    fn scalar_bits(s: &Self::Scalar) -> (r: Vec<bool>)
        ensures
            r@ == Self::scalar_model(s),
            r@.len() == Self::scalar_len(),
    ;

    /// Deterministically hash a domain-separation string to a group element.
    fn hash_to_group(domain: &str) -> (r: Self)
        ensures
            r.model() == Self::hash_str_model(domain@),
    ;
}

/// The model of `base` doubled `i` times.
pub open spec fn double_iter<P: CommitmentGroup>(base: int, i: nat) -> int
    decreases i,
{
    if i == 0 {
        base
    } else {
        let prev = double_iter::<P>(base, (i - 1) as nat);
        P::madd(prev, prev)
    }
}

/// The model of the running sum after the first `i` bits have been folded
/// in: starting from `start`, the entry `ladder[j]` was added for every
/// `j < i` whose bit is set.
pub open spec fn blind_partial<P: CommitmentGroup>(
    start: int,
    bits: Seq<bool>,
    ladder: Seq<int>,
    i: nat,
) -> int
    decreases i,
{
    if i == 0 {
        start
    } else {
        let prev = blind_partial::<P>(start, bits, ladder, (i - 1) as nat);
        if bits[i - 1] {
            P::madd(prev, ladder[i - 1])
        } else {
            prev
        }
    }
}

} // verus!
