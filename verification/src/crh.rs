use vstd::prelude::*;

use crate::error::CrhError;
use crate::group::CommitmentGroup;

verus! {

/// A collision-resistant hash over bounded bit strings, producing elements of
/// a prime-order group. The hash is parameterized by `setup(message)`; its
/// parameters are abstracted by `params_model`, a sequence of integers naming
/// whatever the concrete hash derives from the message.
///
/// The hash accepts at most `capacity_spec` input bits and groups them into
/// windows: `window_spec` gives the window size and the number of windows,
/// whose product is exactly the capacity.
pub trait BitCrh: Sized {
    /// The group the hash outputs land in.
    type Point: CommitmentGroup;

    /// The abstract name of this hash's parameters.
    spec fn params_model(&self) -> Seq<int>;

    /// Well-formedness of the parameters: what `setup` establishes and
    /// `hash_bits` relies on.
    spec fn wf(&self) -> bool;

    /// The parameters that `setup` derives from a message.
    spec fn params_of(message: Seq<char>) -> Seq<int>;

    /// The largest input length, in bits, the hash accepts.
    spec fn capacity_spec() -> nat;

    /// The window shape: (bits per window, number of windows).
    spec fn window_spec() -> (usize, usize);

    /// The model of the group element that hashing `bits` under `params` yields.
    spec fn hash_model(params: Seq<int>, bits: Seq<bool>) -> int;

    /// The window shape multiplies out to the capacity.
    proof fn window_matches_capacity()
        ensures
            Self::window_spec().0 * Self::window_spec().1 == Self::capacity_spec(),
    ;

    /// Derive hash parameters from a domain-separation message. Deterministic:
    /// the resulting parameters are a function of the message alone.
    fn setup(message: &str) -> (r: Self)
        ensures
            r.wf(),
            r.params_model() == Self::params_of(message@),
    ;

    /// An identical copy of these parameters.
    fn dup(&self) -> (r: Self)
        ensures
            r.params_model() == self.params_model(),
            r.wf() == self.wf(),
    ;

    /// The capacity, as a runtime value.
    fn capacity() -> (r: usize)
        ensures
            r as nat == Self::capacity_spec(),
    ;

    /// The window shape, as a runtime value.
    fn window() -> (r: (usize, usize))
        ensures
            r == Self::window_spec(),
    ;

    /// Hash an input bit string to a group element. Succeeds exactly when the
    /// input fits the capacity; an oversized input is rejected, never
    /// truncated.
    fn hash_bits(&self, input: &[bool]) -> (r: Result<Self::Point, CrhError>)
        requires
            self.wf(),
        ensures
            r is Ok <==> input@.len() <= Self::capacity_spec(),
            r matches Ok(p) ==> p.model() == Self::hash_model(self.params_model(), input@),
            r matches Err(e) ==> e == (CrhError {
                len: input@.len() as usize,
                capacity: Self::capacity_spec() as usize,
            }),
    ;
}

} // verus!
