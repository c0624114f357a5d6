use vstd::prelude::*;

use crate::crh::BitCrh;
use crate::error::CrhError;
use crate::group::{blind_partial, double_iter, CommitmentGroup};

verus! {

/// A Pedersen-style collision-resistant hash over any prime-order group: its
/// parameters are `N` bases — the element the setup message hashes to,
/// doubled step by step — and hashing sums the bases selected by the input
/// bits. Each input bit is its own window, so the window shape is
/// `(1, capacity)`; the capacity is `N` bits, capped one below the scalar
/// field's bit length. Under that cap every selectable multiplier of the
/// base lies below the group's prime order, so the hash is injective on
/// inputs of one fixed length; as in any Pedersen-style hash, a shorter
/// input and its zero-padding coincide.
pub struct PedersenCrh<P: CommitmentGroup, const N: usize> {
    pub bases: Vec<P>,
}

impl<P: CommitmentGroup, const N: usize> BitCrh for PedersenCrh<P, N> {
    type Point = P;

    open spec fn params_model(&self) -> Seq<int> {
        self.bases@.map(|j: int, p: P| p.model())
    }

    open spec fn wf(&self) -> bool {
        self.bases@.len() == N
    }

    open spec fn params_of(message: Seq<char>) -> Seq<int> {
        Seq::new(N as nat, |j: int| double_iter::<P>(P::hash_str_model(message), j as nat))
    }

    open spec fn capacity_spec() -> nat {
        let cap = if P::scalar_len() > 0 {
            (P::scalar_len() - 1) as nat
        } else {
            0
        };
        if N as nat <= cap {
            N as nat
        } else {
            cap
        }
    }

    open spec fn window_spec() -> (usize, usize) {
        (1usize, Self::capacity_spec() as usize)
    }

    open spec fn hash_model(params: Seq<int>, bits: Seq<bool>) -> int {
        blind_partial::<P>(P::mzero(), bits, params, bits.len())
    }

    proof fn window_matches_capacity() {
        assert(Self::capacity_spec() <= N as nat);
    }

    fn setup(message: &str) -> (r: Self) {
        let generator = P::hash_to_group(message);
        let ghost g0: int = generator.model();
        let mut bases: Vec<P> = Vec::new();
        let mut base = generator;
        let mut i: usize = 0;
        while i < N
            invariant
                g0 == P::hash_str_model(message@),
                i <= N,
                bases@.len() == i,
                base.model() == double_iter::<P>(g0, i as nat),
                forall|j: int| 0 <= j < i ==> bases@[j].model() == double_iter::<P>(g0, j as nat),
            decreases N - i,
        {
            let next = base.double();
            bases.push(base);
            base = next;
            i = i + 1;
        }
        let r = PedersenCrh { bases };
        proof {
            assert forall|j: int| 0 <= j < N implies r.params_model()[j] == Self::params_of(
                message@,
            )[j] by {
                assert(r.params_model()[j] == r.bases@[j].model());
            }
            assert(r.params_model() =~= Self::params_of(message@));
        }
        r
    }

    fn dup(&self) -> (r: Self) {
        let mut bases: Vec<P> = Vec::new();
        let mut i: usize = 0;
        while i < self.bases.len()
            invariant
                i <= self.bases@.len(),
                bases@.len() == i,
                forall|j: int| 0 <= j < i ==> bases@[j].model() == self.bases@[j].model(),
            decreases self.bases@.len() - i,
        {
            bases.push(self.bases[i].dup());
            i = i + 1;
        }
        let r = PedersenCrh { bases };
        proof {
            assert forall|j: int| 0 <= j < r.params_model().len() implies r.params_model()[j]
                == self.params_model()[j] by {
                assert(r.params_model()[j] == r.bases@[j].model());
                assert(self.params_model()[j] == self.bases@[j].model());
            }
            assert(r.params_model() =~= self.params_model());
        }
        r
    }

    fn capacity() -> (r: usize) {
        let scalar_bits = P::scalar_len_exec();
        let cap: usize = if scalar_bits > 0 {
            scalar_bits - 1
        } else {
            0
        };
        if N <= cap {
            N
        } else {
            cap
        }
    }

    fn window() -> (r: (usize, usize)) {
        (1, Self::capacity())
    }

    fn hash_bits(&self, input: &[bool]) -> (r: Result<P, CrhError>) {
        let n = input.len();
        let cap = Self::capacity();
        if n > cap {
            Err(CrhError { len: n, capacity: cap })
        } else {
            let ghost params = self.params_model();
            let mut acc = P::zero();
            let mut i: usize = 0;
            while i < n
                invariant
                    n == input@.len(),
                    n <= self.bases@.len(),
                    i <= n,
                    params == self.params_model(),
                    acc.model() == blind_partial::<P>(P::mzero(), input@, params, i as nat),
                decreases n - i,
            {
                if input[i] {
                    acc = acc.add(&self.bases[i]);
                    proof {
                        assert(params[i as int] == self.bases@[i as int].model());
                    }
                }
                i = i + 1;
            }
            Ok(acc)
        }
    }
}

} // verus!
