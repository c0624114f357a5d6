use vstd::prelude::*;
use vstd::string::StringExecFns;

use crate::crh::BitCrh;
use crate::error::{CommitmentError, CrhError};
use crate::group::{blind_partial, double_iter, CommitmentGroup};

verus! {

/// The group a hash's outputs land in.
pub type GroupOf<H> = <H as BitCrh>::Point;

/// The scalar field of that group.
pub type ScalarOf<H> = <<H as BitCrh>::Point as CommitmentGroup>::Scalar;

/// The base field of that group.
pub type BaseOf<H> = <<H as BitCrh>::Point as CommitmentGroup>::Base;

/// The domain-separation string from which the random-base ladder's first
/// entry is derived: the setup message extended by a fixed suffix.
pub open spec fn random_base_domain(message: Seq<char>) -> Seq<char> {
    message + " for random base"@
}

/// A commitment scheme composing a collision-resistant hash over a
/// prime-order group with a Pedersen-style blinding term: the input bits are
/// hashed to a group element, a randomness-controlled sum from a precomputed
/// ladder of doublings blinds it, and the affine x-coordinate of the combined
/// element is the output.
pub struct BHPCommitment<H: BitCrh> {
    pub bhp_crh: H,
    pub random_base: Vec<GroupOf<H>>,
}

impl<H: BitCrh> BHPCommitment<H> {
    /// The models of the random-base ladder entries.
    pub open spec fn ladder(&self) -> Seq<int> {
        self.random_base@.map(|j: int, p: GroupOf<H>| p.model())
    }

    /// The model of this scheme's hash parameters.
    pub open spec fn crh_params(&self) -> Seq<int> {
        self.bhp_crh.params_model()
    }

    /// The hash parameters are well formed and the ladder has exactly one
    /// entry per scalar-field bit.
    pub open spec fn wf(&self) -> bool {
        &&& self.bhp_crh.wf()
        &&& self.random_base@.len() == <GroupOf<H> as CommitmentGroup>::scalar_len()
    }

    /// This scheme is the one `setup(message)` builds: its hash parameters
    /// are derived from `message`, and its ladder starts at the element the
    /// extended message hashes to and doubles at each step.
    pub open spec fn is_setup_for(&self, message: Seq<char>) -> bool {
        &&& self.crh_params() == H::params_of(message)
        &&& self.wf()
        &&& forall|j: int|
            0 <= j < self.ladder().len() ==> self.ladder()[j] == double_iter::<GroupOf<H>>(
                <GroupOf<H> as CommitmentGroup>::hash_str_model(random_base_domain(message)),
                j as nat,
            )
    }

    /// The model of the combined group element `commit` projects to its
    /// output: the hash of the input, blinded by the ladder entries selected
    /// by the randomness bits.
    pub open spec fn commit_model(&self, input: Seq<bool>, rbits: Seq<bool>) -> int {
        blind_partial::<GroupOf<H>>(
            H::hash_model(self.crh_params(), input),
            rbits,
            self.ladder(),
            <GroupOf<H> as CommitmentGroup>::scalar_len(),
        )
    }

    /// Build a scheme for a domain-separation message: derive the hash
    /// parameters from the message, hash the extended message to a group
    /// element, and precompute the ladder of its iterated doublings, one
    /// entry per scalar-field bit.
    pub fn setup(message: &str) -> (r: Self)
        ensures
            r.is_setup_for(message@),
    {
        let bhp_crh = H::setup(message);

        let domain = String::from_str(message).concat(" for random base");
        let generator = <GroupOf<H> as CommitmentGroup>::hash_to_group(domain.as_str());
        let ghost g0: int = generator.model();

        let num_scalar_bits = <GroupOf<H> as CommitmentGroup>::scalar_len_exec();
        let mut random_base: Vec<GroupOf<H>> = Vec::new();
        let mut base = generator;
        let mut i: usize = 0;
        while i < num_scalar_bits
            invariant
                g0 == <GroupOf<H> as CommitmentGroup>::hash_str_model(
                    random_base_domain(message@),
                ),
                num_scalar_bits as nat == <GroupOf<H> as CommitmentGroup>::scalar_len(),
                i <= num_scalar_bits,
                random_base@.len() == i,
                base.model() == double_iter::<GroupOf<H>>(g0, i as nat),
                forall|j: int|
                    0 <= j < i ==> random_base@[j].model() == double_iter::<GroupOf<H>>(
                        g0,
                        j as nat,
                    ),
            decreases num_scalar_bits - i,
        {
            let next = base.double();
            random_base.push(base);
            base = next;
            i = i + 1;
        }

        let r = BHPCommitment { bhp_crh, random_base };
        proof {
            assert forall|j: int| 0 <= j < r.ladder().len() implies r.ladder()[j]
                == double_iter::<GroupOf<H>>(
                <GroupOf<H> as CommitmentGroup>::hash_str_model(random_base_domain(message@)),
                j as nat,
            ) by {
                assert(r.ladder()[j] == r.random_base@[j].model());
            }
        }
        r
    }

    /// Hash the input and fold in the blinding term: the combined group
    /// element whose x-coordinate the commit operations project out.
    fn hash_and_blind(&self, input: &[bool], randomness: &ScalarOf<H>) -> (r: Result<
        GroupOf<H>,
        CrhError,
    >)
        requires
            self.wf(),
        ensures
            r is Ok <==> input@.len() <= H::capacity_spec(),
            r matches Ok(p) ==> p.model() == self.commit_model(
                input@,
                <GroupOf<H> as CommitmentGroup>::scalar_model(randomness),
            ),
            r matches Err(e) ==> e == (CrhError {
                len: input@.len() as usize,
                capacity: H::capacity_spec() as usize,
            }),
    {
        let hashed = self.bhp_crh.hash_bits(input);
        match hashed {
            Err(e) => Err(e),
            Ok(mut output) => {
                let ghost h0: int = output.model();
                let ghost rbits: Seq<bool> = <GroupOf<H> as CommitmentGroup>::scalar_model(
                    randomness,
                );
                let scalar_bits = <GroupOf<H> as CommitmentGroup>::scalar_bits(randomness);
                let n = <GroupOf<H> as CommitmentGroup>::scalar_len_exec();
                let mut i: usize = 0;
                while i < n
                    invariant
                        n as nat == <GroupOf<H> as CommitmentGroup>::scalar_len(),
                        scalar_bits@ == rbits,
                        scalar_bits@.len() == n,
                        self.random_base@.len() == n,
                        i <= n,
                        output.model() == blind_partial::<GroupOf<H>>(
                            h0,
                            rbits,
                            self.ladder(),
                            i as nat,
                        ),
                    decreases n - i,
                {
                    if scalar_bits[i] {
                        output = output.add(&self.random_base[i]);
                        proof {
                            assert(self.ladder()[i as int] == self.random_base@[i as int].model());
                        }
                    }
                    i = i + 1;
                }
                Ok(output)
            },
        }
    }

    /// Commit to an input bit string under a scalar-field randomness: hash
    /// the input, add the ladder entry for every set randomness bit, and
    /// return the affine x-coordinate of the combined element. Fails exactly
    /// when the input exceeds the hash's capacity, passing the hash's
    /// rejection through unchanged.
    pub fn commit(&self, input: &[bool], randomness: &ScalarOf<H>) -> (r: Result<
        BaseOf<H>,
        CommitmentError,
    >)
        requires
            self.wf(),
        ensures
            r is Ok <==> input@.len() <= H::capacity_spec(),
            r matches Ok(out) ==> <GroupOf<H> as CommitmentGroup>::base_model(&out)
                == <GroupOf<H> as CommitmentGroup>::xcoord(
                self.commit_model(
                    input@,
                    <GroupOf<H> as CommitmentGroup>::scalar_model(randomness),
                ),
            ),
            r matches Err(e) ==> e == CommitmentError::Crh(
                (CrhError {
                    len: input@.len() as usize,
                    capacity: H::capacity_spec() as usize,
                }),
            ),
    {
        match self.hash_and_blind(input, randomness) {
            Err(e) => Err(CommitmentError::Crh(e)),
            Ok(combined) => Ok(combined.to_x()),
        }
    }

    /// Commit with the strict-mode verification enabled: as `commit`, but
    /// the combined element is additionally checked for membership in the
    /// prime-order subgroup before projection. A violation — possible only
    /// through a broken group backend — is surfaced as its own error rather
    /// than a value.
    pub fn commit_strict(&self, input: &[bool], randomness: &ScalarOf<H>) -> (r: Result<
        BaseOf<H>,
        CommitmentError,
    >)
        requires
            self.wf(),
        ensures
            r is Ok <==> (input@.len() <= H::capacity_spec()
                && <GroupOf<H> as CommitmentGroup>::msub(
                self.commit_model(
                    input@,
                    <GroupOf<H> as CommitmentGroup>::scalar_model(randomness),
                ),
            )),
            r matches Ok(out) ==> <GroupOf<H> as CommitmentGroup>::base_model(&out)
                == <GroupOf<H> as CommitmentGroup>::xcoord(
                self.commit_model(
                    input@,
                    <GroupOf<H> as CommitmentGroup>::scalar_model(randomness),
                ),
            ),
            input@.len() > H::capacity_spec() ==> r == Result::<
                BaseOf<H>,
                CommitmentError,
            >::Err(CommitmentError::Crh(
                (CrhError {
                    len: input@.len() as usize,
                    capacity: H::capacity_spec() as usize,
                }),
            )),
            input@.len() <= H::capacity_spec() && !<GroupOf<H> as CommitmentGroup>::msub(
                self.commit_model(
                    input@,
                    <GroupOf<H> as CommitmentGroup>::scalar_model(randomness),
                ),
            ) ==> r == Result::<BaseOf<H>, CommitmentError>::Err(
                CommitmentError::SubgroupViolation,
            ),
    {
        match self.hash_and_blind(input, randomness) {
            Err(e) => Err(CommitmentError::Crh(e)),
            Ok(combined) => {
                if combined.in_subgroup() {
                    Ok(combined.to_x())
                } else {
                    Err(CommitmentError::SubgroupViolation)
                }
            },
        }
    }

    /// A snapshot copy of the scheme's parameters: the hash parameters and
    /// the random-base ladder.
    pub fn parameters(&self) -> (r: (H, Vec<GroupOf<H>>))
        ensures
            r.0.params_model() == self.crh_params(),
            r.1@.len() == self.random_base@.len(),
            forall|j: int| 0 <= j < r.1@.len() ==> r.1@[j].model() == self.ladder()[j],
    {
        let crh = self.bhp_crh.dup();
        let mut ladder: Vec<GroupOf<H>> = Vec::new();
        let mut i: usize = 0;
        while i < self.random_base.len()
            invariant
                i <= self.random_base@.len(),
                ladder@.len() == i,
                forall|j: int| 0 <= j < i ==> ladder@[j].model() == self.random_base@[j].model(),
            decreases self.random_base@.len() - i,
        {
            ladder.push(self.random_base[i].dup());
            i = i + 1;
        }
        proof {
            assert forall|j: int| 0 <= j < ladder@.len() implies ladder@[j].model()
                == self.ladder()[j] by {
                assert(self.ladder()[j] == self.random_base@[j].model());
            }
        }
        (crh, ladder)
    }

    /// The window shape of the underlying hash, passed through unchanged.
    pub fn window() -> (r: (usize, usize))
        ensures
            r == H::window_spec(),
    {
        H::window()
    }

    /// This scheme contributes no public-input field elements of its own:
    /// the projection is always the empty sequence, and never fails.
    pub fn to_field_elements(&self) -> (r: Result<Vec<BaseOf<H>>, CommitmentError>)
        ensures
            r is Ok,
            r matches Ok(v) ==> v@.len() == 0,
    {
        Ok(Vec::new())
    }
}

/// Determinism of setup: two schemes built for the same message agree, at the
/// level of models, in their hash parameters and in every ladder entry.
pub proof fn lemma_setup_deterministic<H: BitCrh>(
    a: &BHPCommitment<H>,
    b: &BHPCommitment<H>,
    message: Seq<char>,
)
    requires
        a.is_setup_for(message),
        b.is_setup_for(message),
    ensures
        a.crh_params() == b.crh_params(),
        a.ladder() =~= b.ladder(),
{
}

/// Ladder correctness: a scheme built for `message` has one ladder entry per
/// scalar-field bit, its first entry is the element the extended message
/// hashes to, and each later entry is the double of its predecessor.
pub proof fn lemma_ladder_correct<H: BitCrh>(s: &BHPCommitment<H>, message: Seq<char>)
    requires
        s.is_setup_for(message),
    ensures
        s.ladder().len() == <GroupOf<H> as CommitmentGroup>::scalar_len(),
        s.ladder().len() > 0 ==> s.ladder()[0] == <GroupOf<H> as CommitmentGroup>::hash_str_model(
            random_base_domain(message),
        ),
        forall|j: int|
            1 <= j < s.ladder().len() ==> #[trigger] s.ladder()[j] == <GroupOf<
                H,
            > as CommitmentGroup>::madd(s.ladder()[j - 1], s.ladder()[j - 1]),
{
    let g0 = <GroupOf<H> as CommitmentGroup>::hash_str_model(random_base_domain(message));
    assert forall|j: int| 1 <= j < s.ladder().len() implies #[trigger] s.ladder()[j] == <GroupOf<
        H,
    > as CommitmentGroup>::madd(s.ladder()[j - 1], s.ladder()[j - 1]) by {
        assert(s.ladder()[j] == double_iter::<GroupOf<H>>(g0, j as nat));
        assert(s.ladder()[j - 1] == double_iter::<GroupOf<H>>(g0, (j - 1) as nat));
        assert(double_iter::<GroupOf<H>>(g0, j as nat) == <GroupOf<H> as CommitmentGroup>::madd(
            double_iter::<GroupOf<H>>(g0, (j - 1) as nat),
            double_iter::<GroupOf<H>>(g0, (j - 1) as nat),
        ));
    }
}

/// Determinism of commit: the combined element's model is a function of the
/// scheme's model, the input bits and the randomness bits alone, so two
/// schemes that agree on their models commit identically.
pub proof fn lemma_commit_deterministic<H: BitCrh>(
    a: &BHPCommitment<H>,
    b: &BHPCommitment<H>,
    input: Seq<bool>,
    rbits: Seq<bool>,
)
    requires
        a.crh_params() == b.crh_params(),
        a.ladder() == b.ladder(),
    ensures
        a.commit_model(input, rbits) == b.commit_model(input, rbits),
{
}

/// Setup determinism carries over to commitments: two schemes built for the
/// same message commit identically, on every input and every randomness.
pub proof fn lemma_setup_commit_agree<H: BitCrh>(
    a: &BHPCommitment<H>,
    b: &BHPCommitment<H>,
    message: Seq<char>,
    input: Seq<bool>,
    rbits: Seq<bool>,
)
    requires
        a.is_setup_for(message),
        b.is_setup_for(message),
    ensures
        a.commit_model(input, rbits) == b.commit_model(input, rbits),
{
    lemma_setup_deterministic(a, b, message);
    lemma_commit_deterministic(a, b, input, rbits);
}

} // verus!
