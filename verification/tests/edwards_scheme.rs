use bhp_commitment::crh::BitCrh;
use bhp_commitment::edwards::{ed_eq_point, EdPoint, EdScalar, EdwardsCommitment};
use bhp_commitment::error::{CommitmentError, CrhError};
use bhp_commitment::group::CommitmentGroup;
use bhp_commitment::pedersen::PedersenCrh;

type Scheme = EdwardsCommitment<8>;

#[test]
fn ed_setup_is_deterministic() {
    let a = Scheme::setup("test");
    let b = Scheme::setup("test");
    let (crh_a, ladder_a) = a.parameters();
    let (crh_b, ladder_b) = b.parameters();
    assert_eq!(ladder_a.len(), 251);
    assert_eq!(ladder_a.len(), ladder_b.len());
    for (pa, pb) in ladder_a.iter().zip(ladder_b.iter()) {
        assert!(ed_eq_point(pa, pb));
    }
    assert_eq!(crh_a.bases.len(), 8);
    for (pa, pb) in crh_a.bases.iter().zip(crh_b.bases.iter()) {
        assert!(ed_eq_point(pa, pb));
    }
}

#[test]
fn ed_ladder_doubles() {
    let scheme = Scheme::setup("test");
    let (_, ladder) = scheme.parameters();
    for i in 1..16 {
        let doubled = ladder[i - 1].add(&ladder[i - 1]);
        assert!(ed_eq_point(&ladder[i], &doubled));
    }
    // The ladder base is not the identity: doubling moves it.
    assert!(!ed_eq_point(&ladder[0], &ladder[1]));
}

#[test]
fn ed_commit_is_deterministic() {
    let scheme = Scheme::setup("test");
    let input = [true, false, true, false, false, true, true, false];
    let one = scheme.commit(&input, &EdScalar::from_u64(42)).unwrap();
    let two = scheme.commit(&input, &EdScalar::from_u64(42)).unwrap();
    assert!(one.eq_base(&two));
}

#[test]
fn ed_strict_commit_passes_subgroup_check() {
    let scheme = Scheme::setup("test");
    let input = [true, false, true, false];
    let r = EdScalar::from_u64(42);
    let plain = scheme.commit(&input, &r).unwrap();
    let strict = scheme.commit_strict(&input, &r).unwrap();
    assert!(plain.eq_base(&strict));
}

#[test]
fn ed_hiding_on_distinct_randomness() {
    let scheme = Scheme::setup("test");
    let input = [true, false, true, false];
    let c1 = scheme.commit(&input, &EdScalar::from_u64(1)).unwrap();
    let c2 = scheme.commit(&input, &EdScalar::from_u64(2)).unwrap();
    let c3 = scheme.commit(&input, &EdScalar::from_u64(3)).unwrap();
    assert!(!c1.eq_base(&c2));
    assert!(!c1.eq_base(&c3));
    assert!(!c2.eq_base(&c3));
}

#[test]
fn ed_binding_on_sampled_pairs() {
    let scheme = Scheme::setup("test");
    let r = EdScalar::from_u64(7);
    let pairs: [([bool; 8], [bool; 8]); 3] = [
        (
            [true, false, true, false, true, false, true, false],
            [false, true, false, true, false, true, false, true],
        ),
        (
            [true, true, false, false, true, true, false, false],
            [true, true, true, false, true, true, false, false],
        ),
        (
            [false; 8],
            [true, false, false, false, false, false, false, false],
        ),
    ];
    for (a, b) in pairs.iter() {
        let ca = scheme.commit(a, &r).unwrap();
        let cb = scheme.commit(b, &r).unwrap();
        assert!(!ca.eq_base(&cb));
    }
}

#[test]
fn ed_oversized_input_is_rejected() {
    let scheme = Scheme::setup("test");
    let r = EdScalar::from_u64(3);
    let too_long = [true; 9];
    match scheme.commit(&too_long, &r) {
        Err(CommitmentError::Crh(e)) => {
            assert_eq!(e, CrhError { len: 9, capacity: 8 });
        },
        Err(other) => panic!("expected a capacity error, got {:?}", other),
        Ok(_) => panic!("expected a capacity error, got a value"),
    }
    assert!(scheme.commit(&[true; 8], &r).is_ok());
}

#[test]
fn ed_window_passes_through() {
    assert_eq!(Scheme::window(), (1, 8));
    assert_eq!(Scheme::window(), PedersenCrh::<EdPoint, 8>::window());
}

#[test]
fn ed_projection_is_empty() {
    let scheme = Scheme::setup("test");
    assert!(scheme.to_field_elements().unwrap().is_empty());
}

#[test]
fn ed_commit_matches_manual_composition() {
    // Randomness 3 is binary 11: the commitment is the hashed input plus
    // the first two ladder entries, projected to its x-coordinate.
    let scheme = Scheme::setup("test");
    let input = [true, false, true, false];
    let out = scheme.commit(&input, &EdScalar::from_u64(3)).unwrap();
    let (crh, ladder) = scheme.parameters();
    let hashed: EdPoint = crh.hash_bits(&input).unwrap();
    let combined = hashed.add(&ladder[0]).add(&ladder[1]);
    assert!(combined.to_x().eq_base(&out));
    // The blinding term matters: the bare hash projects differently.
    assert!(!hashed.to_x().eq_base(&out));
}

#[test]
fn ed_long_message_binding() {
    // Under a message of more than eight characters, the hash bases and the
    // random-base ladder must still come from different generators: setting
    // one input bit and clearing the randomness must not equal clearing the
    // input and setting one randomness bit.
    let scheme = Scheme::setup("a commitment domain well beyond eight characters");
    let one_input = scheme
        .commit(
            &[true, false, false, false, false, false, false, false],
            &EdScalar::from_u64(0),
        )
        .unwrap();
    let one_randomness = scheme
        .commit(
            &[false, false, false, false, false, false, false, false],
            &EdScalar::from_u64(1),
        )
        .unwrap();
    assert!(!one_input.eq_base(&one_randomness));
}

#[test]
fn ed_long_message_hiding() {
    // Under a long message the ladder base must be a real generator, not
    // the identity: doubling must move it, and distinct randomness must
    // move the commitment.
    let scheme = Scheme::setup("a commitment domain well beyond eight characters");
    let (_, ladder) = scheme.parameters();
    assert!(!ed_eq_point(&ladder[0], &ladder[1]));
    let input = [true, false, true, false];
    let c1 = scheme.commit(&input, &EdScalar::from_u64(1)).unwrap();
    let c2 = scheme.commit(&input, &EdScalar::from_u64(2)).unwrap();
    assert!(!c1.eq_base(&c2));
}

#[test]
fn ed_crh_and_ladder_generators_differ() {
    // The hash bases derive from the message, the ladder from the extended
    // message: the two generators must differ, for short and long messages.
    for message in ["test", "a commitment domain well beyond eight characters"] {
        let scheme = Scheme::setup(message);
        let (crh, ladder) = scheme.parameters();
        assert!(!ed_eq_point(&crh.bases[0], &ladder[0]));
    }
}

#[test]
fn ed_late_characters_affect_scheme() {
    // Two messages that agree on far more than their first eight characters
    // must still yield different generators: every character of the domain
    // string reaches the curve.
    let a = Scheme::setup("a commitment domain well beyond eight characters");
    let b = Scheme::setup("a commitment domain well beyond eight characterz");
    let (_, ladder_a) = a.parameters();
    let (_, ladder_b) = b.parameters();
    assert!(!ed_eq_point(&ladder_a[0], &ladder_b[0]));
}

#[test]
fn ed_domain_separation_changes_scheme() {
    let a = Scheme::setup("test");
    let b = Scheme::setup("another");
    let (_, ladder_a) = a.parameters();
    let (_, ladder_b) = b.parameters();
    assert!(!ed_eq_point(&ladder_a[0], &ladder_b[0]));
}
