use bhp_commitment::commitment::BHPCommitment;
use bhp_commitment::crh::BitCrh;
use bhp_commitment::error::{CommitmentError, CrhError};
use bhp_commitment::group::CommitmentGroup;
use bhp_commitment::toy::{ToyCrh, ToyPoint, ToyScalar};

type ToyScheme = BHPCommitment<ToyCrh>;

#[test]
fn setup_is_deterministic() {
    let a = ToyScheme::setup("another");
    let b = ToyScheme::setup("another");
    let (crh_a, ladder_a) = a.parameters();
    let (crh_b, ladder_b) = b.parameters();
    assert_eq!(crh_a.seed, crh_b.seed);
    assert_eq!(ladder_a.len(), ladder_b.len());
    for (pa, pb) in ladder_a.iter().zip(ladder_b.iter()) {
        assert_eq!(pa.v, pb.v);
    }
}

#[test]
fn ladder_matches_doubling() {
    // The string "another for random base" folds to 8 modulo 13, and the
    // ladder doubles it at each of the four scalar-bit positions.
    let scheme = ToyScheme::setup("another");
    let (_, ladder) = scheme.parameters();
    let vals: Vec<u64> = ladder.iter().map(|p| p.v).collect();
    assert_eq!(vals, vec![8, 3, 6, 12]);
    for i in 1..vals.len() {
        assert_eq!(vals[i], (vals[i - 1] * 2) % 13);
    }
    assert_eq!(vals.len(), 4);
}

#[test]
fn commit_is_deterministic() {
    let scheme = ToyScheme::setup("another");
    let input = [true, false, true, false];
    let r = ToyScalar { v: 3 };
    let one = scheme.commit(&input, &r).unwrap();
    let two = scheme.commit(&input, &r).unwrap();
    assert_eq!(one, two);
    assert_eq!(one, 10);
}

#[test]
fn randomness_bits_are_padded_and_truncated() {
    let scheme = ToyScheme::setup("another");
    let input = [true, false, true, false];
    // A value with a one-bit natural representation is padded with zeros.
    assert_eq!(scheme.commit(&input, &ToyScalar { v: 1 }).unwrap(), 7);
    // A value beyond the field order is reduced to its canonical form
    // before decomposition: 15 and 2 are the same scalar.
    assert_eq!(
        scheme.commit(&input, &ToyScalar { v: 15 }).unwrap(),
        scheme.commit(&input, &ToyScalar { v: 2 }).unwrap()
    );
    assert_eq!(scheme.commit(&input, &ToyScalar { v: 15 }).unwrap(), 2);
}

#[test]
fn oversized_input_is_rejected() {
    let scheme = ToyScheme::setup("another");
    let r = ToyScalar { v: 3 };
    let too_long = [true, false, true, false, true];
    match scheme.commit(&too_long, &r) {
        Err(CommitmentError::Crh(e)) => {
            assert_eq!(e, CrhError { len: 5, capacity: 4 });
        },
        other => panic!("expected a capacity error, got {:?}", other),
    }
    // An input at exactly the capacity is accepted.
    assert!(scheme.commit(&[true, true, true, true], &r).is_ok());
    // The empty input is accepted too.
    assert!(scheme.commit(&[], &r).is_ok());
}

#[test]
fn projection_is_empty() {
    let scheme = ToyScheme::setup("another");
    let fields = scheme.to_field_elements().unwrap();
    assert!(fields.is_empty());
}

#[test]
fn window_passes_through() {
    assert_eq!(ToyScheme::window(), (2, 2));
    assert_eq!(ToyCrh::window(), ToyScheme::window());
    let (size, count) = ToyScheme::window();
    assert_eq!(size * count, ToyCrh::capacity());
}

#[test]
fn binding_on_sampled_pairs() {
    let scheme = ToyScheme::setup("another");
    let r = ToyScalar { v: 3 };
    let a = scheme.commit(&[true, false, true, false], &r).unwrap();
    let b = scheme.commit(&[false, true, false, true], &r).unwrap();
    let c = scheme.commit(&[true, true, false, false], &r).unwrap();
    assert_ne!(a, b);
    assert_ne!(a, c);
    assert_ne!(b, c);
    assert_eq!((a, b, c), (10, 5, 12));
}

#[test]
fn hiding_on_distinct_randomness() {
    let scheme = ToyScheme::setup("another");
    let input = [true, false, true, false];
    let c0 = scheme.commit(&input, &ToyScalar { v: 0 }).unwrap();
    let c1 = scheme.commit(&input, &ToyScalar { v: 1 }).unwrap();
    let c2 = scheme.commit(&input, &ToyScalar { v: 2 }).unwrap();
    let c5 = scheme.commit(&input, &ToyScalar { v: 5 }).unwrap();
    assert_eq!((c0, c1, c2, c5), (12, 7, 2, 0));
    assert_ne!(c1, c2);
    assert_ne!(c1, c5);
    assert_ne!(c2, c5);
}

#[test]
fn strict_commit_agrees_with_commit() {
    let scheme = ToyScheme::setup("another");
    let input = [true, false, true, false];
    let r = ToyScalar { v: 3 };
    assert_eq!(
        scheme.commit(&input, &r).unwrap(),
        scheme.commit_strict(&input, &r).unwrap()
    );
}

#[test]
fn end_to_end_reference() {
    // The scenario: capacity four, prime order thirteen, message "test".
    // "test" folds to seed 10; hashing [T, F, T, F] from it gives 1; the
    // ladder's base ("test for random base" folds to 0) is degenerate, so
    // the blinding for randomness 3 adds 0 twice: the output is 1.
    let scheme = ToyScheme::setup("test");
    let input = [true, false, true, false];
    let out = scheme.commit(&input, &ToyScalar { v: 3 }).unwrap();
    assert_eq!(out, 1);

    // The same value composed by hand through the public pieces:
    // hash_bits(input) + ladder[0] + ladder[1], since 3 is binary 11.
    let (crh, ladder) = scheme.parameters();
    let hashed: ToyPoint = crh.hash_bits(&input).unwrap();
    let combined = hashed.add(&ladder[0]).add(&ladder[1]);
    assert_eq!(combined.to_x(), out);
}

#[test]
fn end_to_end_nondegenerate_ladder() {
    // As the reference scenario, but under a message whose ladder base is
    // not the identity, so the blinding term actually moves the output.
    let scheme = ToyScheme::setup("another");
    let input = [true, false, true, false];
    let out = scheme.commit(&input, &ToyScalar { v: 3 }).unwrap();
    assert_eq!(out, 10);
    let (crh, ladder) = scheme.parameters();
    let hashed: ToyPoint = crh.hash_bits(&input).unwrap();
    let combined = hashed.add(&ladder[0]).add(&ladder[1]);
    assert_eq!(combined.to_x(), out);
    // Without the blinding the output would be the bare hash.
    assert_eq!(hashed.to_x(), 12);
}
