//! End-to-end and boundary tests for the light-client verification core.

use lite::lite::types::{
    Height, RequesterImpl, SignedHeader, Time, TrustThreshold, TrustThresholdFraction,
    TrustedState, ValidatorSetImpl, CommitImpl, HeaderImpl, POWER_TABLE_SIZE,
};
use lite::lite::error::Kind;
use lite::lite::verify::{
    is_within_trust_period, validate, verify_bisection, verify_commit_full,
    verify_commit_trusting, verify_single,
};

/// A digest whose 32 bytes all hold `b`.
fn hash_of(b: u8) -> lite::hash::Hash {
    lite::hash::Hash::new(lite::hash::Algorithm::Sha256, &[b; 32]).unwrap()
}

fn vals(hash_byte: u8, total_power: u64) -> ValidatorSetImpl {
    ValidatorSetImpl::new(hash_of(hash_byte), total_power)
}

/// A commit for the header whose hash byte is `header_byte`, reporting the
/// given signed powers for up to two validator sets (named by hash byte).
fn commit(header_byte: u8, powers: &[(u8, u64)]) -> CommitImpl {
    let mut table: [Option<(lite::hash::Hash, u64)>; POWER_TABLE_SIZE] = [None; POWER_TABLE_SIZE];
    for (i, (set_byte, power)) in powers.iter().enumerate() {
        table[i] = Some((hash_of(*set_byte), *power));
    }
    CommitImpl { header_hash: hash_of(header_byte), power_table: table }
}

struct HeaderSpec {
    height: Height,
    bft_time: Time,
    validators_byte: u8,
    next_validators_byte: u8,
    hash_byte: u8,
}

fn header(s: &HeaderSpec) -> HeaderImpl {
    HeaderImpl {
        height: s.height,
        bft_time: s.bft_time,
        validators_hash: hash_of(s.validators_byte),
        next_validators_hash: hash_of(s.next_validators_byte),
        hash: hash_of(s.hash_byte),
    }
}

const X: u8 = 1;
const Y: u8 = 2;
const Z: u8 = 3;

/// The trusted state of the adjacent scenarios: header at height 10,
/// bft-time 1000, next validator set X with total power 100.
fn trusted_at_10() -> TrustedState<CommitImpl, HeaderImpl> {
    let trusted_header = header(&HeaderSpec {
        height: 10,
        bft_time: 1000,
        validators_byte: 9,
        next_validators_byte: X,
        hash_byte: 8,
    });
    let trusted_commit = commit(8, &[]);
    TrustedState::new(SignedHeader::new(trusted_commit, trusted_header), vals(X, 100))
}

/// The candidate of the adjacent happy path: height 11, bft-time 1001,
/// validator set X, signed power 100 of 100.
fn candidate_at_11() -> (SignedHeader<CommitImpl, HeaderImpl>, ValidatorSetImpl, ValidatorSetImpl) {
    let untrusted_header = header(&HeaderSpec {
        height: 11,
        bft_time: 1001,
        validators_byte: X,
        next_validators_byte: Y,
        hash_byte: Z,
    });
    let untrusted_commit = commit(Z, &[(X, 100)]);
    (SignedHeader::new(untrusted_commit, untrusted_header), vals(X, 100), vals(Y, 100))
}

fn third() -> TrustThresholdFraction {
    TrustThresholdFraction::new(1, 3).unwrap()
}

#[test]
fn threshold_accepts_exactly_the_valid_fractions() {
    // valid iff d > 0, n <= d and 3n >= d
    assert!(TrustThresholdFraction::new(1, 3).is_ok());
    assert!(TrustThresholdFraction::new(1, 1).is_ok());
    assert!(TrustThresholdFraction::new(2, 3).is_ok());
    assert!(TrustThresholdFraction::new(0, 0).is_err());
    assert!(TrustThresholdFraction::new(1, 0).is_err());
    assert!(TrustThresholdFraction::new(4, 3).is_err());
    assert!(TrustThresholdFraction::new(1, 4).is_err());
    assert_eq!(TrustThresholdFraction::new(1, 4), Err(Kind::InvalidTrustThreshold));
    // no overflow near the top of the range
    assert!(TrustThresholdFraction::new(u64::MAX, u64::MAX).is_ok());
    assert!(TrustThresholdFraction::new(u64::MAX / 3, u64::MAX).is_ok());
    assert!(TrustThresholdFraction::new(u64::MAX / 3 - 1, u64::MAX).is_err());
}

#[test]
fn is_enough_power_is_strict() {
    let t = third();
    assert!(!t.is_enough_power(100, 300));
    assert!(t.is_enough_power(101, 300));
    assert!(!t.is_enough_power(0, 0));
    // products that would overflow 64 bits are still exact
    assert!(t.is_enough_power(u64::MAX, u64::MAX));
    let half = TrustThresholdFraction::new(1, 2).unwrap();
    assert!(!half.is_enough_power(150, 300));
    assert!(half.is_enough_power(151, 300));
}

#[test]
fn threshold_helpers_follow_the_validity_predicate() {
    assert!(TrustThresholdFraction::threshold_ok(1, 3));
    assert!(!TrustThresholdFraction::threshold_ok(1, 4));
    assert!(!TrustThresholdFraction::threshold_ok(1, 0));
    assert!(TrustThresholdFraction::is_ok(&TrustThresholdFraction::new(1, 3)));
    assert!(!TrustThresholdFraction::is_ok(&TrustThresholdFraction::new(1, 4)));
}

#[test]
fn height_overflow_is_implementation_specific() {
    let mut trusted = trusted_at_10();
    trusted.last_header.header.height = u64::MAX;
    let (sh, uvals, next_vals) = candidate_at_11();
    let r = verify_single(trusted, sh, &uvals, &next_vals, third(), 3600, 1500);
    assert_eq!(r.unwrap_err(), Kind::ImplementationSpecific);
}

#[test]
fn default_threshold_is_one_third() {
    let t = TrustThresholdFraction::default();
    assert!(!t.is_enough_power(100, 300));
    assert!(t.is_enough_power(101, 300));
}

#[test]
fn hash_needs_exactly_32_bytes() {
    assert!(lite::hash::Hash::new(lite::hash::Algorithm::Sha256, &[0u8; 32]).is_ok());
    assert_eq!(
        lite::hash::Hash::new(lite::hash::Algorithm::Sha256, &[0u8; 31]).unwrap_err(),
        lite::error::Kind::Parse
    );
    assert_eq!(
        lite::hash::Hash::new(lite::hash::Algorithm::Sha256, &[]).unwrap_err(),
        lite::error::Kind::Parse
    );
}

#[test]
fn hash_equality_is_over_all_bytes() {
    let mut a = [5u8; 32];
    let b = [5u8; 32];
    let ha = lite::hash::Hash::new(lite::hash::Algorithm::Sha256, &a).unwrap();
    let hb = lite::hash::Hash::new(lite::hash::Algorithm::Sha256, &b).unwrap();
    assert!(ha == hb);
    // a difference in the first byte alone
    a[0] = 6;
    let hc = lite::hash::Hash::new(lite::hash::Algorithm::Sha256, &a).unwrap();
    assert!(ha != hc);
    // a difference in the last byte alone
    a[0] = 5;
    a[31] = 6;
    let hd = lite::hash::Hash::new(lite::hash::Algorithm::Sha256, &a).unwrap();
    assert!(ha != hd);
    assert!(hc != hd);
}

#[test]
fn trust_period_expires_at_the_boundary() {
    let h = header(&HeaderSpec {
        height: 10,
        bft_time: 1000,
        validators_byte: X,
        next_validators_byte: X,
        hash_byte: Z,
    });
    // now == bft_time + trusting_period: expired
    assert_eq!(
        is_within_trust_period(&h, 3600, 4600),
        Err(Kind::Expired { at: 4600, now: 4600 })
    );
    // one second earlier: fine
    assert_eq!(is_within_trust_period(&h, 3600, 4599), Ok(()));
    // header exactly at now: acceptable
    assert_eq!(is_within_trust_period(&h, 3600, 1000), Ok(()));
    // header in the future: rejected
    assert_eq!(is_within_trust_period(&h, 3600, 999), Err(Kind::DurationOutOfRange));
    // the end of the trusting period is not representable: rejected
    assert_eq!(is_within_trust_period(&h, u64::MAX, 2000), Err(Kind::DurationOutOfRange));
}

#[test]
fn trusting_check_is_strict_at_one_third() {
    let v = vals(X, 300);
    let exactly_third = commit(Z, &[(X, 100)]);
    assert_eq!(
        verify_commit_trusting(&v, &exactly_third, third()),
        Err(Kind::InsufficientVotingPower { total: 300, signed: 100 })
    );
    let just_above = commit(Z, &[(X, 101)]);
    assert_eq!(verify_commit_trusting(&v, &just_above, third()), Ok(()));
}

#[test]
fn full_check_is_strict_at_two_thirds() {
    let v = vals(X, 300);
    let exactly_two_thirds = commit(Z, &[(X, 200)]);
    assert_eq!(
        verify_commit_full(&v, &exactly_two_thirds),
        Err(Kind::InvalidCommit { total: 300, signed: 200 })
    );
    let just_above = commit(Z, &[(X, 201)]);
    assert_eq!(verify_commit_full(&v, &just_above), Ok(()));
}

#[test]
fn power_of_an_unknown_set_cannot_be_computed() {
    let v = vals(Y, 300);
    let c = commit(Z, &[(X, 200)]);
    assert_eq!(verify_commit_full(&v, &c), Err(Kind::ImplementationSpecific));
}

#[test]
fn validate_reports_the_first_mismatch() {
    let (sh, uvals, next_vals) = candidate_at_11();
    assert_eq!(validate(&sh, &uvals, &next_vals), Ok(()));
    assert_eq!(validate(&sh, &vals(Y, 100), &next_vals), Err(Kind::InvalidValidatorSet));
    assert_eq!(validate(&sh, &uvals, &vals(X, 100)), Err(Kind::InvalidNextValidatorSet));
    let wrong_commit = SignedHeader::new(commit(7, &[(X, 100)]), *sh.header());
    assert_eq!(validate(&wrong_commit, &uvals, &next_vals), Err(Kind::InvalidCommitValue));
}

#[test]
fn adjacent_happy_path() {
    let trusted = trusted_at_10();
    let (sh, uvals, next_vals) = candidate_at_11();
    let r = verify_single(trusted, sh, &uvals, &next_vals, third(), 3600, 1500);
    let new_state = r.unwrap();
    assert_eq!(new_state.last_header().header().height, 11);
    assert_eq!(new_state.last_header().header().bft_time, 1001);
    assert_eq!(*new_state.validators(), next_vals);
}

#[test]
fn adjacent_path_skips_the_trusting_check() {
    // the commit holds no entry for the trusted set (its hash byte is 77), so
    // any skipping check would fail; the adjacent path must not consult it
    let mut trusted = trusted_at_10();
    trusted.validators = vals(77, 300);
    let (sh, uvals, next_vals) = candidate_at_11();
    let r = verify_single(trusted, sh, &uvals, &next_vals, third(), 3600, 1500);
    assert_eq!(r.unwrap().last_header().header().height, 11);
}

#[test]
fn expired_trust_is_rejected() {
    let trusted = trusted_at_10();
    let (sh, uvals, next_vals) = candidate_at_11();
    let r = verify_single(trusted, sh, &uvals, &next_vals, third(), 3600, 4601);
    assert_eq!(r.unwrap_err(), Kind::Expired { at: 4600, now: 4601 });
}

#[test]
fn non_increasing_time_is_rejected() {
    let trusted = trusted_at_10();
    let (mut sh, uvals, next_vals) = candidate_at_11();
    sh.header.bft_time = 1000;
    let r = verify_single(trusted, sh, &uvals, &next_vals, third(), 3600, 1500);
    assert_eq!(r.unwrap_err(), Kind::NonIncreasingTime);
}

#[test]
fn non_increasing_height_is_rejected() {
    let trusted = trusted_at_10();
    let (mut sh, uvals, next_vals) = candidate_at_11();
    sh.header.height = 10;
    let r = verify_single(trusted, sh, &uvals, &next_vals, third(), 3600, 1500);
    assert_eq!(r.unwrap_err(), Kind::NonIncreasingHeight { got: 10, expected: 11 });
}

#[test]
fn invalid_next_validator_hash_on_adjacent_step() {
    // trusted committed to set X for height 11, but the candidate names set Y
    let trusted = trusted_at_10();
    let untrusted_header = header(&HeaderSpec {
        height: 11,
        bft_time: 1001,
        validators_byte: Y,
        next_validators_byte: Y,
        hash_byte: Z,
    });
    let sh = SignedHeader::new(commit(Z, &[(Y, 100)]), untrusted_header);
    let r = verify_single(trusted, sh, &vals(Y, 100), &vals(Y, 100), third(), 3600, 1500);
    assert_eq!(r.unwrap_err(), Kind::InvalidNextValidatorSet);
}

#[test]
fn verification_is_repeatable() {
    let r1 = verify_single(
        trusted_at_10(),
        candidate_at_11().0,
        &candidate_at_11().1,
        &candidate_at_11().2,
        third(),
        3600,
        1500,
    );
    let r2 = verify_single(
        trusted_at_10(),
        candidate_at_11().0,
        &candidate_at_11().1,
        &candidate_at_11().2,
        third(),
        3600,
        1500,
    );
    assert_eq!(r1, r2);
    let e1 = verify_single(
        trusted_at_10(),
        candidate_at_11().0,
        &candidate_at_11().1,
        &candidate_at_11().2,
        third(),
        3600,
        4601,
    );
    let e2 = verify_single(
        trusted_at_10(),
        candidate_at_11().0,
        &candidate_at_11().1,
        &candidate_at_11().2,
        third(),
        3600,
        4601,
    );
    assert_eq!(e1, e2);
}

/// The trusted state of the skipping scenarios: header at height 10,
/// bft-time 1000, trusted validator set V with total power 300.
const V: u8 = 11;
const W20: u8 = 12;
const X21: u8 = 13;
const W15: u8 = 14;
const X16: u8 = 15;

fn trusted_at_10_with_v() -> TrustedState<CommitImpl, HeaderImpl> {
    let trusted_header = header(&HeaderSpec {
        height: 10,
        bft_time: 1000,
        validators_byte: 9,
        next_validators_byte: V,
        hash_byte: 8,
    });
    TrustedState::new(SignedHeader::new(commit(8, &[]), trusted_header), vals(V, 300))
}

/// A candidate at height 20 whose commit holds `power_in_v` of the trusted
/// set V, and 250 of its own set (total 300) for the full check.
fn candidate_at_20(
    power_in_v: u64,
) -> (SignedHeader<CommitImpl, HeaderImpl>, ValidatorSetImpl, ValidatorSetImpl) {
    let untrusted_header = header(&HeaderSpec {
        height: 20,
        bft_time: 1100,
        validators_byte: W20,
        next_validators_byte: X21,
        hash_byte: 20,
    });
    let untrusted_commit = commit(20, &[(V, power_in_v), (W20, 250), (X16, 200)]);
    (SignedHeader::new(untrusted_commit, untrusted_header), vals(W20, 300), vals(X21, 300))
}

#[test]
fn skip_success() {
    let half = TrustThresholdFraction::new(1, 2).unwrap();
    let (sh, uvals, next_vals) = candidate_at_20(151);
    let r = verify_single(trusted_at_10_with_v(), sh, &uvals, &next_vals, half, 3600, 1500);
    assert_eq!(r.unwrap().last_header().header().height, 20);
}

#[test]
fn skip_at_exactly_the_threshold_is_insufficient() {
    let half = TrustThresholdFraction::new(1, 2).unwrap();
    let (sh, uvals, next_vals) = candidate_at_20(150);
    let r = verify_single(trusted_at_10_with_v(), sh, &uvals, &next_vals, half, 3600, 1500);
    assert_eq!(r.unwrap_err(), Kind::InsufficientVotingPower { total: 300, signed: 150 });
}

/// A requester serving consistent data for heights 15, 16, 20 and 21, where
/// the commit at height 20 holds `power_in_v` of the trusted set V.
fn requester_for_bisection(power_in_v: u64) -> RequesterImpl {
    let header_15 = header(&HeaderSpec {
        height: 15,
        bft_time: 1050,
        validators_byte: W15,
        next_validators_byte: X16,
        hash_byte: 15,
    });
    // skipping from 10 to 15 succeeds through V, and the full check holds in
    // the set W15 of height 15
    let commit_15 = commit(15, &[(V, 200), (W15, 250)]);
    let sh_15 = SignedHeader::new(commit_15, header_15);
    let (sh_20, _, _) = candidate_at_20(power_in_v);
    RequesterImpl {
        signed_headers: vec![sh_15, sh_20],
        validator_sets: vec![
            (15, vals(W15, 300)),
            (16, vals(X16, 300)),
            (20, vals(W20, 300)),
            (21, vals(X21, 300)),
        ],
    }
}

#[test]
fn bisection_succeeds_in_one_skip() {
    let half = TrustThresholdFraction::new(1, 2).unwrap();
    let req = requester_for_bisection(151);
    let states = verify_bisection(trusted_at_10_with_v(), 20, half, 3600, 1500, &req).unwrap();
    assert_eq!(states.len(), 1);
    assert_eq!(states[0].last_header().header().height, 20);
}

#[test]
fn bisection_splits_at_the_pivot() {
    // skipping straight to 20 holds only 50 of V: insufficient, so the
    // algorithm bisects at (10 + 20) / 2 = 15 and then skips from there
    let half = TrustThresholdFraction::new(1, 2).unwrap();
    let req = requester_for_bisection(50);
    let states = verify_bisection(trusted_at_10_with_v(), 20, half, 3600, 1500, &req).unwrap();
    let heights: Vec<u64> = states.iter().map(|s| s.last_header().header().height).collect();
    assert_eq!(heights, vec![15, 20]);
}

#[test]
fn bisection_degenerates_to_adjacent_steps() {
    // commits at the target hold too little of any previously trusted set,
    // so the algorithm falls back to stepping 10 -> 11 -> 12 -> 13
    let x11: u8 = 31;
    let x12: u8 = 32;
    let x13: u8 = 33;
    let x14: u8 = 34;
    let trusted_header = header(&HeaderSpec {
        height: 10,
        bft_time: 1000,
        validators_byte: 9,
        next_validators_byte: x11,
        hash_byte: 8,
    });
    let trusted = TrustedState::new(
        SignedHeader::new(commit(8, &[]), trusted_header),
        vals(x11, 100),
    );
    let sh_11 = SignedHeader::new(
        commit(61, &[(x11, 100)]),
        header(&HeaderSpec {
            height: 11,
            bft_time: 1001,
            validators_byte: x11,
            next_validators_byte: x12,
            hash_byte: 61,
        }),
    );
    let sh_12 = SignedHeader::new(
        commit(62, &[(x12, 100)]),
        header(&HeaderSpec {
            height: 12,
            bft_time: 1002,
            validators_byte: x12,
            next_validators_byte: x13,
            hash_byte: 62,
        }),
    );
    let sh_13 = SignedHeader::new(
        commit(63, &[(x11, 10), (x12, 10), (x13, 100)]),
        header(&HeaderSpec {
            height: 13,
            bft_time: 1003,
            validators_byte: x13,
            next_validators_byte: x14,
            hash_byte: 63,
        }),
    );
    let req = RequesterImpl {
        signed_headers: vec![sh_11, sh_12, sh_13],
        validator_sets: vec![
            (11, vals(x11, 100)),
            (12, vals(x12, 100)),
            (13, vals(x13, 100)),
            (14, vals(x14, 100)),
        ],
    };
    let states = verify_bisection(trusted, 13, third(), 3600, 1500, &req).unwrap();
    let heights: Vec<u64> = states.iter().map(|s| s.last_header().header().height).collect();
    assert_eq!(heights, vec![11, 12, 13]);
}

#[test]
fn bisection_rejects_expired_state() {
    let half = TrustThresholdFraction::new(1, 2).unwrap();
    let req = requester_for_bisection(151);
    let r = verify_bisection(trusted_at_10_with_v(), 20, half, 3600, 4601, &req);
    assert_eq!(r.unwrap_err(), Kind::Expired { at: 4600, now: 4601 });
}

#[test]
fn bisection_rejects_unrepresentable_next_height() {
    // the requester serves the greatest height, whose successor has no
    // validator set to ask for
    let sh_max = SignedHeader::new(
        commit(40, &[(V, 300)]),
        header(&HeaderSpec {
            height: u64::MAX,
            bft_time: 1200,
            validators_byte: 41,
            next_validators_byte: 42,
            hash_byte: 40,
        }),
    );
    let req = RequesterImpl {
        signed_headers: vec![sh_max],
        validator_sets: vec![(u64::MAX, vals(41, 300))],
    };
    let half = TrustThresholdFraction::new(1, 2).unwrap();
    let r = verify_bisection(trusted_at_10_with_v(), u64::MAX, half, 3600, 1500, &req);
    assert_eq!(r.unwrap_err(), Kind::ImplementationSpecific);
}

#[test]
fn bisection_propagates_failed_requests() {
    let half = TrustThresholdFraction::new(1, 2).unwrap();
    let req = requester_for_bisection(151);
    let r = verify_bisection(trusted_at_10_with_v(), 19, half, 3600, 1500, &req);
    assert_eq!(r.unwrap_err(), Kind::RequestFailed);
}
