//! Main verification functions that can be used to implement a light client.

use vstd::prelude::*;
use crate::lite::error::{Error, Kind};
use crate::lite::types::{
    Commit, Duration, Header, Height, Requester, SignedHeader, Time, TrustThreshold, TrustedState,
    ValidatorSetImpl,
};

verus! {

/// What the trust-period check returns: `Expired` once the trusting period
/// is over, `DurationOutOfRange` when the header lies in the future or the
/// end of its trusting period is not representable, and success otherwise.
pub open spec fn trust_period_result(header_time: Time, trusting_period: Duration, now: Time) -> Result<(), Error> {
    if header_time + trusting_period <= now {
        Err(Kind::Expired { at: (header_time + trusting_period) as u64, now })
    } else if header_time > now {
        Err(Kind::DurationOutOfRange)
    } else if header_time + trusting_period > u64::MAX {
        Err(Kind::DurationOutOfRange)
    } else {
        Ok(())
    }
}

/// Returns an error if the header has expired according to the given
/// trusting_period and current time. If so, the verifier must be reset
/// subjectively.
pub fn is_within_trust_period<H>(last_header: &H, trusting_period: Duration, now: Time) -> (r:
    Result<(), Error>)
    where
        H: Header,
    ensures
        r == trust_period_result(last_header.bft_time_spec(), trusting_period, now),
{
    let header_time: Time = last_header.bft_time();
    match header_time.checked_add(trusting_period) {
        None => Err(Kind::DurationOutOfRange),
        Some(expires_at) => {
            // Ensure expires_at > now.
            if expires_at <= now {
                Err(Kind::Expired { at: expires_at, now })
            } else if header_time > now {
                // Also make sure the header is not after now.
                Err(Kind::DurationOutOfRange)
            } else {
                Ok(())
            }
        },
    }
}

/// A header timestamped exactly `now` is still within its trusting period:
/// expiry requires the whole period to have passed, and `DurationOutOfRange`
/// a header from the strict future. Stated for the inputs whose period end
/// is representable; past that bound the check reports `DurationOutOfRange`.
pub proof fn lemma_header_at_now_is_acceptable(
    header_time: Time,
    trusting_period: Duration,
    now: Time,
)
    requires
        header_time == now,
        trusting_period > 0,
        header_time + trusting_period <= u64::MAX,
    ensures
        trust_period_result(header_time, trusting_period, now) is Ok,
{
}

/// What the cross-hash validation returns: the first mismatch among the
/// validator-set hash, the next-validator-set hash and the commit's header
/// hash, or else whatever the commit's own structural validation reports.
pub open spec fn validate_result<C, H>(
    signed_header: SignedHeader<C, H>,
    vals: ValidatorSetImpl,
    next_vals: ValidatorSetImpl,
) -> Result<(), Error> where C: Commit, H: Header {
    if signed_header.header.validators_hash_spec() != vals.hash_spec() {
        Err(Kind::InvalidValidatorSet)
    } else if signed_header.header.next_validators_hash_spec() != next_vals.hash_spec() {
        Err(Kind::InvalidNextValidatorSet)
    } else if signed_header.header.hash_spec() != signed_header.commit.header_hash_spec() {
        Err(Kind::InvalidCommitValue)
    } else {
        signed_header.commit.validate_spec(vals)
    }
}

/// Validate the validators, next validators, against the signed header.
pub fn validate<C, H>(
    signed_header: &SignedHeader<C, H>,
    vals: &ValidatorSetImpl,
    next_vals: &ValidatorSetImpl,
) -> (r: Result<(), Error>) where C: Commit, H: Header
    ensures
        r == validate_result(*signed_header, *vals, *next_vals),
        r matches Err(e) ==> !(e is InsufficientVotingPower),
{
    let header = signed_header.header();
    let commit = signed_header.commit();

    // ensure the header validator hashes match the given validators
    if header.validators_hash() != vals.hash() {
        return Err(Kind::InvalidValidatorSet);
    }
    if header.next_validators_hash() != next_vals.hash() {
        return Err(Kind::InvalidNextValidatorSet);
    }
    // ensure the header matches the commit
    if header.hash() != commit.header_hash() {
        return Err(Kind::InvalidCommitValue);
    }
    // additional implementation specific validation
    commit.validate(vals)
}

/// What the full +2/3 check returns: success exactly when strictly more than
/// two thirds of the set's total power signed, an `InvalidCommit` otherwise,
/// and the commit's own error when the signed power cannot be computed.
pub open spec fn commit_full_result<C>(vals: ValidatorSetImpl, commit: C) -> Result<(), Error>
    where C: Commit
{
    match commit.voting_power_in_spec(vals) {
        Err(e) => Err(e),
        Ok(signed_power) => if 3 * signed_power > 2 * vals.total_power_spec() {
            Ok(())
        } else {
            Err(Kind::InvalidCommit { total: vals.total_power_spec(), signed: signed_power })
        },
    }
}

/// Verify that +2/3 of the correct validator set signed this commit.
/// NOTE: These validators are expected to be the correct validators for the
/// commit, but since we're using voting_power_in, we can't actually detect if
/// there are votes from validators not in the set.
pub fn verify_commit_full<C>(vals: &ValidatorSetImpl, commit: &C) -> (r: Result<(), Error>)
    where C: Commit
    ensures
        r == commit_full_result(*vals, *commit),
        r matches Err(e) ==> !(e is InsufficientVotingPower),
{
    let total_power = vals.total_power();
    let signed_power = match commit.voting_power_in(vals) {
        Ok(p) => p,
        Err(e) => {
            return Err(e);
        },
    };

    // check the signers account for +2/3 of the voting power
    if 3 * (signed_power as u128) <= 2 * (total_power as u128) {
        return Err(Kind::InvalidCommit { total: total_power, signed: signed_power });
    }
    Ok(())
}

/// What the trusting-level check returns: success exactly when the trust
/// threshold holds the signed power for enough, an `InsufficientVotingPower`
/// otherwise, and the commit's own error when the signed power cannot be
/// computed.
pub open spec fn commit_trusting_result<C, L>(
    validators: ValidatorSetImpl,
    commit: C,
    trust_level: L,
) -> Result<(), Error> where C: Commit, L: TrustThreshold {
    match commit.voting_power_in_spec(validators) {
        Err(e) => Err(e),
        Ok(signed_power) => if trust_level.is_enough_power_spec(
            signed_power,
            validators.total_power_spec(),
        ) {
            Ok(())
        } else {
            Err(
                Kind::InsufficientVotingPower {
                    total: validators.total_power_spec(),
                    signed: signed_power,
                },
            )
        },
    }
}

/// Verify that +1/3 (or more, as the trust level requires) of the given
/// validator set signed this commit.
/// NOTE the given validators do not necessarily correspond to the validator
/// set for this commit, but there may be some intersection.
pub fn verify_commit_trusting<C, L>(
    validators: &ValidatorSetImpl,
    commit: &C,
    trust_level: L,
) -> (r: Result<(), Error>) where C: Commit, L: TrustThreshold
    ensures
        r == commit_trusting_result(*validators, *commit, trust_level),
{
    let total_power = validators.total_power();
    let signed_power = match commit.voting_power_in(validators) {
        Ok(p) => p,
        Err(e) => {
            return Err(e);
        },
    };

    // check the signers account for +1/3 of the voting power (or more if the
    // trust_level requires so)
    if !trust_level.is_enough_power(signed_power, total_power) {
        return Err(Kind::InsufficientVotingPower { total: total_power, signed: signed_power });
    }
    Ok(())
}

/// What one verification step returns, given a trusted state and the
/// candidate's signed header, validator set and next validator set: the
/// cross-hash validation, time and height monotonicity, the adjacent or
/// skipping validator check, and the full +2/3 check, in that order, each
/// fatal on failure.
pub open spec fn single_step_result<C, H, L>(
    trusted_state: TrustedState<C, H>,
    untrusted_sh: SignedHeader<C, H>,
    untrusted_vals: ValidatorSetImpl,
    untrusted_next_vals: ValidatorSetImpl,
    trust_threshold: L,
) -> Result<(), Error> where C: Commit, H: Header, L: TrustThreshold {
    let trusted_header = trusted_state.last_header.header;
    let untrusted_header = untrusted_sh.header;
    let validated = validate_result(untrusted_sh, untrusted_vals, untrusted_next_vals);
    if validated is Err {
        validated
    } else if untrusted_header.bft_time_spec() <= trusted_header.bft_time_spec() {
        Err(Kind::NonIncreasingTime)
    } else if trusted_header.height_spec() == u64::MAX {
        Err(Kind::ImplementationSpecific)
    } else if untrusted_header.height_spec() < trusted_header.height_spec() + 1 {
        Err(
            Kind::NonIncreasingHeight {
                got: untrusted_header.height_spec(),
                expected: (trusted_header.height_spec() + 1) as u64,
            },
        )
    } else if untrusted_header.height_spec() == trusted_header.height_spec() + 1 {
        if trusted_header.next_validators_hash_spec() != untrusted_header.validators_hash_spec() {
            Err(Kind::InvalidNextValidatorSet)
        } else {
            commit_full_result(untrusted_vals, untrusted_sh.commit)
        }
    } else {
        let trusting = commit_trusting_result(
            trusted_state.validators,
            untrusted_sh.commit,
            trust_threshold,
        );
        if trusting is Err {
            trusting
        } else {
            commit_full_result(untrusted_vals, untrusted_sh.commit)
        }
    }
}

/// Verify a single untrusted header against a trusted state.
/// Includes all validation and signature verification.
/// It does not check for expiry: if the trusted state is not expired and this
/// returns Ok, the untrusted signed header and next validator set can be
/// considered trusted.
///
/// An `InsufficientVotingPower` result can only arise from the skipping
/// check, so it implies that the candidate is more than one height above the
/// trusted header; the bisection algorithm relies on that.
fn verify_single_inner<C, H, L>(
    trusted_state: &TrustedState<C, H>,
    untrusted_sh: &SignedHeader<C, H>,
    untrusted_vals: &ValidatorSetImpl,
    untrusted_next_vals: &ValidatorSetImpl,
    trust_threshold: L,
) -> (r: Result<(), Error>) where C: Commit, H: Header, L: TrustThreshold
    ensures
        r == single_step_result(
            *trusted_state,
            *untrusted_sh,
            *untrusted_vals,
            *untrusted_next_vals,
            trust_threshold,
        ),
        (r matches Err(e) && e is InsufficientVotingPower) ==> untrusted_sh.header.height_spec()
            > trusted_state.last_header.header.height_spec() + 1,
{
    // validate the untrusted header against its commit, vals, and next_vals
    let untrusted_header = untrusted_sh.header();
    let untrusted_commit = untrusted_sh.commit();

    match validate(untrusted_sh, untrusted_vals, untrusted_next_vals) {
        Ok(_) => (),
        Err(e) => {
            return Err(e);
        },
    }

    // ensure the new height is higher.
    // if its +1, ensure the vals are correct.
    // if its >+1, ensure we can skip to it
    let trusted_header = trusted_state.last_header().header();
    let trusted_height = trusted_header.height();
    let untrusted_height = untrusted_header.height();

    // ensure the untrusted_header.bft_time() > trusted_header.bft_time()
    if untrusted_header.bft_time() <= trusted_header.bft_time() {
        return Err(Kind::NonIncreasingTime);
    }
    let inc_trusted_height = match trusted_height.checked_add(1) {
        Some(inc_trusted_height) => inc_trusted_height,
        None => {
            return Err(Kind::ImplementationSpecific);
        },
    };
    if untrusted_height < inc_trusted_height {
        return Err(
            Kind::NonIncreasingHeight { got: untrusted_height, expected: trusted_height + 1 },
        );
    } else if untrusted_height == inc_trusted_height {
        let trusted_vals_hash = trusted_header.next_validators_hash();
        let untrusted_vals_hash = untrusted_header.validators_hash();
        if trusted_vals_hash != untrusted_vals_hash {
            return Err(Kind::InvalidNextValidatorSet);
        }
    } else {
        let trusted_vals = trusted_state.validators();
        match verify_commit_trusting(trusted_vals, untrusted_commit, trust_threshold) {
            Ok(_) => (),
            Err(e) => {
                return Err(e);
            },
        }
    }

    // All validation passed successfully. Verify the validators correctly
    // committed the block.
    verify_commit_full(untrusted_vals, untrusted_sh.commit())
}

/// The height of the last trusted header of a state.
pub open spec fn state_height<C, H>(s: TrustedState<C, H>) -> Height where C: Commit, H: Header {
    s.last_header.header.height_spec()
}

/// The bft-time of the last trusted header of a state.
pub open spec fn state_time<C, H>(s: TrustedState<C, H>) -> Time where C: Commit, H: Header {
    s.last_header.header.bft_time_spec()
}

/// An accepted step moves strictly up in height (by at least one) and
/// strictly forward in bft-time.
pub proof fn lemma_single_step_monotonic<C, H, L>(
    trusted_state: TrustedState<C, H>,
    untrusted_sh: SignedHeader<C, H>,
    untrusted_vals: ValidatorSetImpl,
    untrusted_next_vals: ValidatorSetImpl,
    trust_threshold: L,
) where C: Commit, H: Header, L: TrustThreshold
    requires
        single_step_result(
            trusted_state,
            untrusted_sh,
            untrusted_vals,
            untrusted_next_vals,
            trust_threshold,
        ) is Ok,
    ensures
        untrusted_sh.header.height_spec() >= state_height(trusted_state) + 1,
        untrusted_sh.header.bft_time_spec() > state_time(trusted_state),
        validate_result(untrusted_sh, untrusted_vals, untrusted_next_vals) is Ok,
{
}

/// One verification step accepts the candidate exactly when the cross-hash
/// validation holds, bft-time strictly increases, the height strictly
/// increases and stays representable, an adjacent candidate names the
/// validator set the trusted header committed to, a non-adjacent candidate
/// passes the trust-threshold check against the trusted validators, and the
/// candidate's own validator set signed with more than two thirds of its
/// power.
pub proof fn lemma_single_step_accepted_iff<C, H, L>(
    trusted_state: TrustedState<C, H>,
    untrusted_sh: SignedHeader<C, H>,
    untrusted_vals: ValidatorSetImpl,
    untrusted_next_vals: ValidatorSetImpl,
    trust_threshold: L,
) where C: Commit, H: Header, L: TrustThreshold
    ensures
        single_step_result(
            trusted_state,
            untrusted_sh,
            untrusted_vals,
            untrusted_next_vals,
            trust_threshold,
        ) is Ok <==> {
            let trusted_header = trusted_state.last_header.header;
            let untrusted_header = untrusted_sh.header;
            &&& validate_result(untrusted_sh, untrusted_vals, untrusted_next_vals) is Ok
            &&& untrusted_header.bft_time_spec() > trusted_header.bft_time_spec()
            &&& trusted_header.height_spec() < u64::MAX
            &&& untrusted_header.height_spec() >= trusted_header.height_spec() + 1
            &&& (untrusted_header.height_spec() == trusted_header.height_spec() + 1
                ==> trusted_header.next_validators_hash_spec()
                == untrusted_header.validators_hash_spec())
            &&& (untrusted_header.height_spec() > trusted_header.height_spec() + 1
                ==> commit_trusting_result(
                trusted_state.validators,
                untrusted_sh.commit,
                trust_threshold,
            ) is Ok)
            &&& commit_full_result(untrusted_vals, untrusted_sh.commit) is Ok
        },
{
}

/// An adjacent candidate is judged without any skipping check: the verdict
/// of one verification step does not depend on the trusted validator set at
/// all when the candidate sits exactly one above the trusted header.
pub proof fn lemma_adjacent_step_ignores_trusted_validators<C, H, L>(
    trusted_state: TrustedState<C, H>,
    other_validators: ValidatorSetImpl,
    untrusted_sh: SignedHeader<C, H>,
    untrusted_vals: ValidatorSetImpl,
    untrusted_next_vals: ValidatorSetImpl,
    trust_threshold: L,
) where C: Commit, H: Header, L: TrustThreshold
    requires
        untrusted_sh.header.height_spec() == state_height(trusted_state) + 1,
    ensures
        single_step_result(
            trusted_state,
            untrusted_sh,
            untrusted_vals,
            untrusted_next_vals,
            trust_threshold,
        ) == single_step_result(
            (TrustedState {
                last_header: trusted_state.last_header,
                validators: other_validators,
            }),
            untrusted_sh,
            untrusted_vals,
            untrusted_next_vals,
            trust_threshold,
        ),
{
}

/// An adjacent candidate naming a validator set other than the one the
/// trusted header committed to is rejected as `InvalidNextValidatorSet`,
/// whatever its commit says.
pub proof fn lemma_adjacent_step_rejects_wrong_validators<C, H, L>(
    trusted_state: TrustedState<C, H>,
    untrusted_sh: SignedHeader<C, H>,
    untrusted_vals: ValidatorSetImpl,
    untrusted_next_vals: ValidatorSetImpl,
    trust_threshold: L,
) where C: Commit, H: Header, L: TrustThreshold
    requires
        validate_result(untrusted_sh, untrusted_vals, untrusted_next_vals) is Ok,
        untrusted_sh.header.bft_time_spec() > state_time(trusted_state),
        untrusted_sh.header.height_spec() == state_height(trusted_state) + 1,
        trusted_state.last_header.header.next_validators_hash_spec()
            != untrusted_sh.header.validators_hash_spec(),
    ensures
        single_step_result(
            trusted_state,
            untrusted_sh,
            untrusted_vals,
            untrusted_next_vals,
            trust_threshold,
        ) == Err::<(), Error>(Kind::InvalidNextValidatorSet),
{
}

/// What [`verify_single`] returns: the trust-period check on the trusted
/// state, then one verification step, then the new trusted state made of the
/// candidate header and its next validator set.
pub open spec fn verify_single_result<C, H, L>(
    trusted_state: TrustedState<C, H>,
    untrusted_sh: SignedHeader<C, H>,
    untrusted_vals: ValidatorSetImpl,
    untrusted_next_vals: ValidatorSetImpl,
    trust_threshold: L,
    trusting_period: Duration,
    now: Time,
) -> Result<TrustedState<C, H>, Error> where C: Commit, H: Header, L: TrustThreshold {
    match trust_period_result(state_time(trusted_state), trusting_period, now) {
        Err(e) => Err(e),
        Ok(_) => match single_step_result(
            trusted_state,
            untrusted_sh,
            untrusted_vals,
            untrusted_next_vals,
            trust_threshold,
        ) {
            Err(e) => Err(e),
            Ok(_) => Ok(
                (TrustedState { last_header: untrusted_sh, validators: untrusted_next_vals }),
            ),
        },
    }
}

/// Verify a single untrusted header against a trusted state.
/// Ensures our last trusted header hasn't expired yet, and that
/// the untrusted header can be verified using only our latest trusted
/// state from the store.
///
/// On success, the caller is responsible for updating the store with the
/// returned header to be trusted.
///
/// The result is a function of the arguments alone, so verification is
/// repeatable; and a new trusted state never moves back: its height exceeds
/// the old one by at least one and its bft-time is strictly newer.
pub fn verify_single<C, H, L>(
    trusted_state: TrustedState<C, H>,
    untrusted_sh: SignedHeader<C, H>,
    untrusted_vals: &ValidatorSetImpl,
    untrusted_next_vals: &ValidatorSetImpl,
    trust_threshold: L,
    trusting_period: Duration,
    now: Time,
) -> (r: Result<TrustedState<C, H>, Error>) where C: Commit, H: Header, L: TrustThreshold
    ensures
        r == verify_single_result(
            trusted_state,
            untrusted_sh,
            *untrusted_vals,
            *untrusted_next_vals,
            trust_threshold,
            trusting_period,
            now,
        ),
        r matches Ok(ts) ==> ts.last_header == untrusted_sh && ts.validators
            == *untrusted_next_vals,
        r matches Ok(ts) ==> state_height(ts) >= state_height(trusted_state) + 1 && state_time(ts)
            > state_time(trusted_state),
{
    // Fetch the latest state and ensure it hasn't expired.
    match is_within_trust_period(trusted_state.last_header().header(), trusting_period, now) {
        Ok(_) => (),
        Err(e) => {
            return Err(e);
        },
    }

    match verify_single_inner(
        &trusted_state,
        &untrusted_sh,
        untrusted_vals,
        untrusted_next_vals,
        trust_threshold,
    ) {
        Ok(_) => (),
        Err(e) => {
            return Err(e);
        },
    }

    proof {
        lemma_single_step_monotonic(
            trusted_state,
            untrusted_sh,
            *untrusted_vals,
            *untrusted_next_vals,
            trust_threshold,
        );
    }
    // The untrusted header is now trusted;
    // return to the caller so they can update the store.
    Ok(TrustedState::new(untrusted_sh, *untrusted_next_vals))
}

/// The state a link of a verified chain starts from: the initial trusted
/// state for the first link, the previous chain element after that.
pub open spec fn chain_prev<C, H>(
    first: TrustedState<C, H>,
    states: Seq<TrustedState<C, H>>,
    i: int,
) -> TrustedState<C, H> where C: Commit, H: Header {
    if i == 0 {
        first
    } else {
        states[i - 1]
    }
}

/// Whether one verification step accepts `next.last_header` from `prev`, for
/// some validator set (namely the one that was fetched for that height).
///
/// Opaque so that reasoning about whole chains does not unfold the
/// single-step verifier; [`lemma_single_step_exists_monotonic`] exposes what
/// chain reasoning needs of one link.
#[verifier::opaque]
pub open spec fn single_step_exists<C, H, L>(
    prev: TrustedState<C, H>,
    next: TrustedState<C, H>,
    trust_threshold: L,
) -> bool where C: Commit, H: Header, L: TrustThreshold {
    exists|vals: ValidatorSetImpl|
        single_step_result(prev, next.last_header, vals, next.validators, trust_threshold) is Ok
}

/// Whether `states` is a chain of states that the single-step verifier
/// accepts one after the other, starting from `first`, all under the same
/// trust threshold.
pub open spec fn trusted_chain<C, H, L>(
    first: TrustedState<C, H>,
    states: Seq<TrustedState<C, H>>,
    trust_threshold: L,
) -> bool where C: Commit, H: Header, L: TrustThreshold {
    forall|i: int|
        0 <= i < states.len() ==> single_step_exists(
            chain_prev(first, states, i),
            #[trigger] states[i],
            trust_threshold,
        )
}

/// A link of a chain moves strictly up in height and forward in bft-time.
pub proof fn lemma_single_step_exists_monotonic<C, H, L>(
    prev: TrustedState<C, H>,
    next: TrustedState<C, H>,
    trust_threshold: L,
) where C: Commit, H: Header, L: TrustThreshold
    requires
        single_step_exists(prev, next, trust_threshold),
    ensures
        state_height(next) >= state_height(prev) + 1,
        state_time(next) > state_time(prev),
{
    reveal(single_step_exists);
    let vals = choose|vals: ValidatorSetImpl|
        single_step_result(prev, next.last_header, vals, next.validators, trust_threshold) is Ok;
    lemma_single_step_monotonic(prev, next.last_header, vals, next.validators, trust_threshold);
}

/// Heights and bft-times strictly increase along a verified chain: every
/// state of the chain lies strictly above the state it grew from, and the
/// chain is sorted strictly by height and by time.
#[verifier::spinoff_prover]
#[verifier::rlimit(100)]
pub proof fn lemma_trusted_chain_monotonic<C, H, L>(
    first: TrustedState<C, H>,
    states: Seq<TrustedState<C, H>>,
    trust_threshold: L,
) where C: Commit, H: Header, L: TrustThreshold
    requires
        trusted_chain(first, states, trust_threshold),
    ensures
        forall|i: int|
            0 <= i < states.len() ==> state_height(#[trigger] states[i]) > state_height(first)
                && state_time(states[i]) > state_time(first),
        forall|i: int, j: int|
            0 <= i < j < states.len() ==> state_height(#[trigger] states[i]) < state_height(
                #[trigger] states[j],
            ) && state_time(states[i]) < state_time(states[j]),
    decreases states.len(),
{
    if states.len() > 0 {
        let prefix = states.drop_last();
        assert forall|i: int| 0 <= i < prefix.len() implies single_step_exists(
            chain_prev(first, prefix, i),
            #[trigger] prefix[i],
            trust_threshold,
        ) by {
            assert(prefix[i] == states[i]);
            if i > 0 {
                assert(prefix[i - 1] == states[i - 1]);
            }
            assert(single_step_exists(chain_prev(first, states, i), states[i], trust_threshold));
        }
        lemma_trusted_chain_monotonic(first, prefix, trust_threshold);
        let n = states.len() - 1;
        assert(single_step_exists(chain_prev(first, states, n), states[n], trust_threshold));
        lemma_single_step_exists_monotonic(
            chain_prev(first, states, n),
            states[n],
            trust_threshold,
        );
        assert forall|i: int|
            0 <= i < states.len() implies state_height(#[trigger] states[i]) > state_height(first)
            && state_time(states[i]) > state_time(first) by {
            if i < n {
                assert(states[i] == prefix[i]);
            } else if n > 0 {
                assert(chain_prev(first, states, n) == states[n - 1]);
                assert(states[n - 1] == prefix[n - 1]);
                assert(state_height(prefix[n - 1]) > state_height(first));
            } else {
                assert(chain_prev(first, states, n) == first);
            }
        }
        assert forall|i: int, j: int|
            0 <= i < j < states.len() implies state_height(#[trigger] states[i]) < state_height(
            #[trigger] states[j],
        ) && state_time(states[i]) < state_time(states[j]) by {
            assert(states[i] == prefix[i]);
            if j < n {
                assert(states[j] == prefix[j]);
                assert(state_height(prefix[i]) < state_height(prefix[j]));
            } else {
                assert(chain_prev(first, states, n) == states[n - 1]);
                if i < n - 1 {
                    assert(states[n - 1] == prefix[n - 1]);
                    assert(state_height(prefix[i]) < state_height(prefix[n - 1]));
                }
            }
        }
    }
}

/// A chain extended by a chain that grows from its last state is a chain.
pub proof fn lemma_trusted_chain_append<C, H, L>(
    first: TrustedState<C, H>,
    left: Seq<TrustedState<C, H>>,
    right: Seq<TrustedState<C, H>>,
    trust_threshold: L,
) where C: Commit, H: Header, L: TrustThreshold
    requires
        trusted_chain(first, left, trust_threshold),
        left.len() > 0,
        trusted_chain(left.last(), right, trust_threshold),
    ensures
        trusted_chain(first, left + right, trust_threshold),
{
    let both = left + right;
    assert forall|i: int| 0 <= i < both.len() implies single_step_exists(
        chain_prev(first, both, i),
        #[trigger] both[i],
        trust_threshold,
    ) by {
        if i < left.len() {
            assert(both[i] == left[i]);
            if i > 0 {
                assert(both[i - 1] == left[i - 1]);
            }
            assert(single_step_exists(chain_prev(first, left, i), left[i], trust_threshold));
        } else {
            let j = i - left.len();
            assert(both[i] == right[j]);
            if j == 0 {
                assert(both[i - 1] == left.last());
            } else {
                assert(both[i - 1] == right[j - 1]);
            }
            assert(single_step_exists(
                chain_prev(left.last(), right, j),
                right[j],
                trust_threshold,
            ));
        }
    }
}

/// The midpoint of two heights lies strictly between them once they are at
/// least two apart.
proof fn lemma_pivot_bounds(trusted_h: u64, untrusted_h: u64)
    by (nonlinear_arith)
    requires
        trusted_h + 2 <= untrusted_h,
        trusted_h + untrusted_h <= u64::MAX,
    ensures
        trusted_h + 1 <= (trusted_h + untrusted_h) / 2 < untrusted_h,
{
}

/// What the bisection verifier returns, as a function of the trusted state,
/// the target height, the trust threshold and the requester: the newly
/// trusted states in ascending height order, or the error it stops on.
///
/// It mirrors the algorithm: fetch the signed header, the validator set and
/// the next validator set for the target (a failing fetch is returned
/// unchanged, an unrepresentable next height is `ImplementationSpecific`);
/// attempt one verification step (success yields exactly the one new state;
/// any failure but `InsufficientVotingPower` is returned unchanged); and
/// otherwise bisect at the midpoint, left half first, concatenating the two
/// chains. An overflowing pivot sum is `ImplementationSpecific`.
///
/// The two branches guarded on heights cannot arise from implementations
/// that honor the [`Requester`] and [`Commit`] contracts (a served header
/// carries the requested height, and only the verifier's own trust-threshold
/// check reports `InsufficientVotingPower`, so the target then lies more
/// than one above the trusted height); they only make the recursion
/// well-founded on every input.
pub open spec fn bisection_result<C, H, L, R>(
    trusted_state: TrustedState<C, H>,
    untrusted_height: Height,
    trust_threshold: L,
    req: R,
) -> Result<Seq<TrustedState<C, H>>, Error> where
    C: Commit,
    H: Header,
    L: TrustThreshold,
    R: Requester<C, H>,

    decreases untrusted_height - state_height(trusted_state),
{
    match req.signed_header_spec(untrusted_height) {
        Err(e) => Err(e),
        Ok(untrusted_sh) => match req.validator_set_spec(untrusted_height) {
            Err(e) => Err(e),
            Ok(untrusted_vals) => if untrusted_height == u64::MAX {
                Err(Kind::ImplementationSpecific)
            } else {
                match req.validator_set_spec((untrusted_height + 1) as u64) {
                    Err(e) => Err(e),
                    Ok(untrusted_next_vals) => match single_step_result(
                        trusted_state,
                        untrusted_sh,
                        untrusted_vals,
                        untrusted_next_vals,
                        trust_threshold,
                    ) {
                        Ok(_) => Ok(
                            seq![
                                (TrustedState {
                                    last_header: untrusted_sh,
                                    validators: untrusted_next_vals,
                                }),
                            ],
                        ),
                        Err(e) => if !(e is InsufficientVotingPower) {
                            Err(e)
                        } else if state_height(trusted_state) + untrusted_height > u64::MAX {
                            Err(Kind::ImplementationSpecific)
                        } else if !(untrusted_sh.header.height_spec() == untrusted_height
                            && untrusted_height > state_height(trusted_state) + 1) {
                            Err(Kind::ImplementationSpecific)
                        } else {
                            let pivot_height = (
                            (state_height(trusted_state) + untrusted_height) / 2) as u64;
                            match bisection_result(
                                trusted_state,
                                pivot_height,
                                trust_threshold,
                                req,
                            ) {
                                Err(e2) => Err(e2),
                                Ok(left_states) => if !(left_states.len() > 0
                                    && state_height(trusted_state) < state_height(
                                    left_states.last(),
                                ) && state_height(left_states.last()) < untrusted_height) {
                                    Err(Kind::ImplementationSpecific)
                                } else {
                                    match bisection_result(
                                        left_states.last(),
                                        untrusted_height,
                                        trust_threshold,
                                        req,
                                    ) {
                                        Err(e2) => Err(e2),
                                        Ok(right_states) => Ok(left_states + right_states),
                                    }
                                },
                            }
                        },
                    },
                }
            },
        },
    }
}

// inner recursive function for verify_bisection; see that function's docs.
// A cache is passed in to memoize all new states to be trusted. The cache is
// append-only: whatever it held on entry it still holds, in place, on every
// outcome. The result, and on success the appended states, are exactly what
// `bisection_result` gives for the arguments; the appended states form a
// chain that the single-step verifier accepts, and the last of them, at the
// requested height, is also returned for convenience so it can be used for
// the other half of the recursion.
fn verify_bisection_inner<C, H, L, R>(
    trusted_state: &TrustedState<C, H>,
    untrusted_height: Height,
    trust_threshold: L,
    req: &R,
    cache: &mut Vec<TrustedState<C, H>>,
) -> (r: Result<TrustedState<C, H>, Error>) where
    C: Commit + Copy,
    H: Header + Copy,
    L: TrustThreshold,
    R: Requester<C, H>,

    ensures
        old(cache)@.len() <= final(cache)@.len(),
        final(cache)@.subrange(0, old(cache)@.len() as int) == old(cache)@,
        r matches Err(e) ==> {
            &&& bisection_result(*trusted_state, untrusted_height, trust_threshold, *req)
                == Err::<Seq<TrustedState<C, H>>, Error>(e)
            &&& !(e is InsufficientVotingPower)
        },
        r matches Ok(ts) ==> {
            &&& bisection_result(
                *trusted_state,
                untrusted_height,
                trust_threshold,
                *req,
            ) matches Ok(states)
            &&& final(cache)@ == old(cache)@ + states
            &&& states.len() >= 1
            &&& states.last() == ts
            &&& final(cache)@.last() == ts
            &&& state_height(ts) == untrusted_height
            &&& trusted_chain(*trusted_state, states, trust_threshold)
        },
    decreases untrusted_height - state_height(*trusted_state),
{
    proof {
        lemma_seq_subrange_whole(old(cache)@);
    }
    // fetch the header and vals for the new height
    let untrusted_sh = match req.signed_header(untrusted_height) {
        Ok(sh) => sh,
        Err(e) => {
            return Err(e);
        },
    };
    let untrusted_vals = match req.validator_set(untrusted_height) {
        Ok(vals) => vals,
        Err(e) => {
            return Err(e);
        },
    };
    let inc_untrusted_height = match untrusted_height.checked_add(1) {
        Some(inc_untrusted_height) => inc_untrusted_height,
        None => {
            return Err(Kind::ImplementationSpecific);
        },
    };
    let untrusted_next_vals = match req.validator_set(inc_untrusted_height) {
        Ok(next_vals) => next_vals,
        Err(e) => {
            return Err(e);
        },
    };

    // check if we can skip to this height and if it verifies.
    match verify_single_inner(
        trusted_state,
        &untrusted_sh,
        &untrusted_vals,
        &untrusted_next_vals,
        trust_threshold,
    ) {
        Ok(_) => {
            // Successfully verified!
            // memoize the new to be trusted state and return.
            let ts = TrustedState::new(untrusted_sh, untrusted_next_vals);
            cache.push(ts);
            proof {
                reveal(single_step_exists);
                assert(single_step_exists(*trusted_state, ts, trust_threshold));
                assert(trusted_chain(*trusted_state, seq![ts], trust_threshold));
                assert(cache@ =~= old(cache)@ + seq![ts]);
                assert(cache@.subrange(0, old(cache)@.len() as int) =~= old(cache)@);
            }
            return Ok(ts);
        },
        Err(e) => {
            match e {
                // Insufficient voting power to update.
                // Engage bisection, below.
                Kind::InsufficientVotingPower { .. } => (),
                // If something went wrong, return the error.
                real_err => {
                    return Err(real_err);
                },
            }
        },
    }
    // Get the pivot height for bisection. The failed skipping check above
    // established that untrusted_height is more than one above the trusted
    // height, so the pivot lies strictly between the two.
    let trusted_h = trusted_state.last_header().header().height();
    let sum = match trusted_h.checked_add(untrusted_height) {
        Some(sum) => sum,
        None => {
            return Err(Kind::ImplementationSpecific);
        },
    };
    let pivot_height = sum / 2;
    proof {
        lemma_pivot_bounds(trusted_h, untrusted_height);
    }

    let ghost len_at_entry = cache@.len() as int;
    // Recursive call to bisect to the pivot height.
    // When this completes, we will either return an error or
    // have extended the cache up to and including the pivot height.
    let trusted_left = match verify_bisection_inner(
        trusted_state,
        pivot_height,
        trust_threshold,
        req,
        cache,
    ) {
        Ok(ts) => ts,
        Err(e) => {
            return Err(e);
        },
    };
    let ghost left_states = choose|states: Seq<TrustedState<C, H>>|
        bisection_result(*trusted_state, pivot_height, trust_threshold, *req) == Ok::<
            Seq<TrustedState<C, H>>,
            Error,
        >(states);
    let ghost len_after_left = cache@.len() as int;

    // Recursive call to update to the original untrusted_height.
    match verify_bisection_inner(&trusted_left, untrusted_height, trust_threshold, req, cache) {
        Ok(ts) => {
            proof {
                let right_states = cache@.skip(len_after_left);
                assert(cache@.skip(len_after_left) =~= right_states);
                assert(cache@ =~= old(cache)@ + (left_states + right_states));
                lemma_trusted_chain_append(
                    *trusted_state,
                    left_states,
                    right_states,
                    trust_threshold,
                );
                assert((left_states + right_states).last() == right_states.last());
                assert(cache@.subrange(0, len_at_entry) =~= cache@.subrange(
                    0,
                    len_after_left,
                ).subrange(0, len_at_entry));
            }
            Ok(ts)
        },
        Err(e) => {
            proof {
                assert(cache@.subrange(0, len_at_entry) =~= cache@.subrange(
                    0,
                    len_after_left,
                ).subrange(0, len_at_entry));
            }
            Err(e)
        },
    }
}

/// Attempt to "bisect" from the passed-in trusted state (with header of
/// height h) to the given untrusted height (h+n) by requesting the necessary
/// data (signed headers and validators from heights in (h, h+n]).
///
/// On success, callers are responsible for storing the returned states
/// which can now be trusted: they form a chain that the single-step verifier
/// accepts link by link under the given trust threshold, their heights and
/// bft-times strictly increase ([`lemma_trusted_chain_monotonic`]), and the
/// last of them sits at the requested height.
///
/// The outcome is fixed exactly: a failing trust-period check is returned
/// unchanged, and otherwise result and states are what [`bisection_result`]
/// gives for the arguments. In particular a failing request, a single-step
/// failure other than `InsufficientVotingPower`, and overflow of the next
/// height or of the pivot sum are returned as the algorithm meets them,
/// while `InsufficientVotingPower` only ever starts a bisection and is never
/// surfaced to the caller.
///
/// This function is recursive: it uses a bisection algorithm to request data
/// for intermediate heights as necessary, and it checks expiry of the trusted
/// state exactly once, at entry; the trusting period must be long enough to
/// cover the whole run.
pub fn verify_bisection<C, H, L, R>(
    trusted_state: TrustedState<C, H>,
    untrusted_height: Height,
    trust_threshold: L,
    trusting_period: Duration,
    now: Time,
    req: &R,
) -> (r: Result<Vec<TrustedState<C, H>>, Error>) where
    C: Commit + Copy,
    H: Header + Copy,
    L: TrustThreshold,
    R: Requester<C, H>,

    ensures
        trust_period_result(state_time(trusted_state), trusting_period, now) matches Err(e)
            ==> r == Err::<Vec<TrustedState<C, H>>, Error>(e),
        trust_period_result(state_time(trusted_state), trusting_period, now) is Ok ==> {
            &&& (bisection_result(trusted_state, untrusted_height, trust_threshold, *req)
                matches Ok(states) ==> r matches Ok(out) && out@ == states)
            &&& (bisection_result(trusted_state, untrusted_height, trust_threshold, *req)
                matches Err(e) ==> r == Err::<Vec<TrustedState<C, H>>, Error>(e))
        },
        r matches Err(e) ==> !(e is InsufficientVotingPower),
        r matches Ok(states) ==> {
            &&& trust_period_result(state_time(trusted_state), trusting_period, now) is Ok
            &&& states@.len() >= 1
            &&& trusted_chain(trusted_state, states@, trust_threshold)
            &&& state_height(states@.last()) == untrusted_height
        },
{
    // Ensure the latest state hasn't expired.
    // Note we only check for expiry once, since the time is passed in and we
    // do not access a clock internally; the trusting period must be long
    // enough to incorporate the expected run time of the whole bisection.
    match is_within_trust_period(trusted_state.last_header().header(), trusting_period, now) {
        Ok(_) => (),
        Err(e) => {
            return Err(e);
        },
    }

    // this is only used to memoize intermediate trusted states:
    let mut cache: Vec<TrustedState<C, H>> = Vec::new();
    // inner recursive function which assumes the trusting_period check is
    // already done.
    match verify_bisection_inner(&trusted_state, untrusted_height, trust_threshold, req, &mut cache)
    {
        Ok(_ts) => {
            proof {
                let states = choose|states: Seq<TrustedState<C, H>>|
                    bisection_result(trusted_state, untrusted_height, trust_threshold, *req)
                        == Ok::<Seq<TrustedState<C, H>>, Error>(states);
                assert(cache@ =~= states);
            }
            // return all intermediate trusted states up to untrusted_height
            Ok(cache)
        },
        Err(e) => Err(e),
    }
}

/// The full sequence is recovered by `subrange` up to its own length.
proof fn lemma_seq_subrange_whole<A>(s: Seq<A>)
    ensures
        s.subrange(0, s.len() as int) == s,
{
    assert(s.subrange(0, s.len() as int) =~= s);
}

} // verus!
