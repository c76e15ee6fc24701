//! All traits that are necessary and need to be implemented to use the main
//! verification logic in [`super::verify`] for a light client, together
//! with simple in-memory implementations of them.

use vstd::prelude::*;

use crate::lite::error::{Error, Kind};

verus! {

/// The height of a block header.
pub type Height = u64;

/// A point in (bft- or wall-clock) time, in seconds.
pub type Time = u64;

/// A span of time, in seconds.
pub type Duration = u64;

/// Header contains meta data about the block -
/// the height, the time, the hash of the validator set
/// that should sign this header, and the hash of the validator
/// set that should sign the next header.
///
/// Each accessor comes with a specification twin so that the verifier's
/// contracts can speak about the values an implementation reports.
pub trait Header: Sized {
    /// The header's height, at the specification level.
    spec fn height_spec(&self) -> Height;

    /// The header's notion of (bft-)time, at the specification level.
    spec fn bft_time_spec(&self) -> Time;

    /// The digest bytes of the hash of the validator set that signs this
    /// header, at the specification level.
    spec fn validators_hash_spec(&self) -> Seq<u8>;

    /// The digest bytes of the hash of the validator set that signs the next
    /// header, at the specification level.
    spec fn next_validators_hash_spec(&self) -> Seq<u8>;

    /// The digest bytes of the hash of the header itself, at the
    /// specification level.
    spec fn hash_spec(&self) -> Seq<u8>;

    fn height(&self) -> (h: Height)
        ensures
            h == self.height_spec(),
    ;

    fn bft_time(&self) -> (t: Time)
        ensures
            t == self.bft_time_spec(),
    ;

    fn validators_hash(&self) -> (h: crate::hash::Hash)
        ensures
            h@ == self.validators_hash_spec(),
    ;

    fn next_validators_hash(&self) -> (h: crate::hash::Hash)
        ensures
            h@ == self.next_validators_hash_spec(),
    ;

    /// Hash of the header (ie. the hash of the block).
    fn hash(&self) -> (h: crate::hash::Hash)
        ensures
            h@ == self.hash_spec(),
    ;
}

/// ValidatorSet is the full validator set.
/// It exposes its hash and its total power; the verification core never
/// enumerates validators.
#[derive(Clone, Copy, Debug, PartialEq)]
pub struct ValidatorSetImpl {
    hash: crate::hash::Hash,
    total_power: u64,
}

impl ValidatorSetImpl {
    /// The digest bytes of the set's hash, at the specification level.
    pub closed spec fn hash_spec(&self) -> Seq<u8> {
        self.hash@
    }

    /// The set's total voting power, at the specification level.
    pub closed spec fn total_power_spec(&self) -> u64 {
        self.total_power
    }

    /// Bundle a hash and a total power into a validator set.
    pub fn new(hash: crate::hash::Hash, total_power: u64) -> (r: Self)
        ensures
            r.hash_spec() == hash@,
            r.total_power_spec() == total_power,
    {
        ValidatorSetImpl { hash, total_power }
    }

    /// Hash of the validator set.
    pub fn hash(&self) -> (h: crate::hash::Hash)
        ensures
            h@ == self.hash_spec(),
    {
        self.hash
    }

    /// Total voting power of the set.
    pub fn total_power(&self) -> (p: u64)
        ensures
            p == self.total_power_spec(),
    {
        self.total_power
    }
}

/// Commit is used to prove a Header can be trusted.
/// Verifying the Commit requires access to an associated ValidatorSet
/// to determine what voting power signed the commit.
///
/// The error kind `InsufficientVotingPower` is reserved for the verifier's
/// own trust-threshold check, so no method of a commit may report it: the
/// bisection algorithm interprets that kind as "cannot skip, must bisect".
pub trait Commit: Sized {
    /// The digest bytes of the hash of the header this commit is for, at the
    /// specification level.
    spec fn header_hash_spec(&self) -> Seq<u8>;

    /// What [`Commit::voting_power_in`] returns, at the specification level.
    spec fn voting_power_in_spec(&self, vals: ValidatorSetImpl) -> Result<u64, Error>;

    /// What [`Commit::validate`] returns, at the specification level.
    spec fn validate_spec(&self, vals: ValidatorSetImpl) -> Result<(), Error>;

    /// Hash of the header this commit is for.
    fn header_hash(&self) -> (h: crate::hash::Hash)
        ensures
            h@ == self.header_hash_spec(),
    ;

    /// Compute the voting power of the validators that correctly signed the
    /// commit, according to their voting power in the passed in validator
    /// set. Returns an error in case an invalid signature was included.
    ///
    /// Note this cannot detect votes from validators outside the given set:
    /// that is fine when checking whether we can skip, and the full +2/3
    /// check is always run against the set the header itself names.
    fn voting_power_in(&self, vals: &ValidatorSetImpl) -> (r: Result<u64, Error>)
        ensures
            r == self.voting_power_in_spec(*vals),
            r matches Err(e) ==> !(e is InsufficientVotingPower),
    ;

    /// Implementers should add additional validation against the given
    /// validator set or other implementation specific validation here,
    /// e.g. that the number of signatures matches the number of validators.
    fn validate(&self, vals: &ValidatorSetImpl) -> (r: Result<(), Error>)
        ensures
            r == self.validate_spec(*vals),
            r matches Err(e) ==> !(e is InsufficientVotingPower),
    ;
}

/// The product of two 64-bit values always fits into 128 bits.
proof fn lemma_u64_mul_fits(a: u64, b: u64)
    by (nonlinear_arith)
    ensures
        a * b <= u128::MAX,
{
}

/// TrustThreshold defines how much of the total voting power of a known
/// and trusted validator set is sufficient for a commit to be
/// accepted going forward.
pub trait TrustThreshold: Sized + Copy {
    /// What [`TrustThreshold::is_enough_power`] returns, at the
    /// specification level.
    spec fn is_enough_power_spec(&self, signed_voting_power: u64, total_voting_power: u64) -> bool;

    fn is_enough_power(&self, signed_voting_power: u64, total_voting_power: u64) -> (r: bool)
        ensures
            r == self.is_enough_power_spec(signed_voting_power, total_voting_power),
    ;
}

/// TrustThresholdFraction defines what fraction of the total voting power of
/// a known and trusted validator set is sufficient for a commit to be
/// accepted going forward.
/// The [`Default::default()`] returns true, iff at least a third of the
/// trusted voting power signed (in other words at least one honest validator
/// signed).
/// Some clients might require more than +1/3 and can implement their own
/// [`TrustThreshold`] which can be passed into all relevant methods.
#[derive(Clone, Copy, Debug, PartialEq)]
pub struct TrustThresholdFraction {
    numerator: u64,
    denominator: u64,
}

impl TrustThresholdFraction {
    /// Whether the pair forms a valid trust threshold, i.e. a fraction that
    /// lies within `[1/3, 1]`.
    pub open spec fn spec_threshold_ok(numerator: u64, denominator: u64) -> bool {
        numerator <= denominator && denominator > 0 && 3 * numerator >= denominator
    }

    /// Whether a construction attempt succeeded.
    pub open spec fn spec_is_ok(r: &Result<TrustThresholdFraction, Error>) -> bool {
        r is Ok
    }

    /// The fraction's numerator, at the specification level.
    pub closed spec fn numerator_spec(&self) -> u64 {
        self.numerator
    }

    /// The fraction's denominator, at the specification level.
    pub closed spec fn denominator_spec(&self) -> u64 {
        self.denominator
    }

    /// Whether the pair forms a valid trust threshold.
    #[verifier::when_used_as_spec(spec_threshold_ok)]
    pub fn threshold_ok(numerator: u64, denominator: u64) -> (r: bool)
        ensures
            r == Self::spec_threshold_ok(numerator, denominator),
    {
        numerator <= denominator && denominator > 0 && 3 * (numerator as u128) >= denominator as u128
    }

    /// Whether a construction attempt succeeded.
    #[verifier::when_used_as_spec(spec_is_ok)]
    pub fn is_ok(r: &Result<TrustThresholdFraction, Error>) -> (b: bool)
        ensures
            b == Self::spec_is_ok(r),
    {
        match r {
            Ok(_) => true,
            Err(_) => false,
        }
    }

    /// Instantiate a TrustThresholdFraction if the given denominator and
    /// numerator are valid.
    ///
    /// The parameters are valid iff `1/3 <= numerator/denominator <= 1`.
    /// In any other case we return [`Kind::InvalidTrustThreshold`].
    pub fn new(numerator: u64, denominator: u64) -> (r: Result<Self, Error>)
        ensures
            Self::spec_is_ok(&r) <==> Self::spec_threshold_ok(numerator, denominator),
            r matches Ok(t) ==> t.numerator_spec() == numerator && t.denominator_spec()
                == denominator,
            !Self::spec_threshold_ok(numerator, denominator) ==> r == Err::<Self, Error>(
                Kind::InvalidTrustThreshold,
            ),
    {
        if Self::threshold_ok(numerator, denominator) {
            Ok(Self { numerator, denominator })
        } else {
            Err(Kind::InvalidTrustThreshold)
        }
    }
}

impl TrustThreshold for TrustThresholdFraction {
    /// `signed · denominator > total · numerator`, in exact integer
    /// arithmetic.
    open spec fn is_enough_power_spec(&self, signed_voting_power: u64, total_voting_power: u64) -> bool {
        signed_voting_power * self.denominator_spec() > total_voting_power * self.numerator_spec()
    }

    fn is_enough_power(&self, signed_voting_power: u64, total_voting_power: u64) -> (r: bool) {
        proof {
            lemma_u64_mul_fits(signed_voting_power, self.denominator);
            lemma_u64_mul_fits(total_voting_power, self.numerator);
        }
        (signed_voting_power as u128) * (self.denominator as u128) > (total_voting_power as u128)
            * (self.numerator as u128)
    }
}

impl Default for TrustThresholdFraction {
    /// The default threshold of one third.
    fn default() -> (r: Self)
        ensures
            r.numerator_spec() == 1u64,
            r.denominator_spec() == 3u64,
    {
        match Self::new(1, 3) {
            Ok(r) => r,
            Err(_) => unreached(),
        }
    }
}

/// SignedHeader bundles a [`Header`] and a [`Commit`] for convenience.
#[derive(Clone, Copy, Debug, PartialEq)]
pub struct SignedHeader<C, H>
where
    C: Commit,
    H: Header,
{
    pub commit: C,
    pub header: H,
}

impl<C, H> SignedHeader<C, H>
where
    C: Commit,
    H: Header,
{
    pub fn new(commit: C, header: H) -> (r: Self)
        ensures
            r.commit == commit,
            r.header == header,
    {
        Self { commit, header }
    }

    pub fn commit(&self) -> (c: &C)
        ensures
            c == &self.commit,
    {
        &self.commit
    }

    pub fn header(&self) -> (h: &H)
        ensures
            h == &self.header,
    {
        &self.header
    }
}

/// TrustedState contains a state trusted by a lite client,
/// including the last header (at height h-1) and the validator set
/// (at height h) to use to verify the next header.
#[derive(Clone, Copy, Debug, PartialEq)]
pub struct TrustedState<C, H>
where
    C: Commit,
    H: Header,
{
    pub last_header: SignedHeader<C, H>,
    pub validators: ValidatorSetImpl,
}

impl<C, H> TrustedState<C, H>
where
    C: Commit,
    H: Header,
{
    /// Initialize the TrustedState with the given signed header and validator
    /// set.
    /// Note that if the height of the passed in header is h-1, the passed in
    /// validator set must have been requested for height h.
    pub fn new(last_header: SignedHeader<C, H>, validators: ValidatorSetImpl) -> (r: Self)
        ensures
            r.last_header == last_header,
            r.validators == validators,
    {
        Self { last_header, validators }
    }

    pub fn last_header(&self) -> (h: &SignedHeader<C, H>)
        ensures
            h == &self.last_header,
    {
        &self.last_header
    }

    pub fn validators(&self) -> (v: &ValidatorSetImpl)
        ensures
            v == &self.validators,
    {
        &self.validators
    }
}

/// A plain in-memory header.
#[derive(Clone, Copy, Debug, PartialEq)]
pub struct HeaderImpl {
    pub height: Height,
    pub bft_time: Time,
    pub validators_hash: crate::hash::Hash,
    pub next_validators_hash: crate::hash::Hash,
    pub hash: crate::hash::Hash,
}

impl Header for HeaderImpl {
    open spec fn height_spec(&self) -> Height {
        self.height
    }

    open spec fn bft_time_spec(&self) -> Time {
        self.bft_time
    }

    open spec fn validators_hash_spec(&self) -> Seq<u8> {
        self.validators_hash@
    }

    open spec fn next_validators_hash_spec(&self) -> Seq<u8> {
        self.next_validators_hash@
    }

    open spec fn hash_spec(&self) -> Seq<u8> {
        self.hash@
    }

    fn height(&self) -> Height {
        self.height
    }

    fn bft_time(&self) -> Time {
        self.bft_time
    }

    fn validators_hash(&self) -> crate::hash::Hash {
        self.validators_hash
    }

    fn next_validators_hash(&self) -> crate::hash::Hash {
        self.next_validators_hash
    }

    fn hash(&self) -> crate::hash::Hash {
        self.hash
    }
}

/// Number of slots in the voting-power table of a [`CommitImpl`].
pub const POWER_TABLE_SIZE: usize = 4;

/// The first table slot naming the given validator set decides the signed
/// power within that set; a set that no slot names cannot be computed.
pub open spec fn power_lookup(
    table: Seq<Option<(crate::hash::Hash, u64)>>,
    set_hash: Seq<u8>,
) -> Result<u64, Error>
    decreases table.len(),
{
    if table.len() == 0 {
        Err(Kind::ImplementationSpecific)
    } else {
        match table[0] {
            Some(entry) => if entry.0@ == set_hash {
                Ok(entry.1)
            } else {
                power_lookup(table.skip(1), set_hash)
            },
            None => power_lookup(table.skip(1), set_hash),
        }
    }
}

/// A plain in-memory commit.
///
/// Instead of carrying signatures, it carries a small table that relates a
/// validator set (named by the hash of the set) to the voting power that the
/// commit's signers hold within that set; unused slots are `None`.
#[derive(Clone, Copy, Debug, PartialEq)]
pub struct CommitImpl {
    pub header_hash: crate::hash::Hash,
    pub power_table: [Option<(crate::hash::Hash, u64)>; POWER_TABLE_SIZE],
}

impl Commit for CommitImpl {
    open spec fn header_hash_spec(&self) -> Seq<u8> {
        self.header_hash@
    }

    open spec fn voting_power_in_spec(&self, vals: ValidatorSetImpl) -> Result<u64, Error> {
        power_lookup(self.power_table@, vals.hash_spec())
    }

    open spec fn validate_spec(&self, vals: ValidatorSetImpl) -> Result<(), Error> {
        Ok(())
    }

    fn header_hash(&self) -> crate::hash::Hash {
        self.header_hash
    }

    fn voting_power_in(&self, vals: &ValidatorSetImpl) -> (r: Result<u64, Error>) {
        let set_hash = vals.hash();
        let mut i: usize = 0;
        proof {
            assert(self.power_table@.skip(0) =~= self.power_table@);
        }
        while i < POWER_TABLE_SIZE
            invariant
                i <= POWER_TABLE_SIZE,
                self.power_table@.len() == POWER_TABLE_SIZE,
                set_hash@ == vals.hash_spec(),
                power_lookup(self.power_table@, vals.hash_spec()) == power_lookup(
                    self.power_table@.skip(i as int),
                    vals.hash_spec(),
                ),
            decreases POWER_TABLE_SIZE - i,
        {
            proof {
                assert(self.power_table@.skip(i as int)[0] == self.power_table@[i as int]);
                assert(self.power_table@.skip(i as int).skip(1) =~= self.power_table@.skip(
                    i as int + 1,
                ));
            }
            match self.power_table[i] {
                Some(entry) => {
                    if entry.0 == set_hash {
                        return Ok(entry.1);
                    }
                },
                None => (),
            }
            i = i + 1;
        }
        Err(Kind::ImplementationSpecific)
    }

    fn validate(&self, vals: &ValidatorSetImpl) -> (r: Result<(), Error>) {
        Ok(())
    }
}

/// Requester can be used to request [`SignedHeader`]s and
/// [`ValidatorSetImpl`]s for a given height, e.g., by talking to a full node
/// through RPC.
///
/// A requester answers for the height it was asked: a signed header it
/// returns carries that height in its header. Its failures are classified as
/// either a genuine transport or parse failure (`RequestFailed`) or an
/// unexpected condition (`ImplementationSpecific`); no other error kind may
/// be reported.
pub trait Requester<C, H>: Sized
where
    C: Commit,
    H: Header,
{
    /// What [`Requester::signed_header`] returns, at the specification level.
    spec fn signed_header_spec(&self, h: Height) -> Result<SignedHeader<C, H>, Error>;

    /// What [`Requester::validator_set`] returns, at the specification level.
    spec fn validator_set_spec(&self, h: Height) -> Result<ValidatorSetImpl, Error>;

    /// Request the [`SignedHeader`] at height h.
    fn signed_header(&self, h: Height) -> (r: Result<SignedHeader<C, H>, Error>)
        ensures
            r == self.signed_header_spec(h),
            r matches Ok(sh) ==> sh.header.height_spec() == h,
            r matches Err(e) ==> e is RequestFailed || e is ImplementationSpecific,
    ;

    /// Request the validator set at height h.
    fn validator_set(&self, h: Height) -> (r: Result<ValidatorSetImpl, Error>)
        ensures
            r == self.validator_set_spec(h),
            r matches Err(e) ==> e is RequestFailed || e is ImplementationSpecific,
    ;
}

/// The first stored header of the requested height is served; a height
/// without one has its request fail.
pub open spec fn header_table_lookup(
    table: Seq<SignedHeader<CommitImpl, HeaderImpl>>,
    h: Height,
) -> Result<SignedHeader<CommitImpl, HeaderImpl>, Error>
    decreases table.len(),
{
    if table.len() == 0 {
        Err(Kind::RequestFailed)
    } else if table[0].header.height_spec() == h {
        Ok(table[0])
    } else {
        header_table_lookup(table.skip(1), h)
    }
}

/// The first stored validator set keyed by the requested height is served; a
/// height without one has its request fail.
pub open spec fn validator_table_lookup(
    table: Seq<(Height, ValidatorSetImpl)>,
    h: Height,
) -> Result<ValidatorSetImpl, Error>
    decreases table.len(),
{
    if table.len() == 0 {
        Err(Kind::RequestFailed)
    } else if table[0].0 == h {
        Ok(table[0].1)
    } else {
        validator_table_lookup(table.skip(1), h)
    }
}

/// A requester backed by in-memory tables: it serves signed headers by the
/// height their header carries, and validator sets from a list keyed by
/// height. Heights it does not hold fail with `RequestFailed`.
#[derive(Debug)]
pub struct RequesterImpl {
    pub signed_headers: Vec<SignedHeader<CommitImpl, HeaderImpl>>,
    pub validator_sets: Vec<(Height, ValidatorSetImpl)>,
}

impl Requester<CommitImpl, HeaderImpl> for RequesterImpl {
    open spec fn signed_header_spec(&self, h: Height) -> Result<
        SignedHeader<CommitImpl, HeaderImpl>,
        Error,
    > {
        header_table_lookup(self.signed_headers@, h)
    }

    open spec fn validator_set_spec(&self, h: Height) -> Result<ValidatorSetImpl, Error> {
        validator_table_lookup(self.validator_sets@, h)
    }

    fn signed_header(&self, h: Height) -> (r: Result<SignedHeader<CommitImpl, HeaderImpl>, Error>) {
        let mut i: usize = 0;
        proof {
            assert(self.signed_headers@.skip(0) =~= self.signed_headers@);
        }
        while i < self.signed_headers.len()
            invariant
                i <= self.signed_headers@.len(),
                header_table_lookup(self.signed_headers@, h) == header_table_lookup(
                    self.signed_headers@.skip(i as int),
                    h,
                ),
            decreases self.signed_headers@.len() - i,
        {
            proof {
                assert(self.signed_headers@.skip(i as int)[0] == self.signed_headers@[i as int]);
                assert(self.signed_headers@.skip(i as int).skip(1) =~= self.signed_headers@.skip(
                    i as int + 1,
                ));
            }
            let entry = self.signed_headers[i];
            if entry.header.height == h {
                return Ok(entry);
            }
            i = i + 1;
        }
        Err(Kind::RequestFailed)
    }

    fn validator_set(&self, h: Height) -> (r: Result<ValidatorSetImpl, Error>) {
        let mut i: usize = 0;
        proof {
            assert(self.validator_sets@.skip(0) =~= self.validator_sets@);
        }
        while i < self.validator_sets.len()
            invariant
                i <= self.validator_sets@.len(),
                validator_table_lookup(self.validator_sets@, h) == validator_table_lookup(
                    self.validator_sets@.skip(i as int),
                    h,
                ),
            decreases self.validator_sets@.len() - i,
        {
            proof {
                assert(self.validator_sets@.skip(i as int)[0] == self.validator_sets@[i as int]);
                assert(self.validator_sets@.skip(i as int).skip(1) =~= self.validator_sets@.skip(
                    i as int + 1,
                ));
            }
            let entry = self.validator_sets[i];
            if entry.0 == h {
                return Ok(entry.1);
            }
            i = i + 1;
        }
        Err(Kind::RequestFailed)
    }
}

} // verus!
