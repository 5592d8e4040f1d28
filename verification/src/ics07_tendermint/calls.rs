//! The calls into the `tendermint` and `tendermint-light-client-verifier`
//! crates, which hash validator sets and check the signatures on a header.
//!
//! Nothing in this file is proved: each function states what the source of
//! those crates shows of the call it makes.

use core::time::Duration as StdDuration;
use tendermint::block::signed_header::SignedHeader;
use tendermint::trust_threshold::TrustThresholdFraction;
use tendermint::Time;
use tendermint_light_client_verifier::options::Options;
use tendermint_light_client_verifier::types::{TrustedBlockState, UntrustedBlockState};
use tendermint_light_client_verifier::{ProdVerifier, Verdict, Verifier};
use vstd::prelude::*;

use crate::ics07_tendermint::error::VotingPowerTally;
use crate::ics07_tendermint::types::{
    chain_id_text_valid, HeaderSummary, HeaderSummaryView, LightClientOptions, LightClientVerdict,
};
use crate::timestamp::Duration;

verus! {

/// `tendermint::block::signed_header::SignedHeader`, carried as it is.
#[verifier::external_type_specification]
#[verifier::external_body]
pub struct ExSignedHeader(tendermint::block::signed_header::SignedHeader);

/// `tendermint::validator::Set`, carried as it is.
#[verifier::external_type_specification]
#[verifier::external_body]
pub struct ExValidatorSet(tendermint::validator::Set);

/// `tendermint::chain::Id`, carried as it is.
#[verifier::external_type_specification]
#[verifier::external_body]
pub struct ExChainId(tendermint::chain::Id);

/// `tendermint_light_client_verifier::Verdict`, carried as it is.
#[verifier::external_type_specification]
#[verifier::external_body]
pub struct ExVerdict(tendermint_light_client_verifier::Verdict);

/// `tendermint_light_client_verifier::errors::VerificationErrorDetail`,
/// carried as it is.
#[verifier::external_type_specification]
#[verifier::external_body]
pub struct ExVerificationErrorDetail(
    tendermint_light_client_verifier::errors::VerificationErrorDetail,
);

/// The last second of the year 9999, in seconds since the Unix epoch.
pub const MAX_UNIX_SECONDS: u64 = 253_402_300_799;

/// The clone of a signed header is the signed header.
pub assume_specification[ <tendermint::block::signed_header::SignedHeader as Clone>::clone ](
    h: &tendermint::block::signed_header::SignedHeader,
) -> (r: tendermint::block::signed_header::SignedHeader)
    ensures
        r == *h,
;

/// The clone of a validator set is the validator set.
pub assume_specification[ <tendermint::validator::Set as Clone>::clone ](
    set: &tendermint::validator::Set,
) -> (r: tendermint::validator::Set)
    ensures
        r == *set,
;

/// The clone of the detail of a verification error is that detail.
pub assume_specification[ <tendermint_light_client_verifier::errors::VerificationErrorDetail as Clone>::clone ](
    detail: &tendermint_light_client_verifier::errors::VerificationErrorDetail,
) -> (r: tendermint_light_client_verifier::errors::VerificationErrorDetail)
    ensures
        r == *detail,
;

/// What a signed header says of its block: the fields of its header that a
/// light client reads, and the block hash that its commit is for.
pub uninterp spec fn signed_header_summary(h: SignedHeader) -> HeaderSummaryView;

/// The Merkle hash of a validator set, as `tendermint::validator::Set::hash`
/// computes it.
pub uninterp spec fn validator_set_hash(set: tendermint::validator::Set) -> Seq<u8>;

/// The voting power of each validator of a set, in the order in which the
/// set lists its validators.
pub uninterp spec fn validator_set_powers(set: tendermint::validator::Set) -> Seq<u64>;

/// The sum of a list of voting powers.
pub open spec fn total_power(powers: Seq<u64>) -> int
    decreases powers.len(),
{
    if powers.len() == 0 {
        0
    } else {
        total_power(powers.drop_last()) + powers.last()
    }
}

/// The chain identifier that `tendermint::chain::Id::try_from` makes of a
/// text.
pub uninterp spec fn chain_id_parsed(text: Seq<char>) -> Option<tendermint::chain::Id>;

/// The verdict of `ProdVerifier::verify_misbehaviour_header` on an untrusted
/// header with its validators, and a trusted state made of a chain
/// identifier, the time and the height of the trusted header, and the
/// validator set that follows it. Both times are given as the span since
/// the Unix epoch.
pub uninterp spec fn misbehaviour_header_verdict(
    untrusted: SignedHeader,
    validators: tendermint::validator::Set,
    chain_id: tendermint::chain::Id,
    header_time: Duration,
    height: u64,
    next_validators: tendermint::validator::Set,
    options: LightClientOptions,
    now: Duration,
) -> Verdict;

/// The verdict of `ProdVerifier::verify_update_header` on the same
/// arguments.
pub uninterp spec fn update_header_verdict(
    untrusted: SignedHeader,
    validators: tendermint::validator::Set,
    chain_id: tendermint::chain::Id,
    header_time: Duration,
    height: u64,
    next_validators: tendermint::validator::Set,
    options: LightClientOptions,
    now: Duration,
) -> Verdict;

/// What a verdict holds.
pub uninterp spec fn verdict_held(v: Verdict) -> LightClientVerdict;

/// Reads the fields of `tendermint::block::Header` and the block hash of
/// `tendermint::block::Commit` out of a signed header.
#[verifier::external_body]
pub(crate) fn summarize(h: &SignedHeader) -> (r: HeaderSummary)
    ensures
        r@ == signed_header_summary(*h),
{
    HeaderSummary {
        chain_id: h.header.chain_id.as_str().to_string(),
        height: h.header.height.value(),
        time_nanos: h.header.time.unix_timestamp_nanos(),
        block_hash: h.commit.block_id.hash.as_bytes().to_vec(),
        app_hash: h.header.app_hash.as_bytes().to_vec(),
        validators_hash: h.header.validators_hash.as_bytes().to_vec(),
        next_validators_hash: h.header.next_validators_hash.as_bytes().to_vec(),
    }
}

/// Calls `tendermint::validator::Set::hash`.
#[verifier::external_body]
pub(crate) fn hash_of_validators(set: &tendermint::validator::Set) -> (r: Vec<u8>)
    ensures
        r@ == validator_set_hash(*set),
{
    set.hash().as_bytes().to_vec()
}

/// Reads the voting power of each validator that
/// `tendermint::validator::Set::validators` lists, with
/// `tendermint::validator::Info::power`.
#[verifier::external_body]
pub(crate) fn powers_of_validators(set: &tendermint::validator::Set) -> (r: Vec<u64>)
    ensures
        r@ == validator_set_powers(*set),
{
    set.validators().iter().map(|v| v.power()).collect()
}

/// Calls `tendermint::chain::Id::try_from`, which accepts a text of one to
/// fifty letters, digits, hyphens, underscores and full stops.
#[verifier::external_body]
pub(crate) fn parse_chain_id(text: &str) -> (r: Option<tendermint::chain::Id>)
    ensures
        r == chain_id_parsed(text@),
        r is Some <==> chain_id_text_valid(text@),
{
    tendermint::chain::Id::try_from(text.to_string()).ok()
}

/// Calls `ProdVerifier::verify_misbehaviour_header`. The untrusted state has
/// no next validators; the hash of the trusted next validators is the hash
/// of the set given; the times are made with
/// `tendermint::Time::from_unix_timestamp`, which takes every time up to the
/// year 9999; the options are made with `TrustThresholdFraction::new` and
/// `core::time::Duration::new`. The verifier looks at the block height
/// that follows the trusted one, so there is to be one; it adds up the
/// power of the validators and weighs the power that signed against two
/// thirds of the validators and against the trust threshold of the trusted
/// validators, multiplying in 64 bits, so those products are to fit.
#[verifier::external_body]
pub(crate) fn verify_misbehaviour_header(
    untrusted: &SignedHeader,
    validators: &tendermint::validator::Set,
    chain_id: &tendermint::chain::Id,
    header_time: Duration,
    height: u64,
    next_validators: &tendermint::validator::Set,
    options: &LightClientOptions,
    now: Duration,
) -> (v: Verdict)
    requires
        header_time.wf() && header_time.secs <= MAX_UNIX_SECONDS,
        now.wf() && now.secs <= MAX_UNIX_SECONDS,
        height < i64::MAX,
        options.wf(),
        3 * total_power(validator_set_powers(*validators)) <= u64::MAX,
        options.denominator * total_power(validator_set_powers(*next_validators)) <= u64::MAX,
    ensures
        v == misbehaviour_header_verdict(
            *untrusted,
            *validators,
            *chain_id,
            header_time,
            height,
            *next_validators,
            *options,
            now,
        ),
{
    let untrusted = UntrustedBlockState { signed_header: untrusted, validators, next_validators: None };
    let header_time = Time::from_unix_timestamp(header_time.secs as i64, header_time.nanos);
    let trusted = TrustedBlockState {
        chain_id, header_time: header_time.unwrap_or(Time::unix_epoch()),
        height: height.try_into().unwrap_or_default(),
        next_validators, next_validators_hash: next_validators.hash(),
    };
    let options = Options {
        trust_threshold: TrustThresholdFraction::new(options.numerator, options.denominator)
            .unwrap_or_default(),
        trusting_period: StdDuration::new(options.trusting_period.secs, options.trusting_period.nanos),
        clock_drift: StdDuration::new(options.clock_drift.secs, options.clock_drift.nanos),
    };
    let now = Time::from_unix_timestamp(now.secs as i64, now.nanos).unwrap_or(Time::unix_epoch());
    ProdVerifier::default().verify_misbehaviour_header(untrusted, trusted, &options, now)
}

/// Calls `ProdVerifier::verify_update_header`, with the states made as for
/// `verify_misbehaviour_header`.
#[verifier::external_body]
pub(crate) fn verify_update_header(
    untrusted: &SignedHeader,
    validators: &tendermint::validator::Set,
    chain_id: &tendermint::chain::Id,
    header_time: Duration,
    height: u64,
    next_validators: &tendermint::validator::Set,
    options: &LightClientOptions,
    now: Duration,
) -> (v: Verdict)
    requires
        header_time.wf() && header_time.secs <= MAX_UNIX_SECONDS,
        now.wf() && now.secs <= MAX_UNIX_SECONDS,
        height < i64::MAX,
        options.wf(),
        3 * total_power(validator_set_powers(*validators)) <= u64::MAX,
        options.denominator * total_power(validator_set_powers(*next_validators)) <= u64::MAX,
    ensures
        v == update_header_verdict(
            *untrusted,
            *validators,
            *chain_id,
            header_time,
            height,
            *next_validators,
            *options,
            now,
        ),
{
    let untrusted = UntrustedBlockState { signed_header: untrusted, validators, next_validators: None };
    let header_time = Time::from_unix_timestamp(header_time.secs as i64, header_time.nanos);
    let trusted = TrustedBlockState {
        chain_id, header_time: header_time.unwrap_or(Time::unix_epoch()),
        height: height.try_into().unwrap_or_default(),
        next_validators, next_validators_hash: next_validators.hash(),
    };
    let options = Options {
        trust_threshold: TrustThresholdFraction::new(options.numerator, options.denominator)
            .unwrap_or_default(),
        trusting_period: StdDuration::new(options.trusting_period.secs, options.trusting_period.nanos),
        clock_drift: StdDuration::new(options.clock_drift.secs, options.clock_drift.nanos),
    };
    let now = Time::from_unix_timestamp(now.secs as i64, now.nanos).unwrap_or(Time::unix_epoch());
    ProdVerifier::default().verify_update_header(untrusted, trusted, &options, now)
}

/// Tells the three variants of `Verdict` apart.
#[verifier::external_body]
pub(crate) fn verdict_parts(v: Verdict) -> (r: LightClientVerdict)
    ensures
        r == verdict_held(v),
{
    match v {
        Verdict::Success => LightClientVerdict::Success,
        Verdict::NotEnoughTrust(t) => LightClientVerdict::NotEnoughTrust(
            VotingPowerTally {
                total: t.total,
                tallied: t.tallied,
                threshold_numerator: t.trust_threshold.numerator(),
                threshold_denominator: t.trust_threshold.denominator(),
            },
        ),
        Verdict::Invalid(detail) => LightClientVerdict::Invalid(detail),
    }
}

} // verus!
