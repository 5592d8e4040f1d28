//! Verifying headers against a trusted consensus state, and judging whether
//! two headers are evidence of misbehaviour.

use vstd::prelude::*;

use crate::any::{AnyConsensusState, AnyConsensusStateView};
use crate::bytes::bytes_eq;
use crate::context::{consensus_state_of, HostStore, HostStoreView};
use crate::error::ClientError;
use crate::height::Height;
use crate::ics07_tendermint::calls::{
    chain_id_parsed, hash_of_validators, misbehaviour_header_verdict, parse_chain_id,
    powers_of_validators, total_power, update_header_verdict, validator_set_hash,
    validator_set_powers, verdict_held, verdict_parts, verify_misbehaviour_header,
    verify_update_header,
};
use crate::ics07_tendermint::client_state::{light_client_options, ClientState, ClientStateView};
use crate::ics07_tendermint::error::Error;
use crate::ics07_tendermint::types::{
    ConsensusState, ConsensusStateView, Header, HeaderSummary, HeaderSummaryView,
    LightClientOptions, LightClientVerdict, Misbehaviour, MisbehaviourView,
};
use crate::identifier::ClientId;
use crate::timestamp::{elapsed_nanos, span_of_nanos, Duration, Timestamp};

verus! {

/// What a verdict of the verifier means for the header: success, or the
/// error that carries all that the verdict says.
pub open spec fn verdict_result(verdict: LightClientVerdict) -> Result<(), Error> {
    match verdict {
        LightClientVerdict::Success => Ok(()),
        LightClientVerdict::NotEnoughTrust(reason) => Err(
            Error::NotEnoughTrustedValsSigned { reason },
        ),
        LightClientVerdict::Invalid(detail) => Err(Error::VerificationError { detail }),
    }
}

/// Turns a verdict of the verifier into a result.
pub fn into_result(verdict: LightClientVerdict) -> (r: Result<(), Error>)
    ensures
        r == verdict_result(verdict),
{
    match verdict {
        LightClientVerdict::Success => Ok(()),
        LightClientVerdict::NotEnoughTrust(reason) => Err(
            Error::NotEnoughTrustedValsSigned { reason },
        ),
        LightClientVerdict::Invalid(detail) => Err(Error::VerificationError { detail }),
    }
}

/// Whether the trusted consensus state can still be built on at `now`: it
/// can where `now` is not before it and less than the trusting period has
/// passed since.
pub open spec fn trusting_period_check(
    trusted: Timestamp,
    trusting_period: Duration,
    now: Timestamp,
) -> Result<(), ClientError> {
    match elapsed_nanos(now, trusted) {
        None => Err(ClientError::InvalidConsensusStateTimestamp { time1: trusted, time2: now }),
        Some(elapsed) => if elapsed >= trusting_period.total_nanos() {
            Err(
                ClientError::ClientSpecific(
                    Error::ConsensusStateTimestampGteTrustingPeriod {
                        duration_since_consensus_state: span_of_nanos(
                            (now.nanos - trusted.nanos) as u64,
                        ),
                        trusting_period,
                    },
                ),
            )
        } else {
            Ok(())
        },
    }
}

/// Whether the voting power of both validator sets can be weighed in 64
/// bits: the validators of the header against two thirds, the trusted
/// validators against the trust threshold.
pub open spec fn voting_power_in_range(header: Header, options: LightClientOptions) -> bool {
    &&& 3 * total_power(validator_set_powers(header.validator_set)) <= u64::MAX
    &&& options.denominator * total_power(validator_set_powers(header.trusted_next_validator_set))
        <= u64::MAX
}

/// Whether a list of voting powers, each taken `factor` times, adds up to
/// a number of 64 bits.
pub fn powers_fit(powers: &Vec<u64>, factor: u64) -> (r: bool)
    requires
        factor > 0,
    ensures
        r == (factor * total_power(powers@) <= u64::MAX),
{
    let limit: u64 = u64::MAX / factor;
    let mut sum: u64 = 0;
    let mut i: usize = 0;
    assert(powers@.subrange(0, 0) =~= Seq::<u64>::empty());
    while i < powers.len()
        invariant
            factor > 0,
            limit == u64::MAX / factor,
            i <= powers@.len(),
            sum == total_power(powers@.subrange(0, i as int)),
            sum <= limit,
        decreases powers@.len() - i,
    {
        let power: u64 = powers[i];
        assert(powers@.subrange(0, i + 1).drop_last() =~= powers@.subrange(0, i as int));
        assert(powers@.subrange(0, i + 1).last() == power);
        if power > limit - sum {
            proof {
                lemma_total_power_grows(powers@, i + 1);
                lemma_product_out_of_range(factor, total_power(powers@));
            }
            return false;
        }
        sum = sum + power;
        i += 1;
    }
    assert(powers@.subrange(0, i as int) =~= powers@);
    proof {
        lemma_product_in_range(factor, total_power(powers@));
    }
    true
}

/// The sum of a list of voting powers is at least the sum of any of its
/// beginnings.
proof fn lemma_total_power_grows(powers: Seq<u64>, n: int)
    requires
        0 <= n <= powers.len(),
    ensures
        total_power(powers.subrange(0, n)) <= total_power(powers),
    decreases powers.len() - n,
{
    if n < powers.len() {
        assert(powers.subrange(0, n + 1).drop_last() =~= powers.subrange(0, n));
        lemma_total_power_grows(powers, n + 1);
    } else {
        assert(powers.subrange(0, n) =~= powers);
    }
}

/// The outcome of verifying a header against a trusted consensus state at
/// the time `now`. The checks come in this order: the trusted validators of
/// the header are those recorded in the consensus state; the consensus
/// state is within the trusting period; the chain identifier, the trusted
/// height (a block height that another one follows) and the options of the
/// client are fit for the verifier; the voting power of the validator sets
/// can be weighed in 64 bits; the verdict of the verifier, for an update where `update` is set and for
/// misbehaviour where it is not.
pub open spec fn header_outcome(
    state: ClientStateView,
    header: Header,
    trusted: ConsensusStateView,
    now: Timestamp,
    update: bool,
) -> Result<(), ClientError> {
    if validator_set_hash(header.trusted_next_validator_set) != trusted.next_validators_hash {
        Err(ClientError::HeaderVerificationFailure)
    } else if trusting_period_check(trusted.timestamp, state.trusting_period, now) is Err {
        trusting_period_check(trusted.timestamp, state.trusting_period, now)
    } else if chain_id_parsed(state.chain_id.id) is None {
        Err(ClientError::ClientSpecific(Error::InvalidChainId))
    } else if header.trusted_height.revision_height >= i64::MAX {
        Err(
            ClientError::ClientSpecific(
                Error::InvalidHeaderHeight { height: header.trusted_height.revision_height },
            ),
        )
    } else {
        match light_client_options(state) {
            Err(e) => Err(ClientError::ClientSpecific(e)),
            Ok(options) => if !voting_power_in_range(header, options) {
                Err(ClientError::ClientSpecific(Error::VotingPowerOutOfRange))
            } else {
                let verdict = if update {
                    update_header_verdict(
                        header.signed_header,
                        header.validator_set,
                        chain_id_parsed(state.chain_id.id)->0,
                        span_of_nanos(trusted.timestamp.nanos),
                        header.trusted_height.revision_height,
                        header.trusted_next_validator_set,
                        options,
                        span_of_nanos(now.nanos),
                    )
                } else {
                    misbehaviour_header_verdict(
                        header.signed_header,
                        header.validator_set,
                        chain_id_parsed(state.chain_id.id)->0,
                        span_of_nanos(trusted.timestamp.nanos),
                        header.trusted_height.revision_height,
                        header.trusted_next_validator_set,
                        options,
                        span_of_nanos(now.nanos),
                    )
                };
                match verdict_result(verdict_held(verdict)) {
                    Ok(_) => Ok(()),
                    Err(e) => Err(ClientError::ClientSpecific(e)),
                }
            },
        }
    }
}

/// Whether two headers are evidence of misbehaviour. Two headers of one
/// height are, where they are for different blocks. Of two headers of
/// different heights the first is taken to be the higher one, and they are
/// evidence where the time of the first is not after the time of the second.
pub open spec fn headers_conflict(first: HeaderSummaryView, second: HeaderSummaryView) -> bool {
    if first.height == second.height {
        first.block_hash != second.block_hash
    } else {
        first.time_nanos <= second.time_nanos
    }
}

/// Judges whether two headers, by what they say of their blocks, are
/// evidence of misbehaviour.
pub fn check_headers_conflict(first: &HeaderSummary, second: &HeaderSummary) -> (r: bool)
    ensures
        r == headers_conflict(first@, second@),
{
    if first.height == second.height {
        !bytes_eq(first.block_hash.as_slice(), second.block_hash.as_slice())
    } else {
        first.time_nanos <= second.time_nanos
    }
}

/// What makes two headers unfit to be evidence at all: they are of
/// different chains, or the first lies below the second.
pub open spec fn misbehaviour_basic_fault(m: MisbehaviourView) -> Option<Error> {
    if m.header1.summary().chain_id != m.header2.summary().chain_id {
        Some(Error::MismatchHeaderChainId)
    } else if m.header1.summary().height < m.header2.summary().height {
        Some(Error::MisbehaviourHeadersOutOfOrder)
    } else {
        None
    }
}

/// The Tendermint consensus state that a store holds for a client at a
/// height.
pub open spec fn trusted_consensus_state(
    store: HostStoreView,
    id: Seq<char>,
    height: Height,
) -> Result<ConsensusStateView, ClientError> {
    match consensus_state_of(store.consensus_states, id, height) {
        None => Err(ClientError::ConsensusStateNotFound { height }),
        Some(AnyConsensusStateView::Tendermint(cs)) => Ok(cs),
        Some(_) => Err(ClientError::UnknownConsensusStateType),
    }
}

/// The outcome of verifying evidence of misbehaviour: the evidence is fit,
/// the store holds a Tendermint consensus state at the trusted height of
/// each header, and each header verifies against its own at the time of
/// the host.
pub open spec fn misbehaviour_outcome(
    state: ClientStateView,
    store: HostStoreView,
    id: Seq<char>,
    m: MisbehaviourView,
) -> Result<(), ClientError> {
    match misbehaviour_basic_fault(m) {
        Some(e) => Err(ClientError::ClientSpecific(e)),
        None => match trusted_consensus_state(store, id, m.header1.trusted_height) {
            Err(e) => Err(e),
            Ok(trusted1) => match trusted_consensus_state(store, id, m.header2.trusted_height) {
                Err(e) => Err(e),
                Ok(trusted2) => match header_outcome(
                    state,
                    m.header1,
                    trusted1,
                    store.host_timestamp,
                    false,
                ) {
                    Err(e) => Err(e),
                    Ok(_) => header_outcome(state, m.header2, trusted2, store.host_timestamp, false),
                },
            },
        },
    }
}

/// Reads the Tendermint consensus state of a client at a height.
pub fn read_trusted_consensus_state(ctx: &HostStore, client_id: &ClientId, height: Height) -> (r:
    Result<ConsensusState, ClientError>)
    ensures
        match trusted_consensus_state(ctx@, client_id@, height) {
            Ok(cs) => r is Ok && r->Ok_0@ == cs,
            Err(e) => r is Err && r->Err_0 == e,
        },
{
    match ctx.consensus_state(client_id, height) {
        Err(e) => Err(e),
        Ok(AnyConsensusState::Tendermint(cs)) => Ok(cs),
        Ok(_) => Err(ClientError::UnknownConsensusStateType),
    }
}

impl Misbehaviour {
    /// Checks that both headers are of one chain and that the first does
    /// not lie below the second.
    pub fn validate_basic(&self) -> (r: Result<(), Error>)
        ensures
            match misbehaviour_basic_fault(self@) {
                Some(e) => r == Err::<(), Error>(e),
                None => r is Ok,
            },
    {
        let first = self.header1.summarize();
        let second = self.header2.summarize();
        if !(first.chain_id == second.chain_id) {
            return Err(Error::MismatchHeaderChainId);
        }
        if first.height < second.height {
            return Err(Error::MisbehaviourHeadersOutOfOrder);
        }
        Ok(())
    }
}

impl ClientState {
    /// Checks the trusting period: the trusted consensus state is not after
    /// `now`, and less than the trusting period has passed since.
    fn check_trusting_period(&self, trusted: Timestamp, now: Timestamp) -> (r: Result<
        (),
        ClientError,
    >)
        ensures
            r == trusting_period_check(trusted, self@.trusting_period, now),
    {
        let duration_since_consensus_state = match now.duration_since(&trusted) {
            Some(d) => d,
            None => {
                return Err(
                    ClientError::InvalidConsensusStateTimestamp { time1: trusted, time2: now },
                );
            },
        };
        if duration_since_consensus_state.ge(&self.trusting_period) {
            return Err(
                ClientError::ClientSpecific(
                    Error::ConsensusStateTimestampGteTrustingPeriod {
                        duration_since_consensus_state,
                        trusting_period: self.trusting_period,
                    },
                ),
            );
        }
        Ok(())
    }

    /// Verifies a header against a trusted consensus state, for an update
    /// where `update` is set and for misbehaviour where it is not.
    pub fn verify_header_against(
        &self,
        header: &Header,
        trusted_consensus_state: &ConsensusState,
        current_timestamp: Timestamp,
        update: bool,
    ) -> (r: Result<(), ClientError>)
        ensures
            r == header_outcome(self@, *header, trusted_consensus_state@, current_timestamp, update),
    {
        // the trusted next validator set must be the one recorded on chain
        let trusted_hash = hash_of_validators(&header.trusted_next_validator_set);
        if !bytes_eq(
            trusted_hash.as_slice(),
            trusted_consensus_state.next_validators_hash.as_slice(),
        ) {
            return Err(ClientError::HeaderVerificationFailure);
        }
        // the trusted consensus state must be within the trusting period
        match self.check_trusting_period(trusted_consensus_state.timestamp, current_timestamp) {
            Err(e) => {
                return Err(e);
            },
            Ok(_) => {},
        }
        let chain_id = match parse_chain_id(self.chain_id.as_str()) {
            Some(chain_id) => chain_id,
            None => {
                return Err(ClientError::ClientSpecific(Error::InvalidChainId));
            },
        };
        let trusted_height: u64 = header.trusted_height.revision_height();
        if trusted_height >= 0x7fff_ffff_ffff_ffff {
            return Err(
                ClientError::ClientSpecific(Error::InvalidHeaderHeight { height: trusted_height }),
            );
        }
        let options = match self.as_light_client_options() {
            Ok(options) => options,
            Err(e) => {
                return Err(ClientError::ClientSpecific(e));
            },
        };
        let powers = powers_of_validators(&header.validator_set);
        let trusted_powers = powers_of_validators(&header.trusted_next_validator_set);
        if !powers_fit(&powers, 3) || !powers_fit(&trusted_powers, options.denominator) {
            return Err(ClientError::ClientSpecific(Error::VotingPowerOutOfRange));
        }
        let header_time = Duration::from_nanos(trusted_consensus_state.timestamp.nanoseconds());
        let now = Duration::from_nanos(current_timestamp.nanoseconds());
        assert(header_time.secs <= 253_402_300_799 && now.secs <= 253_402_300_799);
        // the header itself is left to the verifier
        let verdict = if update {
            verify_update_header(
                &header.signed_header,
                &header.validator_set,
                &chain_id,
                header_time,
                trusted_height,
                &header.trusted_next_validator_set,
                &options,
                now,
            )
        } else {
            verify_misbehaviour_header(
                &header.signed_header,
                &header.validator_set,
                &chain_id,
                header_time,
                trusted_height,
                &header.trusted_next_validator_set,
                &options,
                now,
            )
        };
        match into_result(verdict_parts(verdict)) {
            Ok(_) => Ok(()),
            Err(e) => Err(ClientError::ClientSpecific(e)),
        }
    }

    /// Verifies one header of a misbehaviour against the consensus state
    /// that it names as trusted.
    pub fn verify_misbehaviour_header(
        &self,
        header: &Header,
        trusted_consensus_state: &ConsensusState,
        current_timestamp: Timestamp,
    ) -> (r: Result<(), ClientError>)
        ensures
            r == header_outcome(self@, *header, trusted_consensus_state@, current_timestamp, false),
    {
        self.verify_header_against(header, trusted_consensus_state, current_timestamp, false)
    }

    /// Verifies that each of two conflicting headers would have convinced
    /// the light client. Whether they conflict is not judged here.
    pub fn verify_misbehaviour(&self, ctx: &HostStore, client_id: &ClientId, misbehaviour: &Misbehaviour) -> (r:
        Result<(), ClientError>)
        ensures
            r == misbehaviour_outcome(self@, ctx@, client_id@, misbehaviour@),
    {
        match misbehaviour.validate_basic() {
            Err(e) => {
                return Err(ClientError::ClientSpecific(e));
            },
            Ok(_) => {},
        }
        let header_1 = misbehaviour.header1();
        let trusted_consensus_state_1 = match read_trusted_consensus_state(
            ctx,
            client_id,
            header_1.trusted_height,
        ) {
            Ok(cs) => cs,
            Err(e) => {
                return Err(e);
            },
        };
        let header_2 = misbehaviour.header2();
        let trusted_consensus_state_2 = match read_trusted_consensus_state(
            ctx,
            client_id,
            header_2.trusted_height,
        ) {
            Ok(cs) => cs,
            Err(e) => {
                return Err(e);
            },
        };
        let current_timestamp = ctx.host_timestamp();
        match self.verify_misbehaviour_header(
            header_1,
            &trusted_consensus_state_1,
            current_timestamp,
        ) {
            Err(e) => {
                return Err(e);
            },
            Ok(_) => {},
        }
        self.verify_misbehaviour_header(header_2, &trusted_consensus_state_2, current_timestamp)
    }

    /// Judges whether the two headers of a misbehaviour are evidence of
    /// misbehaviour.
    pub fn check_for_misbehaviour_misbehavior(&self, misbehaviour: &Misbehaviour) -> (r: Result<
        bool,
        ClientError,
    >)
        ensures
            r == Ok::<bool, ClientError>(
                headers_conflict(misbehaviour.header1.summary(), misbehaviour.header2.summary()),
            ),
    {
        let header_1 = misbehaviour.header1().summarize();
        let header_2 = misbehaviour.header2().summarize();
        Ok(check_headers_conflict(&header_1, &header_2))
    }
}

/// A power above the quotient of the greatest number by a factor makes a
/// product above that number.
proof fn lemma_product_out_of_range(factor: u64, power: int)
    requires
        factor > 0,
        power > u64::MAX / factor,
    ensures
        factor * power > u64::MAX,
{
    assert(factor * power > u64::MAX) by (nonlinear_arith)
        requires
            factor > 0,
            power > u64::MAX / factor,
    ;
}

/// A power up to the quotient of the greatest number by a factor makes a
/// product up to that number.
proof fn lemma_product_in_range(factor: u64, power: int)
    requires
        factor > 0,
        0 <= power <= u64::MAX / factor,
    ensures
        factor * power <= u64::MAX,
{
    assert(factor * power <= u64::MAX) by (nonlinear_arith)
        requires
            factor > 0,
            0 <= power <= u64::MAX / factor,
    ;
}

} // verus!
