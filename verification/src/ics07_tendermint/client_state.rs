//! The state of a Tendermint light client.

use vstd::prelude::*;

use crate::height::Height;
use crate::ics07_tendermint::error::Error;
use crate::ics07_tendermint::types::{
    trust_threshold_valid, LightClientOptions, TrustThreshold,
};
use crate::identifier::{ChainId, ChainIdView};
use crate::proof_types::{LayerSpecView, ProofSpecs};
use crate::timestamp::Duration;

verus! {

/// Whether a client may be brought back by governance after it has expired
/// or was frozen.
#[derive(Clone, Copy, Debug, PartialEq, Eq, Structural)]
pub struct AllowUpdate {
    pub after_expiry: bool,
    pub after_misbehaviour: bool,
}

/// What a Tendermint client knows of its chain and how far it trusts it.
#[derive(Debug, PartialEq, Eq)]
pub struct ClientState {
    pub chain_id: ChainId,
    pub trust_level: TrustThreshold,
    /// How long a consensus state can be built on.
    pub trusting_period: Duration,
    pub unbonding_period: Duration,
    pub max_clock_drift: Duration,
    pub latest_height: Height,
    pub proof_specs: ProofSpecs,
    pub allow_update: AllowUpdate,
    /// Set once the client was frozen; a frozen client takes no updates.
    pub frozen_height: Option<Height>,
}

pub struct ClientStateView {
    pub chain_id: ChainIdView,
    pub trust_level: TrustThreshold,
    pub trusting_period: Duration,
    pub unbonding_period: Duration,
    pub max_clock_drift: Duration,
    pub latest_height: Height,
    pub proof_specs: Seq<LayerSpecView>,
    pub allow_update: AllowUpdate,
    pub frozen_height: Option<Height>,
}

impl View for ClientState {
    type V = ClientStateView;

    open spec fn view(&self) -> ClientStateView {
        ClientStateView {
            chain_id: self.chain_id@,
            trust_level: self.trust_level,
            trusting_period: self.trusting_period,
            unbonding_period: self.unbonding_period,
            max_clock_drift: self.max_clock_drift,
            latest_height: self.latest_height,
            proof_specs: self.proof_specs@,
            allow_update: self.allow_update,
            frozen_height: self.frozen_height,
        }
    }
}

impl Clone for ClientState {
    fn clone(&self) -> (r: ClientState)
        ensures
            r@ == self@,
    {
        ClientState {
            chain_id: self.chain_id.clone(),
            trust_level: self.trust_level,
            trusting_period: self.trusting_period,
            unbonding_period: self.unbonding_period,
            max_clock_drift: self.max_clock_drift,
            latest_height: self.latest_height,
            proof_specs: self.proof_specs.clone(),
            allow_update: self.allow_update,
            frozen_height: self.frozen_height,
        }
    }
}

/// The options that a client state hands to the verifier, where its trust
/// level is a fraction between one third and one.
pub open spec fn light_client_options(s: ClientStateView) -> Result<LightClientOptions, Error> {
    if !trust_threshold_valid(s.trust_level.numerator, s.trust_level.denominator) {
        Err(
            Error::InvalidTrustThreshold {
                numerator: s.trust_level.numerator,
                denominator: s.trust_level.denominator,
            },
        )
    } else if !s.trusting_period.wf() {
        Err(Error::InvalidTrustingPeriod)
    } else if !s.max_clock_drift.wf() {
        Err(Error::InvalidMaxClockDrift)
    } else {
        Ok(
            LightClientOptions {
                numerator: s.trust_level.numerator,
                denominator: s.trust_level.denominator,
                trusting_period: s.trusting_period,
                clock_drift: s.max_clock_drift,
            },
        )
    }
}

impl ClientState {
    /// The spans of the state are well formed.
    pub open spec fn wf(&self) -> bool {
        &&& self.trusting_period.wf()
        &&& self.unbonding_period.wf()
        &&& self.max_clock_drift.wf()
    }

    /// The state frozen at `h`, with nothing else changed.
    pub fn with_frozen_height(self, h: Height) -> (r: ClientState)
        ensures
            r@ == (ClientStateView { frozen_height: Some(h), ..self@ }),
    {
        ClientState {
            chain_id: self.chain_id,
            trust_level: self.trust_level,
            trusting_period: self.trusting_period,
            unbonding_period: self.unbonding_period,
            max_clock_drift: self.max_clock_drift,
            latest_height: self.latest_height,
            proof_specs: self.proof_specs,
            allow_update: self.allow_update,
            frozen_height: Some(h),
        }
    }

    /// The state moved up to `h`, with nothing else changed.
    pub fn with_latest_height(self, h: Height) -> (r: ClientState)
        ensures
            r@ == (ClientStateView { latest_height: h, ..self@ }),
    {
        ClientState {
            chain_id: self.chain_id,
            trust_level: self.trust_level,
            trusting_period: self.trusting_period,
            unbonding_period: self.unbonding_period,
            max_clock_drift: self.max_clock_drift,
            latest_height: h,
            proof_specs: self.proof_specs,
            allow_update: self.allow_update,
            frozen_height: self.frozen_height,
        }
    }

    pub fn is_frozen(&self) -> (r: bool)
        ensures
            r == self@.frozen_height.is_some(),
    {
        self.frozen_height.is_some()
    }

    /// The options for the verifier. A trust level that is no fraction
    /// between one third and one is refused, and so is a span that is not
    /// well formed.
    pub fn as_light_client_options(&self) -> (r: Result<LightClientOptions, Error>)
        ensures
            r == light_client_options(self@),
            r matches Ok(o) ==> o.wf(),
    {
        let n: u64 = self.trust_level.numerator;
        let d: u64 = self.trust_level.denominator;
        if d == 0 || n > d || n > u64::MAX / 3 || 3 * n < d {
            return Err(Error::InvalidTrustThreshold { numerator: n, denominator: d });
        }
        if !self.trusting_period.is_wf() {
            return Err(Error::InvalidTrustingPeriod);
        }
        if !self.max_clock_drift.is_wf() {
            return Err(Error::InvalidMaxClockDrift);
        }
        Ok(
            LightClientOptions {
                numerator: n,
                denominator: d,
                trusting_period: self.trusting_period,
                clock_drift: self.max_clock_drift,
            },
        )
    }
}

} // verus!
