//! The deployment's configuration and its administration.

use vstd::prelude::*;
use crate::types::{Currency, EscrowError, Identity};

verus! {

/// The parameters of one deployment. A record whose authority is the
/// all-zero identity has not been initialized.
#[derive(Clone, Copy, Debug, PartialEq, Eq, Structural)]
pub struct ConfigRecord {
    /// Who may update the configuration and close completed escrows.
    pub authority: Identity,
    /// Who receives the fees.
    pub fee_recipient: Identity,
    /// Fee rate of flat escrows, in basis points.
    pub standard_fee_bps: u16,
    /// Fee rate of milestone escrows, in basis points.
    pub milestone_fee_bps: u16,
    /// What an agent must hold of `currency_kind` to arbitrate; zero asks
    /// for nothing.
    pub required_arbiter_stake: u64,
    /// The asset the arbiter's stake is held in.
    pub currency_kind: Currency,
}

/// The parameters that the authority chooses and may change later.
#[derive(Clone, Copy, Debug, PartialEq, Eq, Structural)]
pub struct ConfigParams {
    pub fee_recipient: Identity,
    pub standard_fee_bps: u16,
    pub milestone_fee_bps: u16,
    pub required_arbiter_stake: u64,
    pub currency_kind: Currency,
}

/// What the first configuration of a deployment works on: the stored
/// configuration and the identity that asks to become its authority.
#[derive(Clone, Copy, Debug, PartialEq, Eq, Structural)]
pub struct Initialize {
    pub config: ConfigRecord,
    pub authority: Identity,
}

impl ConfigParams {
    /// Both fee rates are at most 100%.
    pub open spec fn wf(self) -> bool {
        self.standard_fee_bps <= 10_000 && self.milestone_fee_bps <= 10_000
    }
}

impl ConfigRecord {
    /// Both fee rates are at most 100%.
    pub open spec fn wf(self) -> bool {
        self.standard_fee_bps <= 10_000 && self.milestone_fee_bps <= 10_000
    }

    /// Whether an authority has been set.
    pub open spec fn initialized(self) -> bool {
        !self.authority.is_nobody()
    }

    /// The configuration that `authority` gets with `params`.
    pub open spec fn with_params(authority: Identity, params: ConfigParams) -> ConfigRecord {
        ConfigRecord {
            authority,
            fee_recipient: params.fee_recipient,
            standard_fee_bps: params.standard_fee_bps,
            milestone_fee_bps: params.milestone_fee_bps,
            required_arbiter_stake: params.required_arbiter_stake,
            currency_kind: params.currency_kind,
        }
    }

    /// Whether `stake` is enough to arbitrate under this configuration.
    pub open spec fn stake_suffices(self, stake: u64) -> bool {
        self.required_arbiter_stake == 0 || stake >= self.required_arbiter_stake
    }

    /// A configuration that nobody has initialized yet.
    pub fn uninitialized() -> (config: ConfigRecord)
        ensures
            !config.initialized(),
            config.wf(),
            config == ConfigRecord::with_params(
                Identity { hi: 0, lo: 0 },
                (ConfigParams {
                    fee_recipient: Identity { hi: 0, lo: 0 },
                    standard_fee_bps: 0,
                    milestone_fee_bps: 0,
                    required_arbiter_stake: 0,
                    currency_kind: Currency::Native,
                }),
            ),
    {
        ConfigRecord {
            authority: Identity::nobody(),
            fee_recipient: Identity::nobody(),
            standard_fee_bps: 0,
            milestone_fee_bps: 0,
            required_arbiter_stake: 0,
            currency_kind: Currency::Native,
        }
    }

    /// Tests the configuration's invariant.
    pub fn is_valid(&self) -> (b: bool)
        ensures
            b == self.wf(),
    {
        self.standard_fee_bps <= 10_000 && self.milestone_fee_bps <= 10_000
    }

    /// Tests whether `stake` is enough to arbitrate.
    pub fn accepts_stake(&self, stake: u64) -> (b: bool)
        ensures
            b == self.stake_suffices(stake),
    {
        self.required_arbiter_stake == 0 || stake >= self.required_arbiter_stake
    }
}

/// What `initialize` answers on a stored configuration, a would-be authority
/// and the chosen parameters: the new configuration, or the first check that
/// fails.
pub open spec fn initialize_model(ctx: Initialize, params: ConfigParams) -> Result<
    ConfigRecord,
    EscrowError,
> {
    if ctx.config.initialized() {
        Err(EscrowError::AlreadyInitialized)
    } else if ctx.authority.is_nobody() {
        Err(EscrowError::InvalidArgument)
    } else if !params.wf() {
        Err(EscrowError::InvalidArgument)
    } else {
        Ok(ConfigRecord::with_params(ctx.authority, params))
    }
}

/// What `update_config` answers: the new configuration, or the first check
/// that fails.
pub open spec fn update_config_model(
    config: ConfigRecord,
    caller: Identity,
    params: ConfigParams,
) -> Result<ConfigRecord, EscrowError> {
    if !config.initialized() || caller != config.authority {
        Err(EscrowError::Unauthorized)
    } else if !params.wf() {
        Err(EscrowError::InvalidArgument)
    } else {
        Ok(ConfigRecord::with_params(config.authority, params))
    }
}

/// Sets the deployment's configuration for the first time and makes
/// `ctx.authority` its authority.
///
/// Fails with `AlreadyInitialized` if an authority is already set, and with
/// `InvalidArgument` if the would-be authority is the all-zero identity or a
/// fee rate exceeds 100%. A failed call leaves the configuration unchanged.
pub fn initialize(ctx: &mut Initialize, params: ConfigParams) -> (res: Result<(), EscrowError>)
    ensures
        final(ctx).authority == old(ctx).authority,
        match res {
            Ok(()) => initialize_model(*old(ctx), params) == Ok::<ConfigRecord, EscrowError>(
                final(ctx).config,
            ),
            Err(e) => initialize_model(*old(ctx), params) == Err::<ConfigRecord, EscrowError>(e)
                && *final(ctx) == *old(ctx),
        },
        old(ctx).config.wf() ==> final(ctx).config.wf(),
{
    if !ctx.config.authority.is_empty() {
        return Err(EscrowError::AlreadyInitialized);
    }
    if ctx.authority.is_empty() {
        return Err(EscrowError::InvalidArgument);
    }
    if params.standard_fee_bps > 10_000 || params.milestone_fee_bps > 10_000 {
        return Err(EscrowError::InvalidArgument);
    }
    ctx.config = ConfigRecord {
        authority: ctx.authority,
        fee_recipient: params.fee_recipient,
        standard_fee_bps: params.standard_fee_bps,
        milestone_fee_bps: params.milestone_fee_bps,
        required_arbiter_stake: params.required_arbiter_stake,
        currency_kind: params.currency_kind,
    };
    Ok(())
}

/// Replaces the parameters of an initialized configuration. The authority
/// stays who it is.
///
/// Fails with `Unauthorized` unless `caller` is the stored authority, and
/// with `InvalidArgument` if a fee rate exceeds 100%. A failed call leaves the
/// configuration unchanged.
pub fn update_config(config: &mut ConfigRecord, caller: Identity, params: ConfigParams) -> (res:
    Result<(), EscrowError>)
    ensures
        final(config).authority == old(config).authority,
        match res {
            Ok(()) => update_config_model(*old(config), caller, params) == Ok::<
                ConfigRecord,
                EscrowError,
            >(*final(config)),
            Err(e) => update_config_model(*old(config), caller, params) == Err::<
                ConfigRecord,
                EscrowError,
            >(e) && *final(config) == *old(config),
        },
        old(config).wf() ==> final(config).wf(),
{
    if config.authority.is_empty() || caller != config.authority {
        return Err(EscrowError::Unauthorized);
    }
    if params.standard_fee_bps > 10_000 || params.milestone_fee_bps > 10_000 {
        return Err(EscrowError::InvalidArgument);
    }
    config.fee_recipient = params.fee_recipient;
    config.standard_fee_bps = params.standard_fee_bps;
    config.milestone_fee_bps = params.milestone_fee_bps;
    config.required_arbiter_stake = params.required_arbiter_stake;
    config.currency_kind = params.currency_kind;
    Ok(())
}

} // verus!
