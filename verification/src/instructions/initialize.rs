use crate::error::ShadowForgeError;
use crate::state::{Pubkey, VaultConfig, MAX_BASIS_POINTS, MAX_YIELD_BPS};
use vstd::prelude::*;

verus! {

/// The records that bootstrapping reads and writes.
#[derive(Clone, Copy, Debug, PartialEq, Eq)]
pub struct Initialize {
    /// Who bootstraps the vault and administers it from then on.
    pub admin: Pubkey,
    /// The vault record, which bootstrapping fills.
    pub vault_config: VaultConfig,
    /// The primary asset unit.
    pub shielded_mint: Pubkey,
    /// The secondary asset unit.
    pub secondary_mint: Pubkey,
    /// Who receives protocol fees.
    pub treasury: Pubkey,
}

/// The fee schedule, yield rate and switches with which a vault starts.
#[derive(Clone, Copy, Debug, PartialEq, Eq)]
pub struct InitializeParams {
    pub deposit_fee_bps: u16,
    pub withdrawal_fee_bps: u16,
    pub lending_fee_bps: u16,
    pub swap_fee_bps: u16,
    pub bridge_fee_bps: u16,
    pub initial_yield_bps: u16,
    pub compliance_required: bool,
    pub enable_arcium: bool,
    pub enable_shadowwire: bool,
    pub enable_anoncoin: bool,
    pub enable_privacy_cash: bool,
    pub enable_silentswap: bool,
    pub enable_starpay: bool,
    pub enable_range: bool,
}

impl InitializeParams {
    /// The parameters of a vault that takes small fees, pays five per cent,
    /// asks for no compliance and has every feature on.
    pub open spec fn standard() -> InitializeParams {
        InitializeParams {
            deposit_fee_bps: 10,
            withdrawal_fee_bps: 10,
            lending_fee_bps: 50,
            swap_fee_bps: 30,
            bridge_fee_bps: 25,
            initial_yield_bps: 500,
            compliance_required: false,
            enable_arcium: true,
            enable_shadowwire: true,
            enable_anoncoin: true,
            enable_privacy_cash: true,
            enable_silentswap: true,
            enable_starpay: true,
            enable_range: true,
        }
    }

    /// Whether every fee rate is at most 10,000 basis points and the yield
    /// rate at most 5,000.
    pub open spec fn within_bounds(&self) -> bool {
        &&& self.deposit_fee_bps <= MAX_BASIS_POINTS
        &&& self.withdrawal_fee_bps <= MAX_BASIS_POINTS
        &&& self.lending_fee_bps <= MAX_BASIS_POINTS
        &&& self.swap_fee_bps <= MAX_BASIS_POINTS
        &&& self.bridge_fee_bps <= MAX_BASIS_POINTS
        &&& self.initial_yield_bps <= MAX_YIELD_BPS
    }
}

impl Default for InitializeParams {
    fn default() -> (r: InitializeParams)
        ensures
            r == InitializeParams::standard(),
            r.within_bounds(),
    {
        InitializeParams {
            deposit_fee_bps: 10,
            withdrawal_fee_bps: 10,
            lending_fee_bps: 50,
            swap_fee_bps: 30,
            bridge_fee_bps: 25,
            initial_yield_bps: 500,
            compliance_required: false,
            enable_arcium: true,
            enable_shadowwire: true,
            enable_anoncoin: true,
            enable_privacy_cash: true,
            enable_silentswap: true,
            enable_starpay: true,
            enable_range: true,
        }
    }
}

/// The vault as bootstrapping leaves it: identities and asset units from the
/// records, flags, fees and yield rate from the parameters, nothing locked,
/// no positions, neither paused nor in emergency, and both times at `now`.
pub open spec fn bootstrapped(ctx: Initialize, params: InitializeParams, now: i64) -> VaultConfig {
    VaultConfig {
        admin: ctx.admin,
        treasury: ctx.treasury,
        shielded_mint: ctx.shielded_mint,
        secondary_mint: ctx.secondary_mint,
        arcium_enabled: params.enable_arcium,
        shadowwire_enabled: params.enable_shadowwire,
        anoncoin_enabled: params.enable_anoncoin,
        privacy_cash_enabled: params.enable_privacy_cash,
        silentswap_enabled: params.enable_silentswap,
        starpay_enabled: params.enable_starpay,
        range_enabled: params.enable_range,
        deposit_fee_bps: params.deposit_fee_bps,
        withdrawal_fee_bps: params.withdrawal_fee_bps,
        lending_fee_bps: params.lending_fee_bps,
        swap_fee_bps: params.swap_fee_bps,
        bridge_fee_bps: params.bridge_fee_bps,
        current_yield_bps: params.initial_yield_bps,
        total_shielded_tvl: 0,
        total_positions: 0,
        is_paused: false,
        emergency_mode: false,
        compliance_required: params.compliance_required,
        initialized_at: now,
        last_yield_update: now,
    }
}

/// Bootstraps the vault at the time `now`. Parameters out of bounds are
/// refused with `InvalidMintConfig`, and nothing is changed.
pub fn handler(
    ctx: &mut Initialize,
    params: InitializeParams,
    now: i64,
) -> (r: Result<(), ShadowForgeError>)
    ensures
        match r {
            Ok(_) => {
                &&& params.within_bounds()
                &&& *final(ctx) == (Initialize {
                    vault_config: bootstrapped(*old(ctx), params, now),
                    ..*old(ctx)
                })
                &&& final(ctx).vault_config.wf()
                &&& final(ctx).vault_config.is_operational()
            },
            Err(e) => {
                &&& !params.within_bounds()
                &&& e == ShadowForgeError::InvalidMintConfig
                &&& *final(ctx) == *old(ctx)
            },
        },
{
    if params.deposit_fee_bps > MAX_BASIS_POINTS || params.withdrawal_fee_bps > MAX_BASIS_POINTS {
        return Err(ShadowForgeError::InvalidMintConfig);
    }
    if params.lending_fee_bps > MAX_BASIS_POINTS || params.swap_fee_bps > MAX_BASIS_POINTS
        || params.bridge_fee_bps > MAX_BASIS_POINTS {
        return Err(ShadowForgeError::InvalidMintConfig);
    }
    if params.initial_yield_bps > MAX_YIELD_BPS {
        return Err(ShadowForgeError::InvalidMintConfig);
    }
    ctx.vault_config = VaultConfig {
        admin: ctx.admin,
        treasury: ctx.treasury,
        shielded_mint: ctx.shielded_mint,
        secondary_mint: ctx.secondary_mint,
        arcium_enabled: params.enable_arcium,
        shadowwire_enabled: params.enable_shadowwire,
        anoncoin_enabled: params.enable_anoncoin,
        privacy_cash_enabled: params.enable_privacy_cash,
        silentswap_enabled: params.enable_silentswap,
        starpay_enabled: params.enable_starpay,
        range_enabled: params.enable_range,
        deposit_fee_bps: params.deposit_fee_bps,
        withdrawal_fee_bps: params.withdrawal_fee_bps,
        lending_fee_bps: params.lending_fee_bps,
        swap_fee_bps: params.swap_fee_bps,
        bridge_fee_bps: params.bridge_fee_bps,
        current_yield_bps: params.initial_yield_bps,
        total_shielded_tvl: 0,
        total_positions: 0,
        is_paused: false,
        emergency_mode: false,
        compliance_required: params.compliance_required,
        initialized_at: now,
        last_yield_update: now,
    };
    Ok(())
}

} // verus!
