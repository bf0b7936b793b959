use crate::error::ShadowForgeError;
use crate::state::{Pubkey, VaultConfig, MAX_BASIS_POINTS, MAX_YIELD_BPS};
use vstd::prelude::*;

verus! {

/// The records that an administrative action reads and changes.
#[derive(Clone, Copy, Debug, PartialEq, Eq)]
pub struct AdminMockYield {
    /// Who acts.
    pub admin: Pubkey,
    pub vault_config: VaultConfig,
    /// What the admin's own token account holds: the source of rewards.
    pub admin_token_balance: u64,
}

/// What the admin asks for.
#[derive(Clone, Copy, Debug, PartialEq, Eq)]
pub enum AdminAction {
    /// Put reward tokens into the vault.
    DepositRewards { amount: u64 },
    UpdateYieldRate { new_rate_bps: u16 },
    SetPaused { paused: bool },
    SetEmergencyMode { enabled: bool },
    /// Replace the fee rates that are given and keep the others.
    UpdateFees {
        deposit_fee_bps: Option<u16>,
        withdrawal_fee_bps: Option<u16>,
        lending_fee_bps: Option<u16>,
        swap_fee_bps: Option<u16>,
        bridge_fee_bps: Option<u16>,
    },
    /// Set the feature flags that are given and keep the others.
    ToggleSdk {
        arcium: Option<bool>,
        shadowwire: Option<bool>,
        anoncoin: Option<bool>,
        privacy_cash: Option<bool>,
        silentswap: Option<bool>,
        starpay: Option<bool>,
        range: Option<bool>,
    },
    SetComplianceRequired { required: bool },
}

/// An administrative request.
#[derive(Clone, Copy, Debug, PartialEq, Eq)]
pub struct AdminMockYieldParams {
    pub action: AdminAction,
}

/// The value that is given, or else the current one.
pub open spec fn chosen<T>(choice: Option<T>, current: T) -> T {
    match choice {
        Some(value) => value,
        None => current,
    }
}

/// Picks the value that is given, or else the current one.
pub fn pick<T: Copy>(choice: Option<T>, current: T) -> (r: T)
    ensures
        r == chosen(choice, current),
{
    match choice {
        Some(value) => value,
        None => current,
    }
}

/// Whether a fee rate that is given is at most 10,000 basis points.
pub open spec fn fee_choice_ok(choice: Option<u16>) -> bool {
    match choice {
        Some(fee) => fee <= MAX_BASIS_POINTS,
        None => true,
    }
}

/// Tells whether a fee rate that is given is at most 10,000 basis points.
pub fn is_fee_choice_ok(choice: Option<u16>) -> (r: bool)
    ensures
        r == fee_choice_ok(choice),
{
    match choice {
        Some(fee) => fee <= MAX_BASIS_POINTS,
        None => true,
    }
}

/// Why a deposit of rewards is refused, if it is: the amount is zero, the
/// admin's balance does not cover it, or the locked value would not fit.
pub open spec fn rewards_rejection(
    vault: VaultConfig,
    admin_token_balance: u64,
    amount: u64,
) -> Option<ShadowForgeError> {
    if amount == 0 {
        Some(ShadowForgeError::InvalidAmount)
    } else if admin_token_balance < amount {
        Some(ShadowForgeError::InsufficientShieldedBalance)
    } else if vault.total_shielded_tvl + amount > u64::MAX {
        Some(ShadowForgeError::AmountOverflow)
    } else {
        None
    }
}

/// Takes or refuses reward tokens for the vault. Where they are taken, the
/// locked value grows by the amount, and the caller has the custody layer
/// move the amount from the admin to the vault.
pub fn deposit_rewards(
    vault_config: &mut VaultConfig,
    admin_token_balance: u64,
    amount: u64,
) -> (r: Result<(), ShadowForgeError>)
    ensures
        match r {
            Ok(_) => {
                &&& rewards_rejection(*old(vault_config), admin_token_balance, amount) is None
                &&& *final(vault_config) == (VaultConfig {
                    total_shielded_tvl: (old(vault_config).total_shielded_tvl + amount) as u64,
                    ..*old(vault_config)
                })
            },
            Err(e) => {
                &&& rewards_rejection(*old(vault_config), admin_token_balance, amount) == Some(e)
                &&& *final(vault_config) == *old(vault_config)
            },
        },
{
    if amount == 0 {
        return Err(ShadowForgeError::InvalidAmount);
    }
    if admin_token_balance < amount {
        return Err(ShadowForgeError::InsufficientShieldedBalance);
    }
    match vault_config.total_shielded_tvl.checked_add(amount) {
        Some(total) => {
            vault_config.total_shielded_tvl = total;
            Ok(())
        },
        None => Err(ShadowForgeError::AmountOverflow),
    }
}

/// Sets the yield rate and notes the time of the change. A rate over 5,000
/// basis points is refused with `InvalidAmount`.
pub fn update_yield_rate(
    vault_config: &mut VaultConfig,
    new_rate_bps: u16,
    current_time: i64,
) -> (r: Result<(), ShadowForgeError>)
    ensures
        match r {
            Ok(_) => {
                &&& new_rate_bps <= MAX_YIELD_BPS
                &&& *final(vault_config) == (VaultConfig {
                    current_yield_bps: new_rate_bps,
                    last_yield_update: current_time,
                    ..*old(vault_config)
                })
            },
            Err(e) => {
                &&& new_rate_bps > MAX_YIELD_BPS
                &&& e == ShadowForgeError::InvalidAmount
                &&& *final(vault_config) == *old(vault_config)
            },
        },
{
    if new_rate_bps > MAX_YIELD_BPS {
        return Err(ShadowForgeError::InvalidAmount);
    }
    vault_config.current_yield_bps = new_rate_bps;
    vault_config.last_yield_update = current_time;
    Ok(())
}

/// Pauses the vault or lifts the pause. While the vault is in emergency mode
/// the pause cannot be lifted: that is refused with `EmergencyMode`.
pub fn set_paused(vault_config: &mut VaultConfig, paused: bool) -> (r: Result<(), ShadowForgeError>)
    ensures
        match r {
            Ok(_) => {
                &&& paused || !old(vault_config).emergency_mode
                &&& *final(vault_config) == (VaultConfig {
                    is_paused: paused,
                    ..*old(vault_config)
                })
            },
            Err(e) => {
                &&& !paused && old(vault_config).emergency_mode
                &&& e == ShadowForgeError::EmergencyMode
                &&& *final(vault_config) == *old(vault_config)
            },
        },
{
    if !paused && vault_config.emergency_mode {
        return Err(ShadowForgeError::EmergencyMode);
    }
    vault_config.is_paused = paused;
    Ok(())
}

/// Switches emergency mode. Switching it on also pauses the vault; switching
/// it off leaves the pause as it is.
pub fn set_emergency_mode(
    vault_config: &mut VaultConfig,
    enabled: bool,
) -> (r: Result<(), ShadowForgeError>)
    ensures
        r is Ok,
        *final(vault_config) == (VaultConfig {
            emergency_mode: enabled,
            is_paused: enabled || old(vault_config).is_paused,
            ..*old(vault_config)
        }),
{
    vault_config.emergency_mode = enabled;
    if enabled {
        vault_config.is_paused = true;
    }
    Ok(())
}

/// Replaces the fee rates that are given. If one of them is over 10,000 basis
/// points, the whole change is refused with `InvalidAmount`.
pub fn update_fees(
    vault_config: &mut VaultConfig,
    deposit_fee_bps: Option<u16>,
    withdrawal_fee_bps: Option<u16>,
    lending_fee_bps: Option<u16>,
    swap_fee_bps: Option<u16>,
    bridge_fee_bps: Option<u16>,
) -> (r: Result<(), ShadowForgeError>)
    ensures
        r is Ok <==> fee_choice_ok(deposit_fee_bps) && fee_choice_ok(withdrawal_fee_bps)
            && fee_choice_ok(lending_fee_bps) && fee_choice_ok(swap_fee_bps) && fee_choice_ok(
            bridge_fee_bps,
        ),
        match r {
            Ok(_) => *final(vault_config) == (VaultConfig {
                deposit_fee_bps: chosen(deposit_fee_bps, old(vault_config).deposit_fee_bps),
                withdrawal_fee_bps: chosen(
                    withdrawal_fee_bps,
                    old(vault_config).withdrawal_fee_bps,
                ),
                lending_fee_bps: chosen(lending_fee_bps, old(vault_config).lending_fee_bps),
                swap_fee_bps: chosen(swap_fee_bps, old(vault_config).swap_fee_bps),
                bridge_fee_bps: chosen(bridge_fee_bps, old(vault_config).bridge_fee_bps),
                ..*old(vault_config)
            }),
            Err(e) => e == ShadowForgeError::InvalidAmount && *final(vault_config) == *old(
                vault_config,
            ),
        },
{
    if !(is_fee_choice_ok(deposit_fee_bps) && is_fee_choice_ok(withdrawal_fee_bps)
        && is_fee_choice_ok(lending_fee_bps) && is_fee_choice_ok(swap_fee_bps)
        && is_fee_choice_ok(bridge_fee_bps)) {
        return Err(ShadowForgeError::InvalidAmount);
    }
    *vault_config = VaultConfig {
        deposit_fee_bps: pick(deposit_fee_bps, vault_config.deposit_fee_bps),
        withdrawal_fee_bps: pick(withdrawal_fee_bps, vault_config.withdrawal_fee_bps),
        lending_fee_bps: pick(lending_fee_bps, vault_config.lending_fee_bps),
        swap_fee_bps: pick(swap_fee_bps, vault_config.swap_fee_bps),
        bridge_fee_bps: pick(bridge_fee_bps, vault_config.bridge_fee_bps),
        ..*vault_config
    };
    Ok(())
}

/// Sets the feature flags that are given.
pub fn toggle_sdk_features(
    vault_config: &mut VaultConfig,
    arcium: Option<bool>,
    shadowwire: Option<bool>,
    anoncoin: Option<bool>,
    privacy_cash: Option<bool>,
    silentswap: Option<bool>,
    starpay: Option<bool>,
    range: Option<bool>,
) -> (r: Result<(), ShadowForgeError>)
    ensures
        r is Ok,
        *final(vault_config) == (VaultConfig {
            arcium_enabled: chosen(arcium, old(vault_config).arcium_enabled),
            shadowwire_enabled: chosen(shadowwire, old(vault_config).shadowwire_enabled),
            anoncoin_enabled: chosen(anoncoin, old(vault_config).anoncoin_enabled),
            privacy_cash_enabled: chosen(privacy_cash, old(vault_config).privacy_cash_enabled),
            silentswap_enabled: chosen(silentswap, old(vault_config).silentswap_enabled),
            starpay_enabled: chosen(starpay, old(vault_config).starpay_enabled),
            range_enabled: chosen(range, old(vault_config).range_enabled),
            ..*old(vault_config)
        }),
{
    *vault_config = VaultConfig {
        arcium_enabled: pick(arcium, vault_config.arcium_enabled),
        shadowwire_enabled: pick(shadowwire, vault_config.shadowwire_enabled),
        anoncoin_enabled: pick(anoncoin, vault_config.anoncoin_enabled),
        privacy_cash_enabled: pick(privacy_cash, vault_config.privacy_cash_enabled),
        silentswap_enabled: pick(silentswap, vault_config.silentswap_enabled),
        starpay_enabled: pick(starpay, vault_config.starpay_enabled),
        range_enabled: pick(range, vault_config.range_enabled),
        ..*vault_config
    };
    Ok(())
}

/// Sets whether deposits and withdrawals ask for a compliance attestation.
pub fn set_compliance_required(
    vault_config: &mut VaultConfig,
    required: bool,
) -> (r: Result<(), ShadowForgeError>)
    ensures
        r is Ok,
        *final(vault_config) == (VaultConfig {
            compliance_required: required,
            ..*old(vault_config)
        }),
{
    vault_config.compliance_required = required;
    Ok(())
}

/// Why the action itself is refused, if it is, once the admin is known.
pub open spec fn action_rejection(
    vault: VaultConfig,
    admin_token_balance: u64,
    action: AdminAction,
) -> Option<ShadowForgeError> {
    match action {
        AdminAction::DepositRewards { amount } => rewards_rejection(
            vault,
            admin_token_balance,
            amount,
        ),
        AdminAction::UpdateYieldRate { new_rate_bps } => if new_rate_bps > MAX_YIELD_BPS {
            Some(ShadowForgeError::InvalidAmount)
        } else {
            None
        },
        AdminAction::SetPaused { paused } => if !paused && vault.emergency_mode {
            Some(ShadowForgeError::EmergencyMode)
        } else {
            None
        },
        AdminAction::UpdateFees {
            deposit_fee_bps,
            withdrawal_fee_bps,
            lending_fee_bps,
            swap_fee_bps,
            bridge_fee_bps,
        } => if fee_choice_ok(deposit_fee_bps) && fee_choice_ok(withdrawal_fee_bps)
            && fee_choice_ok(lending_fee_bps) && fee_choice_ok(swap_fee_bps) && fee_choice_ok(
            bridge_fee_bps,
        ) {
            None
        } else {
            Some(ShadowForgeError::InvalidAmount)
        },
        _ => None,
    }
}

/// Why an administrative action is refused, if it is: the actor is not the
/// vault's admin, or else the action's own reason.
pub open spec fn rejection(
    ctx: AdminMockYield,
    params: AdminMockYieldParams,
) -> Option<ShadowForgeError> {
    if ctx.vault_config.admin != ctx.admin {
        Some(ShadowForgeError::Unauthorized)
    } else {
        action_rejection(ctx.vault_config, ctx.admin_token_balance, params.action)
    }
}

/// The vault after an administrative action that was taken.
pub open spec fn vault_after(vault: VaultConfig, action: AdminAction, now: i64) -> VaultConfig {
    match action {
        AdminAction::DepositRewards { amount } => VaultConfig {
            total_shielded_tvl: (vault.total_shielded_tvl + amount) as u64,
            ..vault
        },
        AdminAction::UpdateYieldRate { new_rate_bps } => VaultConfig {
            current_yield_bps: new_rate_bps,
            last_yield_update: now,
            ..vault
        },
        AdminAction::SetPaused { paused } => VaultConfig { is_paused: paused, ..vault },
        AdminAction::SetEmergencyMode { enabled } => VaultConfig {
            emergency_mode: enabled,
            is_paused: enabled || vault.is_paused,
            ..vault
        },
        AdminAction::UpdateFees {
            deposit_fee_bps,
            withdrawal_fee_bps,
            lending_fee_bps,
            swap_fee_bps,
            bridge_fee_bps,
        } => VaultConfig {
            deposit_fee_bps: chosen(deposit_fee_bps, vault.deposit_fee_bps),
            withdrawal_fee_bps: chosen(withdrawal_fee_bps, vault.withdrawal_fee_bps),
            lending_fee_bps: chosen(lending_fee_bps, vault.lending_fee_bps),
            swap_fee_bps: chosen(swap_fee_bps, vault.swap_fee_bps),
            bridge_fee_bps: chosen(bridge_fee_bps, vault.bridge_fee_bps),
            ..vault
        },
        AdminAction::ToggleSdk {
            arcium,
            shadowwire,
            anoncoin,
            privacy_cash,
            silentswap,
            starpay,
            range,
        } => VaultConfig {
            arcium_enabled: chosen(arcium, vault.arcium_enabled),
            shadowwire_enabled: chosen(shadowwire, vault.shadowwire_enabled),
            anoncoin_enabled: chosen(anoncoin, vault.anoncoin_enabled),
            privacy_cash_enabled: chosen(privacy_cash, vault.privacy_cash_enabled),
            silentswap_enabled: chosen(silentswap, vault.silentswap_enabled),
            starpay_enabled: chosen(starpay, vault.starpay_enabled),
            range_enabled: chosen(range, vault.range_enabled),
            ..vault
        },
        AdminAction::SetComplianceRequired { required } => VaultConfig {
            compliance_required: required,
            ..vault
        },
    }
}

/// What the custody layer is to move from the admin to the vault after an
/// action that was taken: the rewards, where rewards were deposited.
pub open spec fn reward_transfer(action: AdminAction) -> Option<u64> {
    match action {
        AdminAction::DepositRewards { amount } => Some(amount),
        _ => None,
    }
}

/// Applies an action to the vault on the admin's behalf.
fn apply(
    vault_config: &mut VaultConfig,
    admin_token_balance: u64,
    action: AdminAction,
    now: i64,
) -> (r: Result<(), ShadowForgeError>)
    ensures
        match r {
            Ok(_) => {
                &&& action_rejection(*old(vault_config), admin_token_balance, action) is None
                &&& *final(vault_config) == vault_after(*old(vault_config), action, now)
            },
            Err(e) => {
                &&& action_rejection(*old(vault_config), admin_token_balance, action) == Some(e)
                &&& *final(vault_config) == *old(vault_config)
            },
        },
{
    match action {
        AdminAction::DepositRewards { amount } => deposit_rewards(
            vault_config,
            admin_token_balance,
            amount,
        ),
        AdminAction::UpdateYieldRate { new_rate_bps } => update_yield_rate(
            vault_config,
            new_rate_bps,
            now,
        ),
        AdminAction::SetPaused { paused } => set_paused(vault_config, paused),
        AdminAction::SetEmergencyMode { enabled } => set_emergency_mode(vault_config, enabled),
        AdminAction::UpdateFees {
            deposit_fee_bps,
            withdrawal_fee_bps,
            lending_fee_bps,
            swap_fee_bps,
            bridge_fee_bps,
        } => update_fees(
            vault_config,
            deposit_fee_bps,
            withdrawal_fee_bps,
            lending_fee_bps,
            swap_fee_bps,
            bridge_fee_bps,
        ),
        AdminAction::ToggleSdk {
            arcium,
            shadowwire,
            anoncoin,
            privacy_cash,
            silentswap,
            starpay,
            range,
        } => toggle_sdk_features(
            vault_config,
            arcium,
            shadowwire,
            anoncoin,
            privacy_cash,
            silentswap,
            starpay,
            range,
        ),
        AdminAction::SetComplianceRequired { required } => set_compliance_required(
            vault_config,
            required,
        ),
    }
}

/// Takes or refuses an administrative action at the time `now`. An action
/// that is refused changes nothing. The result of one that is taken is the
/// amount, if any, that the caller has the custody layer move from the admin
/// to the vault.
pub fn handler(
    ctx: &mut AdminMockYield,
    params: AdminMockYieldParams,
    now: i64,
) -> (r: Result<Option<u64>, ShadowForgeError>)
    ensures
        match r {
            Ok(transfer) => {
                &&& rejection(*old(ctx), params) is None
                &&& *final(ctx) == (AdminMockYield {
                    vault_config: vault_after(old(ctx).vault_config, params.action, now),
                    ..*old(ctx)
                })
                &&& transfer == reward_transfer(params.action)
            },
            Err(e) => {
                &&& rejection(*old(ctx), params) == Some(e)
                &&& *final(ctx) == *old(ctx)
            },
        },
        old(ctx).vault_config.wf() ==> final(ctx).vault_config.wf(),
{
    if !ctx.vault_config.admin.is(&ctx.admin) {
        return Err(ShadowForgeError::Unauthorized);
    }
    let mut vault = ctx.vault_config;
    match apply(&mut vault, ctx.admin_token_balance, params.action, now) {
        Ok(_) => {},
        Err(e) => {
            return Err(e);
        },
    }
    ctx.vault_config = vault;
    let transfer: Option<u64> = match params.action {
        AdminAction::DepositRewards { amount } => Some(amount),
        _ => None,
    };
    Ok(transfer)
}

} // verus!
