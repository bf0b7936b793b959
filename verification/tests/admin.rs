use shadowforge::admin_mock_yield;
use shadowforge::error::ShadowForgeError;
use shadowforge::initialize;
use shadowforge::instructions::admin_mock_yield::{
    deposit_rewards, set_compliance_required, set_emergency_mode, set_paused, toggle_sdk_features,
    update_fees, update_yield_rate, AdminAction, AdminMockYield, AdminMockYieldParams,
};
use shadowforge::instructions::initialize::{Initialize, InitializeParams};
use shadowforge::state::{
    BridgeRequest, BridgeStatus, ComplianceAttestation, DarkPoolOrder, EncryptedAmount,
    LendingPosition, OrderSide, OrderStatus, Pubkey, UserEncryptedPosition, VaultConfig,
    MAX_BASIS_POINTS, MIN_DEPOSIT_LAMPORTS, PROOF_DATA_LEN,
};

fn key(b: u8) -> Pubkey {
    Pubkey::new_from_array([b; 32])
}

fn bootstrap_records() -> Initialize {
    Initialize {
        admin: key(1),
        vault_config: VaultConfig::default(),
        shielded_mint: key(2),
        secondary_mint: key(3),
        treasury: key(4),
    }
}

fn admin_records() -> AdminMockYield {
    let mut ctx = bootstrap_records();
    initialize(&mut ctx, InitializeParams::default(), 1_000).unwrap();
    AdminMockYield { admin: key(1), vault_config: ctx.vault_config, admin_token_balance: 5_000 }
}

fn act(ctx: &mut AdminMockYield, action: AdminAction, now: i64) -> Result<Option<u64>, ShadowForgeError> {
    admin_mock_yield(ctx, AdminMockYieldParams { action }, now)
}

#[test]
fn constants() {
    assert_eq!(MAX_BASIS_POINTS, 10_000);
    assert_eq!(MIN_DEPOSIT_LAMPORTS, 1_000_000);
    assert_eq!(PROOF_DATA_LEN, 32);
}

#[test]
fn defaults_are_blank() {
    let vault = VaultConfig::default();
    assert_eq!(vault.admin, Pubkey::default());
    assert_eq!(vault.total_shielded_tvl, 0);
    assert_eq!(vault.total_positions, 0);
    assert!(!vault.is_paused && !vault.emergency_mode && !vault.compliance_required);
    assert!(!vault.range_enabled && !vault.starpay_enabled);
    assert!(vault.is_operational());
    let position = UserEncryptedPosition::default();
    assert!(position.owner.is_unset());
    assert!(position.encrypted_principal.is_zero() && position.encrypted_yield.is_zero());
    assert_eq!(position.nullifier, [0u8; 32]);
    assert_eq!(position.deposit_count + position.withdrawal_count + position.action_count, 0);
    assert!(!position.is_compliant(-1));
    assert!(position.is_closed());
    let attestation = ComplianceAttestation::default();
    assert!(!attestation.is_valid);
    assert_eq!(attestation.risk_score, 0);
    assert_eq!(BridgeRequest::default().status, BridgeStatus::Pending);
    assert_eq!(BridgeStatus::default(), BridgeStatus::Pending);
    assert!(!LendingPosition::default().is_active);
    assert_eq!(DarkPoolOrder::default().status, OrderStatus::NoOrder);
    assert_eq!(DarkPoolOrder::default().side, OrderSide::Buy);
    assert_eq!(OrderStatus::default(), OrderStatus::NoOrder);
    assert_eq!(OrderSide::default(), OrderSide::Buy);
    assert_eq!(EncryptedAmount::default(), EncryptedAmount { handle: [0; 32], commitment: [0; 32] });
}

#[test]
fn position_compliance_mark() {
    let mut position = UserEncryptedPosition::default();
    position.compliance_verified = true;
    position.compliance_expiry = 100;
    assert!(position.is_compliant(99));
    assert!(!position.is_compliant(100));
    position.compliance_verified = false;
    assert!(!position.is_compliant(99));
}

#[test]
fn vault_is_operational_unless_paused_or_in_emergency() {
    let mut vault = VaultConfig::default();
    assert!(vault.is_operational());
    vault.is_paused = true;
    assert!(!vault.is_operational());
    vault.is_paused = false;
    vault.emergency_mode = true;
    assert!(!vault.is_operational());
}

#[test]
fn order_states_that_can_be_replaced() {
    assert!(OrderStatus::NoOrder.is_replaceable());
    assert!(OrderStatus::Cancelled.is_replaceable());
    assert!(OrderStatus::Filled.is_replaceable());
    assert!(!OrderStatus::Open.is_replaceable());
    assert!(!OrderStatus::PartiallyFilled.is_replaceable());
}

#[test]
fn standard_parameters() {
    let params = InitializeParams::default();
    assert_eq!(
        params,
        InitializeParams {
            deposit_fee_bps: 10,
            withdrawal_fee_bps: 10,
            lending_fee_bps: 50,
            swap_fee_bps: 30,
            bridge_fee_bps: 25,
            initial_yield_bps: 500,
            compliance_required: false,
            enable_arcium: true,
            enable_shadowwire: true,
            enable_anoncoin: true,
            enable_privacy_cash: true,
            enable_silentswap: true,
            enable_starpay: true,
            enable_range: true,
        }
    );
}

#[test]
fn bootstrap_fills_the_vault() {
    let mut ctx = bootstrap_records();
    ctx.vault_config.total_shielded_tvl = 99;
    ctx.vault_config.is_paused = true;
    let mut params = InitializeParams::default();
    params.compliance_required = true;
    params.enable_starpay = false;
    initialize(&mut ctx, params, 1_000).unwrap();
    assert_eq!(
        ctx.vault_config,
        VaultConfig {
            admin: key(1),
            treasury: key(4),
            shielded_mint: key(2),
            secondary_mint: key(3),
            arcium_enabled: true,
            shadowwire_enabled: true,
            anoncoin_enabled: true,
            privacy_cash_enabled: true,
            silentswap_enabled: true,
            starpay_enabled: false,
            range_enabled: true,
            deposit_fee_bps: 10,
            withdrawal_fee_bps: 10,
            lending_fee_bps: 50,
            swap_fee_bps: 30,
            bridge_fee_bps: 25,
            current_yield_bps: 500,
            total_shielded_tvl: 0,
            total_positions: 0,
            is_paused: false,
            emergency_mode: false,
            compliance_required: true,
            initialized_at: 1_000,
            last_yield_update: 1_000,
        }
    );
    assert_eq!(ctx.admin, key(1));
}

#[test]
fn bootstrap_refuses_rates_out_of_bounds() {
    let good = InitializeParams::default();
    let mut cases = [good; 6];
    cases[0].deposit_fee_bps = 10_001;
    cases[1].withdrawal_fee_bps = 10_001;
    cases[2].lending_fee_bps = 10_001;
    cases[3].swap_fee_bps = 10_001;
    cases[4].bridge_fee_bps = 10_001;
    cases[5].initial_yield_bps = 5_001;
    for params in cases.iter() {
        let mut ctx = bootstrap_records();
        let before = ctx;
        assert_eq!(initialize(&mut ctx, *params, 1), Err(ShadowForgeError::InvalidMintConfig));
        assert_eq!(ctx, before);
    }
    let mut edge = good;
    edge.deposit_fee_bps = 10_000;
    edge.withdrawal_fee_bps = 10_000;
    edge.lending_fee_bps = 10_000;
    edge.swap_fee_bps = 10_000;
    edge.bridge_fee_bps = 10_000;
    edge.initial_yield_bps = 5_000;
    let mut ctx = bootstrap_records();
    assert!(initialize(&mut ctx, edge, 1).is_ok());
}

#[test]
fn only_the_admin_acts() {
    let mut ctx = admin_records();
    ctx.admin = key(8);
    let before = ctx;
    assert_eq!(
        act(&mut ctx, AdminAction::SetPaused { paused: true }, 1),
        Err(ShadowForgeError::Unauthorized)
    );
    assert_eq!(
        act(&mut ctx, AdminAction::DepositRewards { amount: 0 }, 1),
        Err(ShadowForgeError::Unauthorized)
    );
    assert_eq!(ctx, before);
}

#[test]
fn rewards_raise_the_value_locked() {
    let mut ctx = admin_records();
    ctx.vault_config.total_shielded_tvl = 100;
    assert_eq!(act(&mut ctx, AdminAction::DepositRewards { amount: 5_000 }, 1), Ok(Some(5_000)));
    assert_eq!(ctx.vault_config.total_shielded_tvl, 5_100);
    let before = ctx;
    assert_eq!(
        act(&mut ctx, AdminAction::DepositRewards { amount: 0 }, 1),
        Err(ShadowForgeError::InvalidAmount)
    );
    assert_eq!(
        act(&mut ctx, AdminAction::DepositRewards { amount: 5_001 }, 1),
        Err(ShadowForgeError::InsufficientShieldedBalance)
    );
    ctx.admin_token_balance = u64::MAX;
    assert_eq!(
        act(&mut ctx, AdminAction::DepositRewards { amount: u64::MAX - 5_099 }, 1),
        Err(ShadowForgeError::AmountOverflow)
    );
    assert_eq!(ctx.vault_config, before.vault_config);
    assert_eq!(
        act(&mut ctx, AdminAction::DepositRewards { amount: u64::MAX - 5_100 }, 1),
        Ok(Some(u64::MAX - 5_100))
    );
    assert_eq!(ctx.vault_config.total_shielded_tvl, u64::MAX);
}

#[test]
fn rewards_helper_on_the_vault_alone() {
    let mut vault = VaultConfig::default();
    assert_eq!(deposit_rewards(&mut vault, 10, 10), Ok(()));
    assert_eq!(vault.total_shielded_tvl, 10);
    assert_eq!(deposit_rewards(&mut vault, 10, 11), Err(ShadowForgeError::InsufficientShieldedBalance));
    assert_eq!(vault.total_shielded_tvl, 10);
}

#[test]
fn yield_rate_is_capped_and_dated() {
    let mut ctx = admin_records();
    assert_eq!(act(&mut ctx, AdminAction::UpdateYieldRate { new_rate_bps: 5_000 }, 7_777), Ok(None));
    assert_eq!(ctx.vault_config.current_yield_bps, 5_000);
    assert_eq!(ctx.vault_config.last_yield_update, 7_777);
    assert_eq!(ctx.vault_config.initialized_at, 1_000);
    let before = ctx;
    assert_eq!(
        act(&mut ctx, AdminAction::UpdateYieldRate { new_rate_bps: 5_001 }, 8_888),
        Err(ShadowForgeError::InvalidAmount)
    );
    assert_eq!(ctx, before);
    let mut vault = VaultConfig::default();
    assert_eq!(update_yield_rate(&mut vault, 0, -3), Ok(()));
    assert_eq!(vault.last_yield_update, -3);
}

#[test]
fn emergency_mode_pauses_the_vault() {
    let mut ctx = admin_records();
    assert_eq!(act(&mut ctx, AdminAction::SetEmergencyMode { enabled: true }, 1), Ok(None));
    assert!(ctx.vault_config.emergency_mode);
    assert!(ctx.vault_config.is_paused);
    assert!(!ctx.vault_config.is_operational());
    // while the emergency lasts the pause stays
    let before = ctx;
    assert_eq!(
        act(&mut ctx, AdminAction::SetPaused { paused: false }, 2),
        Err(ShadowForgeError::EmergencyMode)
    );
    assert_eq!(ctx, before);
    assert_eq!(act(&mut ctx, AdminAction::SetPaused { paused: true }, 2), Ok(None));
    // ending the emergency leaves the pause
    assert_eq!(act(&mut ctx, AdminAction::SetEmergencyMode { enabled: false }, 3), Ok(None));
    assert!(!ctx.vault_config.emergency_mode);
    assert!(ctx.vault_config.is_paused);
    assert_eq!(act(&mut ctx, AdminAction::SetPaused { paused: false }, 4), Ok(None));
    assert!(ctx.vault_config.is_operational());
}

#[test]
fn pause_helpers_on_the_vault_alone() {
    let mut vault = VaultConfig::default();
    assert_eq!(set_paused(&mut vault, true), Ok(()));
    assert!(vault.is_paused);
    assert_eq!(set_paused(&mut vault, false), Ok(()));
    assert!(!vault.is_paused);
    assert_eq!(set_emergency_mode(&mut vault, false), Ok(()));
    assert!(!vault.is_paused && !vault.emergency_mode);
    assert_eq!(set_emergency_mode(&mut vault, true), Ok(()));
    assert!(vault.is_paused && vault.emergency_mode);
    assert_eq!(set_paused(&mut vault, false), Err(ShadowForgeError::EmergencyMode));
    assert!(vault.is_paused);
}

#[test]
fn fees_that_are_given_are_replaced() {
    let mut ctx = admin_records();
    let action = AdminAction::UpdateFees {
        deposit_fee_bps: Some(0),
        withdrawal_fee_bps: None,
        lending_fee_bps: Some(10_000),
        swap_fee_bps: None,
        bridge_fee_bps: Some(1),
    };
    assert_eq!(act(&mut ctx, action, 1), Ok(None));
    assert_eq!(ctx.vault_config.deposit_fee_bps, 0);
    assert_eq!(ctx.vault_config.withdrawal_fee_bps, 10);
    assert_eq!(ctx.vault_config.lending_fee_bps, 10_000);
    assert_eq!(ctx.vault_config.swap_fee_bps, 30);
    assert_eq!(ctx.vault_config.bridge_fee_bps, 1);
}

#[test]
fn one_fee_out_of_bounds_refuses_the_whole_change() {
    let mut vault = admin_records().vault_config;
    let before = vault;
    assert_eq!(
        update_fees(&mut vault, Some(1), Some(2), Some(3), Some(4), Some(10_001)),
        Err(ShadowForgeError::InvalidAmount)
    );
    assert_eq!(vault, before);
    assert_eq!(
        update_fees(&mut vault, Some(10_001), None, None, None, None),
        Err(ShadowForgeError::InvalidAmount)
    );
    assert_eq!(
        update_fees(&mut vault, None, None, Some(65_535), None, None),
        Err(ShadowForgeError::InvalidAmount)
    );
    assert_eq!(vault, before);
    assert_eq!(update_fees(&mut vault, None, None, None, None, None), Ok(()));
    assert_eq!(vault, before);
    assert_eq!(update_fees(&mut vault, Some(1), Some(2), Some(3), Some(4), Some(5)), Ok(()));
    assert_eq!(
        (
            vault.deposit_fee_bps,
            vault.withdrawal_fee_bps,
            vault.lending_fee_bps,
            vault.swap_fee_bps,
            vault.bridge_fee_bps
        ),
        (1, 2, 3, 4, 5)
    );
}

#[test]
fn features_that_are_given_are_set() {
    let mut ctx = admin_records();
    let action = AdminAction::ToggleSdk {
        arcium: Some(false),
        shadowwire: None,
        anoncoin: Some(false),
        privacy_cash: None,
        silentswap: Some(true),
        starpay: None,
        range: Some(false),
    };
    assert_eq!(act(&mut ctx, action, 1), Ok(None));
    let v = ctx.vault_config;
    assert_eq!(
        (
            v.arcium_enabled,
            v.shadowwire_enabled,
            v.anoncoin_enabled,
            v.privacy_cash_enabled,
            v.silentswap_enabled,
            v.starpay_enabled,
            v.range_enabled
        ),
        (false, true, false, true, true, true, false)
    );
    let mut vault = VaultConfig::default();
    assert_eq!(
        toggle_sdk_features(&mut vault, None, Some(true), None, Some(true), None, Some(true), None),
        Ok(())
    );
    assert_eq!(
        (
            vault.arcium_enabled,
            vault.shadowwire_enabled,
            vault.anoncoin_enabled,
            vault.privacy_cash_enabled,
            vault.silentswap_enabled,
            vault.starpay_enabled,
            vault.range_enabled
        ),
        (false, true, false, true, false, true, false)
    );
}

#[test]
fn compliance_requirement_is_set() {
    let mut ctx = admin_records();
    assert_eq!(act(&mut ctx, AdminAction::SetComplianceRequired { required: true }, 1), Ok(None));
    assert!(ctx.vault_config.compliance_required);
    let mut vault = ctx.vault_config;
    assert_eq!(set_compliance_required(&mut vault, false), Ok(()));
    assert!(!vault.compliance_required);
}

#[test]
fn admin_acts_on_a_paused_vault() {
    let mut ctx = admin_records();
    act(&mut ctx, AdminAction::SetPaused { paused: true }, 1).unwrap();
    assert_eq!(act(&mut ctx, AdminAction::UpdateYieldRate { new_rate_bps: 1 }, 2), Ok(None));
    assert_eq!(act(&mut ctx, AdminAction::DepositRewards { amount: 1 }, 2), Ok(Some(1)));
}
