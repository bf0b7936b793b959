use crate::error::ShadowForgeError;
use crate::state::{
    check_compliance, compliance_rejection, fee_on, fee_rejection, split_fee,
    ComplianceAttestation, EncryptedAmount, PrivateDepositEvent, Pubkey, UserEncryptedPosition,
    VaultConfig, MIN_DEPOSIT_LAMPORTS,
};
use vstd::prelude::*;

verus! {

/// The records that a deposit reads and changes.
#[derive(Clone, Copy, Debug, PartialEq, Eq)]
pub struct PrivateDeposit {
    /// Who deposits.
    pub user: Pubkey,
    /// The key under which the vault is stored; a new position refers to it.
    pub vault_key: Pubkey,
    pub vault_config: VaultConfig,
    /// The user's position; blank where the user has none yet.
    pub user_position: UserEncryptedPosition,
    /// The user's attestation, where one exists.
    pub compliance_attestation: Option<ComplianceAttestation>,
}

/// A deposit request: the amount in the clear, and the commitment and
/// blinding factor under which the position records it.
#[derive(Clone, Copy, Debug, PartialEq, Eq)]
pub struct PrivateDepositParams {
    pub amount: u64,
    pub amount_commitment: [u8; 32],
    pub blinding_factor: [u8; 32],
}

/// What a deposit that was taken asks of the custody layer and of the event
/// log.
#[derive(Clone, Copy, Debug, PartialEq, Eq)]
pub struct DepositOutcome {
    /// What the custody layer moves from the user to the vault: the whole
    /// amount.
    pub transfer_amount: u64,
    /// The part of the amount that is the fee.
    pub fee_amount: u64,
    /// The amount less the fee: what the vault's locked value grows by.
    pub net_deposit: u64,
    pub event: PrivateDepositEvent,
}

/// Whether the position has no owner yet, so that a deposit opens it.
pub open spec fn opens_position(ctx: PrivateDeposit) -> bool {
    ctx.user_position.owner == Pubkey::unset()
}

/// What a deposit of `amount` adds to the vault's locked value: the amount
/// less the fee at the vault's deposit rate.
pub open spec fn net_of(ctx: PrivateDeposit, amount: u64) -> int {
    amount - fee_on(amount, ctx.vault_config.deposit_fee_bps)
}

/// Why a deposit is refused, if it is. The first reason that applies, in this
/// order: the vault is not operational; the position is another user's; the
/// amount is under the minimum; the compliance gate; the fee cannot be taken;
/// the position count, the deposit counter, the action counter or the locked
/// value would not fit.
pub open spec fn rejection(
    ctx: PrivateDeposit,
    params: PrivateDepositParams,
    now: i64,
) -> Option<ShadowForgeError> {
    let gate = compliance_rejection(
        ctx.vault_config.compliance_required,
        ctx.compliance_attestation,
        ctx.user,
        now,
    );
    let fee = fee_rejection(params.amount, ctx.vault_config.deposit_fee_bps);
    if !ctx.vault_config.is_operational() {
        Some(ShadowForgeError::VaultPaused)
    } else if !opens_position(ctx) && ctx.user_position.owner != ctx.user {
        Some(ShadowForgeError::InvalidAuthority)
    } else if params.amount < MIN_DEPOSIT_LAMPORTS {
        Some(ShadowForgeError::InvalidAmount)
    } else if gate is Some {
        gate
    } else if fee is Some {
        fee
    } else if opens_position(ctx) && ctx.vault_config.total_positions == u64::MAX {
        Some(ShadowForgeError::AmountOverflow)
    } else if ctx.user_position.deposit_count == u32::MAX || ctx.user_position.action_count
        == u32::MAX {
        Some(ShadowForgeError::AmountOverflow)
    } else if ctx.vault_config.total_shielded_tvl + net_of(ctx, params.amount) > u64::MAX {
        Some(ShadowForgeError::AmountOverflow)
    } else {
        None
    }
}

/// The position after a deposit that was taken. Where the deposit opens the
/// position, it gets its owner, its vault and its time of creation. The
/// principal takes the blinding factor as handle and the given commitment,
/// which is also the balance commitment; the times are noted, and the deposit
/// and action counters are raised by one.
pub open spec fn position_after(
    ctx: PrivateDeposit,
    params: PrivateDepositParams,
    now: i64,
) -> UserEncryptedPosition {
    let position = ctx.user_position;
    UserEncryptedPosition {
        owner: if opens_position(ctx) {
            ctx.user
        } else {
            position.owner
        },
        vault: if opens_position(ctx) {
            ctx.vault_key
        } else {
            position.vault
        },
        created_at: if opens_position(ctx) {
            now
        } else {
            position.created_at
        },
        encrypted_principal: EncryptedAmount {
            handle: params.blinding_factor,
            commitment: params.amount_commitment,
        },
        balance_commitment: params.amount_commitment,
        last_deposit_at: now,
        last_action_at: now,
        deposit_count: (position.deposit_count + 1) as u32,
        action_count: (position.action_count + 1) as u32,
        ..position
    }
}

/// The vault after a deposit that was taken: the locked value grows by the
/// net amount, and the position count by one where the deposit opens the
/// position.
pub open spec fn vault_after(ctx: PrivateDeposit, params: PrivateDepositParams) -> VaultConfig {
    let vault = ctx.vault_config;
    VaultConfig {
        total_shielded_tvl: (vault.total_shielded_tvl + net_of(ctx, params.amount)) as u64,
        total_positions: if opens_position(ctx) {
            (vault.total_positions + 1) as u64
        } else {
            vault.total_positions
        },
        ..vault
    }
}

/// The records after a deposit that was taken.
pub open spec fn settled(
    ctx: PrivateDeposit,
    params: PrivateDepositParams,
    now: i64,
) -> PrivateDeposit {
    PrivateDeposit {
        user_position: position_after(ctx, params, now),
        vault_config: vault_after(ctx, params),
        ..ctx
    }
}

/// What a deposit that was taken hands back: the whole amount to transfer,
/// the fee, the net amount, and the event with the commitment.
pub open spec fn outcome(
    ctx: PrivateDeposit,
    params: PrivateDepositParams,
    now: i64,
) -> DepositOutcome {
    DepositOutcome {
        transfer_amount: params.amount,
        fee_amount: fee_on(params.amount, ctx.vault_config.deposit_fee_bps) as u64,
        net_deposit: net_of(ctx, params.amount) as u64,
        event: PrivateDepositEvent {
            user: ctx.user,
            commitment: params.amount_commitment,
            timestamp: now,
        },
    }
}

/// Decides whether a deposit is taken, and splits its amount into fee and net
/// amount, in that order.
fn validate(
    ctx: &PrivateDeposit,
    params: &PrivateDepositParams,
    now: i64,
) -> (r: Result<(u64, u64), ShadowForgeError>)
    ensures
        match r {
            Ok((fee, net)) => {
                &&& rejection(*ctx, *params, now) is None
                &&& fee == fee_on(params.amount, ctx.vault_config.deposit_fee_bps)
                &&& net == net_of(*ctx, params.amount)
            },
            Err(e) => rejection(*ctx, *params, now) == Some(e),
        },
{
    if !ctx.vault_config.is_operational() {
        return Err(ShadowForgeError::VaultPaused);
    }
    let is_new_position: bool = ctx.user_position.owner.is_unset();
    if !is_new_position && !ctx.user_position.owner.is(&ctx.user) {
        return Err(ShadowForgeError::InvalidAuthority);
    }
    if params.amount < MIN_DEPOSIT_LAMPORTS {
        return Err(ShadowForgeError::InvalidAmount);
    }
    match check_compliance(
        ctx.vault_config.compliance_required,
        &ctx.compliance_attestation,
        &ctx.user,
        now,
    ) {
        Ok(_) => {},
        Err(e) => {
            return Err(e);
        },
    }
    let (fee_amount, net_deposit) = match split_fee(
        params.amount,
        ctx.vault_config.deposit_fee_bps,
    ) {
        Ok(parts) => parts,
        Err(e) => {
            return Err(e);
        },
    };
    if is_new_position && ctx.vault_config.total_positions == u64::MAX {
        return Err(ShadowForgeError::AmountOverflow);
    }
    if ctx.user_position.deposit_count == u32::MAX || ctx.user_position.action_count == u32::MAX {
        return Err(ShadowForgeError::AmountOverflow);
    }
    if ctx.vault_config.total_shielded_tvl.checked_add(net_deposit).is_none() {
        return Err(ShadowForgeError::AmountOverflow);
    }
    Ok((fee_amount, net_deposit))
}

/// Computes the position after a deposit that was found good.
fn next_position(
    ctx: &PrivateDeposit,
    params: &PrivateDepositParams,
    now: i64,
) -> (r: UserEncryptedPosition)
    requires
        ctx.user_position.deposit_count < u32::MAX,
        ctx.user_position.action_count < u32::MAX,
    ensures
        r == position_after(*ctx, *params, now),
{
    let position = &ctx.user_position;
    let opens: bool = position.owner.is_unset();
    UserEncryptedPosition {
        owner: if opens {
            ctx.user
        } else {
            position.owner
        },
        vault: if opens {
            ctx.vault_key
        } else {
            position.vault
        },
        created_at: if opens {
            now
        } else {
            position.created_at
        },
        encrypted_principal: EncryptedAmount {
            handle: params.blinding_factor,
            commitment: params.amount_commitment,
        },
        balance_commitment: params.amount_commitment,
        last_deposit_at: now,
        last_action_at: now,
        deposit_count: position.deposit_count + 1,
        action_count: position.action_count + 1,
        ..*position
    }
}

/// Computes the vault after a deposit that was found good and adds
/// `net_deposit` to the locked value.
fn next_vault(
    ctx: &PrivateDeposit,
    params: &PrivateDepositParams,
    net_deposit: u64,
) -> (r: VaultConfig)
    requires
        net_deposit == net_of(*ctx, params.amount),
        ctx.vault_config.total_shielded_tvl + net_deposit <= u64::MAX,
        opens_position(*ctx) ==> ctx.vault_config.total_positions < u64::MAX,
    ensures
        r == vault_after(*ctx, *params),
{
    let vault = &ctx.vault_config;
    VaultConfig {
        total_shielded_tvl: vault.total_shielded_tvl + net_deposit,
        total_positions: if ctx.user_position.owner.is_unset() {
            vault.total_positions + 1
        } else {
            vault.total_positions
        },
        ..*vault
    }
}

/// Takes or refuses a deposit at the time `now`. A deposit that is refused
/// changes nothing. After one that is taken, the caller has the custody layer
/// move `transfer_amount` from the user to the vault, and drops the changed
/// records if that transfer fails.
pub fn handler(
    ctx: &mut PrivateDeposit,
    params: PrivateDepositParams,
    now: i64,
) -> (r: Result<DepositOutcome, ShadowForgeError>)
    ensures
        match r {
            Ok(out) => {
                &&& rejection(*old(ctx), params, now) is None
                &&& *final(ctx) == settled(*old(ctx), params, now)
                &&& out == outcome(*old(ctx), params, now)
            },
            Err(e) => {
                &&& rejection(*old(ctx), params, now) == Some(e)
                &&& *final(ctx) == *old(ctx)
            },
        },
        r is Ok ==> params.amount >= MIN_DEPOSIT_LAMPORTS,
        r is Ok ==> final(ctx).vault_config.total_shielded_tvl
            == old(ctx).vault_config.total_shielded_tvl + params.amount - fee_on(
            params.amount,
            old(ctx).vault_config.deposit_fee_bps,
        ),
        r is Ok ==> final(ctx).user_position.owner == old(ctx).user,
        old(ctx).vault_config.wf() ==> final(ctx).vault_config.wf(),
{
    let (fee_amount, net_deposit) = match validate(ctx, &params, now) {
        Ok(parts) => parts,
        Err(e) => {
            return Err(e);
        },
    };
    let position = next_position(ctx, &params, now);
    let vault = next_vault(ctx, &params, net_deposit);
    ctx.user_position = position;
    ctx.vault_config = vault;
    Ok(
        DepositOutcome {
            transfer_amount: params.amount,
            fee_amount,
            net_deposit,
            event: PrivateDepositEvent {
                user: ctx.user,
                commitment: params.amount_commitment,
                timestamp: now,
            },
        },
    )
}

/// The records `ctx` with `vault` in place of their vault.
pub open spec fn on_vault(ctx: PrivateDeposit, vault: VaultConfig) -> PrivateDeposit {
    PrivateDeposit { vault_config: vault, ..ctx }
}

/// Deposits into different positions commute. If one deposit and then
/// another are taken on a vault, then they are also taken in the other
/// order, and either order leaves the same vault and the same two positions.
pub proof fn lemma_deposits_commute(
    vault: VaultConfig,
    a: PrivateDeposit,
    a_params: PrivateDepositParams,
    a_at: i64,
    b: PrivateDeposit,
    b_params: PrivateDepositParams,
    b_at: i64,
)
    requires
        rejection(on_vault(a, vault), a_params, a_at) is None,
        rejection(
            on_vault(b, settled(on_vault(a, vault), a_params, a_at).vault_config),
            b_params,
            b_at,
        ) is None,
    ensures
        ({
            let a_first = settled(on_vault(a, vault), a_params, a_at);
            let b_second = settled(on_vault(b, a_first.vault_config), b_params, b_at);
            let b_first = settled(on_vault(b, vault), b_params, b_at);
            let a_second = settled(on_vault(a, b_first.vault_config), a_params, a_at);
            &&& rejection(on_vault(b, vault), b_params, b_at) is None
            &&& rejection(on_vault(a, b_first.vault_config), a_params, a_at) is None
            &&& a_second.vault_config == b_second.vault_config
            &&& a_second.user_position == a_first.user_position
            &&& b_second.user_position == b_first.user_position
        }),
{
    let a_first = settled(on_vault(a, vault), a_params, a_at);
    let b_first = settled(on_vault(b, vault), b_params, b_at);
    assert(0 <= fee_on(a_params.amount, vault.deposit_fee_bps) <= a_params.amount);
    assert(0 <= fee_on(b_params.amount, vault.deposit_fee_bps) <= b_params.amount);
    assert(a_first.vault_config.deposit_fee_bps == vault.deposit_fee_bps);
    assert(b_first.vault_config.deposit_fee_bps == vault.deposit_fee_bps);
}

} // verus!
