use crate::error::ShadowForgeError;
use crate::state::{
    all_zero, check_compliance, compliance_rejection, fee_on, fee_rejection, is_all_zero,
    same_bytes, split_fee, ComplianceAttestation, EncryptedAmount, PrivateWithdrawEvent, Pubkey,
    UserEncryptedPosition, VaultConfig, MIN_DEPOSIT_LAMPORTS,
};
use vstd::prelude::*;

verus! {

/// The records that a withdrawal reads and changes.
#[derive(Clone, Copy, Debug, PartialEq, Eq)]
pub struct PrivateWithdraw {
    /// Who withdraws.
    pub user: Pubkey,
    pub vault_config: VaultConfig,
    pub user_position: UserEncryptedPosition,
    /// What the vault's custody account holds.
    pub shielded_vault_balance: u64,
    /// The user's attestation, where one exists.
    pub compliance_attestation: Option<ComplianceAttestation>,
}

/// What is withdrawn.
#[derive(Clone, Copy, Debug, PartialEq, Eq)]
pub enum WithdrawType {
    /// Part of the principal; the commitment to what stays is given.
    Partial { amount_commitment: [u8; 32] },
    /// Principal and yield.
    Full,
    /// The yield alone.
    YieldOnly,
}

/// A withdrawal request: what is withdrawn, the two proofs, the nullifier
/// that the withdrawal consumes, and the amount in the clear.
#[derive(Clone, Copy, Debug, PartialEq, Eq)]
pub struct PrivateWithdrawParams {
    pub withdraw_type: WithdrawType,
    pub withdrawal_proof: [u8; 32],
    pub ownership_proof: [u8; 32],
    pub nullifier: [u8; 32],
    pub expected_amount: u64,
}

/// What a withdrawal that was taken asks of the custody layer and of the
/// event log.
#[derive(Clone, Copy, Debug, PartialEq, Eq)]
pub struct WithdrawOutcome {
    /// The fee that stays in the vault.
    pub fee_amount: u64,
    /// What the custody layer pays from the vault to the user.
    pub net_withdrawal: u64,
    pub event: PrivateWithdrawEvent,
}

/// Why a withdrawal is refused, if it is. The first reason that applies, in
/// this order: the vault is not operational; the position is not the user's;
/// a loan is open; a bridge transfer is pending; the compliance gate; one of
/// the two proofs is all zero; the nullifier is the one that the position
/// consumed last; the amount is under the minimum; the fee cannot be taken;
/// the vault's custody balance does not cover the amount; a counter is full.
pub open spec fn rejection(
    ctx: PrivateWithdraw,
    params: PrivateWithdrawParams,
    now: i64,
) -> Option<ShadowForgeError> {
    let gate = compliance_rejection(
        ctx.vault_config.compliance_required,
        ctx.compliance_attestation,
        ctx.user,
        now,
    );
    let fee = fee_rejection(params.expected_amount, ctx.vault_config.withdrawal_fee_bps);
    if !ctx.vault_config.is_operational() {
        Some(ShadowForgeError::VaultPaused)
    } else if ctx.user_position.owner != ctx.user {
        Some(ShadowForgeError::InvalidAuthority)
    } else if ctx.user_position.has_active_loan {
        Some(ShadowForgeError::LoanNotFound)
    } else if ctx.user_position.has_pending_bridge {
        Some(ShadowForgeError::BridgeFailed)
    } else if gate is Some {
        gate
    } else if all_zero(params.withdrawal_proof@) || all_zero(params.ownership_proof@) {
        Some(ShadowForgeError::InvalidProof)
    } else if params.nullifier == ctx.user_position.nullifier {
        Some(ShadowForgeError::InvalidProof)
    } else if params.expected_amount < MIN_DEPOSIT_LAMPORTS {
        Some(ShadowForgeError::MinimumWithdrawalNotMet)
    } else if fee is Some {
        fee
    } else if ctx.shielded_vault_balance < params.expected_amount {
        Some(ShadowForgeError::InsufficientShieldedBalance)
    } else if ctx.user_position.withdrawal_count == u32::MAX || ctx.user_position.action_count
        == u32::MAX {
        Some(ShadowForgeError::AmountOverflow)
    } else {
        None
    }
}

/// The position after a withdrawal that was taken: the commitments as the
/// kind of withdrawal says, the presented nullifier stored, the time noted,
/// and the withdrawal and action counters raised by one.
pub open spec fn position_after(
    position: UserEncryptedPosition,
    params: PrivateWithdrawParams,
    now: i64,
) -> UserEncryptedPosition {
    UserEncryptedPosition {
        encrypted_principal: match params.withdraw_type {
            WithdrawType::Partial { amount_commitment } => EncryptedAmount {
                commitment: amount_commitment,
                ..position.encrypted_principal
            },
            WithdrawType::Full => EncryptedAmount::zero(),
            WithdrawType::YieldOnly => position.encrypted_principal,
        },
        encrypted_yield: match params.withdraw_type {
            WithdrawType::Partial { amount_commitment } => position.encrypted_yield,
            WithdrawType::Full => EncryptedAmount::zero(),
            WithdrawType::YieldOnly => EncryptedAmount::zero(),
        },
        nullifier: params.nullifier,
        last_action_at: now,
        withdrawal_count: (position.withdrawal_count + 1) as u32,
        action_count: (position.action_count + 1) as u32,
        ..position
    }
}

/// The vault after a withdrawal of `amount` that leaves the position as
/// `position`: the value locked goes down by the amount, and the position
/// count by one where the position is closed; both stop at zero.
pub open spec fn vault_after(
    vault: VaultConfig,
    position: UserEncryptedPosition,
    amount: u64,
) -> VaultConfig {
    VaultConfig {
        total_shielded_tvl: if vault.total_shielded_tvl >= amount {
            (vault.total_shielded_tvl - amount) as u64
        } else {
            0
        },
        total_positions: if position.spec_is_closed() && vault.total_positions > 0 {
            (vault.total_positions - 1) as u64
        } else {
            vault.total_positions
        },
        ..vault
    }
}

/// The records after a withdrawal that was taken.
pub open spec fn settled(
    ctx: PrivateWithdraw,
    params: PrivateWithdrawParams,
    now: i64,
) -> PrivateWithdraw {
    let position = position_after(ctx.user_position, params, now);
    PrivateWithdraw {
        user_position: position,
        vault_config: vault_after(ctx.vault_config, position, params.expected_amount),
        ..ctx
    }
}

/// What a withdrawal that was taken hands back: the fee on the amount at the
/// vault's withdrawal rate, the amount less that fee, and the event with the
/// nullifier.
pub open spec fn outcome(
    ctx: PrivateWithdraw,
    params: PrivateWithdrawParams,
    now: i64,
) -> WithdrawOutcome {
    let fee = fee_on(params.expected_amount, ctx.vault_config.withdrawal_fee_bps);
    WithdrawOutcome {
        fee_amount: fee as u64,
        net_withdrawal: (params.expected_amount - fee) as u64,
        event: PrivateWithdrawEvent { user: ctx.user, nullifier: params.nullifier, timestamp: now },
    }
}

/// Decides whether a withdrawal is taken, and splits its amount into fee and
/// net amount, in that order.
fn validate(
    ctx: &PrivateWithdraw,
    params: &PrivateWithdrawParams,
    now: i64,
) -> (r: Result<(u64, u64), ShadowForgeError>)
    ensures
        match r {
            Ok((fee, net)) => {
                &&& rejection(*ctx, *params, now) is None
                &&& fee == fee_on(params.expected_amount, ctx.vault_config.withdrawal_fee_bps)
                &&& net == params.expected_amount - fee
            },
            Err(e) => rejection(*ctx, *params, now) == Some(e),
        },
{
    if !ctx.vault_config.is_operational() {
        return Err(ShadowForgeError::VaultPaused);
    }
    if !ctx.user_position.owner.is(&ctx.user) {
        return Err(ShadowForgeError::InvalidAuthority);
    }
    if ctx.user_position.has_active_loan {
        return Err(ShadowForgeError::LoanNotFound);
    }
    if ctx.user_position.has_pending_bridge {
        return Err(ShadowForgeError::BridgeFailed);
    }
    match check_compliance(
        ctx.vault_config.compliance_required,
        &ctx.compliance_attestation,
        &ctx.user,
        now,
    ) {
        Ok(_) => {},
        Err(e) => {
            return Err(e);
        },
    }
    if is_all_zero(&params.withdrawal_proof) {
        return Err(ShadowForgeError::InvalidProof);
    }
    if is_all_zero(&params.ownership_proof) {
        return Err(ShadowForgeError::InvalidProof);
    }
    if same_bytes(&params.nullifier, &ctx.user_position.nullifier) {
        return Err(ShadowForgeError::InvalidProof);
    }
    if params.expected_amount < MIN_DEPOSIT_LAMPORTS {
        return Err(ShadowForgeError::MinimumWithdrawalNotMet);
    }
    let (fee_amount, net_withdrawal) = match split_fee(
        params.expected_amount,
        ctx.vault_config.withdrawal_fee_bps,
    ) {
        Ok(parts) => parts,
        Err(e) => {
            return Err(e);
        },
    };
    if ctx.shielded_vault_balance < params.expected_amount {
        return Err(ShadowForgeError::InsufficientShieldedBalance);
    }
    if ctx.user_position.withdrawal_count == u32::MAX || ctx.user_position.action_count
        == u32::MAX {
        return Err(ShadowForgeError::AmountOverflow);
    }
    Ok((fee_amount, net_withdrawal))
}

/// Computes the position after a withdrawal that was found good.
fn next_position(
    position: &UserEncryptedPosition,
    params: &PrivateWithdrawParams,
    now: i64,
) -> (r: UserEncryptedPosition)
    requires
        position.withdrawal_count < u32::MAX,
        position.action_count < u32::MAX,
    ensures
        r == position_after(*position, *params, now),
{
    let mut next = *position;
    match params.withdraw_type {
        WithdrawType::Partial { amount_commitment } => {
            next.encrypted_principal.commitment = amount_commitment;
        },
        WithdrawType::Full => {
            next.encrypted_principal = EncryptedAmount::default();
            next.encrypted_yield = EncryptedAmount::default();
        },
        WithdrawType::YieldOnly => {
            next.encrypted_yield = EncryptedAmount::default();
        },
    }
    next.nullifier = params.nullifier;
    next.last_action_at = now;
    next.withdrawal_count = position.withdrawal_count + 1;
    next.action_count = position.action_count + 1;
    next
}

/// Computes the vault after a withdrawal of `amount` that leaves the position
/// as `position`.
fn next_vault(
    vault: &VaultConfig,
    position: &UserEncryptedPosition,
    amount: u64,
) -> (r: VaultConfig)
    ensures
        r == vault_after(*vault, *position, amount),
{
    let mut next = *vault;
    next.total_shielded_tvl = vault.total_shielded_tvl.saturating_sub(amount);
    if position.is_closed() {
        next.total_positions = vault.total_positions.saturating_sub(1);
    }
    next
}

/// Takes or refuses a withdrawal at the time `now`. A withdrawal that is
/// refused changes nothing. After one that is taken, the caller has the
/// custody layer pay `net_withdrawal` from the vault to the user, and drops
/// the changed records if that payment fails.
pub fn handler(
    ctx: &mut PrivateWithdraw,
    params: PrivateWithdrawParams,
    now: i64,
) -> (r: Result<WithdrawOutcome, ShadowForgeError>)
    ensures
        match r {
            Ok(out) => {
                &&& rejection(*old(ctx), params, now) is None
                &&& *final(ctx) == settled(*old(ctx), params, now)
                &&& out == outcome(*old(ctx), params, now)
            },
            Err(e) => {
                &&& rejection(*old(ctx), params, now) == Some(e)
                &&& *final(ctx) == *old(ctx)
            },
        },
        old(ctx).user_position.has_active_loan || old(ctx).user_position.has_pending_bridge
            ==> r is Err,
        params.nullifier == old(ctx).user_position.nullifier ==> r is Err,
        r is Ok ==> final(ctx).user_position.nullifier == params.nullifier,
        r is Ok ==> final(ctx).vault_config.total_shielded_tvl
            <= old(ctx).vault_config.total_shielded_tvl,
        old(ctx).vault_config.wf() ==> final(ctx).vault_config.wf(),
{
    let (fee_amount, net_withdrawal) = match validate(ctx, &params, now) {
        Ok(parts) => parts,
        Err(e) => {
            return Err(e);
        },
    };
    let position = next_position(&ctx.user_position, &params, now);
    let vault = next_vault(&ctx.vault_config, &position, params.expected_amount);
    ctx.user_position = position;
    ctx.vault_config = vault;
    Ok(
        WithdrawOutcome {
            fee_amount,
            net_withdrawal,
            event: PrivateWithdrawEvent {
                user: ctx.user,
                nullifier: params.nullifier,
                timestamp: now,
            },
        },
    )
}

/// No nullifier is taken twice in a row: once a withdrawal with a nullifier
/// was taken, every withdrawal that presents the same nullifier to the
/// position as that withdrawal left it is refused, whatever else it presents
/// and whatever the other records hold.
pub proof fn lemma_replay_refused(
    ctx: PrivateWithdraw,
    first: PrivateWithdrawParams,
    first_at: i64,
    replay_ctx: PrivateWithdraw,
    replay: PrivateWithdrawParams,
    replay_at: i64,
)
    requires
        rejection(ctx, first, first_at) is None,
        replay_ctx.user_position == settled(ctx, first, first_at).user_position,
        replay.nullifier == first.nullifier,
    ensures
        rejection(replay_ctx, replay, replay_at) is Some,
{
}

/// A position with an open loan or a pending bridge transfer cannot be
/// withdrawn from, whatever the other records and the request hold.
pub proof fn lemma_guarded_position_refused(
    ctx: PrivateWithdraw,
    params: PrivateWithdrawParams,
    now: i64,
)
    requires
        ctx.user_position.has_active_loan || ctx.user_position.has_pending_bridge,
    ensures
        rejection(ctx, params, now) is Some,
{
}

} // verus!
