use crate::error::ShadowForgeError;
use crate::state::{
    EncryptedAmount, LendingPosition, Pubkey, UserEncryptedPosition, VaultConfig,
    LIQUIDATION_THRESHOLD_BPS,
};
use vstd::prelude::*;

verus! {

/// The records that a lending action reads and changes.
#[derive(Clone, Copy, Debug, PartialEq, Eq)]
pub struct PrivateLend {
    /// Who borrows or repays.
    pub user: Pubkey,
    pub vault_config: VaultConfig,
    pub user_position: UserEncryptedPosition,
    /// The user's loan record; blank where the user never borrowed.
    pub lending_position: LendingPosition,
}

/// What is done to a loan. The ledger records the commitments that an action
/// names and does not hold them against one another.
#[derive(Clone, Copy, Debug, PartialEq, Eq)]
pub enum LendingAction {
    Borrow { collateral_commitment: [u8; 32], borrow_commitment: [u8; 32] },
    Repay { repayment_commitment: [u8; 32] },
    AddCollateral { amount_commitment: [u8; 32] },
    WithdrawCollateral { amount_commitment: [u8; 32] },
}

/// A lending request. The interest rate matters to a loan that is opened.
#[derive(Clone, Copy, Debug, PartialEq, Eq)]
pub struct PrivateLendParams {
    pub action: LendingAction,
    pub interest_rate_bps: u16,
}

/// Whether the position's loan flag and the loan record agree.
pub open spec fn linked(ctx: PrivateLend) -> bool {
    ctx.user_position.has_active_loan == ctx.lending_position.is_active
}

/// Whether the action fits the state of the loan: borrowing asks that no loan
/// is open, every other action that one is.
pub open spec fn fits_loan_state(action: LendingAction, loan: LendingPosition) -> bool {
    match action {
        LendingAction::Borrow { .. } => !loan.is_active,
        _ => loan.is_active,
    }
}

/// Why a lending action is refused, if it is. The first reason that applies,
/// in this order: the vault is not operational; the lending feature is off;
/// the position is not the user's; the action does not fit the state of the
/// loan; the action counter is full.
pub open spec fn rejection(
    ctx: PrivateLend,
    params: PrivateLendParams,
) -> Option<ShadowForgeError> {
    if !ctx.vault_config.is_operational() {
        Some(ShadowForgeError::VaultPaused)
    } else if !ctx.vault_config.privacy_cash_enabled {
        Some(ShadowForgeError::ExternalSdkFailed)
    } else if ctx.user_position.owner != ctx.user {
        Some(ShadowForgeError::InvalidAuthority)
    } else if !fits_loan_state(params.action, ctx.lending_position) {
        Some(ShadowForgeError::LoanNotFound)
    } else if ctx.user_position.action_count == u32::MAX {
        Some(ShadowForgeError::AmountOverflow)
    } else {
        None
    }
}

/// The loan after an action that was taken. Borrowing opens it for the user
/// with the two commitments, the given rate, the time, and the fixed
/// liquidation threshold; repaying closes it; the collateral actions replace
/// the collateral commitment.
pub open spec fn loan_after(
    ctx: PrivateLend,
    params: PrivateLendParams,
    now: i64,
) -> LendingPosition {
    let loan = ctx.lending_position;
    match params.action {
        LendingAction::Borrow { collateral_commitment, borrow_commitment } => LendingPosition {
            borrower: ctx.user,
            encrypted_collateral: EncryptedAmount {
                commitment: collateral_commitment,
                ..loan.encrypted_collateral
            },
            encrypted_borrow: EncryptedAmount {
                commitment: borrow_commitment,
                ..loan.encrypted_borrow
            },
            interest_rate_bps: params.interest_rate_bps,
            originated_at: now,
            last_accrual_at: now,
            liquidation_threshold_bps: LIQUIDATION_THRESHOLD_BPS,
            is_active: true,
        },
        LendingAction::Repay { repayment_commitment } => LendingPosition {
            is_active: false,
            ..loan
        },
        LendingAction::AddCollateral { amount_commitment } => LendingPosition {
            encrypted_collateral: EncryptedAmount {
                commitment: amount_commitment,
                ..loan.encrypted_collateral
            },
            ..loan
        },
        LendingAction::WithdrawCollateral { amount_commitment } => LendingPosition {
            encrypted_collateral: EncryptedAmount {
                commitment: amount_commitment,
                ..loan.encrypted_collateral
            },
            ..loan
        },
    }
}

/// The position after an action that was taken. Borrowing sets the loan flag
/// and records the borrow commitment in the yield slot; repaying clears the
/// flag and the yield slot; the collateral actions leave both. Every action
/// notes the time and raises the action counter by one.
pub open spec fn position_after(
    position: UserEncryptedPosition,
    params: PrivateLendParams,
    now: i64,
) -> UserEncryptedPosition {
    UserEncryptedPosition {
        has_active_loan: match params.action {
            LendingAction::Borrow { .. } => true,
            LendingAction::Repay { .. } => false,
            _ => position.has_active_loan,
        },
        encrypted_yield: match params.action {
            LendingAction::Borrow { collateral_commitment, borrow_commitment } => EncryptedAmount {
                commitment: borrow_commitment,
                ..position.encrypted_yield
            },
            LendingAction::Repay { .. } => EncryptedAmount::zero(),
            _ => position.encrypted_yield,
        },
        last_action_at: now,
        action_count: (position.action_count + 1) as u32,
        ..position
    }
}

/// The records after a lending action that was taken.
pub open spec fn settled(ctx: PrivateLend, params: PrivateLendParams, now: i64) -> PrivateLend {
    PrivateLend {
        user_position: position_after(ctx.user_position, params, now),
        lending_position: loan_after(ctx, params, now),
        ..ctx
    }
}

/// Decides whether a lending action is taken.
fn validate(ctx: &PrivateLend, params: &PrivateLendParams) -> (r: Result<(), ShadowForgeError>)
    ensures
        match r {
            Ok(_) => rejection(*ctx, *params) is None,
            Err(e) => rejection(*ctx, *params) == Some(e),
        },
{
    if !ctx.vault_config.is_operational() {
        return Err(ShadowForgeError::VaultPaused);
    }
    if !ctx.vault_config.privacy_cash_enabled {
        return Err(ShadowForgeError::ExternalSdkFailed);
    }
    if !ctx.user_position.owner.is(&ctx.user) {
        return Err(ShadowForgeError::InvalidAuthority);
    }
    let fits: bool = match params.action {
        LendingAction::Borrow { .. } => !ctx.lending_position.is_active,
        _ => ctx.lending_position.is_active,
    };
    if !fits {
        return Err(ShadowForgeError::LoanNotFound);
    }
    if ctx.user_position.action_count == u32::MAX {
        return Err(ShadowForgeError::AmountOverflow);
    }
    Ok(())
}

/// Computes the loan after an action that was found good.
fn next_loan(ctx: &PrivateLend, params: &PrivateLendParams, now: i64) -> (r: LendingPosition)
    ensures
        r == loan_after(*ctx, *params, now),
{
    let mut next = ctx.lending_position;
    match params.action {
        LendingAction::Borrow { collateral_commitment, borrow_commitment } => {
            next.borrower = ctx.user;
            next.encrypted_collateral.commitment = collateral_commitment;
            next.encrypted_borrow.commitment = borrow_commitment;
            next.interest_rate_bps = params.interest_rate_bps;
            next.originated_at = now;
            next.last_accrual_at = now;
            next.liquidation_threshold_bps = LIQUIDATION_THRESHOLD_BPS;
            next.is_active = true;
        },
        LendingAction::Repay { repayment_commitment: _ } => {
            next.is_active = false;
        },
        LendingAction::AddCollateral { amount_commitment } => {
            next.encrypted_collateral.commitment = amount_commitment;
        },
        LendingAction::WithdrawCollateral { amount_commitment } => {
            next.encrypted_collateral.commitment = amount_commitment;
        },
    }
    next
}

/// Computes the position after an action that was found good.
fn next_position(
    position: &UserEncryptedPosition,
    params: &PrivateLendParams,
    now: i64,
) -> (r: UserEncryptedPosition)
    requires
        position.action_count < u32::MAX,
    ensures
        r == position_after(*position, *params, now),
{
    let mut next = *position;
    match params.action {
        LendingAction::Borrow { collateral_commitment: _, borrow_commitment } => {
            next.has_active_loan = true;
            next.encrypted_yield.commitment = borrow_commitment;
        },
        LendingAction::Repay { repayment_commitment: _ } => {
            next.has_active_loan = false;
            next.encrypted_yield = EncryptedAmount::default();
        },
        LendingAction::AddCollateral { amount_commitment: _ } => {},
        LendingAction::WithdrawCollateral { amount_commitment: _ } => {},
    }
    next.last_action_at = now;
    next.action_count = position.action_count + 1;
    next
}

/// Takes or refuses a lending action at the time `now`. An action that is
/// refused changes nothing.
pub fn handler(
    ctx: &mut PrivateLend,
    params: PrivateLendParams,
    now: i64,
) -> (r: Result<(), ShadowForgeError>)
    ensures
        match r {
            Ok(_) => {
                &&& rejection(*old(ctx), params) is None
                &&& *final(ctx) == settled(*old(ctx), params, now)
            },
            Err(e) => {
                &&& rejection(*old(ctx), params) == Some(e)
                &&& *final(ctx) == *old(ctx)
            },
        },
        params.action is Borrow && old(ctx).lending_position.is_active ==> r is Err,
        !(params.action is Borrow) && !old(ctx).lending_position.is_active ==> r is Err,
        r is Ok ==> final(ctx).lending_position.is_active == !(params.action is Repay),
        linked(*old(ctx)) ==> linked(*final(ctx)),
        old(ctx).lending_position.wf() ==> final(ctx).lending_position.wf(),
{
    match validate(ctx, &params) {
        Ok(_) => {},
        Err(e) => {
            return Err(e);
        },
    }
    let loan = next_loan(ctx, &params, now);
    let position = next_position(&ctx.user_position, &params, now);
    ctx.lending_position = loan;
    ctx.user_position = position;
    Ok(())
}

} // verus!
