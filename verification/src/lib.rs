//! A confidential-balance ledger. It keeps one vault record and, per user, a
//! shielded position behind opaque commitments. Every action is decided on a
//! fixed set of records and either commits as a whole or changes nothing.
//!
//! The ledger moves no value and reads no clock: each action takes the time
//! as an argument and hands back what the caller is to transfer and to record.

use vstd::prelude::*;

pub mod error;
pub mod instructions;
pub mod state;

use crate::error::ShadowForgeError;
use crate::instructions::accrue_view::{AccrueView, AccrueViewResult};
use crate::instructions::admin_mock_yield::{AdminMockYield, AdminMockYieldParams};
use crate::instructions::apply_compliance::{ApplyCompliance, ApplyComplianceParams};
use crate::instructions::initialize::{Initialize, InitializeParams};
use crate::instructions::private_bridge::{PrivateBridge, PrivateBridgeParams};
use crate::instructions::private_deposit::{DepositOutcome, PrivateDeposit, PrivateDepositParams};
use crate::instructions::private_lend::{PrivateLend, PrivateLendParams};
use crate::instructions::private_swap::{PrivateSwap, PrivateSwapParams};
use crate::instructions::private_withdraw::{
    PrivateWithdraw, PrivateWithdrawParams, WithdrawOutcome,
};
use crate::state::{BridgeRequestEvent, ComplianceEvent, PrivateSwapEvent};

verus! {

/// Bootstraps the vault.
pub fn initialize(
    ctx: &mut Initialize,
    params: InitializeParams,
    now: i64,
) -> (r: Result<(), ShadowForgeError>)
    ensures
        match r {
            Ok(_) => {
                &&& params.within_bounds()
                &&& *final(ctx) == (Initialize {
                    vault_config: instructions::initialize::bootstrapped(*old(ctx), params, now),
                    ..*old(ctx)
                })
                &&& final(ctx).vault_config.wf()
            },
            Err(e) => {
                &&& !params.within_bounds()
                &&& e == ShadowForgeError::InvalidMintConfig
                &&& *final(ctx) == *old(ctx)
            },
        },
{
    instructions::initialize::handler(ctx, params, now)
}

/// Takes or refuses a deposit into the vault.
pub fn private_deposit(
    ctx: &mut PrivateDeposit,
    params: PrivateDepositParams,
    now: i64,
) -> (r: Result<DepositOutcome, ShadowForgeError>)
    ensures
        match r {
            Ok(out) => {
                &&& instructions::private_deposit::rejection(*old(ctx), params, now) is None
                &&& *final(ctx) == instructions::private_deposit::settled(*old(ctx), params, now)
                &&& out == instructions::private_deposit::outcome(*old(ctx), params, now)
            },
            Err(e) => {
                &&& instructions::private_deposit::rejection(*old(ctx), params, now) == Some(e)
                &&& *final(ctx) == *old(ctx)
            },
        },
{
    instructions::private_deposit::handler(ctx, params, now)
}

/// Takes or refuses a lending action: borrow, repay, add or withdraw
/// collateral.
pub fn private_lend(
    ctx: &mut PrivateLend,
    params: PrivateLendParams,
    now: i64,
) -> (r: Result<(), ShadowForgeError>)
    ensures
        match r {
            Ok(_) => {
                &&& instructions::private_lend::rejection(*old(ctx), params) is None
                &&& *final(ctx) == instructions::private_lend::settled(*old(ctx), params, now)
            },
            Err(e) => {
                &&& instructions::private_lend::rejection(*old(ctx), params) == Some(e)
                &&& *final(ctx) == *old(ctx)
            },
        },
{
    instructions::private_lend::handler(ctx, params, now)
}

/// Takes or refuses a swap action: execute, place or cancel a limit order,
/// match in the dark pool.
pub fn private_swap(
    ctx: &mut PrivateSwap,
    params: PrivateSwapParams,
    now: i64,
) -> (r: Result<PrivateSwapEvent, ShadowForgeError>)
    ensures
        match r {
            Ok(event) => {
                &&& instructions::private_swap::rejection(*old(ctx), params) is None
                &&& *final(ctx) == instructions::private_swap::settled(*old(ctx), params, now)
                &&& instructions::private_swap::is_event_of(event, *old(ctx), params, now)
            },
            Err(e) => {
                &&& instructions::private_swap::rejection(*old(ctx), params) == Some(e)
                &&& *final(ctx) == *old(ctx)
            },
        },
{
    instructions::private_swap::handler(ctx, params, now)
}

/// Takes or refuses a bridge action: initiate, claim, cancel, verify.
pub fn private_bridge(
    ctx: &mut PrivateBridge,
    params: PrivateBridgeParams,
    now: i64,
) -> (r: Result<BridgeRequestEvent, ShadowForgeError>)
    ensures
        match r {
            Ok(event) => {
                &&& instructions::private_bridge::rejection(*old(ctx), params) is None
                &&& *final(ctx) == instructions::private_bridge::settled(*old(ctx), params, now)
                &&& event == instructions::private_bridge::event_of(*old(ctx), params, now)
            },
            Err(e) => {
                &&& instructions::private_bridge::rejection(*old(ctx), params) == Some(e)
                &&& *final(ctx) == *old(ctx)
            },
        },
{
    instructions::private_bridge::handler(ctx, params, now)
}

/// Takes or refuses a compliance action: submit, verify, revoke, renew.
pub fn apply_compliance(
    ctx: &mut ApplyCompliance,
    params: ApplyComplianceParams,
    now: i64,
) -> (r: Result<ComplianceEvent, ShadowForgeError>)
    ensures
        match r {
            Ok(event) => {
                &&& instructions::apply_compliance::rejection(*old(ctx), params, now) is None
                &&& *final(ctx) == instructions::apply_compliance::settled(*old(ctx), params, now)
                &&& event == instructions::apply_compliance::event_of(*old(ctx), params, now)
            },
            Err(e) => {
                &&& instructions::apply_compliance::rejection(*old(ctx), params, now) == Some(e)
                &&& *final(ctx) == *old(ctx)
            },
        },
{
    instructions::apply_compliance::handler(ctx, params, now)
}

/// Computes the snapshot of a position. Nothing is changed.
pub fn accrue_view(ctx: &AccrueView, now: i64) -> (r: Result<AccrueViewResult, ShadowForgeError>)
    ensures
        match r {
            Ok(view) => {
                &&& instructions::accrue_view::rejection(*ctx, now) is None
                &&& instructions::accrue_view::is_snapshot(view, *ctx, now)
            },
            Err(e) => instructions::accrue_view::rejection(*ctx, now) == Some(e),
        },
{
    instructions::accrue_view::handler(ctx, now)
}

/// Takes or refuses a withdrawal from the vault.
pub fn private_withdraw(
    ctx: &mut PrivateWithdraw,
    params: PrivateWithdrawParams,
    now: i64,
) -> (r: Result<WithdrawOutcome, ShadowForgeError>)
    ensures
        match r {
            Ok(out) => {
                &&& instructions::private_withdraw::rejection(*old(ctx), params, now) is None
                &&& *final(ctx) == instructions::private_withdraw::settled(*old(ctx), params, now)
                &&& out == instructions::private_withdraw::outcome(*old(ctx), params, now)
            },
            Err(e) => {
                &&& instructions::private_withdraw::rejection(*old(ctx), params, now) == Some(e)
                &&& *final(ctx) == *old(ctx)
            },
        },
{
    instructions::private_withdraw::handler(ctx, params, now)
}

/// Takes or refuses an administrative action.
pub fn admin_mock_yield(
    ctx: &mut AdminMockYield,
    params: AdminMockYieldParams,
    now: i64,
) -> (r: Result<Option<u64>, ShadowForgeError>)
    ensures
        match r {
            Ok(transfer) => {
                &&& instructions::admin_mock_yield::rejection(*old(ctx), params) is None
                &&& *final(ctx) == (AdminMockYield {
                    vault_config: instructions::admin_mock_yield::vault_after(
                        old(ctx).vault_config,
                        params.action,
                        now,
                    ),
                    ..*old(ctx)
                })
                &&& transfer == instructions::admin_mock_yield::reward_transfer(params.action)
            },
            Err(e) => {
                &&& instructions::admin_mock_yield::rejection(*old(ctx), params) == Some(e)
                &&& *final(ctx) == *old(ctx)
            },
        },
{
    instructions::admin_mock_yield::handler(ctx, params, now)
}

} // verus!
