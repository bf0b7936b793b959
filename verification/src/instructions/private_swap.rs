use crate::error::ShadowForgeError;
use crate::state::{
    all_zero, is_all_zero, xor_blobs, xor_bytes, DarkPoolOrder, EncryptedAmount, OrderSide,
    OrderStatus, PrivateSwapEvent, Pubkey, UserEncryptedPosition, VaultConfig, MAX_BASIS_POINTS,
};
use vstd::prelude::*;

verus! {

/// The largest slippage tolerance that a swap may ask for, in basis points.
pub const MAX_SLIPPAGE_BPS: u16 = 1_000;

/// The records that a swap action reads and changes.
#[derive(Clone, Copy, Debug, PartialEq, Eq)]
pub struct PrivateSwap {
    /// Who swaps.
    pub user: Pubkey,
    pub vault_config: VaultConfig,
    pub user_position: UserEncryptedPosition,
    pub dark_pool_order: DarkPoolOrder,
}

/// Where a swap is routed. The ledger notes the route and does not act on it.
#[derive(Clone, Copy, Debug, PartialEq, Eq)]
pub enum SwapRoute {
    Starpay,
    AnocoinDarkPool,
    /// Part through each; the first part's weight in basis points.
    Split { starpay_weight_bps: u16 },
}

/// What is done: a swap at once, or a step in the life of a limit order.
#[derive(Clone, Copy, Debug, PartialEq, Eq, Structural)]
pub enum SwapAction {
    Execute,
    PlaceLimitOrder,
    CancelOrder,
    MatchDarkPool,
}

/// A swap request. The swap proof is asked of every request; the limit price
/// and the side matter to an order that is placed, the slippage and the route
/// to a swap that is executed.
#[derive(Clone, Copy, Debug, PartialEq, Eq)]
pub struct PrivateSwapParams {
    pub action: SwapAction,
    pub route: SwapRoute,
    pub amount_in_commitment: [u8; 32],
    pub min_out_commitment: [u8; 32],
    pub limit_price_commitment: Option<[u8; 32]>,
    pub side: OrderSide,
    pub swap_proof: [u8; 32],
    pub max_slippage_bps: u16,
}

/// Whether a route is well formed: the weight of a split is at most 10,000
/// basis points.
pub open spec fn route_ok(route: SwapRoute) -> bool {
    match route {
        SwapRoute::Split { starpay_weight_bps } => starpay_weight_bps <= MAX_BASIS_POINTS,
        _ => true,
    }
}

/// Why the action itself is refused, if it is, once the gates in front of
/// every swap action are passed.
pub open spec fn action_rejection(
    ctx: PrivateSwap,
    params: PrivateSwapParams,
) -> Option<ShadowForgeError> {
    match params.action {
        SwapAction::Execute => if params.max_slippage_bps > MAX_SLIPPAGE_BPS {
            Some(ShadowForgeError::SlippageExceeded)
        } else if !route_ok(params.route) {
            Some(ShadowForgeError::InvalidSwapPath)
        } else {
            None
        },
        SwapAction::PlaceLimitOrder => if !ctx.vault_config.anoncoin_enabled {
            Some(ShadowForgeError::ExternalSdkFailed)
        } else if !ctx.dark_pool_order.status.spec_is_replaceable() {
            Some(ShadowForgeError::DarkPoolFailed)
        } else if params.limit_price_commitment is None {
            Some(ShadowForgeError::InvalidAmount)
        } else {
            None
        },
        SwapAction::CancelOrder | SwapAction::MatchDarkPool => if ctx.dark_pool_order.status
            != OrderStatus::Open {
            Some(ShadowForgeError::DarkPoolFailed)
        } else {
            None
        },
    }
}

/// Why a swap action is refused, if it is. The first reason that applies, in
/// this order: the vault is not operational; neither the swap feature nor the
/// dark pool is enabled; the position is not the user's; the swap proof is
/// all zero; the action's own reason; the action counter is full.
pub open spec fn rejection(
    ctx: PrivateSwap,
    params: PrivateSwapParams,
) -> Option<ShadowForgeError> {
    let own = action_rejection(ctx, params);
    if !ctx.vault_config.is_operational() {
        Some(ShadowForgeError::VaultPaused)
    } else if !(ctx.vault_config.starpay_enabled || ctx.vault_config.anoncoin_enabled) {
        Some(ShadowForgeError::ExternalSdkFailed)
    } else if ctx.user_position.owner != ctx.user {
        Some(ShadowForgeError::InvalidAuthority)
    } else if all_zero(params.swap_proof@) {
        Some(ShadowForgeError::InvalidProof)
    } else if own is Some {
        own
    } else if ctx.user_position.action_count == u32::MAX {
        Some(ShadowForgeError::AmountOverflow)
    } else {
        None
    }
}

/// The order after an action that was taken. A limit order that is placed is
/// open and carries the maker, the side, the time and the two commitments; an
/// order that is cancelled or matched changes its state alone.
pub open spec fn order_after(
    ctx: PrivateSwap,
    params: PrivateSwapParams,
    now: i64,
) -> DarkPoolOrder {
    let order = ctx.dark_pool_order;
    match params.action {
        SwapAction::Execute => order,
        SwapAction::PlaceLimitOrder => DarkPoolOrder {
            maker: ctx.user,
            side: params.side,
            encrypted_amount: EncryptedAmount {
                commitment: params.amount_in_commitment,
                ..order.encrypted_amount
            },
            encrypted_price: EncryptedAmount {
                commitment: params.limit_price_commitment->0,
                ..order.encrypted_price
            },
            status: OrderStatus::Open,
            created_at: now,
        },
        SwapAction::CancelOrder => DarkPoolOrder { status: OrderStatus::Cancelled, ..order },
        SwapAction::MatchDarkPool => DarkPoolOrder { status: OrderStatus::Filled, ..order },
    }
}

/// The position after an action that was taken. A swap that is executed
/// records the input commitment as principal and the minimum output as
/// balance; a cancelled order gives its amount back as principal; a matched
/// order leaves its price as balance. Every action notes the time and raises
/// the action counter by one.
pub open spec fn position_after(
    ctx: PrivateSwap,
    params: PrivateSwapParams,
    now: i64,
) -> UserEncryptedPosition {
    let position = ctx.user_position;
    let order = ctx.dark_pool_order;
    UserEncryptedPosition {
        encrypted_principal: match params.action {
            SwapAction::Execute => EncryptedAmount {
                commitment: params.amount_in_commitment,
                ..position.encrypted_principal
            },
            SwapAction::CancelOrder => EncryptedAmount {
                commitment: order.encrypted_amount.commitment,
                ..position.encrypted_principal
            },
            _ => position.encrypted_principal,
        },
        balance_commitment: match params.action {
            SwapAction::Execute => params.min_out_commitment,
            SwapAction::MatchDarkPool => order.encrypted_price.commitment,
            _ => position.balance_commitment,
        },
        last_action_at: now,
        action_count: (position.action_count + 1) as u32,
        ..position
    }
}

/// The records after a swap action that was taken.
pub open spec fn settled(ctx: PrivateSwap, params: PrivateSwapParams, now: i64) -> PrivateSwap {
    PrivateSwap {
        user_position: position_after(ctx, params, now),
        dark_pool_order: order_after(ctx, params, now),
        ..ctx
    }
}

/// Whether `event` is the record of the action: the user, the time, and the
/// XOR of the input commitment and the minimum-output commitment.
pub open spec fn is_event_of(
    event: PrivateSwapEvent,
    ctx: PrivateSwap,
    params: PrivateSwapParams,
    now: i64,
) -> bool {
    &&& event.user == ctx.user
    &&& event.timestamp == now
    &&& event.swap_commitment@ == xor_bytes(
        params.amount_in_commitment@,
        params.min_out_commitment@,
    )
}

/// Decides whether a swap action is taken.
fn validate(ctx: &PrivateSwap, params: &PrivateSwapParams) -> (r: Result<(), ShadowForgeError>)
    ensures
        match r {
            Ok(_) => rejection(*ctx, *params) is None,
            Err(e) => rejection(*ctx, *params) == Some(e),
        },
{
    if !ctx.vault_config.is_operational() {
        return Err(ShadowForgeError::VaultPaused);
    }
    if !(ctx.vault_config.starpay_enabled || ctx.vault_config.anoncoin_enabled) {
        return Err(ShadowForgeError::ExternalSdkFailed);
    }
    if !ctx.user_position.owner.is(&ctx.user) {
        return Err(ShadowForgeError::InvalidAuthority);
    }
    if is_all_zero(&params.swap_proof) {
        return Err(ShadowForgeError::InvalidProof);
    }
    match params.action {
        SwapAction::Execute => {
            if params.max_slippage_bps > MAX_SLIPPAGE_BPS {
                return Err(ShadowForgeError::SlippageExceeded);
            }
            match params.route {
                SwapRoute::Split { starpay_weight_bps } => {
                    if starpay_weight_bps > MAX_BASIS_POINTS {
                        return Err(ShadowForgeError::InvalidSwapPath);
                    }
                },
                SwapRoute::Starpay => {},
                SwapRoute::AnocoinDarkPool => {},
            }
        },
        SwapAction::PlaceLimitOrder => {
            if !ctx.vault_config.anoncoin_enabled {
                return Err(ShadowForgeError::ExternalSdkFailed);
            }
            if !ctx.dark_pool_order.status.is_replaceable() {
                return Err(ShadowForgeError::DarkPoolFailed);
            }
            if params.limit_price_commitment.is_none() {
                return Err(ShadowForgeError::InvalidAmount);
            }
        },
        SwapAction::CancelOrder => {
            if ctx.dark_pool_order.status != OrderStatus::Open {
                return Err(ShadowForgeError::DarkPoolFailed);
            }
        },
        SwapAction::MatchDarkPool => {
            if ctx.dark_pool_order.status != OrderStatus::Open {
                return Err(ShadowForgeError::DarkPoolFailed);
            }
        },
    }
    if ctx.user_position.action_count == u32::MAX {
        return Err(ShadowForgeError::AmountOverflow);
    }
    Ok(())
}

/// Computes the order after an action that was found good.
fn next_order(ctx: &PrivateSwap, params: &PrivateSwapParams, now: i64) -> (r: DarkPoolOrder)
    requires
        params.action == SwapAction::PlaceLimitOrder ==> params.limit_price_commitment is Some,
    ensures
        r == order_after(*ctx, *params, now),
{
    let order = &ctx.dark_pool_order;
    match params.action {
        SwapAction::Execute => *order,
        SwapAction::PlaceLimitOrder => {
            let price: [u8; 32] = match params.limit_price_commitment {
                Some(price) => price,
                None => order.encrypted_price.commitment,
            };
            DarkPoolOrder {
                maker: ctx.user,
                side: params.side,
                encrypted_amount: EncryptedAmount {
                    commitment: params.amount_in_commitment,
                    ..order.encrypted_amount
                },
                encrypted_price: EncryptedAmount { commitment: price, ..order.encrypted_price },
                status: OrderStatus::Open,
                created_at: now,
            }
        },
        SwapAction::CancelOrder => DarkPoolOrder { status: OrderStatus::Cancelled, ..*order },
        SwapAction::MatchDarkPool => DarkPoolOrder { status: OrderStatus::Filled, ..*order },
    }
}

/// Computes the position after an action that was found good.
fn next_position(
    ctx: &PrivateSwap,
    params: &PrivateSwapParams,
    now: i64,
) -> (r: UserEncryptedPosition)
    requires
        ctx.user_position.action_count < u32::MAX,
    ensures
        r == position_after(*ctx, *params, now),
{
    let position = &ctx.user_position;
    let order = &ctx.dark_pool_order;
    UserEncryptedPosition {
        encrypted_principal: match params.action {
            SwapAction::Execute => EncryptedAmount {
                commitment: params.amount_in_commitment,
                ..position.encrypted_principal
            },
            SwapAction::CancelOrder => EncryptedAmount {
                commitment: order.encrypted_amount.commitment,
                ..position.encrypted_principal
            },
            _ => position.encrypted_principal,
        },
        balance_commitment: match params.action {
            SwapAction::Execute => params.min_out_commitment,
            SwapAction::MatchDarkPool => order.encrypted_price.commitment,
            _ => position.balance_commitment,
        },
        last_action_at: now,
        action_count: position.action_count + 1,
        ..*position
    }
}

/// Takes or refuses a swap action at the time `now`. An action that is
/// refused changes nothing.
pub fn handler(
    ctx: &mut PrivateSwap,
    params: PrivateSwapParams,
    now: i64,
) -> (r: Result<PrivateSwapEvent, ShadowForgeError>)
    ensures
        match r {
            Ok(event) => {
                &&& rejection(*old(ctx), params) is None
                &&& *final(ctx) == settled(*old(ctx), params, now)
                &&& is_event_of(event, *old(ctx), params, now)
            },
            Err(e) => {
                &&& rejection(*old(ctx), params) == Some(e)
                &&& *final(ctx) == *old(ctx)
            },
        },
        params.action == SwapAction::PlaceLimitOrder && old(ctx).dark_pool_order.status
            == OrderStatus::Open ==> r is Err,
        params.action == SwapAction::PlaceLimitOrder && r is Ok
            ==> final(ctx).dark_pool_order.status == OrderStatus::Open,
{
    match validate(ctx, &params) {
        Ok(_) => {},
        Err(e) => {
            return Err(e);
        },
    }
    let order = next_order(ctx, &params, now);
    let position = next_position(ctx, &params, now);
    ctx.dark_pool_order = order;
    ctx.user_position = position;
    let swap_commitment = xor_blobs(&params.amount_in_commitment, &params.min_out_commitment);
    Ok(PrivateSwapEvent { user: ctx.user, swap_commitment, timestamp: now })
}

} // verus!
