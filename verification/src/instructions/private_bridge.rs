use crate::error::ShadowForgeError;
use crate::state::{
    all_zero, is_all_zero, BridgeRequest, BridgeRequestEvent, BridgeStatus, EncryptedAmount,
    Pubkey, UserEncryptedPosition, VaultConfig,
};
use vstd::prelude::*;

verus! {

/// The records that a bridge action reads and changes.
#[derive(Clone, Copy, Debug, PartialEq, Eq)]
pub struct PrivateBridge {
    /// Who bridges.
    pub user: Pubkey,
    pub vault_config: VaultConfig,
    pub user_position: UserEncryptedPosition,
    pub bridge_request: BridgeRequest,
}

/// The chains to which the vault bridges.
#[derive(Clone, Copy, Debug, PartialEq, Eq, Structural)]
pub enum DestinationChain {
    Ethereum,
    Polygon,
    Arbitrum,
    Optimism,
    Base,
    Avalanche,
    Bsc,
}

impl DestinationChain {
    /// The identifier by which the chain is known.
    pub open spec fn spec_to_chain_id(&self) -> u64 {
        match self {
            DestinationChain::Ethereum => 1,
            DestinationChain::Polygon => 137,
            DestinationChain::Arbitrum => 42161,
            DestinationChain::Optimism => 10,
            DestinationChain::Base => 8453,
            DestinationChain::Avalanche => 43114,
            DestinationChain::Bsc => 56,
        }
    }

    /// The identifier by which the chain is known.
    #[verifier::when_used_as_spec(spec_to_chain_id)]
    pub fn to_chain_id(&self) -> (r: u64)
        ensures
            r == self.spec_to_chain_id(),
            chain_allowed(r),
    {
        match self {
            DestinationChain::Ethereum => 1,
            DestinationChain::Polygon => 137,
            DestinationChain::Arbitrum => 42161,
            DestinationChain::Optimism => 10,
            DestinationChain::Base => 8453,
            DestinationChain::Avalanche => 43114,
            DestinationChain::Bsc => 56,
        }
    }
}

/// Whether a chain identifier is on the list of destinations.
pub open spec fn chain_allowed(dest_chain_id: u64) -> bool {
    dest_chain_id == 1 || dest_chain_id == 137 || dest_chain_id == 42161 || dest_chain_id == 10
        || dest_chain_id == 8453 || dest_chain_id == 43114 || dest_chain_id == 56
}

/// Tells whether a chain identifier is on the list of destinations.
pub fn is_chain_allowed(dest_chain_id: u64) -> (r: bool)
    ensures
        r == chain_allowed(dest_chain_id),
{
    dest_chain_id == 1 || dest_chain_id == 137 || dest_chain_id == 42161 || dest_chain_id == 10
        || dest_chain_id == 8453 || dest_chain_id == 43114 || dest_chain_id == 56
}

/// The steps in the life of a bridge request.
#[derive(Clone, Copy, Debug, PartialEq, Eq, Structural)]
pub enum BridgeAction {
    InitiateOutbound,
    ClaimInbound,
    CancelRequest,
    VerifyCompletion,
}

/// A bridge request. The bridge proof is asked of every request, the inbound
/// proof of a claim.
#[derive(Clone, Copy, Debug, PartialEq, Eq)]
pub struct PrivateBridgeParams {
    pub action: BridgeAction,
    pub dest_chain: DestinationChain,
    pub amount_commitment: [u8; 32],
    pub bridge_proof: [u8; 32],
    pub inbound_proof: Option<[u8; 32]>,
}

/// Whether a request of the user's is outstanding: one was made, it is still
/// pending, and the position carries the pending flag.
pub open spec fn outstanding(ctx: PrivateBridge) -> bool {
    &&& !ctx.bridge_request.spec_is_blank()
    &&& ctx.bridge_request.status == BridgeStatus::Pending
    &&& ctx.user_position.has_pending_bridge
}

/// Tells whether a request of the user's is outstanding.
pub fn is_outstanding(ctx: &PrivateBridge) -> (r: bool)
    ensures
        r == outstanding(*ctx),
{
    !ctx.bridge_request.is_blank() && ctx.bridge_request.status == BridgeStatus::Pending
        && ctx.user_position.has_pending_bridge
}

/// Why the action itself is refused, if it is, once the gates in front of
/// every bridge action are passed. Initiating is refused while a bridge
/// transfer is pending; a claim is refused without an inbound proof that is
/// not all zero; cancelling and verifying are refused unless a request is
/// outstanding.
pub open spec fn action_rejection(
    ctx: PrivateBridge,
    params: PrivateBridgeParams,
) -> Option<ShadowForgeError> {
    match params.action {
        BridgeAction::InitiateOutbound => if ctx.user_position.has_pending_bridge {
            Some(ShadowForgeError::BridgeFailed)
        } else if !chain_allowed(params.dest_chain.spec_to_chain_id()) {
            Some(ShadowForgeError::InvalidDestinationChain)
        } else {
            None
        },
        BridgeAction::ClaimInbound => match params.inbound_proof {
            None => Some(ShadowForgeError::InvalidProof),
            Some(inbound) => if all_zero(inbound@) {
                Some(ShadowForgeError::InvalidProof)
            } else {
                None
            },
        },
        BridgeAction::CancelRequest | BridgeAction::VerifyCompletion => if !outstanding(ctx) {
            Some(ShadowForgeError::BridgeFailed)
        } else {
            None
        },
    }
}

/// Why a bridge action is refused, if it is. The first reason that applies,
/// in this order: the vault is not operational; the bridge feature is off;
/// the position is not the user's; the bridge proof is all zero; the action's
/// own reason; the action counter is full.
pub open spec fn rejection(
    ctx: PrivateBridge,
    params: PrivateBridgeParams,
) -> Option<ShadowForgeError> {
    let own = action_rejection(ctx, params);
    if !ctx.vault_config.is_operational() {
        Some(ShadowForgeError::VaultPaused)
    } else if !ctx.vault_config.silentswap_enabled {
        Some(ShadowForgeError::ExternalSdkFailed)
    } else if ctx.user_position.owner != ctx.user {
        Some(ShadowForgeError::InvalidAuthority)
    } else if all_zero(params.bridge_proof@) {
        Some(ShadowForgeError::InvalidProof)
    } else if own is Some {
        own
    } else if ctx.user_position.action_count == u32::MAX {
        Some(ShadowForgeError::AmountOverflow)
    } else {
        None
    }
}

/// The request after an action that was taken. Initiating writes the whole
/// record and leaves it pending; a claim completes it where it is the position
/// owner's; cancelling marks it failed; verifying marks it completed.
pub open spec fn request_after(
    ctx: PrivateBridge,
    params: PrivateBridgeParams,
    now: i64,
) -> BridgeRequest {
    let request = ctx.bridge_request;
    match params.action {
        BridgeAction::InitiateOutbound => BridgeRequest {
            user: ctx.user,
            dest_chain_id: params.dest_chain.spec_to_chain_id(),
            amount_commitment: params.amount_commitment,
            status: BridgeStatus::Pending,
            created_at: now,
        },
        BridgeAction::ClaimInbound => if request.user == ctx.user_position.owner {
            BridgeRequest { status: BridgeStatus::Completed, ..request }
        } else {
            request
        },
        BridgeAction::CancelRequest => BridgeRequest { status: BridgeStatus::Failed, ..request },
        BridgeAction::VerifyCompletion => BridgeRequest {
            status: BridgeStatus::Completed,
            ..request
        },
    }
}

/// The position after an action that was taken. Initiating and claiming
/// record the given commitment as principal; cancelling records the request's
/// commitment as principal; verifying leaves the principal. The pending flag
/// is set by initiating and cleared by the other three. Every action notes
/// the time and raises the action counter by one.
pub open spec fn position_after(
    ctx: PrivateBridge,
    params: PrivateBridgeParams,
    now: i64,
) -> UserEncryptedPosition {
    let position = ctx.user_position;
    UserEncryptedPosition {
        encrypted_principal: match params.action {
            BridgeAction::InitiateOutbound | BridgeAction::ClaimInbound => EncryptedAmount {
                commitment: params.amount_commitment,
                ..position.encrypted_principal
            },
            BridgeAction::CancelRequest => EncryptedAmount {
                commitment: ctx.bridge_request.amount_commitment,
                ..position.encrypted_principal
            },
            BridgeAction::VerifyCompletion => position.encrypted_principal,
        },
        has_pending_bridge: params.action == BridgeAction::InitiateOutbound,
        last_action_at: now,
        action_count: (position.action_count + 1) as u32,
        ..position
    }
}

/// The records after a bridge action that was taken.
pub open spec fn settled(
    ctx: PrivateBridge,
    params: PrivateBridgeParams,
    now: i64,
) -> PrivateBridge {
    PrivateBridge {
        user_position: position_after(ctx, params, now),
        bridge_request: request_after(ctx, params, now),
        ..ctx
    }
}

/// The record of an action that was taken: the user, the chain and the
/// commitment that the request names, and the time.
pub open spec fn event_of(
    ctx: PrivateBridge,
    params: PrivateBridgeParams,
    now: i64,
) -> BridgeRequestEvent {
    BridgeRequestEvent {
        user: ctx.user,
        dest_chain_id: params.dest_chain.spec_to_chain_id(),
        commitment: params.amount_commitment,
        timestamp: now,
    }
}

/// Decides whether a bridge action is taken.
fn validate(ctx: &PrivateBridge, params: &PrivateBridgeParams) -> (r: Result<(), ShadowForgeError>)
    ensures
        match r {
            Ok(_) => rejection(*ctx, *params) is None,
            Err(e) => rejection(*ctx, *params) == Some(e),
        },
        r != Err::<(), ShadowForgeError>(ShadowForgeError::InvalidDestinationChain),
{
    if !ctx.vault_config.is_operational() {
        return Err(ShadowForgeError::VaultPaused);
    }
    if !ctx.vault_config.silentswap_enabled {
        return Err(ShadowForgeError::ExternalSdkFailed);
    }
    if !ctx.user_position.owner.is(&ctx.user) {
        return Err(ShadowForgeError::InvalidAuthority);
    }
    if is_all_zero(&params.bridge_proof) {
        return Err(ShadowForgeError::InvalidProof);
    }
    match params.action {
        BridgeAction::InitiateOutbound => {
            if ctx.user_position.has_pending_bridge {
                return Err(ShadowForgeError::BridgeFailed);
            }
            if !is_chain_allowed(params.dest_chain.to_chain_id()) {
                return Err(ShadowForgeError::InvalidDestinationChain);
            }
        },
        BridgeAction::ClaimInbound => {
            match params.inbound_proof {
                None => {
                    return Err(ShadowForgeError::InvalidProof);
                },
                Some(inbound) => {
                    if is_all_zero(&inbound) {
                        return Err(ShadowForgeError::InvalidProof);
                    }
                },
            }
        },
        BridgeAction::CancelRequest => {
            if !is_outstanding(ctx) {
                return Err(ShadowForgeError::BridgeFailed);
            }
        },
        BridgeAction::VerifyCompletion => {
            if !is_outstanding(ctx) {
                return Err(ShadowForgeError::BridgeFailed);
            }
        },
    }
    if ctx.user_position.action_count == u32::MAX {
        return Err(ShadowForgeError::AmountOverflow);
    }
    Ok(())
}

/// Computes the request after an action that was found good.
fn next_request(ctx: &PrivateBridge, params: &PrivateBridgeParams, now: i64) -> (r: BridgeRequest)
    ensures
        r == request_after(*ctx, *params, now),
{
    let request = &ctx.bridge_request;
    match params.action {
        BridgeAction::InitiateOutbound => BridgeRequest {
            user: ctx.user,
            dest_chain_id: params.dest_chain.to_chain_id(),
            amount_commitment: params.amount_commitment,
            status: BridgeStatus::Pending,
            created_at: now,
        },
        BridgeAction::ClaimInbound => {
            if request.user.is(&ctx.user_position.owner) {
                BridgeRequest { status: BridgeStatus::Completed, ..*request }
            } else {
                *request
            }
        },
        BridgeAction::CancelRequest => BridgeRequest { status: BridgeStatus::Failed, ..*request },
        BridgeAction::VerifyCompletion => BridgeRequest {
            status: BridgeStatus::Completed,
            ..*request
        },
    }
}

/// Computes the position after an action that was found good.
fn next_position(
    ctx: &PrivateBridge,
    params: &PrivateBridgeParams,
    now: i64,
) -> (r: UserEncryptedPosition)
    requires
        ctx.user_position.action_count < u32::MAX,
    ensures
        r == position_after(*ctx, *params, now),
{
    let position = &ctx.user_position;
    UserEncryptedPosition {
        encrypted_principal: match params.action {
            BridgeAction::InitiateOutbound | BridgeAction::ClaimInbound => EncryptedAmount {
                commitment: params.amount_commitment,
                ..position.encrypted_principal
            },
            BridgeAction::CancelRequest => EncryptedAmount {
                commitment: ctx.bridge_request.amount_commitment,
                ..position.encrypted_principal
            },
            BridgeAction::VerifyCompletion => position.encrypted_principal,
        },
        has_pending_bridge: params.action == BridgeAction::InitiateOutbound,
        last_action_at: now,
        action_count: position.action_count + 1,
        ..*position
    }
}

/// Takes or refuses a bridge action at the time `now`. An action that is
/// refused changes nothing. Since every destination is on the list, no action
/// is refused for its destination.
pub fn handler(
    ctx: &mut PrivateBridge,
    params: PrivateBridgeParams,
    now: i64,
) -> (r: Result<BridgeRequestEvent, ShadowForgeError>)
    ensures
        match r {
            Ok(event) => {
                &&& rejection(*old(ctx), params) is None
                &&& *final(ctx) == settled(*old(ctx), params, now)
                &&& event == event_of(*old(ctx), params, now)
            },
            Err(e) => {
                &&& rejection(*old(ctx), params) == Some(e)
                &&& *final(ctx) == *old(ctx)
            },
        },
        params.action == BridgeAction::InitiateOutbound && old(ctx).user_position.has_pending_bridge
            ==> r is Err,
        (params.action == BridgeAction::CancelRequest || params.action
            == BridgeAction::VerifyCompletion) && !outstanding(*old(ctx)) ==> r is Err,
        r is Ok ==> final(ctx).user_position.has_pending_bridge == (params.action
            == BridgeAction::InitiateOutbound),
        r is Ok ==> final(ctx).bridge_request.status == match params.action {
            BridgeAction::InitiateOutbound => BridgeStatus::Pending,
            BridgeAction::CancelRequest => BridgeStatus::Failed,
            BridgeAction::VerifyCompletion => BridgeStatus::Completed,
            BridgeAction::ClaimInbound => if old(ctx).bridge_request.user == old(
                ctx,
            ).user_position.owner {
                BridgeStatus::Completed
            } else {
                old(ctx).bridge_request.status
            },
        },
        r != Err::<BridgeRequestEvent, ShadowForgeError>(ShadowForgeError::InvalidDestinationChain),
{
    match validate(ctx, &params) {
        Ok(_) => {},
        Err(e) => {
            return Err(e);
        },
    }
    let request = next_request(ctx, &params, now);
    let position = next_position(ctx, &params, now);
    ctx.bridge_request = request;
    ctx.user_position = position;
    Ok(
        BridgeRequestEvent {
            user: ctx.user,
            dest_chain_id: params.dest_chain.to_chain_id(),
            commitment: params.amount_commitment,
            timestamp: now,
        },
    )
}

/// Cancelling a request after it was initiated is not refused for the
/// request's state. Where the cancellation is taken, it leaves the pending
/// flag cleared, the request failed, and the position's principal as the
/// initiation left it, with the commitment that the initiation named.
pub proof fn lemma_cancel_after_initiate(
    ctx: PrivateBridge,
    initiate: PrivateBridgeParams,
    initiated_at: i64,
    cancel: PrivateBridgeParams,
    cancelled_at: i64,
)
    requires
        initiate.action == BridgeAction::InitiateOutbound,
        cancel.action == BridgeAction::CancelRequest,
        rejection(ctx, initiate) is None,
    ensures
        ({
            let pending = settled(ctx, initiate, initiated_at);
            let after = settled(pending, cancel, cancelled_at);
            &&& pending.user_position.has_pending_bridge
            &&& action_rejection(pending, cancel) is None
            &&& !after.user_position.has_pending_bridge
            &&& after.bridge_request.status == BridgeStatus::Failed
            &&& after.user_position.encrypted_principal.commitment == initiate.amount_commitment
            &&& after.user_position.encrypted_principal
                == pending.user_position.encrypted_principal
        }),
{
}

/// In a record in which no request was made, nothing can be cancelled or
/// verified, whatever the request and the other records hold.
pub proof fn lemma_blank_record_refuses_cancel_and_verify(
    ctx: PrivateBridge,
    params: PrivateBridgeParams,
)
    requires
        ctx.bridge_request.spec_is_blank(),
        params.action == BridgeAction::CancelRequest || params.action
            == BridgeAction::VerifyCompletion,
    ensures
        rejection(ctx, params) is Some,
{
}

/// After a request was cancelled or verified, none is outstanding: a second
/// cancellation or verification is refused.
pub proof fn lemma_request_ends_once(
    ctx: PrivateBridge,
    first: PrivateBridgeParams,
    first_at: i64,
    second: PrivateBridgeParams,
)
    requires
        first.action == BridgeAction::CancelRequest || first.action
            == BridgeAction::VerifyCompletion,
        second.action == BridgeAction::CancelRequest || second.action
            == BridgeAction::VerifyCompletion,
        rejection(ctx, first) is None,
    ensures
        rejection(settled(ctx, first, first_at), second) is Some,
{
}

/// Where an initiation names the commitment that the position holds as
/// principal, and the initiation and then the cancellation are taken, the
/// principal is as it was before the initiation, and the pending flag is
/// cleared.
pub proof fn lemma_initiate_then_cancel_restores(
    ctx: PrivateBridge,
    initiate: PrivateBridgeParams,
    initiated_at: i64,
    cancel: PrivateBridgeParams,
    cancelled_at: i64,
)
    requires
        initiate.action == BridgeAction::InitiateOutbound,
        cancel.action == BridgeAction::CancelRequest,
        rejection(ctx, initiate) is None,
        rejection(settled(ctx, initiate, initiated_at), cancel) is None,
        initiate.amount_commitment == ctx.user_position.encrypted_principal.commitment,
    ensures
        ({
            let after = settled(settled(ctx, initiate, initiated_at), cancel, cancelled_at);
            &&& after.user_position.encrypted_principal == ctx.user_position.encrypted_principal
            &&& !after.user_position.has_pending_bridge
        }),
{
}

} // verus!
