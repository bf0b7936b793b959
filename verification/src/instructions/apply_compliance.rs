use crate::error::ShadowForgeError;
use crate::state::{
    all_zero, is_all_zero, ComplianceAttestation, ComplianceEvent, Pubkey, UserEncryptedPosition,
    VaultConfig, RANGE_PROGRAM_ID,
};
use vstd::prelude::*;

verus! {

/// The highest risk score with which an attestation is taken.
pub const MAX_RISK_SCORE: u8 = 75;

/// The longest validity that an attestation may ask for, in days.
pub const MAX_VALIDITY_DAYS: u16 = 365;

/// The length of a day in seconds.
pub const SECONDS_PER_DAY: i64 = 86_400;

/// The records that a compliance action reads and changes.
#[derive(Clone, Copy, Debug, PartialEq, Eq)]
pub struct ApplyCompliance {
    /// Who acts.
    pub user: Pubkey,
    pub vault_config: VaultConfig,
    pub user_position: UserEncryptedPosition,
    pub compliance_attestation: ComplianceAttestation,
}

/// The steps in the life of an attestation.
#[derive(Clone, Copy, Debug, PartialEq, Eq, Structural)]
pub enum ComplianceAction {
    Submit,
    Verify,
    Revoke,
    Renew,
}

/// A compliance request. The hash and the validity matter to an attestation
/// that is submitted or renewed; the proof and the bounds on the validity are
/// asked of every request.
#[derive(Clone, Copy, Debug, PartialEq, Eq)]
pub struct ApplyComplianceParams {
    pub action: ComplianceAction,
    pub attestation_hash: [u8; 32],
    pub disclosure_proof: [u8; 32],
    pub validity_days: u16,
}

/// The sum of the bytes of `bytes`.
pub open spec fn byte_sum(bytes: Seq<u8>) -> nat
    decreases bytes.len(),
{
    if bytes.len() == 0 {
        0
    } else {
        byte_sum(bytes.drop_last()) + bytes.last() as nat
    }
}

/// The risk score of an attestation hash: the sum of its bytes, modulo 100.
pub open spec fn risk_score(hash: Seq<u8>) -> nat {
    byte_sum(hash) % 100
}

/// Computes the risk score of an attestation hash.
pub fn compute_risk_score(attestation_hash: &[u8; 32]) -> (r: u8)
    ensures
        r == risk_score(attestation_hash@),
        r < 100,
{
    let mut sum: u32 = 0;
    let mut i: usize = 0;
    while i < 32
        invariant
            i <= 32,
            sum == byte_sum(attestation_hash@.take(i as int)),
            sum <= 255 * i,
        decreases 32 - i,
    {
        assert(attestation_hash@.take(i + 1).drop_last() =~= attestation_hash@.take(i as int));
        sum = sum + attestation_hash[i] as u32;
        i += 1;
    }
    assert(attestation_hash@.take(32) =~= attestation_hash@);
    (sum % 100) as u8
}

/// When an attestation made at `now` for `validity_days` days runs out.
pub open spec fn expiry_of(now: i64, validity_days: u16) -> int {
    now + validity_days * SECONDS_PER_DAY
}

/// Why scoring and dating an attestation fails, if it does: the score is over
/// 75, or the expiry does not fit in 64 bits.
pub open spec fn attest_rejection(
    params: ApplyComplianceParams,
    now: i64,
) -> Option<ShadowForgeError> {
    if risk_score(params.attestation_hash@) > MAX_RISK_SCORE {
        Some(ShadowForgeError::ComplianceFailed)
    } else if expiry_of(now, params.validity_days) > i64::MAX {
        Some(ShadowForgeError::AmountOverflow)
    } else {
        None
    }
}

/// Whether the record holds an attestation that can be renewed at `now` for
/// the user `user`: one was submitted, by this user, and it is valid or has
/// run out.
pub open spec fn renewable(attestation: ComplianceAttestation, user: Pubkey, now: i64) -> bool {
    &&& !attestation.spec_is_blank()
    &&& attestation.user == user
    &&& (attestation.is_valid || attestation.expires_at <= now)
}

/// Tells whether the record holds an attestation that can be renewed at `now`
/// for the user `user`.
pub fn is_renewable(attestation: &ComplianceAttestation, user: &Pubkey, now: i64) -> (r: bool)
    ensures
        r == renewable(*attestation, *user, now),
{
    !attestation.is_blank() && attestation.user.is(user) && (attestation.is_valid
        || attestation.expires_at <= now)
}

/// Why the action itself is refused, if it is, once the gates in front of
/// every compliance action are passed.
pub open spec fn action_rejection(
    ctx: ApplyCompliance,
    params: ApplyComplianceParams,
    now: i64,
) -> Option<ShadowForgeError> {
    let attestation = ctx.compliance_attestation;
    match params.action {
        ComplianceAction::Submit => if attestation.is_valid {
            Some(ShadowForgeError::ComplianceExpired)
        } else {
            attest_rejection(params, now)
        },
        ComplianceAction::Verify => if !attestation.is_valid {
            Some(ShadowForgeError::ComplianceFailed)
        } else if !(attestation.expires_at > now) {
            Some(ShadowForgeError::ComplianceExpired)
        } else if !ctx.user_position.spec_is_compliant(now) {
            Some(ShadowForgeError::ComplianceExpired)
        } else {
            None
        },
        ComplianceAction::Revoke => if !attestation.is_valid {
            Some(ShadowForgeError::ComplianceFailed)
        } else {
            None
        },
        ComplianceAction::Renew => if !renewable(attestation, ctx.user, now) {
            Some(ShadowForgeError::ComplianceFailed)
        } else {
            attest_rejection(params, now)
        },
    }
}

/// Why a compliance action is refused, if it is. The first reason that
/// applies, in this order: the vault is not operational; the compliance
/// feature is off; the position is not the user's; the disclosure proof is
/// all zero; the validity is not between 1 and 365 days; the action's own
/// reason.
pub open spec fn rejection(
    ctx: ApplyCompliance,
    params: ApplyComplianceParams,
    now: i64,
) -> Option<ShadowForgeError> {
    if !ctx.vault_config.is_operational() {
        Some(ShadowForgeError::VaultPaused)
    } else if !ctx.vault_config.range_enabled {
        Some(ShadowForgeError::ExternalSdkFailed)
    } else if ctx.user_position.owner != ctx.user {
        Some(ShadowForgeError::InvalidAuthority)
    } else if all_zero(params.disclosure_proof@) {
        Some(ShadowForgeError::InvalidProof)
    } else if !(0 < params.validity_days <= MAX_VALIDITY_DAYS) {
        Some(ShadowForgeError::ComplianceExpired)
    } else {
        action_rejection(ctx, params, now)
    }
}

/// The attestation after an action that was taken. Submitting writes the whole
/// record; renewing scores and dates it anew and keeps user and provider;
/// revoking clears its validity; verifying changes nothing.
pub open spec fn attestation_after(
    ctx: ApplyCompliance,
    params: ApplyComplianceParams,
    now: i64,
) -> ComplianceAttestation {
    let attestation = ctx.compliance_attestation;
    match params.action {
        ComplianceAction::Submit => ComplianceAttestation {
            user: ctx.user,
            provider: Pubkey { bytes: RANGE_PROGRAM_ID },
            attestation_hash: params.attestation_hash,
            attested_at: now,
            expires_at: expiry_of(now, params.validity_days) as i64,
            risk_score: risk_score(params.attestation_hash@) as u8,
            is_valid: true,
        },
        ComplianceAction::Verify => attestation,
        ComplianceAction::Revoke => ComplianceAttestation { is_valid: false, ..attestation },
        ComplianceAction::Renew => ComplianceAttestation {
            attestation_hash: params.attestation_hash,
            attested_at: now,
            expires_at: expiry_of(now, params.validity_days) as i64,
            risk_score: risk_score(params.attestation_hash@) as u8,
            is_valid: true,
            ..attestation
        },
    }
}

/// The position after an action that was taken: its compliance mark follows
/// the attestation, and the time is noted.
pub open spec fn position_after(
    ctx: ApplyCompliance,
    params: ApplyComplianceParams,
    now: i64,
) -> UserEncryptedPosition {
    let position = ctx.user_position;
    match params.action {
        ComplianceAction::Submit | ComplianceAction::Renew => UserEncryptedPosition {
            compliance_verified: true,
            compliance_expiry: expiry_of(now, params.validity_days) as i64,
            last_action_at: now,
            ..position
        },
        ComplianceAction::Verify => UserEncryptedPosition { last_action_at: now, ..position },
        ComplianceAction::Revoke => UserEncryptedPosition {
            compliance_verified: false,
            compliance_expiry: 0,
            last_action_at: now,
            ..position
        },
    }
}

/// The records after a compliance action that was taken.
pub open spec fn settled(
    ctx: ApplyCompliance,
    params: ApplyComplianceParams,
    now: i64,
) -> ApplyCompliance {
    ApplyCompliance {
        user_position: position_after(ctx, params, now),
        compliance_attestation: attestation_after(ctx, params, now),
        ..ctx
    }
}

/// The record of an action that was taken: the user, the provider, and the
/// risk score and expiry that the attestation has after the action.
pub open spec fn event_of(
    ctx: ApplyCompliance,
    params: ApplyComplianceParams,
    now: i64,
) -> ComplianceEvent {
    let attestation = attestation_after(ctx, params, now);
    ComplianceEvent {
        user: ctx.user,
        provider: Pubkey { bytes: RANGE_PROGRAM_ID },
        risk_score: attestation.risk_score,
        expires_at: attestation.expires_at,
    }
}

/// Scores and dates an attestation: the risk score and the expiry, in that
/// order.
fn attest(params: &ApplyComplianceParams, now: i64) -> (r: Result<(u8, i64), ShadowForgeError>)
    requires
        params.validity_days <= MAX_VALIDITY_DAYS,
    ensures
        match r {
            Ok((score, expiry)) => {
                &&& attest_rejection(*params, now) is None
                &&& score == risk_score(params.attestation_hash@)
                &&& expiry == expiry_of(now, params.validity_days)
            },
            Err(e) => attest_rejection(*params, now) == Some(e),
        },
{
    let score: u8 = compute_risk_score(&params.attestation_hash);
    if score > MAX_RISK_SCORE {
        return Err(ShadowForgeError::ComplianceFailed);
    }
    match now.checked_add((params.validity_days as i64) * SECONDS_PER_DAY) {
        Some(expiry) => Ok((score, expiry)),
        None => Err(ShadowForgeError::AmountOverflow),
    }
}

/// Decides whether a compliance action is taken. For an attestation that is
/// submitted or renewed, the result is its risk score and expiry.
fn validate(
    ctx: &ApplyCompliance,
    params: &ApplyComplianceParams,
    now: i64,
) -> (r: Result<Option<(u8, i64)>, ShadowForgeError>)
    ensures
        match r {
            Ok(attested) => {
                &&& rejection(*ctx, *params, now) is None
                &&& match params.action {
                    ComplianceAction::Submit | ComplianceAction::Renew => attested == Some(
                        (
                            risk_score(params.attestation_hash@) as u8,
                            expiry_of(now, params.validity_days) as i64,
                        ),
                    ),
                    _ => attested is None,
                }
            },
            Err(e) => rejection(*ctx, *params, now) == Some(e),
        },
{
    if !ctx.vault_config.is_operational() {
        return Err(ShadowForgeError::VaultPaused);
    }
    if !ctx.vault_config.range_enabled {
        return Err(ShadowForgeError::ExternalSdkFailed);
    }
    if !ctx.user_position.owner.is(&ctx.user) {
        return Err(ShadowForgeError::InvalidAuthority);
    }
    if is_all_zero(&params.disclosure_proof) {
        return Err(ShadowForgeError::InvalidProof);
    }
    if !(params.validity_days > 0 && params.validity_days <= MAX_VALIDITY_DAYS) {
        return Err(ShadowForgeError::ComplianceExpired);
    }
    let attestation = &ctx.compliance_attestation;
    match params.action {
        ComplianceAction::Submit => {
            if attestation.is_valid {
                return Err(ShadowForgeError::ComplianceExpired);
            }
            match attest(params, now) {
                Ok(attested) => Ok(Some(attested)),
                Err(e) => Err(e),
            }
        },
        ComplianceAction::Verify => {
            if !attestation.is_valid {
                return Err(ShadowForgeError::ComplianceFailed);
            }
            if !(attestation.expires_at > now) {
                return Err(ShadowForgeError::ComplianceExpired);
            }
            if !ctx.user_position.is_compliant(now) {
                return Err(ShadowForgeError::ComplianceExpired);
            }
            Ok(None)
        },
        ComplianceAction::Revoke => {
            if !attestation.is_valid {
                return Err(ShadowForgeError::ComplianceFailed);
            }
            Ok(None)
        },
        ComplianceAction::Renew => {
            if !is_renewable(attestation, &ctx.user, now) {
                return Err(ShadowForgeError::ComplianceFailed);
            }
            match attest(params, now) {
                Ok(attested) => Ok(Some(attested)),
                Err(e) => Err(e),
            }
        },
    }
}

/// Computes the attestation after an action that was found good; `attested`
/// is the risk score and expiry of one that is submitted or renewed.
fn next_attestation(
    ctx: &ApplyCompliance,
    params: &ApplyComplianceParams,
    now: i64,
    attested: Option<(u8, i64)>,
) -> (r: ComplianceAttestation)
    requires
        match params.action {
            ComplianceAction::Submit | ComplianceAction::Renew => attested == Some(
                (
                    risk_score(params.attestation_hash@) as u8,
                    expiry_of(now, params.validity_days) as i64,
                ),
            ),
            _ => true,
        },
    ensures
        r == attestation_after(*ctx, *params, now),
{
    let attestation = &ctx.compliance_attestation;
    let (score, expiry) = match attested {
        Some(pair) => pair,
        None => (attestation.risk_score, attestation.expires_at),
    };
    match params.action {
        ComplianceAction::Submit => ComplianceAttestation {
            user: ctx.user,
            provider: Pubkey { bytes: RANGE_PROGRAM_ID },
            attestation_hash: params.attestation_hash,
            attested_at: now,
            expires_at: expiry,
            risk_score: score,
            is_valid: true,
        },
        ComplianceAction::Verify => *attestation,
        ComplianceAction::Revoke => ComplianceAttestation { is_valid: false, ..*attestation },
        ComplianceAction::Renew => ComplianceAttestation {
            attestation_hash: params.attestation_hash,
            attested_at: now,
            expires_at: expiry,
            risk_score: score,
            is_valid: true,
            ..*attestation
        },
    }
}

/// Computes the position after an action that was found good; `attested` is
/// the risk score and expiry of an attestation that is submitted or renewed.
fn next_position(
    ctx: &ApplyCompliance,
    params: &ApplyComplianceParams,
    now: i64,
    attested: Option<(u8, i64)>,
) -> (r: UserEncryptedPosition)
    requires
        match params.action {
            ComplianceAction::Submit | ComplianceAction::Renew => attested == Some(
                (
                    risk_score(params.attestation_hash@) as u8,
                    expiry_of(now, params.validity_days) as i64,
                ),
            ),
            _ => true,
        },
    ensures
        r == position_after(*ctx, *params, now),
{
    let position = &ctx.user_position;
    let expiry: i64 = match attested {
        Some((_, expiry)) => expiry,
        None => 0,
    };
    match params.action {
        ComplianceAction::Submit | ComplianceAction::Renew => UserEncryptedPosition {
            compliance_verified: true,
            compliance_expiry: expiry,
            last_action_at: now,
            ..*position
        },
        ComplianceAction::Verify => UserEncryptedPosition { last_action_at: now, ..*position },
        ComplianceAction::Revoke => UserEncryptedPosition {
            compliance_verified: false,
            compliance_expiry: 0,
            last_action_at: now,
            ..*position
        },
    }
}

/// Takes or refuses a compliance action at the time `now`. An action that is
/// refused changes nothing.
pub fn handler(
    ctx: &mut ApplyCompliance,
    params: ApplyComplianceParams,
    now: i64,
) -> (r: Result<ComplianceEvent, ShadowForgeError>)
    ensures
        match r {
            Ok(event) => {
                &&& rejection(*old(ctx), params, now) is None
                &&& *final(ctx) == settled(*old(ctx), params, now)
                &&& event == event_of(*old(ctx), params, now)
            },
            Err(e) => {
                &&& rejection(*old(ctx), params, now) == Some(e)
                &&& *final(ctx) == *old(ctx)
            },
        },
        params.action != ComplianceAction::Submit && old(ctx).compliance_attestation.spec_is_blank()
            ==> r is Err,
        old(ctx).compliance_attestation.wf() ==> final(ctx).compliance_attestation.wf(),
{
    let attested = match validate(ctx, &params, now) {
        Ok(attested) => attested,
        Err(e) => {
            return Err(e);
        },
    };
    let attestation = next_attestation(ctx, &params, now, attested);
    let position = next_position(ctx, &params, now, attested);
    ctx.compliance_attestation = attestation;
    ctx.user_position = position;
    Ok(
        ComplianceEvent {
            user: ctx.user,
            provider: Pubkey { bytes: RANGE_PROGRAM_ID },
            risk_score: attestation.risk_score,
            expires_at: attestation.expires_at,
        },
    )
}

/// Whether the gates in front of every compliance action let `params`
/// through on the records `ctx`: the vault is operational, the compliance
/// feature is on, the position is the user's, the disclosure proof is not all
/// zero, and the validity is at most 365 days.
pub open spec fn admitted(ctx: ApplyCompliance, params: ApplyComplianceParams) -> bool {
    &&& ctx.vault_config.is_operational()
    &&& ctx.vault_config.range_enabled
    &&& ctx.user_position.owner == ctx.user
    &&& !all_zero(params.disclosure_proof@)
    &&& params.validity_days <= MAX_VALIDITY_DAYS
}

/// Where no attestation is valid yet, submitting one and verifying it at once
/// are both taken exactly if the risk score is at most 75 and the validity is
/// more than zero days. This holds where the gates in front of every
/// compliance action let both requests through and the expiry fits in 64
/// bits.
pub proof fn lemma_submit_then_verify(
    ctx: ApplyCompliance,
    submit: ApplyComplianceParams,
    verify: ApplyComplianceParams,
    now: i64,
)
    requires
        submit.action == ComplianceAction::Submit,
        verify.action == ComplianceAction::Verify,
        admitted(ctx, submit),
        admitted(ctx, verify),
        verify.validity_days > 0,
        !ctx.compliance_attestation.is_valid,
        expiry_of(now, submit.validity_days) <= i64::MAX,
    ensures
        (rejection(ctx, submit, now) is None && rejection(
            settled(ctx, submit, now),
            verify,
            now,
        ) is None) <==> (risk_score(submit.attestation_hash@) <= MAX_RISK_SCORE
            && submit.validity_days > 0),
{
}

/// An attestation that the user submitted and that has run out is renewed if
/// the new risk score is at most 75; it is then valid until the new expiry,
/// and so is the position's compliance mark. This holds where the gates in
/// front of every compliance action let the request through, the validity is
/// more than zero days, and the expiry fits in 64 bits.
pub proof fn lemma_renew_after_expiry(ctx: ApplyCompliance, renew: ApplyComplianceParams, now: i64)
    requires
        renew.action == ComplianceAction::Renew,
        admitted(ctx, renew),
        renew.validity_days > 0,
        expiry_of(now, renew.validity_days) <= i64::MAX,
        !ctx.compliance_attestation.spec_is_blank(),
        ctx.compliance_attestation.user == ctx.user,
        ctx.compliance_attestation.expires_at <= now,
        risk_score(renew.attestation_hash@) <= MAX_RISK_SCORE,
    ensures
        rejection(ctx, renew, now) is None,
        settled(ctx, renew, now).compliance_attestation.spec_is_current(now),
        settled(ctx, renew, now).compliance_attestation.expires_at == expiry_of(
            now,
            renew.validity_days,
        ),
        settled(ctx, renew, now).user_position.spec_is_compliant(now),
{
}

/// An attestation that was submitted can be renewed once it has run out:
/// after a submission that was taken, a renewal at or after the expiry is
/// taken if the new risk score is at most 75. This holds where the gates in
/// front of every compliance action let the renewal through, its validity is
/// more than zero days, and the new expiry fits in 64 bits.
pub proof fn lemma_renew_after_submit(
    ctx: ApplyCompliance,
    submit: ApplyComplianceParams,
    submitted_at: i64,
    renew: ApplyComplianceParams,
    now: i64,
)
    requires
        submit.action == ComplianceAction::Submit,
        renew.action == ComplianceAction::Renew,
        rejection(ctx, submit, submitted_at) is None,
        admitted(ctx, renew),
        renew.validity_days > 0,
        expiry_of(now, renew.validity_days) <= i64::MAX,
        expiry_of(submitted_at, submit.validity_days) <= now,
        risk_score(renew.attestation_hash@) <= MAX_RISK_SCORE,
    ensures
        rejection(settled(ctx, submit, submitted_at), renew, now) is None,
{
}

/// In a record in which nothing was submitted, nothing can be verified,
/// revoked or renewed, whatever the request and the other records hold.
pub proof fn lemma_blank_record_takes_submit_only(
    ctx: ApplyCompliance,
    params: ApplyComplianceParams,
    now: i64,
)
    requires
        ctx.compliance_attestation.spec_is_blank(),
        params.action != ComplianceAction::Submit,
    ensures
        rejection(ctx, params, now) is Some,
{
}

} // verus!
