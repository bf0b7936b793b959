use crate::error::ShadowForgeError;
use crate::state::{
    xor_bytes, Ciphertext, EncryptedAmount, LendingPosition, Pubkey, UserEncryptedPosition,
    VaultConfig, MAX_BASIS_POINTS,
};
use vstd::prelude::*;

verus! {

/// Yield accrues over at most this many seconds: one year.
pub const SECONDS_PER_YEAR: i64 = 31_536_000;

/// The records that a view reads.
#[derive(Clone, Copy, Debug, PartialEq, Eq)]
pub struct AccrueView {
    /// Who asks.
    pub user: Pubkey,
    pub vault_config: VaultConfig,
    pub user_position: UserEncryptedPosition,
    /// The user's loan record, where one exists.
    pub lending_position: Option<LendingPosition>,
}

/// A point-in-time snapshot of a position.
#[derive(Clone, Copy, Debug, PartialEq, Eq)]
pub struct AccrueViewResult {
    pub encrypted_total_value: EncryptedAmount,
    pub encrypted_accrued_yield: EncryptedAmount,
    pub encrypted_lending_value: EncryptedAmount,
    pub computation_proof: [u8; 32],
    pub computed_at: i64,
    pub current_yield_bps: u16,
    pub has_active_loan: bool,
}

/// The sum of two bytes, wrapping at 256.
pub open spec fn wrapping_sum(x: u8, y: u8) -> u8 {
    ((x + y) % 256) as u8
}

/// The combination of two encrypted amounts: handles are added byte by byte,
/// wrapping, and commitments are XORed byte by byte.
pub open spec fn combine(a: Ciphertext, b: Ciphertext) -> Ciphertext {
    Ciphertext {
        handle: Seq::new(a.handle.len(), |i: int| wrapping_sum(a.handle[i], b.handle[i])),
        commitment: xor_bytes(a.commitment, b.commitment),
    }
}

/// The yield factor of a rate over an elapsed time:
/// `min(elapsed, one year) * rate / 10,000 / one year`, rounded down at each
/// division. The product saturates at the largest 64-bit number. A negative
/// elapsed time counts as the unsigned 64-bit number with the same bits.
pub open spec fn yield_factor(yield_bps: u16, elapsed_seconds: i64) -> int {
    let clamped: int = if elapsed_seconds > SECONDS_PER_YEAR {
        SECONDS_PER_YEAR as int
    } else {
        elapsed_seconds as int
    };
    let weight: int = if clamped < 0 {
        clamped + 0x1_0000_0000_0000_0000
    } else {
        clamped
    };
    let product: int = yield_bps * weight;
    let capped: int = if product > u64::MAX {
        u64::MAX as int
    } else {
        product
    };
    capped / 10_000 / 31_536_000
}

/// The yield accrued on `principal`: each handle byte is raised, wrapping, by
/// the low byte of the yield factor, and each commitment byte is XORed with
/// the factor's second byte.
pub open spec fn accrue(principal: Ciphertext, yield_bps: u16, elapsed_seconds: i64) -> Ciphertext {
    let factor = yield_factor(yield_bps, elapsed_seconds);
    let low = (factor % 256) as u8;
    let high = ((factor / 256) % 256) as u8;
    Ciphertext {
        handle: Seq::new(principal.handle.len(), |i: int| wrapping_sum(principal.handle[i], low)),
        commitment: Seq::new(principal.commitment.len(), |i: int| principal.commitment[i] ^ high),
    }
}

/// `value` with its lowest `bytes` bytes dropped, in two's complement.
pub open spec fn drop_low_bytes(value: int, bytes: nat) -> int
    decreases bytes,
{
    if bytes == 0 {
        value
    } else {
        drop_low_bytes(value, (bytes - 1) as nat) / 256
    }
}

/// Byte `index` of the little-endian two's-complement form of `value`.
pub open spec fn le_byte(value: int, index: nat) -> u8 {
    (drop_low_bytes(value, index) % 256) as u8
}

/// The integrity tag of a view: byte by byte, the XOR of the two commitments
/// and of the timestamp's eight little-endian bytes, repeated to the tag's
/// length.
pub open spec fn derive_proof(
    total: Ciphertext,
    yield_amount: Ciphertext,
    timestamp: i64,
) -> Seq<u8> {
    Seq::new(
        32,
        |i: int|
            total.commitment[i] ^ yield_amount.commitment[i] ^ le_byte(
                timestamp as int,
                (i % 8) as nat,
            ),
    )
}

/// Combining is commutative.
pub proof fn lemma_combine_commutative(a: EncryptedAmount, b: EncryptedAmount)
    ensures
        combine(a@, b@) == combine(b@, a@),
{
    assert forall|i: int| 0 <= i < 32 implies a.commitment@[i] ^ b.commitment@[i]
        == b.commitment@[i] ^ a.commitment@[i] by {
        lemma_xor_commutative(a.commitment@[i], b.commitment@[i]);
    }
    assert(combine(a@, b@).handle =~= combine(b@, a@).handle);
    assert(combine(a@, b@).commitment =~= combine(b@, a@).commitment);
}

/// Combining is associative.
pub proof fn lemma_combine_associative(a: EncryptedAmount, b: EncryptedAmount, c: EncryptedAmount)
    ensures
        combine(combine(a@, b@), c@) == combine(a@, combine(b@, c@)),
{
    let left = combine(combine(a@, b@), c@);
    let right = combine(a@, combine(b@, c@));
    assert forall|i: int| 0 <= i < 32 implies left.commitment[i] == right.commitment[i] by {
        lemma_xor_associative(a.commitment@[i], b.commitment@[i], c.commitment@[i]);
    }
    assert(left.handle =~= right.handle);
    assert(left.commitment =~= right.commitment);
}

proof fn lemma_xor_commutative(x: u8, y: u8)
    by (bit_vector)
    ensures
        x ^ y == y ^ x,
{
}

proof fn lemma_xor_associative(x: u8, y: u8, z: u8)
    by (bit_vector)
    ensures
        (x ^ y) ^ z == x ^ (y ^ z),
{
}

/// Computes the yield factor of a rate over an elapsed time.
pub fn compute_yield_factor(yield_bps: u16, elapsed_seconds: i64) -> (r: u64)
    ensures
        r == yield_factor(yield_bps, elapsed_seconds),
{
    let clamped: i64 = if elapsed_seconds > SECONDS_PER_YEAR {
        SECONDS_PER_YEAR
    } else {
        elapsed_seconds
    };
    let weight: u64 = if clamped < 0 {
        u64::MAX - ((-(clamped + 1)) as u64)
    } else {
        clamped as u64
    };
    let product: u64 = match (yield_bps as u64).checked_mul(weight) {
        Some(p) => p,
        None => u64::MAX,
    };
    product / (MAX_BASIS_POINTS as u64) / (SECONDS_PER_YEAR as u64)
}

/// Computes the yield accrued on `principal` at `yield_bps` over
/// `elapsed_seconds`.
pub fn calculate_yield_commitment(
    principal: &EncryptedAmount,
    yield_bps: u16,
    elapsed_seconds: i64,
) -> (r: EncryptedAmount)
    ensures
        r@ == accrue(principal@, yield_bps, elapsed_seconds),
{
    let factor: u64 = compute_yield_factor(yield_bps, elapsed_seconds);
    let low: u8 = (factor % 256) as u8;
    let high: u8 = ((factor / 256) % 256) as u8;
    let mut result = EncryptedAmount::default();
    let mut i: usize = 0;
    while i < 32
        invariant
            i <= 32,
            forall|j: int|
                0 <= j < i ==> result.handle@[j] == wrapping_sum(principal.handle@[j], low),
            forall|j: int| 0 <= j < i ==> result.commitment@[j] == principal.commitment@[j] ^ high,
        decreases 32 - i,
    {
        result.handle[i] = principal.handle[i].wrapping_add(low);
        result.commitment[i] = principal.commitment[i] ^ high;
        i += 1;
    }
    assert(result@.handle =~= accrue(principal@, yield_bps, elapsed_seconds).handle);
    assert(result@.commitment =~= accrue(principal@, yield_bps, elapsed_seconds).commitment);
    result
}

/// Combines two encrypted amounts.
pub fn combine_commitments(a: &EncryptedAmount, b: &EncryptedAmount) -> (r: EncryptedAmount)
    ensures
        r@ == combine(a@, b@),
{
    let mut result = EncryptedAmount::default();
    let mut i: usize = 0;
    while i < 32
        invariant
            i <= 32,
            forall|j: int|
                0 <= j < i ==> result.handle@[j] == wrapping_sum(a.handle@[j], b.handle@[j]),
            forall|j: int|
                0 <= j < i ==> result.commitment@[j] == a.commitment@[j] ^ b.commitment@[j],
        decreases 32 - i,
    {
        result.handle[i] = a.handle[i].wrapping_add(b.handle[i]);
        result.commitment[i] = a.commitment[i] ^ b.commitment[i];
        i += 1;
    }
    assert(result@.handle =~= combine(a@, b@).handle);
    assert(result@.commitment =~= combine(a@, b@).commitment);
    result
}

/// The eight bytes of `value` in little-endian two's complement.
pub fn le_bytes(value: i64) -> (r: [u8; 8])
    ensures
        forall|k: int| 0 <= k < 8 ==> r@[k] == le_byte(value as int, k as nat),
{
    let mut out: [u8; 8] = [0u8; 8];
    let mut rest: i64 = value;
    let mut k: usize = 0;
    while k < 8
        invariant
            k <= 8,
            rest == drop_low_bytes(value as int, k as nat),
            forall|j: int| 0 <= j < k ==> out@[j] == le_byte(value as int, j as nat),
        decreases 8 - k,
    {
        let quotient: i64 = match rest.checked_div_euclid(256) {
            Some(q) => q,
            None => 0,
        };
        let remainder: i64 = match rest.checked_rem_euclid(256) {
            Some(m) => m,
            None => 0,
        };
        assert(quotient == rest as int / 256);
        assert(remainder == rest as int % 256);
        out[k] = remainder as u8;
        assert(drop_low_bytes(value as int, (k + 1) as nat) == drop_low_bytes(
            value as int,
            k as nat,
        ) / 256);
        rest = quotient;
        k += 1;
    }
    out
}

/// Derives the integrity tag of a view.
pub fn generate_view_proof(
    total: &EncryptedAmount,
    yield_amount: &EncryptedAmount,
    timestamp: i64,
) -> (r: [u8; 32])
    ensures
        r@ == derive_proof(total@, yield_amount@, timestamp),
{
    let mut proof_bytes: [u8; 32] = [0u8; 32];
    let ts_bytes = le_bytes(timestamp);
    let mut i: usize = 0;
    while i < 32
        invariant
            i <= 32,
            forall|k: int| 0 <= k < 8 ==> ts_bytes@[k] == le_byte(timestamp as int, k as nat),
            forall|j: int| 0 <= j < i ==> proof_bytes@[j] == total.commitment@[j]
                ^ yield_amount.commitment@[j] ^ le_byte(timestamp as int, (j % 8) as nat),
        decreases 32 - i,
    {
        proof_bytes[i] = total.commitment[i % 32] ^ yield_amount.commitment[i % 32]
            ^ ts_bytes[i % 8];
        i += 1;
    }
    assert(proof_bytes@ =~= derive_proof(total@, yield_amount@, timestamp));
    proof_bytes
}

/// Why a view is refused, if it is: the position is not the asker's, or the
/// time since the last yield update does not fit in 64 bits.
pub open spec fn rejection(ctx: AccrueView, now: i64) -> Option<ShadowForgeError> {
    if ctx.user_position.owner != ctx.user {
        Some(ShadowForgeError::InvalidAuthority)
    } else if !(i64::MIN <= now - ctx.vault_config.last_yield_update <= i64::MAX) {
        Some(ShadowForgeError::InvalidTimestamp)
    } else {
        None
    }
}

/// The collateral of the loan that is open, and zero where none is.
pub open spec fn lending_value(lending: Option<LendingPosition>) -> EncryptedAmount {
    match lending {
        Some(loan) => if loan.is_active {
            loan.encrypted_collateral
        } else {
            EncryptedAmount::zero()
        },
        None => EncryptedAmount::zero(),
    }
}

/// Whether `view` is the snapshot of the records `ctx` at the time `now`: the
/// yield accrued on the principal since the vault's last yield update; the
/// principal combined with that yield and with the yield stored before; the
/// collateral of an open loan; the tag derived from total, accrued yield and
/// time; and the vault's rate and the position's loan flag as they stand.
pub open spec fn is_snapshot(view: AccrueViewResult, ctx: AccrueView, now: i64) -> bool {
    let elapsed = (now - ctx.vault_config.last_yield_update) as i64;
    let principal = ctx.user_position.encrypted_principal@;
    let accrued = accrue(principal, ctx.vault_config.current_yield_bps, elapsed);
    let total = combine(combine(principal, accrued), ctx.user_position.encrypted_yield@);
    &&& view.encrypted_accrued_yield@ == accrued
    &&& view.encrypted_total_value@ == total
    &&& view.encrypted_lending_value == lending_value(ctx.lending_position)
    &&& view.computation_proof@ == derive_proof(total, accrued, now)
    &&& view.computed_at == now
    &&& view.current_yield_bps == ctx.vault_config.current_yield_bps
    &&& view.has_active_loan == ctx.user_position.has_active_loan
}

/// Computes the snapshot of a position at the time `now`. Nothing is changed.
pub fn handler(ctx: &AccrueView, now: i64) -> (r: Result<AccrueViewResult, ShadowForgeError>)
    ensures
        match r {
            Ok(view) => rejection(*ctx, now) is None && is_snapshot(view, *ctx, now),
            Err(e) => rejection(*ctx, now) == Some(e),
        },
{
    if !ctx.user_position.owner.is(&ctx.user) {
        return Err(ShadowForgeError::InvalidAuthority);
    }
    let elapsed_seconds: i64 = match now.checked_sub(ctx.vault_config.last_yield_update) {
        Some(e) => e,
        None => {
            return Err(ShadowForgeError::InvalidTimestamp);
        },
    };
    let accrued_yield = calculate_yield_commitment(
        &ctx.user_position.encrypted_principal,
        ctx.vault_config.current_yield_bps,
        elapsed_seconds,
    );
    let total_value = combine_commitments(&ctx.user_position.encrypted_principal, &accrued_yield);
    let total_with_previous = combine_commitments(&total_value, &ctx.user_position.encrypted_yield);
    let lending_value = match &ctx.lending_position {
        Some(loan) => {
            if loan.is_active {
                loan.encrypted_collateral
            } else {
                EncryptedAmount::default()
            }
        },
        None => EncryptedAmount::default(),
    };
    let computation_proof = generate_view_proof(&total_with_previous, &accrued_yield, now);
    Ok(
        AccrueViewResult {
            encrypted_total_value: total_with_previous,
            encrypted_accrued_yield: accrued_yield,
            encrypted_lending_value: lending_value,
            computation_proof,
            computed_at: now,
            current_yield_bps: ctx.vault_config.current_yield_bps,
            has_active_loan: ctx.user_position.has_active_loan,
        },
    )
}

} // verus!
