use shadowforge::instructions::accrue_view::{
    calculate_yield_commitment, combine_commitments, compute_yield_factor, generate_view_proof,
    handler, le_bytes, AccrueView,
};
use shadowforge::instructions::apply_compliance::compute_risk_score;
use shadowforge::error::ShadowForgeError;
use shadowforge::state::{
    is_all_zero, same_bytes, split_fee, xor_blobs, EncryptedAmount, LendingPosition, Pubkey,
    UserEncryptedPosition, VaultConfig,
};

fn amount(handle: u8, commitment: u8) -> EncryptedAmount {
    EncryptedAmount { handle: [handle; 32], commitment: [commitment; 32] }
}

fn ramp(start: u8, step: u8) -> [u8; 32] {
    let mut out = [0u8; 32];
    let mut i = 0usize;
    while i < 32 {
        out[i] = start.wrapping_add(step.wrapping_mul(i as u8));
        i += 1;
    }
    out
}

#[test]
fn all_zero_blob_is_recognised() {
    assert!(is_all_zero(&[0u8; 32]));
    let mut blob = [0u8; 32];
    blob[31] = 1;
    assert!(!is_all_zero(&blob));
    blob[31] = 0;
    blob[0] = 200;
    assert!(!is_all_zero(&blob));
}

#[test]
fn same_bytes_compares_every_byte() {
    let a = ramp(3, 7);
    let mut b = ramp(3, 7);
    assert!(same_bytes(&a, &b));
    b[31] ^= 1;
    assert!(!same_bytes(&a, &b));
    b[31] ^= 1;
    b[0] ^= 0x80;
    assert!(!same_bytes(&a, &b));
}

#[test]
fn xor_of_blobs_is_bytewise() {
    let a = [0xF0u8; 32];
    let b = [0x3Cu8; 32];
    assert_eq!(xor_blobs(&a, &b), [0xCCu8; 32]);
    let r = ramp(0, 1);
    assert_eq!(xor_blobs(&r, &r), [0u8; 32]);
    assert_eq!(xor_blobs(&r, &[0u8; 32]), r);
}

#[test]
fn pubkey_equality_and_default() {
    let a = Pubkey::new_from_array([7u8; 32]);
    let b = Pubkey::new_from_array([7u8; 32]);
    let c = Pubkey::new_from_array([8u8; 32]);
    assert!(a.is(&b));
    assert!(!a.is(&c));
    assert!(Pubkey::default().is_unset());
    assert!(!a.is_unset());
    assert_eq!(a.to_bytes(), [7u8; 32]);
}

#[test]
fn encrypted_amount_zero() {
    assert!(EncryptedAmount::default().is_zero());
    assert!(!amount(0, 1).is_zero());
    assert!(!amount(1, 0).is_zero());
}

#[test]
fn fee_is_rounded_down() {
    assert_eq!(split_fee(2_000_000, 10), Ok((2_000, 1_998_000)));
    assert_eq!(split_fee(1_000_001, 10), Ok((1_000, 999_001)));
    assert_eq!(split_fee(9_999, 1), Ok((0, 9_999)));
    assert_eq!(split_fee(10_000, 1), Ok((1, 9_999)));
    assert_eq!(split_fee(5, 0), Ok((0, 5)));
    assert_eq!(split_fee(123_456, 10_000), Ok((123_456, 0)));
}

#[test]
fn fee_overflow_and_underflow() {
    assert_eq!(split_fee(u64::MAX, 2), Err(ShadowForgeError::AmountOverflow));
    assert_eq!(split_fee(u64::MAX, 1), Ok((u64::MAX / 10_000, u64::MAX - u64::MAX / 10_000)));
    assert_eq!(split_fee(1_000_000, 10_001), Err(ShadowForgeError::AmountUnderflow));
    assert_eq!(split_fee(1_000_000, 65_535), Err(ShadowForgeError::AmountUnderflow));
}

#[test]
fn combine_adds_handles_and_xors_commitments() {
    let r = combine_commitments(&amount(200, 0xF0), &amount(100, 0x3C));
    assert_eq!(r, amount(44, 0xCC));
    let z = combine_commitments(&amount(9, 9), &EncryptedAmount::default());
    assert_eq!(z, amount(9, 9));
}

#[test]
fn combine_is_commutative_on_samples() {
    let samples = [
        EncryptedAmount { handle: ramp(0, 1), commitment: ramp(255, 3) },
        EncryptedAmount { handle: ramp(250, 9), commitment: ramp(17, 31) },
        amount(255, 255),
        EncryptedAmount::default(),
    ];
    for a in samples.iter() {
        for b in samples.iter() {
            assert_eq!(combine_commitments(a, b), combine_commitments(b, a));
        }
    }
}

#[test]
fn combine_is_associative_on_samples() {
    let samples = [
        EncryptedAmount { handle: ramp(0, 1), commitment: ramp(255, 3) },
        EncryptedAmount { handle: ramp(250, 9), commitment: ramp(17, 31) },
        amount(255, 255),
        amount(128, 1),
    ];
    for a in samples.iter() {
        for b in samples.iter() {
            for c in samples.iter() {
                let left = combine_commitments(&combine_commitments(a, b), c);
                let right = combine_commitments(a, &combine_commitments(b, c));
                assert_eq!(left, right);
            }
        }
    }
}

#[test]
fn yield_factor_values() {
    assert_eq!(compute_yield_factor(65_535, 31_536_000), 6);
    assert_eq!(compute_yield_factor(500, 31_536_000), 0);
    assert_eq!(compute_yield_factor(10_000, 31_536_000), 1);
    assert_eq!(compute_yield_factor(10_000, 15_768_000), 0);
    assert_eq!(compute_yield_factor(65_535, 0), 0);
}

#[test]
fn yield_factor_clamps_elapsed_to_one_year() {
    assert_eq!(compute_yield_factor(20_000, 315_360_000), 2);
    assert_eq!(compute_yield_factor(20_000, 31_536_000), 2);
    assert_eq!(compute_yield_factor(20_000, i64::MAX), 2);
}

#[test]
fn yield_factor_of_negative_elapsed() {
    assert_eq!(compute_yield_factor(1, -1), 58_494_241);
    assert_eq!(compute_yield_factor(2, -1), 58_494_241);
    assert_eq!(compute_yield_factor(0, -5), 0);
    assert_eq!(compute_yield_factor(1, i64::MIN), 29_247_120);
}

#[test]
fn accrued_yield_perturbs_principal() {
    let principal = amount(254, 0x0F);
    // factor 6: low byte 6, second byte 0
    let r = calculate_yield_commitment(&principal, 65_535, 31_536_000);
    assert_eq!(r, amount(4, 0x0F));
    // factor 0 leaves the bytes as they are
    let same = calculate_yield_commitment(&principal, 500, 1_000);
    assert_eq!(same, principal);
    // factor 58,494,241: low byte 33, second byte 141
    let odd = calculate_yield_commitment(&principal, 1, -1);
    assert_eq!(odd, amount(31, 0x0F ^ 141));
}

#[test]
fn little_endian_bytes() {
    assert_eq!(le_bytes(1_700_000_000), [0, 241, 83, 101, 0, 0, 0, 0]);
    assert_eq!(le_bytes(-2), [254, 255, 255, 255, 255, 255, 255, 255]);
    assert_eq!(le_bytes(0), [0u8; 8]);
    assert_eq!(le_bytes(i64::MIN), i64::MIN.to_le_bytes());
    assert_eq!(le_bytes(i64::MAX), i64::MAX.to_le_bytes());
    assert_eq!(le_bytes(-1_234_567_890_123), (-1_234_567_890_123i64).to_le_bytes());
    assert_eq!(le_bytes(0x0102_0304_0506_0708), [8, 7, 6, 5, 4, 3, 2, 1]);
}

#[test]
fn view_proof_tiles_the_timestamp() {
    let total = EncryptedAmount { handle: [0u8; 32], commitment: ramp(1, 1) };
    let accrued = EncryptedAmount { handle: [9u8; 32], commitment: [0xAAu8; 32] };
    let ts: i64 = 0x0102_0304_0506_0708;
    let tag = generate_view_proof(&total, &accrued, ts);
    let ts_bytes = [8u8, 7, 6, 5, 4, 3, 2, 1];
    let mut i = 0usize;
    while i < 32 {
        assert_eq!(tag[i], total.commitment[i] ^ 0xAA ^ ts_bytes[i % 8]);
        i += 1;
    }
    assert_eq!(tag[0], 1 ^ 0xAA ^ 8);
    assert_eq!(tag[9], 10 ^ 0xAA ^ 7);
}

#[test]
fn risk_score_is_byte_sum_modulo_100() {
    assert_eq!(compute_risk_score(&[0u8; 32]), 0);
    assert_eq!(compute_risk_score(&[255u8; 32]), 60);
    let mut hash = [0u8; 32];
    hash[0] = 80;
    assert_eq!(compute_risk_score(&hash), 80);
    hash[1] = 100;
    hash[2] = 200;
    assert_eq!(compute_risk_score(&hash), 80);
    hash[31] = 19;
    assert_eq!(compute_risk_score(&hash), 99);
    hash[30] = 1;
    assert_eq!(compute_risk_score(&hash), 0);
}

fn view_records() -> AccrueView {
    let user = Pubkey::new_from_array([5u8; 32]);
    let mut vault = VaultConfig::default();
    vault.current_yield_bps = 65_535;
    vault.last_yield_update = 1_000;
    let mut position = UserEncryptedPosition::default();
    position.owner = user;
    position.encrypted_principal = amount(10, 0x11);
    position.encrypted_yield = amount(1, 0x01);
    AccrueView { user, vault_config: vault, user_position: position, lending_position: None }
}

#[test]
fn view_combines_principal_accrued_and_prior_yield() {
    let ctx = view_records();
    let now = 1_000 + 31_536_000;
    let view = handler(&ctx, now).unwrap();
    // factor 6: accrued = principal with handle raised by 6
    assert_eq!(view.encrypted_accrued_yield, amount(16, 0x11));
    // principal + accrued + prior yield: handles 10 + 16 + 1, commitments 0x11 ^ 0x11 ^ 0x01
    assert_eq!(view.encrypted_total_value, amount(27, 0x01));
    assert_eq!(view.encrypted_lending_value, EncryptedAmount::default());
    assert_eq!(
        view.computation_proof,
        generate_view_proof(&amount(27, 0x01), &amount(16, 0x11), now)
    );
    assert_eq!(view.computed_at, now);
    assert_eq!(view.current_yield_bps, 65_535);
    assert!(!view.has_active_loan);
}

#[test]
fn view_leaves_the_records_alone_and_repeats() {
    let ctx = view_records();
    let before = ctx;
    let first = handler(&ctx, 5_000).unwrap();
    let second = handler(&ctx, 5_000).unwrap();
    assert_eq!(first, second);
    assert_eq!(ctx, before);
}

#[test]
fn view_shows_collateral_of_an_open_loan_only() {
    let mut ctx = view_records();
    let mut loan = LendingPosition::default();
    loan.encrypted_collateral = amount(0, 0x77);
    ctx.lending_position = Some(loan);
    assert_eq!(handler(&ctx, 2_000).unwrap().encrypted_lending_value, EncryptedAmount::default());
    loan.is_active = true;
    ctx.lending_position = Some(loan);
    ctx.user_position.has_active_loan = true;
    let view = handler(&ctx, 2_000).unwrap();
    assert_eq!(view.encrypted_lending_value, amount(0, 0x77));
    assert!(view.has_active_loan);
}

#[test]
fn view_is_refused_for_another_user() {
    let mut ctx = view_records();
    ctx.user = Pubkey::new_from_array([6u8; 32]);
    assert_eq!(handler(&ctx, 2_000), Err(ShadowForgeError::InvalidAuthority));
}

#[test]
fn view_is_refused_when_elapsed_time_overflows() {
    let mut ctx = view_records();
    ctx.vault_config.last_yield_update = i64::MIN;
    assert_eq!(handler(&ctx, 1), Err(ShadowForgeError::InvalidTimestamp));
    ctx.vault_config.last_yield_update = i64::MAX;
    assert_eq!(handler(&ctx, -2), Err(ShadowForgeError::InvalidTimestamp));
    // a clock behind the last update is taken: the elapsed time is negative
    ctx.vault_config.last_yield_update = 10;
    assert!(handler(&ctx, 5).is_ok());
}
