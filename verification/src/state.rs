use crate::error::ShadowForgeError;
use vstd::prelude::*;

verus! {

/// Fee rates are expressed in basis points out of this many.
pub const MAX_BASIS_POINTS: u16 = 10_000;

/// The highest yield rate the vault accepts, in basis points.
pub const MAX_YIELD_BPS: u16 = 5_000;

/// The smallest amount that may be deposited or withdrawn.
pub const MIN_DEPOSIT_LAMPORTS: u64 = 1_000_000;

/// Length in bytes of every proof blob.
pub const PROOF_DATA_LEN: usize = 32;

/// Thirty-two zero bytes: the empty commitment, and the blob that stands for
/// a proof that was refused.
pub const ZERO_BYTES: [u8; 32] = [
    0, 0, 0, 0, 0, 0, 0, 0, 0, 0, 0, 0, 0, 0, 0, 0,
    0, 0, 0, 0, 0, 0, 0, 0, 0, 0, 0, 0, 0, 0, 0, 0,
];

/// Key bytes of the compliance provider that signs attestations.
pub const RANGE_PROGRAM_ID: [u8; 32] = [
    15, 37, 156, 224, 228, 48, 159, 134, 127, 48, 159, 134, 127, 48, 159, 134,
    127, 48, 159, 134, 127, 48, 159, 134, 127, 48, 159, 134, 0, 0, 0, 0,
];

/// Whether every byte of `bytes` is zero.
pub open spec fn all_zero(bytes: Seq<u8>) -> bool {
    forall|i: int| 0 <= i < bytes.len() ==> bytes[i] == 0
}

/// Tells whether a 32-byte blob is all zero. A proof blob that is all zero
/// counts as refused; any other blob counts as accepted.
pub fn is_all_zero(bytes: &[u8; 32]) -> (r: bool)
    ensures
        r == all_zero(bytes@),
        r == (*bytes == ZERO_BYTES),
{
    let mut i: usize = 0;
    while i < 32
        invariant
            i <= 32,
            forall|j: int| 0 <= j < i ==> bytes@[j] == 0,
        decreases 32 - i,
    {
        if bytes[i] != 0 {
            assert(ZERO_BYTES@[i as int] == 0);
            return false;
        }
        i += 1;
    }
    assert(*bytes =~= ZERO_BYTES);
    true
}

/// Tells whether two 32-byte blobs hold the same bytes.
pub fn same_bytes(a: &[u8; 32], b: &[u8; 32]) -> (r: bool)
    ensures
        r == (*a == *b),
{
    let mut i: usize = 0;
    while i < 32
        invariant
            i <= 32,
            forall|j: int| 0 <= j < i ==> a@[j] == b@[j],
        decreases 32 - i,
    {
        if a[i] != b[i] {
            return false;
        }
        i += 1;
    }
    assert(*a =~= *b);
    true
}

/// The byte-wise XOR of two byte strings of one length.
pub open spec fn xor_bytes(a: Seq<u8>, b: Seq<u8>) -> Seq<u8> {
    Seq::new(a.len(), |i: int| a[i] ^ b[i])
}

/// Computes the byte-wise XOR of two 32-byte blobs.
pub fn xor_blobs(a: &[u8; 32], b: &[u8; 32]) -> (r: [u8; 32])
    ensures
        r@ == xor_bytes(a@, b@),
{
    let mut out: [u8; 32] = [0u8; 32];
    let mut i: usize = 0;
    while i < 32
        invariant
            i <= 32,
            forall|j: int| 0 <= j < i ==> out@[j] == a@[j] ^ b@[j],
        decreases 32 - i,
    {
        out[i] = a[i] ^ b[i];
        i += 1;
    }
    assert(out@ =~= xor_bytes(a@, b@));
    out
}

/// The identity of a participant or of a record: thirty-two key bytes.
#[derive(Clone, Copy, Debug, PartialEq, Eq)]
pub struct Pubkey {
    pub bytes: [u8; 32],
}

impl Pubkey {
    /// The all-zero key, which no participant holds. A position whose owner
    /// is this key has not been opened yet.
    pub open spec fn unset() -> Pubkey {
        Pubkey { bytes: ZERO_BYTES }
    }

    /// The key with the given bytes.
    pub fn new_from_array(bytes: [u8; 32]) -> (r: Pubkey)
        ensures
            r.bytes == bytes,
    {
        Pubkey { bytes }
    }

    /// The bytes of the key.
    pub fn to_bytes(&self) -> (r: [u8; 32])
        ensures
            r == self.bytes,
    {
        self.bytes
    }

    /// Tells whether `self` and `other` are the same key.
    pub fn is(&self, other: &Pubkey) -> (r: bool)
        ensures
            r == (*self == *other),
    {
        same_bytes(&self.bytes, &other.bytes)
    }

    /// Tells whether `self` is the all-zero key.
    pub fn is_unset(&self) -> (r: bool)
        ensures
            r == (*self == Pubkey::unset()),
    {
        is_all_zero(&self.bytes)
    }
}

impl Default for Pubkey {
    fn default() -> (r: Pubkey)
        ensures
            r == Pubkey::unset(),
    {
        Pubkey { bytes: ZERO_BYTES }
    }
}

/// The fee charged on `amount` at `fee_bps` basis points, rounded down.
pub open spec fn fee_on(amount: u64, fee_bps: u16) -> int {
    (amount * fee_bps) / 10_000
}

/// Why no fee can be taken from `amount` at `fee_bps`, if that is so: the
/// product does not fit in 64 bits, or the fee exceeds the amount.
pub open spec fn fee_rejection(amount: u64, fee_bps: u16) -> Option<ShadowForgeError> {
    if amount * fee_bps > u64::MAX {
        Some(ShadowForgeError::AmountOverflow)
    } else if fee_on(amount, fee_bps) > amount {
        Some(ShadowForgeError::AmountUnderflow)
    } else {
        None
    }
}

/// Splits `amount` into the fee at `fee_bps` basis points and the net
/// remainder, in that order.
pub fn split_fee(amount: u64, fee_bps: u16) -> (r: Result<(u64, u64), ShadowForgeError>)
    ensures
        match r {
            Ok((fee, net)) => {
                &&& fee_rejection(amount, fee_bps) is None
                &&& fee == fee_on(amount, fee_bps)
                &&& net == amount - fee
            },
            Err(e) => fee_rejection(amount, fee_bps) == Some(e),
        },
        fee_bps <= MAX_BASIS_POINTS ==> r != Err::<(u64, u64), ShadowForgeError>(
            ShadowForgeError::AmountUnderflow,
        ),
{
    proof {
        if fee_bps <= MAX_BASIS_POINTS {
            lemma_fee_within_amount(amount, fee_bps);
        }
    }
    let product: u64 = match amount.checked_mul(fee_bps as u64) {
        Some(p) => p,
        None => {
            return Err(ShadowForgeError::AmountOverflow);
        },
    };
    let fee: u64 = product / (MAX_BASIS_POINTS as u64);
    match amount.checked_sub(fee) {
        Some(net) => Ok((fee, net)),
        None => Err(ShadowForgeError::AmountUnderflow),
    }
}

/// At a rate of at most 10,000 basis points the fee never exceeds the amount.
pub proof fn lemma_fee_within_amount(amount: u64, fee_bps: u16)
    requires
        fee_bps <= MAX_BASIS_POINTS,
    ensures
        0 <= fee_on(amount, fee_bps) <= amount,
{
    assert(amount * fee_bps <= amount * 10_000) by (nonlinear_arith)
        requires
            0 <= fee_bps <= 10_000,
            0 <= amount,
    ;
    assert(0 <= amount * fee_bps) by (nonlinear_arith)
        requires
            0 <= fee_bps,
            0 <= amount,
    ;
}

/// An opaque encrypted amount. The ledger stores and combines such values and
/// never decodes them.
#[derive(Clone, Copy, Debug, PartialEq, Eq)]
pub struct EncryptedAmount {
    pub handle: [u8; 32],
    pub commitment: [u8; 32],
}

/// What an encrypted amount is to the ledger: two strings of thirty-two bytes.
pub struct Ciphertext {
    pub handle: Seq<u8>,
    pub commitment: Seq<u8>,
}

impl View for EncryptedAmount {
    type V = Ciphertext;

    open spec fn view(&self) -> Ciphertext {
        Ciphertext { handle: self.handle@, commitment: self.commitment@ }
    }
}

/// Two encrypted amounts with the same bytes are the same amount.
pub proof fn lemma_same_view_same_amount(a: EncryptedAmount, b: EncryptedAmount)
    requires
        a@ == b@,
    ensures
        a == b,
{
    assert(a.handle =~= b.handle);
    assert(a.commitment =~= b.commitment);
}

impl EncryptedAmount {
    /// The amount whose handle and commitment are all zero.
    pub open spec fn zero() -> EncryptedAmount {
        EncryptedAmount { handle: ZERO_BYTES, commitment: ZERO_BYTES }
    }

    /// Whether both the handle and the commitment are all zero.
    pub open spec fn spec_is_zero(&self) -> bool {
        all_zero(self.handle@) && all_zero(self.commitment@)
    }

    /// Tells whether both the handle and the commitment are all zero.
    #[verifier::when_used_as_spec(spec_is_zero)]
    pub fn is_zero(&self) -> (r: bool)
        ensures
            r == self.spec_is_zero(),
            r == (*self == EncryptedAmount::zero()),
    {
        is_all_zero(&self.handle) && is_all_zero(&self.commitment)
    }
}

impl Default for EncryptedAmount {
    fn default() -> (r: EncryptedAmount)
        ensures
            r == EncryptedAmount::zero(),
    {
        EncryptedAmount { handle: ZERO_BYTES, commitment: ZERO_BYTES }
    }
}

/// The vault ledger: one per deployment. It holds the fee schedule, the yield
/// rate, the feature flags, the pause switches and the aggregate accounting.
#[derive(Clone, Copy, Debug, PartialEq, Eq)]
pub struct VaultConfig {
    pub admin: Pubkey,
    pub treasury: Pubkey,
    pub shielded_mint: Pubkey,
    pub secondary_mint: Pubkey,
    pub arcium_enabled: bool,
    pub shadowwire_enabled: bool,
    pub anoncoin_enabled: bool,
    pub privacy_cash_enabled: bool,
    pub silentswap_enabled: bool,
    pub starpay_enabled: bool,
    pub range_enabled: bool,
    pub deposit_fee_bps: u16,
    pub withdrawal_fee_bps: u16,
    pub lending_fee_bps: u16,
    pub swap_fee_bps: u16,
    pub bridge_fee_bps: u16,
    pub current_yield_bps: u16,
    pub total_shielded_tvl: u64,
    pub total_positions: u64,
    pub is_paused: bool,
    pub emergency_mode: bool,
    pub compliance_required: bool,
    pub initialized_at: i64,
    pub last_yield_update: i64,
}

impl VaultConfig {
    /// The vault before bootstrap: no identities, no features, no fees, nothing
    /// held.
    pub open spec fn blank() -> VaultConfig {
        VaultConfig {
            admin: Pubkey::unset(),
            treasury: Pubkey::unset(),
            shielded_mint: Pubkey::unset(),
            secondary_mint: Pubkey::unset(),
            arcium_enabled: false,
            shadowwire_enabled: false,
            anoncoin_enabled: false,
            privacy_cash_enabled: false,
            silentswap_enabled: false,
            starpay_enabled: false,
            range_enabled: false,
            deposit_fee_bps: 0,
            withdrawal_fee_bps: 0,
            lending_fee_bps: 0,
            swap_fee_bps: 0,
            bridge_fee_bps: 0,
            current_yield_bps: 0,
            total_shielded_tvl: 0,
            total_positions: 0,
            is_paused: false,
            emergency_mode: false,
            compliance_required: false,
            initialized_at: 0,
            last_yield_update: 0,
        }
    }

    /// What holds of every vault that was bootstrapped and then changed only
    /// through the ledger's actions: an emergency implies a pause, no fee rate
    /// exceeds 10,000 basis points, and the yield rate does not exceed 5,000.
    pub open spec fn wf(&self) -> bool {
        &&& self.emergency_mode ==> self.is_paused
        &&& self.deposit_fee_bps <= MAX_BASIS_POINTS
        &&& self.withdrawal_fee_bps <= MAX_BASIS_POINTS
        &&& self.lending_fee_bps <= MAX_BASIS_POINTS
        &&& self.swap_fee_bps <= MAX_BASIS_POINTS
        &&& self.bridge_fee_bps <= MAX_BASIS_POINTS
        &&& self.current_yield_bps <= MAX_YIELD_BPS
    }

    /// Whether the vault takes actions: it is neither paused nor in emergency
    /// mode.
    pub open spec fn spec_is_operational(&self) -> bool {
        !self.is_paused && !self.emergency_mode
    }

    /// Tells whether the vault takes actions: it is neither paused nor in
    /// emergency mode.
    #[verifier::when_used_as_spec(spec_is_operational)]
    pub fn is_operational(&self) -> (r: bool)
        ensures
            r == self.spec_is_operational(),
    {
        !self.is_paused && !self.emergency_mode
    }
}

impl Default for VaultConfig {
    fn default() -> (r: VaultConfig)
        ensures
            r == VaultConfig::blank(),
            r.wf(),
    {
        VaultConfig {
            admin: Pubkey::default(),
            treasury: Pubkey::default(),
            shielded_mint: Pubkey::default(),
            secondary_mint: Pubkey::default(),
            arcium_enabled: false,
            shadowwire_enabled: false,
            anoncoin_enabled: false,
            privacy_cash_enabled: false,
            silentswap_enabled: false,
            starpay_enabled: false,
            range_enabled: false,
            deposit_fee_bps: 0,
            withdrawal_fee_bps: 0,
            lending_fee_bps: 0,
            swap_fee_bps: 0,
            bridge_fee_bps: 0,
            current_yield_bps: 0,
            total_shielded_tvl: 0,
            total_positions: 0,
            is_paused: false,
            emergency_mode: false,
            compliance_required: false,
            initialized_at: 0,
            last_yield_update: 0,
        }
    }
}

/// One user's shielded position in the vault.
#[derive(Clone, Copy, Debug, PartialEq, Eq)]
pub struct UserEncryptedPosition {
    pub owner: Pubkey,
    pub vault: Pubkey,
    pub encrypted_principal: EncryptedAmount,
    pub encrypted_yield: EncryptedAmount,
    /// The balance tag that was seen last.
    pub balance_commitment: [u8; 32],
    /// The tag of the last withdrawal. A withdrawal that presents it again is
    /// a replay.
    pub nullifier: [u8; 32],
    pub has_active_loan: bool,
    pub has_pending_bridge: bool,
    pub compliance_verified: bool,
    pub compliance_expiry: i64,
    pub created_at: i64,
    pub last_deposit_at: i64,
    pub last_action_at: i64,
    pub deposit_count: u32,
    pub withdrawal_count: u32,
    pub action_count: u32,
}

impl UserEncryptedPosition {
    /// The position that nobody has opened yet.
    pub open spec fn blank() -> UserEncryptedPosition {
        UserEncryptedPosition {
            owner: Pubkey::unset(),
            vault: Pubkey::unset(),
            encrypted_principal: EncryptedAmount::zero(),
            encrypted_yield: EncryptedAmount::zero(),
            balance_commitment: ZERO_BYTES,
            nullifier: ZERO_BYTES,
            has_active_loan: false,
            has_pending_bridge: false,
            compliance_verified: false,
            compliance_expiry: 0,
            created_at: 0,
            last_deposit_at: 0,
            last_action_at: 0,
            deposit_count: 0,
            withdrawal_count: 0,
            action_count: 0,
        }
    }

    /// Whether the position carries a compliance mark that has not run out at
    /// `current_time`.
    pub open spec fn spec_is_compliant(&self, current_time: i64) -> bool {
        self.compliance_verified && self.compliance_expiry > current_time
    }

    /// Tells whether the position carries a compliance mark that has not run
    /// out at `current_time`.
    #[verifier::when_used_as_spec(spec_is_compliant)]
    pub fn is_compliant(&self, current_time: i64) -> (r: bool)
        ensures
            r == self.spec_is_compliant(current_time),
    {
        self.compliance_verified && self.compliance_expiry > current_time
    }

    /// Whether nothing is left in the position that the vault has to count:
    /// principal and yield are zero and no loan is open.
    pub open spec fn spec_is_closed(&self) -> bool {
        &&& self.encrypted_principal == EncryptedAmount::zero()
        &&& self.encrypted_yield == EncryptedAmount::zero()
        &&& !self.has_active_loan
    }

    /// Tells whether principal and yield are zero and no loan is open.
    #[verifier::when_used_as_spec(spec_is_closed)]
    pub fn is_closed(&self) -> (r: bool)
        ensures
            r == self.spec_is_closed(),
    {
        self.encrypted_principal.is_zero() && self.encrypted_yield.is_zero()
            && !self.has_active_loan
    }
}

impl Default for UserEncryptedPosition {
    fn default() -> (r: UserEncryptedPosition)
        ensures
            r == UserEncryptedPosition::blank(),
    {
        UserEncryptedPosition {
            owner: Pubkey::default(),
            vault: Pubkey::default(),
            encrypted_principal: EncryptedAmount::default(),
            encrypted_yield: EncryptedAmount::default(),
            balance_commitment: ZERO_BYTES,
            nullifier: ZERO_BYTES,
            has_active_loan: false,
            has_pending_bridge: false,
            compliance_verified: false,
            compliance_expiry: 0,
            created_at: 0,
            last_deposit_at: 0,
            last_action_at: 0,
            deposit_count: 0,
            withdrawal_count: 0,
            action_count: 0,
        }
    }
}

/// A time-bounded compliance record of one user.
#[derive(Clone, Copy, Debug, PartialEq, Eq)]
pub struct ComplianceAttestation {
    pub user: Pubkey,
    pub provider: Pubkey,
    pub attestation_hash: [u8; 32],
    pub attested_at: i64,
    pub expires_at: i64,
    pub risk_score: u8,
    pub is_valid: bool,
}

impl ComplianceAttestation {
    /// The record before any attestation was submitted.
    pub open spec fn blank() -> ComplianceAttestation {
        ComplianceAttestation {
            user: Pubkey::unset(),
            provider: Pubkey::unset(),
            attestation_hash: ZERO_BYTES,
            attested_at: 0,
            expires_at: 0,
            risk_score: 0,
            is_valid: false,
        }
    }

    /// A valid attestation expires after it was made, and a risk score is at
    /// most 100.
    pub open spec fn wf(&self) -> bool {
        &&& self.is_valid ==> self.expires_at > self.attested_at
        &&& self.risk_score <= 100
    }

    /// Whether nothing was submitted in this record.
    pub open spec fn spec_is_blank(&self) -> bool {
        *self == ComplianceAttestation::blank()
    }

    /// Tells whether nothing was submitted in this record.
    #[verifier::when_used_as_spec(spec_is_blank)]
    pub fn is_blank(&self) -> (r: bool)
        ensures
            r == self.spec_is_blank(),
    {
        self.user.is_unset() && self.provider.is_unset() && is_all_zero(&self.attestation_hash)
            && self.attested_at == 0 && self.expires_at == 0 && self.risk_score == 0
            && !self.is_valid
    }

    /// Whether the attestation is valid and has not run out at `now`.
    pub open spec fn spec_is_current(&self, now: i64) -> bool {
        self.is_valid && self.expires_at > now
    }

    /// Tells whether the attestation is valid and has not run out at `now`.
    #[verifier::when_used_as_spec(spec_is_current)]
    pub fn is_current(&self, now: i64) -> (r: bool)
        ensures
            r == self.spec_is_current(now),
    {
        self.is_valid && self.expires_at > now
    }
}

impl Default for ComplianceAttestation {
    fn default() -> (r: ComplianceAttestation)
        ensures
            r == ComplianceAttestation::blank(),
            r.wf(),
    {
        ComplianceAttestation {
            user: Pubkey::default(),
            provider: Pubkey::default(),
            attestation_hash: ZERO_BYTES,
            attested_at: 0,
            expires_at: 0,
            risk_score: 0,
            is_valid: false,
        }
    }
}

/// Why the compliance gate stops `user` at `now`, if it does. Where the vault
/// requires compliance, the user presents an attestation that is bound to the
/// user, valid, and not run out.
pub open spec fn compliance_rejection(
    required: bool,
    attestation: Option<ComplianceAttestation>,
    user: Pubkey,
    now: i64,
) -> Option<ShadowForgeError> {
    if !required {
        None
    } else {
        match attestation {
            None => Some(ShadowForgeError::KycRequired),
            Some(a) => if a.user != user {
                Some(ShadowForgeError::ComplianceFailed)
            } else if !a.spec_is_current(now) {
                Some(ShadowForgeError::ComplianceExpired)
            } else {
                None
            },
        }
    }
}

/// The compliance gate in front of deposits and withdrawals.
pub fn check_compliance(
    required: bool,
    attestation: &Option<ComplianceAttestation>,
    user: &Pubkey,
    now: i64,
) -> (r: Result<(), ShadowForgeError>)
    ensures
        match r {
            Ok(_) => compliance_rejection(required, *attestation, *user, now) is None,
            Err(e) => compliance_rejection(required, *attestation, *user, now) == Some(e),
        },
{
    if !required {
        return Ok(());
    }
    match attestation {
        None => Err(ShadowForgeError::KycRequired),
        Some(a) => {
            if !a.user.is(user) {
                Err(ShadowForgeError::ComplianceFailed)
            } else if !a.is_current(now) {
                Err(ShadowForgeError::ComplianceExpired)
            } else {
                Ok(())
            }
        },
    }
}

/// How far an outbound bridge request has come.
#[derive(Clone, Copy, Debug, PartialEq, Eq, Structural)]
pub enum BridgeStatus {
    Pending,
    Confirmed,
    Completed,
    Failed,
}

impl Default for BridgeStatus {
    fn default() -> (r: BridgeStatus)
        ensures
            r == BridgeStatus::Pending,
    {
        BridgeStatus::Pending
    }
}

/// One user's bridge request.
#[derive(Clone, Copy, Debug, PartialEq, Eq)]
pub struct BridgeRequest {
    pub user: Pubkey,
    pub dest_chain_id: u64,
    pub amount_commitment: [u8; 32],
    pub status: BridgeStatus,
    pub created_at: i64,
}

impl BridgeRequest {
    /// The record before any request was made. Its status reads `Pending`
    /// like that of a request under way; no request names the chain 0, so the
    /// record of a request that was made is never this one.
    pub open spec fn blank() -> BridgeRequest {
        BridgeRequest {
            user: Pubkey::unset(),
            dest_chain_id: 0,
            amount_commitment: ZERO_BYTES,
            status: BridgeStatus::Pending,
            created_at: 0,
        }
    }

    /// Whether no request was made in this record.
    pub open spec fn spec_is_blank(&self) -> bool {
        *self == BridgeRequest::blank()
    }

    /// Tells whether no request was made in this record.
    #[verifier::when_used_as_spec(spec_is_blank)]
    pub fn is_blank(&self) -> (r: bool)
        ensures
            r == self.spec_is_blank(),
    {
        self.user.is_unset() && self.dest_chain_id == 0 && is_all_zero(&self.amount_commitment)
            && self.status == BridgeStatus::Pending && self.created_at == 0
    }
}

impl Default for BridgeRequest {
    fn default() -> (r: BridgeRequest)
        ensures
            r == BridgeRequest::blank(),
    {
        BridgeRequest {
            user: Pubkey::default(),
            dest_chain_id: 0,
            amount_commitment: ZERO_BYTES,
            status: BridgeStatus::default(),
            created_at: 0,
        }
    }
}

/// The liquidation threshold of every loan, in basis points.
pub const LIQUIDATION_THRESHOLD_BPS: u16 = 8_000;

/// One user's loan.
#[derive(Clone, Copy, Debug, PartialEq, Eq)]
pub struct LendingPosition {
    pub borrower: Pubkey,
    pub encrypted_collateral: EncryptedAmount,
    pub encrypted_borrow: EncryptedAmount,
    pub interest_rate_bps: u16,
    pub originated_at: i64,
    pub last_accrual_at: i64,
    pub liquidation_threshold_bps: u16,
    pub is_active: bool,
}

impl LendingPosition {
    /// The record before any loan was taken.
    pub open spec fn blank() -> LendingPosition {
        LendingPosition {
            borrower: Pubkey::unset(),
            encrypted_collateral: EncryptedAmount::zero(),
            encrypted_borrow: EncryptedAmount::zero(),
            interest_rate_bps: 0,
            originated_at: 0,
            last_accrual_at: 0,
            liquidation_threshold_bps: 0,
            is_active: false,
        }
    }

    /// An open loan has the fixed liquidation threshold.
    pub open spec fn wf(&self) -> bool {
        self.is_active ==> self.liquidation_threshold_bps == LIQUIDATION_THRESHOLD_BPS
    }
}

impl Default for LendingPosition {
    fn default() -> (r: LendingPosition)
        ensures
            r == LendingPosition::blank(),
            r.wf(),
    {
        LendingPosition {
            borrower: Pubkey::default(),
            encrypted_collateral: EncryptedAmount::default(),
            encrypted_borrow: EncryptedAmount::default(),
            interest_rate_bps: 0,
            originated_at: 0,
            last_accrual_at: 0,
            liquidation_threshold_bps: 0,
            is_active: false,
        }
    }
}

/// The side of a dark-pool order.
#[derive(Clone, Copy, Debug, PartialEq, Eq, Structural)]
pub enum OrderSide {
    Buy,
    Sell,
}

impl Default for OrderSide {
    fn default() -> (r: OrderSide)
        ensures
            r == OrderSide::Buy,
    {
        OrderSide::Buy
    }
}

/// The state of a dark-pool order. `NoOrder` is the state of a record in
/// which no order was placed yet.
#[derive(Clone, Copy, Debug, PartialEq, Eq, Structural)]
pub enum OrderStatus {
    NoOrder,
    Open,
    PartiallyFilled,
    Filled,
    Cancelled,
}

impl OrderStatus {
    /// Whether a new order may take the place of one in this state: none was
    /// placed, or the last one was cancelled or filled.
    pub open spec fn spec_is_replaceable(&self) -> bool {
        *self == OrderStatus::NoOrder || *self == OrderStatus::Cancelled || *self
            == OrderStatus::Filled
    }

    /// Tells whether a new order may take the place of one in this state.
    #[verifier::when_used_as_spec(spec_is_replaceable)]
    pub fn is_replaceable(&self) -> (r: bool)
        ensures
            r == self.spec_is_replaceable(),
    {
        match self {
            OrderStatus::NoOrder | OrderStatus::Cancelled | OrderStatus::Filled => true,
            OrderStatus::Open | OrderStatus::PartiallyFilled => false,
        }
    }
}

impl Default for OrderStatus {
    fn default() -> (r: OrderStatus)
        ensures
            r == OrderStatus::NoOrder,
    {
        OrderStatus::NoOrder
    }
}

/// One user's dark-pool order.
#[derive(Clone, Copy, Debug, PartialEq, Eq)]
pub struct DarkPoolOrder {
    pub maker: Pubkey,
    pub side: OrderSide,
    pub encrypted_amount: EncryptedAmount,
    pub encrypted_price: EncryptedAmount,
    pub status: OrderStatus,
    pub created_at: i64,
}

impl DarkPoolOrder {
    /// The record before any order was placed.
    pub open spec fn blank() -> DarkPoolOrder {
        DarkPoolOrder {
            maker: Pubkey::unset(),
            side: OrderSide::Buy,
            encrypted_amount: EncryptedAmount::zero(),
            encrypted_price: EncryptedAmount::zero(),
            status: OrderStatus::NoOrder,
            created_at: 0,
        }
    }
}

impl Default for DarkPoolOrder {
    fn default() -> (r: DarkPoolOrder)
        ensures
            r == DarkPoolOrder::blank(),
    {
        DarkPoolOrder {
            maker: Pubkey::default(),
            side: OrderSide::default(),
            encrypted_amount: EncryptedAmount::default(),
            encrypted_price: EncryptedAmount::default(),
            status: OrderStatus::default(),
            created_at: 0,
        }
    }
}

/// Recorded when a deposit is taken. It carries the commitment, never the
/// amount.
#[derive(Clone, Copy, Debug, PartialEq, Eq)]
pub struct PrivateDepositEvent {
    pub user: Pubkey,
    pub commitment: [u8; 32],
    pub timestamp: i64,
}

/// Recorded when a withdrawal is paid out.
#[derive(Clone, Copy, Debug, PartialEq, Eq)]
pub struct PrivateWithdrawEvent {
    pub user: Pubkey,
    pub nullifier: [u8; 32],
    pub timestamp: i64,
}

/// Recorded on every swap action.
#[derive(Clone, Copy, Debug, PartialEq, Eq)]
pub struct PrivateSwapEvent {
    pub user: Pubkey,
    pub swap_commitment: [u8; 32],
    pub timestamp: i64,
}

/// Recorded on every bridge action.
#[derive(Clone, Copy, Debug, PartialEq, Eq)]
pub struct BridgeRequestEvent {
    pub user: Pubkey,
    pub dest_chain_id: u64,
    pub commitment: [u8; 32],
    pub timestamp: i64,
}

/// Recorded on every compliance action.
#[derive(Clone, Copy, Debug, PartialEq, Eq)]
pub struct ComplianceEvent {
    pub user: Pubkey,
    pub provider: Pubkey,
    pub risk_score: u8,
    pub expires_at: i64,
}

} // verus!
