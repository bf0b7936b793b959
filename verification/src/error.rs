use vstd::prelude::*;

verus! {

/// Every way in which the ledger rejects an action. A rejected action leaves
/// all records as they were.
#[derive(Clone, Copy, Debug, PartialEq, Eq, Structural)]
pub enum ShadowForgeError {
    // Initialization
    AlreadyInitialized,
    InvalidAuthority,
    InvalidMintConfig,
    // Proof verification
    InvalidProof,
    ProofVerificationFailed,
    RangeProofFailed,
    BulletproofFailed,
    InvalidCommitment,
    MalformedProofData,
    // Encryption
    EncryptionFailed,
    DecryptionFailed,
    InvalidCiphertext,
    MxeComputationFailed,
    InvalidEncryptedState,
    // Balances and amounts
    InsufficientShieldedBalance,
    AmountOverflow,
    AmountUnderflow,
    InvalidAmount,
    DepositLimitExceeded,
    MinimumWithdrawalNotMet,
    // Compliance
    ComplianceFailed,
    AddressScreeningFailed,
    SelectiveDisclosureFailed,
    ComplianceExpired,
    KycRequired,
    ComplianceThresholdExceeded,
    // Transfers and bridging
    PrivateTransferFailed,
    ShadowWireTransferFailed,
    BridgeFailed,
    SilentSwapFailed,
    InvalidDestinationChain,
    BridgeLiquidityInsufficient,
    // Lending
    LendingFailed,
    InsufficientCollateral,
    LoanNotFound,
    LoanLiquidated,
    InterestOverflow,
    // Swaps and the dark pool
    SwapFailed,
    StarpaySwapFailed,
    DarkPoolFailed,
    SlippageExceeded,
    NoLiquidity,
    InvalidSwapPath,
    // Records and state
    PositionNotFound,
    PositionExists,
    InvalidVaultState,
    CorruptedAccountData,
    InvalidTimestamp,
    // Administration
    Unauthorized,
    VaultPaused,
    InvalidAdminOperation,
    EmergencyMode,
    // External integrations
    HeliusQueryFailed,
    QuicknodeQueryFailed,
    ExternalSdkFailed,
    CpiInvocationFailed,
    SdkResponseInvalid,
}

} // verus!
