//! The plain values that the vault works on, hands out and asks its host to act on.

use vstd::prelude::*;

verus! {

/// An account or a contract. Two addresses are the same party exactly when their ids agree.
#[derive(Clone, Copy, Debug, PartialEq, Eq, Structural)]
pub struct Address {
    pub id: u64,
}

/// A destination of shares: an address, with the sub-account that the sender named, if any.
#[derive(Clone, Copy, Debug, PartialEq, Eq)]
pub struct MuxedAddress {
    pub address: Address,
    pub id: Option<u64>,
}

/// The ledger that a call runs in.
#[derive(Clone, Copy, Debug, PartialEq, Eq)]
pub struct Ledger {
    /// Close time, in Unix seconds.
    pub timestamp: u64,
    pub sequence: u32,
}

/// What the project registry says of one project.
#[derive(Clone, Copy, Debug, PartialEq, Eq)]
pub struct ProjectData {
    pub owner: Address,
    pub credit_quality: u32,
    pub green_impact: u32,
}

/// A discounted management fee for large deposits.
#[derive(Clone, Copy, Debug, PartialEq, Eq)]
pub struct VolumeTier {
    /// Deposits of this amount and above pay the discounted fee.
    pub threshold: i128,
    pub discounted_bps: u32,
}

/// A redemption that waits for liquidity.
#[derive(Clone, Copy, Debug, PartialEq, Eq)]
pub struct QueuedClaim {
    pub from: Address,
    pub usdc_owed: i128,
}

#[derive(Clone, Copy, Debug, PartialEq, Eq)]
pub struct HealthStatus {
    pub state_version: u32,
    pub is_paused: bool,
    pub utilization_bps: u32,
    pub has_emergency_admin: bool,
}

#[derive(Clone, Copy, Debug, PartialEq, Eq)]
pub struct PortfolioInfo {
    pub shares: i128,
    pub usdc_value: i128,
    pub claimable_yield: i128,
    pub share_of_pool_bps: i128,
    pub total_deposited: i128,
}

#[derive(Clone, Debug, PartialEq, Eq)]
pub struct HBSTokenInfo {
    pub name: String,
    pub symbol: String,
    pub decimals: u32,
    pub trading_enabled: bool,
}

#[derive(Clone, Copy, Debug, PartialEq, Eq)]
pub struct CarbonCreditCalculation {
    pub project_id: u32,
    pub amount_invested: i128,
    pub credits: i128,
}

/// An event of the audit trail. Its texts are kept byte by byte, whatever their encoding.
#[derive(Clone, Debug, PartialEq, Eq)]
pub struct ComplianceEventData {
    pub seq: u64,
    pub timestamp: u64,
    pub event_type: Vec<u8>,
    pub data: Vec<u8>,
}

/// The model of [`ComplianceEventData`].
pub struct ComplianceEventView {
    pub seq: u64,
    pub timestamp: u64,
    pub event_type: Seq<u8>,
    pub data: Seq<u8>,
}

impl View for ComplianceEventData {
    type V = ComplianceEventView;

    open spec fn view(&self) -> ComplianceEventView {
        ComplianceEventView {
            seq: self.seq,
            timestamp: self.timestamp,
            event_type: self.event_type@,
            data: self.data@,
        }
    }
}

#[derive(Clone, Copy, Debug, PartialEq, Eq)]
pub struct ReportingSnapshotData {
    pub timestamp: u64,
    pub total_assets: i128,
    pub total_supply: i128,
    pub total_investments: i128,
}

#[derive(Clone, Debug, PartialEq, Eq)]
pub struct RegulatoryReport {
    pub snapshot: ReportingSnapshotData,
    pub recent_events: Vec<ComplianceEventData>,
    pub max_transaction_amount: i128,
    pub carbon_credit_price: i128,
}

/// The message of a cross-chain transfer of shares.
#[derive(Clone, Copy, Debug, PartialEq, Eq)]
pub struct BridgeTransferPayload {
    pub token_address: [u8; 32],
    pub recipient: [u8; 32],
    pub amount: i128,
    pub source_chain: u32,
    pub target_chain: u32,
    pub nonce: u64,
}

/// Where a guardian-verified cross-chain message comes from.
#[derive(Clone, Copy, Debug, PartialEq, Eq)]
pub struct VaaOrigin {
    pub emitter_chain: u32,
    pub emitter_address: [u8; 32],
}

/// How the vault is known on the cross-chain bridge.
#[derive(Clone, Copy, Debug, PartialEq, Eq)]
pub struct BridgeIdentity {
    /// The bridge's number for the chain that the vault lives on.
    pub chain_id: u32,
    /// The vault's own address in the bridge's form.
    pub token_address: [u8; 32],
}

/// A flash loan that has been paid out and not yet settled.
#[derive(Clone, Copy, Debug, PartialEq, Eq)]
pub struct FlashLoan {
    pub initiator: Address,
    pub borrower: Address,
    pub amount: i128,
    pub fee: i128,
}

/// Why a multi-signature configuration is not acceptable.
#[derive(Clone, Copy, Debug, PartialEq, Eq)]
pub enum ConfigError {
    TooManySigners,
    InvalidThreshold,
    DuplicateSigner,
}

/// Why a set of approvals does not carry an administrative call.
#[derive(Clone, Copy, Debug, PartialEq, Eq)]
pub enum ApprovalError {
    InvalidThreshold,
    DuplicateApproval,
    NotSigner,
    InsufficientApprovals,
}

/// Why a call is refused. A refused call changes nothing.
#[derive(Clone, Copy, Debug, PartialEq, Eq)]
pub enum VaultError {
    UnsupportedStateVersion,
    OwnerNotSet,
    Paused,
    NotEmergencyAdmin,
    AmountNotPositive,
    DepositBelowMinimum,
    DepositExceedsMaximum,
    ExceedsMaxTransactionAmount,
    MaxSupplyExceeded,
    FeeRecipientNotSet,
    FeeExceedsMaximum,
    EmptyBatchDeposit,
    EmptyBatchFunding,
    BatchTooLarge,
    DuplicateProjectId,
    DepositLocked,
    SharesNotPositive,
    WithdrawBelowMinimum,
    WithdrawalExceedsLimit,
    SlippageLimitExceeded,
    QueueEntryMissing,
    YieldAmountNotPositive,
    NoSharesOutstanding,
    InsufficientLiquidYield,
    ClaimAmountNotPositive,
    InsuranceAlreadyClaimed,
    InsufficientInsurance,
    TooManyMultiSigSigners,
    InvalidMultiSigThreshold,
    DuplicateApproval,
    NotMultiSigSigner,
    InsufficientApprovals,
    ThresholdOutOfRange,
    ProjectNotFound,
    RegistryPaused,
    SelfFundingNotAllowed,
    BelowMinCreditQuality,
    BelowMinGreenImpact,
    InvestmentCapExceeded,
    InsufficientDeployable,
    BridgeNotSet,
    WormholeCoreNotSet,
    EmitterNotTrusted,
    BridgeWrongTargetChain,
    BridgeTokenMismatch,
    VaaAlreadyConsumed,
    FlashLoanFeeOutOfRange,
    FlashLoanCallbackFailed,
    CarbonOracleNotSet,
    CarbonPriceNotPositive,
    NoCarbonCreditsToIssue,
    InsufficientCarbonCredits,
    NegativeMaxTransactionAmount,
    ComplianceEventNotFound,
    NoSnapshotTaken,
    TransferToVaultBlocked,
    FundingRoundActive,
    /// An intermediate value of the call leaves the range of its type.
    ArithmeticOverflow,
    /// An amount of shares or of USDC to be moved is negative.
    NegativeAmount,
    /// An account does not hold the shares that the call takes from it.
    InsufficientShares,
    /// The vault does not hold the USDC that the call pays out.
    InsufficientUsdc,
}

/// What the vault reports to observers.
#[derive(Clone, Debug, PartialEq, Eq)]
pub enum Event {
    Deposit { from: Address, usdc_amount: i128, shares: i128 },
    UtilizationWarning { utilization_bps: u32 },
    Withdraw { from: Address, shares: i128, usdc_returned: i128 },
    WithdrawQueued { from: Address, shares: i128, usdc_owed: i128 },
    WithdrawClaimed { from: Address, usdc_paid: i128, index: u64 },
    YieldReceived { from: Address, amount: i128 },
    YieldClaimed { from: Address, amount: i128 },
    InsuranceClaimed { project_id: u32, recipient: Address, amount: i128 },
    ProjectFunded { project_id: u32, amount: i128, owner: Address },
    ManagementFeeSet { recipient: Address, fee_bps: u32 },
    TradingEnabled { enabled: bool },
    FundingThresholdsSet { min_credit_quality: u32, min_green_impact: u32 },
    RegistryChanged { old: Address, new: Address },
    WithdrawalWindowSet { ledgers: u32 },
    InvestmentCapSet { cap: i128 },
    BridgeSet { bridge: Address },
    BridgeMint { to: Address, amount: i128 },
    BridgeBurn { from: Address, amount: i128 },
    TrustedEmitterSet { chain_id: u32, emitter_address: [u8; 32], trusted: bool },
    BridgeTransferInitiated {
        from: Address,
        amount: i128,
        target_chain: u32,
        recipient: [u8; 32],
        sequence: u64,
    },
    BridgeTransferCompleted {
        emitter_chain: u32,
        emitter_address: [u8; 32],
        to: Address,
        amount: i128,
    },
    FlashLoanFeeSet { fee_bps: u32 },
    FlashLoan { initiator: Address, borrower: Address, amount: i128, fee: i128 },
    FundingRoundStarted,
    FundingRoundEnded,
    CarbonOracleSet { oracle: Address },
    CarbonCreditPriceSet { price: i128 },
    CarbonCreditsCalculated { project_id: u32, amount: i128, credits: i128 },
    CarbonCreditsTransferred { from: Address, to: Address, amount: i128 },
    MaxTransactionAmountSet { amount: i128 },
    ComplianceEventRecorded { seq: u64, event_type: Vec<u8> },
    ReportingSnapshotTaken { timestamp: u64 },
    Paused,
    Unpaused,
    EmergencyAdminChanged { emergency_admin: Option<Address> },
    OwnershipTransferred { old_owner: Address, new_owner: Address },
}

/// What the host is to do for an accepted call, in order. If one of the effects fails, the
/// host drops the whole call, with the state that it led to.
#[derive(Clone, Debug, PartialEq, Eq)]
pub enum Effect {
    /// Fail unless this party has authorized the call.
    RequireAuth(Address),
    /// Fail unless a project registry answers at this address.
    CheckRegistry(Address),
    /// Fail unless a token answers at this address.
    CheckAsset(Address),
    /// Record the first owner.
    SetOwner(Address),
    /// Record the name, the symbol and the decimals of the share token.
    SetShareMetadata { decimals: u32, name: String, symbol: String },
    /// Propose a new owner, who may accept up to the given ledger.
    ProposeOwner { new_owner: Address, live_until_ledger: u32 },
    /// Move USDC.
    TransferUsdc { from: Address, to: Address, amount: i128 },
    /// Create shares.
    MintShares { to: Address, amount: i128 },
    /// Destroy shares, with the authorization of their holder.
    BurnShares { from: Address, amount: i128 },
    /// Move shares, with the authorization of their holder.
    TransferShares { from: Address, to: MuxedAddress, amount: i128 },
    /// Move shares out of the allowance of a spender, with the authorization of the spender.
    TransferSharesFrom { spender: Address, from: Address, to: Address, amount: i128 },
    /// Destroy shares out of the allowance of a spender, with the authorization of the spender.
    BurnSharesFrom { spender: Address, from: Address, amount: i128 },
    /// Renew the lifetime of the deposit record of an account.
    ExtendDepositRecord { account: Address, threshold: u32, extend_to: u32 },
    /// Publish a cross-chain message; the answer is its sequence number.
    PublishMessage { core: Address, consistency_level: u32, payload: BridgeTransferPayload },
    /// Hand the borrower of a flash loan the control; the answer is whether it succeeded.
    FlashLoanCallback { loan: FlashLoan, vault: Address, data: Vec<u8> },
    /// Replace the code of the vault.
    UpdateWasm { hash: [u8; 32] },
    /// Report to observers.
    Emit(Event),
}

/// The result of an accepted call: a value, and what the host is to do.
#[derive(Clone, Debug, PartialEq, Eq)]
pub struct Outcome<T> {
    pub value: T,
    pub effects: Vec<Effect>,
}

} // verus!
