//! The state of the vault, and its mathematical model.

use crate::constants::{
    DEFAULT_FLASH_LOAN_FEE, DEFAULT_WITHDRAWAL_WINDOW, MAX_INVESTMENT_PER_PROJECT, SHARE_DECIMALS,
    SHARE_NAME, SHARE_SYMBOL, STATE_VERSION,
};
use crate::types::{
    Address, ComplianceEventData, ComplianceEventView, Effect, Outcome, ProjectData, QueuedClaim,
    ReportingSnapshotData, VaaOrigin, VolumeTier,
};
use std::collections::BTreeMap;
use vstd::prelude::*;

verus! {

/// What the owner configures, and the parties that the vault deals with.
#[derive(Clone, Copy, Debug, PartialEq, Eq)]
pub struct Settings {
    /// Version of the stored layout; 0 where none was ever recorded.
    pub state_version: u32,
    /// The vault's own address.
    pub vault: Address,
    pub owner: Option<Address>,
    pub emergency_admin: Option<Address>,
    pub paused: bool,
    /// The token that the vault accepts.
    pub usdc_sac: Address,
    /// The project registry.
    pub registry: Address,
    pub management_fee_bps: u32,
    pub management_fee_recipient: Option<Address>,
    pub volume_tier: Option<VolumeTier>,
    pub multisig_threshold: u32,
    pub min_credit_quality: u32,
    pub min_green_impact: u32,
    pub max_investment_per_project: i128,
    pub withdrawal_window_ledgers: u32,
    pub trading_enabled: bool,
    pub funding_round_active: bool,
    pub bridge: Option<Address>,
    pub wormhole_core: Option<Address>,
    pub flash_loan_fee_bps: u32,
    pub carbon_oracle: Option<Address>,
    pub carbon_credit_price: i128,
    /// Largest single transaction; 0 where there is no limit.
    pub max_transaction_amount: i128,
}

/// The running figures of the vault.
#[derive(Clone, Copy, Debug, PartialEq, Eq)]
pub struct Totals {
    /// USDC that the vault holds.
    pub usdc_balance: i128,
    /// Shares outstanding.
    pub total_supply: i128,
    pub total_investments: i128,
    /// Part of the USDC balance that is set aside for insurance claims.
    pub insurance_fund: i128,
    pub cached_total_assets: i128,
    /// Yield per share since the beginning, times the yield scale.
    pub yield_per_share_accum: i128,
    /// Index of the oldest queued redemption.
    pub queue_head: u64,
    /// Index that the next queued redemption gets.
    pub queue_tail: u64,
    /// Sequence number of the latest compliance event.
    pub compliance_event_counter: u64,
    pub reporting_snapshot: Option<ReportingSnapshotData>,
}

/// The vault. Tables of accounts are keyed by the id of the address.
pub struct InvestmentVault {
    pub settings: Settings,
    pub totals: Totals,
    pub multisig_signers: Vec<Address>,
    pub share_balances: BTreeMap<u64, i128>,
    pub total_deposited: BTreeMap<u64, i128>,
    /// Accumulator up to which an account has been paid its yield.
    pub yield_debt: BTreeMap<u64, i128>,
    /// Time of the last deposit of an account.
    pub last_deposit: BTreeMap<u64, u64>,
    /// Ledger of the last deposit of an account.
    pub last_deposit_ledger: BTreeMap<u64, u32>,
    pub carbon_credits: BTreeMap<u64, i128>,
    pub project_investments: BTreeMap<u32, i128>,
    /// Time of the first funding of a project.
    pub investment_timestamps: BTreeMap<u32, u64>,
    pub insurance_claimed: BTreeMap<u32, bool>,
    pub queue: BTreeMap<u64, QueuedClaim>,
    pub compliance_events: BTreeMap<u64, ComplianceEventData>,
    pub trusted_emitters: Vec<VaaOrigin>,
    /// Digests of the cross-chain messages that have been acted on.
    pub consumed_vaas: Vec<[u8; 32]>,
}

/// The model of [`InvestmentVault`].
#[verifier::ext_equal]
pub struct VaultState {
    pub settings: Settings,
    pub totals: Totals,
    pub multisig_signers: Seq<Address>,
    pub share_balances: Map<u64, i128>,
    pub total_deposited: Map<u64, i128>,
    pub yield_debt: Map<u64, i128>,
    pub last_deposit: Map<u64, u64>,
    pub last_deposit_ledger: Map<u64, u32>,
    pub carbon_credits: Map<u64, i128>,
    pub project_investments: Map<u32, i128>,
    pub investment_timestamps: Map<u32, u64>,
    pub insurance_claimed: Map<u32, bool>,
    pub queue: Map<u64, QueuedClaim>,
    pub compliance_events: Map<u64, ComplianceEventView>,
    pub trusted_emitters: Set<(u32, Seq<u8>)>,
    pub consumed_vaas: Set<Seq<u8>>,
}

/// The events of a table, by their models.
pub open spec fn trail(events: Map<u64, ComplianceEventData>) -> Map<u64, ComplianceEventView> {
    events.map_values(|e: ComplianceEventData| e@)
}

/// The emitters in a list, by chain and address.
pub open spec fn emitter_set(list: Seq<VaaOrigin>) -> Set<(u32, Seq<u8>)> {
    list.map_values(|o: VaaOrigin| (o.emitter_chain, o.emitter_address@)).to_set()
}

/// The digests in a list.
pub open spec fn digest_set(list: Seq<[u8; 32]>) -> Set<Seq<u8>> {
    list.map_values(|d: [u8; 32]| d@).to_set()
}

impl View for InvestmentVault {
    type V = VaultState;

    open spec fn view(&self) -> VaultState {
        VaultState {
            settings: self.settings,
            totals: self.totals,
            multisig_signers: self.multisig_signers@,
            share_balances: self.share_balances@,
            total_deposited: self.total_deposited@,
            yield_debt: self.yield_debt@,
            last_deposit: self.last_deposit@,
            last_deposit_ledger: self.last_deposit_ledger@,
            carbon_credits: self.carbon_credits@,
            project_investments: self.project_investments@,
            investment_timestamps: self.investment_timestamps@,
            insurance_claimed: self.insurance_claimed@,
            queue: self.queue@,
            compliance_events: trail(self.compliance_events@),
            trusted_emitters: emitter_set(self.trusted_emitters@),
            consumed_vaas: digest_set(self.consumed_vaas@),
        }
    }
}

/// What the project registry answers during one call: `projects` holds the projects that it
/// knows, as far as the call asks for them.
pub struct Registry {
    pub paused: bool,
    pub total_projects: u32,
    pub projects: BTreeMap<u32, ProjectData>,
}

/// The model of [`Registry`].
pub struct RegistryView {
    pub paused: bool,
    pub total_projects: u32,
    pub projects: Map<u32, ProjectData>,
}

impl View for Registry {
    type V = RegistryView;

    open spec fn view(&self) -> RegistryView {
        RegistryView {
            paused: self.paused,
            total_projects: self.total_projects,
            projects: self.projects@,
        }
    }
}

/// The settings of a new vault.
pub open spec fn initial_settings(
    vault: Address,
    admin: Address,
    usdc_sac: Address,
    registry: Address,
) -> Settings {
    Settings {
        state_version: STATE_VERSION,
        vault,
        owner: Some(admin),
        emergency_admin: None,
        paused: false,
        usdc_sac,
        registry,
        management_fee_bps: 0,
        management_fee_recipient: None,
        volume_tier: None,
        multisig_threshold: 0,
        min_credit_quality: 0,
        min_green_impact: 0,
        max_investment_per_project: MAX_INVESTMENT_PER_PROJECT,
        withdrawal_window_ledgers: DEFAULT_WITHDRAWAL_WINDOW,
        trading_enabled: false,
        funding_round_active: false,
        bridge: None,
        wormhole_core: None,
        flash_loan_fee_bps: DEFAULT_FLASH_LOAN_FEE,
        carbon_oracle: None,
        carbon_credit_price: 0,
        max_transaction_amount: 0,
    }
}

/// The figures of a new vault that already holds `usdc_balance`.
pub open spec fn initial_totals(usdc_balance: i128) -> Totals {
    Totals {
        usdc_balance,
        total_supply: 0,
        total_investments: 0,
        insurance_fund: 0,
        cached_total_assets: 0,
        yield_per_share_accum: 0,
        queue_head: 0,
        queue_tail: 0,
        compliance_event_counter: 0,
        reporting_snapshot: None,
    }
}

/// The state of a new vault.
pub open spec fn initial_state(
    vault: Address,
    admin: Address,
    usdc_sac: Address,
    registry: Address,
    usdc_balance: i128,
) -> VaultState {
    VaultState {
        settings: initial_settings(vault, admin, usdc_sac, registry),
        totals: initial_totals(usdc_balance),
        multisig_signers: Seq::empty(),
        share_balances: Map::empty(),
        total_deposited: Map::empty(),
        yield_debt: Map::empty(),
        last_deposit: Map::empty(),
        last_deposit_ledger: Map::empty(),
        carbon_credits: Map::empty(),
        project_investments: Map::empty(),
        investment_timestamps: Map::empty(),
        insurance_claimed: Map::empty(),
        queue: Map::empty(),
        compliance_events: Map::empty(),
        trusted_emitters: Set::empty(),
        consumed_vaas: Set::empty(),
    }
}

impl VaultState {
    /// This state, with other settings.
    pub open spec fn with_settings(self, settings: Settings) -> VaultState {
        VaultState { settings, ..self }
    }

    /// This state, with other figures.
    pub open spec fn with_totals(self, totals: Totals) -> VaultState {
        VaultState { totals, ..self }
    }
}

impl InvestmentVault {
    /// Set up the vault at address `vault`, which holds `usdc_balance` of the token `usdc_sac`.
    /// The host checks that `registry` and `usdc_sac` answer, and records the owner and the
    /// share token's metadata.
    pub fn __constructor(
        vault: Address,
        admin: Address,
        usdc_sac: Address,
        registry: Address,
        usdc_balance: i128,
    ) -> (r: Outcome<InvestmentVault>)
        ensures
            r.value@ == initial_state(vault, admin, usdc_sac, registry, usdc_balance),
            usdc_balance >= 0 ==> r.value@.well_formed(),
            r.effects@.len() == 4,
            r.effects@[0] == Effect::SetOwner(admin),
            r.effects@[1] == Effect::CheckRegistry(registry),
            r.effects@[2] == Effect::CheckAsset(usdc_sac),
            match r.effects@[3] {
                Effect::SetShareMetadata { decimals, name, symbol } => {
                    &&& decimals == SHARE_DECIMALS
                    &&& name@ == SHARE_NAME@
                    &&& symbol@ == SHARE_SYMBOL@
                },
                _ => false,
            },
    {
        let settings = Settings {
            state_version: STATE_VERSION,
            vault,
            owner: Some(admin),
            emergency_admin: None,
            paused: false,
            usdc_sac,
            registry,
            management_fee_bps: 0,
            management_fee_recipient: None,
            volume_tier: None,
            multisig_threshold: 0,
            min_credit_quality: 0,
            min_green_impact: 0,
            max_investment_per_project: MAX_INVESTMENT_PER_PROJECT,
            withdrawal_window_ledgers: DEFAULT_WITHDRAWAL_WINDOW,
            trading_enabled: false,
            funding_round_active: false,
            bridge: None,
            wormhole_core: None,
            flash_loan_fee_bps: DEFAULT_FLASH_LOAN_FEE,
            carbon_oracle: None,
            carbon_credit_price: 0,
            max_transaction_amount: 0,
        };
        let totals = Totals {
            usdc_balance,
            total_supply: 0,
            total_investments: 0,
            insurance_fund: 0,
            cached_total_assets: 0,
            yield_per_share_accum: 0,
            queue_head: 0,
            queue_tail: 0,
            compliance_event_counter: 0,
            reporting_snapshot: None,
        };
        let value = InvestmentVault {
            settings,
            totals,
            multisig_signers: Vec::new(),
            share_balances: BTreeMap::new(),
            total_deposited: BTreeMap::new(),
            yield_debt: BTreeMap::new(),
            last_deposit: BTreeMap::new(),
            last_deposit_ledger: BTreeMap::new(),
            carbon_credits: BTreeMap::new(),
            project_investments: BTreeMap::new(),
            investment_timestamps: BTreeMap::new(),
            insurance_claimed: BTreeMap::new(),
            queue: BTreeMap::new(),
            compliance_events: BTreeMap::new(),
            trusted_emitters: Vec::new(),
            consumed_vaas: Vec::new(),
        };
        let mut effects: Vec<Effect> = Vec::new();
        effects.push(Effect::SetOwner(admin));
        effects.push(Effect::CheckRegistry(registry));
        effects.push(Effect::CheckAsset(usdc_sac));
        effects.push(
            Effect::SetShareMetadata {
                decimals: SHARE_DECIMALS,
                name: SHARE_NAME.to_string(),
                symbol: SHARE_SYMBOL.to_string(),
            },
        );
        proof {
            assert(value@.trusted_emitters =~= Set::<(u32, Seq<u8>)>::empty());
            assert(value@.consumed_vaas =~= Set::<Seq<u8>>::empty());
            assert(value@.compliance_events =~= Map::<u64, ComplianceEventView>::empty());
        }
        Outcome { value, effects }
    }
}

} // verus!
