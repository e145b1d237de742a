//! Shares are priced by the value of the vault, and rounding is never in favour of the caller.

use crate::assets::{assets_for, elapsed, project_returns, score_rate, shares_for};
use crate::constants::{ANNUAL_PERIOD_SECS, BPS_SCALE, MAX_MANAGEMENT_FEE_BPS, SCORE_RATE_SCALE};
use crate::deposits::{dynamic_fee_bps, premium_of};
use crate::state::{RegistryView, Settings, VaultState};
use crate::tables::{lemma_sum_within, optional};
use crate::types::{Address, Ledger, ProjectData, VaultError};
use vstd::arithmetic::div_mod::{lemma_div_by_multiple, lemma_div_denominator, lemma_div_is_ordered};
use vstd::arithmetic::mul::lemma_mul_inequality;
use vstd::prelude::*;

verus! {

/// Multiplying a quotient back gives no more than the dividend.
proof fn lemma_quotient_below(a: int, b: int)
    requires
        a >= 0,
        b > 0,
    ensures
        0 <= a / b,
        (a / b) * b <= a,
{
    assert(0 <= a / b && (a / b) * b <= a) by (nonlinear_arith)
        requires
            a >= 0,
            b > 0,
    ;
}

/// USDC turned into shares and back, at one value of the vault, is never more than it was.
pub proof fn buying_and_redeeming_never_gains(usdc: int, supply: int, nav: int)
    requires
        usdc >= 0,
        supply >= 0,
        nav >= 0,
        shares_for(usdc, supply, nav) is Ok,
        assets_for(shares_for(usdc, supply, nav)->Ok_0 as int, supply, nav) is Ok,
    ensures
        0 <= assets_for(shares_for(usdc, supply, nav)->Ok_0 as int, supply, nav)->Ok_0 <= usdc,
{
    if supply > 0 && nav > 0 {
        let product = usdc * supply;
        assert(product >= 0) by (nonlinear_arith)
            requires
                usdc >= 0,
                supply > 0,
                product == usdc * supply,
        ;
        lemma_quotient_below(product, nav);
        let shares = product / nav;
        let back = shares * nav;
        assert(back >= 0) by (nonlinear_arith)
            requires
                shares >= 0,
                nav > 0,
                back == shares * nav,
        ;
        lemma_quotient_below(back, supply);
        assert(back / supply <= usdc) by (nonlinear_arith)
            requires
                (back / supply) * supply <= back <= product,
                product == usdc * supply,
                supply > 0,
        ;
    }
}

/// Shares turned into USDC and back, at one value of the vault, are never more than they were.
pub proof fn redeeming_and_buying_never_gains(shares: int, supply: int, nav: int)
    requires
        shares >= 0,
        supply >= 0,
        nav >= 0,
        assets_for(shares, supply, nav) is Ok,
        shares_for(assets_for(shares, supply, nav)->Ok_0 as int, supply, nav) is Ok,
    ensures
        0 <= shares_for(assets_for(shares, supply, nav)->Ok_0 as int, supply, nav)->Ok_0 <= shares,
{
    if supply > 0 && nav > 0 {
        let product = shares * nav;
        assert(product >= 0) by (nonlinear_arith)
            requires
                shares >= 0,
                nav > 0,
                product == shares * nav,
        ;
        lemma_quotient_below(product, supply);
        let usdc = product / supply;
        let back = usdc * supply;
        assert(back >= 0) by (nonlinear_arith)
            requires
                usdc >= 0,
                supply > 0,
                back == usdc * supply,
        ;
        lemma_quotient_below(back, nav);
        assert(back / nav <= shares) by (nonlinear_arith)
            requires
                (back / nav) * nav <= back <= product,
                product == shares * nav,
                nav > 0,
        ;
    }
}

/// An empty vault mints one share for one unit of USDC, and has nothing to redeem.
pub proof fn an_empty_vault_mints_one_for_one(amount: i128, supply: int, nav: int)
    requires
        supply == 0 || nav == 0,
    ensures
        shares_for(amount as int, supply, nav) == Ok::<i128, VaultError>(amount),
        assets_for(amount as int, supply, nav) == Ok::<i128, VaultError>(0),
{
}

/// More USDC buys no fewer shares.
pub proof fn more_usdc_buys_no_fewer_shares(less: int, more: int, supply: int, nav: int)
    requires
        0 <= less <= more,
        supply >= 0,
        nav >= 0,
        shares_for(less, supply, nav) is Ok,
        shares_for(more, supply, nav) is Ok,
    ensures
        shares_for(less, supply, nav)->Ok_0 <= shares_for(more, supply, nav)->Ok_0,
{
    if supply > 0 && nav > 0 {
        lemma_mul_inequality(less, more, supply);
        assert(0 <= less * supply) by (nonlinear_arith)
            requires
                less >= 0,
                supply > 0,
        ;
        lemma_div_is_ordered(less * supply, more * supply, nav);
    }
}

/// The premium, the management fee and the investable rest make up a deposit, and none of them is
/// negative. The fee is at most five percent.
pub proof fn deposit_parts_add_up(s: Settings, amount: int)
    requires
        s.well_formed(),
        amount >= 0,
    ensures
        premium_of(amount) + s.fee_of(amount) + s.investable_of(amount) == amount,
        premium_of(amount) >= 0,
        s.investable_of(amount) >= 0,
        0 <= s.fee_of(amount),
        s.fee_of(amount) * BPS_SCALE <= amount * MAX_MANAGEMENT_FEE_BPS,
{
    let bps = dynamic_fee_bps(amount, s.management_fee_bps, s.volume_tier) as int;
    let fee = amount * bps;
    assert(0 <= fee <= amount * 500) by (nonlinear_arith)
        requires
            amount >= 0,
            0 <= bps <= 500,
            fee == amount * bps,
    ;
}

/// A discount is a discount: a tier whose rate is not above the flat rate never raises a fee.
pub proof fn a_tier_never_raises_a_fee(s: Settings, amount: int)
    requires
        amount >= 0,
        s.volume_tier matches Some(tier) ==> tier.discounted_bps <= s.management_fee_bps,
    ensures
        s.fee_of(amount) <= (Settings { volume_tier: None, ..s }).fee_of(amount),
{
    let flat = s.management_fee_bps as int;
    let bps = dynamic_fee_bps(amount, s.management_fee_bps, s.volume_tier) as int;
    assert(amount * bps <= amount * flat) by (nonlinear_arith)
        requires
            amount >= 0,
            bps <= flat,
    ;
    lemma_div_is_ordered(amount * bps, amount * flat, BPS_SCALE as int);
}

/// An investment accrues, over one year, the whole rate of its project.
pub proof fn a_year_accrues_the_whole_rate(
    investment: int,
    project: ProjectData,
    funded_at: u64,
    now: u64,
)
    requires
        investment >= 0,
        now == funded_at + ANNUAL_PERIOD_SECS,
        project_returns(investment, project, Some(funded_at), now) is Ok,
    ensures
        project_returns(investment, project, Some(funded_at), now) == project_returns(
            investment,
            project,
            None,
            now,
        ),
{
    let yearly = investment * score_rate(project);
    let year = ANNUAL_PERIOD_SECS as int;
    assert(yearly >= 0) by (nonlinear_arith)
        requires
            investment >= 0,
            score_rate(project) >= 0,
            yearly == investment * score_rate(project),
    ;
    assert(yearly * year >= 0) by (nonlinear_arith)
        requires
            yearly >= 0,
            year > 0,
    ;
    lemma_div_denominator(yearly * year, year, SCORE_RATE_SCALE as int);
    lemma_div_by_multiple(yearly, year);
}

/// The expected return of an investment does not fall with time.
pub proof fn returns_grow_with_time(
    investment: int,
    project: ProjectData,
    funded_at: Option<u64>,
    earlier: u64,
    later: u64,
)
    requires
        investment >= 0,
        earlier <= later,
        project_returns(investment, project, funded_at, earlier) is Ok,
        project_returns(investment, project, funded_at, later) is Ok,
    ensures
        project_returns(investment, project, funded_at, earlier)->Ok_0 <= project_returns(
            investment,
            project,
            funded_at,
            later,
        )->Ok_0,
{
    if let Some(at) = funded_at {
        let yearly = investment * score_rate(project);
        let a = elapsed(at, earlier);
        let b = elapsed(at, later);
        assert(0 <= yearly * a <= yearly * b) by (nonlinear_arith)
            requires
                investment >= 0,
                score_rate(project) >= 0,
                yearly == investment * score_rate(project),
                0 <= a <= b,
        ;
        lemma_div_is_ordered(yearly * a, yearly * b, SCORE_RATE_SCALE * ANNUAL_PERIOD_SECS);
    }
}

/// A sound investment is not expected to lose.
proof fn lemma_returns_not_negative(
    investment: int,
    project: ProjectData,
    funded_at: Option<u64>,
    now: u64,
)
    requires
        investment >= 0,
        project_returns(investment, project, funded_at, now) is Ok,
    ensures
        project_returns(investment, project, funded_at, now)->Ok_0 >= 0,
{
    let yearly = investment * score_rate(project);
    let since = match funded_at {
        Some(at) => elapsed(at, now),
        None => 0,
    };
    assert(yearly >= 0 && yearly * since >= 0) by (nonlinear_arith)
        requires
            investment >= 0,
            score_rate(project) >= 0,
            yearly == investment * score_rate(project),
            since >= 0,
    ;
}

impl Settings {
    /// What of a deposit leaves the vault as the management fee: nothing, where the vault is its own
    /// fee recipient.
    pub open spec fn fee_paid_out(self, amount: int) -> int {
        if self.management_fee_recipient == Some(self.vault) {
            0
        } else {
            self.fee_of(amount)
        }
    }
}

impl VaultState {
    /// Expected returns are never negative.
    pub proof fn expected_returns_are_not_negative(self, registry: RegistryView, now: u64, n: nat)
        requires
            self.expected_returns(registry, now, n) is Ok,
        ensures
            self.expected_returns(registry, now, n)->Ok_0 >= 0,
        decreases n,
    {
        if n > 0 {
            self.expected_returns_are_not_negative(registry, now, (n - 1) as nat);
            let id = n as u32;
            if self.invested_in(id) > 0 {
                lemma_returns_not_negative(
                    self.invested_in(id) as int,
                    registry.projects[id],
                    optional(self.investment_timestamps, id),
                    now,
                );
            }
        }
    }

    /// Expected returns depend on nothing but what is invested, and since when.
    pub proof fn lemma_expected_returns_frame(
        self,
        other: VaultState,
        registry: RegistryView,
        now: u64,
        n: nat,
    )
        requires
            self.project_investments == other.project_investments,
            self.investment_timestamps == other.investment_timestamps,
        ensures
            self.expected_returns(registry, now, n) == other.expected_returns(registry, now, n),
        decreases n,
    {
        if n > 0 {
            self.lemma_expected_returns_frame(other, registry, now, (n - 1) as nat);
        }
    }

    /// The value of a sound vault is never negative.
    pub proof fn value_is_not_negative(self, registry: RegistryView, now: u64)
        requires
            self.well_formed(),
            self.nav(registry, now) is Ok,
        ensures
            self.nav(registry, now)->Ok_0 >= 0,
    {
        self.expected_returns_are_not_negative(registry, now, registry.total_projects as nat);
        lemma_sum_within(self.project_investments, 0);
    }

    /// Every part of a deposit is accounted for: the premium in the insurance fund, the management
    /// fee with its recipient, the rest in the vault, and the shares with the depositor.
    pub proof fn a_deposit_is_accounted_for(
        self,
        ledger: Ledger,
        registry: RegistryView,
        from: Address,
        amount: int,
    )
        requires
            self.deposit_refusal(ledger, registry, from, amount) is None,
            from != self.settings.vault,
            self.settings.well_formed(),
        ensures
            ({
                let after = self.after_deposit(ledger, registry, from, amount);
                let shares = self.deposit_shares(registry, ledger.timestamp, amount)->Ok_0;
                &&& after.totals.insurance_fund == self.totals.insurance_fund + premium_of(amount)
                &&& after.totals.usdc_balance == self.totals.usdc_balance + amount
                    - self.settings.fee_paid_out(amount)
                &&& after.totals.total_supply == self.totals.total_supply + shares
                &&& after.shares_of(from) == self.shares_of(from) + shares
                &&& after.deposited_by(from) == self.deposited_by(from) + amount
            }),
    {
        deposit_parts_add_up(self.settings, amount);
    }

    /// A batch of one deposit does what a single deposit does.
    pub proof fn a_batch_of_one_is_a_single_deposit(
        self,
        ledger: Ledger,
        registry: RegistryView,
        from: Address,
        amount: i128,
    )
        ensures
            ({
                let refusal = self.deposit_refusal(ledger, registry, from, amount as int);
                match self.deposit_batch(ledger, registry, seq![(from, amount)]) {
                    Ok(run) => {
                        let shares = self.deposit_shares(
                            registry,
                            ledger.timestamp,
                            amount as int,
                        )->Ok_0;
                        &&& refusal is None
                        &&& run.state == self.after_deposit(
                            ledger,
                            registry,
                            from,
                            amount as int,
                        )
                        &&& run.minted == seq![shares]
                        &&& run.effects == self.settings.deposit_effects(from, amount, shares)
                    },
                    Err(e) => refusal == Some(e),
                }
            }),
    {
        let one = seq![(from, amount)];
        assert(one.drop_last() =~= seq![]);
        reveal_with_fuel(VaultState::deposit_run, 2);
        let shares = self.deposit_shares(registry, ledger.timestamp, amount as int)->Ok_0;
        let effects = self.settings.deposit_effects(from, amount, shares);
        assert(seq![] + effects =~= effects);
    }

    /// A batch mints once for each of its deposits, in order.
    pub proof fn a_batch_mints_for_each_deposit(
        self,
        ledger: Ledger,
        registry: RegistryView,
        deposits: Seq<(Address, i128)>,
    )
        requires
            self.deposit_run(ledger, registry, deposits) is Ok,
        ensures
            self.deposit_run(ledger, registry, deposits)->Ok_0.minted.len() == deposits.len(),
        decreases deposits.len(),
    {
        if deposits.len() > 0 {
            self.a_batch_mints_for_each_deposit(ledger, registry, deposits.drop_last());
        }
    }

    /// A deposit raises the value of the vault by what stays in it, and never dilutes the shares of
    /// others: the value per share does not fall.
    pub proof fn a_deposit_does_not_dilute(
        self,
        ledger: Ledger,
        registry: RegistryView,
        from: Address,
        amount: int,
    )
        requires
            self.well_formed(),
            self.deposit_refusal(ledger, registry, from, amount) is None,
            from != self.settings.vault,
        ensures
            ({
                let now = ledger.timestamp;
                let after = self.after_deposit(ledger, registry, from, amount);
                let nav = self.nav(registry, now)->Ok_0;
                &&& after.nav(registry, now) is Ok
                &&& after.nav(registry, now)->Ok_0 == nav + amount - self.settings.fee_paid_out(
                    amount,
                )
                &&& nav * after.totals.total_supply <= after.nav(registry, now)->Ok_0
                    * self.totals.total_supply || self.totals.total_supply == 0
            }),
    {
        let now = ledger.timestamp;
        let n = registry.total_projects as nat;
        let after = self.after_deposit(ledger, registry, from, amount);
        let nav = self.nav(registry, now)->Ok_0 as int;
        let fee = self.settings.fee_paid_out(amount);
        let investable = self.settings.investable_of(amount);
        let shares = self.deposit_shares(registry, now, amount)->Ok_0 as int;
        let supply = self.totals.total_supply as int;
        self.lemma_expected_returns_frame(after, registry, now, n);
        self.expected_returns_are_not_negative(registry, now, n);
        self.value_is_not_negative(registry, now);
        lemma_sum_within(self.project_investments, 0);
        lemma_sum_within(self.share_balances, 0);
        deposit_parts_add_up(self.settings, amount);
        if supply > 0 {
            if nav > 0 {
                assert(0 <= investable * supply) by (nonlinear_arith)
                    requires
                        investable >= 0,
                        supply > 0,
                ;
                lemma_quotient_below(investable * supply, nav);
                assert(nav * (supply + shares) <= (nav + amount - fee) * supply)
                    by (nonlinear_arith)
                    requires
                        shares * nav <= investable * supply,
                        investable <= amount - fee,
                        supply > 0,
                ;
            } else {
                assert(nav * (supply + shares) <= (nav + amount - fee) * supply)
                    by (nonlinear_arith)
                    requires
                        nav == 0,
                        investable <= amount - fee,
                        investable >= 0,
                        supply > 0,
                ;
            }
        }
    }

    /// A withdrawal that is paid lowers the value of the vault by what is paid, and never dilutes
    /// the shares of others: the value per share does not fall.
    pub proof fn a_withdrawal_does_not_dilute(
        self,
        ledger: Ledger,
        registry: RegistryView,
        from: Address,
        shares: int,
        min_usdc_return: int,
    )
        requires
            self.well_formed(),
            self.withdraw_refusal(ledger, registry, from, shares, min_usdc_return) is None,
            !self.queues(self.withdraw_owed(ledger, registry, shares) as int),
            from != self.settings.vault,
        ensures
            ({
                let now = ledger.timestamp;
                let after = self.after_withdraw(ledger, registry, from, shares);
                let nav = self.nav(registry, now)->Ok_0;
                let owed = self.withdraw_owed(ledger, registry, shares);
                &&& after.nav(registry, now) is Ok
                &&& after.nav(registry, now)->Ok_0 == nav - owed
                &&& nav * after.totals.total_supply <= after.nav(registry, now)->Ok_0
                    * self.totals.total_supply
            }),
    {
        let now = ledger.timestamp;
        let n = registry.total_projects as nat;
        let after = self.after_withdraw(ledger, registry, from, shares);
        let nav = self.nav(registry, now)->Ok_0 as int;
        let owed = self.withdraw_owed(ledger, registry, shares) as int;
        let supply = self.totals.total_supply as int;
        self.lemma_expected_returns_frame(after, registry, now, n);
        self.expected_returns_are_not_negative(registry, now, n);
        self.value_is_not_negative(registry, now);
        self.lemma_balance_within_supply(from);
        lemma_sum_within(self.project_investments, 0);
        if nav > 0 {
            assert(0 <= shares * nav) by (nonlinear_arith)
                requires
                    shares >= 0,
                    nav > 0,
            ;
            lemma_quotient_below(shares * nav, supply);
            assert(nav * (supply - shares) <= (nav - owed) * supply) by (nonlinear_arith)
                requires
                    owed * supply <= shares * nav,
            ;
        } else {
            assert(nav * (supply - shares) <= (nav - owed) * supply) by (nonlinear_arith)
                requires
                    nav == 0,
                    owed == 0,
            ;
        }
    }

    /// The utilization of a sound vault is a fraction of one whole, and 0 where nothing is
    /// invested.
    pub proof fn utilization_is_a_fraction(self)
        requires
            self.well_formed(),
            self.utilization() is Ok,
        ensures
            self.utilization()->Ok_0 <= BPS_SCALE,
            self.totals.total_investments == 0 ==> self.utilization()->Ok_0 == 0,
    {
        lemma_sum_within(self.project_investments, 0);
        let invested = self.totals.total_investments as int;
        let capital = self.totals.usdc_balance + invested;
        if capital > 0 {
            assert(0 <= invested * 10_000 / capital <= 10_000) by (nonlinear_arith)
                requires
                    0 <= invested <= capital,
                    capital > 0,
            ;
            assert(invested == 0 ==> invested * 10_000 / capital == 0) by (nonlinear_arith)
                requires
                    capital > 0,
            ;
        }
    }
}

} // verus!
