//! Carbon credits are earned by green investments, and move without loss.

use crate::carbon::carbon_credits;
use crate::state::{RegistryView, Settings, VaultState};
use crate::tables::{lemma_sum_insert, table_sum};
use crate::types::Address;
use vstd::prelude::*;

verus! {

/// The price of a credit has no influence on how many credits are earned.
pub proof fn the_price_earns_no_credits(
    s: Settings,
    registry: RegistryView,
    project_id: u32,
    invested: int,
    price: i128,
)
    ensures
        carbon_credits(
            Settings { carbon_credit_price: price, ..s },
            registry,
            project_id,
            invested,
        ) == carbon_credits(s, registry, project_id, invested),
{
}

/// Credits are never negative, and a project without green impact earns none.
pub proof fn credits_are_not_negative(
    s: Settings,
    registry: RegistryView,
    project_id: u32,
    invested: int,
)
    requires
        carbon_credits(s, registry, project_id, invested) is Ok,
    ensures
        carbon_credits(s, registry, project_id, invested)->Ok_0 >= 0,
        registry.projects[project_id].green_impact == 0 ==> carbon_credits(
            s,
            registry,
            project_id,
            invested,
        )->Ok_0 == 0,
{
    let impact = registry.projects[project_id].green_impact as int;
    assert(invested * impact >= 0) by (nonlinear_arith)
        requires
            invested > 0,
            impact >= 0,
    ;
    assert(impact == 0 ==> invested * impact == 0) by (nonlinear_arith);
}

impl VaultState {
    /// Credits that are issued are added to the balance of their receiver, and to the sum of all.
    pub proof fn issued_credits_are_added(
        self,
        registry: RegistryView,
        to: Address,
        project_id: u32,
        invested: int,
    )
        requires
            self.well_formed(),
            self.issue_refusal(registry, to, project_id, invested) is None,
        ensures
            ({
                let credits = carbon_credits(
                    self.settings,
                    registry,
                    project_id,
                    invested,
                )->Ok_0;
                let after = self.issued(to, credits as int);
                &&& credits > 0
                &&& after.credits_of(to) == self.credits_of(to) + credits
                &&& table_sum(after.carbon_credits) == table_sum(self.carbon_credits) + credits
            }),
    {
        let credits = carbon_credits(self.settings, registry, project_id, invested)->Ok_0;
        lemma_sum_insert(self.carbon_credits, to.id, (self.credits_of(to) + credits) as i128);
    }

    /// A transfer moves credits from one account to the other and changes no third one. None are
    /// made or lost: the sum of all stays, and credits that are sent to oneself change nothing.
    pub proof fn credit_transfers_conserve_credits(
        self,
        from: Address,
        to: Address,
        credits: int,
        third: Address,
    )
        requires
            self.carbon_credits.dom().finite(),
            self.credit_transfer_refusal(from, to, credits) is None,
            third != from,
            third != to,
        ensures
            ({
                let after = self.after_credit_transfer(from, to, credits);
                &&& from != to ==> after.credits_of(from) == self.credits_of(from) - credits
                &&& from != to ==> after.credits_of(to) == self.credits_of(to) + credits
                &&& from == to ==> after.credits_of(to) == self.credits_of(to)
                &&& after.credits_of(third) == self.credits_of(third)
                &&& table_sum(after.carbon_credits) == table_sum(self.carbon_credits)
            }),
    {
        let left = (self.credits_of(from) - credits) as i128;
        lemma_sum_insert(self.carbon_credits, from.id, left);
        lemma_sum_insert(
            self.carbon_credits.insert(from.id, left),
            to.id,
            (self.receiving_credits(from, to, credits) + credits) as i128,
        );
    }
}

} // verus!
