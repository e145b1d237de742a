//! Who pays whom: the effects of a call move what its result says, and the books follow them.

use crate::bridge::{bridge_burn_effects, completion_effects, published_effects};
use crate::carbon::{credit_effects, credit_transfer_effects};
use crate::flash_loans::{lending_effects, settlement_effects};
use crate::flows::{
    balanced, group_flows, lemma_balanced_add, reported, shares_flow, supply_flow,
    usdc_flow, usdc_paid,
};
use crate::funding::fund_effects;
use crate::insurance::insurance_effects;
use crate::state::{RegistryView, VaultState};
use crate::types::{
    Address, BridgeTransferPayload, Effect, Event, FlashLoan, Ledger, MuxedAddress, QueuedClaim,
    VaaOrigin,
};
use crate::withdrawals::{
    claim_at, claim_effects, claims_outflow, claims_total, lemma_settled_prefix,
};
use crate::yields::{yield_claim_effects, yield_effects};
use vstd::prelude::*;

verus! {

impl VaultState {
    /// A deposit takes the whole amount from the depositor, hands the management fee to its
    /// recipient and keeps the rest; nobody else pays or is paid. The depositor gets the shares
    /// that the call returns, and the report says so.
    pub proof fn a_deposit_moves_what_it_books(
        self,
        ledger: Ledger,
        registry: RegistryView,
        from: Address,
        amount: i128,
        other: Address,
    )
        requires
            self.deposit_refusal(ledger, registry, from, amount as int) is None,
        ensures
            ({
                let after = self.after_deposit(ledger, registry, from, amount as int);
                let shares = self.deposit_shares(registry, ledger.timestamp, amount as int)->Ok_0;
                let effects = self.settings.deposit_effects(from, amount, shares);
                let vault = self.settings.vault;
                let recipient = self.settings.management_fee_recipient;
                let fee = self.settings.fee_of(amount as int);
                &&& balanced(self, after, effects)
                &&& from != vault && recipient != Some(from) ==> usdc_flow(from, effects)
                    == -amount
                &&& from != vault && recipient != Some(vault) && fee >= 0 ==> usdc_flow(
                    vault,
                    effects,
                ) == amount - fee
                &&& fee > 0 ==> recipient is Some
                &&& fee > 0 && recipient != Some(from) && recipient != Some(vault) ==> usdc_flow(
                    recipient->Some_0,
                    effects,
                ) == fee
                &&& other != from && other != vault && recipient != Some(other) ==> usdc_flow(
                    other,
                    effects,
                ) == 0
                &&& shares_flow(from, effects) == shares
                &&& other != from ==> shares_flow(other, effects) == 0
                &&& supply_flow(effects) == shares
                &&& reported(effects) == seq![Event::Deposit { from, usdc_amount: amount, shares }]
                &&& effects[0] == Effect::RequireAuth(from)
                &&& effects.contains(
                    Effect::ExtendDepositRecord {
                        account: from,
                        threshold: 518_400,
                        extend_to: 6_312_000,
                    },
                )
                &&& from != vault ==> usdc_paid(from, effects) == amount
            }),
    {
        broadcast use group_flows;

        let after = self.after_deposit(ledger, registry, from, amount as int);
        let shares = self.deposit_shares(registry, ledger.timestamp, amount as int)->Ok_0;
        let effects = self.settings.deposit_effects(from, amount, shares);
        let vault = self.settings.vault;
        let fee = self.settings.fee_of(amount as int);
        let recipient = self.settings.management_fee_recipient->Some_0;
        let start = seq![
            Effect::RequireAuth(from),
            Effect::TransferUsdc { from, to: vault, amount },
        ];
        let middle = if fee > 0 {
            start.push(
                Effect::TransferUsdc { from: vault, to: recipient, amount: fee as i128 },
            )
        } else {
            start
        };
        let whole = middle.push(effects[effects.len() - 3]).push(effects[effects.len() - 2]).push(
            effects[effects.len() - 1],
        );
        assert(effects =~= whole);
        assert(effects[effects.len() - 3] == Effect::ExtendDepositRecord {
            account: from,
            threshold: 518_400,
            extend_to: 6_312_000,
        });
        assert(reported(effects) =~= seq![
            Event::Deposit { from, usdc_amount: amount, shares },
        ]);
    }

    /// A withdrawal that is paid hands the withdrawer the USDC that the call returns, takes it out
    /// of the vault, and pays nobody else. The shares that are redeemed, and no others, are
    /// destroyed.
    pub proof fn a_paid_withdrawal_moves_what_it_books(
        self,
        ledger: Ledger,
        registry: RegistryView,
        from: Address,
        shares: i128,
        min_usdc_return: int,
        other: Address,
    )
        requires
            self.withdraw_refusal(ledger, registry, from, shares as int, min_usdc_return) is None,
            !self.queues(self.withdraw_owed(ledger, registry, shares as int) as int),
        ensures
            ({
                let owed = self.withdraw_owed(ledger, registry, shares as int);
                let after = self.after_withdraw(ledger, registry, from, shares as int);
                let effects = self.withdraw_effects(from, shares, owed);
                let vault = self.settings.vault;
                &&& balanced(self, after, effects)
                &&& from != vault ==> {
                    &&& usdc_flow(from, effects) == owed
                    &&& usdc_flow(vault, effects) == -owed
                    &&& after.totals.usdc_balance == self.totals.usdc_balance - owed
                }
                &&& other != from && other != self.settings.vault ==> usdc_flow(other, effects) == 0
                &&& shares_flow(from, effects) == -shares
                &&& other != from ==> shares_flow(other, effects) == 0
                &&& supply_flow(effects) == -shares
                &&& usdc_paid(vault, effects) == owed
                &&& reported(effects).last() == Event::Withdraw {
                    from,
                    shares,
                    usdc_returned: owed,
                }
                &&& after.queue == self.queue
                &&& after.totals.queue_tail == self.totals.queue_tail
            }),
    {
        broadcast use group_flows;

        let owed = self.withdraw_owed(ledger, registry, shares as int);
        let effects = self.withdraw_effects(from, shares, owed);
        self.lemma_withdraw_effects(from, shares, owed);
    }

    /// A withdrawal that is queued moves no USDC at all; the shares are destroyed, and the claim
    /// for their whole value is reported.
    pub proof fn a_queued_withdrawal_moves_no_usdc(
        self,
        ledger: Ledger,
        registry: RegistryView,
        from: Address,
        shares: i128,
        min_usdc_return: int,
        other: Address,
    )
        requires
            self.withdraw_refusal(ledger, registry, from, shares as int, min_usdc_return) is None,
            self.queues(self.withdraw_owed(ledger, registry, shares as int) as int),
        ensures
            ({
                let owed = self.withdraw_owed(ledger, registry, shares as int);
                let after = self.after_withdraw(ledger, registry, from, shares as int);
                let effects = self.withdraw_effects(from, shares, owed);
                &&& balanced(self, after, effects)
                &&& usdc_paid(self.settings.vault, effects) == 0
                &&& usdc_flow(from, effects) == 0
                &&& other != from ==> usdc_flow(other, effects) == 0
                &&& shares_flow(from, effects) == -shares
                &&& other != from ==> shares_flow(other, effects) == 0
                &&& reported(effects).last() == Event::WithdrawQueued {
                    from,
                    shares,
                    usdc_owed: owed,
                }
                &&& after.queue[self.totals.queue_tail].usdc_owed == owed
                &&& after.queue[self.totals.queue_tail].from == from
            }),
    {
        broadcast use group_flows;

        let owed = self.withdraw_owed(ledger, registry, shares as int);
        self.lemma_withdraw_effects(from, shares, owed);
    }

    proof fn lemma_withdraw_effects(self, from: Address, shares: i128, owed: i128)
        ensures
            ({
                let start = if self.utilization()->Ok_0 >= 7_000 {
                    seq![
                        Effect::Emit(
                            Event::UtilizationWarning {
                                utilization_bps: self.utilization()->Ok_0,
                            },
                        ),
                    ]
                } else {
                    seq![]
                };
                let burned = start.push(Effect::BurnShares { from, amount: shares });
                self.withdraw_effects(from, shares, owed) == if self.queues(owed as int) {
                    burned.push(
                        Effect::Emit(Event::WithdrawQueued { from, shares, usdc_owed: owed }),
                    )
                } else {
                    burned.push(
                        Effect::TransferUsdc { from: self.settings.vault, to: from, amount: owed },
                    ).push(Effect::Emit(Event::Withdraw { from, shares, usdc_returned: owed }))
                }
            }),
    {
        let start = if self.utilization()->Ok_0 >= 7_000 {
            seq![
                Effect::Emit(
                    Event::UtilizationWarning { utilization_bps: self.utilization()->Ok_0 },
                ),
            ]
        } else {
            seq![]
        };
        let burned = start.push(Effect::BurnShares { from, amount: shares });
        let effects = self.withdraw_effects(from, shares, owed);
        if self.queues(owed as int) {
            assert(effects =~= burned.push(
                Effect::Emit(Event::WithdrawQueued { from, shares, usdc_owed: owed }),
            ));
        } else {
            assert(effects =~= burned.push(
                Effect::TransferUsdc { from: self.settings.vault, to: from, amount: owed },
            ).push(Effect::Emit(Event::Withdraw { from, shares, usdc_returned: owed })));
        }
    }

    /// From a utilization of 70% on, a withdrawal comes with a warning; below it does not.
    pub proof fn a_high_utilization_is_warned_of(self, from: Address, shares: i128, owed: i128)
        requires
            self.utilization() is Ok,
        ensures
            reported(self.withdraw_effects(from, shares, owed)).len() == if self.utilization()->Ok_0
                >= 7_000 {
                2int
            } else {
                1int
            },
            self.utilization()->Ok_0 >= 7_000 ==> reported(
                self.withdraw_effects(from, shares, owed),
            )[0] == (Event::UtilizationWarning { utilization_bps: self.utilization()->Ok_0 }),
    {
        broadcast use group_flows;

        self.lemma_withdraw_effects(from, shares, owed);
    }

    /// Settling the queue pays each settled claim to its claimant, in full and in the order of the
    /// queue, and reports it under its index. The vault pays the sum, and the call returns it.
    pub proof fn settled_claims_are_paid_to_their_claimants(self)
        requires
            self.well_formed(),
            self.claim_refusal() is None,
        ensures
            ({
                let n = self.claimable()->Ok_0;
                let head = self.totals.queue_head;
                let vault = self.settings.vault;
                let effects = claim_effects(self.queue, vault, head as int, n);
                &&& balanced(self, self.claimed(n), effects)
                &&& usdc_paid(vault, effects) == self.claim_total(n)
                &&& effects.len() == 2 * n
                &&& forall|i: int|
                    0 <= i < n ==> #[trigger] effects[2 * i] == (Effect::TransferUsdc {
                        from: vault,
                        to: self.queue[(head + i) as u64].from,
                        amount: self.queue[(head + i) as u64].usdc_owed,
                    })
                &&& forall|i: int|
                    0 <= i < n ==> #[trigger] effects[2 * i + 1] == Effect::Emit(
                        Event::WithdrawClaimed {
                            from: self.queue[(head + i) as u64].from,
                            usdc_paid: self.queue[(head + i) as u64].usdc_owed,
                            index: (head + i) as u64,
                        },
                    )
                &&& self.claimed(n).totals.queue_head == head + n
                &&& self.claimed(n).totals.queue_tail == self.totals.queue_tail
            }),
    {
        let n = self.claimable()->Ok_0;
        let head = self.totals.queue_head as int;
        let vault = self.settings.vault;
        lemma_settled_prefix(
            self.queue,
            vault,
            head,
            self.totals.queue_tail as int,
            self.totals.usdc_balance as int,
        );
        lemma_claim_effects(self.queue, vault, head, n);
        self.lemma_claim_balanced(n);
    }

    pub(crate) proof fn lemma_claim_balanced(self, n: nat)
        requires
            self.totals.queue_head + n <= u64::MAX,
            i128::MIN <= self.totals.usdc_balance - claims_outflow(
                self.queue,
                self.settings.vault,
                self.totals.queue_head as int,
                n,
            ) <= i128::MAX,
        ensures
            balanced(
                self,
                self.claimed(n),
                claim_effects(
                    self.queue,
                    self.settings.vault,
                    self.totals.queue_head as int,
                    n,
                ),
            ),
            usdc_paid(
                self.settings.vault,
                claim_effects(
                    self.queue,
                    self.settings.vault,
                    self.totals.queue_head as int,
                    n,
                ),
            ) == self.claim_total(n),
    {
        let head = self.totals.queue_head as int;
        let vault = self.settings.vault;
        let effects = claim_effects(self.queue, vault, head, n);
        lemma_claim_effects(self.queue, vault, head, n);
        assert forall|account: Address| #[trigger]
            self.claimed(n).shares_of(account) == self.shares_of(account) + shares_flow(
                account,
                effects,
            ) by {
            lemma_claim_moves_no_shares(self.queue, vault, head, n, account);
        }
        lemma_claim_moves_no_shares(self.queue, vault, head, n, vault);
    }

    /// The sum that settling the queue returns is what its claims are owed, one by one.
    pub proof fn a_settlement_comes_to_its_claims(self, n: nat)
        ensures
            self.claim_total(0) == 0,
            self.claim_total(n + 1) == self.claim_total(n) + self.queue[(self.totals.queue_head
                + n) as u64].usdc_owed,
    {
    }

    /// A yield is taken from its payer and stays in the vault; nobody gets shares for it.
    pub proof fn a_yield_moves_what_it_books(
        self,
        from: Address,
        paid: i128,
        other: Address,
    )
        requires
            self.yield_refusal(from, paid as int) is None,
        ensures
            ({
                let effects = yield_effects(self.settings.vault, from, paid);
                &&& balanced(self, self.after_yield(from, paid as int), effects)
                &&& from != self.settings.vault ==> {
                    &&& usdc_flow(from, effects) == -paid
                    &&& usdc_flow(self.settings.vault, effects) == paid
                }
                &&& other != from && other != self.settings.vault ==> usdc_flow(other, effects) == 0
                &&& supply_flow(effects) == 0
                &&& reported(effects) == seq![Event::YieldReceived { from, amount: paid }]
            }),
    {
        broadcast use group_flows;

        assert(reported(yield_effects(self.settings.vault, from, paid)) =~= seq![
            Event::YieldReceived { from, amount: paid },
        ]);
    }

    /// A claim of yield pays the claimant exactly what was claimable, out of the vault, and nothing
    /// where nothing was.
    pub proof fn a_yield_claim_moves_what_it_books(self, from: Address, other: Address)
        requires
            self.yield_claim_refusal(from) is None,
        ensures
            ({
                let due = self.yield_of(from)->Ok_0;
                let effects = yield_claim_effects(self.settings.vault, from, due);
                &&& balanced(self, self.after_yield_claim(from), effects)
                &&& usdc_paid(self.settings.vault, effects) == if due > 0 {
                    due as int
                } else {
                    0
                }
                &&& from != self.settings.vault ==> usdc_flow(from, effects) == if due > 0 {
                    due as int
                } else {
                    0
                }
                &&& other != from && other != self.settings.vault ==> usdc_flow(other, effects) == 0
                &&& supply_flow(effects) == 0
                &&& reported(effects) == if due > 0 {
                    seq![Event::YieldClaimed { from, amount: due }]
                } else {
                    Seq::empty()
                }
                &&& effects.contains(Effect::RequireAuth(from))
            }),
    {
        broadcast use group_flows;

        let due = self.yield_of(from)->Ok_0;
        let effects = yield_claim_effects(self.settings.vault, from, due);
        assert(effects[0] == Effect::RequireAuth(from));
        assert(reported(effects) =~= if due > 0 {
            seq![Event::YieldClaimed { from, amount: due }]
        } else {
            Seq::empty()
        });
    }

    /// Funding pays the registered owner of the project the whole amount, out of the vault, and
    /// nobody else.
    pub proof fn a_funding_moves_what_it_books(
        self,
        now: u64,
        registry: RegistryView,
        project_id: u32,
        paid: i128,
        other: Address,
    )
        requires
            self.fund_refusal(registry, project_id, paid as int) is None,
        ensures
            ({
                let owner = registry.projects[project_id].owner;
                let vault = self.settings.vault;
                let after = self.after_funding(now, registry, project_id, paid as int);
                let effects = fund_effects(vault, registry, project_id, paid);
                &&& balanced(self, after, effects)
                &&& owner != vault ==> {
                    &&& usdc_flow(owner, effects) == paid
                    &&& usdc_flow(vault, effects) == -paid
                }
                &&& other != owner && other != vault ==> usdc_flow(
                    other,
                    effects,
                ) == 0
                &&& supply_flow(effects) == 0
                &&& reported(effects) == seq![
                    Event::ProjectFunded { project_id, amount: paid, owner },
                ]
            }),
    {
        broadcast use group_flows;

        let owner = registry.projects[project_id].owner;
        assert(reported(fund_effects(self.settings.vault, registry, project_id, paid)) =~= seq![
            Event::ProjectFunded { project_id, amount: paid, owner },
        ]);
    }

    /// An insurance claim pays its recipient the whole amount, out of the vault, and nobody else.
    pub proof fn an_insurance_claim_moves_what_it_books(
        self,
        project_id: u32,
        recipient: Address,
        paid: i128,
        other: Address,
    )
        requires
            self.insurance_refusal(project_id, recipient, paid as int) is None,
        ensures
            ({
                let vault = self.settings.vault;
                let after = self.after_insurance(project_id, recipient, paid as int);
                let effects = insurance_effects(vault, project_id, recipient, paid);
                &&& balanced(self, after, effects)
                &&& recipient != vault ==> {
                    &&& usdc_flow(recipient, effects) == paid
                    &&& usdc_flow(vault, effects) == -paid
                }
                &&& other != recipient && other != vault ==> usdc_flow(other, effects) == 0
                &&& supply_flow(effects) == 0
                &&& reported(effects) == seq![
                    Event::InsuranceClaimed { project_id, recipient, amount: paid },
                ]
            }),
    {
        broadcast use group_flows;

        assert(reported(
            insurance_effects(self.settings.vault, project_id, recipient, paid),
        ) =~= seq![Event::InsuranceClaimed { project_id, recipient, amount: paid }]);
    }

    /// A flash loan hands the borrower its amount, and nobody else anything.
    pub proof fn a_flash_loan_moves_what_it_books(
        self,
        loan: FlashLoan,
        data: Vec<u8>,
        other: Address,
    )
        requires
            self.flash_refusal(loan.borrower, loan.amount as int) is None,
        ensures
            ({
                let vault = self.settings.vault;
                let effects = lending_effects(vault, loan, data);
                &&& balanced(self, self.lending(loan), effects)
                &&& loan.borrower != vault ==> usdc_flow(loan.borrower, effects) == loan.amount
                &&& other != loan.borrower && other != self.settings.vault ==> usdc_flow(
                    other,
                    effects,
                ) == 0
                &&& supply_flow(effects) == 0
                &&& reported(effects).len() == 0
                &&& effects.contains(Effect::RequireAuth(loan.initiator))
                &&& effects.last() == (Effect::FlashLoanCallback { loan, vault, data })
            }),
    {
        broadcast use group_flows;

        let effects = lending_effects(self.settings.vault, loan, data);
        assert(effects[0] == Effect::RequireAuth(loan.initiator));
    }

    /// Settling a flash loan takes the amount and the fee back from the borrower.
    pub proof fn a_flash_settlement_moves_what_it_books(self, loan: FlashLoan, other: Address)
        requires
            self.settle_refusal(loan, true) is None,
        ensures
            ({
                let vault = self.settings.vault;
                let effects = settlement_effects(vault, loan);
                &&& balanced(self, self.settled(loan), effects)
                &&& loan.borrower != vault ==> usdc_flow(loan.borrower, effects) == -(loan.amount
                    + loan.fee)
                &&& other != loan.borrower && other != self.settings.vault ==> usdc_flow(
                    other,
                    effects,
                ) == 0
                &&& supply_flow(effects) == 0
                &&& reported(effects) == seq![
                    Event::FlashLoan {
                        initiator: loan.initiator,
                        borrower: loan.borrower,
                        amount: loan.amount,
                        fee: loan.fee,
                    },
                ]
            }),
    {
        broadcast use group_flows;

        assert(reported(settlement_effects(self.settings.vault, loan)) =~= seq![
            Event::FlashLoan {
                initiator: loan.initiator,
                borrower: loan.borrower,
                amount: loan.amount,
                fee: loan.fee,
            },
        ]);
    }

    /// Shares that come in from another chain go to their receiver, and no USDC moves.
    pub proof fn inbound_shares_move_what_they_book(
        self,
        ledger: Ledger,
        digest: Seq<u8>,
        origin: VaaOrigin,
        transfer: BridgeTransferPayload,
        to: Address,
        other: Address,
    )
        requires
            self.inbound_refusal(to, transfer.amount as int) is None,
        ensures
            ({
                let amount = transfer.amount;
                let minted = self.settings.bridge_mint_effects(to, amount);
                let completed = completion_effects(origin, transfer, to);
                &&& balanced(self, self.after_inbound(ledger, to, amount as int), minted)
                &&& balanced(
                    self,
                    self.after_completion(ledger, digest, transfer, to),
                    completed,
                )
                &&& shares_flow(to, minted) == amount
                &&& shares_flow(to, completed) == amount
                &&& other != to ==> shares_flow(other, minted) == 0
                &&& other != to ==> shares_flow(other, completed) == 0
                &&& usdc_flow(to, minted) == 0
                &&& usdc_flow(to, completed) == 0
                &&& reported(minted) == seq![Event::BridgeMint { to, amount }]
                &&& reported(completed) == seq![
                    Event::BridgeTransferCompleted {
                        emitter_chain: origin.emitter_chain,
                        emitter_address: origin.emitter_address,
                        to,
                        amount,
                    },
                ]
                &&& self.settings.bridge matches Some(bridge) ==> minted.contains(
                    Effect::RequireAuth(bridge),
                )
            }),
    {
        broadcast use group_flows;

        let minted = self.settings.bridge_mint_effects(to, transfer.amount);
        assert(minted[0] == Effect::RequireAuth(self.settings.bridge->Some_0));
        assert(reported(minted) =~= seq![Event::BridgeMint { to, amount: transfer.amount }]);
        assert(reported(completion_effects(origin, transfer, to)) =~= seq![
            Event::BridgeTransferCompleted {
                emitter_chain: origin.emitter_chain,
                emitter_address: origin.emitter_address,
                to,
                amount: transfer.amount,
            },
        ]);
    }

    /// Shares that leave for another chain are taken from their holder, and no USDC moves. The
    /// message carries what was taken.
    pub proof fn outbound_shares_move_what_they_book(
        self,
        from: Address,
        payload: BridgeTransferPayload,
        other: Address,
    )
        requires
            self.burn_refusal(from, payload.amount as int) is None,
        ensures
            ({
                let amount = payload.amount;
                let after = self.burned(from, amount as int);
                let burned = bridge_burn_effects(from, amount);
                let sent = self.settings.outbound_effects(from, payload);
                &&& balanced(self, after, burned)
                &&& balanced(self, after, sent)
                &&& shares_flow(from, burned) == -amount
                &&& shares_flow(from, sent) == -amount
                &&& other != from ==> shares_flow(other, burned) == 0
                &&& other != from ==> shares_flow(other, sent) == 0
                &&& usdc_flow(from, burned) == 0
                &&& usdc_flow(from, sent) == 0
                &&& reported(burned) == seq![Event::BridgeBurn { from, amount }]
                &&& burned.contains(Effect::RequireAuth(from))
                &&& sent.contains(Effect::RequireAuth(from))
                &&& self.settings.wormhole_core matches Some(core) ==> sent.last() == (
                Effect::PublishMessage { core, consistency_level: 0, payload })
            }),
    {
        broadcast use group_flows;

        let burned = bridge_burn_effects(from, payload.amount);
        let sent = self.settings.outbound_effects(from, payload);
        assert(burned[0] == Effect::RequireAuth(from));
        assert(sent[0] == Effect::RequireAuth(from));
        assert(reported(burned) =~= seq![Event::BridgeBurn { from, amount: payload.amount }]);
    }

    /// Transfers and burns of shares, by their holder or out of an allowance, move what they book.
    pub proof fn single_share_effects_balance(
        self,
        ledger: Ledger,
        spender: Address,
        from: Address,
        to: MuxedAddress,
        amount: i128,
    )
        ensures
            self.move_refusal(from, to.address, amount as int) is None ==> {
                &&& balanced(
                    self,
                    self.after_transfer(ledger, from, to.address, amount as int),
                    seq![Effect::TransferShares { from, to, amount }],
                )
                &&& balanced(
                    self,
                    self.moved(from, to.address, amount as int),
                    seq![
                        Effect::TransferSharesFrom { spender, from, to: to.address, amount },
                    ],
                )
            },
            self.burn_refusal(from, amount as int) is None ==> {
                &&& balanced(
                    self,
                    self.burned(from, amount as int),
                    seq![Effect::BurnShares { from, amount }],
                )
                &&& balanced(
                    self,
                    self.burned(from, amount as int),
                    seq![Effect::BurnSharesFrom { spender, from, amount }],
                )
            },
    {
        broadcast use group_flows;

    }

    /// A batch of deposits moves what its deposits move.
    pub proof fn a_batch_of_deposits_moves_what_it_books(
        self,
        ledger: Ledger,
        registry: RegistryView,
        deposits: Seq<(Address, i128)>,
    )
        requires
            self.deposit_run(ledger, registry, deposits) is Ok,
        ensures
            ({
                let run = self.deposit_run(ledger, registry, deposits)->Ok_0;
                &&& balanced(self, run.state, run.effects)
                &&& run.state.settings == self.settings
            }),
        decreases deposits.len(),
    {
        broadcast use group_flows;

        if deposits.len() > 0 {
            self.a_batch_of_deposits_moves_what_it_books(ledger, registry, deposits.drop_last());
            let before = self.deposit_run(ledger, registry, deposits.drop_last())->Ok_0;
            let (from, amount) = deposits.last();
            let shares = before.state.deposit_shares(
                registry,
                ledger.timestamp,
                amount as int,
            )->Ok_0;
            before.state.a_deposit_moves_what_it_books(ledger, registry, from, amount, from);
            lemma_balanced_add(
                self,
                before.state,
                before.state.after_deposit(ledger, registry, from, amount as int),
                before.effects,
                before.state.settings.deposit_effects(from, amount, shares),
            );
        }
    }

    /// A batch of fundings moves what its fundings move.
    pub proof fn a_batch_of_fundings_moves_what_it_books(
        self,
        now: u64,
        registry: RegistryView,
        fundings: Seq<(u32, i128)>,
    )
        requires
            self.fund_run(now, registry, fundings) is Ok,
        ensures
            ({
                let run = self.fund_run(now, registry, fundings)->Ok_0;
                &&& balanced(self, run.state, run.effects)
                &&& run.state.settings == self.settings
            }),
        decreases fundings.len(),
    {
        broadcast use group_flows;

        if fundings.len() > 0 {
            self.a_batch_of_fundings_moves_what_it_books(now, registry, fundings.drop_last());
            let before = self.fund_run(now, registry, fundings.drop_last())->Ok_0;
            let (project_id, paid) = fundings.last();
            lemma_balanced_add(
                self,
                before.state,
                before.state.after_funding(now, registry, project_id, paid as int),
                before.effects,
                fund_effects(before.state.settings.vault, registry, project_id, paid),
            );
        }
    }
}

/// Credits that are calculated, issued or transferred, and outbound transfers that are published,
/// are reported as what they are. None of it moves USDC or shares.
pub proof fn reports_tell_what_was_done(
    from: Address,
    to: Address,
    project_id: u32,
    amount: i128,
    credits: i128,
    payload: BridgeTransferPayload,
    sequence: u64,
    account: Address,
)
    ensures
        reported(credit_effects(project_id, amount, credits)) == seq![
            Event::CarbonCreditsCalculated { project_id, amount, credits },
        ],
        reported(credit_transfer_effects(from, to, amount)) == seq![
            Event::CarbonCreditsTransferred { from, to, amount },
        ],
        credit_transfer_effects(from, to, amount).contains(Effect::RequireAuth(from)),
        reported(published_effects(from, payload, sequence)) == seq![
            Event::BridgeTransferInitiated {
                from,
                amount: payload.amount,
                target_chain: payload.target_chain,
                recipient: payload.recipient,
                sequence,
            },
        ],
        usdc_flow(account, credit_transfer_effects(from, to, amount)) == 0,
        shares_flow(account, credit_transfer_effects(from, to, amount)) == 0,
        shares_flow(account, published_effects(from, payload, sequence)) == 0,
{
    broadcast use group_flows;

    assert(credit_transfer_effects(from, to, amount)[0] == Effect::RequireAuth(from));
    assert(reported(credit_transfer_effects(from, to, amount)) =~= seq![
        Event::CarbonCreditsTransferred { from, to, amount },
    ]);
}

proof fn lemma_claim_effects(
    queue: Map<u64, QueuedClaim>,
    vault: Address,
    head: int,
    n: nat,
)
    requires
        0 <= head,
        head + n <= u64::MAX + 1,
    ensures
        ({
            let effects = claim_effects(queue, vault, head, n);
            &&& effects.len() == 2 * n
            &&& usdc_flow(vault, effects) == -claims_outflow(queue, vault, head, n)
            &&& usdc_paid(vault, effects) == claims_total(queue, head, n)
            &&& forall|i: int|
                0 <= i < n ==> #[trigger] effects[2 * i] == (Effect::TransferUsdc {
                    from: vault,
                    to: queue[(head + i) as u64].from,
                    amount: queue[(head + i) as u64].usdc_owed,
                })
            &&& forall|i: int|
                0 <= i < n ==> #[trigger] effects[2 * i + 1] == Effect::Emit(
                    Event::WithdrawClaimed {
                        from: queue[(head + i) as u64].from,
                        usdc_paid: queue[(head + i) as u64].usdc_owed,
                        index: (head + i) as u64,
                    },
                )
        }),
    decreases n,
{
    broadcast use group_flows;

    if n > 0 {
        lemma_claim_effects(queue, vault, head, (n - 1) as nat);
        let before = claim_effects(queue, vault, head, (n - 1) as nat);
        let claim = claim_at(queue, head + n - 1);
        let effects = claim_effects(queue, vault, head, n);
        let paid = Effect::TransferUsdc {
            from: vault,
            to: claim.from,
            amount: claim.usdc_owed,
        };
        let told = Effect::Emit(
            Event::WithdrawClaimed {
                from: claim.from,
                usdc_paid: claim.usdc_owed,
                index: (head + n - 1) as u64,
            },
        );
        assert(effects =~= before.push(paid).push(told));
        assert forall|i: int| 0 <= i < n implies #[trigger] effects[2 * i] == (
        Effect::TransferUsdc {
            from: vault,
            to: queue[(head + i) as u64].from,
            amount: queue[(head + i) as u64].usdc_owed,
        }) by {
            if i < n - 1 {
                assert(effects[2 * i] == before[2 * i]);
            }
        }
        assert forall|i: int| 0 <= i < n implies #[trigger] effects[2 * i + 1] == Effect::Emit(
            Event::WithdrawClaimed {
                from: queue[(head + i) as u64].from,
                usdc_paid: queue[(head + i) as u64].usdc_owed,
                index: (head + i) as u64,
            },
        ) by {
            if i < n - 1 {
                assert(effects[2 * i + 1] == before[2 * i + 1]);
            }
        }
    }
}

proof fn lemma_claim_moves_no_shares(
    queue: Map<u64, QueuedClaim>,
    vault: Address,
    head: int,
    n: nat,
    account: Address,
)
    ensures
        shares_flow(account, claim_effects(queue, vault, head, n)) == 0,
        supply_flow(claim_effects(queue, vault, head, n)) == 0,
    decreases n,
{
    broadcast use group_flows;

    if n > 0 {
        lemma_claim_moves_no_shares(queue, vault, head, (n - 1) as nat, account);
        let before = claim_effects(queue, vault, head, (n - 1) as nat);
        let effects = claim_effects(queue, vault, head, n);
        assert(effects =~= before.push(effects[effects.len() - 2]).push(
            effects[effects.len() - 1],
        ));
    }
}

} // verus!
