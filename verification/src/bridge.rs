//! Shares that leave for other chains and come in from them.

use crate::arith::{fits, sum};
use crate::constants::MAX_HBS_SUPPLY;
use crate::flows::balanced;
use crate::guards::{configure_refusal, first, version_refusal};
use crate::state::{digest_set, emitter_set, InvestmentVault, Settings, VaultState};
use crate::types::{
    Address, BridgeIdentity, BridgeTransferPayload, Effect, Event, Ledger, Outcome, VaaOrigin,
    VaultError,
};
use vstd::prelude::*;

verus! {

/// The Soroban host, which hashes for the vault.
#[verifier::external_type_specification]
#[verifier::external_body]
pub struct ExEnv(soroban_sdk::Env);

/// The SHA-256 digest of `data`.
pub uninterp spec fn sha256_digest(data: Seq<u8>) -> Seq<u8>;

/// Calls `soroban_sdk::crypto::Crypto::sha256` on the bytes of `data`. Trusted: the result is a
/// function of the bytes alone, the digest of SHA-256; what that function is on given bytes is
/// left unsaid. A host value holds up to `u32::MAX` bytes. The host charges the call to the budget
/// of the transaction, and ends the transaction where the budget runs out.
#[verifier::external_body]
fn sha256(host: &soroban_sdk::Env, data: &Vec<u8>) -> (digest: [u8; 32])
    requires
        data@.len() <= u32::MAX,
    ensures
        digest@ == sha256_digest(data@),
{
    host.crypto().sha256(&soroban_sdk::Bytes::from_slice(host, data)).to_array()
}

fn same_bytes(a: &[u8; 32], b: &[u8; 32]) -> (r: bool)
    ensures
        r == (a@ == b@),
{
    let mut i: usize = 0;
    while i < 32
        invariant
            i <= 32,
            forall|j: int| 0 <= j < i ==> a@[j] == b@[j],
        decreases 32 - i,
    {
        if a[i] != b[i] {
            assert(a@[i as int] != b@[i as int]);
            return false;
        }
        i = i + 1;
    }
    assert(a@ =~= b@);
    true
}

/// The key of an emitter in the vault's list of trusted ones.
pub open spec fn emitter_key(origin: VaaOrigin) -> (u32, Seq<u8>) {
    (origin.emitter_chain, origin.emitter_address@)
}

impl VaultState {
    /// Why `shares` may not come in from another chain: the cap on the supply holds for them too.
    pub open spec fn inbound_refusal(self, to: Address, shares: int) -> Option<VaultError> {
        if !fits(self.totals.total_supply + shares) {
            Some(VaultError::ArithmeticOverflow)
        } else if self.totals.total_supply + shares > MAX_HBS_SUPPLY {
            Some(VaultError::MaxSupplyExceeded)
        } else {
            self.mint_refusal(to, shares)
        }
    }

    /// This state with `shares` come in from another chain. They are locked as by a deposit.
    pub open spec fn after_inbound(self, ledger: Ledger, to: Address, shares: int) -> VaultState {
        self.minted(to, shares).locked(ledger, to)
    }

    /// Why the bridge may not mint.
    pub open spec fn bridge_mint_refusal(self, to: Address, shares: int) -> Option<VaultError> {
        if !self.settings.is_current() {
            Some(VaultError::UnsupportedStateVersion)
        } else if self.settings.bridge is None {
            Some(VaultError::BridgeNotSet)
        } else if shares <= 0 {
            Some(VaultError::AmountNotPositive)
        } else {
            self.inbound_refusal(to, shares)
        }
    }

    /// Why shares may not be burned for another chain.
    pub open spec fn bridge_burn_refusal(self, from: Address, shares: int) -> Option<VaultError> {
        if !self.settings.is_current() {
            Some(VaultError::UnsupportedStateVersion)
        } else if shares <= 0 {
            Some(VaultError::AmountNotPositive)
        } else {
            self.burn_refusal(from, shares)
        }
    }

    /// Why an outbound transfer is refused.
    pub open spec fn outbound_refusal(self, from: Address, shares: int) -> Option<VaultError> {
        first(
            self.bridge_burn_refusal(from, shares),
            if self.settings.wormhole_core is None {
                Some(VaultError::WormholeCoreNotSet)
            } else {
                None
            },
        )
    }

    /// Why the vault does not look at a cross-chain message at all.
    pub open spec fn core_refusal(self) -> Option<VaultError> {
        first(
            version_refusal(self.settings),
            if self.settings.wormhole_core is None {
                Some(VaultError::WormholeCoreNotSet)
            } else {
                None
            },
        )
    }

    /// Why an inbound transfer is refused, given what its message says and the digest of the
    /// message. The emitter is trusted by the chain that the guardians verified; the chain that the
    /// payload claims to come from does not count.
    pub open spec fn completion_refusal(
        self,
        identity: BridgeIdentity,
        digest: Seq<u8>,
        origin: VaaOrigin,
        transfer: BridgeTransferPayload,
        to: Address,
    ) -> Option<VaultError> {
        if self.core_refusal() is Some {
            self.core_refusal()
        } else if !self.trusted_emitters.contains(emitter_key(origin)) {
            Some(VaultError::EmitterNotTrusted)
        } else if transfer.target_chain != identity.chain_id {
            Some(VaultError::BridgeWrongTargetChain)
        } else if transfer.token_address@ != identity.token_address@ {
            Some(VaultError::BridgeTokenMismatch)
        } else if self.consumed_vaas.contains(digest) {
            Some(VaultError::VaaAlreadyConsumed)
        } else {
            self.inbound_refusal(to, transfer.amount as int)
        }
    }

    /// This state after an inbound transfer. Its message is used up.
    pub open spec fn after_completion(
        self,
        ledger: Ledger,
        digest: Seq<u8>,
        transfer: BridgeTransferPayload,
        to: Address,
    ) -> VaultState {
        VaultState { consumed_vaas: self.consumed_vaas.insert(digest), ..self }.after_inbound(
            ledger,
            to,
            transfer.amount as int,
        )
    }

    /// This state with an emitter trusted, or no longer trusted.
    pub open spec fn trusting(self, emitter: (u32, Seq<u8>), trusted: bool) -> VaultState {
        VaultState {
            trusted_emitters: if trusted {
                self.trusted_emitters.insert(emitter)
            } else {
                self.trusted_emitters.remove(emitter)
            },
            ..self
        }
    }
}

/// The message of an outbound transfer.
pub open spec fn outbound_payload(
    identity: BridgeIdentity,
    recipient: [u8; 32],
    amount: i128,
    target_chain: u32,
    nonce: u64,
) -> BridgeTransferPayload {
    BridgeTransferPayload {
        token_address: identity.token_address,
        recipient,
        amount,
        source_chain: identity.chain_id,
        target_chain,
        nonce,
    }
}

impl Settings {
    /// What the host does for a mint of the bridge.
    pub open spec fn bridge_mint_effects(self, to: Address, amount: i128) -> Seq<Effect> {
        seq![
            Effect::RequireAuth(self.bridge->Some_0),
            Effect::MintShares { to, amount },
            Effect::Emit(Event::BridgeMint { to, amount }),
        ]
    }

    /// What the host does for an outbound transfer.
    pub open spec fn outbound_effects(self, from: Address, payload: BridgeTransferPayload) -> Seq<
        Effect,
    > {
        seq![
            Effect::RequireAuth(from),
            Effect::BurnShares { from, amount: payload.amount },
            Effect::PublishMessage {
                core: self.wormhole_core->Some_0,
                consistency_level: 0,
                payload,
            },
        ]
    }
}

/// What the host does for a burn of the bridge.
pub open spec fn bridge_burn_effects(from: Address, amount: i128) -> Seq<Effect> {
    seq![
        Effect::RequireAuth(from),
        Effect::BurnShares { from, amount },
        Effect::Emit(Event::BridgeBurn { from, amount }),
    ]
}

/// What the host does once the message of an outbound transfer is published.
pub open spec fn published_effects(
    from: Address,
    payload: BridgeTransferPayload,
    sequence: u64,
) -> Seq<Effect> {
    seq![
        Effect::Emit(
            Event::BridgeTransferInitiated {
                from,
                amount: payload.amount,
                target_chain: payload.target_chain,
                recipient: payload.recipient,
                sequence,
            },
        ),
    ]
}

/// What the host does for an inbound transfer.
pub open spec fn completion_effects(
    origin: VaaOrigin,
    transfer: BridgeTransferPayload,
    to: Address,
) -> Seq<Effect> {
    seq![
        Effect::MintShares { to, amount: transfer.amount },
        Effect::Emit(
            Event::BridgeTransferCompleted {
                emitter_chain: origin.emitter_chain,
                emitter_address: origin.emitter_address,
                to,
                amount: transfer.amount,
            },
        ),
    ]
}

proof fn lemma_emitters_push(list: Seq<VaaOrigin>, origin: VaaOrigin)
    ensures
        emitter_set(list.push(origin)) == emitter_set(list).insert(emitter_key(origin)),
{
    let keys = list.map_values(|o: VaaOrigin| (o.emitter_chain, o.emitter_address@));
    let more = list.push(origin).map_values(|o: VaaOrigin| (o.emitter_chain, o.emitter_address@));
    assert(more =~= keys.push(emitter_key(origin)));
    keys.lemma_push_to_set_commute(emitter_key(origin));
}

proof fn lemma_emitter_listed(list: Seq<VaaOrigin>, key: (u32, Seq<u8>))
    ensures
        emitter_set(list).contains(key) <==> exists|i: int|
            0 <= i < list.len() && emitter_key(#[trigger] list[i]) == key,
{
    let keys = list.map_values(|o: VaaOrigin| (o.emitter_chain, o.emitter_address@));
    if emitter_set(list).contains(key) {
        let i = choose|i: int| 0 <= i < keys.len() && keys[i] == key;
        assert(emitter_key(list[i]) == key);
    }
    if exists|i: int| 0 <= i < list.len() && emitter_key(#[trigger] list[i]) == key {
        let i = choose|i: int| 0 <= i < list.len() && emitter_key(#[trigger] list[i]) == key;
        assert(keys[i] == key);
    }
}

proof fn lemma_digests_push(list: Seq<[u8; 32]>, digest: [u8; 32])
    ensures
        digest_set(list.push(digest)) == digest_set(list).insert(digest@),
{
    let keys = list.map_values(|d: [u8; 32]| d@);
    let more = list.push(digest).map_values(|d: [u8; 32]| d@);
    assert(more =~= keys.push(digest@));
    keys.lemma_push_to_set_commute(digest@);
}

proof fn lemma_digest_listed(list: Seq<[u8; 32]>, digest: Seq<u8>)
    ensures
        digest_set(list).contains(digest) <==> exists|i: int|
            0 <= i < list.len() && (#[trigger] list[i])@ == digest,
{
    let keys = list.map_values(|d: [u8; 32]| d@);
    if digest_set(list).contains(digest) {
        let i = choose|i: int| 0 <= i < keys.len() && keys[i] == digest;
        assert(list[i]@ == digest);
    }
    if exists|i: int| 0 <= i < list.len() && (#[trigger] list[i])@ == digest {
        let i = choose|i: int| 0 <= i < list.len() && (#[trigger] list[i])@ == digest;
        assert(keys[i] == digest);
    }
}

impl InvestmentVault {
    /// Name the bridge. Nothing is reported where nothing changes.
    pub fn set_bridge(&mut self, bridge: Address) -> (r: Result<Outcome<()>, VaultError>)
        ensures
            old(self)@.well_formed() ==> final(self)@.well_formed(),
            match r {
                Ok(out) => {
                    let s = old(self).settings;
                    &&& configure_refusal(s) is None
                    &&& final(self)@ == old(self)@.with_settings(
                        Settings { bridge: Some(bridge), ..s },
                    )
                    &&& out.effects@ == if s.bridge == Some(bridge) {
                        seq![s.owner_auth()]
                    } else {
                        seq![s.owner_auth(), Effect::Emit(Event::BridgeSet { bridge })]
                    }
                },
                Err(e) => {
                    &&& configure_refusal(old(self).settings) == Some(e)
                    &&& *final(self) == *old(self)
                },
            },
    {
        let owner = self.require_configurable()?;
        let mut effects = vec![Effect::RequireAuth(owner)];
        let known: bool = match self.settings.bridge {
            Some(current) => current == bridge,
            None => false,
        };
        if !known {
            self.settings.bridge = Some(bridge);
            effects.push(Effect::Emit(Event::BridgeSet { bridge }));
        }
        Ok(Outcome { value: (), effects })
    }

    fn check_inbound(&self, shares: i128) -> (r: Result<(), VaultError>)
        ensures
            match r {
                Ok(_) => {
                    &&& fits(self@.totals.total_supply + shares)
                    &&& self@.totals.total_supply + shares <= MAX_HBS_SUPPLY
                },
                Err(e) => forall|to: Address|
                    #[trigger]
                    self@.inbound_refusal(to, shares as int) == Some(e),
            },
    {
        let supply: i128 = sum(self.totals.total_supply, shares)?;
        if supply > MAX_HBS_SUPPLY {
            return Err(VaultError::MaxSupplyExceeded);
        }
        Ok(())
    }

    /// Mint shares that the bridge brings in. For the bridge.
    pub fn bridge_mint(&mut self, ledger: &Ledger, to: Address, amount: i128) -> (r: Result<
        Outcome<()>,
        VaultError,
    >)
        ensures
            old(self)@.well_formed() ==> final(self)@.well_formed(),
            match r {
                Ok(out) => {
                    &&& balanced(old(self)@, final(self)@, out.effects@)
                    &&& old(self)@.bridge_mint_refusal(to, amount as int) is None
                    &&& final(self)@ == old(self)@.after_inbound(*ledger, to, amount as int)
                    &&& out.effects@ == old(self).settings.bridge_mint_effects(to, amount)
                },
                Err(e) => {
                    &&& old(self)@.bridge_mint_refusal(to, amount as int) == Some(e)
                    &&& *final(self) == *old(self)
                },
            },
    {
        broadcast use crate::flows::group_flows;

        self.require_current_state()?;
        let bridge = match self.settings.bridge {
            Some(bridge) => bridge,
            None => {
                return Err(VaultError::BridgeNotSet);
            },
        };
        if amount <= 0 {
            return Err(VaultError::AmountNotPositive);
        }
        self.check_inbound(amount)?;
        self.mint_shares(to, amount)?;
        self.lock_deposit(ledger, to);
        proof {
            if old(self)@.well_formed() {
                old(self)@.lemma_minted_keeps(to, amount as int);
            }
        }
        let effects = vec![
            Effect::RequireAuth(bridge),
            Effect::MintShares { to, amount },
            Effect::Emit(Event::BridgeMint { to, amount }),
        ];
        Ok(Outcome { value: (), effects })
    }

    /// Burn shares of `from` that the bridge takes out.
    pub fn bridge_burn(&mut self, from: Address, amount: i128) -> (r: Result<
        Outcome<()>,
        VaultError,
    >)
        ensures
            old(self)@.well_formed() ==> final(self)@.well_formed(),
            match r {
                Ok(out) => {
                    &&& balanced(old(self)@, final(self)@, out.effects@)
                    &&& old(self)@.bridge_burn_refusal(from, amount as int) is None
                    &&& final(self)@ == old(self)@.burned(from, amount as int)
                    &&& out.effects@ == bridge_burn_effects(from, amount)
                },
                Err(e) => {
                    &&& old(self)@.bridge_burn_refusal(from, amount as int) == Some(e)
                    &&& *final(self) == *old(self)
                },
            },
    {
        broadcast use crate::flows::group_flows;

        self.require_current_state()?;
        if amount <= 0 {
            return Err(VaultError::AmountNotPositive);
        }
        self.burn_shares(from, amount)?;
        proof {
            if old(self)@.well_formed() {
                old(self)@.lemma_burned_keeps(from, amount as int);
            }
        }
        let effects = vec![
            Effect::RequireAuth(from),
            Effect::BurnShares { from, amount },
            Effect::Emit(Event::BridgeBurn { from, amount }),
        ];
        Ok(Outcome { value: (), effects })
    }

    /// Name the contract that publishes and verifies cross-chain messages.
    pub fn set_wormhole_core(&mut self, core: Address) -> (r: Result<Outcome<()>, VaultError>)
        ensures
            old(self)@.well_formed() ==> final(self)@.well_formed(),
            match r {
                Ok(out) => {
                    &&& configure_refusal(old(self).settings) is None
                    &&& final(self)@ == old(self)@.with_settings(
                        Settings { wormhole_core: Some(core), ..old(self).settings },
                    )
                    &&& out.effects@ == seq![old(self).settings.owner_auth()]
                },
                Err(e) => {
                    &&& configure_refusal(old(self).settings) == Some(e)
                    &&& *final(self) == *old(self)
                },
            },
    {
        let owner = self.require_configurable()?;
        self.settings.wormhole_core = Some(core);
        let effects = vec![Effect::RequireAuth(owner)];
        Ok(Outcome { value: (), effects })
    }

    /// Trust an emitter of cross-chain messages, or trust it no longer.
    pub fn set_trusted_emitter(&mut self, chain_id: u32, emitter_address: [u8; 32], trusted: bool) -> (r:
        Result<Outcome<()>, VaultError>)
        ensures
            old(self)@.well_formed() ==> final(self)@.well_formed(),
            match r {
                Ok(out) => {
                    &&& configure_refusal(old(self).settings) is None
                    &&& final(self)@ == old(self)@.trusting((chain_id, emitter_address@), trusted)
                    &&& out.effects@ == seq![
                        old(self).settings.owner_auth(),
                        Effect::Emit(
                            Event::TrustedEmitterSet { chain_id, emitter_address, trusted },
                        ),
                    ]
                },
                Err(e) => {
                    &&& configure_refusal(old(self).settings) == Some(e)
                    &&& *final(self) == *old(self)
                },
            },
    {
        let owner = self.require_configurable()?;
        let emitter = VaaOrigin { emitter_chain: chain_id, emitter_address };
        let mut kept: Vec<VaaOrigin> = Vec::new();
        let ghost listed = self.trusted_emitters@;
        let mut i: usize = 0;
        proof {
            assert(emitter_set(listed.take(0)).remove(emitter_key(emitter)) =~= emitter_set(kept@))
                by {
                assert(listed.take(0) =~= kept@);
                assert(!emitter_set(kept@).contains(emitter_key(emitter))) by {
                    lemma_emitter_listed(kept@, emitter_key(emitter));
                }
            }
        }
        while i < self.trusted_emitters.len()
            invariant
                i <= listed.len(),
                listed == self.trusted_emitters@,
                *self == *old(self),
                emitter.emitter_chain == chain_id,
                emitter.emitter_address == emitter_address,
                emitter_set(kept@) == emitter_set(listed.take(i as int)).remove(
                    emitter_key(emitter),
                ),
            decreases listed.len() - i,
        {
            let other = self.trusted_emitters[i];
            proof {
                assert(listed.take(i + 1) =~= listed.take(i as int).push(other));
                lemma_emitters_push(listed.take(i as int), other);
                lemma_emitters_push(kept@, other);
            }
            let same: bool = other.emitter_chain == chain_id && same_bytes(
                &other.emitter_address,
                &emitter_address,
            );
            let ghost before = kept@;
            if !same {
                kept.push(other);
            }
            i = i + 1;
            assert(emitter_set(kept@) =~= emitter_set(listed.take(i as int)).remove(
                emitter_key(emitter),
            ));
        }
        proof {
            assert(listed.take(i as int) =~= listed);
            lemma_emitters_push(kept@, emitter);
        }
        if trusted {
            kept.push(emitter);
        }
        self.trusted_emitters = kept;
        assert(self@.trusted_emitters =~= old(self)@.trusting(
            (chain_id, emitter_address@),
            trusted,
        ).trusted_emitters);
        let effects = vec![
            Effect::RequireAuth(owner),
            Effect::Emit(Event::TrustedEmitterSet { chain_id, emitter_address, trusted }),
        ];
        Ok(Outcome { value: (), effects })
    }

    /// Burn shares of `from` and send them to `recipient` on another chain. The value is the
    /// message; [`Self::bridge_transfer_published`] follows, with the sequence number that the host
    /// gets for it.
    pub fn initiate_bridge_transfer(
        &mut self,
        identity: BridgeIdentity,
        from: Address,
        amount: i128,
        target_chain: u32,
        recipient: [u8; 32],
        nonce: u64,
    ) -> (r: Result<Outcome<BridgeTransferPayload>, VaultError>)
        ensures
            old(self)@.well_formed() ==> final(self)@.well_formed(),
            match r {
                Ok(out) => {
                    let payload = outbound_payload(
                        identity,
                        recipient,
                        amount,
                        target_chain,
                        nonce,
                    );
                    &&& balanced(old(self)@, final(self)@, out.effects@)
                    &&& old(self)@.outbound_refusal(from, amount as int) is None
                    &&& out.value == payload
                    &&& final(self)@ == old(self)@.burned(from, amount as int)
                    &&& out.effects@ == old(self).settings.outbound_effects(from, payload)
                },
                Err(e) => {
                    &&& old(self)@.outbound_refusal(from, amount as int) == Some(e)
                    &&& *final(self) == *old(self)
                },
            },
    {
        broadcast use crate::flows::group_flows;

        self.require_current_state()?;
        if amount <= 0 {
            return Err(VaultError::AmountNotPositive);
        }
        self.check_burn(from, amount)?;
        let core = match self.settings.wormhole_core {
            Some(core) => core,
            None => {
                return Err(VaultError::WormholeCoreNotSet);
            },
        };
        self.burn_shares(from, amount)?;
        let payload = BridgeTransferPayload {
            token_address: identity.token_address,
            recipient,
            amount,
            source_chain: identity.chain_id,
            target_chain,
            nonce,
        };
        proof {
            if old(self)@.well_formed() {
                old(self)@.lemma_burned_keeps(from, amount as int);
            }
        }
        let effects = vec![
            Effect::RequireAuth(from),
            Effect::BurnShares { from, amount },
            Effect::PublishMessage { core, consistency_level: 0, payload },
        ];
        Ok(Outcome { value: payload, effects })
    }

    /// Report an outbound transfer whose message has been published. The value is the sequence
    /// number of the message.
    pub fn bridge_transfer_published(
        from: Address,
        payload: BridgeTransferPayload,
        sequence: u64,
    ) -> (r: Outcome<u64>)
        ensures
            r.value == sequence,
            r.effects@ == published_effects(from, payload, sequence),
    {
        let effects = vec![
            Effect::Emit(
                Event::BridgeTransferInitiated {
                    from,
                    amount: payload.amount,
                    target_chain: payload.target_chain,
                    recipient: payload.recipient,
                    sequence,
                },
            ),
        ];
        Outcome { value: sequence, effects }
    }

    /// The contract that is to verify an inbound message.
    pub fn require_wormhole_core(&self) -> (r: Result<Address, VaultError>)
        ensures
            match r {
                Ok(core) => {
                    &&& self@.core_refusal() is None
                    &&& self.settings.wormhole_core == Some(core)
                },
                Err(e) => self@.core_refusal() == Some(e),
            },
    {
        self.require_current_state()?;
        match self.settings.wormhole_core {
            Some(core) => Ok(core),
            None => Err(VaultError::WormholeCoreNotSet),
        }
    }

    fn trusts(&self, origin: &VaaOrigin) -> (r: bool)
        ensures
            r == self@.trusted_emitters.contains(emitter_key(*origin)),
    {
        let ghost listed = self.trusted_emitters@;
        proof {
            lemma_emitter_listed(listed, emitter_key(*origin));
        }
        let mut i: usize = 0;
        while i < self.trusted_emitters.len()
            invariant
                i <= listed.len(),
                listed == self.trusted_emitters@,
                forall|j: int|
                    0 <= j < i ==> emitter_key(#[trigger] listed[j]) != emitter_key(*origin),
            decreases listed.len() - i,
        {
            let other = self.trusted_emitters[i];
            if other.emitter_chain == origin.emitter_chain && same_bytes(
                &other.emitter_address,
                &origin.emitter_address,
            ) {
                proof {
                    assert(emitter_key(listed[i as int]) == emitter_key(*origin));
                    lemma_emitter_listed(listed, emitter_key(*origin));
                }
                return true;
            }
            i = i + 1;
        }
        false
    }

    fn consumed(&self, digest: &[u8; 32]) -> (r: bool)
        ensures
            r == self@.consumed_vaas.contains(digest@),
    {
        let ghost listed = self.consumed_vaas@;
        proof {
            lemma_digest_listed(listed, digest@);
        }
        let mut i: usize = 0;
        while i < self.consumed_vaas.len()
            invariant
                i <= listed.len(),
                listed == self.consumed_vaas@,
                forall|j: int| 0 <= j < i ==> (#[trigger] listed[j])@ != digest@,
            decreases listed.len() - i,
        {
            let other = self.consumed_vaas[i];
            if same_bytes(&other, digest) {
                proof {
                    assert(listed[i as int]@ == digest@);
                    lemma_digest_listed(listed, digest@);
                }
                return true;
            }
            i = i + 1;
        }
        false
    }

    /// Take in the transfer of a verified message, given the digest of the message. `to` is the
    /// address of the recipient that the message names.
    pub fn accept_bridge_transfer(
        &mut self,
        ledger: &Ledger,
        identity: BridgeIdentity,
        digest: [u8; 32],
        origin: VaaOrigin,
        transfer: BridgeTransferPayload,
        to: Address,
    ) -> (r: Result<Outcome<()>, VaultError>)
        ensures
            old(self)@.well_formed() ==> final(self)@.well_formed(),
            match r {
                Ok(out) => {
                    &&& balanced(old(self)@, final(self)@, out.effects@)
                    &&& old(self)@.completion_refusal(identity, digest@, origin, transfer, to)
                        is None
                    &&& final(self)@ == old(self)@.after_completion(
                        *ledger,
                        digest@,
                        transfer,
                        to,
                    )
                    &&& out.effects@ == completion_effects(origin, transfer, to)
                },
                Err(e) => {
                    &&& old(self)@.completion_refusal(identity, digest@, origin, transfer, to)
                        == Some(e)
                    &&& *final(self) == *old(self)
                },
            },
    {
        broadcast use crate::flows::group_flows;

        self.require_wormhole_core()?;
        if !self.trusts(&origin) {
            return Err(VaultError::EmitterNotTrusted);
        }
        if transfer.target_chain != identity.chain_id {
            return Err(VaultError::BridgeWrongTargetChain);
        }
        if !same_bytes(&transfer.token_address, &identity.token_address) {
            return Err(VaultError::BridgeTokenMismatch);
        }
        if self.consumed(&digest) {
            return Err(VaultError::VaaAlreadyConsumed);
        }
        self.check_inbound(transfer.amount)?;
        self.mint_shares(to, transfer.amount)?;
        let ghost listed = self.consumed_vaas@;
        self.consumed_vaas.push(digest);
        proof {
            lemma_digests_push(listed, digest);
        }
        self.lock_deposit(ledger, to);
        proof {
            if old(self)@.well_formed() {
                old(self)@.lemma_minted_keeps(to, transfer.amount as int);
            }
        }
        let effects = vec![
            Effect::MintShares { to, amount: transfer.amount },
            Effect::Emit(
                Event::BridgeTransferCompleted {
                    emitter_chain: origin.emitter_chain,
                    emitter_address: origin.emitter_address,
                    to,
                    amount: transfer.amount,
                },
            ),
        ];
        Ok(Outcome { value: (), effects })
    }

    /// Take in the transfer of the message `vaa`, which has been verified to come from `origin` and
    /// to carry `transfer`. A message counts once, by its SHA-256 digest.
    pub fn complete_bridge_transfer(
        &mut self,
        host: &soroban_sdk::Env,
        ledger: &Ledger,
        identity: BridgeIdentity,
        vaa: &Vec<u8>,
        origin: VaaOrigin,
        transfer: BridgeTransferPayload,
        to: Address,
    ) -> (r: Result<Outcome<()>, VaultError>)
        requires
            vaa@.len() <= u32::MAX,
        ensures
            old(self)@.well_formed() ==> final(self)@.well_formed(),
            match r {
                Ok(out) => {
                    let digest = sha256_digest(vaa@);
                    &&& balanced(old(self)@, final(self)@, out.effects@)
                    &&& old(self)@.completion_refusal(identity, digest, origin, transfer, to)
                        is None
                    &&& final(self)@ == old(self)@.after_completion(*ledger, digest, transfer, to)
                    &&& out.effects@ == completion_effects(origin, transfer, to)
                },
                Err(e) => {
                    &&& old(self)@.completion_refusal(
                        identity,
                        sha256_digest(vaa@),
                        origin,
                        transfer,
                        to,
                    ) == Some(e)
                    &&& *final(self) == *old(self)
                },
            },
    {
        broadcast use crate::flows::group_flows;

        let digest: [u8; 32] = sha256(host, vaa);
        self.accept_bridge_transfer(ledger, identity, digest, origin, transfer, to)
    }
}

} // verus!
