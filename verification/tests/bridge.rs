use investment_vault::constants::MAX_HBS_SUPPLY;
use investment_vault::types::{
    Address, BridgeIdentity, BridgeTransferPayload, Effect, Event, Ledger, VaaOrigin, VaultError,
};
use investment_vault::InvestmentVault;
use soroban_sdk::Env;

fn addr(id: u64) -> Address {
    Address { id }
}

fn new_vault() -> InvestmentVault {
    InvestmentVault::__constructor(addr(VAULT), addr(OWNER), addr(USDC), addr(REGISTRY), 0).value
}

const VAULT: u64 = 1;
const OWNER: u64 = 2;
const USDC: u64 = 3;
const REGISTRY: u64 = 4;

const ALICE: u64 = 10;
const CORE: u64 = 70;
const NOW: Ledger = Ledger { timestamp: 1_000_000, sequence: 100 };
const HERE: BridgeIdentity = BridgeIdentity { chain_id: 61, token_address: [9; 32] };
const THERE: VaaOrigin = VaaOrigin { emitter_chain: 2, emitter_address: [5; 32] };

fn holding(shares: i128) -> InvestmentVault {
    let mut v = new_vault();
    v.totals.total_supply = shares;
    v.share_balances.insert(ALICE, shares);
    v
}

fn connected() -> InvestmentVault {
    let mut v = new_vault();
    v.set_wormhole_core(addr(CORE)).unwrap();
    v.set_trusted_emitter(2, [5; 32], true).unwrap();
    v
}

fn inbound(amount: i128) -> BridgeTransferPayload {
    BridgeTransferPayload {
        token_address: [9; 32],
        recipient: [3; 32],
        amount,
        source_chain: 2,
        target_chain: 61,
        nonce: 8,
    }
}

#[test]
fn the_bridge_mints_and_locks() {
    let mut v = holding(0);
    assert_eq!(v.bridge_mint(&NOW, addr(ALICE), 1).unwrap_err(), VaultError::BridgeNotSet);
    let out = v.set_bridge(addr(80)).unwrap();
    assert_eq!(out.effects[1], Effect::Emit(Event::BridgeSet { bridge: addr(80) }));
    assert_eq!(v.set_bridge(addr(80)).unwrap().effects.len(), 1);
    let out = v.bridge_mint(&NOW, addr(ALICE), 500).unwrap();
    assert_eq!(
        out.effects,
        vec![
            Effect::RequireAuth(addr(80)),
            Effect::MintShares { to: addr(ALICE), amount: 500 },
            Effect::Emit(Event::BridgeMint { to: addr(ALICE), amount: 500 }),
        ]
    );
    assert_eq!(v.totals.total_supply, 500);
    assert_eq!(v.get_deposit_lock_expiry(addr(ALICE)), Ok(1_086_400));
    assert_eq!(v.bridge_mint(&NOW, addr(ALICE), 0).unwrap_err(), VaultError::AmountNotPositive);
    assert_eq!(
        v.bridge_mint(&NOW, addr(ALICE), MAX_HBS_SUPPLY - 499).unwrap_err(),
        VaultError::MaxSupplyExceeded
    );
    assert!(v.bridge_mint(&NOW, addr(ALICE), MAX_HBS_SUPPLY - 500).is_ok());
}

#[test]
fn the_bridge_burns_what_leaves() {
    let mut v = holding(500);
    let out = v.bridge_burn(addr(ALICE), 200).unwrap();
    assert_eq!(
        out.effects,
        vec![
            Effect::RequireAuth(addr(ALICE)),
            Effect::BurnShares { from: addr(ALICE), amount: 200 },
            Effect::Emit(Event::BridgeBurn { from: addr(ALICE), amount: 200 }),
        ]
    );
    assert_eq!(v.totals.total_supply, 300);
    assert_eq!(v.bridge_burn(addr(ALICE), 0).unwrap_err(), VaultError::AmountNotPositive);
    assert_eq!(v.bridge_burn(addr(ALICE), 301).unwrap_err(), VaultError::InsufficientShares);
}

#[test]
fn shares_that_leave_and_come_back_are_the_same() {
    let mut v = holding(500);
    v.set_bridge(addr(80)).unwrap();
    v.bridge_burn(addr(ALICE), 200).unwrap();
    v.bridge_mint(&NOW, addr(ALICE), 200).unwrap();
    assert_eq!(v.totals.total_supply, 500);
    assert_eq!(v.share_balances.get(&ALICE), Some(&500));
}

#[test]
fn an_outbound_transfer_burns_and_publishes() {
    let mut v = holding(500);
    assert_eq!(
        v.initiate_bridge_transfer(HERE, addr(ALICE), 200, 2, [3; 32], 8).unwrap_err(),
        VaultError::WormholeCoreNotSet
    );
    assert_eq!(v.totals.total_supply, 500);
    v.set_wormhole_core(addr(CORE)).unwrap();
    let out = v.initiate_bridge_transfer(HERE, addr(ALICE), 200, 2, [3; 32], 8).unwrap();
    let payload = BridgeTransferPayload {
        token_address: [9; 32],
        recipient: [3; 32],
        amount: 200,
        source_chain: 61,
        target_chain: 2,
        nonce: 8,
    };
    assert_eq!(out.value, payload);
    assert_eq!(
        out.effects,
        vec![
            Effect::RequireAuth(addr(ALICE)),
            Effect::BurnShares { from: addr(ALICE), amount: 200 },
            Effect::PublishMessage { core: addr(CORE), consistency_level: 0, payload },
        ]
    );
    assert_eq!(v.totals.total_supply, 300);
    let published = InvestmentVault::bridge_transfer_published(addr(ALICE), payload, 42);
    assert_eq!(published.value, 42);
    assert_eq!(
        published.effects,
        vec![Effect::Emit(Event::BridgeTransferInitiated {
            from: addr(ALICE),
            amount: 200,
            target_chain: 2,
            recipient: [3; 32],
            sequence: 42,
        })]
    );
    assert_eq!(
        v.initiate_bridge_transfer(HERE, addr(ALICE), 0, 2, [3; 32], 8).unwrap_err(),
        VaultError::AmountNotPositive
    );
    assert_eq!(
        v.initiate_bridge_transfer(HERE, addr(ALICE), 301, 2, [3; 32], 8).unwrap_err(),
        VaultError::InsufficientShares
    );
}

#[test]
fn a_message_is_used_up_by_its_digest() {
    let mut v = connected();
    let host = Env::default();
    let vaa = b"abc".to_vec();
    let out = v
        .complete_bridge_transfer(&host, &NOW, HERE, &vaa, THERE, inbound(700), addr(ALICE))
        .unwrap();
    assert_eq!(
        out.effects,
        vec![
            Effect::MintShares { to: addr(ALICE), amount: 700 },
            Effect::Emit(Event::BridgeTransferCompleted {
                emitter_chain: 2,
                emitter_address: [5; 32],
                to: addr(ALICE),
                amount: 700,
            }),
        ]
    );
    assert_eq!(v.share_balances.get(&ALICE), Some(&700));
    assert_eq!(v.get_deposit_lock_expiry(addr(ALICE)), Ok(1_086_400));
    let digest: [u8; 32] = [
        0xba, 0x78, 0x16, 0xbf, 0x8f, 0x01, 0xcf, 0xea, 0x41, 0x41, 0x40, 0xde, 0x5d, 0xae, 0x22,
        0x23, 0xb0, 0x03, 0x61, 0xa3, 0x96, 0x17, 0x7a, 0x9c, 0xb4, 0x10, 0xff, 0x61, 0xf2, 0x00,
        0x15, 0xad,
    ];
    assert_eq!(v.consumed_vaas, vec![digest]);
    assert_eq!(
        v.complete_bridge_transfer(&host, &NOW, HERE, &vaa, THERE, inbound(700), addr(ALICE))
            .unwrap_err(),
        VaultError::VaaAlreadyConsumed
    );
    let other = b"abd".to_vec();
    assert!(v
        .complete_bridge_transfer(&host, &NOW, HERE, &other, THERE, inbound(1), addr(ALICE))
        .is_ok());
    assert_eq!(v.totals.total_supply, 701);
}

#[test]
fn inbound_transfers_are_refused_for_a_reason() {
    let mut v = new_vault();
    let digest = [1u8; 32];
    let mut refusal = |v: &mut InvestmentVault, origin: VaaOrigin, t: BridgeTransferPayload| {
        v.accept_bridge_transfer(&NOW, HERE, digest, origin, t, addr(ALICE)).unwrap_err()
    };
    assert_eq!(refusal(&mut v, THERE, inbound(1)), VaultError::WormholeCoreNotSet);
    v.set_wormhole_core(addr(CORE)).unwrap();
    assert_eq!(v.require_wormhole_core(), Ok(addr(CORE)));
    assert_eq!(refusal(&mut v, THERE, inbound(1)), VaultError::EmitterNotTrusted);
    v.set_trusted_emitter(2, [5; 32], true).unwrap();
    let elsewhere = VaaOrigin { emitter_chain: 3, ..THERE };
    assert_eq!(refusal(&mut v, elsewhere, inbound(1)), VaultError::EmitterNotTrusted);
    assert_eq!(
        refusal(&mut v, THERE, BridgeTransferPayload { target_chain: 2, ..inbound(1) }),
        VaultError::BridgeWrongTargetChain
    );
    assert_eq!(
        refusal(&mut v, THERE, BridgeTransferPayload { token_address: [8; 32], ..inbound(1) }),
        VaultError::BridgeTokenMismatch
    );
    assert_eq!(refusal(&mut v, THERE, inbound(MAX_HBS_SUPPLY + 1)), VaultError::MaxSupplyExceeded);
    assert_eq!(refusal(&mut v, THERE, inbound(-1)), VaultError::NegativeAmount);
    assert!(v.consumed_vaas.is_empty());
    v.settings.state_version = 0;
    assert_eq!(refusal(&mut v, THERE, inbound(1)), VaultError::UnsupportedStateVersion);
}

#[test]
fn the_source_that_a_payload_claims_does_not_count() {
    let mut v = connected();
    let t = BridgeTransferPayload { source_chain: 999, ..inbound(5) };
    assert!(v.accept_bridge_transfer(&NOW, HERE, [1; 32], THERE, t, addr(ALICE)).is_ok());
}

#[test]
fn trust_can_be_given_and_taken() {
    let mut v = connected();
    v.set_trusted_emitter(2, [6; 32], true).unwrap();
    v.set_trusted_emitter(2, [5; 32], true).unwrap();
    let out = v.set_trusted_emitter(2, [5; 32], false).unwrap();
    assert_eq!(
        out.effects[1],
        Effect::Emit(Event::TrustedEmitterSet {
            chain_id: 2,
            emitter_address: [5; 32],
            trusted: false,
        })
    );
    assert_eq!(
        v.accept_bridge_transfer(&NOW, HERE, [1; 32], THERE, inbound(5), addr(ALICE)).unwrap_err(),
        VaultError::EmitterNotTrusted
    );
    let other = VaaOrigin { emitter_chain: 2, emitter_address: [6; 32] };
    assert!(v.accept_bridge_transfer(&NOW, HERE, [1; 32], other, inbound(5), addr(ALICE)).is_ok());
}
