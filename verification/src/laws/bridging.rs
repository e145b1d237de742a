//! Shares come in from other chains once, from trusted emitters, and within the cap.

use crate::bridge::{emitter_key, outbound_payload, sha256_digest};
use crate::constants::MAX_HBS_SUPPLY;
use crate::state::VaultState;
use crate::types::{Address, BridgeIdentity, BridgeTransferPayload, Ledger, VaaOrigin, VaultError};
use vstd::prelude::*;

verus! {

impl VaultState {
    /// A message counts once: after a transfer has been taken in, its message is refused, whatever
    /// it is said to carry.
    pub proof fn a_message_counts_once(
        self,
        ledger: Ledger,
        identity: BridgeIdentity,
        vaa: Seq<u8>,
        origin: VaaOrigin,
        transfer: BridgeTransferPayload,
        to: Address,
        next_identity: BridgeIdentity,
        next_origin: VaaOrigin,
        next_transfer: BridgeTransferPayload,
        next_to: Address,
    )
        requires
            self.completion_refusal(identity, sha256_digest(vaa), origin, transfer, to) is None,
        ensures
            self.after_completion(ledger, sha256_digest(vaa), transfer, to).completion_refusal(
                next_identity,
                sha256_digest(vaa),
                next_origin,
                next_transfer,
                next_to,
            ) is Some,
            self.after_completion(ledger, sha256_digest(vaa), transfer, to).completion_refusal(
                identity,
                sha256_digest(vaa),
                origin,
                transfer,
                to,
            ) == Some(VaultError::VaaAlreadyConsumed),
    {
    }

    /// A message that has been used up stays so, whatever other messages follow.
    pub proof fn used_messages_stay_used(
        self,
        ledger: Ledger,
        digest: Seq<u8>,
        transfer: BridgeTransferPayload,
        to: Address,
        other: Seq<u8>,
    )
        requires
            self.consumed_vaas.contains(digest),
        ensures
            self.after_completion(ledger, other, transfer, to).consumed_vaas.contains(digest),
    {
    }

    /// Messages are taken from trusted emitters only, and an emitter that is trusted no longer is
    /// refused.
    pub proof fn only_trusted_emitters_count(
        self,
        identity: BridgeIdentity,
        digest: Seq<u8>,
        origin: VaaOrigin,
        transfer: BridgeTransferPayload,
        to: Address,
    )
        ensures
            self.completion_refusal(identity, digest, origin, transfer, to) is None
                ==> self.trusted_emitters.contains(emitter_key(origin)),
            self.core_refusal() is None ==> self.trusting(
                emitter_key(origin),
                false,
            ).completion_refusal(identity, digest, origin, transfer, to) == Some(
                VaultError::EmitterNotTrusted,
            ),
            self.trusting(emitter_key(origin), true).trusted_emitters.contains(
                emitter_key(origin),
            ),
    {
    }

    /// The chain that a payload claims to come from does not count.
    pub proof fn the_claimed_source_does_not_count(
        self,
        identity: BridgeIdentity,
        digest: Seq<u8>,
        origin: VaaOrigin,
        transfer: BridgeTransferPayload,
        to: Address,
        source_chain: u32,
    )
        ensures
            self.completion_refusal(
                identity,
                digest,
                origin,
                BridgeTransferPayload { source_chain, ..transfer },
                to,
            ) == self.completion_refusal(identity, digest, origin, transfer, to),
    {
    }

    /// A transfer for another chain or of another token is not taken in.
    pub proof fn only_transfers_for_this_vault_count(
        self,
        identity: BridgeIdentity,
        digest: Seq<u8>,
        origin: VaaOrigin,
        transfer: BridgeTransferPayload,
        to: Address,
    )
        requires
            self.completion_refusal(identity, digest, origin, transfer, to) is None,
        ensures
            transfer.target_chain == identity.chain_id,
            transfer.token_address@ == identity.token_address@,
            self.totals.total_supply + transfer.amount <= MAX_HBS_SUPPLY,
    {
    }

    /// A message that goes out names the token, the chain that it leaves and the one that it is
    /// for, and carries what was burned. The vault of that chain, if it has the same token, takes
    /// it in for that amount, unless trust, a message used before or the cap stands against it.
    pub proof fn outbound_messages_are_for_their_target(
        self,
        identity: BridgeIdentity,
        recipient: [u8; 32],
        amount: i128,
        target_chain: u32,
        nonce: u64,
        remote: VaultState,
        there: BridgeIdentity,
        digest: Seq<u8>,
        origin: VaaOrigin,
        to: Address,
    )
        requires
            there.chain_id == target_chain,
            there.token_address == identity.token_address,
            remote.core_refusal() is None,
            remote.trusted_emitters.contains((origin.emitter_chain, origin.emitter_address@)),
            !remote.consumed_vaas.contains(digest),
        ensures
            ({
                let message = outbound_payload(identity, recipient, amount, target_chain, nonce);
                &&& message.amount == amount
                &&& message.recipient == recipient
                &&& message.nonce == nonce
                &&& message.source_chain == identity.chain_id
                &&& message.target_chain == target_chain
                &&& message.token_address == identity.token_address
                &&& remote.completion_refusal(there, digest, origin, message, to)
                    == remote.inbound_refusal(to, amount as int)
            }),
    {
    }

    /// Shares that go out to another chain and come back leave the shares outstanding, and the
    /// balance of their holder, as they were.
    pub proof fn out_and_back_conserves_shares(self, ledger: Ledger, holder: Address, shares: int)
        requires
            self.well_formed(),
            self.bridge_burn_refusal(holder, shares) is None,
        ensures
            self.burned(holder, shares).inbound_refusal(holder, shares) is None,
            self.burned(holder, shares).after_inbound(ledger, holder, shares).totals
                == self.totals,
            self.burned(holder, shares).after_inbound(ledger, holder, shares).shares_of(holder)
                == self.shares_of(holder),
    {
        self.lemma_balance_within_supply(holder);
    }
}

} // verus!
