//! The data model of the bridge: addressed messages, proof bundles, and the
//! destination-chain shapes derived from them.
//!
//! Hashes and account identifiers are carried as plain byte vectors; a
//! canonical identifier is 32 bytes and an account address is 20 bytes.
//! Well-formedness of each aggregate is captured by a `wf` spec function.

use vstd::prelude::*;

verus! {

/// Byte length of a canonical identifier (a 32-byte hash or padded address).
pub const HASH_LEN: usize = 32;

/// The element-wise mathematical image of a sequence of byte vectors.
pub open spec fn nested_bytes_view(v: Seq<Vec<u8>>) -> Seq<Seq<u8>> {
    Seq::new(v.len(), |i: int| v[i]@)
}

/// Errors surfaced by the codecs, the proof assembler and the log decoder.
///
/// None of these are retried: each one indicates a contract violation
/// between the two chains' formats and must surface to the caller.
#[derive(Clone, Copy, Debug, PartialEq, Eq, Structural)]
pub enum BridgeError {
    /// The proof bundle carries no message; it proves bare blob inclusion.
    MessageMissing,
    /// An arbitrary payload exceeds the destination format's maximum length.
    PayloadTooLarge,
    /// A Merkle proof array is empty and could never validate.
    EmptyProof,
    /// A textual proof node is not well-formed hexadecimal.
    InvalidHexEncoding,
    /// A log payload is shorter than the word that carries the message id.
    LogMalformed,
    /// The transaction emitted no logs at all.
    NoLogsEmitted,
}

/// The payload of a cross-chain message: either an opaque byte string or a
/// fungible-token transfer.  The wire tag is `1` for an arbitrary payload and
/// `2` for a fungible-token transfer; no other tag values are valid.
#[derive(Debug)]
pub enum MessagePayload {
    ArbitraryMessage(Vec<u8>),
    FungibleToken { asset_id: Vec<u8>, amount: u128 },
}

/// Mathematical image of a `MessagePayload`.
pub enum MessagePayloadView {
    ArbitraryMessage(Seq<u8>),
    FungibleToken { asset_id: Seq<u8>, amount: u128 },
}

impl View for MessagePayload {
    type V = MessagePayloadView;

    open spec fn view(&self) -> MessagePayloadView {
        match self {
            MessagePayload::ArbitraryMessage(data) => MessagePayloadView::ArbitraryMessage(data@),
            MessagePayload::FungibleToken { asset_id, amount } => {
                MessagePayloadView::FungibleToken { asset_id: asset_id@, amount: *amount }
            },
        }
    }
}

impl MessagePayloadView {
    /// An all-zero `asset_id` denotes the chain's native asset; any
    /// `asset_id` must be a full 32-byte identifier.
    pub open spec fn wf(self) -> bool {
        match self {
            MessagePayloadView::ArbitraryMessage(_) => true,
            MessagePayloadView::FungibleToken { asset_id, .. } => asset_id.len() == HASH_LEN,
        }
    }

    /// Wire tag of the variant: `1` for arbitrary, `2` for fungible-token.
    pub open spec fn tag(self) -> u8 {
        match self {
            MessagePayloadView::ArbitraryMessage(_) => 1u8,
            MessagePayloadView::FungibleToken { .. } => 2u8,
        }
    }
}

/// A cross-chain message envelope.  `id` is unique per origin domain and
/// monotonically assigned by the sending chain; `from` and `to` are canonical
/// 32-byte identifiers.  Immutable once constructed.
#[derive(Debug)]
pub struct AddressedMessage {
    pub message: MessagePayload,
    pub from: Vec<u8>,
    pub to: Vec<u8>,
    pub origin_domain: u32,
    pub destination_domain: u32,
    pub id: u64,
}

/// Mathematical image of an `AddressedMessage`.
pub struct AddressedMessageView {
    pub message: MessagePayloadView,
    pub from: Seq<u8>,
    pub to: Seq<u8>,
    pub origin_domain: u32,
    pub destination_domain: u32,
    pub id: u64,
}

impl View for AddressedMessage {
    type V = AddressedMessageView;

    open spec fn view(&self) -> AddressedMessageView {
        AddressedMessageView {
            message: self.message@,
            from: self.from@,
            to: self.to@,
            origin_domain: self.origin_domain,
            destination_domain: self.destination_domain,
            id: self.id,
        }
    }
}

impl AddressedMessageView {
    pub open spec fn wf(self) -> bool {
        &&& self.message.wf()
        &&& self.from.len() == HASH_LEN
        &&& self.to.len() == HASH_LEN
    }
}

/// A Merkle proof bundle as reported by the bridge attestation service.
/// Read-only once received; `message` is present only when the proof
/// accompanies a specific message rather than a bare blob proof.
#[derive(Debug)]
pub struct BridgeApiMerkleProof {
    pub blob_root: Vec<u8>,
    pub block_hash: Vec<u8>,
    pub bridge_root: Vec<u8>,
    pub data_root: Vec<u8>,
    pub data_root_commitment: Vec<u8>,
    pub data_root_index: u32,
    pub data_root_proof: Vec<Vec<u8>>,
    pub leaf: Vec<u8>,
    pub leaf_index: u32,
    pub leaf_proof: Vec<Vec<u8>>,
    pub message: Option<AddressedMessage>,
    pub range_hash: Vec<u8>,
}

/// Mathematical image of a `BridgeApiMerkleProof`.
pub struct BridgeApiMerkleProofView {
    pub blob_root: Seq<u8>,
    pub block_hash: Seq<u8>,
    pub bridge_root: Seq<u8>,
    pub data_root: Seq<u8>,
    pub data_root_commitment: Seq<u8>,
    pub data_root_index: u32,
    pub data_root_proof: Seq<Seq<u8>>,
    pub leaf: Seq<u8>,
    pub leaf_index: u32,
    pub leaf_proof: Seq<Seq<u8>>,
    pub message: Option<AddressedMessageView>,
    pub range_hash: Seq<u8>,
}

impl View for BridgeApiMerkleProof {
    type V = BridgeApiMerkleProofView;

    open spec fn view(&self) -> BridgeApiMerkleProofView {
        BridgeApiMerkleProofView {
            blob_root: self.blob_root@,
            block_hash: self.block_hash@,
            bridge_root: self.bridge_root@,
            data_root: self.data_root@,
            data_root_commitment: self.data_root_commitment@,
            data_root_index: self.data_root_index,
            data_root_proof: nested_bytes_view(self.data_root_proof@),
            leaf: self.leaf@,
            leaf_index: self.leaf_index,
            leaf_proof: nested_bytes_view(self.leaf_proof@),
            message: match &self.message {
                Option::Some(m) => Option::Some(m@),
                Option::None => Option::None,
            },
            range_hash: self.range_hash@,
        }
    }
}

impl BridgeApiMerkleProofView {
    pub open spec fn wf(self) -> bool {
        &&& self.blob_root.len() == HASH_LEN
        &&& self.block_hash.len() == HASH_LEN
        &&& self.bridge_root.len() == HASH_LEN
        &&& self.data_root.len() == HASH_LEN
        &&& self.data_root_commitment.len() == HASH_LEN
        &&& forall|i: int|
            0 <= i < self.data_root_proof.len() ==> (#[trigger] self.data_root_proof[i]).len()
                == HASH_LEN
        &&& self.leaf.len() == HASH_LEN
        &&& forall|i: int|
            0 <= i < self.leaf_proof.len() ==> (#[trigger] self.leaf_proof[i]).len() == HASH_LEN
        &&& self.range_hash.len() == HASH_LEN
        &&& (self.message matches Option::Some(m) ==> m.wf())
    }
}

/// The message struct handed to the destination bridge contract's execution
/// call.  `message_type` is the wire tag; `data` is the raw payload for tag
/// `1` and the 32-byte amount field for tag `2`.
#[derive(Debug)]
pub struct ContractMessage {
    pub message_type: u8,
    pub from: Vec<u8>,
    pub to: Vec<u8>,
    pub origin_domain: u32,
    pub destination_domain: u32,
    pub data: Vec<u8>,
    pub id: u64,
}

/// Mathematical image of a `ContractMessage`.
pub struct ContractMessageView {
    pub message_type: u8,
    pub from: Seq<u8>,
    pub to: Seq<u8>,
    pub origin_domain: u32,
    pub destination_domain: u32,
    pub data: Seq<u8>,
    pub id: u64,
}

impl View for ContractMessage {
    type V = ContractMessageView;

    open spec fn view(&self) -> ContractMessageView {
        ContractMessageView {
            message_type: self.message_type,
            from: self.from@,
            to: self.to@,
            origin_domain: self.origin_domain,
            destination_domain: self.destination_domain,
            data: self.data@,
            id: self.id,
        }
    }
}

/// The structured input of the destination chain's Merkle verifier: the two
/// proof paths in order, the verbatim roots, and the indexes widened to the
/// destination numeric width.
#[derive(Debug)]
pub struct VerifierInput {
    pub data_root_proof: Vec<Vec<u8>>,
    pub leaf_proof: Vec<Vec<u8>>,
    pub range_hash: Vec<u8>,
    pub data_root_index: u64,
    pub blob_root: Vec<u8>,
    pub bridge_root: Vec<u8>,
    pub leaf: Vec<u8>,
    pub leaf_index: u64,
}

/// Mathematical image of a `VerifierInput`.
pub struct VerifierInputView {
    pub data_root_proof: Seq<Seq<u8>>,
    pub leaf_proof: Seq<Seq<u8>>,
    pub range_hash: Seq<u8>,
    pub data_root_index: u64,
    pub blob_root: Seq<u8>,
    pub bridge_root: Seq<u8>,
    pub leaf: Seq<u8>,
    pub leaf_index: u64,
}

impl View for VerifierInput {
    type V = VerifierInputView;

    open spec fn view(&self) -> VerifierInputView {
        VerifierInputView {
            data_root_proof: nested_bytes_view(self.data_root_proof@),
            leaf_proof: nested_bytes_view(self.leaf_proof@),
            range_hash: self.range_hash@,
            data_root_index: self.data_root_index,
            blob_root: self.blob_root@,
            bridge_root: self.bridge_root@,
            leaf: self.leaf@,
            leaf_index: self.leaf_index,
        }
    }
}

/// An account/storage proof pair as reported by the attestation service:
/// each entry is the ASCII text of a hexadecimal node, optionally prefixed
/// with `0x`.  Ordering is outermost-to-innermost and must be preserved.
#[derive(Debug)]
pub struct AccountStorageProof {
    pub account_proof: Vec<Vec<u8>>,
    pub storage_proof: Vec<Vec<u8>>,
}

/// The hex-decoded form of an `AccountStorageProof`, node for node.
#[derive(Debug)]
pub struct DecodedStorageProof {
    pub account_nodes: Vec<Vec<u8>>,
    pub storage_nodes: Vec<Vec<u8>>,
}

/// Runtime configuration of a bridging operation.  Loading it from disk and
/// parsing endpoints belong to the surrounding program; the core only reads
/// plain values out of it.
#[derive(Clone, Debug)]
pub struct Config {
    pub avail_rpc_url: String,
    pub avail_sender_mnemonic: String,
    pub ethereum_secret: String,
    pub bridge_api_url: String,
    pub ethereum_url: String,
    pub contract_address: String,
    pub message_data: String,
    pub amount_to_send: u64,
    pub recipient: String,
    pub receive_message_contract_address: String,
}

} // verus!
