use bridge_core::address::address_to_h256;
use bridge_core::amount::{amount_to_field, enc_amount_to_value, enc_value_to_amount, field_to_amount};
use bridge_core::assembler::{decode_storage_proof, hex_decode_node, to_verifier_input};
use bridge_core::finality::{FinalitySync, HeadRange, SyncState, POLL_INTERVAL_SECS};
use bridge_core::logdata::extract_message_id;
use bridge_core::message::{convert_addressed_message, to_contract_call_message, MAX_ARBITRARY_PAYLOAD_LEN};
use bridge_core::types::{
    AccountStorageProof, AddressedMessage, BridgeApiMerkleProof, BridgeError, Config,
    MessagePayload,
};

fn hash(fill: u8) -> Vec<u8> {
    vec![fill; 32]
}

fn sample_message(payload: MessagePayload) -> AddressedMessage {
    AddressedMessage {
        message: payload,
        from: hash(0xaa),
        to: hash(0xbb),
        origin_domain: 2,
        destination_domain: 1,
        id: 42,
    }
}

fn sample_bundle(message: Option<AddressedMessage>) -> BridgeApiMerkleProof {
    BridgeApiMerkleProof {
        blob_root: hash(1),
        block_hash: hash(2),
        bridge_root: hash(3),
        data_root: hash(4),
        data_root_commitment: hash(5),
        data_root_index: 7,
        data_root_proof: vec![hash(0x10), hash(0x11), hash(0x12)],
        leaf: hash(6),
        leaf_index: 9,
        leaf_proof: vec![hash(0x20), hash(0x21)],
        message,
        range_hash: hash(8),
    }
}

#[test]
fn amount_field_round_trip_small() {
    assert_eq!(field_to_amount(&amount_to_field(0)), 0);
    assert_eq!(field_to_amount(&amount_to_field(1)), 1);
    assert_eq!(field_to_amount(&amount_to_field(100000)), 100000);
}

#[test]
fn amount_field_round_trip_extremes() {
    assert_eq!(field_to_amount(&amount_to_field(u128::MAX)), u128::MAX);
    let v = 0x0102_0304_0506_0708_090a_0b0c_0d0e_0f10u128;
    assert_eq!(field_to_amount(&amount_to_field(v)), v);
}

#[test]
fn amount_field_exact_bytes() {
    let f = amount_to_field(0x0102);
    assert_eq!(f.len(), 32);
    assert_eq!(&f[..30], &[0u8; 30][..]);
    assert_eq!(f[30], 1);
    assert_eq!(f[31], 2);
}

#[test]
fn amount_field_ignores_high_bytes_on_decode() {
    let mut f = amount_to_field(5);
    f[0] = 0xff;
    assert_eq!(field_to_amount(&f), 5);
}

#[test]
fn enc_value_round_trip() {
    assert_eq!(enc_value_to_amount(&enc_amount_to_value(0)), 0);
    assert_eq!(enc_value_to_amount(&enc_amount_to_value(100000)), 100000);
    assert_eq!(enc_value_to_amount(&enc_amount_to_value(u128::MAX)), u128::MAX);
}

#[test]
fn enc_amount_exact_bytes() {
    let v = enc_amount_to_value(7);
    assert_eq!(v.len(), 64);
    assert_eq!(&v[..63], &[0u8; 63][..]);
    assert_eq!(v[63], 7);
}

#[test]
fn address_canonical_form() {
    let addr: Vec<u8> = (0u8..20).collect();
    let canonical = address_to_h256(&addr);
    assert_eq!(canonical.len(), 32);
    assert_eq!(&canonical[..20], &addr[..]);
    assert_eq!(&canonical[20..], &[0u8; 12][..]);
}

#[test]
fn convert_keeps_small_arbitrary_message() {
    let msg = sample_message(MessagePayload::ArbitraryMessage(vec![1, 2, 3]));
    let out = convert_addressed_message(msg).unwrap();
    match out.message {
        MessagePayload::ArbitraryMessage(data) => assert_eq!(data, vec![1, 2, 3]),
        MessagePayload::FungibleToken { .. } => panic!("variant changed"),
    }
    assert_eq!(out.from, hash(0xaa));
    assert_eq!(out.to, hash(0xbb));
    assert_eq!(out.origin_domain, 2);
    assert_eq!(out.destination_domain, 1);
    assert_eq!(out.id, 42);
}

#[test]
fn convert_rejects_oversize_arbitrary_message() {
    let msg = sample_message(MessagePayload::ArbitraryMessage(vec![
        0;
        MAX_ARBITRARY_PAYLOAD_LEN + 1
    ]));
    assert_eq!(convert_addressed_message(msg).unwrap_err(), BridgeError::PayloadTooLarge);
}

#[test]
fn convert_keeps_fungible_token() {
    let msg = sample_message(MessagePayload::FungibleToken {
        asset_id: hash(0),
        amount: 100000,
    });
    let out = convert_addressed_message(msg).unwrap();
    match out.message {
        MessagePayload::FungibleToken { asset_id, amount } => {
            assert_eq!(asset_id, hash(0));
            assert_eq!(amount, 100000);
        }
        MessagePayload::ArbitraryMessage(_) => panic!("variant changed"),
    }
}

#[test]
fn contract_message_tag_arbitrary() {
    let msg = sample_message(MessagePayload::ArbitraryMessage(vec![9, 8, 7]));
    let bundle = sample_bundle(Some(msg));
    let call = to_contract_call_message(bundle).unwrap();
    assert_eq!(call.message_type, 1);
    assert_eq!(call.data, vec![9, 8, 7]);
    assert_eq!(call.from, hash(0xaa));
    assert_eq!(call.to, hash(0xbb));
    assert_eq!(call.origin_domain, 2);
    assert_eq!(call.destination_domain, 1);
    assert_eq!(call.id, 42);
}

#[test]
fn contract_message_tag_fungible() {
    let msg = sample_message(MessagePayload::FungibleToken {
        asset_id: hash(0xcc),
        amount: 0x0102,
    });
    let bundle = sample_bundle(Some(msg));
    let call = to_contract_call_message(bundle).unwrap();
    assert_eq!(call.message_type, 2);
    // The asset id is dropped: the data field is the 32-byte amount field.
    assert_eq!(call.data, amount_to_field(0x0102));
}

#[test]
fn contract_message_missing() {
    let bundle = sample_bundle(None);
    assert_eq!(to_contract_call_message(bundle).unwrap_err(), BridgeError::MessageMissing);
}

#[test]
fn verifier_input_positional_copy() {
    let bundle = sample_bundle(None);
    let input = to_verifier_input(bundle).unwrap();
    assert_eq!(input.data_root_proof, vec![hash(0x10), hash(0x11), hash(0x12)]);
    assert_eq!(input.leaf_proof, vec![hash(0x20), hash(0x21)]);
    for (i, node) in input.data_root_proof.iter().enumerate() {
        assert_eq!(node, &vec![0x10 + i as u8; 32]);
    }
    assert_eq!(input.range_hash, hash(8));
    assert_eq!(input.blob_root, hash(1));
    assert_eq!(input.bridge_root, hash(3));
    assert_eq!(input.leaf, hash(6));
    assert_eq!(input.data_root_index, 7);
    assert_eq!(input.leaf_index, 9);
}

#[test]
fn verifier_input_empty_proof() {
    let mut bundle = sample_bundle(None);
    bundle.data_root_proof = Vec::new();
    assert_eq!(to_verifier_input(bundle).unwrap_err(), BridgeError::EmptyProof);
    let mut bundle = sample_bundle(None);
    bundle.leaf_proof = Vec::new();
    assert_eq!(to_verifier_input(bundle).unwrap_err(), BridgeError::EmptyProof);
}

#[test]
fn storage_proof_decodes_prefixed_nodes() {
    let raw = AccountStorageProof {
        account_proof: vec![b"0xab".to_vec(), b"0xcd".to_vec()],
        storage_proof: vec![b"0x0102".to_vec()],
    };
    let decoded = decode_storage_proof(&raw).unwrap();
    assert_eq!(decoded.account_nodes, vec![vec![0xab], vec![0xcd]]);
    assert_eq!(decoded.storage_nodes, vec![vec![0x01, 0x02]]);
}

#[test]
fn storage_proof_decodes_unprefixed_node() {
    let raw = AccountStorageProof {
        account_proof: vec![b"ab".to_vec()],
        storage_proof: Vec::new(),
    };
    let decoded = decode_storage_proof(&raw).unwrap();
    assert_eq!(decoded.account_nodes, vec![vec![0xab]]);
    assert_eq!(decoded.storage_nodes, Vec::<Vec<u8>>::new());
}

#[test]
fn storage_proof_rejects_bad_hex() {
    let raw = AccountStorageProof {
        account_proof: vec![b"0xzz".to_vec()],
        storage_proof: Vec::new(),
    };
    assert_eq!(decode_storage_proof(&raw).unwrap_err(), BridgeError::InvalidHexEncoding);
    let raw = AccountStorageProof {
        account_proof: Vec::new(),
        storage_proof: vec![b"0xabc".to_vec()],
    };
    assert_eq!(decode_storage_proof(&raw).unwrap_err(), BridgeError::InvalidHexEncoding);
}

#[test]
fn hex_node_mixed_case_and_empty() {
    assert_eq!(hex_decode_node(b"0xAbCd").unwrap(), vec![0xab, 0xcd]);
    assert_eq!(hex_decode_node(b"").unwrap(), Vec::<u8>::new());
    assert_eq!(hex_decode_node(b"0x").unwrap(), Vec::<u8>::new());
}

#[test]
fn hex_node_strips_at_most_one_prefix() {
    assert_eq!(hex_decode_node(b"0x0xab").unwrap_err(), BridgeError::InvalidHexEncoding);
}

#[test]
fn finality_found_at_range_start() {
    let sync = FinalitySync::new(100);
    let range = HeadRange { start: 100, end: 200 };
    assert_eq!(sync.observe(range).state, SyncState::Found { range });
}

#[test]
fn finality_found_at_range_end() {
    let sync = FinalitySync::new(200);
    let range = HeadRange { start: 100, end: 200 };
    assert_eq!(sync.observe(range).state, SyncState::Found { range });
}

#[test]
fn finality_polling_below_range_start() {
    let sync = FinalitySync::new(99);
    let range = HeadRange { start: 100, end: 200 };
    assert_eq!(sync.observe(range).state, SyncState::Polling);
}

#[test]
fn finality_polling_above_range_end() {
    let sync = FinalitySync::new(201);
    let range = HeadRange { start: 100, end: 200 };
    assert_eq!(sync.observe(range).state, SyncState::Polling);
}

#[test]
fn finality_found_is_terminal() {
    let sync = FinalitySync::new(100);
    let range = HeadRange { start: 50, end: 150 };
    let found = sync.observe(range);
    let after = found.observe(HeadRange { start: 400, end: 500 });
    assert_eq!(after.state, SyncState::Found { range });
}

#[test]
fn finality_resolved_height_direction() {
    let sync = FinalitySync::new(100);
    assert_eq!(
        sync.observe_resolved_height(100).state,
        SyncState::Found { range: HeadRange { start: 0, end: 100 } }
    );
    assert_eq!(sync.observe_resolved_height(99).state, SyncState::Polling);
    assert_eq!(POLL_INTERVAL_SECS, 60);
}

#[test]
fn message_id_from_zero_word_with_seven() {
    let mut word = vec![0u8; 32];
    word[31] = 7;
    assert_eq!(extract_message_id(&vec![word]).unwrap(), 7);
}

#[test]
fn message_id_big_endian_weighting() {
    let mut word = vec![0u8; 32];
    word[30] = 1;
    word[31] = 7;
    assert_eq!(extract_message_id(&vec![word]).unwrap(), 263);
}

#[test]
fn message_id_no_logs() {
    assert_eq!(extract_message_id(&Vec::new()).unwrap_err(), BridgeError::NoLogsEmitted);
}

#[test]
fn message_id_short_payload() {
    let word = vec![0u8; 31];
    assert_eq!(extract_message_id(&vec![word]).unwrap_err(), BridgeError::LogMalformed);
}

#[test]
fn config_carries_plain_values() {
    let config = Config {
        avail_rpc_url: "ws://127.0.0.1:9944".to_string(),
        avail_sender_mnemonic: "//Alice".to_string(),
        ethereum_secret: "test-seed".to_string(),
        bridge_api_url: "http://127.0.0.1:8080".to_string(),
        ethereum_url: "http://127.0.0.1:8545".to_string(),
        contract_address: "0x0000000000000000000000000000000000000001".to_string(),
        message_data: "hello".to_string(),
        amount_to_send: 100000,
        recipient: "0x0000000000000000000000000000000000000002".to_string(),
        receive_message_contract_address: "0x0000000000000000000000000000000000000003".to_string(),
    };
    let copy = config.clone();
    assert_eq!(copy.amount_to_send, 100000);
    assert_eq!(copy.message_data, "hello");
}
