//! Reshaping of attestation-service proof material into the exact structured
//! input the destination chain's verifier expects, and hex decoding of
//! textual account/storage proof nodes.

use vstd::prelude::*;

use crate::types::{
    AccountStorageProof, BridgeApiMerkleProof, BridgeError, DecodedStorageProof, VerifierInput,
};

verus! {

/// Whether `b` is the ASCII code of a hexadecimal digit.
pub open spec fn is_hex_digit(b: u8) -> bool {
    (0x30u8 <= b <= 0x39u8) || (0x61u8 <= b <= 0x66u8) || (0x41u8 <= b <= 0x46u8)
}

/// The numeric value of the ASCII hexadecimal digit `b`.
pub open spec fn hex_digit_value(b: u8) -> u8
    recommends
        is_hex_digit(b),
{
    if 0x30u8 <= b <= 0x39u8 {
        (b - 0x30u8) as u8
    } else if 0x61u8 <= b <= 0x66u8 {
        (b - 0x61u8 + 10) as u8
    } else {
        (b - 0x41u8 + 10) as u8
    }
}

/// The text without its optional leading `0x`.  At most one prefix is
/// stripped; a repeated prefix is not valid hexadecimal and is rejected by
/// the digit check instead.
pub open spec fn spec_strip_hex_prefix(s: Seq<u8>) -> Seq<u8> {
    if s.len() >= 2 && s[0] == 0x30u8 && s[1] == 0x78u8 {
        s.subrange(2, s.len() as int)
    } else {
        s
    }
}

/// Whether a prefix-stripped text is well-formed hexadecimal: an even number
/// of bytes, each one a hexadecimal digit.
pub open spec fn spec_is_hex_text(s: Seq<u8>) -> bool {
    s.len() % 2 == 0 && (forall|i: int| 0 <= i < s.len() ==> is_hex_digit(#[trigger] s[i]))
}

/// The bytes denoted by a well-formed hexadecimal text, two digits per byte.
pub open spec fn spec_hex_decode(s: Seq<u8>) -> Seq<u8>
    recommends
        spec_is_hex_text(s),
{
    Seq::new(
        s.len() / 2,
        |i: int| (hex_digit_value(s[2 * i]) * 16 + hex_digit_value(s[2 * i + 1])) as u8,
    )
}

/// Whether a textual node decodes successfully: after stripping an optional
/// `0x` prefix it must be well-formed hexadecimal.
pub open spec fn spec_node_valid(text: Seq<u8>) -> bool {
    spec_is_hex_text(spec_strip_hex_prefix(text))
}

/// The decoded bytes of a valid textual node.
pub open spec fn spec_node_decode(text: Seq<u8>) -> Seq<u8>
    recommends
        spec_node_valid(text),
{
    spec_hex_decode(spec_strip_hex_prefix(text))
}

fn hex_digit_val(b: u8) -> (r: Option<u8>)
    ensures
        r is Some <==> is_hex_digit(b),
        r matches Some(v) ==> v == hex_digit_value(b),
{
    if 0x30u8 <= b && b <= 0x39u8 {
        Some(b - 0x30u8)
    } else if 0x61u8 <= b && b <= 0x66u8 {
        Some(b - 0x61u8 + 10)
    } else if 0x41u8 <= b && b <= 0x46u8 {
        Some(b - 0x41u8 + 10)
    } else {
        None
    }
}

/// Hex-decodes one textual node, stripping an optional `0x` prefix.  Fails
/// with `InvalidHexEncoding` on an odd digit count or a non-digit byte.
pub fn hex_decode_node(text: &[u8]) -> (r: Result<Vec<u8>, BridgeError>)
    ensures
        r is Ok <==> spec_node_valid(text@),
        r matches Ok(bytes) ==> bytes@ == spec_node_decode(text@),
        r matches Err(e) ==> e == BridgeError::InvalidHexEncoding,
{
    let len: usize = text.len();
    let start: usize = if len >= 2 && text[0] == 0x30u8 && text[1] == 0x78u8 {
        2
    } else {
        0
    };
    let ghost stripped = spec_strip_hex_prefix(text@);
    proof {
        assert(stripped =~= text@.subrange(start as int, len as int));
    }
    let digits: usize = len - start;
    if digits % 2 != 0 {
        return Err(BridgeError::InvalidHexEncoding);
    }
    let mut out: Vec<u8> = Vec::new();
    let mut i: usize = 0;
    while i < digits / 2
        invariant
            stripped == spec_strip_hex_prefix(text@),
            stripped =~= text@.subrange(start as int, len as int),
            len == text@.len(),
            start + digits == len,
            digits % 2 == 0,
            i <= digits / 2,
            out@.len() == i,
            forall|j: int| 0 <= j < 2 * i ==> is_hex_digit(#[trigger] stripped[j]),
            forall|j: int|
                0 <= j < i ==> out@[j] == (hex_digit_value(stripped[2 * j]) * 16 + hex_digit_value(
                    stripped[2 * j + 1],
                )) as u8,
        decreases digits / 2 - i,
    {
        let hi = match hex_digit_val(text[start + 2 * i]) {
            Some(v) => v,
            None => {
                proof {
                    assert(stripped[2 * i as int] == text@[start as int + 2 * i]);
                    assert(!is_hex_digit(stripped[2 * i as int]));
                }
                return Err(BridgeError::InvalidHexEncoding);
            },
        };
        let lo = match hex_digit_val(text[start + 2 * i + 1]) {
            Some(v) => v,
            None => {
                proof {
                    assert(stripped[2 * i as int + 1] == text@[start as int + 2 * i + 1]);
                    assert(!is_hex_digit(stripped[2 * i as int + 1]));
                }
                return Err(BridgeError::InvalidHexEncoding);
            },
        };
        out.push(hi * 16 + lo);
        i = i + 1;
    }
    proof {
        assert(out@ =~= spec_hex_decode(stripped));
    }
    Ok(out)
}

/// Hex-decodes every node of an account/storage proof pair, preserving the
/// outermost-to-innermost order of both arrays.  Fails with
/// `InvalidHexEncoding` if any node is malformed.
pub fn decode_storage_proof(raw: &AccountStorageProof) -> (r: Result<
    DecodedStorageProof,
    BridgeError,
>)
    ensures
        r is Ok <==> ((forall|i: int|
            0 <= i < raw.account_proof@.len() ==> spec_node_valid(
                (#[trigger] raw.account_proof@[i])@,
            )) && (forall|i: int|
            0 <= i < raw.storage_proof@.len() ==> spec_node_valid(
                (#[trigger] raw.storage_proof@[i])@,
            ))),
        r matches Ok(d) ==> {
            &&& d.account_nodes@.len() == raw.account_proof@.len()
            &&& forall|i: int|
                0 <= i < raw.account_proof@.len() ==> (#[trigger] d.account_nodes@[i])@
                    == spec_node_decode(raw.account_proof@[i]@)
            &&& d.storage_nodes@.len() == raw.storage_proof@.len()
            &&& forall|i: int|
                0 <= i < raw.storage_proof@.len() ==> (#[trigger] d.storage_nodes@[i])@
                    == spec_node_decode(raw.storage_proof@[i]@)
        },
        r matches Err(e) ==> e == BridgeError::InvalidHexEncoding,
{
    let account_nodes = match decode_node_list(&raw.account_proof) {
        Ok(nodes) => nodes,
        Err(e) => {
            return Err(e);
        },
    };
    let storage_nodes = match decode_node_list(&raw.storage_proof) {
        Ok(nodes) => nodes,
        Err(e) => {
            return Err(e);
        },
    };
    Ok(DecodedStorageProof { account_nodes, storage_nodes })
}

fn decode_node_list(list: &Vec<Vec<u8>>) -> (r: Result<Vec<Vec<u8>>, BridgeError>)
    ensures
        r is Ok <==> (forall|i: int|
            0 <= i < list@.len() ==> spec_node_valid((#[trigger] list@[i])@)),
        r matches Ok(nodes) ==> {
            &&& nodes@.len() == list@.len()
            &&& forall|i: int|
                0 <= i < list@.len() ==> (#[trigger] nodes@[i])@ == spec_node_decode(list@[i]@)
        },
        r matches Err(e) ==> e == BridgeError::InvalidHexEncoding,
{
    let mut nodes: Vec<Vec<u8>> = Vec::new();
    let mut i: usize = 0;
    while i < list.len()
        invariant
            i <= list@.len(),
            nodes@.len() == i,
            forall|j: int| 0 <= j < i ==> spec_node_valid((#[trigger] list@[j])@),
            forall|j: int| 0 <= j < i ==> (#[trigger] nodes@[j])@ == spec_node_decode(list@[j]@),
        decreases list@.len() - i,
    {
        let node = match hex_decode_node(list[i].as_slice()) {
            Ok(node) => node,
            Err(e) => {
                return Err(e);
            },
        };
        nodes.push(node);
        i = i + 1;
    }
    Ok(nodes)
}

/// Reshapes a proof bundle into the destination verifier's input: the two
/// proof paths copied positionally (outer-to-inner, root-adjacent element
/// first), the roots and leaf verbatim, and the indexes widened to the
/// destination numeric width.  Fails with `EmptyProof` if either proof path
/// is empty: a zero-length proof can never validate and indicates an
/// upstream fetch error.
pub fn to_verifier_input(bundle: BridgeApiMerkleProof) -> (r: Result<VerifierInput, BridgeError>)
    ensures
        (bundle@.data_root_proof.len() == 0 || bundle@.leaf_proof.len() == 0) <==> (r matches Err(e)
            && e == BridgeError::EmptyProof),
        r is Err ==> (r matches Err(e) && e == BridgeError::EmptyProof),
        r matches Ok(v) ==> {
            &&& v@.data_root_proof == bundle@.data_root_proof
            &&& v@.leaf_proof == bundle@.leaf_proof
            &&& forall|i: int|
                0 <= i < bundle@.data_root_proof.len() ==> #[trigger] v@.data_root_proof[i]
                    == bundle@.data_root_proof[i]
            &&& forall|i: int|
                0 <= i < bundle@.leaf_proof.len() ==> #[trigger] v@.leaf_proof[i]
                    == bundle@.leaf_proof[i]
            &&& v@.range_hash == bundle@.range_hash
            &&& v@.blob_root == bundle@.blob_root
            &&& v@.bridge_root == bundle@.bridge_root
            &&& v@.leaf == bundle@.leaf
            &&& v@.data_root_index == bundle@.data_root_index as u64
            &&& v@.leaf_index == bundle@.leaf_index as u64
        },
{
    if bundle.data_root_proof.len() == 0 || bundle.leaf_proof.len() == 0 {
        return Err(BridgeError::EmptyProof);
    }
    let BridgeApiMerkleProof {
        blob_root,
        block_hash: _,
        bridge_root,
        data_root: _,
        data_root_commitment: _,
        data_root_index,
        data_root_proof,
        leaf,
        leaf_index,
        leaf_proof,
        message: _,
        range_hash,
    } = bundle;
    Ok(
        VerifierInput {
            data_root_proof,
            leaf_proof,
            range_hash,
            data_root_index: data_root_index as u64,
            blob_root,
            bridge_root,
            leaf,
            leaf_index: leaf_index as u64,
        },
    )
}

} // verus!
