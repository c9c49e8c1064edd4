//! Bidirectional mapping between the DA chain's addressed-message
//! representation and the destination bridge contract's message struct.

use vstd::prelude::*;

use crate::amount::{amount_to_field, spec_amount_to_field};
use crate::types::{
    AddressedMessage, BridgeApiMerkleProof, BridgeError, ContractMessage, MessagePayload,
    MessagePayloadView,
};

verus! {

/// Maximum length in bytes of an arbitrary payload accepted by the
/// destination format's bounded byte vector.
pub const MAX_ARBITRARY_PAYLOAD_LEN: usize = 102400;

/// Normalises an addressed message into its destination form.  An arbitrary
/// payload must fit the destination format's bound; rather than silently
/// truncating, an oversize payload is rejected with `PayloadTooLarge`.  A
/// fungible-token transfer and all envelope fields pass through unchanged.
pub fn convert_addressed_message(message: AddressedMessage) -> (r: Result<
    AddressedMessage,
    BridgeError,
>)
    ensures
        (match message@.message {
            MessagePayloadView::ArbitraryMessage(data) => data.len() <= MAX_ARBITRARY_PAYLOAD_LEN,
            MessagePayloadView::FungibleToken { .. } => true,
        }) ==> (r matches Ok(m) && m@ == message@),
        (match message@.message {
            MessagePayloadView::ArbitraryMessage(data) => data.len() > MAX_ARBITRARY_PAYLOAD_LEN,
            MessagePayloadView::FungibleToken { .. } => false,
        }) <==> (r matches Err(e) && e == BridgeError::PayloadTooLarge),
{
    let AddressedMessage { message: payload, from, to, origin_domain, destination_domain, id } =
        message;
    match payload {
        MessagePayload::ArbitraryMessage(data) => {
            if data.len() > MAX_ARBITRARY_PAYLOAD_LEN {
                Err(BridgeError::PayloadTooLarge)
            } else {
                Ok(
                    AddressedMessage {
                        message: MessagePayload::ArbitraryMessage(data),
                        from,
                        to,
                        origin_domain,
                        destination_domain,
                        id,
                    },
                )
            }
        },
        MessagePayload::FungibleToken { asset_id, amount } => {
            Ok(
                AddressedMessage {
                    message: MessagePayload::FungibleToken { asset_id, amount },
                    from,
                    to,
                    origin_domain,
                    destination_domain,
                    id,
                },
            )
        },
    }
}

/// Derives the destination contract's execution-call message from a proof
/// bundle.  Fails with `MessageMissing` when the bundle proves bare blob
/// inclusion and carries no message; callers branch on proof kind first.
///
/// The wire tag round-trips exactly: `message_type` is `1` for an arbitrary
/// payload, whose bytes become `data` unchanged, and `2` for a
/// fungible-token transfer, whose amount becomes the 32-byte amount field.
/// The `asset_id` is not part of `data`: the destination verifier's
/// fixed-size data field has no room for it, and the destination contract
/// assumes type-2 messages always move the native asset.
pub fn to_contract_call_message(bundle: BridgeApiMerkleProof) -> (r: Result<
    ContractMessage,
    BridgeError,
>)
    ensures
        bundle@.message is None <==> (r matches Err(e) && e == BridgeError::MessageMissing),
        r is Err ==> (r matches Err(e) && e == BridgeError::MessageMissing),
        bundle@.message matches Some(m) ==> (r matches Ok(c) && {
            &&& c@.message_type == m.message.tag()
            &&& c@.from == m.from
            &&& c@.to == m.to
            &&& c@.origin_domain == m.origin_domain
            &&& c@.destination_domain == m.destination_domain
            &&& c@.id == m.id
            &&& c@.data == (match m.message {
                MessagePayloadView::ArbitraryMessage(data) => data,
                MessagePayloadView::FungibleToken { amount, .. } => spec_amount_to_field(amount),
            })
        }),
{
    let message = match bundle.message {
        Some(message) => message,
        None => {
            return Err(BridgeError::MessageMissing);
        },
    };
    let AddressedMessage { message: payload, from, to, origin_domain, destination_domain, id } =
        message;
    let (message_type, data): (u8, Vec<u8>) = match payload {
        MessagePayload::ArbitraryMessage(data) => (1u8, data),
        MessagePayload::FungibleToken { asset_id: _, amount } => (2u8, amount_to_field(amount)),
    };
    Ok(ContractMessage { message_type, from, to, origin_domain, destination_domain, data, id })
}

} // verus!
