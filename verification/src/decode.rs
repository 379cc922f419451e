//! The message decoder: interprets a raw transport message, a
//! discriminator string plus an untyped JSON body, against the payload
//! schema.
//!
//! A malformed or unrecognized message degrades that one message only:
//! the decoder returns the offending input for diagnostics and never
//! fails fatally.

use vstd::prelude::*;
use crate::json::{JsonValue, JsonField, body_model, lookup_str, lookup_num, get_str, get_num_text};
use crate::number::{canonical_u64, dec_val, parse_u64};
use crate::protocol::{Event, spec_discriminator};
use crate::schema::{
    CollectionOfferData,
    ItemCancelledData,
    ItemListedData,
    ItemMetadataUpdatedData,
    ItemReceivedOfferData,
    ItemSoldData,
    ItemTransferredData,
    Payload,
    PayloadModel,
    StreamEvent,
    StreamEventModel,
    TraitOfferData,
    wf_stream_event,
};

verus! {

/// The per-message outcome of a failed decode. Neither case is fatal to
/// the channel: the offending input is handed back for diagnostics.
#[derive(Debug, PartialEq)]
pub enum DecodeError {
    /// The discriminator names no known payload shape. Informational:
    /// a caller may ignore or log it.
    UnknownDiscriminator {
        /// The unrecognized discriminator.
        discriminator: String,
        /// The undecoded body, returned unchanged.
        body: JsonValue,
    },
    /// The body lacks a required field of the declared shape, or a
    /// required field has the wrong kind of value.
    MalformedPayload {
        /// The event kind the message declared.
        event: Event,
        /// The undecoded body, returned unchanged.
        body: JsonValue,
    },
}

/// The event kind a received discriminator names, `None` for an
/// unrecognized one. The subscribe-time wildcard is deliberately not
/// recognized: it must never appear as a payload tag, so a transport
/// that echoes it back is treated as unrecognized.
pub open spec fn event_of_discriminator(d: Seq<char>) -> Option<Event> {
    if d == spec_discriminator(Event::ItemListed) {
        Some(Event::ItemListed)
    } else if d == spec_discriminator(Event::ItemSold) {
        Some(Event::ItemSold)
    } else if d == spec_discriminator(Event::ItemTransferred) {
        Some(Event::ItemTransferred)
    } else if d == spec_discriminator(Event::ItemMetadataUpdated) {
        Some(Event::ItemMetadataUpdated)
    } else if d == spec_discriminator(Event::ItemCancelled) {
        Some(Event::ItemCancelled)
    } else if d == spec_discriminator(Event::ItemReceivedOffer) {
        Some(Event::ItemReceivedOffer)
    } else if d == spec_discriminator(Event::CollectionOffer) {
        Some(Event::CollectionOffer)
    } else if d == spec_discriminator(Event::TraitOffer) {
        Some(Event::TraitOffer)
    } else {
        None
    }
}

fn str_eq(a: &str, b: &str) -> (r: bool)
    ensures
        r == (a@ == b@),
{
    let sa: String = a.to_owned();
    let sb: String = b.to_owned();
    sa == sb
}

/// Looks a received discriminator up in the event table.
pub fn lookup_event(discriminator: &str) -> (r: Option<Event>)
    ensures
        r == event_of_discriminator(discriminator@),
{
    if str_eq(discriminator, "item_listed") {
        Some(Event::ItemListed)
    } else if str_eq(discriminator, "item_sold") {
        Some(Event::ItemSold)
    } else if str_eq(discriminator, "item_transferred") {
        Some(Event::ItemTransferred)
    } else if str_eq(discriminator, "item_metadata_updated") {
        Some(Event::ItemMetadataUpdated)
    } else if str_eq(discriminator, "item_cancelled") {
        Some(Event::ItemCancelled)
    } else if str_eq(discriminator, "item_received_offer") {
        Some(Event::ItemReceivedOffer)
    } else if str_eq(discriminator, "collection_offer") {
        Some(Event::CollectionOffer)
    } else if str_eq(discriminator, "trait_offer") {
        Some(Event::TraitOffer)
    } else {
        None
    }
}

/// The value of a numeric field holding canonical decimal text, `None`
/// otherwise.
pub open spec fn lookup_u64(b: Option<Map<Seq<char>, JsonField>>, k: Seq<char>) -> Option<u64> {
    match lookup_num(b, k) {
        Some(t) => if canonical_u64(t) {
            Some(dec_val(t) as u64)
        } else {
            None
        },
        None => None,
    }
}

/// Looks up a numeric field and parses its canonical decimal text.
fn get_u64(v: &JsonValue, name: &str) -> (r: Option<u64>)
    ensures
        r == lookup_u64(body_model(*v), name@),
{
    match get_num_text(v, name) {
        Some(t) => parse_u64(t.as_str()),
        None => None,
    }
}

/// The item-listed record a body decodes to, when every required field
/// is present with the right kind.
pub open spec fn spec_item_listed(b: Option<Map<Seq<char>, JsonField>>) -> Option<PayloadModel> {
    if {
        &&& lookup_str(b, "item_id"@) is Some
        &&& lookup_str(b, "collection_slug"@) is Some
        &&& lookup_str(b, "maker"@) is Some
        &&& lookup_str(b, "base_price"@) is Some
        &&& lookup_str(b, "listing_date"@) is Some
    } {
        Some(
            PayloadModel::ItemListed {
                item_id: lookup_str(b, "item_id"@)->0,
                collection_slug: lookup_str(b, "collection_slug"@)->0,
                maker: lookup_str(b, "maker"@)->0,
                base_price: lookup_str(b, "base_price"@)->0,
                listing_date: lookup_str(b, "listing_date"@)->0,
            },
        )
    } else {
        None
    }
}

/// The item-transferred record a body decodes to.
pub open spec fn spec_item_transferred(b: Option<Map<Seq<char>, JsonField>>) -> Option<
    PayloadModel,
> {
    if {
        &&& lookup_str(b, "item_id"@) is Some
        &&& lookup_str(b, "collection_slug"@) is Some
        &&& lookup_str(b, "from_address"@) is Some
        &&& lookup_str(b, "to_address"@) is Some
        &&& lookup_u64(b, "quantity"@) is Some
        &&& lookup_str(b, "transaction_hash"@) is Some
    } {
        Some(
            PayloadModel::ItemTransferred {
                item_id: lookup_str(b, "item_id"@)->0,
                collection_slug: lookup_str(b, "collection_slug"@)->0,
                from_address: lookup_str(b, "from_address"@)->0,
                to_address: lookup_str(b, "to_address"@)->0,
                quantity: lookup_u64(b, "quantity"@)->0,
                transaction_hash: lookup_str(b, "transaction_hash"@)->0,
            },
        )
    } else {
        None
    }
}

/// The item-sold record a body decodes to.
pub open spec fn spec_item_sold(b: Option<Map<Seq<char>, JsonField>>) -> Option<PayloadModel> {
    if {
        &&& lookup_str(b, "item_id"@) is Some
        &&& lookup_str(b, "collection_slug"@) is Some
        &&& lookup_str(b, "maker"@) is Some
        &&& lookup_str(b, "taker"@) is Some
        &&& lookup_str(b, "sale_price"@) is Some
        &&& lookup_str(b, "transaction_hash"@) is Some
    } {
        Some(
            PayloadModel::ItemSold {
                item_id: lookup_str(b, "item_id"@)->0,
                collection_slug: lookup_str(b, "collection_slug"@)->0,
                maker: lookup_str(b, "maker"@)->0,
                taker: lookup_str(b, "taker"@)->0,
                sale_price: lookup_str(b, "sale_price"@)->0,
                transaction_hash: lookup_str(b, "transaction_hash"@)->0,
            },
        )
    } else {
        None
    }
}

/// The item-metadata-updated record a body decodes to.
pub open spec fn spec_item_metadata_updated(b: Option<Map<Seq<char>, JsonField>>) -> Option<
    PayloadModel,
> {
    if {
        &&& lookup_str(b, "item_id"@) is Some
        &&& lookup_str(b, "collection_slug"@) is Some
        &&& lookup_str(b, "name"@) is Some
        &&& lookup_str(b, "token_uri"@) is Some
    } {
        Some(
            PayloadModel::ItemMetadataUpdated {
                item_id: lookup_str(b, "item_id"@)->0,
                collection_slug: lookup_str(b, "collection_slug"@)->0,
                name: lookup_str(b, "name"@)->0,
                token_uri: lookup_str(b, "token_uri"@)->0,
            },
        )
    } else {
        None
    }
}

/// The item-cancelled record a body decodes to.
pub open spec fn spec_item_cancelled(b: Option<Map<Seq<char>, JsonField>>) -> Option<
    PayloadModel,
> {
    if {
        &&& lookup_str(b, "item_id"@) is Some
        &&& lookup_str(b, "collection_slug"@) is Some
        &&& lookup_str(b, "listing_type"@) is Some
    } {
        Some(
            PayloadModel::ItemCancelled {
                item_id: lookup_str(b, "item_id"@)->0,
                collection_slug: lookup_str(b, "collection_slug"@)->0,
                listing_type: lookup_str(b, "listing_type"@)->0,
            },
        )
    } else {
        None
    }
}

/// The item-received-offer record a body decodes to.
pub open spec fn spec_item_received_offer(b: Option<Map<Seq<char>, JsonField>>) -> Option<
    PayloadModel,
> {
    if {
        &&& lookup_str(b, "item_id"@) is Some
        &&& lookup_str(b, "collection_slug"@) is Some
        &&& lookup_str(b, "maker"@) is Some
        &&& lookup_str(b, "offer_price"@) is Some
        &&& lookup_str(b, "expiration_date"@) is Some
    } {
        Some(
            PayloadModel::ItemReceivedOffer {
                item_id: lookup_str(b, "item_id"@)->0,
                collection_slug: lookup_str(b, "collection_slug"@)->0,
                maker: lookup_str(b, "maker"@)->0,
                offer_price: lookup_str(b, "offer_price"@)->0,
                expiration_date: lookup_str(b, "expiration_date"@)->0,
            },
        )
    } else {
        None
    }
}

/// The collection-offer record a body decodes to.
pub open spec fn spec_collection_offer(b: Option<Map<Seq<char>, JsonField>>) -> Option<
    PayloadModel,
> {
    if {
        &&& lookup_str(b, "collection_slug"@) is Some
        &&& lookup_str(b, "maker"@) is Some
        &&& lookup_str(b, "offer_price"@) is Some
        &&& lookup_u64(b, "quantity"@) is Some
        &&& lookup_str(b, "order_hash"@) is Some
    } {
        Some(
            PayloadModel::CollectionOffer {
                collection_slug: lookup_str(b, "collection_slug"@)->0,
                maker: lookup_str(b, "maker"@)->0,
                offer_price: lookup_str(b, "offer_price"@)->0,
                quantity: lookup_u64(b, "quantity"@)->0,
                order_hash: lookup_str(b, "order_hash"@)->0,
            },
        )
    } else {
        None
    }
}

/// The trait-offer record a body decodes to.
pub open spec fn spec_trait_offer(b: Option<Map<Seq<char>, JsonField>>) -> Option<PayloadModel> {
    if {
        &&& lookup_str(b, "collection_slug"@) is Some
        &&& lookup_str(b, "maker"@) is Some
        &&& lookup_str(b, "offer_price"@) is Some
        &&& lookup_str(b, "trait_name"@) is Some
        &&& lookup_str(b, "trait_value"@) is Some
    } {
        Some(
            PayloadModel::TraitOffer {
                collection_slug: lookup_str(b, "collection_slug"@)->0,
                maker: lookup_str(b, "maker"@)->0,
                offer_price: lookup_str(b, "offer_price"@)->0,
                trait_name: lookup_str(b, "trait_name"@)->0,
                trait_value: lookup_str(b, "trait_value"@)->0,
            },
        )
    } else {
        None
    }
}

fn decode_item_listed(body: JsonValue) -> (r: Result<StreamEvent, DecodeError>)
    ensures
        match r {
            Ok(ev) => {
                &&& spec_item_listed(body_model(body)) == Some(ev@.payload)
                &&& ev@.event == Event::ItemListed
            },
            Err(e) => {
                &&& e matches DecodeError::MalformedPayload { event, body: b2 }
                &&& (e matches DecodeError::MalformedPayload { event, body: b2 } ==> event
                    == Event::ItemListed && b2 == body)
                &&& spec_item_listed(body_model(body)) is None
            },
        },
{
    let item_id: String = match get_str(&body, "item_id") {
        Some(s) => s.clone(),
        None => {
            return Err(DecodeError::MalformedPayload { event: Event::ItemListed, body });
        },
    };
    let collection_slug: String = match get_str(&body, "collection_slug") {
        Some(s) => s.clone(),
        None => {
            return Err(DecodeError::MalformedPayload { event: Event::ItemListed, body });
        },
    };
    let maker: String = match get_str(&body, "maker") {
        Some(s) => s.clone(),
        None => {
            return Err(DecodeError::MalformedPayload { event: Event::ItemListed, body });
        },
    };
    let base_price: String = match get_str(&body, "base_price") {
        Some(s) => s.clone(),
        None => {
            return Err(DecodeError::MalformedPayload { event: Event::ItemListed, body });
        },
    };
    let listing_date: String = match get_str(&body, "listing_date") {
        Some(s) => s.clone(),
        None => {
            return Err(DecodeError::MalformedPayload { event: Event::ItemListed, body });
        },
    };
    let ev = StreamEvent {
        event: Event::ItemListed,
        payload: Payload::ItemListed(
            ItemListedData { item_id, collection_slug, maker, base_price, listing_date },
        ),
    };
    proof {
        assert(spec_item_listed(body_model(body))->0 =~= ev@.payload);
    }
    Ok(ev)
}

fn decode_item_transferred(body: JsonValue) -> (r: Result<StreamEvent, DecodeError>)
    ensures
        match r {
            Ok(ev) => {
                &&& spec_item_transferred(body_model(body)) == Some(ev@.payload)
                &&& ev@.event == Event::ItemTransferred
            },
            Err(e) => {
                &&& e matches DecodeError::MalformedPayload { event, body: b2 }
                &&& (e matches DecodeError::MalformedPayload { event, body: b2 } ==> event
                    == Event::ItemTransferred && b2 == body)
                &&& spec_item_transferred(body_model(body)) is None
            },
        },
{
    let item_id: String = match get_str(&body, "item_id") {
        Some(s) => s.clone(),
        None => {
            return Err(DecodeError::MalformedPayload { event: Event::ItemTransferred, body });
        },
    };
    let collection_slug: String = match get_str(&body, "collection_slug") {
        Some(s) => s.clone(),
        None => {
            return Err(DecodeError::MalformedPayload { event: Event::ItemTransferred, body });
        },
    };
    let from_address: String = match get_str(&body, "from_address") {
        Some(s) => s.clone(),
        None => {
            return Err(DecodeError::MalformedPayload { event: Event::ItemTransferred, body });
        },
    };
    let to_address: String = match get_str(&body, "to_address") {
        Some(s) => s.clone(),
        None => {
            return Err(DecodeError::MalformedPayload { event: Event::ItemTransferred, body });
        },
    };
    let quantity: u64 = match get_u64(&body, "quantity") {
        Some(n) => n,
        None => {
            return Err(DecodeError::MalformedPayload { event: Event::ItemTransferred, body });
        },
    };
    let transaction_hash: String = match get_str(&body, "transaction_hash") {
        Some(s) => s.clone(),
        None => {
            return Err(DecodeError::MalformedPayload { event: Event::ItemTransferred, body });
        },
    };
    let ev = StreamEvent {
        event: Event::ItemTransferred,
        payload: Payload::ItemTransferred(
            ItemTransferredData {
                item_id,
                collection_slug,
                from_address,
                to_address,
                quantity,
                transaction_hash,
            },
        ),
    };
    proof {
        assert(spec_item_transferred(body_model(body))->0 =~= ev@.payload);
    }
    Ok(ev)
}

fn decode_item_sold(body: JsonValue) -> (r: Result<StreamEvent, DecodeError>)
    ensures
        match r {
            Ok(ev) => {
                &&& spec_item_sold(body_model(body)) == Some(ev@.payload)
                &&& ev@.event == Event::ItemSold
            },
            Err(e) => {
                &&& e matches DecodeError::MalformedPayload { event, body: b2 }
                &&& (e matches DecodeError::MalformedPayload { event, body: b2 } ==> event
                    == Event::ItemSold && b2 == body)
                &&& spec_item_sold(body_model(body)) is None
            },
        },
{
    let item_id: String = match get_str(&body, "item_id") {
        Some(s) => s.clone(),
        None => {
            return Err(DecodeError::MalformedPayload { event: Event::ItemSold, body });
        },
    };
    let collection_slug: String = match get_str(&body, "collection_slug") {
        Some(s) => s.clone(),
        None => {
            return Err(DecodeError::MalformedPayload { event: Event::ItemSold, body });
        },
    };
    let maker: String = match get_str(&body, "maker") {
        Some(s) => s.clone(),
        None => {
            return Err(DecodeError::MalformedPayload { event: Event::ItemSold, body });
        },
    };
    let taker: String = match get_str(&body, "taker") {
        Some(s) => s.clone(),
        None => {
            return Err(DecodeError::MalformedPayload { event: Event::ItemSold, body });
        },
    };
    let sale_price: String = match get_str(&body, "sale_price") {
        Some(s) => s.clone(),
        None => {
            return Err(DecodeError::MalformedPayload { event: Event::ItemSold, body });
        },
    };
    let transaction_hash: String = match get_str(&body, "transaction_hash") {
        Some(s) => s.clone(),
        None => {
            return Err(DecodeError::MalformedPayload { event: Event::ItemSold, body });
        },
    };
    let ev = StreamEvent {
        event: Event::ItemSold,
        payload: Payload::ItemSold(
            ItemSoldData { item_id, collection_slug, maker, taker, sale_price, transaction_hash },
        ),
    };
    proof {
        assert(spec_item_sold(body_model(body))->0 =~= ev@.payload);
    }
    Ok(ev)
}

fn decode_item_metadata_updated(body: JsonValue) -> (r: Result<StreamEvent, DecodeError>)
    ensures
        match r {
            Ok(ev) => {
                &&& spec_item_metadata_updated(body_model(body)) == Some(ev@.payload)
                &&& ev@.event == Event::ItemMetadataUpdated
            },
            Err(e) => {
                &&& e matches DecodeError::MalformedPayload { event, body: b2 }
                &&& (e matches DecodeError::MalformedPayload { event, body: b2 } ==> event
                    == Event::ItemMetadataUpdated && b2 == body)
                &&& spec_item_metadata_updated(body_model(body)) is None
            },
        },
{
    let item_id: String = match get_str(&body, "item_id") {
        Some(s) => s.clone(),
        None => {
            return Err(DecodeError::MalformedPayload { event: Event::ItemMetadataUpdated, body });
        },
    };
    let collection_slug: String = match get_str(&body, "collection_slug") {
        Some(s) => s.clone(),
        None => {
            return Err(DecodeError::MalformedPayload { event: Event::ItemMetadataUpdated, body });
        },
    };
    let name: String = match get_str(&body, "name") {
        Some(s) => s.clone(),
        None => {
            return Err(DecodeError::MalformedPayload { event: Event::ItemMetadataUpdated, body });
        },
    };
    let token_uri: String = match get_str(&body, "token_uri") {
        Some(s) => s.clone(),
        None => {
            return Err(DecodeError::MalformedPayload { event: Event::ItemMetadataUpdated, body });
        },
    };
    let ev = StreamEvent {
        event: Event::ItemMetadataUpdated,
        payload: Payload::ItemMetadataUpdated(
            ItemMetadataUpdatedData { item_id, collection_slug, name, token_uri },
        ),
    };
    proof {
        assert(spec_item_metadata_updated(body_model(body))->0 =~= ev@.payload);
    }
    Ok(ev)
}

fn decode_item_cancelled(body: JsonValue) -> (r: Result<StreamEvent, DecodeError>)
    ensures
        match r {
            Ok(ev) => {
                &&& spec_item_cancelled(body_model(body)) == Some(ev@.payload)
                &&& ev@.event == Event::ItemCancelled
            },
            Err(e) => {
                &&& e matches DecodeError::MalformedPayload { event, body: b2 }
                &&& (e matches DecodeError::MalformedPayload { event, body: b2 } ==> event
                    == Event::ItemCancelled && b2 == body)
                &&& spec_item_cancelled(body_model(body)) is None
            },
        },
{
    let item_id: String = match get_str(&body, "item_id") {
        Some(s) => s.clone(),
        None => {
            return Err(DecodeError::MalformedPayload { event: Event::ItemCancelled, body });
        },
    };
    let collection_slug: String = match get_str(&body, "collection_slug") {
        Some(s) => s.clone(),
        None => {
            return Err(DecodeError::MalformedPayload { event: Event::ItemCancelled, body });
        },
    };
    let listing_type: String = match get_str(&body, "listing_type") {
        Some(s) => s.clone(),
        None => {
            return Err(DecodeError::MalformedPayload { event: Event::ItemCancelled, body });
        },
    };
    let ev = StreamEvent {
        event: Event::ItemCancelled,
        payload: Payload::ItemCancelled(
            ItemCancelledData { item_id, collection_slug, listing_type },
        ),
    };
    proof {
        assert(spec_item_cancelled(body_model(body))->0 =~= ev@.payload);
    }
    Ok(ev)
}

fn decode_item_received_offer(body: JsonValue) -> (r: Result<StreamEvent, DecodeError>)
    ensures
        match r {
            Ok(ev) => {
                &&& spec_item_received_offer(body_model(body)) == Some(ev@.payload)
                &&& ev@.event == Event::ItemReceivedOffer
            },
            Err(e) => {
                &&& e matches DecodeError::MalformedPayload { event, body: b2 }
                &&& (e matches DecodeError::MalformedPayload { event, body: b2 } ==> event
                    == Event::ItemReceivedOffer && b2 == body)
                &&& spec_item_received_offer(body_model(body)) is None
            },
        },
{
    let item_id: String = match get_str(&body, "item_id") {
        Some(s) => s.clone(),
        None => {
            return Err(DecodeError::MalformedPayload { event: Event::ItemReceivedOffer, body });
        },
    };
    let collection_slug: String = match get_str(&body, "collection_slug") {
        Some(s) => s.clone(),
        None => {
            return Err(DecodeError::MalformedPayload { event: Event::ItemReceivedOffer, body });
        },
    };
    let maker: String = match get_str(&body, "maker") {
        Some(s) => s.clone(),
        None => {
            return Err(DecodeError::MalformedPayload { event: Event::ItemReceivedOffer, body });
        },
    };
    let offer_price: String = match get_str(&body, "offer_price") {
        Some(s) => s.clone(),
        None => {
            return Err(DecodeError::MalformedPayload { event: Event::ItemReceivedOffer, body });
        },
    };
    let expiration_date: String = match get_str(&body, "expiration_date") {
        Some(s) => s.clone(),
        None => {
            return Err(DecodeError::MalformedPayload { event: Event::ItemReceivedOffer, body });
        },
    };
    let ev = StreamEvent {
        event: Event::ItemReceivedOffer,
        payload: Payload::ItemReceivedOffer(
            ItemReceivedOfferData { item_id, collection_slug, maker, offer_price, expiration_date },
        ),
    };
    proof {
        assert(spec_item_received_offer(body_model(body))->0 =~= ev@.payload);
    }
    Ok(ev)
}

fn decode_collection_offer(body: JsonValue) -> (r: Result<StreamEvent, DecodeError>)
    ensures
        match r {
            Ok(ev) => {
                &&& spec_collection_offer(body_model(body)) == Some(ev@.payload)
                &&& ev@.event == Event::CollectionOffer
            },
            Err(e) => {
                &&& e matches DecodeError::MalformedPayload { event, body: b2 }
                &&& (e matches DecodeError::MalformedPayload { event, body: b2 } ==> event
                    == Event::CollectionOffer && b2 == body)
                &&& spec_collection_offer(body_model(body)) is None
            },
        },
{
    let collection_slug: String = match get_str(&body, "collection_slug") {
        Some(s) => s.clone(),
        None => {
            return Err(DecodeError::MalformedPayload { event: Event::CollectionOffer, body });
        },
    };
    let maker: String = match get_str(&body, "maker") {
        Some(s) => s.clone(),
        None => {
            return Err(DecodeError::MalformedPayload { event: Event::CollectionOffer, body });
        },
    };
    let offer_price: String = match get_str(&body, "offer_price") {
        Some(s) => s.clone(),
        None => {
            return Err(DecodeError::MalformedPayload { event: Event::CollectionOffer, body });
        },
    };
    let quantity: u64 = match get_u64(&body, "quantity") {
        Some(n) => n,
        None => {
            return Err(DecodeError::MalformedPayload { event: Event::CollectionOffer, body });
        },
    };
    let order_hash: String = match get_str(&body, "order_hash") {
        Some(s) => s.clone(),
        None => {
            return Err(DecodeError::MalformedPayload { event: Event::CollectionOffer, body });
        },
    };
    let ev = StreamEvent {
        event: Event::CollectionOffer,
        payload: Payload::CollectionOffer(
            CollectionOfferData { collection_slug, maker, offer_price, quantity, order_hash },
        ),
    };
    proof {
        assert(spec_collection_offer(body_model(body))->0 =~= ev@.payload);
    }
    Ok(ev)
}

fn decode_trait_offer(body: JsonValue) -> (r: Result<StreamEvent, DecodeError>)
    ensures
        match r {
            Ok(ev) => {
                &&& spec_trait_offer(body_model(body)) == Some(ev@.payload)
                &&& ev@.event == Event::TraitOffer
            },
            Err(e) => {
                &&& e matches DecodeError::MalformedPayload { event, body: b2 }
                &&& (e matches DecodeError::MalformedPayload { event, body: b2 } ==> event
                    == Event::TraitOffer && b2 == body)
                &&& spec_trait_offer(body_model(body)) is None
            },
        },
{
    let collection_slug: String = match get_str(&body, "collection_slug") {
        Some(s) => s.clone(),
        None => {
            return Err(DecodeError::MalformedPayload { event: Event::TraitOffer, body });
        },
    };
    let maker: String = match get_str(&body, "maker") {
        Some(s) => s.clone(),
        None => {
            return Err(DecodeError::MalformedPayload { event: Event::TraitOffer, body });
        },
    };
    let offer_price: String = match get_str(&body, "offer_price") {
        Some(s) => s.clone(),
        None => {
            return Err(DecodeError::MalformedPayload { event: Event::TraitOffer, body });
        },
    };
    let trait_name: String = match get_str(&body, "trait_name") {
        Some(s) => s.clone(),
        None => {
            return Err(DecodeError::MalformedPayload { event: Event::TraitOffer, body });
        },
    };
    let trait_value: String = match get_str(&body, "trait_value") {
        Some(s) => s.clone(),
        None => {
            return Err(DecodeError::MalformedPayload { event: Event::TraitOffer, body });
        },
    };
    let ev = StreamEvent {
        event: Event::TraitOffer,
        payload: Payload::TraitOffer(
            TraitOfferData { collection_slug, maker, offer_price, trait_name, trait_value },
        ),
    };
    proof {
        assert(spec_trait_offer(body_model(body))->0 =~= ev@.payload);
    }
    Ok(ev)
}

/// The record a body decodes to under a given event kind. The wildcard
/// has no payload shape.
pub open spec fn spec_payload_of(e: Event, b: Option<Map<Seq<char>, JsonField>>) -> Option<
    PayloadModel,
> {
    match e {
        Event::ItemListed => spec_item_listed(b),
        Event::ItemSold => spec_item_sold(b),
        Event::ItemTransferred => spec_item_transferred(b),
        Event::ItemMetadataUpdated => spec_item_metadata_updated(b),
        Event::ItemCancelled => spec_item_cancelled(b),
        Event::ItemReceivedOffer => spec_item_received_offer(b),
        Event::CollectionOffer => spec_collection_offer(b),
        Event::TraitOffer => spec_trait_offer(b),
        Event::All => None,
    }
}

/// What decoding a raw message comes to.
pub enum DecodeModel {
    /// The body decodes to this envelope.
    Decoded(StreamEventModel),
    /// The discriminator is unrecognized.
    Unknown,
    /// The discriminator is known but the body does not fit its shape.
    Malformed(Event),
}

/// The decode function, on models: look the discriminator up, then hold
/// the body against the shape registered for it.
pub open spec fn spec_decode(d: Seq<char>, b: Option<Map<Seq<char>, JsonField>>) -> DecodeModel {
    match event_of_discriminator(d) {
        None => DecodeModel::Unknown,
        Some(e) => match spec_payload_of(e, b) {
            Some(p) => DecodeModel::Decoded(StreamEventModel { event: e, payload: p }),
            None => DecodeModel::Malformed(e),
        },
    }
}

/// Decodes one raw transport message: a discriminator string and an
/// untyped JSON body. Unknown fields of the body are ignored; a missing
/// or wrongly-typed required field fails this one message only, with
/// the input handed back. A decoded envelope always carries the payload
/// variant matching its discriminator, by construction.
pub fn decode(discriminator: &str, body: JsonValue) -> (r: Result<StreamEvent, DecodeError>)
    ensures
        match r {
            Ok(ev) => {
                &&& spec_decode(discriminator@, body_model(body)) == DecodeModel::Decoded(ev@)
                &&& wf_stream_event(ev@)
            },
            Err(e) => match e {
                DecodeError::UnknownDiscriminator { discriminator: d2, body: b2 } => {
                    &&& spec_decode(discriminator@, body_model(body)) is Unknown
                    &&& d2@ == discriminator@
                    &&& b2 == body
                },
                DecodeError::MalformedPayload { event, body: b2 } => {
                    &&& spec_decode(discriminator@, body_model(body)) == DecodeModel::Malformed(
                        event,
                    )
                    &&& b2 == body
                },
            },
        },
{
    let event = match lookup_event(discriminator) {
        Some(e) => e,
        None => {
            return Err(
                DecodeError::UnknownDiscriminator {
                    discriminator: discriminator.to_owned(),
                    body,
                },
            );
        },
    };
    match event {
        Event::ItemListed => decode_item_listed(body),
        Event::ItemSold => decode_item_sold(body),
        Event::ItemTransferred => decode_item_transferred(body),
        Event::ItemMetadataUpdated => decode_item_metadata_updated(body),
        Event::ItemCancelled => decode_item_cancelled(body),
        Event::ItemReceivedOffer => decode_item_received_offer(body),
        Event::CollectionOffer => decode_collection_offer(body),
        Event::TraitOffer => decode_trait_offer(body),
        Event::All => vstd::pervasive::unreached(),
    }
}

} // verus!
