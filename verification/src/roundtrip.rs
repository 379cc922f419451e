//! The round-trip law: every payload, re-encoded under its own
//! discriminator, decodes back to itself.

use vstd::prelude::*;
use crate::decode::{DecodeModel, event_of_discriminator, spec_decode, spec_payload_of};
use crate::encode::spec_encode;
use crate::number::lemma_dec_seq_canonical;
use crate::protocol::{Event, spec_discriminator};
use crate::schema::{PayloadModel, StreamEventModel, spec_payload_tag, wf_stream_event};

verus! {

/// Looking a concrete event's own discriminator up yields that event
/// back: the discriminator table inverts itself on every value it can
/// emit.
pub proof fn lemma_event_of_discriminator(e: Event)
    requires
        e != Event::All,
    ensures
        event_of_discriminator(spec_discriminator(e)) == Some(e),
{
    reveal_strlit("item_listed");
    reveal_strlit("item_sold");
    reveal_strlit("item_transferred");
    reveal_strlit("item_metadata_updated");
    reveal_strlit("item_cancelled");
    reveal_strlit("item_received_offer");
    reveal_strlit("collection_offer");
    reveal_strlit("trait_offer");
    reveal_strlit("*");
    assert(spec_discriminator(Event::ItemListed).len() == 11);
    assert(spec_discriminator(Event::ItemSold).len() == 9);
    assert(spec_discriminator(Event::ItemTransferred).len() == 16);
    assert(spec_discriminator(Event::ItemMetadataUpdated).len() == 21);
    assert(spec_discriminator(Event::ItemCancelled).len() == 14);
    assert(spec_discriminator(Event::ItemReceivedOffer).len() == 19);
    assert(spec_discriminator(Event::CollectionOffer).len() == 16);
    assert(spec_discriminator(Event::TraitOffer).len() == 11);
    assert(spec_discriminator(Event::All).len() == 1);
    assert(spec_discriminator(Event::ItemListed)[0] == 'i');
    assert(spec_discriminator(Event::TraitOffer)[0] == 't');
    assert(spec_discriminator(Event::ItemTransferred)[0] == 'i');
    assert(spec_discriminator(Event::CollectionOffer)[0] == 'c');
    match e {
        Event::ItemListed => assert(event_of_discriminator(spec_discriminator(e)) == Some(e)),
        Event::ItemSold => assert(event_of_discriminator(spec_discriminator(e)) == Some(e)),
        Event::ItemTransferred => assert(event_of_discriminator(spec_discriminator(e)) == Some(
            e,
        )),
        Event::ItemMetadataUpdated => assert(event_of_discriminator(spec_discriminator(e)) == Some(
            e,
        )),
        Event::ItemCancelled => assert(event_of_discriminator(spec_discriminator(e)) == Some(e)),
        Event::ItemReceivedOffer => assert(event_of_discriminator(spec_discriminator(e)) == Some(
            e,
        )),
        Event::CollectionOffer => assert(event_of_discriminator(spec_discriminator(e)) == Some(
            e,
        )),
        Event::TraitOffer => assert(event_of_discriminator(spec_discriminator(e)) == Some(e)),
        Event::All => assert(false),
    }
}

/// Round trip: the body a payload encodes to, decoded under the
/// discriminator of that payload's own tag, yields exactly the envelope
/// of that payload — so decoding what was just decoded and re-encoded
/// changes nothing.
pub proof fn lemma_encode_decode_roundtrip(p: PayloadModel)
    ensures
        spec_decode(spec_discriminator(spec_payload_tag(p)), Some(spec_encode(p)))
            == DecodeModel::Decoded(StreamEventModel { event: spec_payload_tag(p), payload: p }),
        wf_stream_event(StreamEventModel { event: spec_payload_tag(p), payload: p }),
{
    let e = spec_payload_tag(p);
    lemma_event_of_discriminator(e);
    reveal_strlit("item_id");
    reveal_strlit("collection_slug");
    reveal_strlit("maker");
    reveal_strlit("taker");
    reveal_strlit("base_price");
    reveal_strlit("sale_price");
    reveal_strlit("offer_price");
    reveal_strlit("listing_date");
    reveal_strlit("expiration_date");
    reveal_strlit("from_address");
    reveal_strlit("to_address");
    reveal_strlit("quantity");
    reveal_strlit("transaction_hash");
    reveal_strlit("order_hash");
    reveal_strlit("name");
    reveal_strlit("token_uri");
    reveal_strlit("listing_type");
    reveal_strlit("trait_name");
    reveal_strlit("trait_value");
    assert("item_id"@.len() == 7);
    assert("collection_slug"@.len() == 15);
    assert("maker"@.len() == 5);
    assert("taker"@.len() == 5);
    assert("base_price"@.len() == 10);
    assert("sale_price"@.len() == 10);
    assert("offer_price"@.len() == 11);
    assert("listing_date"@.len() == 12);
    assert("expiration_date"@.len() == 15);
    assert("from_address"@.len() == 12);
    assert("to_address"@.len() == 10);
    assert("quantity"@.len() == 8);
    assert("transaction_hash"@.len() == 16);
    assert("order_hash"@.len() == 10);
    assert("name"@.len() == 4);
    assert("token_uri"@.len() == 9);
    assert("listing_type"@.len() == 12);
    assert("trait_name"@.len() == 10);
    assert("trait_value"@.len() == 11);
    assert("maker"@[0] == 'm' && "taker"@[0] == 't');
    assert("collection_slug"@[0] == 'c' && "expiration_date"@[0] == 'e');
    assert("offer_price"@[0] == 'o' && "trait_value"@[0] == 't');
    let b = Some(spec_encode(p));
    match p {
        PayloadModel::ItemListed { .. } => {
            assert(spec_payload_of(e, b) is Some);
            assert(spec_payload_of(e, b)->0 =~= p);
        },
        PayloadModel::ItemSold { .. } => {
            assert(spec_payload_of(e, b) is Some);
            assert(spec_payload_of(e, b)->0 =~= p);
        },
        PayloadModel::ItemTransferred { quantity, .. } => {
            lemma_dec_seq_canonical(quantity as int);
            assert(spec_payload_of(e, b) is Some);
            assert(spec_payload_of(e, b)->0 =~= p);
        },
        PayloadModel::ItemMetadataUpdated { .. } => {
            assert(spec_payload_of(e, b) is Some);
            assert(spec_payload_of(e, b)->0 =~= p);
        },
        PayloadModel::ItemCancelled { .. } => {
            assert(spec_payload_of(e, b) is Some);
            assert(spec_payload_of(e, b)->0 =~= p);
        },
        PayloadModel::ItemReceivedOffer { .. } => {
            assert(spec_payload_of(e, b) is Some);
            assert(spec_payload_of(e, b)->0 =~= p);
        },
        PayloadModel::CollectionOffer { quantity, .. } => {
            lemma_dec_seq_canonical(quantity as int);
            assert(spec_payload_of(e, b) is Some);
            assert(spec_payload_of(e, b)->0 =~= p);
        },
        PayloadModel::TraitOffer { .. } => {
            assert(spec_payload_of(e, b) is Some);
            assert(spec_payload_of(e, b)->0 =~= p);
        },
    }
}

} // verus!
