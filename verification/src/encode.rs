//! Re-encoding of payloads into JSON bodies, and the round-trip law:
//! what a payload encodes to decodes back to the same payload.

use vstd::prelude::*;
use crate::json::{
    JsonValue,
    JsonField,
    body_model,
    fields_model,
    field_of_value,
    lemma_fields_model_unfold,
};
use crate::number::{dec_seq, u64_to_dec};
use crate::schema::{Payload, PayloadModel};

verus! {

/// The JSON body a payload encodes to, as a field map. The inserts run
/// from the last field of the record to the first, mirroring the field
/// map of the binding list the encoder emits.
pub open spec fn spec_encode(p: PayloadModel) -> Map<Seq<char>, JsonField> {
    match p {
        PayloadModel::ItemListed { item_id, collection_slug, maker, base_price, listing_date } => Map::empty().insert(
            "listing_date"@,
            JsonField::Str(listing_date),
        ).insert("base_price"@, JsonField::Str(base_price)).insert(
            "maker"@,
            JsonField::Str(maker),
        ).insert("collection_slug"@, JsonField::Str(collection_slug)).insert(
            "item_id"@,
            JsonField::Str(item_id),
        ),
        PayloadModel::ItemSold {
            item_id,
            collection_slug,
            maker,
            taker,
            sale_price,
            transaction_hash,
        } => Map::empty().insert("transaction_hash"@, JsonField::Str(transaction_hash)).insert(
            "sale_price"@,
            JsonField::Str(sale_price),
        ).insert("taker"@, JsonField::Str(taker)).insert("maker"@, JsonField::Str(maker)).insert(
            "collection_slug"@,
            JsonField::Str(collection_slug),
        ).insert("item_id"@, JsonField::Str(item_id)),
        PayloadModel::ItemTransferred {
            item_id,
            collection_slug,
            from_address,
            to_address,
            quantity,
            transaction_hash,
        } => Map::empty().insert("transaction_hash"@, JsonField::Str(transaction_hash)).insert(
            "quantity"@,
            JsonField::Num(dec_seq(quantity as int)),
        ).insert("to_address"@, JsonField::Str(to_address)).insert(
            "from_address"@,
            JsonField::Str(from_address),
        ).insert("collection_slug"@, JsonField::Str(collection_slug)).insert(
            "item_id"@,
            JsonField::Str(item_id),
        ),
        PayloadModel::ItemMetadataUpdated { item_id, collection_slug, name, token_uri } => Map::empty().insert(
            "token_uri"@,
            JsonField::Str(token_uri),
        ).insert("name"@, JsonField::Str(name)).insert(
            "collection_slug"@,
            JsonField::Str(collection_slug),
        ).insert("item_id"@, JsonField::Str(item_id)),
        PayloadModel::ItemCancelled { item_id, collection_slug, listing_type } => Map::empty().insert(
            "listing_type"@,
            JsonField::Str(listing_type),
        ).insert("collection_slug"@, JsonField::Str(collection_slug)).insert(
            "item_id"@,
            JsonField::Str(item_id),
        ),
        PayloadModel::ItemReceivedOffer {
            item_id,
            collection_slug,
            maker,
            offer_price,
            expiration_date,
        } => Map::empty().insert("expiration_date"@, JsonField::Str(expiration_date)).insert(
            "offer_price"@,
            JsonField::Str(offer_price),
        ).insert("maker"@, JsonField::Str(maker)).insert(
            "collection_slug"@,
            JsonField::Str(collection_slug),
        ).insert("item_id"@, JsonField::Str(item_id)),
        PayloadModel::CollectionOffer { collection_slug, maker, offer_price, quantity, order_hash } => Map::empty().insert(
            "order_hash"@,
            JsonField::Str(order_hash),
        ).insert("quantity"@, JsonField::Num(dec_seq(quantity as int))).insert(
            "offer_price"@,
            JsonField::Str(offer_price),
        ).insert("maker"@, JsonField::Str(maker)).insert(
            "collection_slug"@,
            JsonField::Str(collection_slug),
        ),
        PayloadModel::TraitOffer { collection_slug, maker, offer_price, trait_name, trait_value } => Map::empty().insert(
            "trait_value"@,
            JsonField::Str(trait_value),
        ).insert("trait_name"@, JsonField::Str(trait_name)).insert(
            "offer_price"@,
            JsonField::Str(offer_price),
        ).insert("maker"@, JsonField::Str(maker)).insert(
            "collection_slug"@,
            JsonField::Str(collection_slug),
        ),
    }
}

proof fn lemma_fields_model_concrete(s: Seq<(String, JsonValue)>)
    requires
        s.len() <= 6,
    ensures
        s.len() == 3 ==> fields_model(s) == Map::<Seq<char>, JsonField>::empty().insert(
            s[2].0@,
            field_of_value(s[2].1),
        ).insert(s[1].0@, field_of_value(s[1].1)).insert(s[0].0@, field_of_value(s[0].1)),
        s.len() == 4 ==> fields_model(s) == Map::<Seq<char>, JsonField>::empty().insert(
            s[3].0@,
            field_of_value(s[3].1),
        ).insert(s[2].0@, field_of_value(s[2].1)).insert(s[1].0@, field_of_value(s[1].1)).insert(
            s[0].0@,
            field_of_value(s[0].1),
        ),
        s.len() == 5 ==> fields_model(s) == Map::<Seq<char>, JsonField>::empty().insert(
            s[4].0@,
            field_of_value(s[4].1),
        ).insert(s[3].0@, field_of_value(s[3].1)).insert(s[2].0@, field_of_value(s[2].1)).insert(
            s[1].0@,
            field_of_value(s[1].1),
        ).insert(s[0].0@, field_of_value(s[0].1)),
        s.len() == 6 ==> fields_model(s) == Map::<Seq<char>, JsonField>::empty().insert(
            s[5].0@,
            field_of_value(s[5].1),
        ).insert(s[4].0@, field_of_value(s[4].1)).insert(s[3].0@, field_of_value(s[3].1)).insert(
            s[2].0@,
            field_of_value(s[2].1),
        ).insert(s[1].0@, field_of_value(s[1].1)).insert(s[0].0@, field_of_value(s[0].1)),
{
    let n = s.len() as int;
    assert(s.skip(n) =~= Seq::<(String, JsonValue)>::empty());
    assert(s.skip(0) =~= s);
    if n > 0 {
        lemma_fields_model_unfold(s, 0);
    }
    if n > 1 {
        lemma_fields_model_unfold(s, 1);
    }
    if n > 2 {
        lemma_fields_model_unfold(s, 2);
    }
    if n > 3 {
        lemma_fields_model_unfold(s, 3);
    }
    if n > 4 {
        lemma_fields_model_unfold(s, 4);
    }
    if n > 5 {
        lemma_fields_model_unfold(s, 5);
    }
}

/// Encodes a payload as a JSON object body holding exactly the
/// required fields of its record, each in its wire form. Decoding that
/// body under the payload's own discriminator yields the payload back:
/// see [`crate::roundtrip::lemma_encode_decode_roundtrip`].
pub fn encode_payload(p: &Payload) -> (r: JsonValue)
    ensures
        body_model(r) == Some(spec_encode(p@)),
{
    let mut pairs: Vec<(String, JsonValue)> = Vec::new();
    match p {
        Payload::ItemListed(d) => {
            pairs.push(("item_id".to_owned(), JsonValue::Str(d.item_id.clone())));
            pairs.push(("collection_slug".to_owned(), JsonValue::Str(d.collection_slug.clone())));
            pairs.push(("maker".to_owned(), JsonValue::Str(d.maker.clone())));
            pairs.push(("base_price".to_owned(), JsonValue::Str(d.base_price.clone())));
            pairs.push(("listing_date".to_owned(), JsonValue::Str(d.listing_date.clone())));
        },
        Payload::ItemSold(d) => {
            pairs.push(("item_id".to_owned(), JsonValue::Str(d.item_id.clone())));
            pairs.push(("collection_slug".to_owned(), JsonValue::Str(d.collection_slug.clone())));
            pairs.push(("maker".to_owned(), JsonValue::Str(d.maker.clone())));
            pairs.push(("taker".to_owned(), JsonValue::Str(d.taker.clone())));
            pairs.push(("sale_price".to_owned(), JsonValue::Str(d.sale_price.clone())));
            pairs.push(
                ("transaction_hash".to_owned(), JsonValue::Str(d.transaction_hash.clone())),
            );
        },
        Payload::ItemTransferred(d) => {
            pairs.push(("item_id".to_owned(), JsonValue::Str(d.item_id.clone())));
            pairs.push(("collection_slug".to_owned(), JsonValue::Str(d.collection_slug.clone())));
            pairs.push(("from_address".to_owned(), JsonValue::Str(d.from_address.clone())));
            pairs.push(("to_address".to_owned(), JsonValue::Str(d.to_address.clone())));
            pairs.push(("quantity".to_owned(), JsonValue::Num(u64_to_dec(d.quantity))));
            pairs.push(
                ("transaction_hash".to_owned(), JsonValue::Str(d.transaction_hash.clone())),
            );
        },
        Payload::ItemMetadataUpdated(d) => {
            pairs.push(("item_id".to_owned(), JsonValue::Str(d.item_id.clone())));
            pairs.push(("collection_slug".to_owned(), JsonValue::Str(d.collection_slug.clone())));
            pairs.push(("name".to_owned(), JsonValue::Str(d.name.clone())));
            pairs.push(("token_uri".to_owned(), JsonValue::Str(d.token_uri.clone())));
        },
        Payload::ItemCancelled(d) => {
            pairs.push(("item_id".to_owned(), JsonValue::Str(d.item_id.clone())));
            pairs.push(("collection_slug".to_owned(), JsonValue::Str(d.collection_slug.clone())));
            pairs.push(("listing_type".to_owned(), JsonValue::Str(d.listing_type.clone())));
        },
        Payload::ItemReceivedOffer(d) => {
            pairs.push(("item_id".to_owned(), JsonValue::Str(d.item_id.clone())));
            pairs.push(("collection_slug".to_owned(), JsonValue::Str(d.collection_slug.clone())));
            pairs.push(("maker".to_owned(), JsonValue::Str(d.maker.clone())));
            pairs.push(("offer_price".to_owned(), JsonValue::Str(d.offer_price.clone())));
            pairs.push(("expiration_date".to_owned(), JsonValue::Str(d.expiration_date.clone())));
        },
        Payload::CollectionOffer(d) => {
            pairs.push(("collection_slug".to_owned(), JsonValue::Str(d.collection_slug.clone())));
            pairs.push(("maker".to_owned(), JsonValue::Str(d.maker.clone())));
            pairs.push(("offer_price".to_owned(), JsonValue::Str(d.offer_price.clone())));
            pairs.push(("quantity".to_owned(), JsonValue::Num(u64_to_dec(d.quantity))));
            pairs.push(("order_hash".to_owned(), JsonValue::Str(d.order_hash.clone())));
        },
        Payload::TraitOffer(d) => {
            pairs.push(("collection_slug".to_owned(), JsonValue::Str(d.collection_slug.clone())));
            pairs.push(("maker".to_owned(), JsonValue::Str(d.maker.clone())));
            pairs.push(("offer_price".to_owned(), JsonValue::Str(d.offer_price.clone())));
            pairs.push(("trait_name".to_owned(), JsonValue::Str(d.trait_name.clone())));
            pairs.push(("trait_value".to_owned(), JsonValue::Str(d.trait_value.clone())));
        },
    }
    proof {
        lemma_fields_model_concrete(pairs@);
        assert(fields_model(pairs@) == spec_encode(p@));
    }
    JsonValue::Obj(pairs)
}

} // verus!
