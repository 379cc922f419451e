use opensea_stream::decode::{decode, DecodeError};
use opensea_stream::encode::encode_payload;
use opensea_stream::json::JsonValue;
use opensea_stream::protocol::Event;
use opensea_stream::schema::Payload;

fn s(text: &str) -> JsonValue {
    JsonValue::Str(text.to_string())
}

fn obj(fields: Vec<(&str, JsonValue)>) -> JsonValue {
    JsonValue::Obj(fields.into_iter().map(|(k, v)| (k.to_string(), v)).collect())
}

fn listed_body() -> JsonValue {
    obj(vec![
        ("item_id", s("wander/7")),
        ("collection_slug", s("wandernauts")),
        ("maker", s("0xmaker")),
        ("base_price", s("1000000000000000000")),
        ("listing_date", s("2022-06-12T12:00:00Z")),
    ])
}

#[test]
fn decode_item_listed_minimal_body() {
    let ev = decode("item_listed", listed_body()).unwrap();
    assert_eq!(ev.event, Event::ItemListed);
    match ev.payload {
        Payload::ItemListed(d) => {
            assert_eq!(d.item_id, "wander/7");
            assert_eq!(d.collection_slug, "wandernauts");
            assert_eq!(d.maker, "0xmaker");
            assert_eq!(d.base_price, "1000000000000000000");
            assert_eq!(d.listing_date, "2022-06-12T12:00:00Z");
        }
        other => panic!("wrong payload variant: {:?}", other),
    }
}

#[test]
fn decode_item_sold_minimal_body() {
    let body = obj(vec![
        ("item_id", s("wander/7")),
        ("collection_slug", s("wandernauts")),
        ("maker", s("0xseller")),
        ("taker", s("0xbuyer")),
        ("sale_price", s("250000")),
        ("transaction_hash", s("0xt")),
    ]);
    let ev = decode("item_sold", body).unwrap();
    assert_eq!(ev.event, Event::ItemSold);
    match ev.payload {
        Payload::ItemSold(d) => {
            assert_eq!(d.maker, "0xseller");
            assert_eq!(d.taker, "0xbuyer");
            assert_eq!(d.sale_price, "250000");
        }
        other => panic!("wrong payload variant: {:?}", other),
    }
}

#[test]
fn decode_item_transferred_with_quantity() {
    let body = obj(vec![
        ("item_id", s("wander/9")),
        ("collection_slug", s("wandernauts")),
        ("from_address", s("0xa")),
        ("to_address", s("0xb")),
        ("quantity", JsonValue::Num("3".to_string())),
        ("transaction_hash", s("0xt")),
    ]);
    let ev = decode("item_transferred", body).unwrap();
    assert_eq!(ev.event, Event::ItemTransferred);
    match ev.payload {
        Payload::ItemTransferred(d) => {
            assert_eq!(d.quantity, 3);
            assert_eq!(d.from_address, "0xa");
            assert_eq!(d.to_address, "0xb");
        }
        other => panic!("wrong payload variant: {:?}", other),
    }
}

#[test]
fn decode_item_metadata_updated_minimal_body() {
    let body = obj(vec![
        ("item_id", s("wander/7")),
        ("collection_slug", s("wandernauts")),
        ("name", s("Wandernaut #7")),
        ("token_uri", s("ipfs://meta/7")),
    ]);
    let ev = decode("item_metadata_updated", body).unwrap();
    assert_eq!(ev.event, Event::ItemMetadataUpdated);
    match ev.payload {
        Payload::ItemMetadataUpdated(d) => {
            assert_eq!(d.name, "Wandernaut #7");
            assert_eq!(d.token_uri, "ipfs://meta/7");
        }
        other => panic!("wrong payload variant: {:?}", other),
    }
}

#[test]
fn decode_item_cancelled_minimal_body() {
    let body = obj(vec![
        ("item_id", s("wander/7")),
        ("collection_slug", s("wandernauts")),
        ("listing_type", s("dutch")),
    ]);
    let ev = decode("item_cancelled", body).unwrap();
    assert_eq!(ev.event, Event::ItemCancelled);
    match ev.payload {
        Payload::ItemCancelled(d) => assert_eq!(d.listing_type, "dutch"),
        other => panic!("wrong payload variant: {:?}", other),
    }
}

#[test]
fn decode_item_received_offer_minimal_body() {
    let body = obj(vec![
        ("item_id", s("wander/7")),
        ("collection_slug", s("wandernauts")),
        ("maker", s("0xbidder")),
        ("offer_price", s("990000")),
        ("expiration_date", s("2022-06-13T12:00:00Z")),
    ]);
    let ev = decode("item_received_offer", body).unwrap();
    assert_eq!(ev.event, Event::ItemReceivedOffer);
    match ev.payload {
        Payload::ItemReceivedOffer(d) => assert_eq!(d.offer_price, "990000"),
        other => panic!("wrong payload variant: {:?}", other),
    }
}

#[test]
fn decode_collection_offer_minimal_body() {
    let body = obj(vec![
        ("collection_slug", s("wandernauts")),
        ("maker", s("0xbidder")),
        ("offer_price", s("5000")),
        ("quantity", JsonValue::Num("2".to_string())),
        ("order_hash", s("0xorder")),
    ]);
    let ev = decode("collection_offer", body).unwrap();
    assert_eq!(ev.event, Event::CollectionOffer);
    match ev.payload {
        Payload::CollectionOffer(d) => {
            assert_eq!(d.quantity, 2);
            assert_eq!(d.order_hash, "0xorder");
        }
        other => panic!("wrong payload variant: {:?}", other),
    }
}

#[test]
fn decode_trait_offer_minimal_body() {
    let body = obj(vec![
        ("collection_slug", s("wandernauts")),
        ("maker", s("0xbidder")),
        ("offer_price", s("7000")),
        ("trait_name", s("background")),
        ("trait_value", s("nebula")),
    ]);
    let ev = decode("trait_offer", body).unwrap();
    assert_eq!(ev.event, Event::TraitOffer);
    match ev.payload {
        Payload::TraitOffer(d) => {
            assert_eq!(d.trait_name, "background");
            assert_eq!(d.trait_value, "nebula");
        }
        other => panic!("wrong payload variant: {:?}", other),
    }
}

#[test]
fn reencode_then_decode_is_identity() {
    // Round trip for every variant: decode, re-encode, decode again, and
    // the envelope comes back equal.
    let bodies = vec![
        ("item_listed", listed_body()),
        (
            "item_transferred",
            obj(vec![
                ("item_id", s("wander/9")),
                ("collection_slug", s("wandernauts")),
                ("from_address", s("0xa")),
                ("to_address", s("0xb")),
                ("quantity", JsonValue::Num("3".to_string())),
                ("transaction_hash", s("0xt")),
            ]),
        ),
        (
            "collection_offer",
            obj(vec![
                ("collection_slug", s("wandernauts")),
                ("maker", s("0xbidder")),
                ("offer_price", s("5000")),
                ("quantity", JsonValue::Num("2".to_string())),
                ("order_hash", s("0xorder")),
            ]),
        ),
        (
            "trait_offer",
            obj(vec![
                ("collection_slug", s("wandernauts")),
                ("maker", s("0xbidder")),
                ("offer_price", s("7000")),
                ("trait_name", s("background")),
                ("trait_value", s("nebula")),
            ]),
        ),
        (
            "item_sold",
            obj(vec![
                ("item_id", s("wander/7")),
                ("collection_slug", s("wandernauts")),
                ("maker", s("0xseller")),
                ("taker", s("0xbuyer")),
                ("sale_price", s("250000")),
                ("transaction_hash", s("0xt")),
            ]),
        ),
        (
            "item_metadata_updated",
            obj(vec![
                ("item_id", s("wander/7")),
                ("collection_slug", s("wandernauts")),
                ("name", s("Wandernaut #7")),
                ("token_uri", s("ipfs://meta/7")),
            ]),
        ),
        (
            "item_cancelled",
            obj(vec![
                ("item_id", s("wander/7")),
                ("collection_slug", s("wandernauts")),
                ("listing_type", s("dutch")),
            ]),
        ),
        (
            "item_received_offer",
            obj(vec![
                ("item_id", s("wander/7")),
                ("collection_slug", s("wandernauts")),
                ("maker", s("0xbidder")),
                ("offer_price", s("990000")),
                ("expiration_date", s("2022-06-13T12:00:00Z")),
            ]),
        ),
    ];
    for (disc, body) in bodies {
        let first = decode(disc, body).unwrap();
        let reencoded = encode_payload(&first.payload);
        let second = decode(disc, reencoded).unwrap();
        assert_eq!(first, second);
    }
}

#[test]
fn missing_required_field_is_malformed() {
    let body = obj(vec![
        ("item_id", s("wander/7")),
        ("collection_slug", s("wandernauts")),
        ("maker", s("0xmaker")),
        ("base_price", s("1")),
        // listing_date missing
    ]);
    match decode("item_listed", body) {
        Err(DecodeError::MalformedPayload { event, body }) => {
            assert_eq!(event, Event::ItemListed);
            // The raw body comes back untouched for diagnostics.
            match body {
                JsonValue::Obj(fields) => assert_eq!(fields.len(), 4),
                other => panic!("body changed shape: {:?}", other),
            }
        }
        other => panic!("expected malformed payload, got {:?}", other),
    }
}

#[test]
fn wrongly_typed_required_field_is_malformed() {
    let body = obj(vec![
        ("item_id", JsonValue::Num("7".to_string())),
        ("collection_slug", s("wandernauts")),
        ("maker", s("0xmaker")),
        ("base_price", s("1")),
        ("listing_date", s("2022-06-12T12:00:00Z")),
    ]);
    assert!(matches!(
        decode("item_listed", body),
        Err(DecodeError::MalformedPayload { event: Event::ItemListed, .. })
    ));
}

#[test]
fn non_canonical_quantity_is_malformed() {
    for quantity in ["03", "", "3.5", "-1", "18446744073709551616"] {
        let body = obj(vec![
            ("collection_slug", s("wandernauts")),
            ("maker", s("0xbidder")),
            ("offer_price", s("5000")),
            ("quantity", JsonValue::Num(quantity.to_string())),
            ("order_hash", s("0xorder")),
        ]);
        assert!(matches!(
            decode("collection_offer", body),
            Err(DecodeError::MalformedPayload { event: Event::CollectionOffer, .. })
        ));
    }
}

#[test]
fn non_object_body_is_malformed() {
    assert!(matches!(
        decode("item_listed", s("not an object")),
        Err(DecodeError::MalformedPayload { event: Event::ItemListed, .. })
    ));
}

#[test]
fn unknown_discriminator_is_informational() {
    match decode("item_teleported", listed_body()) {
        Err(DecodeError::UnknownDiscriminator { discriminator, body }) => {
            assert_eq!(discriminator, "item_teleported");
            assert_eq!(body, listed_body());
        }
        other => panic!("expected unknown discriminator, got {:?}", other),
    }
}

#[test]
fn wildcard_never_decodes() {
    // The subscribe-time wildcard is not a payload tag: a transport that
    // echoes it back is treated as unrecognized.
    assert!(matches!(
        decode("*", listed_body()),
        Err(DecodeError::UnknownDiscriminator { .. })
    ));
}

#[test]
fn unknown_fields_are_ignored() {
    let body = obj(vec![
        ("item_id", s("wander/7")),
        ("future_field", JsonValue::Bool(true)),
        ("collection_slug", s("wandernauts")),
        ("maker", s("0xmaker")),
        ("nested", obj(vec![("inner", JsonValue::Null)])),
        ("base_price", s("1")),
        ("listing_date", s("2022-06-12T12:00:00Z")),
        ("trailing", JsonValue::Arr(vec![JsonValue::Num("1".to_string())])),
    ]);
    let ev = decode("item_listed", body).unwrap();
    assert_eq!(ev.event, Event::ItemListed);
}

#[test]
fn first_binding_of_a_name_wins() {
    let body = obj(vec![
        ("item_id", s("first")),
        ("item_id", s("second")),
        ("collection_slug", s("wandernauts")),
        ("maker", s("0xmaker")),
        ("base_price", s("1")),
        ("listing_date", s("2022-06-12T12:00:00Z")),
    ]);
    let ev = decode("item_listed", body).unwrap();
    match ev.payload {
        Payload::ItemListed(d) => assert_eq!(d.item_id, "first"),
        other => panic!("wrong payload variant: {:?}", other),
    }
}

#[test]
fn payload_tag_always_matches_discriminator() {
    let ev = decode("item_listed", listed_body()).unwrap();
    assert_eq!(ev.payload.tag(), ev.event);
}
