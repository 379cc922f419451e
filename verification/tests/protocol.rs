use opensea_stream::protocol::{connection_url, encode_event, encode_topic, Chain, Collection, Event, Network};

#[test]
fn resolve_mainnet() {
    assert_eq!(
        Network::Mainnet.resolve(),
        "wss://stream.openseabeta.com/socket/websocket"
    );
}

#[test]
fn resolve_testnet() {
    assert_eq!(
        Network::Testnet.resolve(),
        "wss://testnets-stream.openseabeta.com/socket/websocket"
    );
}

#[test]
fn connection_url_appends_single_token_parameter() {
    let url = connection_url(Network::Mainnet, "MYKEY123");
    assert_eq!(
        url,
        "wss://stream.openseabeta.com/socket/websocket?token=MYKEY123"
    );
    assert_eq!(url.matches('?').count(), 1);
    assert_eq!(url.matches("token=").count(), 1);
}

#[test]
fn connection_url_encodes_token() {
    // The token is form-urlencoded: a space becomes `+`, `&` and `=` are
    // percent-escaped, so the one pair stays one pair.
    let url = connection_url(Network::Testnet, "a b&c=d");
    assert_eq!(
        url,
        "wss://testnets-stream.openseabeta.com/socket/websocket?token=a+b%26c%3Dd"
    );
    assert_eq!(url.matches('?').count(), 1);
    assert_eq!(url.matches('&').count(), 0);
}

#[test]
fn connection_url_with_empty_token() {
    let url = connection_url(Network::Mainnet, "");
    assert_eq!(url, "wss://stream.openseabeta.com/socket/websocket?token=");
    assert_eq!(url.matches('?').count(), 1);
}

#[test]
fn topic_all_is_sentinel() {
    assert_eq!(encode_topic(&Collection::All), "*");
}

#[test]
fn topic_collection_uses_slug_verbatim() {
    assert_eq!(
        encode_topic(&Collection::Collection("wandernauts".to_string())),
        "collection:wandernauts"
    );
    // No normalization: casing and emptiness are the server's concern.
    assert_eq!(
        encode_topic(&Collection::Collection("WanderNauts".to_string())),
        "collection:WanderNauts"
    );
    assert_eq!(encode_topic(&Collection::Collection(String::new())), "collection:");
}

#[test]
fn topic_contract_canonical_form() {
    assert_eq!(
        encode_topic(&Collection::Contract {
            chain: Chain::Ethereum,
            address: "0x495f947276749ce646f68ac8c248420045cb7b5e".to_string(),
        }),
        "contract:ethereum:0x495f947276749ce646f68ac8c248420045cb7b5e"
    );
    assert_eq!(
        encode_topic(&Collection::Contract {
            chain: Chain::Polygon,
            address: "0xabc".to_string(),
        }),
        "contract:polygon:0xabc"
    );
}

#[test]
fn topics_never_collide_across_variants() {
    let slugged = encode_topic(&Collection::Collection("wandernauts".to_string()));
    let contract = encode_topic(&Collection::Contract {
        chain: Chain::Ethereum,
        address: "wandernauts".to_string(),
    });
    assert_ne!(slugged, contract);
    assert_ne!(encode_topic(&Collection::All), slugged);
    assert_ne!(encode_topic(&Collection::All), contract);
    // A slug crafted to look like a contract topic still cannot collide:
    // the prefixes differ.
    let crafted = encode_topic(&Collection::Collection("contract:ethereum:0xabc".to_string()));
    let real = encode_topic(&Collection::Contract {
        chain: Chain::Ethereum,
        address: "0xabc".to_string(),
    });
    assert_ne!(crafted, real);
}

#[test]
fn topics_distinguish_chain_and_address() {
    let a = encode_topic(&Collection::Contract {
        chain: Chain::Ethereum,
        address: "x".to_string(),
    });
    let b = encode_topic(&Collection::Contract {
        chain: Chain::Polygon,
        address: "x".to_string(),
    });
    let c = encode_topic(&Collection::Contract {
        chain: Chain::Ethereum,
        address: "y".to_string(),
    });
    assert_ne!(a, b);
    assert_ne!(a, c);
}

#[test]
fn event_discriminators_exact() {
    assert_eq!(encode_event(Event::ItemListed), "item_listed");
    assert_eq!(encode_event(Event::ItemSold), "item_sold");
    assert_eq!(encode_event(Event::ItemTransferred), "item_transferred");
    assert_eq!(encode_event(Event::ItemMetadataUpdated), "item_metadata_updated");
    assert_eq!(encode_event(Event::ItemCancelled), "item_cancelled");
    assert_eq!(encode_event(Event::ItemReceivedOffer), "item_received_offer");
    assert_eq!(encode_event(Event::CollectionOffer), "collection_offer");
    assert_eq!(encode_event(Event::TraitOffer), "trait_offer");
    assert_eq!(encode_event(Event::All), "*");
}

#[test]
fn wildcard_discriminator_distinct_from_every_event() {
    let wildcard = encode_event(Event::All);
    for e in [
        Event::ItemListed,
        Event::ItemSold,
        Event::ItemTransferred,
        Event::ItemMetadataUpdated,
        Event::ItemCancelled,
        Event::ItemReceivedOffer,
        Event::CollectionOffer,
        Event::TraitOffer,
    ] {
        assert_ne!(wildcard, encode_event(e));
    }
}

#[test]
fn chain_names_exact() {
    assert_eq!(Chain::Ethereum.encode(), "ethereum");
    assert_eq!(Chain::Polygon.encode(), "polygon");
    assert_eq!(Chain::Klaytn.encode(), "klaytn");
    assert_eq!(Chain::Arbitrum.encode(), "arbitrum");
    assert_eq!(Chain::Optimism.encode(), "optimism");
    assert_eq!(Chain::Base.encode(), "base");
}
