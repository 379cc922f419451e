//! The payload schema: one record shape per event kind, the tagged
//! union over them, and the decoded envelope.
//!
//! Monetary amounts are decimal-safe strings, addresses are hex text,
//! timestamps are ISO-8601 text, and quantities are unsigned numbers.

use vstd::prelude::*;
use crate::protocol::Event;

verus! {

/// An item was listed for sale.
#[derive(Debug, Clone, PartialEq)]
pub struct ItemListedData {
    /// Opaque identifier of the item.
    pub item_id: String,
    /// Slug of the collection the item belongs to.
    pub collection_slug: String,
    /// Address that created the listing.
    pub maker: String,
    /// Listing price, as a decimal-safe string.
    pub base_price: String,
    /// When the listing was created, ISO-8601.
    pub listing_date: String,
}

/// An item was sold.
#[derive(Debug, Clone, PartialEq)]
pub struct ItemSoldData {
    /// Opaque identifier of the item.
    pub item_id: String,
    /// Slug of the collection the item belongs to.
    pub collection_slug: String,
    /// Seller address.
    pub maker: String,
    /// Buyer address.
    pub taker: String,
    /// Sale price, as a decimal-safe string.
    pub sale_price: String,
    /// Hash of the sale transaction.
    pub transaction_hash: String,
}

/// An item was transferred between addresses.
#[derive(Debug, Clone, PartialEq)]
pub struct ItemTransferredData {
    /// Opaque identifier of the item.
    pub item_id: String,
    /// Slug of the collection the item belongs to.
    pub collection_slug: String,
    /// Sending address.
    pub from_address: String,
    /// Receiving address.
    pub to_address: String,
    /// Number of units transferred.
    pub quantity: u64,
    /// Hash of the transfer transaction.
    pub transaction_hash: String,
}

/// An item's metadata changed.
#[derive(Debug, Clone, PartialEq)]
pub struct ItemMetadataUpdatedData {
    /// Opaque identifier of the item.
    pub item_id: String,
    /// Slug of the collection the item belongs to.
    pub collection_slug: String,
    /// New display name of the item.
    pub name: String,
    /// New metadata URI of the item.
    pub token_uri: String,
}

/// A listing was cancelled.
#[derive(Debug, Clone, PartialEq)]
pub struct ItemCancelledData {
    /// Opaque identifier of the item.
    pub item_id: String,
    /// Slug of the collection the item belongs to.
    pub collection_slug: String,
    /// Kind of listing that was cancelled.
    pub listing_type: String,
}

/// An item received an offer.
#[derive(Debug, Clone, PartialEq)]
pub struct ItemReceivedOfferData {
    /// Opaque identifier of the item.
    pub item_id: String,
    /// Slug of the collection the item belongs to.
    pub collection_slug: String,
    /// Address that made the offer.
    pub maker: String,
    /// Offered price, as a decimal-safe string.
    pub offer_price: String,
    /// When the offer expires, ISO-8601.
    pub expiration_date: String,
}

/// A collection-wide offer was made.
#[derive(Debug, Clone, PartialEq)]
pub struct CollectionOfferData {
    /// Slug of the collection the offer is on.
    pub collection_slug: String,
    /// Address that made the offer.
    pub maker: String,
    /// Offered price per unit, as a decimal-safe string.
    pub offer_price: String,
    /// Number of units the offer is for.
    pub quantity: u64,
    /// Hash identifying the offer order.
    pub order_hash: String,
}

/// An offer on a trait within a collection was made.
#[derive(Debug, Clone, PartialEq)]
pub struct TraitOfferData {
    /// Slug of the collection the offer is on.
    pub collection_slug: String,
    /// Address that made the offer.
    pub maker: String,
    /// Offered price per unit, as a decimal-safe string.
    pub offer_price: String,
    /// Name of the trait the offer targets.
    pub trait_name: String,
    /// Value of the trait the offer targets.
    pub trait_value: String,
}

/// Tagged union of every payload the feed can deliver: one variant per
/// concrete event kind. The wildcard has no payload.
#[derive(Debug, Clone, PartialEq)]
pub enum Payload {
    /// Payload of an item-listed event.
    ItemListed(ItemListedData),
    /// Payload of an item-sold event.
    ItemSold(ItemSoldData),
    /// Payload of an item-transferred event.
    ItemTransferred(ItemTransferredData),
    /// Payload of an item-metadata-updated event.
    ItemMetadataUpdated(ItemMetadataUpdatedData),
    /// Payload of an item-cancelled event.
    ItemCancelled(ItemCancelledData),
    /// Payload of an item-received-offer event.
    ItemReceivedOffer(ItemReceivedOfferData),
    /// Payload of a collection-offer event.
    CollectionOffer(CollectionOfferData),
    /// Payload of a trait-offer event.
    TraitOffer(TraitOfferData),
}

/// Mathematical model of a payload: the same union over views of the
/// fields.
#[verifier::ext_equal]
pub enum PayloadModel {
    /// Model of an item-listed payload.
    ItemListed {
        /// Identifier of the item.
        item_id: Seq<char>,
        /// Collection slug.
        collection_slug: Seq<char>,
        /// Maker address.
        maker: Seq<char>,
        /// Listing price text.
        base_price: Seq<char>,
        /// Listing timestamp text.
        listing_date: Seq<char>,
    },
    /// Model of an item-sold payload.
    ItemSold {
        /// Identifier of the item.
        item_id: Seq<char>,
        /// Collection slug.
        collection_slug: Seq<char>,
        /// Seller address.
        maker: Seq<char>,
        /// Buyer address.
        taker: Seq<char>,
        /// Sale price text.
        sale_price: Seq<char>,
        /// Transaction hash text.
        transaction_hash: Seq<char>,
    },
    /// Model of an item-transferred payload.
    ItemTransferred {
        /// Identifier of the item.
        item_id: Seq<char>,
        /// Collection slug.
        collection_slug: Seq<char>,
        /// Sending address.
        from_address: Seq<char>,
        /// Receiving address.
        to_address: Seq<char>,
        /// Units transferred.
        quantity: u64,
        /// Transaction hash text.
        transaction_hash: Seq<char>,
    },
    /// Model of an item-metadata-updated payload.
    ItemMetadataUpdated {
        /// Identifier of the item.
        item_id: Seq<char>,
        /// Collection slug.
        collection_slug: Seq<char>,
        /// New display name.
        name: Seq<char>,
        /// New metadata URI.
        token_uri: Seq<char>,
    },
    /// Model of an item-cancelled payload.
    ItemCancelled {
        /// Identifier of the item.
        item_id: Seq<char>,
        /// Collection slug.
        collection_slug: Seq<char>,
        /// Kind of cancelled listing.
        listing_type: Seq<char>,
    },
    /// Model of an item-received-offer payload.
    ItemReceivedOffer {
        /// Identifier of the item.
        item_id: Seq<char>,
        /// Collection slug.
        collection_slug: Seq<char>,
        /// Maker address.
        maker: Seq<char>,
        /// Offer price text.
        offer_price: Seq<char>,
        /// Expiration timestamp text.
        expiration_date: Seq<char>,
    },
    /// Model of a collection-offer payload.
    CollectionOffer {
        /// Collection slug.
        collection_slug: Seq<char>,
        /// Maker address.
        maker: Seq<char>,
        /// Offer price text.
        offer_price: Seq<char>,
        /// Units the offer is for.
        quantity: u64,
        /// Order hash text.
        order_hash: Seq<char>,
    },
    /// Model of a trait-offer payload.
    TraitOffer {
        /// Collection slug.
        collection_slug: Seq<char>,
        /// Maker address.
        maker: Seq<char>,
        /// Offer price text.
        offer_price: Seq<char>,
        /// Trait name.
        trait_name: Seq<char>,
        /// Trait value.
        trait_value: Seq<char>,
    },
}

impl View for Payload {
    type V = PayloadModel;

    open spec fn view(&self) -> PayloadModel {
        match self {
            Payload::ItemListed(d) => PayloadModel::ItemListed {
                item_id: d.item_id@,
                collection_slug: d.collection_slug@,
                maker: d.maker@,
                base_price: d.base_price@,
                listing_date: d.listing_date@,
            },
            Payload::ItemSold(d) => PayloadModel::ItemSold {
                item_id: d.item_id@,
                collection_slug: d.collection_slug@,
                maker: d.maker@,
                taker: d.taker@,
                sale_price: d.sale_price@,
                transaction_hash: d.transaction_hash@,
            },
            Payload::ItemTransferred(d) => PayloadModel::ItemTransferred {
                item_id: d.item_id@,
                collection_slug: d.collection_slug@,
                from_address: d.from_address@,
                to_address: d.to_address@,
                quantity: d.quantity,
                transaction_hash: d.transaction_hash@,
            },
            Payload::ItemMetadataUpdated(d) => PayloadModel::ItemMetadataUpdated {
                item_id: d.item_id@,
                collection_slug: d.collection_slug@,
                name: d.name@,
                token_uri: d.token_uri@,
            },
            Payload::ItemCancelled(d) => PayloadModel::ItemCancelled {
                item_id: d.item_id@,
                collection_slug: d.collection_slug@,
                listing_type: d.listing_type@,
            },
            Payload::ItemReceivedOffer(d) => PayloadModel::ItemReceivedOffer {
                item_id: d.item_id@,
                collection_slug: d.collection_slug@,
                maker: d.maker@,
                offer_price: d.offer_price@,
                expiration_date: d.expiration_date@,
            },
            Payload::CollectionOffer(d) => PayloadModel::CollectionOffer {
                collection_slug: d.collection_slug@,
                maker: d.maker@,
                offer_price: d.offer_price@,
                quantity: d.quantity,
                order_hash: d.order_hash@,
            },
            Payload::TraitOffer(d) => PayloadModel::TraitOffer {
                collection_slug: d.collection_slug@,
                maker: d.maker@,
                offer_price: d.offer_price@,
                trait_name: d.trait_name@,
                trait_value: d.trait_value@,
            },
        }
    }
}

/// The event kind a payload model is tagged with.
pub open spec fn spec_payload_tag(p: PayloadModel) -> Event {
    match p {
        PayloadModel::ItemListed { .. } => Event::ItemListed,
        PayloadModel::ItemSold { .. } => Event::ItemSold,
        PayloadModel::ItemTransferred { .. } => Event::ItemTransferred,
        PayloadModel::ItemMetadataUpdated { .. } => Event::ItemMetadataUpdated,
        PayloadModel::ItemCancelled { .. } => Event::ItemCancelled,
        PayloadModel::ItemReceivedOffer { .. } => Event::ItemReceivedOffer,
        PayloadModel::CollectionOffer { .. } => Event::CollectionOffer,
        PayloadModel::TraitOffer { .. } => Event::TraitOffer,
    }
}

impl Payload {
    /// The event kind this payload is tagged with. Never the wildcard.
    pub fn tag(&self) -> (r: Event)
        ensures
            r == spec_payload_tag(self@),
            r != Event::All,
    {
        match self {
            Payload::ItemListed(_) => Event::ItemListed,
            Payload::ItemSold(_) => Event::ItemSold,
            Payload::ItemTransferred(_) => Event::ItemTransferred,
            Payload::ItemMetadataUpdated(_) => Event::ItemMetadataUpdated,
            Payload::ItemCancelled(_) => Event::ItemCancelled,
            Payload::ItemReceivedOffer(_) => Event::ItemReceivedOffer,
            Payload::CollectionOffer(_) => Event::CollectionOffer,
            Payload::TraitOffer(_) => Event::TraitOffer,
        }
    }
}

/// The decoded envelope: the event kind together with the matching
/// payload. Well-formed when the tag of the payload agrees with the
/// event and the event is not the wildcard; the decoder establishes
/// that by construction.
#[derive(Debug, Clone, PartialEq)]
pub struct StreamEvent {
    /// The event kind the message was delivered under.
    pub event: Event,
    /// The decoded payload.
    pub payload: Payload,
}

/// Mathematical model of a decoded envelope.
#[verifier::ext_equal]
pub struct StreamEventModel {
    /// The event kind.
    pub event: Event,
    /// The payload model.
    pub payload: PayloadModel,
}

impl View for StreamEvent {
    type V = StreamEventModel;

    open spec fn view(&self) -> StreamEventModel {
        StreamEventModel { event: self.event, payload: self.payload@ }
    }
}

/// A decoded envelope is well-formed when its discriminator and its
/// payload tag agree, and the discriminator is a concrete event kind.
pub open spec fn wf_stream_event(ev: StreamEventModel) -> bool {
    &&& ev.event == spec_payload_tag(ev.payload)
    &&& ev.event != Event::All
}

} // verus!
