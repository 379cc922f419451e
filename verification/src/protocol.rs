//! Mapping from logical subscription targets to transport-level endpoint
//! URLs, channel topic strings and message discriminator strings.

use vstd::prelude::*;

verus! {

/// Logical network selector for the event feed.
#[derive(Clone, Copy, Debug, PartialEq, Eq, Structural)]
pub enum Network {
    /// The production network.
    Mainnet,
    /// The test network.
    Testnet,
}

/// The endpoint URL that a network resolves to.
pub open spec fn spec_endpoint(n: Network) -> Seq<char> {
    match n {
        Network::Mainnet => "wss://stream.openseabeta.com/socket/websocket"@,
        Network::Testnet => "wss://testnets-stream.openseabeta.com/socket/websocket"@,
    }
}

/// A character that may stand in the host and path of an endpoint URL:
/// lowercase letters, digits, `.`, `-` and `/`. Neither the query
/// delimiter `?` nor the fragment delimiter `#` is among them, so a
/// query appended later is the only one.
pub open spec fn ws_url_char(c: char) -> bool {
    ||| ('a' as u32) <= (c as u32) && (c as u32) <= ('z' as u32)
    ||| ('0' as u32) <= (c as u32) && (c as u32) <= ('9' as u32)
    ||| c == '.'
    ||| c == '-'
    ||| c == '/'
}

/// A syntactically well-formed secure-websocket URL: the scheme prefix,
/// a nonempty host part, and only host and path characters after the
/// scheme.
pub open spec fn valid_ws_url(s: Seq<char>) -> bool {
    &&& s.len() > 6
    &&& s.subrange(0, 6) == "wss://"@
    &&& s[6] != '/'
    &&& forall|i: int| 6 <= i < s.len() ==> ws_url_char(#[trigger] s[i])
}

impl Network {
    /// Maps this network to its transport endpoint URL. Pure and total:
    /// every network value resolves to exactly one endpoint.
    pub fn resolve(&self) -> (r: String)
        ensures
            r@ == spec_endpoint(*self),
    {
        match self {
            Network::Mainnet => "wss://stream.openseabeta.com/socket/websocket".to_owned(),
            Network::Testnet => "wss://testnets-stream.openseabeta.com/socket/websocket".to_owned(),
        }
    }
}

/// Every network resolves to a syntactically valid websocket URL.
pub proof fn lemma_resolve_valid(n: Network)
    ensures
        valid_ws_url(spec_endpoint(n)),
{
    reveal_strlit("wss://stream.openseabeta.com/socket/websocket");
    reveal_strlit("wss://testnets-stream.openseabeta.com/socket/websocket");
    reveal_strlit("wss://");
    match n {
        Network::Mainnet => {
            assert(spec_endpoint(n).subrange(0, 6) =~= "wss://"@);
        }
        Network::Testnet => {
            assert(spec_endpoint(n).subrange(0, 6) =~= "wss://"@);
        }
    }
}

/// The characters that form-urlencoding a query value can produce:
/// alphanumerics, `*`, `-`, `.`, `_`, `+` standing for a space, and the
/// `%` of a percent escape. Neither `?` nor `&` nor `#` is among them.
pub open spec fn form_encoded_char(c: char) -> bool {
    ||| ('a' as u32) <= (c as u32) && (c as u32) <= ('z' as u32)
    ||| ('A' as u32) <= (c as u32) && (c as u32) <= ('Z' as u32)
    ||| ('0' as u32) <= (c as u32) && (c as u32) <= ('9' as u32)
    ||| c == '*'
    ||| c == '-'
    ||| c == '.'
    ||| c == '_'
    ||| c == '+'
    ||| c == '%'
}

/// What form-urlencoding makes of a query value; a function of the
/// value alone.
pub uninterp spec fn spec_token_encoded(s: Seq<char>) -> Seq<char>;

/// Relies on url::Url::parse and url::Url::query_pairs_mut: parsing
/// either endpoint URL succeeds and serializes back to the same text, and
/// appending the pair `("token", token)` to a URL without a query appends
/// `?token=` followed by the form-urlencoded value, whose characters all
/// come from the form-urlencoding output set.
#[verifier::external_body]
fn append_token(base: &str, token: &str) -> (r: String)
    requires
        base@ == spec_endpoint(Network::Mainnet) || base@ == spec_endpoint(Network::Testnet),
    ensures
        r@ == base@ + "?token="@ + spec_token_encoded(token@),
        forall|i: int|
            base@.len() + 7 <= i < r@.len() ==> form_encoded_char(#[trigger] r@[i]),
{
    let mut url = url::Url::parse(base).expect("endpoint URL is well-formed");
    url.query_pairs_mut().append_pair("token", token);
    String::from(url)
}

/// Builds the connection URL for a network: the resolved endpoint with
/// the caller's API key attached, exactly once, as the only query
/// parameter. The second clause pins that down: the one `?` in the
/// result stands right after the endpoint, so exactly one `token`
/// parameter follows it.
pub fn connection_url(network: Network, token: &str) -> (r: String)
    ensures
        r@ == spec_endpoint(network) + "?token="@ + spec_token_encoded(token@),
        forall|i: int|
            0 <= i < r@.len() ==> ((#[trigger] r@[i] == '?') <==> i == spec_endpoint(
                network,
            ).len()),
{
    let base = network.resolve();
    let r = append_token(base.as_str(), token);
    proof {
        lemma_resolve_valid(network);
        reveal_strlit("?token=");
        reveal_strlit("wss://");
        let b = spec_endpoint(network);
        let q = "?token="@;
        let e = spec_token_encoded(token@);
        assert(r@.len() == b.len() + 7 + e.len());
        assert forall|i: int| 0 <= i < r@.len() implies ((r@[i] == '?') <==> i == b.len()) by {
            if i < b.len() {
                assert(r@[i] == b[i]);
                if i < 6 {
                    assert(b.subrange(0, 6)[i] == b[i]);
                    assert(b[i] == "wss://"@[i]);
                }
            } else if i < b.len() + 7 {
                assert(r@[i] == q[i - b.len()]);
            } else {
                assert(form_encoded_char(r@[i]));
            }
        }
    }
    r
}

/// The EVM chain a contract lives on. Chains with a non-EVM address
/// format are not part of the feed.
#[derive(Clone, Copy, Debug, PartialEq, Eq, Structural)]
pub enum Chain {
    /// Ethereum mainnet.
    Ethereum,
    /// Polygon.
    Polygon,
    /// Klaytn.
    Klaytn,
    /// Arbitrum.
    Arbitrum,
    /// Optimism.
    Optimism,
    /// Base.
    Base,
}

/// The wire name of a chain. No chain name contains a `:`; the topic
/// grammar depends on that (see [`lemma_topic_injective`]).
pub open spec fn spec_chain(c: Chain) -> Seq<char> {
    match c {
        Chain::Ethereum => "ethereum"@,
        Chain::Polygon => "polygon"@,
        Chain::Klaytn => "klaytn"@,
        Chain::Arbitrum => "arbitrum"@,
        Chain::Optimism => "optimism"@,
        Chain::Base => "base"@,
    }
}

impl Chain {
    /// Maps this chain to its wire name.
    pub fn encode(&self) -> (r: &'static str)
        ensures
            r@ == spec_chain(*self),
    {
        match self {
            Chain::Ethereum => "ethereum",
            Chain::Polygon => "polygon",
            Chain::Klaytn => "klaytn",
            Chain::Arbitrum => "arbitrum",
            Chain::Optimism => "optimism",
            Chain::Base => "base",
        }
    }
}

proof fn lemma_chain_facts(c1: Chain, c2: Chain)
    ensures
        spec_chain(c1) == spec_chain(c2) ==> c1 == c2,
        forall|i: int| 0 <= i < spec_chain(c1).len() ==> spec_chain(c1)[i] != ':',
{
    reveal_strlit("ethereum");
    reveal_strlit("polygon");
    reveal_strlit("klaytn");
    reveal_strlit("arbitrum");
    reveal_strlit("optimism");
    reveal_strlit("base");
    if c1 != c2 && spec_chain(c1).len() == spec_chain(c2).len() {
        assert(spec_chain(c1)[0] != spec_chain(c2)[0]);
    }
}

/// Logical subscription target: the whole market, one named collection,
/// or one on-chain contract.
#[derive(Clone, Debug, PartialEq, Eq)]
pub enum Collection {
    /// Every collection on the network.
    All,
    /// A collection named by its slug. The slug is used verbatim in the
    /// topic; no normalization is applied.
    Collection(String),
    /// A specific contract, addressed by chain and contract address.
    Contract {
        /// The chain the contract lives on.
        chain: Chain,
        /// The contract address, used verbatim in the topic.
        address: String,
    },
}

/// Mathematical model of a subscription target.
pub enum Target {
    /// Every collection on the network.
    All,
    /// A collection, by slug.
    Slug(Seq<char>),
    /// A contract, by chain and address.
    Contract(Chain, Seq<char>),
}

impl View for Collection {
    type V = Target;

    open spec fn view(&self) -> Target {
        match self {
            Collection::All => Target::All,
            Collection::Collection(slug) => Target::Slug(slug@),
            Collection::Contract { chain, address } => Target::Contract(*chain, address@),
        }
    }
}

/// The suffix of a contract topic: `<chain>:<address>`.
pub open spec fn spec_contract_suffix(c: Chain, address: Seq<char>) -> Seq<char> {
    spec_chain(c) + ":"@ + address
}

/// The channel topic string of a subscription target.
pub open spec fn spec_topic(t: Target) -> Seq<char> {
    match t {
        Target::All => "*"@,
        Target::Slug(slug) => "collection:"@ + slug,
        Target::Contract(c, address) => "contract:"@ + spec_contract_suffix(c, address),
    }
}

/// Maps a subscription target to its channel topic string. Deterministic,
/// total, and injective (see [`lemma_topic_injective`]); slugs and
/// addresses are passed through verbatim, malformed input included — the
/// server, not this layer, is the judge of those.
pub fn encode_topic(c: &Collection) -> (r: String)
    ensures
        r@ == spec_topic(c@),
{
    match c {
        Collection::All => "*".to_owned(),
        Collection::Collection(slug) => {
            let mut s = "collection:".to_owned();
            s.append(slug.as_str());
            s
        },
        Collection::Contract { chain, address } => {
            let mut s = "contract:".to_owned();
            s.append(chain.encode());
            s.append(":");
            s.append(address.as_str());
            proof {
                assert(s@ =~= spec_topic(c@));
            }
            s
        },
    }
}

proof fn lemma_concat_cancel(p: Seq<char>, x: Seq<char>, y: Seq<char>)
    requires
        p + x == p + y,
    ensures
        x == y,
{
    assert((p + x).len() == p.len() + x.len());
    assert((p + y).len() == p.len() + y.len());
    assert(x.len() == y.len());
    assert forall|i: int| 0 <= i < x.len() implies x[i] == y[i] by {
        assert((p + x)[p.len() + i] == x[i]);
        assert((p + y)[p.len() + i] == y[i]);
    }
    assert(x =~= y);
}

/// The topic grammar is injective: distinct subscription targets never
/// collide on the same topic string.
pub proof fn lemma_topic_injective(a: Target, b: Target)
    ensures
        spec_topic(a) == spec_topic(b) ==> a == b,
{
    reveal_strlit("*");
    reveal_strlit("collection:");
    reveal_strlit("contract:");
    reveal_strlit(":");
    if spec_topic(a) == spec_topic(b) {
        match (a, b) {
            (Target::Slug(s1), Target::Slug(s2)) => {
                lemma_concat_cancel("collection:"@, s1, s2);
            },
            (Target::Contract(c1, a1), Target::Contract(c2, a2)) => {
                lemma_concat_cancel(
                    "contract:"@,
                    spec_contract_suffix(c1, a1),
                    spec_contract_suffix(c2, a2),
                );
                lemma_chain_facts(c1, c2);
                lemma_chain_facts(c2, c1);
                let u = spec_contract_suffix(c1, a1);
                if c1 != c2 {
                    if spec_chain(c1).len() == spec_chain(c2).len() {
                        assert forall|i: int|
                            0 <= i < spec_chain(c1).len() implies spec_chain(c1)[i]
                            == spec_chain(c2)[i] by {
                            assert(u[i] == spec_chain(c1)[i]);
                            assert(spec_contract_suffix(c2, a2)[i] == spec_chain(c2)[i]);
                        }
                        assert(spec_chain(c1) =~= spec_chain(c2));
                    } else if spec_chain(c1).len() < spec_chain(c2).len() {
                        assert(u[spec_chain(c1).len() as int] == ':');
                        assert(spec_contract_suffix(c2, a2)[spec_chain(c1).len() as int]
                            == spec_chain(c2)[spec_chain(c1).len() as int]);
                    } else {
                        assert(u[spec_chain(c2).len() as int] == spec_chain(c1)[spec_chain(
                            c2,
                        ).len() as int]);
                        assert(spec_contract_suffix(c2, a2)[spec_chain(c2).len() as int] == ':');
                    }
                }
                lemma_concat_cancel(spec_chain(c1) + ":"@, a1, a2);
            },
            (Target::All, Target::Slug(s2)) => {
                assert(spec_topic(a).len() == 1);
            },
            (Target::Slug(s1), Target::All) => {
                assert(spec_topic(b).len() == 1);
            },
            (Target::All, Target::Contract(c2, a2)) => {
                assert(spec_topic(a).len() == 1);
            },
            (Target::Contract(c1, a1), Target::All) => {
                assert(spec_topic(b).len() == 1);
            },
            (Target::Slug(s1), Target::Contract(c2, a2)) => {
                assert(spec_topic(a)[3] == 'l');
                assert(spec_topic(b)[3] == 't');
            },
            (Target::Contract(c1, a1), Target::Slug(s2)) => {
                assert(spec_topic(a)[3] == 't');
                assert(spec_topic(b)[3] == 'l');
            },
            _ => {},
        }
    }
}

/// Logical message kind on the feed. `All` is the subscribe-time wildcard:
/// it is valid only as a subscription filter and never appears as the
/// discriminator of a received payload.
#[derive(Clone, Copy, Debug, PartialEq, Eq, Structural)]
pub enum Event {
    /// An item was listed for sale.
    ItemListed,
    /// An item was sold.
    ItemSold,
    /// An item was transferred between addresses.
    ItemTransferred,
    /// An item's metadata changed.
    ItemMetadataUpdated,
    /// A listing was cancelled.
    ItemCancelled,
    /// An item received an offer.
    ItemReceivedOffer,
    /// A collection-wide offer was made.
    CollectionOffer,
    /// An offer on a trait within a collection was made.
    TraitOffer,
    /// Wildcard used only when subscribing, never as a payload tag.
    All,
}

/// The wire discriminator string of an event kind.
pub open spec fn spec_discriminator(e: Event) -> Seq<char> {
    match e {
        Event::ItemListed => "item_listed"@,
        Event::ItemSold => "item_sold"@,
        Event::ItemTransferred => "item_transferred"@,
        Event::ItemMetadataUpdated => "item_metadata_updated"@,
        Event::ItemCancelled => "item_cancelled"@,
        Event::ItemReceivedOffer => "item_received_offer"@,
        Event::CollectionOffer => "collection_offer"@,
        Event::TraitOffer => "trait_offer"@,
        Event::All => "*"@,
    }
}

/// Maps an event kind to its wire discriminator. A total, injective
/// lookup table (see [`lemma_discriminator_injective`]).
pub fn encode_event(e: Event) -> (r: String)
    ensures
        r@ == spec_discriminator(e),
{
    match e {
        Event::ItemListed => "item_listed".to_owned(),
        Event::ItemSold => "item_sold".to_owned(),
        Event::ItemTransferred => "item_transferred".to_owned(),
        Event::ItemMetadataUpdated => "item_metadata_updated".to_owned(),
        Event::ItemCancelled => "item_cancelled".to_owned(),
        Event::ItemReceivedOffer => "item_received_offer".to_owned(),
        Event::CollectionOffer => "collection_offer".to_owned(),
        Event::TraitOffer => "trait_offer".to_owned(),
        Event::All => "*".to_owned(),
    }
}

/// The discriminator table is injective: distinct event kinds never share
/// a wire discriminator.
pub proof fn lemma_discriminator_injective(a: Event, b: Event)
    ensures
        spec_discriminator(a) == spec_discriminator(b) ==> a == b,
{
    reveal_strlit("item_listed");
    reveal_strlit("item_sold");
    reveal_strlit("item_transferred");
    reveal_strlit("item_metadata_updated");
    reveal_strlit("item_cancelled");
    reveal_strlit("item_received_offer");
    reveal_strlit("collection_offer");
    reveal_strlit("trait_offer");
    reveal_strlit("*");
    if a != b && spec_discriminator(a).len() == spec_discriminator(b).len() {
        assert(spec_discriminator(a)[0] != spec_discriminator(b)[0]);
    }
}

/// The subscribe-time wildcard never encodes like a concrete event: its
/// discriminator is distinct from every payload discriminator.
pub proof fn lemma_wildcard_distinct(e: Event)
    requires
        e != Event::All,
    ensures
        spec_discriminator(Event::All) != spec_discriminator(e),
{
    lemma_discriminator_injective(Event::All, e);
}

} // verus!
