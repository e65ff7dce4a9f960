//! Domain records of the indexer and their mathematical views.
//!
//! Every executable record has a view type whose text fields are `Seq<char>`,
//! so that contracts over the store model can compare records structurally.

use vstd::prelude::*;

use crate::state::ListingState;

verus! {

/// Contract family an event belongs to.
#[derive(Clone, Copy, Debug, PartialEq, Eq, Structural)]
pub enum EventCategory {
    AuctionRoot,
    Auction,
    DirectBuy,
    DirectSell,
    FactoryDirectBuy,
    FactoryDirectSell,
    Nft,
    Collection,
}

/// One variant per recognized event name within a category.
#[derive(Clone, Copy, Debug, PartialEq, Eq, Structural)]
pub enum EventType {
    AuctionDeployed,
    AuctionDeclined,
    AuctionRootOwnershipTransferred,
    AuctionCreated,
    AuctionActive,
    AuctionBidPlaced,
    AuctionBidDeclined,
    AuctionComplete,
    AuctionCancelled,
    DirectBuyStateChanged,
    DirectSellStateChanged,
    DirectBuyDeployed,
    DirectBuyDeclined,
    FactoryDirectBuyOwnershipTransferred,
    DirectSellDeployed,
    DirectSellDeclined,
    FactoryDirectSellOwnershipTransferred,
    NftOwnerChanged,
    NftManagerChanged,
    CollectionOwnershipTransferred,
    NftCreated,
    NftBurned,
}

/// Which kind of listing a price observation comes from.
#[derive(Clone, Copy, Debug, PartialEq, Eq, Structural)]
pub enum NftPriceSource {
    Auction,
    DirectBuy,
    DirectSell,
}

/// Fields of a `DirectSellStateChanged` event payload.
pub struct DirectSellInfo {
    pub factory: String,
    pub creator: String,
    pub token: String,
    pub nft: String,
    pub price: u128,
    pub start: u64,
    pub end: u64,
}

#[verifier::ext_equal]
pub struct DirectSellInfoV {
    pub factory: Seq<char>,
    pub creator: Seq<char>,
    pub token: Seq<char>,
    pub nft: Seq<char>,
    pub price: u128,
    pub start: u64,
    pub end: u64,
}

impl View for DirectSellInfo {
    type V = DirectSellInfoV;

    open spec fn view(&self) -> DirectSellInfoV {
        DirectSellInfoV {
            factory: self.factory@,
            creator: self.creator@,
            token: self.token@,
            nft: self.nft@,
            price: self.price,
            start: self.start,
            end: self.end,
        }
    }
}

/// A direct-sell listing announcing a transition of its lifecycle state.
pub struct DirectSellStateChanged {
    pub from: u8,
    pub to: u8,
    pub value2: DirectSellInfo,
}

#[verifier::ext_equal]
pub struct DirectSellStateChangedV {
    pub from: u8,
    pub to: u8,
    pub value2: DirectSellInfoV,
}

impl View for DirectSellStateChanged {
    type V = DirectSellStateChangedV;

    open spec fn view(&self) -> DirectSellStateChangedV {
        DirectSellStateChangedV { from: self.from, to: self.to, value2: self.value2@ }
    }
}

/// A direct-buy listing announcing a transition of its lifecycle state.
pub struct DirectBuyStateChanged {
    pub from: u8,
    pub to: u8,
    pub nft: String,
}

#[verifier::ext_equal]
pub struct DirectBuyStateChangedV {
    pub from: u8,
    pub to: u8,
    pub nft: Seq<char>,
}

impl View for DirectBuyStateChanged {
    type V = DirectBuyStateChangedV;

    open spec fn view(&self) -> DirectBuyStateChangedV {
        DirectBuyStateChangedV { from: self.from, to: self.to, nft: self.nft@ }
    }
}

/// A factory or root announcing a freshly deployed listing instance.
pub struct DeployedInfo {
    pub instance: String,
}

#[verifier::ext_equal]
pub struct DeployedInfoV {
    pub instance: Seq<char>,
}

impl View for DeployedInfo {
    type V = DeployedInfoV;

    open spec fn view(&self) -> DeployedInfoV {
        DeployedInfoV { instance: self.instance@ }
    }
}

/// An ownership hand-over on a contract.
pub struct OwnershipInfo {
    pub old_owner: String,
    pub new_owner: String,
}

#[verifier::ext_equal]
pub struct OwnershipInfoV {
    pub old_owner: Seq<char>,
    pub new_owner: Seq<char>,
}

impl View for OwnershipInfo {
    type V = OwnershipInfoV;

    open spec fn view(&self) -> OwnershipInfoV {
        OwnershipInfoV { old_owner: self.old_owner@, new_owner: self.new_owner@ }
    }
}

/// An NFT lifecycle notice (created, burned, owner or manager changed).
pub struct NftInfo {
    pub nft: String,
    pub owner: String,
}

#[verifier::ext_equal]
pub struct NftInfoV {
    pub nft: Seq<char>,
    pub owner: Seq<char>,
}

impl View for NftInfo {
    type V = NftInfoV;

    open spec fn view(&self) -> NftInfoV {
        NftInfoV { nft: self.nft@, owner: self.owner@ }
    }
}

/// Decoded fields of one extracted event, kept in the envelope for audit.
pub enum EventPayload {
    DirectSellState(DirectSellStateChanged),
    DirectBuyState(DirectBuyStateChanged),
    Deployed(DeployedInfo),
    Ownership(OwnershipInfo),
    NftNotice(NftInfo),
}

#[verifier::ext_equal]
pub enum EventPayloadV {
    DirectSellState(DirectSellStateChangedV),
    DirectBuyState(DirectBuyStateChangedV),
    Deployed(DeployedInfoV),
    Ownership(OwnershipInfoV),
    NftNotice(NftInfoV),
}

impl View for EventPayload {
    type V = EventPayloadV;

    open spec fn view(&self) -> EventPayloadV {
        match self {
            EventPayload::DirectSellState(e) => EventPayloadV::DirectSellState(e@),
            EventPayload::DirectBuyState(e) => EventPayloadV::DirectBuyState(e@),
            EventPayload::Deployed(e) => EventPayloadV::Deployed(e@),
            EventPayload::Ownership(e) => EventPayloadV::Ownership(e@),
            EventPayload::NftNotice(e) => EventPayloadV::NftNotice(e@),
        }
    }
}

/// One named event extracted from a transaction by a contract schema.
pub struct ExtractedEvent {
    pub name: String,
    pub payload: EventPayload,
}

#[verifier::ext_equal]
pub struct ExtractedEventV {
    pub name: Seq<char>,
    pub payload: EventPayloadV,
}

impl View for ExtractedEvent {
    type V = ExtractedEventV;

    open spec fn view(&self) -> ExtractedEventV {
        ExtractedEventV { name: self.name@, payload: self.payload@ }
    }
}

impl DeepView for ExtractedEvent {
    type V = ExtractedEventV;

    open spec fn deep_view(&self) -> ExtractedEventV {
        self@
    }
}

/// Per-transaction context handed to the decoder: the source account, the
/// ledger's logical time, the wall-clock timestamp in seconds, the hash of the
/// originating message, and the collection the event's NFT belongs to, where
/// the caller has looked one up.
pub struct DecodeContext {
    pub account: String,
    pub created_lt: u64,
    pub created_at: i64,
    pub message_hash: String,
    pub nft_collection: Option<String>,
}

#[verifier::ext_equal]
pub struct DecodeContextV {
    pub account: Seq<char>,
    pub created_lt: u64,
    pub created_at: i64,
    pub message_hash: Seq<char>,
    pub nft_collection: Option<Seq<char>>,
}

impl View for DecodeContext {
    type V = DecodeContextV;

    open spec fn view(&self) -> DecodeContextV {
        DecodeContextV {
            account: self.account@,
            created_lt: self.created_lt,
            created_at: self.created_at,
            message_hash: self.message_hash@,
            nft_collection: self.nft_collection.deep_view(),
        }
    }
}

/// The category/type-tagged envelope of one recognized event occurrence; the
/// message hash is the deduplication key across both persistence paths.
pub struct EventRecord {
    pub event_category: EventCategory,
    pub event_type: EventType,
    pub address: String,
    pub nft: Option<String>,
    pub collection: Option<String>,
    pub created_lt: i64,
    pub created_at: i64,
    pub message_hash: String,
    pub raw_data: EventPayload,
}

#[verifier::ext_equal]
pub struct EventRecordV {
    pub event_category: EventCategory,
    pub event_type: EventType,
    pub address: Seq<char>,
    pub nft: Option<Seq<char>>,
    pub collection: Option<Seq<char>>,
    pub created_lt: i64,
    pub created_at: i64,
    pub message_hash: Seq<char>,
    pub raw_data: EventPayloadV,
}

impl View for EventRecord {
    type V = EventRecordV;

    open spec fn view(&self) -> EventRecordV {
        EventRecordV {
            event_category: self.event_category,
            event_type: self.event_type,
            address: self.address@,
            nft: self.nft.deep_view(),
            collection: self.collection.deep_view(),
            created_lt: self.created_lt,
            created_at: self.created_at,
            message_hash: self.message_hash@,
            raw_data: self.raw_data@,
        }
    }
}

impl DeepView for EventRecord {
    type V = EventRecordV;

    open spec fn deep_view(&self) -> EventRecordV {
        self@
    }
}

/// Current-state row of a direct-sell listing, keyed by its contract address.
pub struct NftDirectSell {
    pub address: String,
    pub nft: String,
    pub collection: Option<String>,
    pub price_token: String,
    pub price: u128,
    pub sell_price_usd: Option<u128>,
    pub seller: String,
    pub finished_at: Option<i64>,
    pub expired_at: i64,
    pub state: ListingState,
    pub created: i64,
    pub updated: i64,
    pub tx_lt: i64,
}

#[verifier::ext_equal]
pub struct NftDirectSellV {
    pub address: Seq<char>,
    pub nft: Seq<char>,
    pub collection: Option<Seq<char>>,
    pub price_token: Seq<char>,
    pub price: u128,
    pub sell_price_usd: Option<u128>,
    pub seller: Seq<char>,
    pub finished_at: Option<i64>,
    pub expired_at: i64,
    pub state: ListingState,
    pub created: i64,
    pub updated: i64,
    pub tx_lt: i64,
}

impl View for NftDirectSell {
    type V = NftDirectSellV;

    open spec fn view(&self) -> NftDirectSellV {
        NftDirectSellV {
            address: self.address@,
            nft: self.nft@,
            collection: self.collection.deep_view(),
            price_token: self.price_token@,
            price: self.price,
            sell_price_usd: self.sell_price_usd,
            seller: self.seller@,
            finished_at: self.finished_at,
            expired_at: self.expired_at,
            state: self.state,
            created: self.created,
            updated: self.updated,
            tx_lt: self.tx_lt,
        }
    }
}

impl DeepView for NftDirectSell {
    type V = NftDirectSellV;

    open spec fn deep_view(&self) -> NftDirectSellV {
        self@
    }
}

/// One append-only price observation derived from a listing state transition.
pub struct NftPriceHistory {
    pub source: String,
    pub source_type: NftPriceSource,
    pub created_at: i64,
    pub price: u128,
    pub price_token: Option<String>,
    pub nft: Option<String>,
    pub collection: Option<String>,
}

#[verifier::ext_equal]
pub struct NftPriceHistoryV {
    pub source: Seq<char>,
    pub source_type: NftPriceSource,
    pub created_at: i64,
    pub price: u128,
    pub price_token: Option<Seq<char>>,
    pub nft: Option<Seq<char>>,
    pub collection: Option<Seq<char>>,
}

impl View for NftPriceHistory {
    type V = NftPriceHistoryV;

    open spec fn view(&self) -> NftPriceHistoryV {
        NftPriceHistoryV {
            source: self.source@,
            source_type: self.source_type,
            created_at: self.created_at,
            price: self.price,
            price_token: self.price_token.deep_view(),
            nft: self.nft.deep_view(),
            collection: self.collection.deep_view(),
        }
    }
}

impl DeepView for NftPriceHistory {
    type V = NftPriceHistoryV;

    open spec fn deep_view(&self) -> NftPriceHistoryV {
        self@
    }
}

/// A whitelisted contract address, with the factory or root that deployed it
/// where one is known. Entries are created once and never removed.
pub struct WhitelistAddress {
    pub address: String,
    pub parent: Option<String>,
}

#[verifier::ext_equal]
pub struct WhitelistAddressV {
    pub address: Seq<char>,
    pub parent: Option<Seq<char>>,
}

impl View for WhitelistAddress {
    type V = WhitelistAddressV;

    open spec fn view(&self) -> WhitelistAddressV {
        WhitelistAddressV { address: self.address@, parent: self.parent.deep_view() }
    }
}

impl DeepView for WhitelistAddress {
    type V = WhitelistAddressV;

    open spec fn deep_view(&self) -> WhitelistAddressV {
        self@
    }
}

/// Outcome of decoding one event.
pub enum Decoded {
    /// A listing row to upsert together with its derived price observation.
    DirectSellStateChanged((NftDirectSell, NftPriceHistory)),
    /// An envelope of raw interest only.
    RawEventRecord(EventRecord),
    /// A pre-escrow transition: nothing is persisted and nothing archived.
    ShouldSkip,
}

/// Decoding failure: the payload of a recognized event is malformed.
pub enum DecodeError {
    /// The raw target state byte is outside the lifecycle encoding.
    UnknownState,
}

/// Copy an optional text field.
pub fn clone_opt_string(o: &Option<String>) -> (r: Option<String>)
    ensures
        r.deep_view() == o.deep_view(),
{
    match o {
        Some(s) => Some(s.clone()),
        None => None,
    }
}

impl DirectSellInfo {
    /// Copy the payload fields.
    pub fn duplicate(&self) -> (r: Self)
        ensures
            r@ == self@,
    {
        DirectSellInfo {
            factory: self.factory.clone(),
            creator: self.creator.clone(),
            token: self.token.clone(),
            nft: self.nft.clone(),
            price: self.price,
            start: self.start,
            end: self.end,
        }
    }
}

impl DirectSellStateChanged {
    /// Copy the event fields.
    pub fn duplicate(&self) -> (r: Self)
        ensures
            r@ == self@,
    {
        DirectSellStateChanged { from: self.from, to: self.to, value2: self.value2.duplicate() }
    }
}

impl DirectBuyStateChanged {
    /// Copy the event fields.
    pub fn duplicate(&self) -> (r: Self)
        ensures
            r@ == self@,
    {
        DirectBuyStateChanged { from: self.from, to: self.to, nft: self.nft.clone() }
    }
}

impl DeployedInfo {
    /// Copy the event fields.
    pub fn duplicate(&self) -> (r: Self)
        ensures
            r@ == self@,
    {
        DeployedInfo { instance: self.instance.clone() }
    }
}

impl OwnershipInfo {
    /// Copy the event fields.
    pub fn duplicate(&self) -> (r: Self)
        ensures
            r@ == self@,
    {
        OwnershipInfo { old_owner: self.old_owner.clone(), new_owner: self.new_owner.clone() }
    }
}

impl NftInfo {
    /// Copy the event fields.
    pub fn duplicate(&self) -> (r: Self)
        ensures
            r@ == self@,
    {
        NftInfo { nft: self.nft.clone(), owner: self.owner.clone() }
    }
}

impl EventPayload {
    /// Copy the decoded fields.
    pub fn duplicate(&self) -> (r: Self)
        ensures
            r@ == self@,
    {
        match self {
            EventPayload::DirectSellState(e) => EventPayload::DirectSellState(e.duplicate()),
            EventPayload::DirectBuyState(e) => EventPayload::DirectBuyState(e.duplicate()),
            EventPayload::Deployed(e) => EventPayload::Deployed(e.duplicate()),
            EventPayload::Ownership(e) => EventPayload::Ownership(e.duplicate()),
            EventPayload::NftNotice(e) => EventPayload::NftNotice(e.duplicate()),
        }
    }
}

impl EventRecord {
    /// Copy the envelope.
    pub fn duplicate(&self) -> (r: Self)
        ensures
            r@ == self@,
    {
        EventRecord {
            event_category: self.event_category,
            event_type: self.event_type,
            address: self.address.clone(),
            nft: clone_opt_string(&self.nft),
            collection: clone_opt_string(&self.collection),
            created_lt: self.created_lt,
            created_at: self.created_at,
            message_hash: self.message_hash.clone(),
            raw_data: self.raw_data.duplicate(),
        }
    }
}

} // verus!
