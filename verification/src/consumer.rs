//! Dispatch of extracted events to their handlers.
//!
//! One handler per known contract schema, selected through a static table of
//! contract kinds. A handler looks events up by name among those extracted
//! for its schema — absence of a name means the event did not occur and
//! produces nothing. Every recognized event's envelope is recorded through
//! the deduplicated event log; direct-sell state changes additionally run the
//! live unit of work, and factory deployment events from a whitelisted root
//! grow the whitelist. The surrounding consume loop (stream intake,
//! extraction, acknowledgment) lives outside the library and hands each
//! transaction's matches to `process_transaction`.

use vstd::prelude::*;

use crate::decode::{direct_buy_event_spec, save_to_db_spec};
use crate::store::{
    has_whitelisted, save_event_spec, wf_db, whitelist_add_spec, Db, DbView,
};
use crate::types::{
    clone_opt_string, Decoded, DecodeContext, DecodeContextV, EventCategory, EventPayload,
    EventPayloadV, EventRecord, EventRecordV, EventType, ExtractedEvent, ExtractedEventV,
    WhitelistAddressV,
};

verus! {

/// Address of the auction root contract.
pub open spec fn spec_auction_root_tip3() -> Seq<char> {
    "0:e432db53f2b6c915285289116a0bd4048d87ac8c1a738bb9caf2b726734e77ea"@
}

/// Address of the auction root contract.
pub fn auction_root_tip3() -> (r: String)
    ensures
        r@ == spec_auction_root_tip3(),
{
    "0:e432db53f2b6c915285289116a0bd4048d87ac8c1a738bb9caf2b726734e77ea".to_owned()
}

/// Address of the direct-buy factory contract.
pub open spec fn spec_factory_direct_buy() -> Seq<char> {
    "0:9a2f3165a2e0da7b2d8b7b5e5b4aed0279da4d14f096000b7f483fe7fc6d1aa8"@
}

/// Address of the direct-buy factory contract.
pub fn factory_direct_buy() -> (r: String)
    ensures
        r@ == spec_factory_direct_buy(),
{
    "0:9a2f3165a2e0da7b2d8b7b5e5b4aed0279da4d14f096000b7f483fe7fc6d1aa8".to_owned()
}

/// Address of the direct-sell factory contract.
pub open spec fn spec_factory_direct_sell() -> Seq<char> {
    "0:1349957da9132f91a2191cf16bd29565b588dc88bd67183a4ff0a8e4c110dd1d"@
}

/// Address of the direct-sell factory contract.
pub fn factory_direct_sell() -> (r: String)
    ensures
        r@ == spec_factory_direct_sell(),
{
    "0:1349957da9132f91a2191cf16bd29565b588dc88bd67183a4ff0a8e4c110dd1d".to_owned()
}

/// Index of the first extracted event carrying the given name.
pub open spec fn spec_find_event(evs: Seq<ExtractedEventV>, name: Seq<char>) -> Option<int>
    decreases evs.len(),
{
    if evs.len() == 0 {
        None
    } else if evs[0].name == name {
        Some(0int)
    } else {
        match spec_find_event(evs.drop_first(), name) {
            Some(j) => Some(j + 1),
            None => None,
        }
    }
}

proof fn lemma_find_at(evs: Seq<ExtractedEventV>, name: Seq<char>, i: int)
    requires
        0 <= i < evs.len(),
        evs[i].name == name,
        forall|j: int| 0 <= j < i ==> evs[j].name != name,
    ensures
        spec_find_event(evs, name) == Some(i),
    decreases i,
{
    if i > 0 {
        lemma_find_at(evs.drop_first(), name, i - 1);
    }
}

proof fn lemma_find_none(evs: Seq<ExtractedEventV>, name: Seq<char>)
    requires
        forall|j: int| 0 <= j < evs.len() ==> evs[j].name != name,
    ensures
        spec_find_event(evs, name) is None,
    decreases evs.len(),
{
    if evs.len() > 0 {
        lemma_find_none(evs.drop_first(), name);
    }
}

/// Look an event up by name; `None` means this handler's event did not occur
/// in the transaction.
#[verifier::loop_isolation(false)]
pub fn find_event(extracted: &Vec<ExtractedEvent>, name: &String) -> (r: Option<usize>)
    ensures
        r is None ==> spec_find_event(extracted.deep_view(), name@) is None,
        r matches Some(i) ==> (spec_find_event(extracted.deep_view(), name@) == Some(i as int)
            && i < extracted@.len()),
{
    let n = extracted.len();
    let mut i: usize = 0;
    while i < n
        invariant
            i <= n,
            n == extracted@.len(),
            forall|j: int| 0 <= j < i ==> extracted.deep_view()[j].name != name@,
        decreases n - i,
    {
        if extracted[i].name == *name {
            proof {
                lemma_find_at(extracted.deep_view(), name@, i as int);
            }
            return Some(i);
        }
        i += 1;
    }
    proof {
        lemma_find_none(extracted.deep_view(), name@);
    }
    None
}

/// The NFT column recorded for a payload kind.
pub open spec fn spec_payload_nft(p: EventPayloadV) -> Option<Seq<char>> {
    match p {
        EventPayloadV::DirectSellState(e) => Some(e.value2.nft),
        EventPayloadV::DirectBuyState(e) => Some(e.nft),
        EventPayloadV::NftNotice(n) => Some(n.nft),
        EventPayloadV::Deployed(_) => None,
        EventPayloadV::Ownership(_) => None,
    }
}

/// The envelope recorded for one extracted event.
pub open spec fn envelope_for(
    p: EventPayloadV,
    category: EventCategory,
    etype: EventType,
    ctx: DecodeContextV,
) -> EventRecordV {
    EventRecordV {
        event_category: category,
        event_type: etype,
        address: ctx.account,
        nft: spec_payload_nft(p),
        collection: ctx.nft_collection,
        created_lt: ctx.created_lt as i64,
        created_at: ctx.created_at,
        message_hash: ctx.message_hash,
        raw_data: p,
    }
}

/// Build the envelope of one extracted event.
pub fn make_envelope(
    p: &EventPayload,
    category: EventCategory,
    etype: EventType,
    ctx: &DecodeContext,
) -> (r: EventRecord)
    ensures
        r@ == envelope_for(p@, category, etype, ctx@),
{
    let nft = match p {
        EventPayload::DirectSellState(e) => Some(e.value2.nft.clone()),
        EventPayload::DirectBuyState(e) => Some(e.nft.clone()),
        EventPayload::NftNotice(n) => Some(n.nft.clone()),
        EventPayload::Deployed(_) => None,
        EventPayload::Ownership(_) => None,
    };
    let r = EventRecord {
        event_category: category,
        event_type: etype,
        address: ctx.account.clone(),
        nft,
        collection: clone_opt_string(&ctx.nft_collection),
        created_lt: crate::timestamp::lt_to_i64(ctx.created_lt),
        created_at: ctx.created_at,
        message_hash: ctx.message_hash.clone(),
        raw_data: p.duplicate(),
    };
    proof {
        assert(r@ =~= envelope_for(p@, category, etype, ctx@));
    }
    r
}

/// Effect of handling one named event: nothing when the name did not occur,
/// otherwise its envelope lands in the deduplicated event log.
pub open spec fn handle_event_spec(
    db: DbView,
    evs: Seq<ExtractedEventV>,
    name: Seq<char>,
    category: EventCategory,
    etype: EventType,
    ctx: DecodeContextV,
) -> DbView {
    match spec_find_event(evs, name) {
        None => db,
        Some(i) => save_event_spec(db, envelope_for(evs[i].payload, category, etype, ctx)),
    }
}

/// Look the named event up and record its envelope; the result is the index
/// of the event that was handled, where one occurred.
pub fn handle_event(
    db: &mut Db,
    extracted: &Vec<ExtractedEvent>,
    name: &String,
    category: EventCategory,
    etype: EventType,
    ctx: &DecodeContext,
) -> (r: Option<usize>)
    requires
        wf_db(old(db)@),
    ensures
        wf_db(final(db)@),
        final(db)@ == handle_event_spec(
            old(db)@,
            extracted.deep_view(),
            name@,
            category,
            etype,
            ctx@,
        ),
        r is None ==> spec_find_event(extracted.deep_view(), name@) is None,
        r matches Some(i) ==> (spec_find_event(extracted.deep_view(), name@) == Some(i as int)
            && i < extracted@.len()),
{
    match find_event(extracted, name) {
        Some(i) => {
            let env = make_envelope(&extracted[i].payload, category, etype, ctx);
            let _ = db.save_event(env);
            Some(i)
        },
        None => None,
    }
}

/// Effect of a deployment event: its envelope is recorded and, when the
/// emitting account is the given factory, the deployed instance is
/// whitelisted under that factory.
pub open spec fn deployed_with_whitelist_spec(
    db: DbView,
    evs: Seq<ExtractedEventV>,
    ctx: DecodeContextV,
    name: Seq<char>,
    category: EventCategory,
    etype: EventType,
    factory: Seq<char>,
) -> DbView {
    let d1 = handle_event_spec(db, evs, name, category, etype, ctx);
    match spec_find_event(evs, name) {
        None => d1,
        Some(i) => match evs[i].payload {
            EventPayloadV::Deployed(dep) => if ctx.account == factory {
                DbView {
                    whitelist: whitelist_add_spec(
                        d1.whitelist,
                        WhitelistAddressV { address: dep.instance, parent: Some(ctx.account) },
                    ),
                    ..d1
                }
            } else {
                d1
            },
            _ => d1,
        },
    }
}

/// Handle a deployment event: record its envelope and whitelist the deployed
/// instance when the event comes from the given factory address.
pub fn handle_deployed(
    db: &mut Db,
    extracted: &Vec<ExtractedEvent>,
    ctx: &DecodeContext,
    name: &String,
    category: EventCategory,
    etype: EventType,
    factory: &String,
)
    requires
        wf_db(old(db)@),
    ensures
        wf_db(final(db)@),
        final(db)@ == deployed_with_whitelist_spec(
            old(db)@,
            extracted.deep_view(),
            ctx@,
            name@,
            category,
            etype,
            factory@,
        ),
{
    let found = handle_event(db, extracted, name, category, etype, ctx);
    if let Some(i) = found {
        if let EventPayload::Deployed(dep) = &extracted[i].payload {
            if ctx.account == *factory {
                let _ = db.add_whitelist_address(&dep.instance, Some(ctx.account.clone()));
            }
        }
    }
}

/// Replaying a deployment event — same extracted events, same context —
/// changes nothing further: the envelope is deduplicated by its message hash
/// and the instance address becomes whitelisted exactly once.
pub proof fn lemma_deployed_replay(
    db: DbView,
    evs: Seq<ExtractedEventV>,
    ctx: DecodeContextV,
    name: Seq<char>,
    category: EventCategory,
    etype: EventType,
    factory: Seq<char>,
)
    ensures
        deployed_with_whitelist_spec(
            deployed_with_whitelist_spec(db, evs, ctx, name, category, etype, factory),
            evs,
            ctx,
            name,
            category,
            etype,
            factory,
        ) == deployed_with_whitelist_spec(db, evs, ctx, name, category, etype, factory),
{
    let once = deployed_with_whitelist_spec(db, evs, ctx, name, category, etype, factory);
    match spec_find_event(evs, name) {
        None => {},
        Some(i) => {
            let env = envelope_for(evs[i].payload, category, etype, ctx);
            let d1 = save_event_spec(db, env);
            if !crate::store::has_hash(db.events, env.message_hash) {
                assert(d1.events[db.events.len() as int].message_hash == env.message_hash);
            }
            assert(crate::store::has_hash(d1.events, env.message_hash));
            assert(crate::store::has_hash(once.events, env.message_hash));
            match evs[i].payload {
                EventPayloadV::Deployed(dep) => {
                    if ctx.account == factory {
                        let entry = WhitelistAddressV {
                            address: dep.instance,
                            parent: Some(ctx.account),
                        };
                        crate::store::lemma_whitelist_add_idempotent(d1.whitelist, entry, entry);
                    }
                },
                _ => {},
            }
        },
    }
}

/// A deployment event from the factory address leaves the deployed instance
/// whitelisted.
pub proof fn lemma_deployed_whitelists(
    db: DbView,
    evs: Seq<ExtractedEventV>,
    ctx: DecodeContextV,
    name: Seq<char>,
    category: EventCategory,
    etype: EventType,
    factory: Seq<char>,
    i: int,
    dep: crate::types::DeployedInfoV,
)
    requires
        spec_find_event(evs, name) == Some(i),
        0 <= i < evs.len(),
        evs[i].payload == EventPayloadV::Deployed(dep),
        ctx.account == factory,
    ensures
        has_whitelisted(
            deployed_with_whitelist_spec(db, evs, ctx, name, category, etype, factory).whitelist,
            dep.instance,
        ),
{
    let d1 = handle_event_spec(db, evs, name, category, etype, ctx);
    let entry = WhitelistAddressV { address: dep.instance, parent: Some(ctx.account) };
    crate::store::lemma_whitelist_add_member(d1.whitelist, entry);
}

/// Effect of the auction root handler: a deployment grows the whitelist when
/// the root itself emitted it, and declines and ownership transfers are
/// archived.
pub open spec fn handle_auction_root_tip3_spec(
    db: DbView,
    evs: Seq<ExtractedEventV>,
    ctx: DecodeContextV,
) -> DbView {
    let d1 = deployed_with_whitelist_spec(
        db,
        evs,
        ctx,
        "AuctionDeployed"@,
        EventCategory::AuctionRoot,
        EventType::AuctionDeployed,
        spec_auction_root_tip3(),
    );
    let d2 = handle_event_spec(
        d1,
        evs,
        "AuctionDeclined"@,
        EventCategory::AuctionRoot,
        EventType::AuctionDeclined,
        ctx,
    );
    handle_event_spec(
        d2,
        evs,
        "OwnershipTransferred"@,
        EventCategory::AuctionRoot,
        EventType::AuctionRootOwnershipTransferred,
        ctx,
    )
}

/// Events of the auction root contract.
pub fn handle_auction_root_tip3(db: &mut Db, extracted: &Vec<ExtractedEvent>, ctx: &DecodeContext)
    requires
        wf_db(old(db)@),
    ensures
        wf_db(final(db)@),
        final(db)@ == handle_auction_root_tip3_spec(old(db)@, extracted.deep_view(), ctx@),
{
    let root = auction_root_tip3();
    handle_deployed(
        db,
        extracted,
        ctx,
        &"AuctionDeployed".to_owned(),
        EventCategory::AuctionRoot,
        EventType::AuctionDeployed,
        &root,
    );
    let _ = handle_event(
        db,
        extracted,
        &"AuctionDeclined".to_owned(),
        EventCategory::AuctionRoot,
        EventType::AuctionDeclined,
        ctx,
    );
    let _ = handle_event(
        db,
        extracted,
        &"OwnershipTransferred".to_owned(),
        EventCategory::AuctionRoot,
        EventType::AuctionRootOwnershipTransferred,
        ctx,
    );
}

/// Effect of the auction handler: each lifecycle event archived in order.
pub open spec fn handle_auction_tip3_spec(
    db: DbView,
    evs: Seq<ExtractedEventV>,
    ctx: DecodeContextV,
) -> DbView {
    let d1 = handle_event_spec(
        db,
        evs,
        "AuctionCreated"@,
        EventCategory::Auction,
        EventType::AuctionCreated,
        ctx,
    );
    let d2 = handle_event_spec(
        d1,
        evs,
        "AuctionActive"@,
        EventCategory::Auction,
        EventType::AuctionActive,
        ctx,
    );
    let d3 = handle_event_spec(
        d2,
        evs,
        "BidPlaced"@,
        EventCategory::Auction,
        EventType::AuctionBidPlaced,
        ctx,
    );
    let d4 = handle_event_spec(
        d3,
        evs,
        "BidDeclined"@,
        EventCategory::Auction,
        EventType::AuctionBidDeclined,
        ctx,
    );
    let d5 = handle_event_spec(
        d4,
        evs,
        "AuctionComplete"@,
        EventCategory::Auction,
        EventType::AuctionComplete,
        ctx,
    );
    handle_event_spec(
        d5,
        evs,
        "AuctionCancelled"@,
        EventCategory::Auction,
        EventType::AuctionCancelled,
        ctx,
    )
}

/// Events of one auction contract.
pub fn handle_auction_tip3(db: &mut Db, extracted: &Vec<ExtractedEvent>, ctx: &DecodeContext)
    requires
        wf_db(old(db)@),
    ensures
        wf_db(final(db)@),
        final(db)@ == handle_auction_tip3_spec(old(db)@, extracted.deep_view(), ctx@),
{
    let _ = handle_event(
        db,
        extracted,
        &"AuctionCreated".to_owned(),
        EventCategory::Auction,
        EventType::AuctionCreated,
        ctx,
    );
    let _ = handle_event(
        db,
        extracted,
        &"AuctionActive".to_owned(),
        EventCategory::Auction,
        EventType::AuctionActive,
        ctx,
    );
    let _ = handle_event(
        db,
        extracted,
        &"BidPlaced".to_owned(),
        EventCategory::Auction,
        EventType::AuctionBidPlaced,
        ctx,
    );
    let _ = handle_event(
        db,
        extracted,
        &"BidDeclined".to_owned(),
        EventCategory::Auction,
        EventType::AuctionBidDeclined,
        ctx,
    );
    let _ = handle_event(
        db,
        extracted,
        &"AuctionComplete".to_owned(),
        EventCategory::Auction,
        EventType::AuctionComplete,
        ctx,
    );
    let _ = handle_event(
        db,
        extracted,
        &"AuctionCancelled".to_owned(),
        EventCategory::Auction,
        EventType::AuctionCancelled,
        ctx,
    );
}

/// Effect of the direct-sell handler: the full live unit of work for a
/// well-formed state change, nothing for an absent event, a foreign payload
/// or a malformed state byte.
pub open spec fn handle_direct_sell_spec(
    db: DbView,
    evs: Seq<ExtractedEventV>,
    ctx: DecodeContextV,
) -> DbView {
    match spec_find_event(evs, "DirectSellStateChanged"@) {
        None => db,
        Some(i) => match evs[i].payload {
            EventPayloadV::DirectSellState(e) => save_to_db_spec(db, e, ctx),
            _ => db,
        },
    }
}

/// The direct-sell state-changed event of one listing contract.
pub fn handle_direct_sell(db: &mut Db, extracted: &Vec<ExtractedEvent>, ctx: &DecodeContext)
    requires
        wf_db(old(db)@),
    ensures
        wf_db(final(db)@),
        final(db)@ == handle_direct_sell_spec(old(db)@, extracted.deep_view(), ctx@),
{
    if let Some(i) = find_event(extracted, &"DirectSellStateChanged".to_owned()) {
        if let EventPayload::DirectSellState(e) = &extracted[i].payload {
            // A malformed state byte abandons this event alone.
            let _ = e.save_to_db(db, ctx);
        }
    }
}

/// Effect of the direct-buy handler: the deduplicated envelope for a
/// non-pre-escrow state change, nothing otherwise.
pub open spec fn handle_direct_buy_spec(
    db: DbView,
    evs: Seq<ExtractedEventV>,
    ctx: DecodeContextV,
) -> DbView {
    match spec_find_event(evs, "DirectBuyStateChanged"@) {
        None => db,
        Some(i) => match evs[i].payload {
            EventPayloadV::DirectBuyState(e) => direct_buy_event_spec(db, e, ctx),
            _ => db,
        },
    }
}

/// The direct-buy state-changed event of one listing contract.
pub fn handle_direct_buy(db: &mut Db, extracted: &Vec<ExtractedEvent>, ctx: &DecodeContext)
    requires
        wf_db(old(db)@),
    ensures
        wf_db(final(db)@),
        final(db)@ == handle_direct_buy_spec(old(db)@, extracted.deep_view(), ctx@),
{
    if let Some(i) = find_event(extracted, &"DirectBuyStateChanged".to_owned()) {
        if let EventPayload::DirectBuyState(e) = &extracted[i].payload {
            match e.decode_event(ctx) {
                Ok(Decoded::RawEventRecord(env)) => {
                    let _ = db.save_event(env);
                },
                _ => {},
            }
        }
    }
}

/// Effect of the direct-buy factory handler.
pub open spec fn handle_factory_direct_buy_spec(
    db: DbView,
    evs: Seq<ExtractedEventV>,
    ctx: DecodeContextV,
) -> DbView {
    let d1 = deployed_with_whitelist_spec(
        db,
        evs,
        ctx,
        "DirectBuyDeployed"@,
        EventCategory::FactoryDirectBuy,
        EventType::DirectBuyDeployed,
        spec_factory_direct_buy(),
    );
    let d2 = handle_event_spec(
        d1,
        evs,
        "DirectBuyDeclined"@,
        EventCategory::FactoryDirectBuy,
        EventType::DirectBuyDeclined,
        ctx,
    );
    handle_event_spec(
        d2,
        evs,
        "OwnershipTransferred"@,
        EventCategory::FactoryDirectBuy,
        EventType::FactoryDirectBuyOwnershipTransferred,
        ctx,
    )
}

/// Events of the direct-buy factory contract.
pub fn handle_factory_direct_buy(db: &mut Db, extracted: &Vec<ExtractedEvent>, ctx: &DecodeContext)
    requires
        wf_db(old(db)@),
    ensures
        wf_db(final(db)@),
        final(db)@ == handle_factory_direct_buy_spec(old(db)@, extracted.deep_view(), ctx@),
{
    let factory = factory_direct_buy();
    handle_deployed(
        db,
        extracted,
        ctx,
        &"DirectBuyDeployed".to_owned(),
        EventCategory::FactoryDirectBuy,
        EventType::DirectBuyDeployed,
        &factory,
    );
    let _ = handle_event(
        db,
        extracted,
        &"DirectBuyDeclined".to_owned(),
        EventCategory::FactoryDirectBuy,
        EventType::DirectBuyDeclined,
        ctx,
    );
    let _ = handle_event(
        db,
        extracted,
        &"OwnershipTransferred".to_owned(),
        EventCategory::FactoryDirectBuy,
        EventType::FactoryDirectBuyOwnershipTransferred,
        ctx,
    );
}

/// Effect of the direct-sell factory handler.
pub open spec fn handle_factory_direct_sell_spec(
    db: DbView,
    evs: Seq<ExtractedEventV>,
    ctx: DecodeContextV,
) -> DbView {
    let d1 = deployed_with_whitelist_spec(
        db,
        evs,
        ctx,
        "DirectSellDeployed"@,
        EventCategory::FactoryDirectSell,
        EventType::DirectSellDeployed,
        spec_factory_direct_sell(),
    );
    let d2 = handle_event_spec(
        d1,
        evs,
        "DirectSellDeclined"@,
        EventCategory::FactoryDirectSell,
        EventType::DirectSellDeclined,
        ctx,
    );
    handle_event_spec(
        d2,
        evs,
        "OwnershipTransferred"@,
        EventCategory::FactoryDirectSell,
        EventType::FactoryDirectSellOwnershipTransferred,
        ctx,
    )
}

/// Events of the direct-sell factory contract.
pub fn handle_factory_direct_sell(db: &mut Db, extracted: &Vec<ExtractedEvent>, ctx: &DecodeContext)
    requires
        wf_db(old(db)@),
    ensures
        wf_db(final(db)@),
        final(db)@ == handle_factory_direct_sell_spec(old(db)@, extracted.deep_view(), ctx@),
{
    let factory = factory_direct_sell();
    handle_deployed(
        db,
        extracted,
        ctx,
        &"DirectSellDeployed".to_owned(),
        EventCategory::FactoryDirectSell,
        EventType::DirectSellDeployed,
        &factory,
    );
    let _ = handle_event(
        db,
        extracted,
        &"DirectSellDeclined".to_owned(),
        EventCategory::FactoryDirectSell,
        EventType::DirectSellDeclined,
        ctx,
    );
    let _ = handle_event(
        db,
        extracted,
        &"OwnershipTransferred".to_owned(),
        EventCategory::FactoryDirectSell,
        EventType::FactoryDirectSellOwnershipTransferred,
        ctx,
    );
}

/// Effect of the NFT handler: owner and manager changes archived.
pub open spec fn handle_nft_spec(
    db: DbView,
    evs: Seq<ExtractedEventV>,
    ctx: DecodeContextV,
) -> DbView {
    let d1 = handle_event_spec(
        db,
        evs,
        "OwnerChanged"@,
        EventCategory::Nft,
        EventType::NftOwnerChanged,
        ctx,
    );
    handle_event_spec(
        d1,
        evs,
        "ManagerChanged"@,
        EventCategory::Nft,
        EventType::NftManagerChanged,
        ctx,
    )
}

/// Events of one NFT contract.
pub fn handle_nft(db: &mut Db, extracted: &Vec<ExtractedEvent>, ctx: &DecodeContext)
    requires
        wf_db(old(db)@),
    ensures
        wf_db(final(db)@),
        final(db)@ == handle_nft_spec(old(db)@, extracted.deep_view(), ctx@),
{
    let _ = handle_event(
        db,
        extracted,
        &"OwnerChanged".to_owned(),
        EventCategory::Nft,
        EventType::NftOwnerChanged,
        ctx,
    );
    let _ = handle_event(
        db,
        extracted,
        &"ManagerChanged".to_owned(),
        EventCategory::Nft,
        EventType::NftManagerChanged,
        ctx,
    );
}

/// Effect of the collection handler.
pub open spec fn handle_collection_spec(
    db: DbView,
    evs: Seq<ExtractedEventV>,
    ctx: DecodeContextV,
) -> DbView {
    let d1 = handle_event_spec(
        db,
        evs,
        "OwnershipTransferred"@,
        EventCategory::Collection,
        EventType::CollectionOwnershipTransferred,
        ctx,
    );
    let d2 = handle_event_spec(
        d1,
        evs,
        "NftCreated"@,
        EventCategory::Collection,
        EventType::NftCreated,
        ctx,
    );
    handle_event_spec(d2, evs, "NftBurned"@, EventCategory::Collection, EventType::NftBurned, ctx)
}

/// Events of one collection contract.
pub fn handle_collection(db: &mut Db, extracted: &Vec<ExtractedEvent>, ctx: &DecodeContext)
    requires
        wf_db(old(db)@),
    ensures
        wf_db(final(db)@),
        final(db)@ == handle_collection_spec(old(db)@, extracted.deep_view(), ctx@),
{
    let _ = handle_event(
        db,
        extracted,
        &"OwnershipTransferred".to_owned(),
        EventCategory::Collection,
        EventType::CollectionOwnershipTransferred,
        ctx,
    );
    let _ = handle_event(
        db,
        extracted,
        &"NftCreated".to_owned(),
        EventCategory::Collection,
        EventType::NftCreated,
        ctx,
    );
    let _ = handle_event(
        db,
        extracted,
        &"NftBurned".to_owned(),
        EventCategory::Collection,
        EventType::NftBurned,
        ctx,
    );
}

/// The whitelist after seeding the well-known root and factory addresses.
pub open spec fn seed_whitelist_spec(wl: Seq<WhitelistAddressV>) -> Seq<WhitelistAddressV> {
    let w1 = whitelist_add_spec(
        wl,
        WhitelistAddressV { address: spec_auction_root_tip3(), parent: None },
    );
    let w2 = whitelist_add_spec(
        w1,
        WhitelistAddressV { address: spec_factory_direct_buy(), parent: None },
    );
    whitelist_add_spec(
        w2,
        WhitelistAddressV { address: spec_factory_direct_sell(), parent: None },
    )
}

/// Seed the whitelist with the root and factory addresses; seeding is
/// idempotent, so a restart re-seeds without duplicating entries.
pub fn initialize_whitelist_addresses(db: &mut Db)
    ensures
        final(db)@ == (DbView { whitelist: seed_whitelist_spec(old(db)@.whitelist), ..old(db)@ }),
        wf_db(old(db)@) ==> wf_db(final(db)@),
{
    let root = auction_root_tip3();
    let _ = db.add_whitelist_address(&root, None);
    let fdb = factory_direct_buy();
    let _ = db.add_whitelist_address(&fdb, None);
    let fds = factory_direct_sell();
    let _ = db.add_whitelist_address(&fds, None);
}

/// Seeding the whitelist a second time — after a restart — changes nothing.
pub proof fn lemma_seed_whitelist_idempotent(wl: Seq<WhitelistAddressV>)
    ensures
        seed_whitelist_spec(seed_whitelist_spec(wl)) == seed_whitelist_spec(wl),
{
    let root = WhitelistAddressV { address: spec_auction_root_tip3(), parent: None };
    let fdb = WhitelistAddressV { address: spec_factory_direct_buy(), parent: None };
    let fds = WhitelistAddressV { address: spec_factory_direct_sell(), parent: None };
    let w1 = whitelist_add_spec(wl, root);
    let w2 = whitelist_add_spec(w1, fdb);
    let w3 = whitelist_add_spec(w2, fds);
    crate::store::lemma_whitelist_add_member(wl, root);
    crate::store::lemma_whitelist_add_preserves(w1, fdb, root.address);
    crate::store::lemma_whitelist_add_preserves(w2, fds, root.address);
    crate::store::lemma_whitelist_add_member(w1, fdb);
    crate::store::lemma_whitelist_add_preserves(w2, fds, fdb.address);
    crate::store::lemma_whitelist_add_member(w2, fds);
}

/// The known contract schemas, one handler each: the static dispatch table
/// built once at startup.
#[derive(Clone, Copy, Debug, PartialEq, Eq, Structural)]
pub enum ContractKind {
    AuctionTip3,
    AuctionRootTip3,
    DirectBuy,
    DirectSell,
    FactoryDirectBuy,
    FactoryDirectSell,
    Nft,
    Collection,
}

/// One schema that matched a transaction, with the events it extracted.
pub struct ContractMatch {
    pub kind: ContractKind,
    pub events: Vec<ExtractedEvent>,
}

#[verifier::ext_equal]
pub struct ContractMatchV {
    pub kind: ContractKind,
    pub events: Seq<ExtractedEventV>,
}

impl View for ContractMatch {
    type V = ContractMatchV;

    open spec fn view(&self) -> ContractMatchV {
        ContractMatchV { kind: self.kind, events: self.events.deep_view() }
    }
}

impl DeepView for ContractMatch {
    type V = ContractMatchV;

    open spec fn deep_view(&self) -> ContractMatchV {
        self@
    }
}

/// Effect of the handler bound to one contract kind.
pub open spec fn dispatch_spec(
    db: DbView,
    kind: ContractKind,
    evs: Seq<ExtractedEventV>,
    ctx: DecodeContextV,
) -> DbView {
    match kind {
        ContractKind::AuctionTip3 => handle_auction_tip3_spec(db, evs, ctx),
        ContractKind::AuctionRootTip3 => handle_auction_root_tip3_spec(db, evs, ctx),
        ContractKind::DirectBuy => handle_direct_buy_spec(db, evs, ctx),
        ContractKind::DirectSell => handle_direct_sell_spec(db, evs, ctx),
        ContractKind::FactoryDirectBuy => handle_factory_direct_buy_spec(db, evs, ctx),
        ContractKind::FactoryDirectSell => handle_factory_direct_sell_spec(db, evs, ctx),
        ContractKind::Nft => handle_nft_spec(db, evs, ctx),
        ContractKind::Collection => handle_collection_spec(db, evs, ctx),
    }
}

/// Run the handler bound to one contract kind.
pub fn handle_contract(
    db: &mut Db,
    kind: ContractKind,
    extracted: &Vec<ExtractedEvent>,
    ctx: &DecodeContext,
)
    requires
        wf_db(old(db)@),
    ensures
        wf_db(final(db)@),
        final(db)@ == dispatch_spec(old(db)@, kind, extracted.deep_view(), ctx@),
{
    match kind {
        ContractKind::AuctionTip3 => handle_auction_tip3(db, extracted, ctx),
        ContractKind::AuctionRootTip3 => handle_auction_root_tip3(db, extracted, ctx),
        ContractKind::DirectBuy => handle_direct_buy(db, extracted, ctx),
        ContractKind::DirectSell => handle_direct_sell(db, extracted, ctx),
        ContractKind::FactoryDirectBuy => handle_factory_direct_buy(db, extracted, ctx),
        ContractKind::FactoryDirectSell => handle_factory_direct_sell(db, extracted, ctx),
        ContractKind::Nft => handle_nft(db, extracted, ctx),
        ContractKind::Collection => handle_collection(db, extracted, ctx),
    }
}

/// Effect of one transaction: every matching schema's handler, in match
/// order.
pub open spec fn process_transaction_spec(
    db: DbView,
    matched: Seq<ContractMatchV>,
    ctx: DecodeContextV,
) -> DbView
    decreases matched.len(),
{
    if matched.len() == 0 {
        db
    } else {
        dispatch_spec(
            process_transaction_spec(db, matched.drop_last(), ctx),
            matched.last().kind,
            matched.last().events,
            ctx,
        )
    }
}

/// Process one transaction: run the handler of every schema that matched it,
/// in match order, against the store. The caller acknowledges the
/// transaction to the stream only after this returns.
#[verifier::loop_isolation(false)]
pub fn process_transaction(db: &mut Db, matched: &Vec<ContractMatch>, ctx: &DecodeContext)
    requires
        wf_db(old(db)@),
    ensures
        wf_db(final(db)@),
        final(db)@ == process_transaction_spec(old(db)@, matched.deep_view(), ctx@),
{
    let ghost mv = matched.deep_view();
    let n = matched.len();
    let mut j: usize = 0;
    while j < n
        invariant
            j <= n,
            n == matched@.len(),
            wf_db(db@),
            db@ == process_transaction_spec(old(db)@, mv.take(j as int), ctx@),
        decreases n - j,
    {
        proof {
            assert(mv.take(j as int + 1).drop_last() =~= mv.take(j as int));
            assert(mv.take(j as int + 1).last() == mv[j as int]);
        }
        let m = &matched[j];
        handle_contract(db, m.kind, &m.events, ctx);
        j += 1;
    }
    proof {
        assert(mv.take(n as int) =~= mv);
    }
}

} // verus!
