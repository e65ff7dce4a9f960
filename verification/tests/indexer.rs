use nft_indexer::consumer::{
    auction_root_tip3, factory_direct_sell, handle_contract, handle_event,
    initialize_whitelist_addresses, process_transaction, ContractKind, ContractMatch,
};
use nft_indexer::numeric::{bigdecimal_to_u128, price_round_trip, u128_to_bigdecimal};
use nft_indexer::state::{is_pre_escrow, state_from_raw, ListingState};
use nft_indexer::store::{save_raw_event, Db};
use nft_indexer::timestamp::normalize_timestamp;
use nft_indexer::types::{
    DecodeContext, Decoded, DecodeError, DeployedInfo, DirectSellInfo, DirectSellStateChanged,
    EventCategory, EventPayload, EventRecord, EventType, ExtractedEvent, NftPriceSource,
};

fn ctx_with_hash(hash: &str) -> DecodeContext {
    DecodeContext {
        account: "0:aaaa".to_owned(),
        created_lt: 7_000_000,
        created_at: 1_700_000_000,
        message_hash: hash.to_owned(),
        nft_collection: Some("0:c011".to_owned()),
    }
}

fn sell_event(to: u8) -> DirectSellStateChanged {
    DirectSellStateChanged {
        from: 1,
        to,
        value2: DirectSellInfo {
            factory: "0:fact".to_owned(),
            creator: "0:5e11e4".to_owned(),
            token: "0:70ce4".to_owned(),
            nft: "0:4f7".to_owned(),
            price: 1_000_000_000_000_000_000_000_000_000u128,
            start: 1_600_000_000,
            end: 1_800_000_000,
        },
    }
}

fn envelope(hash: &str) -> EventRecord {
    EventRecord {
        event_category: EventCategory::Nft,
        event_type: EventType::NftCreated,
        address: "0:aaaa".to_owned(),
        nft: Some("0:4f7".to_owned()),
        collection: None,
        created_lt: 1,
        created_at: 2,
        message_hash: hash.to_owned(),
        raw_data: EventPayload::Deployed(DeployedInfo { instance: "0:1".to_owned() }),
    }
}

#[test]
fn state_byte_mapping() {
    assert_eq!(state_from_raw(0), Some(ListingState::Create));
    assert_eq!(state_from_raw(1), Some(ListingState::AwaitNft));
    assert_eq!(state_from_raw(2), Some(ListingState::Active));
    assert_eq!(state_from_raw(3), Some(ListingState::Filled));
    assert_eq!(state_from_raw(4), Some(ListingState::Cancelled));
    assert_eq!(state_from_raw(5), Some(ListingState::Expired));
    assert_eq!(state_from_raw(6), None);
    assert!(is_pre_escrow(ListingState::Create));
    assert!(is_pre_escrow(ListingState::AwaitNft));
    assert!(!is_pre_escrow(ListingState::Active));
    assert!(!is_pre_escrow(ListingState::Expired));
}

#[test]
fn decode_rejects_unknown_state_byte() {
    let ctx = ctx_with_hash("deadbeef");
    let ev = sell_event(9);
    assert!(matches!(ev.decode(&ctx), Err(DecodeError::UnknownState)));
    assert!(matches!(ev.decode_event(&ctx), Err(DecodeError::UnknownState)));
    let mut db = Db::new();
    assert!(matches!(ev.save_to_db(&mut db, &ctx), Err(DecodeError::UnknownState)));
    assert_eq!(db.events.len(), 0);
}

#[test]
fn decode_skips_pre_escrow_states() {
    let ctx = ctx_with_hash("deadbeef");
    for to in [0u8, 1u8] {
        let ev = sell_event(to);
        assert!(matches!(ev.decode(&ctx), Ok(Decoded::ShouldSkip)));
        assert!(matches!(ev.decode_event(&ctx), Ok(Decoded::ShouldSkip)));
        let mut db = Db::new();
        assert!(matches!(ev.save_to_db(&mut db, &ctx), Ok(())));
        assert_eq!(db.events.len(), 0);
        assert_eq!(db.price_history.len(), 0);
        assert_eq!(db.direct_sell.len(), 0);
    }
}

#[test]
fn decode_persists_live_states_with_price_entry() {
    let ctx = ctx_with_hash("deadbeef");
    for to in [2u8, 3, 4, 5] {
        let ev = sell_event(to);
        match ev.decode(&ctx) {
            Ok(Decoded::DirectSellStateChanged((row, price))) => {
                assert_eq!(row.address, "0:aaaa");
                assert_eq!(row.nft, "0:4f7");
                assert_eq!(row.price, ev.value2.price);
                assert_eq!(row.price_token, "0:70ce4");
                assert_eq!(row.seller, "0:5e11e4");
                assert_eq!(row.state, state_from_raw(to).unwrap());
                assert_eq!(row.created, 1_600_000_000);
                assert_eq!(row.expired_at, 1_800_000_000);
                assert_eq!(row.updated, 1_700_000_000);
                assert!(row.sell_price_usd.is_none());
                assert_eq!(price.price, ev.value2.price);
                assert_eq!(price.source_type, NftPriceSource::DirectSell);
                assert_eq!(price.price_token.as_deref(), Some("0:70ce4"));
                assert_eq!(price.nft.as_deref(), Some("0:4f7"));
            }
            other => panic!("expected a persistable decode, got {:?}", decoded_tag(&other)),
        }
    }
}

fn decoded_tag(r: &Result<Decoded, DecodeError>) -> &'static str {
    match r {
        Ok(Decoded::DirectSellStateChanged(_)) => "direct sell state changed",
        Ok(Decoded::RawEventRecord(_)) => "raw event record",
        Ok(Decoded::ShouldSkip) => "skip",
        Err(_) => "error",
    }
}

#[test]
fn timestamp_out_of_range_falls_back_to_epoch() {
    assert_eq!(normalize_timestamp(1_700_000_000), 1_700_000_000);
    assert_eq!(normalize_timestamp(0), 0);
    assert_eq!(normalize_timestamp(i64::MAX), 0);
    assert_eq!(normalize_timestamp(i64::MIN), 0);
}

#[test]
fn price_survives_decimal_round_trip_at_boundary() {
    assert_eq!(price_round_trip(u128::MAX), Some(u128::MAX));
    assert_eq!(price_round_trip(0), Some(0));
    assert_eq!(price_round_trip(1_000_000_000_000_000_000_000_000_000), Some(1_000_000_000_000_000_000_000_000_000));
}

#[test]
fn decimal_conversion_matches_bigdecimal() {
    let d = u128_to_bigdecimal(5);
    assert_eq!(d, bigdecimal::BigDecimal::from(5u64));
    let wide = u128_to_bigdecimal(u128::MAX);
    assert_eq!(wide.to_string(), "340282366920938463463374607431768211455");
    assert_eq!(bigdecimal_to_u128(&bigdecimal::BigDecimal::from(7u64)), Some(7));
    let negative = bigdecimal::BigDecimal::from(-3i64);
    assert_eq!(bigdecimal_to_u128(&negative), None);
}

#[test]
fn archive_deduplicates_within_and_across_batches() {
    let mut db = Db::new();
    let batch = vec![envelope("h1"), envelope("h2"), envelope("h1")];
    save_raw_event(&mut db, &batch);
    assert_eq!(db.events.len(), 2);
    assert_eq!(db.events[0].message_hash, "h1");
    assert_eq!(db.events[1].message_hash, "h2");
    save_raw_event(&mut db, &batch);
    assert_eq!(db.events.len(), 2);
    let overlap = vec![envelope("h2"), envelope("h3")];
    save_raw_event(&mut db, &overlap);
    assert_eq!(db.events.len(), 3);
    assert_eq!(db.events[2].message_hash, "h3");
}

#[test]
fn live_unit_of_work_is_atomic_and_idempotent() {
    let ctx = ctx_with_hash("t1");
    let ev = sell_event(2);
    let mut db = Db::new();
    assert!(matches!(ev.save_to_db(&mut db, &ctx), Ok(())));
    assert_eq!(db.events.len(), 1);
    assert_eq!(db.price_history.len(), 1);
    assert_eq!(db.direct_sell.len(), 1);
    // A redelivery of the same message hash must not change any table.
    assert!(matches!(ev.save_to_db(&mut db, &ctx), Ok(())));
    assert_eq!(db.events.len(), 1);
    assert_eq!(db.price_history.len(), 1);
    assert_eq!(db.direct_sell.len(), 1);
    assert_eq!(db.direct_sell[0].state, ListingState::Active);
}

#[test]
fn end_to_end_direct_sell_scenario() {
    let ctx = ctx_with_hash("t1");
    let ev = sell_event(2);
    let matched = vec![ContractMatch {
        kind: ContractKind::DirectSell,
        events: vec![ExtractedEvent {
            name: "DirectSellStateChanged".to_owned(),
            payload: EventPayload::DirectSellState(ev),
        }],
    }];
    let mut db = Db::new();
    process_transaction(&mut db, &matched, &ctx);
    assert_eq!(db.direct_sell.len(), 1);
    let row = &db.direct_sell[0];
    assert_eq!(row.state, ListingState::Active);
    assert_eq!(row.price, 1_000_000_000_000_000_000_000_000_000u128);
    assert_eq!(row.price_token, "0:70ce4");
    assert_eq!(db.price_history.len(), 1);
    let entry = &db.price_history[0];
    assert_eq!(entry.price, 1_000_000_000_000_000_000_000_000_000u128);
    assert_eq!(entry.price_token.as_deref(), Some("0:70ce4"));
    assert_eq!(entry.source_type, NftPriceSource::DirectSell);
    // The identical transaction again: nothing changes further.
    process_transaction(&mut db, &matched, &ctx);
    assert_eq!(db.direct_sell.len(), 1);
    assert_eq!(db.price_history.len(), 1);
    assert_eq!(db.events.len(), 1);
}

#[test]
fn whitelist_seeding_is_idempotent() {
    let mut db = Db::new();
    initialize_whitelist_addresses(&mut db);
    assert_eq!(db.whitelist.len(), 3);
    assert_eq!(db.whitelist[0].address, auction_root_tip3());
    initialize_whitelist_addresses(&mut db);
    assert_eq!(db.whitelist.len(), 3);
}

#[test]
fn factory_deployment_whitelists_instance_exactly_once() {
    let factory = factory_direct_sell();
    let ctx = DecodeContext {
        account: factory.clone(),
        created_lt: 10,
        created_at: 1_700_000_000,
        message_hash: "d1".to_owned(),
        nft_collection: None,
    };
    let events = vec![ExtractedEvent {
        name: "DirectSellDeployed".to_owned(),
        payload: EventPayload::Deployed(DeployedInfo { instance: "0:new1".to_owned() }),
    }];
    let mut db = Db::new();
    initialize_whitelist_addresses(&mut db);
    handle_contract(&mut db, ContractKind::FactoryDirectSell, &events, &ctx);
    assert_eq!(db.whitelist.len(), 4);
    assert_eq!(db.whitelist[3].address, "0:new1");
    assert_eq!(db.whitelist[3].parent.as_deref(), Some(factory.as_str()));
    // The same deployment delivered twice grows the whitelist only once.
    handle_contract(&mut db, ContractKind::FactoryDirectSell, &events, &ctx);
    assert_eq!(db.whitelist.len(), 4);
    assert_eq!(db.events.len(), 1);
}

#[test]
fn deployment_from_foreign_account_is_archived_but_not_whitelisted() {
    let ctx = ctx_with_hash("d2");
    let events = vec![ExtractedEvent {
        name: "DirectSellDeployed".to_owned(),
        payload: EventPayload::Deployed(DeployedInfo { instance: "0:new2".to_owned() }),
    }];
    let mut db = Db::new();
    handle_contract(&mut db, ContractKind::FactoryDirectSell, &events, &ctx);
    assert_eq!(db.whitelist.len(), 0);
    assert_eq!(db.events.len(), 1);
    assert_eq!(db.events[0].event_type, EventType::DirectSellDeployed);
    assert_eq!(db.events[0].event_category, EventCategory::FactoryDirectSell);
}

#[test]
fn absent_event_name_produces_nothing() {
    let ctx = ctx_with_hash("n1");
    let events = vec![ExtractedEvent {
        name: "SomethingElse".to_owned(),
        payload: EventPayload::Deployed(DeployedInfo { instance: "0:x".to_owned() }),
    }];
    let mut db = Db::new();
    let r = handle_event(
        &mut db,
        &events,
        &"NftCreated".to_owned(),
        EventCategory::Collection,
        EventType::NftCreated,
        &ctx,
    );
    assert!(r.is_none());
    assert_eq!(db.events.len(), 0);
}

#[test]
fn direct_buy_state_change_skips_pre_escrow_and_archives_live() {
    let mut db = Db::new();
    let pre = ExtractedEvent {
        name: "DirectBuyStateChanged".to_owned(),
        payload: EventPayload::DirectBuyState(nft_indexer::types::DirectBuyStateChanged {
            from: 0,
            to: 1,
            nft: "0:4f7".to_owned(),
        }),
    };
    handle_contract(&mut db, ContractKind::DirectBuy, &vec![pre], &ctx_with_hash("b1"));
    assert_eq!(db.events.len(), 0);
    let live = ExtractedEvent {
        name: "DirectBuyStateChanged".to_owned(),
        payload: EventPayload::DirectBuyState(nft_indexer::types::DirectBuyStateChanged {
            from: 1,
            to: 2,
            nft: "0:4f7".to_owned(),
        }),
    };
    handle_contract(&mut db, ContractKind::DirectBuy, &vec![live], &ctx_with_hash("b2"));
    assert_eq!(db.events.len(), 1);
    assert_eq!(db.events[0].event_type, EventType::DirectBuyStateChanged);
    assert_eq!(db.events[0].nft.as_deref(), Some("0:4f7"));
}
