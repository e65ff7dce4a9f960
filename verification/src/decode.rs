//! Decoding of listing state-changed events and their live persistence.
//!
//! Decoding computes the target lifecycle state from the raw `to` byte.
//! A pre-escrow target (`Create`, `AwaitNft`) is skipped outright: no entity,
//! no price observation, and no raw envelope either — both output paths go
//! through the same classification. Any other target yields the listing row
//! together with a price observation, and the live unit of work writes both
//! plus the envelope atomically, rolling everything back when the envelope's
//! message hash turns out to be already present.

use vstd::prelude::*;

use crate::state::{is_pre_escrow, spec_is_pre_escrow, spec_state_of, state_from_raw, ListingState};
use crate::store::{live_update_spec, wf_db, Db, DbView};
use crate::timestamp::{lt_to_i64, normalize_timestamp, normalized_timestamp};
use crate::types::{
    clone_opt_string, Decoded, DecodeError, DecodeContext, DecodeContextV, DirectBuyStateChanged,
    DirectBuyStateChangedV, DirectSellStateChanged, DirectSellStateChangedV, EventCategory,
    EventPayload, EventPayloadV, EventRecord, EventRecordV, EventType, NftDirectSell,
    NftDirectSellV, NftPriceHistory, NftPriceHistoryV, NftPriceSource,
};

verus! {

/// The listing row decoded from a direct-sell state change: fields copied
/// from the payload, timestamps normalized, keyed by the emitting account.
pub open spec fn spec_direct_sell_row(
    e: DirectSellStateChangedV,
    ctx: DecodeContextV,
    s: ListingState,
) -> NftDirectSellV {
    NftDirectSellV {
        address: ctx.account,
        nft: e.value2.nft,
        collection: ctx.nft_collection,
        price_token: e.value2.token,
        price: e.value2.price,
        sell_price_usd: None,
        seller: e.value2.creator,
        finished_at: None,
        expired_at: normalized_timestamp(e.value2.end as i64),
        state: s,
        created: normalized_timestamp(e.value2.start as i64),
        updated: normalized_timestamp(ctx.created_at),
        tx_lt: ctx.created_lt as i64,
    }
}

/// The price observation derived from a direct-sell state change.
pub open spec fn spec_direct_sell_price(
    e: DirectSellStateChangedV,
    ctx: DecodeContextV,
) -> NftPriceHistoryV {
    NftPriceHistoryV {
        source: ctx.account,
        source_type: NftPriceSource::DirectSell,
        created_at: normalized_timestamp(ctx.created_at),
        price: e.value2.price,
        price_token: Some(e.value2.token),
        nft: Some(e.value2.nft),
        collection: ctx.nft_collection,
    }
}

/// The raw envelope of a direct-sell state change.
pub open spec fn spec_direct_sell_envelope(
    e: DirectSellStateChangedV,
    ctx: DecodeContextV,
) -> EventRecordV {
    EventRecordV {
        event_category: EventCategory::DirectSell,
        event_type: EventType::DirectSellStateChanged,
        address: ctx.account,
        nft: Some(e.value2.nft),
        collection: ctx.nft_collection,
        created_lt: ctx.created_lt as i64,
        created_at: ctx.created_at,
        message_hash: ctx.message_hash,
        raw_data: EventPayloadV::DirectSellState(e),
    }
}

/// The raw envelope of a direct-buy state change.
pub open spec fn spec_direct_buy_envelope(
    e: DirectBuyStateChangedV,
    ctx: DecodeContextV,
) -> EventRecordV {
    EventRecordV {
        event_category: EventCategory::DirectBuy,
        event_type: EventType::DirectBuyStateChanged,
        address: ctx.account,
        nft: Some(e.nft),
        collection: ctx.nft_collection,
        created_lt: ctx.created_lt as i64,
        created_at: ctx.created_at,
        message_hash: ctx.message_hash,
        raw_data: EventPayloadV::DirectBuyState(e),
    }
}

/// Effect of the live unit of work for one direct-sell state change: nothing
/// for a malformed state byte or a pre-escrow target, otherwise the atomic
/// live update with row, price observation and envelope.
pub open spec fn save_to_db_spec(
    db: DbView,
    e: DirectSellStateChangedV,
    ctx: DecodeContextV,
) -> DbView {
    match spec_state_of(e.to) {
        None => db,
        Some(s) => if spec_is_pre_escrow(s) {
            db
        } else {
            live_update_spec(
                db,
                spec_direct_sell_row(e, ctx, s),
                Some(spec_direct_sell_price(e, ctx)),
                spec_direct_sell_envelope(e, ctx),
            )
        },
    }
}

impl DirectSellStateChanged {
    /// Decode this event: `Skip` for a pre-escrow target state, otherwise the
    /// listing entity together with its price observation; an error exactly
    /// for a state byte outside the encoding.
    pub fn decode(&self, ctx: &DecodeContext) -> (r: Result<Decoded, DecodeError>)
        ensures
            r is Err <==> spec_state_of(self.to) is None,
            r is Err ==> r == Err::<Decoded, DecodeError>(DecodeError::UnknownState),
            spec_state_of(self.to) matches Some(s) ==> (spec_is_pre_escrow(s) ==> r == Ok::<
                Decoded,
                DecodeError,
            >(Decoded::ShouldSkip)),
            spec_state_of(self.to) matches Some(s) ==> (!spec_is_pre_escrow(s) ==> (r matches Ok(
                Decoded::DirectSellStateChanged(p),
            ) && p.0@ == spec_direct_sell_row(self@, ctx@, s) && p.1@ == spec_direct_sell_price(
                self@,
                ctx@,
            ))),
    {
        let state = match state_from_raw(self.to) {
            Some(s) => s,
            None => {
                return Err(DecodeError::UnknownState);
            },
        };
        if is_pre_escrow(state) {
            return Ok(Decoded::ShouldSkip);
        }
        let row = NftDirectSell {
            address: ctx.account.clone(),
            nft: self.value2.nft.clone(),
            collection: clone_opt_string(&ctx.nft_collection),
            price_token: self.value2.token.clone(),
            price: self.value2.price,
            sell_price_usd: None,
            seller: self.value2.creator.clone(),
            finished_at: None,
            expired_at: normalize_timestamp(lt_to_i64(self.value2.end)),
            state,
            created: normalize_timestamp(lt_to_i64(self.value2.start)),
            updated: normalize_timestamp(ctx.created_at),
            tx_lt: lt_to_i64(ctx.created_lt),
        };
        let price = NftPriceHistory {
            source: ctx.account.clone(),
            source_type: NftPriceSource::DirectSell,
            created_at: normalize_timestamp(ctx.created_at),
            price: self.value2.price,
            price_token: Some(self.value2.token.clone()),
            nft: Some(self.value2.nft.clone()),
            collection: clone_opt_string(&ctx.nft_collection),
        };
        proof {
            assert(row@ =~= spec_direct_sell_row(self@, ctx@, state));
            assert(price@ =~= spec_direct_sell_price(self@, ctx@));
        }
        Ok(Decoded::DirectSellStateChanged((row, price)))
    }

    /// Decode the raw envelope for this event, mirroring the skip decision of
    /// the entity path: a pre-escrow target produces no envelope either.
    pub fn decode_event(&self, ctx: &DecodeContext) -> (r: Result<Decoded, DecodeError>)
        ensures
            r is Err <==> spec_state_of(self.to) is None,
            r is Err ==> r == Err::<Decoded, DecodeError>(DecodeError::UnknownState),
            spec_state_of(self.to) matches Some(s) ==> (spec_is_pre_escrow(s) ==> r == Ok::<
                Decoded,
                DecodeError,
            >(Decoded::ShouldSkip)),
            spec_state_of(self.to) matches Some(s) ==> (!spec_is_pre_escrow(s) ==> (r matches Ok(
                Decoded::RawEventRecord(env),
            ) && env@ == spec_direct_sell_envelope(self@, ctx@))),
    {
        let state = match state_from_raw(self.to) {
            Some(s) => s,
            None => {
                return Err(DecodeError::UnknownState);
            },
        };
        if is_pre_escrow(state) {
            return Ok(Decoded::ShouldSkip);
        }
        let env = EventRecord {
            event_category: EventCategory::DirectSell,
            event_type: EventType::DirectSellStateChanged,
            address: ctx.account.clone(),
            nft: Some(self.value2.nft.clone()),
            collection: clone_opt_string(&ctx.nft_collection),
            created_lt: lt_to_i64(ctx.created_lt),
            created_at: ctx.created_at,
            message_hash: ctx.message_hash.clone(),
            raw_data: EventPayload::DirectSellState(self.duplicate()),
        };
        proof {
            assert(env@ =~= spec_direct_sell_envelope(self@, ctx@));
        }
        Ok(Decoded::RawEventRecord(env))
    }

    /// The live unit of work for one direct-sell state change: append the
    /// price observation, upsert the listing row and insert the envelope as
    /// one atomic step. When the envelope insert would touch an
    /// already-present message hash, the whole unit rolls back and the call
    /// still succeeds — a redelivered message has no visible effect.
    pub fn save_to_db(&self, db: &mut Db, ctx: &DecodeContext) -> (r: Result<(), DecodeError>)
        requires
            wf_db(old(db)@),
        ensures
            wf_db(final(db)@),
            final(db)@ == save_to_db_spec(old(db)@, self@, ctx@),
            r is Err <==> spec_state_of(self.to) is None,
    {
        let ghost pre = db@;
        let state = match state_from_raw(self.to) {
            Some(s) => s,
            None => {
                return Err(DecodeError::UnknownState);
            },
        };
        if is_pre_escrow(state) {
            return Ok(());
        }
        let (row, price) = match self.decode(ctx) {
            Ok(Decoded::DirectSellStateChanged(p)) => p,
            _ => {
                proof {
                    assert(false);
                }
                return Err(DecodeError::UnknownState);
            },
        };
        let env = match self.decode_event(ctx) {
            Ok(Decoded::RawEventRecord(e)) => e,
            _ => {
                proof {
                    assert(false);
                }
                return Err(DecodeError::UnknownState);
            },
        };
        if db.contains_hash(&env.message_hash) {
            return Ok(());
        }
        db.upsert_nft_price_history(price);
        db.upsert_direct_sell(row);
        let rows = db.save_event(env);
        proof {
            assert(rows == 1u64);
            assert(db@ =~= live_update_spec(
                pre,
                spec_direct_sell_row(self@, ctx@, state),
                Some(spec_direct_sell_price(self@, ctx@)),
                spec_direct_sell_envelope(self@, ctx@),
            ));
        }
        Ok(())
    }
}

/// Replaying the same state change — the same message hash — through the
/// live unit of work a second time changes nothing: the listing row stays,
/// and no further price-history row appears.
pub proof fn lemma_save_to_db_replay(db: DbView, e: DirectSellStateChangedV, ctx: DecodeContextV)
    ensures
        save_to_db_spec(save_to_db_spec(db, e, ctx), e, ctx) == save_to_db_spec(db, e, ctx),
{
    match spec_state_of(e.to) {
        None => {},
        Some(s) => {
            if !spec_is_pre_escrow(s) {
                crate::store::lemma_live_update_idempotent(
                    db,
                    spec_direct_sell_row(e, ctx, s),
                    Some(spec_direct_sell_price(e, ctx)),
                    spec_direct_sell_envelope(e, ctx),
                );
            }
        },
    }
}

/// Effect of the envelope-only path for one direct-buy state change.
pub open spec fn direct_buy_event_spec(
    db: DbView,
    e: DirectBuyStateChangedV,
    ctx: DecodeContextV,
) -> DbView {
    match spec_state_of(e.to) {
        None => db,
        Some(s) => if spec_is_pre_escrow(s) {
            db
        } else {
            crate::store::save_event_spec(db, spec_direct_buy_envelope(e, ctx))
        },
    }
}

impl DirectBuyStateChanged {
    /// Decode the raw envelope for this event through the same pre-escrow
    /// classification as the direct-sell path.
    pub fn decode_event(&self, ctx: &DecodeContext) -> (r: Result<Decoded, DecodeError>)
        ensures
            r is Err <==> spec_state_of(self.to) is None,
            r is Err ==> r == Err::<Decoded, DecodeError>(DecodeError::UnknownState),
            spec_state_of(self.to) matches Some(s) ==> (spec_is_pre_escrow(s) ==> r == Ok::<
                Decoded,
                DecodeError,
            >(Decoded::ShouldSkip)),
            spec_state_of(self.to) matches Some(s) ==> (!spec_is_pre_escrow(s) ==> (r matches Ok(
                Decoded::RawEventRecord(env),
            ) && env@ == spec_direct_buy_envelope(self@, ctx@))),
    {
        let state = match state_from_raw(self.to) {
            Some(s) => s,
            None => {
                return Err(DecodeError::UnknownState);
            },
        };
        if is_pre_escrow(state) {
            return Ok(Decoded::ShouldSkip);
        }
        let env = EventRecord {
            event_category: EventCategory::DirectBuy,
            event_type: EventType::DirectBuyStateChanged,
            address: ctx.account.clone(),
            nft: Some(self.nft.clone()),
            collection: clone_opt_string(&ctx.nft_collection),
            created_lt: lt_to_i64(ctx.created_lt),
            created_at: ctx.created_at,
            message_hash: ctx.message_hash.clone(),
            raw_data: EventPayload::DirectBuyState(self.duplicate()),
        };
        proof {
            assert(env@ =~= spec_direct_buy_envelope(self@, ctx@));
        }
        Ok(Decoded::RawEventRecord(env))
    }
}

} // verus!
