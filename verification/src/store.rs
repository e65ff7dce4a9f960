//! Model of the persistent store and its idempotent operations.
//!
//! The store keeps four tables: the deduplicated event log (live inserts and
//! bulk archival both land here, keyed by message hash), the current-state
//! direct-sell listings (keyed by listing address), the append-only price
//! ledger, and the whitelist of tracked addresses. Uniqueness of the three
//! keys is the store's well-formedness invariant; every operation preserves
//! it, and the contracts below say per operation exactly which rows appear.

use vstd::prelude::*;

use crate::types::{
    EventRecord, EventRecordV, NftDirectSell, NftDirectSellV, NftPriceHistory, NftPriceHistoryV,
    WhitelistAddress, WhitelistAddressV,
};

verus! {

/// Mathematical content of the store: one sequence of rows per table.
#[verifier::ext_equal]
pub struct DbView {
    pub events: Seq<EventRecordV>,
    pub direct_sell: Seq<NftDirectSellV>,
    pub price_history: Seq<NftPriceHistoryV>,
    pub whitelist: Seq<WhitelistAddressV>,
}

/// Whether the event log already holds a row with message hash `h`.
pub open spec fn has_hash(events: Seq<EventRecordV>, h: Seq<char>) -> bool {
    exists|i: int| 0 <= i < events.len() && events[i].message_hash == h
}

/// At most one event row per message hash.
pub open spec fn unique_hashes(events: Seq<EventRecordV>) -> bool {
    forall|i: int, j: int|
        0 <= i < j < events.len() ==> events[i].message_hash != events[j].message_hash
}

/// Whether a listing row with address `a` exists.
pub open spec fn has_listing(rows: Seq<NftDirectSellV>, a: Seq<char>) -> bool {
    exists|i: int| 0 <= i < rows.len() && rows[i].address == a
}

/// The index of the listing row with address `a`, where one exists.
pub open spec fn listing_index(rows: Seq<NftDirectSellV>, a: Seq<char>) -> int {
    choose|i: int| 0 <= i < rows.len() && rows[i].address == a
}

/// At most one listing row per address.
pub open spec fn unique_listings(rows: Seq<NftDirectSellV>) -> bool {
    forall|i: int, j: int| 0 <= i < j < rows.len() ==> rows[i].address != rows[j].address
}

/// Whether `a` is already whitelisted.
pub open spec fn has_whitelisted(wl: Seq<WhitelistAddressV>, a: Seq<char>) -> bool {
    exists|i: int| 0 <= i < wl.len() && wl[i].address == a
}

/// At most one whitelist entry per address.
pub open spec fn unique_whitelist(wl: Seq<WhitelistAddressV>) -> bool {
    forall|i: int, j: int| 0 <= i < j < wl.len() ==> wl[i].address != wl[j].address
}

/// The store's invariant: the event log, the listings and the whitelist each
/// keyed uniquely.
pub open spec fn wf_db(db: DbView) -> bool {
    unique_hashes(db.events) && unique_listings(db.direct_sell) && unique_whitelist(db.whitelist)
}

/// Insert one event row; a second row with an already-present message hash is
/// a silent no-op.
pub open spec fn save_event_spec(db: DbView, e: EventRecordV) -> DbView {
    if has_hash(db.events, e.message_hash) {
        db
    } else {
        DbView { events: db.events.push(e), ..db }
    }
}

/// Replace the row with the same address, or append a fresh one.
pub open spec fn upsert_listing_spec(
    rows: Seq<NftDirectSellV>,
    r: NftDirectSellV,
) -> Seq<NftDirectSellV> {
    if has_listing(rows, r.address) {
        rows.update(listing_index(rows, r.address), r)
    } else {
        rows.push(r)
    }
}

/// Add a whitelist entry; adding an already-present address changes nothing.
pub open spec fn whitelist_add_spec(
    wl: Seq<WhitelistAddressV>,
    e: WhitelistAddressV,
) -> Seq<WhitelistAddressV> {
    if has_whitelisted(wl, e.address) {
        wl
    } else {
        wl.push(e)
    }
}

/// The live unit of work: append the price observation where one was derived,
/// upsert the listing row, and insert the envelope — all or nothing. When the
/// envelope's message hash is already present the whole unit is rolled back,
/// so a redelivered message has no visible effect.
pub open spec fn live_update_spec(
    db: DbView,
    row: NftDirectSellV,
    price: Option<NftPriceHistoryV>,
    env: EventRecordV,
) -> DbView {
    if has_hash(db.events, env.message_hash) {
        db
    } else {
        DbView {
            events: db.events.push(env),
            direct_sell: upsert_listing_spec(db.direct_sell, row),
            price_history: match price {
                Some(p) => db.price_history.push(p),
                None => db.price_history,
            },
            whitelist: db.whitelist,
        }
    }
}

/// Bulk archival of a batch, row by row in batch order, each row inserted
/// only if its message hash is not yet present.
pub open spec fn archive_spec(
    events: Seq<EventRecordV>,
    batch: Seq<EventRecordV>,
) -> Seq<EventRecordV>
    decreases batch.len(),
{
    if batch.len() == 0 {
        events
    } else {
        let pre = archive_spec(events, batch.drop_last());
        let e = batch.last();
        if has_hash(pre, e.message_hash) {
            pre
        } else {
            pre.push(e)
        }
    }
}

/// The store model.
pub struct Db {
    pub events: Vec<EventRecord>,
    pub direct_sell: Vec<NftDirectSell>,
    pub price_history: Vec<NftPriceHistory>,
    pub whitelist: Vec<WhitelistAddress>,
}

impl View for Db {
    type V = DbView;

    open spec fn view(&self) -> DbView {
        DbView {
            events: self.events.deep_view(),
            direct_sell: self.direct_sell.deep_view(),
            price_history: self.price_history.deep_view(),
            whitelist: self.whitelist.deep_view(),
        }
    }
}

impl Db {
    /// An empty store.
    pub fn new() -> (r: Db)
        ensures
            r@.events == Seq::<EventRecordV>::empty(),
            r@.direct_sell == Seq::<NftDirectSellV>::empty(),
            r@.price_history == Seq::<NftPriceHistoryV>::empty(),
            r@.whitelist == Seq::<WhitelistAddressV>::empty(),
            wf_db(r@),
    {
        let r = Db {
            events: Vec::new(),
            direct_sell: Vec::new(),
            price_history: Vec::new(),
            whitelist: Vec::new(),
        };
        proof {
            assert(r@.events =~= Seq::<EventRecordV>::empty());
            assert(r@.direct_sell =~= Seq::<NftDirectSellV>::empty());
            assert(r@.price_history =~= Seq::<NftPriceHistoryV>::empty());
            assert(r@.whitelist =~= Seq::<WhitelistAddressV>::empty());
        }
        r
    }

    /// Whether the event log holds a row with the given message hash.
    #[verifier::loop_isolation(false)]
    pub fn contains_hash(&self, h: &String) -> (r: bool)
        ensures
            r == has_hash(self@.events, h@),
    {
        let n = self.events.len();
        let mut i: usize = 0;
        while i < n
            invariant
                i <= n,
                n == self.events.len(),
                forall|j: int| 0 <= j < i ==> self@.events[j].message_hash != h@,
            decreases n - i,
        {
            if self.events[i].message_hash == *h {
                assert(self@.events[i as int].message_hash == h@);
                return true;
            }
            i += 1;
        }
        false
    }

    /// Insert one event row, ignoring it when its message hash is already
    /// present; the result is how many rows were inserted.
    pub fn save_event(&mut self, e: EventRecord) -> (rows: u64)
        ensures
            final(self)@ == save_event_spec(old(self)@, e@),
            rows == (if has_hash(old(self)@.events, e@.message_hash) {
                0u64
            } else {
                1u64
            }),
            wf_db(old(self)@) ==> wf_db(final(self)@),
    {
        let ghost pre = self@;
        if self.contains_hash(&e.message_hash) {
            0
        } else {
            self.events.push(e);
            proof {
                assert(self@.events =~= pre.events.push(e@));
                assert(self@ =~= save_event_spec(pre, e@));
            }
            1
        }
    }

    /// Append one observation to the price ledger.
    pub fn upsert_nft_price_history(&mut self, p: NftPriceHistory)
        ensures
            final(self)@ == (DbView { price_history: old(self)@.price_history.push(p@), ..old(self)@ }),
            wf_db(old(self)@) ==> wf_db(final(self)@),
    {
        let ghost pre = self@;
        self.price_history.push(p);
        proof {
            assert(self@.price_history =~= pre.price_history.push(p@));
            assert(self@ =~= (DbView { price_history: pre.price_history.push(p@), ..pre }));
        }
    }

    /// Insert or replace the listing row keyed by the row's address;
    /// last writer wins.
    #[verifier::loop_isolation(false)]
    pub fn upsert_direct_sell(&mut self, row: NftDirectSell)
        requires
            unique_listings(old(self)@.direct_sell),
        ensures
            final(self)@ == (DbView {
                direct_sell: upsert_listing_spec(old(self)@.direct_sell, row@),
                ..old(self)@
            }),
            wf_db(old(self)@) ==> wf_db(final(self)@),
    {
        let ghost pre = self@;
        let n = self.direct_sell.len();
        let mut i: usize = 0;
        while i < n
            invariant
                i <= n,
                n == self.direct_sell.len(),
                self@ == pre,
                unique_listings(pre.direct_sell),
                forall|j: int| 0 <= j < i ==> pre.direct_sell[j].address != row@.address,
            decreases n - i,
        {
            if self.direct_sell[i].address == row.address {
                proof {
                    assert(pre.direct_sell[i as int].address == row@.address);
                    assert(has_listing(pre.direct_sell, row@.address));
                    let k = listing_index(pre.direct_sell, row@.address);
                    assert(0 <= k < pre.direct_sell.len() && pre.direct_sell[k].address
                        == row@.address);
                    assert(k == i);
                }
                self.direct_sell[i] = row;
                proof {
                    assert(self@.direct_sell =~= pre.direct_sell.update(i as int, row@));
                    assert(self@.direct_sell =~= upsert_listing_spec(pre.direct_sell, row@));
                    assert(self@ =~= (DbView {
                        direct_sell: upsert_listing_spec(pre.direct_sell, row@),
                        ..pre
                    }));
                    assert(wf_db(pre) ==> wf_db(self@));
                }
                return ;
            }
            i += 1;
        }
        proof {
            assert(!has_listing(pre.direct_sell, row@.address));
        }
        self.direct_sell.push(row);
        proof {
            assert(self@.direct_sell =~= pre.direct_sell.push(row@));
            assert(self@ =~= (DbView {
                direct_sell: upsert_listing_spec(pre.direct_sell, row@),
                ..pre
            }));
            assert(wf_db(pre) ==> wf_db(self@)) by {
                if wf_db(pre) {
                    assert forall|a: int, b: int|
                        0 <= a < b < self@.direct_sell.len() implies self@.direct_sell[a].address
                        != self@.direct_sell[b].address by {
                        if b == pre.direct_sell.len() {
                            assert(self@.direct_sell[a] == pre.direct_sell[a]);
                        }
                    }
                }
            }
        }
    }

    /// Add an address to the whitelist with its deploying parent, where one
    /// is known; adding an address a second time is a no-op, not an error.
    #[verifier::loop_isolation(false)]
    pub fn add_whitelist_address(&mut self, address: &String, parent: Option<String>) -> (added:
        bool)
        ensures
            final(self)@ == (DbView {
                whitelist: whitelist_add_spec(
                    old(self)@.whitelist,
                    WhitelistAddressV { address: address@, parent: parent.deep_view() },
                ),
                ..old(self)@
            }),
            added == !has_whitelisted(old(self)@.whitelist, address@),
            wf_db(old(self)@) ==> wf_db(final(self)@),
    {
        let ghost pre = self@;
        let ghost entry = WhitelistAddressV { address: address@, parent: parent.deep_view() };
        let n = self.whitelist.len();
        let mut i: usize = 0;
        while i < n
            invariant
                i <= n,
                n == self.whitelist.len(),
                self@ == pre,
                forall|j: int| 0 <= j < i ==> pre.whitelist[j].address != address@,
            decreases n - i,
        {
            if self.whitelist[i].address == *address {
                proof {
                    assert(pre.whitelist[i as int].address == address@);
                    assert(has_whitelisted(pre.whitelist, address@));
                    assert(self@ =~= (DbView {
                        whitelist: whitelist_add_spec(pre.whitelist, entry),
                        ..pre
                    }));
                }
                return false;
            }
            i += 1;
        }
        proof {
            assert(!has_whitelisted(pre.whitelist, address@));
        }
        self.whitelist.push(WhitelistAddress { address: address.clone(), parent });
        proof {
            assert(self@.whitelist =~= pre.whitelist.push(entry));
            assert(self@ =~= (DbView { whitelist: whitelist_add_spec(pre.whitelist, entry), ..pre }));
            assert(wf_db(pre) ==> wf_db(self@)) by {
                if wf_db(pre) {
                    assert forall|a: int, b: int|
                        0 <= a < b < self@.whitelist.len() implies self@.whitelist[a].address
                        != self@.whitelist[b].address by {
                        if b == pre.whitelist.len() {
                            assert(self@.whitelist[a] == pre.whitelist[a]);
                        }
                    }
                }
            }
        }
        true
    }
}

/// A fresh message hash keeps the event log uniquely keyed.
pub proof fn lemma_unique_push(events: Seq<EventRecordV>, e: EventRecordV)
    requires
        unique_hashes(events),
        !has_hash(events, e.message_hash),
    ensures
        unique_hashes(events.push(e)),
{
    assert forall|i: int, j: int| 0 <= i < j < events.push(e).len() implies events.push(e)[i].message_hash
        != events.push(e)[j].message_hash by {
        if j == events.len() {
            assert(events.push(e)[i] == events[i]);
            if events[i].message_hash == e.message_hash {
                assert(has_hash(events, e.message_hash));
            }
        } else {
            assert(events.push(e)[i] == events[i]);
            assert(events.push(e)[j] == events[j]);
        }
    }
}

/// Appending a row keeps every hash that was present.
pub proof fn lemma_push_preserves_hash(events: Seq<EventRecordV>, e: EventRecordV, h: Seq<char>)
    requires
        has_hash(events, h),
    ensures
        has_hash(events.push(e), h),
{
    let i = choose|i: int| 0 <= i < events.len() && events[i].message_hash == h;
    assert(events.push(e)[i].message_hash == h);
}

/// After archiving a batch, the hash of every batch row is present.
pub proof fn lemma_archive_covers(events: Seq<EventRecordV>, batch: Seq<EventRecordV>)
    ensures
        forall|k: int|
            0 <= k < batch.len() ==> has_hash(
                archive_spec(events, batch),
                #[trigger] batch[k].message_hash,
            ),
    decreases batch.len(),
{
    if batch.len() > 0 {
        lemma_archive_covers(events, batch.drop_last());
        let pre = archive_spec(events, batch.drop_last());
        let full = archive_spec(events, batch);
        if !has_hash(pre, batch.last().message_hash) {
            assert(full[pre.len() as int].message_hash == batch.last().message_hash);
        }
        assert(has_hash(full, batch.last().message_hash));
        assert forall|k: int| 0 <= k < batch.len() implies has_hash(
            full,
            #[trigger] batch[k].message_hash,
        ) by {
            if k < batch.len() - 1 {
                assert(batch.drop_last()[k] == batch[k]);
                assert(has_hash(pre, batch[k].message_hash));
                if !has_hash(pre, batch.last().message_hash) {
                    lemma_push_preserves_hash(pre, batch.last(), batch[k].message_hash);
                }
            } else {
                assert(batch[k] == batch.last());
            }
        }
    }
}

/// Archiving a batch whose hashes are all present already changes nothing.
pub proof fn lemma_archive_of_covered(events: Seq<EventRecordV>, batch: Seq<EventRecordV>)
    requires
        forall|k: int|
            0 <= k < batch.len() ==> has_hash(events, #[trigger] batch[k].message_hash),
    ensures
        archive_spec(events, batch) == events,
    decreases batch.len(),
{
    if batch.len() > 0 {
        assert forall|k: int| 0 <= k < batch.drop_last().len() implies has_hash(
            events,
            #[trigger] batch.drop_last()[k].message_hash,
        ) by {
            assert(batch.drop_last()[k] == batch[k]);
        }
        lemma_archive_of_covered(events, batch.drop_last());
        assert(batch.last() == batch[batch.len() - 1]);
    }
}

/// Idempotent archival: archiving the same batch a second time yields the
/// very same event log, so each distinct message hash has exactly one row.
pub proof fn lemma_save_raw_event_idempotent(events: Seq<EventRecordV>, batch: Seq<EventRecordV>)
    ensures
        archive_spec(archive_spec(events, batch), batch) == archive_spec(events, batch),
{
    lemma_archive_covers(events, batch);
    lemma_archive_of_covered(archive_spec(events, batch), batch);
}

/// Archival keeps the event log uniquely keyed by message hash.
pub proof fn lemma_archive_preserves_unique(events: Seq<EventRecordV>, batch: Seq<EventRecordV>)
    requires
        unique_hashes(events),
    ensures
        unique_hashes(archive_spec(events, batch)),
    decreases batch.len(),
{
    if batch.len() > 0 {
        lemma_archive_preserves_unique(events, batch.drop_last());
        let pre = archive_spec(events, batch.drop_last());
        if !has_hash(pre, batch.last().message_hash) {
            lemma_unique_push(pre, batch.last());
        }
    }
}

/// Atomicity of the live unit of work: when the envelope's message hash is
/// already present (the insert reports zero rows), neither the price append
/// nor the listing upsert becomes visible — no table changes at all.
pub proof fn lemma_live_replay_no_effect(
    db: DbView,
    row: NftDirectSellV,
    price: Option<NftPriceHistoryV>,
    env: EventRecordV,
)
    requires
        has_hash(db.events, env.message_hash),
    ensures
        live_update_spec(db, row, price, env) == db,
        live_update_spec(db, row, price, env).direct_sell == db.direct_sell,
        live_update_spec(db, row, price, env).price_history == db.price_history,
{
}

/// Idempotent live effect: applying the same live unit of work twice leaves
/// exactly the state of applying it once.
pub proof fn lemma_live_update_idempotent(
    db: DbView,
    row: NftDirectSellV,
    price: Option<NftPriceHistoryV>,
    env: EventRecordV,
)
    ensures
        live_update_spec(live_update_spec(db, row, price, env), row, price, env)
            == live_update_spec(db, row, price, env),
{
    let once = live_update_spec(db, row, price, env);
    if !has_hash(db.events, env.message_hash) {
        assert(once.events[db.events.len() as int].message_hash == env.message_hash);
        assert(has_hash(once.events, env.message_hash));
    }
}

/// Adding a whitelisted address again — whatever parent the duplicate names —
/// changes nothing.
pub proof fn lemma_whitelist_add_idempotent(
    wl: Seq<WhitelistAddressV>,
    e: WhitelistAddressV,
    e2: WhitelistAddressV,
)
    requires
        e2.address == e.address,
    ensures
        whitelist_add_spec(whitelist_add_spec(wl, e), e2) == whitelist_add_spec(wl, e),
{
    if !has_whitelisted(wl, e.address) {
        assert(whitelist_add_spec(wl, e)[wl.len() as int].address == e.address);
        assert(has_whitelisted(whitelist_add_spec(wl, e), e2.address));
    }
}

/// After an add the address is whitelisted.
pub proof fn lemma_whitelist_add_member(wl: Seq<WhitelistAddressV>, e: WhitelistAddressV)
    ensures
        has_whitelisted(whitelist_add_spec(wl, e), e.address),
{
    if !has_whitelisted(wl, e.address) {
        assert(whitelist_add_spec(wl, e)[wl.len() as int].address == e.address);
    }
}

/// An add keeps every address that was whitelisted.
pub proof fn lemma_whitelist_add_preserves(
    wl: Seq<WhitelistAddressV>,
    e: WhitelistAddressV,
    a: Seq<char>,
)
    requires
        has_whitelisted(wl, a),
    ensures
        has_whitelisted(whitelist_add_spec(wl, e), a),
{
    if !has_whitelisted(wl, e.address) {
        let i = choose|i: int| 0 <= i < wl.len() && wl[i].address == a;
        assert(whitelist_add_spec(wl, e)[i].address == a);
    }
}

/// An add keeps the whitelist uniquely keyed.
pub proof fn lemma_whitelist_add_unique(wl: Seq<WhitelistAddressV>, e: WhitelistAddressV)
    requires
        unique_whitelist(wl),
    ensures
        unique_whitelist(whitelist_add_spec(wl, e)),
{
    if !has_whitelisted(wl, e.address) {
        assert forall|a: int, b: int|
            0 <= a < b < whitelist_add_spec(wl, e).len() implies whitelist_add_spec(wl, e)[a].address
            != whitelist_add_spec(wl, e)[b].address by {
            if b == wl.len() {
                assert(whitelist_add_spec(wl, e)[a] == wl[a]);
                if wl[a].address == e.address {
                    assert(has_whitelisted(wl, e.address));
                }
            } else {
                assert(whitelist_add_spec(wl, e)[a] == wl[a]);
                assert(whitelist_add_spec(wl, e)[b] == wl[b]);
            }
        }
    }
}

/// Batched, deduplicated archival of envelope records: every row whose
/// message hash is new is appended in batch order, every other row is
/// silently ignored, so a batch — or an overlap of batches — is safe to
/// replay.
#[verifier::loop_isolation(false)]
pub fn save_raw_event(db: &mut Db, events: &Vec<EventRecord>)
    ensures
        final(db)@ == (DbView {
            events: archive_spec(old(db)@.events, events.deep_view()),
            ..old(db)@
        }),
        wf_db(old(db)@) ==> wf_db(final(db)@),
{
    let ghost batch = events.deep_view();
    let n = events.len();
    let mut j: usize = 0;
    while j < n
        invariant
            j <= n,
            n == events@.len(),
            db@ == (DbView { events: archive_spec(old(db)@.events, batch.take(j as int)), ..old(db)@ }),
            wf_db(old(db)@) ==> wf_db(db@),
        decreases n - j,
    {
        proof {
            assert(batch.take(j as int + 1).drop_last() =~= batch.take(j as int));
            assert(batch.take(j as int + 1).last() == batch[j as int]);
        }
        let e = &events[j];
        let ghost pre = db@;
        if !db.contains_hash(&e.message_hash) {
            db.events.push(e.duplicate());
            proof {
                assert(db@.events =~= pre.events.push(batch[j as int]));
                assert(db@ =~= (DbView {
                    events: archive_spec(old(db)@.events, batch.take(j as int + 1)),
                    ..old(db)@
                }));
                if wf_db(old(db)@) {
                    lemma_unique_push(pre.events, batch[j as int]);
                }
            }
        } else {
            proof {
                assert(db@ =~= (DbView {
                    events: archive_spec(old(db)@.events, batch.take(j as int + 1)),
                    ..old(db)@
                }));
            }
        }
        j += 1;
    }
    proof {
        assert(batch.take(n as int) =~= batch);
    }
}

} // verus!
