//! The background reconciliation loop's decisions. Each tick first reports
//! the connection flag (a false-to-true edge asks for a full republish),
//! then hands over the plants read from the store and gets back the
//! messages to publish: all of them on the first run, afterwards only for
//! plants whose status changed or that are new.
use vstd::prelude::*;
use std::collections::HashMap;
use crate::publish::{
    announce_of, messages_view, record_messages, refresh_of, Message, PlantRecord,
};
use crate::text::{as_opt_str, opt_string};
use crate::watering::{opt_int, status_on, stored_day, stored_day_of, watering, WateringStatus};

verus! {

broadcast use vstd::std_specs::hash::group_hash_axioms;

/// The loop's state as plain values.
pub struct CheckerModel {
    /// Last published status of each plant.
    pub cache: Map<i64, WateringStatus>,
    /// Whether no tick has read the store yet.
    pub first_run: bool,
    /// The connection flag as the previous tick saw it.
    pub was_connected: bool,
}

/// The status a stored plant has on day `today`.
pub open spec fn row_status(r: PlantRecord, today: int) -> WateringStatus {
    watering(opt_int(stored_day(opt_string(r.last_watered))), r.watering_interval_days as int, today).0
}

/// The state of the loop at its start.
pub open spec fn initial_model() -> CheckerModel {
    CheckerModel { cache: Map::empty(), first_run: true, was_connected: false }
}

/// Whether the flag's reading `connected` is a reconnect: false before,
/// true now, and not on the first run.
pub open spec fn is_reconnect(s: CheckerModel, connected: bool) -> bool {
    !s.first_run && !s.was_connected && connected
}

/// The state after a tick reads the connection flag. A reconnect empties
/// the cache.
pub open spec fn after_flag(s: CheckerModel, connected: bool) -> CheckerModel {
    if is_reconnect(s, connected) {
        CheckerModel { cache: Map::empty(), first_run: s.first_run, was_connected: true }
    } else {
        CheckerModel { cache: s.cache, first_run: s.first_run, was_connected: connected }
    }
}

/// The cache after the first `n` rows have been recorded in turn.
pub open spec fn cache_through(c: Map<i64, WateringStatus>, rows: Seq<PlantRecord>, today: int, n: int) -> Map<i64, WateringStatus>
    decreases n,
{
    if n <= 0 {
        c
    } else {
        cache_through(c, rows, today, n - 1).insert(rows[n - 1].id, row_status(rows[n - 1], today))
    }
}

/// Whether row `i` carries a status that differs from the cached one, or is
/// not cached at all.
pub open spec fn changed_at(c: Map<i64, WateringStatus>, rows: Seq<PlantRecord>, today: int, i: int) -> bool {
    let m = cache_through(c, rows, today, i);
    !m.contains_key(rows[i].id) || m[rows[i].id] != row_status(rows[i], today)
}

/// The messages that a tick in state `s` publishes for the first `n` rows.
pub open spec fn tick_messages(prefix: Seq<char>, s: CheckerModel, rows: Seq<PlantRecord>, today: int, n: int) -> Seq<(Seq<char>, Seq<char>, bool)>
    decreases n,
{
    if n <= 0 {
        Seq::empty()
    } else {
        tick_messages(prefix, s, rows, today, n - 1) + if s.first_run {
            announce_of(prefix, rows[n - 1], today)
        } else if changed_at(s.cache, rows, today, n - 1) {
            refresh_of(prefix, rows[n - 1], today)
        } else {
            Seq::empty()
        }
    }
}

/// The IDs of the given rows.
pub open spec fn ids_of(rows: Seq<PlantRecord>) -> Set<i64> {
    Set::new(|k: i64| exists|i: int| 0 <= i < rows.len() && #[trigger] rows[i].id == k)
}

/// Whether no two rows share an ID, as rows read from the store never do.
pub open spec fn distinct_ids(rows: Seq<PlantRecord>) -> bool {
    forall|i: int, j: int| 0 <= i < rows.len() && 0 <= j < rows.len() && i != j ==> #[trigger] rows[i].id != #[trigger] rows[j].id
}

/// The state after a tick has handled the rows read from the store: every
/// row's status recorded, entries of plants no longer stored dropped.
pub open spec fn after_rows(s: CheckerModel, rows: Seq<PlantRecord>, today: int) -> CheckerModel {
    CheckerModel {
        cache: cache_through(s.cache, rows, today, rows.len() as int).restrict(ids_of(rows)),
        first_run: false,
        was_connected: s.was_connected,
    }
}

/// The state after a tick whose store query failed.
pub open spec fn after_failed_query(s: CheckerModel) -> CheckerModel {
    CheckerModel { cache: s.cache, first_run: false, was_connected: s.was_connected }
}

/// The change-detection state of the background loop.
pub struct StateChecker {
    cache: HashMap<i64, WateringStatus>,
    first_run: bool,
    was_connected: bool,
}

impl StateChecker {
    /// The state as plain values.
    pub closed spec fn model(&self) -> CheckerModel {
        CheckerModel { cache: self.cache@, first_run: self.first_run, was_connected: self.was_connected }
    }

    /// A loop that has not ticked yet: empty cache, first run, not connected.
    pub fn new() -> (r: StateChecker)
        ensures
            r.model() == initial_model(),
    {
        StateChecker { cache: HashMap::new(), first_run: true, was_connected: false }
    }

    /// Whether this is the first run.
    pub fn is_first_run(&self) -> (r: bool)
        ensures
            r == self.model().first_run,
    {
        self.first_run
    }

    /// Reads the connection flag at the start of a tick. Returns whether it
    /// is a reconnect, on which the caller republishes every plant and ends
    /// the tick; the cache is then emptied.
    pub fn begin_tick(&mut self, connected: bool) -> (reconnected: bool)
        ensures
            reconnected == is_reconnect(old(self).model(), connected),
            final(self).model() == after_flag(old(self).model(), connected),
    {
        if !self.first_run && !self.was_connected && connected {
            self.cache = HashMap::new();
            self.was_connected = true;
            true
        } else {
            self.was_connected = connected;
            false
        }
    }

    /// Ends a tick whose store query failed: the cache stays as it was.
    pub fn query_failed(&mut self)
        ensures
            final(self).model() == after_failed_query(old(self).model()),
    {
        self.first_run = false;
    }

    /// Handles the rows read from the store on day `today`, and returns the
    /// messages to publish under `prefix`.
    pub fn apply_rows(&mut self, prefix: &str, rows: &Vec<PlantRecord>, today: i32) -> (r: Vec<Message>)
        ensures
            messages_view(r@) == tick_messages(prefix@, old(self).model(), rows@, today as int, rows@.len() as int),
            final(self).model() == after_rows(old(self).model(), rows@, today as int),
    {
        let ghost s0 = self.model();
        let first = self.first_run;
        let mut out: Vec<Message> = Vec::new();
        let mut i: usize = 0;
        while i < rows.len()
            invariant
                i <= rows@.len(),
                first == s0.first_run,
                self.first_run == s0.first_run,
                self.was_connected == s0.was_connected,
                self.cache@ == cache_through(s0.cache, rows@, today as int, i as int),
                messages_view(out@) == tick_messages(prefix@, s0, rows@, today as int, i as int),
            decreases rows.len() - i,
        {
            let row = &rows[i];
            let lw = as_opt_str(&row.last_watered);
            let (status, _) = status_on(stored_day_of(lw), row.watering_interval_days, today);
            assert(status == row_status(rows@[i as int], today as int));
            let changed = match self.cache.get(&row.id) {
                Some(prev) => *prev != status,
                None => true,
            };
            assert(changed == changed_at(s0.cache, rows@, today as int, i as int));
            if first || changed {
                let ghost before = out@;
                let mut more = record_messages(prefix, row, today, first);
                let ghost added = more@;
                out.append(&mut more);
                assert(messages_view(out@) =~= messages_view(before) + messages_view(added));
            }
            self.cache.insert(row.id, status);
            i = i + 1;
            assert(messages_view(out@) =~= tick_messages(prefix@, s0, rows@, today as int, i as int));
        }
        let ghost full = self.cache@;
        let mut kept: HashMap<i64, WateringStatus> = HashMap::new();
        let mut j: usize = 0;
        while j < rows.len()
            invariant
                j <= rows@.len(),
                self.cache@ == full,
                full == cache_through(s0.cache, rows@, today as int, rows@.len() as int),
                kept@ == full.restrict(ids_of(rows@.subrange(0, j as int))),
            decreases rows.len() - j,
        {
            let id = rows[j].id;
            proof {
                lemma_row_is_cached(s0.cache, rows@, today as int, rows@.len() as int, j as int);
            }
            match self.cache.get(&id) {
                Some(v) => {
                    kept.insert(id, *v);
                },
                None => {},
            }
            j = j + 1;
            proof {
                let before = rows@.subrange(0, j - 1);
                let now = rows@.subrange(0, j as int);
                assert forall|k: i64| ids_of(now).contains(k) == (ids_of(before).contains(k) || k == id) by {
                    if ids_of(now).contains(k) {
                        let w = choose|w: int| 0 <= w < now.len() && #[trigger] now[w].id == k;
                        if w < j - 1 {
                            assert(before[w].id == k);
                        }
                    }
                    if ids_of(before).contains(k) {
                        let w = choose|w: int| 0 <= w < before.len() && #[trigger] before[w].id == k;
                        assert(now[w].id == k);
                    }
                    if k == id {
                        assert(now[j - 1].id == k);
                    }
                }
                assert(kept@ =~= full.restrict(ids_of(now)));
            }
        }
        assert(rows@.subrange(0, rows@.len() as int) =~= rows@);
        self.cache = kept;
        self.first_run = false;
        out
    }
}

/// A row that has been recorded is in the cache.
proof fn lemma_row_is_cached(c: Map<i64, WateringStatus>, rows: Seq<PlantRecord>, today: int, n: int, j: int)
    requires
        0 <= j < n <= rows.len(),
    ensures
        cache_through(c, rows, today, n).contains_key(rows[j].id),
    decreases n,
{
    if j < n - 1 {
        lemma_row_is_cached(c, rows, today, n - 1, j);
    }
}

/// A key that none of the first `n` rows carries keeps its cache entry.
proof fn lemma_cache_untouched(c: Map<i64, WateringStatus>, rows: Seq<PlantRecord>, today: int, n: int, k: i64)
    requires
        0 <= n <= rows.len(),
        forall|i: int| 0 <= i < n ==> #[trigger] rows[i].id != k,
    ensures
        cache_through(c, rows, today, n).contains_key(k) == c.contains_key(k),
        c.contains_key(k) ==> cache_through(c, rows, today, n)[k] == c[k],
    decreases n,
{
    if n > 0 {
        lemma_cache_untouched(c, rows, today, n - 1, k);
        assert(rows[n - 1].id != k);
    }
}

/// With distinct IDs, the cache holds each recorded row's status.
proof fn lemma_cache_holds(c: Map<i64, WateringStatus>, rows: Seq<PlantRecord>, today: int, n: int, j: int)
    requires
        distinct_ids(rows),
        0 <= j < n <= rows.len(),
    ensures
        cache_through(c, rows, today, n).contains_key(rows[j].id),
        cache_through(c, rows, today, n)[rows[j].id] == row_status(rows[j], today),
    decreases n,
{
    if j < n - 1 {
        lemma_cache_holds(c, rows, today, n - 1, j);
        assert(rows[n - 1].id != rows[j].id);
    }
}

/// Two consecutive ticks that read the same plants on the same day: the
/// second one publishes nothing, unless its flag reading is a reconnect.
/// Plants read from the store have distinct IDs.
pub proof fn lemma_second_tick_is_quiet(
    prefix: Seq<char>,
    s: CheckerModel,
    rows: Seq<PlantRecord>,
    today: int,
    connected: bool,
)
    requires
        distinct_ids(rows),
        !is_reconnect(after_rows(s, rows, today), connected),
    ensures
        tick_messages(
            prefix,
            after_flag(after_rows(s, rows, today), connected),
            rows,
            today,
            rows.len() as int,
        ) == Seq::<(Seq<char>, Seq<char>, bool)>::empty(),
{
    let s2 = after_flag(after_rows(s, rows, today), connected);
    assert forall|j: int| 0 <= j < rows.len() implies !changed_at(s2.cache, rows, today, j) by {
        let full = cache_through(s.cache, rows, today, rows.len() as int);
        lemma_cache_holds(s.cache, rows, today, rows.len() as int, j);
        assert(ids_of(rows).contains(rows[j].id));
        assert(s2.cache.contains_key(rows[j].id));
        assert(s2.cache[rows[j].id] == row_status(rows[j], today));
        assert forall|i: int| 0 <= i < j implies #[trigger] rows[i].id != rows[j].id by {
            assert(i != j);
        }
        lemma_cache_untouched(s2.cache, rows, today, j, rows[j].id);
    }
    lemma_quiet_prefix(prefix, s2, rows, today, rows.len() as int);
}

proof fn lemma_quiet_prefix(prefix: Seq<char>, s: CheckerModel, rows: Seq<PlantRecord>, today: int, n: int)
    requires
        0 <= n <= rows.len(),
        !s.first_run,
        forall|j: int| 0 <= j < rows.len() ==> !#[trigger] changed_at(s.cache, rows, today, j),
    ensures
        tick_messages(prefix, s, rows, today, n) == Seq::<(Seq<char>, Seq<char>, bool)>::empty(),
    decreases n,
{
    if n > 0 {
        lemma_quiet_prefix(prefix, s, rows, today, n - 1);
        assert(!changed_at(s.cache, rows, today, n - 1));
        assert(tick_messages(prefix, s, rows, today, n) =~= Seq::<(Seq<char>, Seq<char>, bool)>::empty());
    }
}

/// Two consecutive ticks, neither of them a reconnect, that both read the
/// same plants on the same day: the first may publish (it is the first run,
/// or statuses changed), the second publishes nothing. Plants read from the
/// store have distinct IDs.
pub proof fn lemma_unchanged_ticks_publish_once(
    prefix: Seq<char>,
    s: CheckerModel,
    first_flag: bool,
    second_flag: bool,
    rows: Seq<PlantRecord>,
    today: int,
)
    requires
        distinct_ids(rows),
        !is_reconnect(s, first_flag),
        !is_reconnect(after_rows(after_flag(s, first_flag), rows, today), second_flag),
    ensures
        tick_messages(
            prefix,
            after_flag(after_rows(after_flag(s, first_flag), rows, today), second_flag),
            rows,
            today,
            rows.len() as int,
        ) == Seq::<(Seq<char>, Seq<char>, bool)>::empty(),
{
    lemma_second_tick_is_quiet(prefix, after_flag(s, first_flag), rows, today, second_flag);
}

} // verus!
