//! Fixed-window admission control for the public session endpoints.
//!
//! One counter and one window start are kept per key, with the length of the
//! window that the key was last checked against. Nothing runs in the
//! background to reset a counter: a check that finds the window run out
//! starts a new one. A sweep drops the counters whose window ended at least
//! a window ago, which no later check can tell from a counter that was never
//! there. Instants are nanoseconds on the limiter's own monotonic clock,
//! which starts at zero when the limiter is made.
//!
//! Every operation takes the limiter by `&mut`, so that a check and the
//! increment that follows it can never be parted: whoever shares a limiter
//! between tasks puts it behind one lock.

use vstd::prelude::*;
use crate::error::{AppError, AppResult};

verus! {

/// `std::time::Instant`, carried through and never looked into.
#[verifier::external_type_specification]
#[verifier::external_body]
pub struct ExInstant(std::time::Instant);

/// Requests admitted per window on the session endpoints.
pub const MAX_REQUESTS: u32 = 5;

/// Length of a window on the session endpoints, in seconds.
pub const WINDOW_SECS: u64 = 60;

/// Requests admitted per window where anonymous sessions are created.
pub const DEMO_MAX_REQUESTS: u32 = 3;

/// Length of a window where anonymous sessions are created, in seconds.
pub const DEMO_WINDOW_SECS: u64 = 3600;

/// Nanoseconds in a second.
pub const NANOS_PER_SEC: u128 = 1_000_000_000;

/// A sweep keeps a counter for this many of its windows after its window
/// began.
pub const SWEEP_WINDOWS: u128 = 2;

/// The counter of one key.
#[derive(Debug, Clone, Copy, PartialEq, Eq, Structural)]
pub struct Window {
    /// Requests admitted since `window_start`.
    pub count: u32,
    /// The instant at which the window began.
    pub window_start: u128,
    /// Length of the window in seconds, as of the last check.
    pub window_secs: u64,
}

struct RateLimitEntry {
    key: String,
    count: u32,
    window_start: u128,
    window_secs: u64,
}

/// The counters of all keys seen since the last sweep, kept as a list in
/// which no key stands twice.
pub struct RateLimitState {
    entries: Vec<RateLimitEntry>,
    origin: std::time::Instant,
}

/// Nanoseconds from `start` to `now`; zero where `now` is the earlier one.
pub open spec fn elapsed(now: u128, start: u128) -> u128 {
    if now >= start {
        (now - start) as u128
    } else {
        0
    }
}

/// Length of a window of `window_secs` seconds, in nanoseconds.
pub open spec fn window_nanos(window_secs: u64) -> u128 {
    (window_secs * NANOS_PER_SEC) as u128
}

/// The counter that a check at `now` works on: the stored one while its
/// window lasts, and a new empty window from `now` where the key is unknown or
/// more than a whole window has passed.
pub open spec fn current_window(
    state: Map<Seq<char>, Window>,
    key: Seq<char>,
    window_secs: u64,
    now: u128,
) -> Window {
    if state.contains_key(key) && elapsed(now, state[key].window_start) <= window_nanos(window_secs) {
        Window { count: state[key].count, window_start: state[key].window_start, window_secs }
    } else {
        Window { count: 0, window_start: now, window_secs }
    }
}

/// Whether a check at `now` admits the request.
pub open spec fn admits(
    state: Map<Seq<char>, Window>,
    key: Seq<char>,
    max_requests: u32,
    window_secs: u64,
    now: u128,
) -> bool {
    current_window(state, key, window_secs, now).count < max_requests
}

/// What a check returns: the requests left in the window after this one, or
/// the nanoseconds until the window runs out.
pub open spec fn check_result(
    state: Map<Seq<char>, Window>,
    key: Seq<char>,
    max_requests: u32,
    window_secs: u64,
    now: u128,
) -> Result<u32, u128> {
    let w = current_window(state, key, window_secs, now);
    if w.count < max_requests {
        Ok((max_requests - w.count - 1) as u32)
    } else {
        Err((window_nanos(window_secs) - elapsed(now, w.window_start)) as u128)
    }
}

/// The counters after a check: the key's window is the current one, counted
/// up by one where the request was admitted; no other key changes.
pub open spec fn after_check(
    state: Map<Seq<char>, Window>,
    key: Seq<char>,
    max_requests: u32,
    window_secs: u64,
    now: u128,
) -> Map<Seq<char>, Window> {
    let w = current_window(state, key, window_secs, now);
    if w.count < max_requests {
        state.insert(key, Window { count: (w.count + 1) as u32, ..w })
    } else {
        state.insert(key, w)
    }
}

/// A check of `key` at the instant `now` led from `before` to `after` and
/// returned `outcome`.
pub open spec fn checked_at(
    before: Map<Seq<char>, Window>,
    after: Map<Seq<char>, Window>,
    outcome: Result<u32, u128>,
    key: Seq<char>,
    max_requests: u32,
    window_secs: u64,
    now: u128,
) -> bool {
    &&& outcome == check_result(before, key, max_requests, window_secs, now)
    &&& after == after_check(before, key, max_requests, window_secs, now)
}

/// Whether a sweep at `now` keeps a counter: it does until two of the
/// counter's windows have passed since the window began.
pub open spec fn survives_sweep(w: Window, now: u128) -> bool {
    elapsed(now, w.window_start) < SWEEP_WINDOWS * window_nanos(w.window_secs)
}

/// The counters after a sweep at `now`.
pub open spec fn after_sweep(state: Map<Seq<char>, Window>, now: u128) -> Map<Seq<char>, Window> {
    Map::new(
        |key: Seq<char>| state.contains_key(key) && survives_sweep(state[key], now),
        |key: Seq<char>| state[key],
    )
}

spec fn window_of(entry: RateLimitEntry) -> Window {
    Window { count: entry.count, window_start: entry.window_start, window_secs: entry.window_secs }
}

spec fn distinct_keys(entries: Seq<RateLimitEntry>) -> bool {
    forall|i: int, j: int|
        0 <= i < entries.len() && 0 <= j < entries.len() && i != j ==> entries[i].key@ != entries[j].key@
}

spec fn holds_key(entries: Seq<RateLimitEntry>, key: Seq<char>) -> bool {
    exists|i: int| 0 <= i < entries.len() && #[trigger] entries[i].key@ == key
}

spec fn slot_of(entries: Seq<RateLimitEntry>, key: Seq<char>) -> int {
    choose|i: int| 0 <= i < entries.len() && #[trigger] entries[i].key@ == key
}

spec fn taken_from(before: Seq<RateLimitEntry>, upto: int, entry: RateLimitEntry, now: u128) -> bool {
    exists|j: int|
        0 <= j < upto && #[trigger] before[j].key@ == entry.key@ && window_of(before[j]) == window_of(entry)
            && survives_sweep(window_of(before[j]), now)
}

spec fn source_of(before: Seq<RateLimitEntry>, upto: int, entry: RateLimitEntry, now: u128) -> int {
    choose|j: int|
        0 <= j < upto && #[trigger] before[j].key@ == entry.key@ && window_of(before[j]) == window_of(entry)
            && survives_sweep(window_of(before[j]), now)
}

spec fn counters(entries: Seq<RateLimitEntry>) -> Map<Seq<char>, Window> {
    Map::new(
        |key: Seq<char>| holds_key(entries, key),
        |key: Seq<char>| window_of(entries[slot_of(entries, key)]),
    )
}

proof fn lemma_counter_at(entries: Seq<RateLimitEntry>, i: int)
    requires
        distinct_keys(entries),
        0 <= i < entries.len(),
    ensures
        counters(entries).contains_key(entries[i].key@),
        counters(entries)[entries[i].key@] == window_of(entries[i]),
{
    let key = entries[i].key@;
    assert(holds_key(entries, key));
    let j = slot_of(entries, key);
    assert(0 <= j < entries.len() && entries[j].key@ == key);
    assert(j == i);
}

impl View for RateLimitState {
    type V = Map<Seq<char>, Window>;

    closed spec fn view(&self) -> Map<Seq<char>, Window> {
        counters(self.entries@)
    }
}

/// `std::time::Instant::now()`: the present instant of the monotonic clock.
#[verifier::external_body]
fn instant_now() -> std::time::Instant {
    std::time::Instant::now()
}

/// `Instant::elapsed` in nanoseconds: the time that has passed on the
/// monotonic clock since `origin`.
#[verifier::external_body]
fn nanos_since(origin: &std::time::Instant) -> u128 {
    origin.elapsed().as_nanos()
}

impl Default for RateLimitState {
    fn default() -> (limiter: Self)
        ensures
            limiter@ == Map::<Seq<char>, Window>::empty(),
    {
        RateLimitState::new()
    }
}

fn position(entries: &Vec<RateLimitEntry>, key: &str) -> (slot: Option<usize>)
    ensures
        slot matches Some(i) ==> i < entries@.len() && entries@[i as int].key@ == key@,
        slot is None ==> !holds_key(entries@, key@),
{
    let wanted = key.to_owned();
    let mut i: usize = 0;
    while i < entries.len()
        invariant
            i <= entries@.len(),
            wanted@ == key@,
            forall|j: int| 0 <= j < i ==> entries@[j].key@ != key@,
        decreases entries@.len() - i,
    {
        if entries[i].key == wanted {
            return Some(i);
        }
        i += 1;
    }
    None
}

impl RateLimitState {
    #[verifier::type_invariant]
    spec fn keys_are_distinct(&self) -> bool {
        distinct_keys(self.entries@)
    }

    /// A limiter that has seen no key; its clock starts now.
    pub fn new() -> (limiter: Self)
        ensures
            limiter@ == Map::<Seq<char>, Window>::empty(),
    {
        let limiter = RateLimitState { entries: Vec::new(), origin: instant_now() };
        assert(limiter@ =~= Map::<Seq<char>, Window>::empty());
        limiter
    }

    /// The present instant on this limiter's clock.
    pub fn now(&self) -> u128 {
        nanos_since(&self.origin)
    }

    /// Number of keys that have a counter.
    pub fn len(&self) -> (n: usize)
        ensures
            n == self@.dom().len(),
            self@.dom().finite(),
    {
        proof {
            use_type_invariant(self);
            lemma_counters_size(self.entries@);
        }
        self.entries.len()
    }

    /// The counter of `key`, if it has one.
    pub fn window(&self, key: &str) -> (w: Option<Window>)
        ensures
            w == (if self@.contains_key(key@) {
                Some(self@[key@])
            } else {
                None
            }),
    {
        proof {
            use_type_invariant(self);
        }
        match position(&self.entries, key) {
            Some(i) => {
                proof {
                    lemma_counter_at(self.entries@, i as int);
                }
                Some(
                    Window {
                        count: self.entries[i].count,
                        window_start: self.entries[i].window_start,
                        window_secs: self.entries[i].window_secs,
                    },
                )
            },
            None => None,
        }
    }

    /// Checks `key` against the policy of the session endpoints at the
    /// present instant: whatever the clock shows, the check is the one that
    /// [`RateLimitState::check_with_limits_at`] makes at that instant.
    pub fn check(&mut self, key: &str) -> (outcome: Result<u32, u128>)
        ensures
            exists|now: u128|
                checked_at(old(self)@, final(self)@, outcome, key@, MAX_REQUESTS, WINDOW_SECS, now),
            outcome matches Ok(left) ==> left < MAX_REQUESTS,
            outcome matches Err(wait) ==> wait <= window_nanos(WINDOW_SECS),
    {
        let now = self.now();
        let outcome = self.check_with_limits_at(key, MAX_REQUESTS, WINDOW_SECS, now);
        assert(checked_at(old(self)@, final(self)@, outcome, key@, MAX_REQUESTS, WINDOW_SECS, now));
        outcome
    }

    /// Checks `key` against a policy of its own at the present instant.
    pub fn check_with_limits(
        &mut self,
        key: &str,
        max_requests: u32,
        window_secs: u64,
    ) -> (outcome: Result<u32, u128>)
        ensures
            exists|now: u128|
                checked_at(old(self)@, final(self)@, outcome, key@, max_requests, window_secs, now),
            outcome matches Ok(left) ==> left < max_requests,
            outcome matches Err(wait) ==> wait <= window_nanos(window_secs),
    {
        let now = self.now();
        let outcome = self.check_with_limits_at(key, max_requests, window_secs, now);
        assert(checked_at(old(self)@, final(self)@, outcome, key@, max_requests, window_secs, now));
        outcome
    }

    /// Checks `key` at the instant `now`. Where the key's window has lasted
    /// longer than `window_secs`, or the key is new, a window starts at `now`
    /// with an empty counter. If the counter has reached `max_requests` the
    /// request is refused and the time left in the window is returned;
    /// otherwise the request is counted and the number still free is returned.
    pub fn check_with_limits_at(
        &mut self,
        key: &str,
        max_requests: u32,
        window_secs: u64,
        now: u128,
    ) -> (outcome: Result<u32, u128>)
        ensures
            outcome == check_result(old(self)@, key@, max_requests, window_secs, now),
            final(self)@ == after_check(old(self)@, key@, max_requests, window_secs, now),
    {
        proof {
            use_type_invariant(&*self);
        }
        let window: u128 = (window_secs as u128) * NANOS_PER_SEC;
        let mut entries: Vec<RateLimitEntry> = Vec::new();
        std::mem::swap(&mut self.entries, &mut entries);
        let ghost before = entries@;
        let slot = position(&entries, key);
        let mut count: u32 = 0;
        let mut start: u128 = now;
        if let Some(i) = slot {
            proof {
                lemma_counter_at(before, i as int);
            }
            let stored = entries[i].window_start;
            let since: u128 = if now >= stored {
                now - stored
            } else {
                0
            };
            if since <= window {
                count = entries[i].count;
                start = stored;
            }
        }
        assert(Window { count, window_start: start, window_secs } == current_window(
            counters(before),
            key@,
            window_secs,
            now,
        ));
        let admitted = count < max_requests;
        let counted: u32 = if admitted {
            count + 1
        } else {
            count
        };
        let entry = RateLimitEntry { key: key.to_owned(), count: counted, window_start: start, window_secs };
        match slot {
            Some(i) => {
                entries[i] = entry;
                proof {
                    lemma_replaced(before, entries@, i as int);
                }
            },
            None => {
                entries.push(entry);
                proof {
                    lemma_appended(before, entries@);
                }
            },
        }
        self.entries = entries;
        if admitted {
            Ok(max_requests - counted)
        } else {
            let since: u128 = if now >= start {
                now - start
            } else {
                0
            };
            Err(window - since)
        }
    }

    /// Removes the counters whose window began two of their windows ago or
    /// earlier, as seen at the present instant.
    pub fn cleanup(&mut self)
        ensures
            exists|now: u128| final(self)@ == #[trigger] after_sweep(old(self)@, now),
    {
        let now = self.now();
        self.cleanup_at(now)
    }

    /// Removes the counters whose window began two of their windows before
    /// `now` or earlier; every other counter stays as it is.
    pub fn cleanup_at(&mut self, now: u128)
        ensures
            final(self)@ == after_sweep(old(self)@, now),
    {
        proof {
            use_type_invariant(&*self);
        }
        let ghost before = self.entries@;
        let mut kept: Vec<RateLimitEntry> = Vec::new();
        let mut i: usize = 0;
        while i < self.entries.len()
            invariant
                i <= self.entries@.len(),
                self.entries@ == before,
                distinct_keys(before),
                distinct_keys(kept@),
                forall|k: int| 0 <= k < kept@.len() ==> taken_from(before, i as int, #[trigger] kept@[k], now),
                forall|j: int|
                    0 <= j < i && survives_sweep(window_of(#[trigger] before[j]), now) ==> holds_key(
                        kept@,
                        before[j].key@,
                    ),
            decreases self.entries@.len() - i,
        {
            let stored = self.entries[i].window_start;
            let since: u128 = if now >= stored {
                now - stored
            } else {
                0
            };
            let horizon: u128 = SWEEP_WINDOWS * ((self.entries[i].window_secs as u128) * NANOS_PER_SEC);
            let ghost so_far = kept@;
            if since < horizon {
                let entry = RateLimitEntry {
                    key: self.entries[i].key.clone(),
                    count: self.entries[i].count,
                    window_start: stored,
                    window_secs: self.entries[i].window_secs,
                };
                kept.push(entry);
                proof {
                    let last = so_far.len() as int;
                    assert(kept@[last].key@ == before[i as int].key@);
                    assert(taken_from(before, i + 1, kept@[last], now));
                    assert forall|a: int, b: int|
                        0 <= a < kept@.len() && 0 <= b < kept@.len() && a != b implies kept@[a].key@
                        != kept@[b].key@ by {
                        if a < last && b < last {
                            assert(kept@[a] == so_far[a] && kept@[b] == so_far[b]);
                        } else if a < last {
                            assert(kept@[a] == so_far[a]);
                            let j = source_of(before, i as int, so_far[a], now);
                            assert(before[j].key@ != before[i as int].key@);
                        } else {
                            assert(kept@[b] == so_far[b]);
                            let j = source_of(before, i as int, so_far[b], now);
                            assert(before[j].key@ != before[i as int].key@);
                        }
                    }
                }
            }
            proof {
                assert forall|k: int| 0 <= k < kept@.len() implies taken_from(
                    before,
                    i + 1,
                    #[trigger] kept@[k],
                    now,
                ) by {
                    if k < so_far.len() {
                        assert(kept@[k] == so_far[k]);
                        let j = source_of(before, i as int, so_far[k], now);
                        assert(before[j].key@ == kept@[k].key@);
                    }
                }
                assert forall|j: int|
                    0 <= j < i + 1 && survives_sweep(window_of(#[trigger] before[j]), now) implies holds_key(
                    kept@,
                    before[j].key@,
                ) by {
                    if j < i {
                        let k = slot_of(so_far, before[j].key@);
                        assert(kept@[k] == so_far[k]);
                        assert(kept@[k].key@ == before[j].key@);
                    } else {
                        assert(kept@[so_far.len() as int].key@ == before[j].key@);
                    }
                }
            }
            i += 1;
        }
        self.entries = kept;
        proof {
            lemma_swept(before, self.entries@, now);
        }
    }
}

proof fn lemma_counters_size(entries: Seq<RateLimitEntry>)
    requires
        distinct_keys(entries),
    ensures
        counters(entries).dom().finite(),
        counters(entries).dom().len() == entries.len(),
    decreases entries.len(),
{
    if entries.len() == 0 {
        assert(counters(entries).dom() =~= Set::<Seq<char>>::empty());
    } else {
        let head = entries.drop_last();
        let key = entries.last().key@;
        lemma_counters_size(head);
        assert(!holds_key(head, key)) by {
            if holds_key(head, key) {
                let j = slot_of(head, key);
                assert(entries[j].key@ == key);
            }
        }
        assert(counters(entries).dom() =~= counters(head).dom().insert(key)) by {
            assert forall|k: Seq<char>| holds_key(entries, k) <==> (holds_key(head, k) || k == key) by {
                if holds_key(entries, k) {
                    let j = slot_of(entries, k);
                    if j < head.len() {
                        assert(head[j].key@ == k);
                    }
                }
                if holds_key(head, k) {
                    let j = slot_of(head, k);
                    assert(entries[j].key@ == k);
                }
                if k == key {
                    assert(entries[entries.len() - 1].key@ == k);
                }
            }
        }
    }
}

proof fn lemma_replaced(before: Seq<RateLimitEntry>, after: Seq<RateLimitEntry>, i: int)
    requires
        distinct_keys(before),
        0 <= i < before.len(),
        after.len() == before.len(),
        after[i].key@ == before[i].key@,
        forall|j: int| 0 <= j < before.len() && j != i ==> after[j] == before[j],
    ensures
        distinct_keys(after),
        counters(after) == counters(before).insert(after[i].key@, window_of(after[i])),
{
    assert forall|a: int, b: int| 0 <= a < after.len() && 0 <= b < after.len() && a != b implies after[a].key@
        != after[b].key@ by {
        assert(after[a].key@ == before[a].key@);
        assert(after[b].key@ == before[b].key@);
    }
    let target = counters(before).insert(after[i].key@, window_of(after[i]));
    assert forall|k: Seq<char>| counters(after).contains_key(k) <==> target.contains_key(k) by {
        if holds_key(after, k) {
            let j = slot_of(after, k);
            assert(before[j].key@ == k);
        }
        if holds_key(before, k) {
            let j = slot_of(before, k);
            assert(after[j].key@ == k);
        }
        if k == after[i].key@ {
            assert(after[i].key@ == k);
        }
    }
    assert forall|k: Seq<char>| counters(after).contains_key(k) implies counters(after)[k] == target[k] by {
        let j = slot_of(after, k);
        lemma_counter_at(after, j);
        if j != i {
            lemma_counter_at(before, j);
        }
    }
    assert(counters(after) =~= target);
}

proof fn lemma_appended(before: Seq<RateLimitEntry>, after: Seq<RateLimitEntry>)
    requires
        distinct_keys(before),
        after.len() == before.len() + 1,
        forall|j: int| 0 <= j < before.len() ==> after[j] == before[j],
        !holds_key(before, after.last().key@),
    ensures
        distinct_keys(after),
        counters(after) == counters(before).insert(after.last().key@, window_of(after.last())),
{
    let n = before.len() as int;
    assert forall|a: int, b: int| 0 <= a < after.len() && 0 <= b < after.len() && a != b implies after[a].key@
        != after[b].key@ by {
        if a < n && b < n {
        } else if a < n {
            assert(before[a].key@ == after[a].key@);
        } else {
            assert(before[b].key@ == after[b].key@);
        }
    }
    let target = counters(before).insert(after.last().key@, window_of(after.last()));
    assert forall|k: Seq<char>| counters(after).contains_key(k) <==> target.contains_key(k) by {
        if holds_key(after, k) {
            let j = slot_of(after, k);
            if j < n {
                assert(before[j].key@ == k);
            }
        }
        if holds_key(before, k) {
            let j = slot_of(before, k);
            assert(after[j].key@ == k);
        }
        if k == after.last().key@ {
            assert(after[n].key@ == k);
        }
    }
    assert forall|k: Seq<char>| counters(after).contains_key(k) implies counters(after)[k] == target[k] by {
        let j = slot_of(after, k);
        lemma_counter_at(after, j);
        if j < n {
            lemma_counter_at(before, j);
        }
    }
    assert(counters(after) =~= target);
}

proof fn lemma_swept(before: Seq<RateLimitEntry>, kept: Seq<RateLimitEntry>, now: u128)
    requires
        distinct_keys(before),
        distinct_keys(kept),
        forall|k: int| 0 <= k < kept.len() ==> taken_from(before, before.len() as int, #[trigger] kept[k], now),
        forall|j: int|
            0 <= j < before.len() && survives_sweep(window_of(#[trigger] before[j]), now) ==> holds_key(
                kept,
                before[j].key@,
            ),
    ensures
        counters(kept) == after_sweep(counters(before), now),
{
    let target = after_sweep(counters(before), now);
    assert forall|key: Seq<char>| counters(kept).contains_key(key) implies target.contains_key(key)
        && counters(kept)[key] == target[key] by {
        let k = slot_of(kept, key);
        lemma_counter_at(kept, k);
        let j = source_of(before, before.len() as int, kept[k], now);
        lemma_counter_at(before, j);
    }
    assert forall|key: Seq<char>| target.contains_key(key) implies counters(kept).contains_key(key) by {
        let j = slot_of(before, key);
        lemma_counter_at(before, j);
    }
    assert(counters(kept) =~= target);
}

// ---------------------------------------------------------------------------
// What holds of every run of checks
// ---------------------------------------------------------------------------

/// The counters after checks of one key at the instants `times`, in order.
pub open spec fn after_checks(
    state: Map<Seq<char>, Window>,
    key: Seq<char>,
    max_requests: u32,
    window_secs: u64,
    times: Seq<u128>,
) -> Map<Seq<char>, Window>
    decreases times.len(),
{
    if times.len() == 0 {
        state
    } else {
        after_check(
            after_checks(state, key, max_requests, window_secs, times.drop_last()),
            key,
            max_requests,
            window_secs,
            times.last(),
        )
    }
}

/// No instant is later than one window after the first.
pub open spec fn within_one_window(times: Seq<u128>, window_secs: u64) -> bool {
    forall|i: int| 0 <= i < times.len() ==> #[trigger] times[i] <= times[0] + window_nanos(window_secs)
}

/// The smaller of two numbers.
pub open spec fn at_most(n: int, max: int) -> int {
    if n < max {
        n
    } else {
        max
    }
}

/// After checks of a new key within one window, its counter holds the number
/// of checks, capped at the budget, and the window still begins at the first.
pub proof fn lemma_counter_after_checks(
    state: Map<Seq<char>, Window>,
    key: Seq<char>,
    max_requests: u32,
    window_secs: u64,
    times: Seq<u128>,
)
    requires
        !state.contains_key(key),
        times.len() > 0,
        within_one_window(times, window_secs),
    ensures
        after_checks(state, key, max_requests, window_secs, times).contains_key(key),
        after_checks(state, key, max_requests, window_secs, times)[key] == (Window {
            count: at_most(times.len() as int, max_requests as int) as u32,
            window_start: times[0],
            window_secs,
        }),
    decreases times.len(),
{
    let earlier = times.drop_last();
    if earlier.len() == 0 {
        assert(after_checks(state, key, max_requests, window_secs, earlier) == state);
        assert(times.last() == times[0]);
    } else {
        assert forall|i: int| 0 <= i < earlier.len() implies #[trigger] earlier[i] <= earlier[0] + window_nanos(
            window_secs,
        ) by {
            assert(earlier[i] == times[i]);
        }
        lemma_counter_after_checks(state, key, max_requests, window_secs, earlier);
        assert(earlier[0] == times[0]);
        assert(times.last() == times[times.len() - 1]);
    }
}

/// Within one window a new key is admitted exactly as often as the budget
/// allows: the check at place `i` passes if and only if `i` is below the
/// budget, and then reports what is left. Every later check is refused with
/// the time left in the window, which is never more than the window and is
/// positive unless the check comes at the window's last instant.
pub proof fn lemma_window_admits_exactly_max(
    state: Map<Seq<char>, Window>,
    key: Seq<char>,
    max_requests: u32,
    window_secs: u64,
    times: Seq<u128>,
    i: int,
)
    requires
        !state.contains_key(key),
        times.len() > 0,
        within_one_window(times, window_secs),
        0 <= i < times.len(),
    ensures
        ({
            let before = after_checks(state, key, max_requests, window_secs, times.take(i));
            let outcome = check_result(before, key, max_requests, window_secs, times[i]);
            &&& admits(before, key, max_requests, window_secs, times[i]) <==> i < max_requests
            &&& i < max_requests ==> outcome == Ok::<u32, u128>((max_requests - i - 1) as u32)
            &&& i >= max_requests ==> outcome == Err::<u32, u128>(
                (window_nanos(window_secs) - elapsed(times[i], times[0])) as u128,
            )
            &&& outcome matches Err(wait) ==> wait <= window_nanos(window_secs)
            &&& outcome matches Err(wait) ==> (elapsed(times[i], times[0]) < window_nanos(window_secs) ==> wait
                > 0)
        }),
{
    let earlier = times.take(i);
    if i == 0 {
        assert(after_checks(state, key, max_requests, window_secs, earlier) == state);
    } else {
        assert forall|j: int| 0 <= j < earlier.len() implies #[trigger] earlier[j] <= earlier[0] + window_nanos(
            window_secs,
        ) by {
            assert(earlier[j] == times[j]);
        }
        lemma_counter_after_checks(state, key, max_requests, window_secs, earlier);
        assert(earlier[0] == times[0]);
    }
}

/// A sweep is invisible: a check of a key against the policy that it was
/// last checked against, with a window of a second or more, has the same
/// outcome and leaves the key with the same counter, whether or not a sweep
/// has run before it. What the sweep dropped was a window that the check
/// would have started anew.
pub proof fn lemma_sweep_is_invisible(
    state: Map<Seq<char>, Window>,
    swept_at: u128,
    key: Seq<char>,
    max_requests: u32,
    window_secs: u64,
    now: u128,
)
    requires
        swept_at <= now,
        window_secs > 0,
        state.contains_key(key) ==> state[key].window_secs == window_secs,
    ensures
        check_result(after_sweep(state, swept_at), key, max_requests, window_secs, now) == check_result(
            state,
            key,
            max_requests,
            window_secs,
            now,
        ),
        after_check(after_sweep(state, swept_at), key, max_requests, window_secs, now)[key] == after_check(
            state,
            key,
            max_requests,
            window_secs,
            now,
        )[key],
{
    if state.contains_key(key) && !survives_sweep(state[key], swept_at) {
        let since_sweep = elapsed(swept_at, state[key].window_start);
        let since = elapsed(now, state[key].window_start);
        assert(since_sweep >= 2 * window_nanos(window_secs));
        assert(since >= since_sweep);
        assert(since > window_nanos(window_secs));
    }
}

/// A check of one key leaves every other key as it was, so that the next
/// check of another key has the outcome it would have had without it.
pub proof fn lemma_other_keys_unaffected(
    state: Map<Seq<char>, Window>,
    key: Seq<char>,
    max_requests: u32,
    window_secs: u64,
    now: u128,
    other: Seq<char>,
    other_max: u32,
    other_window_secs: u64,
    later: u128,
)
    requires
        other != key,
    ensures
        ({
            let after = after_check(state, key, max_requests, window_secs, now);
            &&& after.contains_key(other) == state.contains_key(other)
            &&& state.contains_key(other) ==> after[other] == state[other]
            &&& check_result(after, other, other_max, other_window_secs, later) == check_result(
                state,
                other,
                other_max,
                other_window_secs,
                later,
            )
        }),
{
}

// ---------------------------------------------------------------------------
// The two policies in front of the endpoints
// ---------------------------------------------------------------------------

/// The key of a caller on a session endpoint: address and path, so that each
/// endpoint has a budget of its own.
pub open spec fn auth_key_of(ip: Seq<char>, path: Seq<char>) -> Seq<char> {
    ip + seq![':'] + path
}

/// The key of a caller where demo sessions are created.
pub open spec fn demo_key_of(ip: Seq<char>) -> Seq<char> {
    "demo:"@ + ip
}

/// The key of a caller on a session endpoint.
pub fn auth_key(ip: &str, path: &str) -> (key: String)
    ensures
        key@ == auth_key_of(ip@, path@),
{
    proof {
        reveal_strlit(":");
    }
    let key = ip.to_owned().concat(":").concat(path);
    assert(key@ =~= auth_key_of(ip@, path@));
    key
}

/// The key of a caller where demo sessions are created.
pub fn demo_key(ip: &str) -> (key: String)
    ensures
        key@ == demo_key_of(ip@),
{
    "demo:".to_owned().concat(ip)
}

/// The whole seconds in a number of nanoseconds, capped at what `u64` holds.
pub open spec fn whole_seconds_of(nanos: u128) -> u64 {
    if nanos / NANOS_PER_SEC > u64::MAX {
        u64::MAX
    } else {
        (nanos / NANOS_PER_SEC) as u64
    }
}

/// The whole seconds in a number of nanoseconds, capped at what `u64` holds.
pub fn whole_seconds(nanos: u128) -> (secs: u64)
    ensures
        secs == whole_seconds_of(nanos),
{
    let secs: u128 = nanos / NANOS_PER_SEC;
    if secs > u64::MAX as u128 {
        u64::MAX
    } else {
        secs as u64
    }
}

/// What a check means to the request: admitted with what is left of the
/// budget, or refused with the whole seconds to wait.
pub open spec fn admission_of(outcome: Result<u32, u128>) -> AppResult<u32> {
    match outcome {
        Ok(left) => Ok(left),
        Err(wait) => Err(AppError::RateLimited(whole_seconds_of(wait))),
    }
}

/// Turns the outcome of a check into what the request gets.
pub fn admission(outcome: Result<u32, u128>) -> (verdict: AppResult<u32>)
    ensures
        verdict == admission_of(outcome),
{
    match outcome {
        Ok(left) => Ok(left),
        Err(wait) => Err(AppError::RateLimited(whole_seconds(wait))),
    }
}

/// Admission to a session endpoint at the instant `now`: five requests a
/// minute for each caller and path.
pub fn rate_limit_auth_at(
    limiter: &mut RateLimitState,
    ip: &str,
    path: &str,
    now: u128,
) -> (verdict: AppResult<u32>)
    ensures
        verdict == admission_of(
            check_result(old(limiter)@, auth_key_of(ip@, path@), MAX_REQUESTS, WINDOW_SECS, now),
        ),
        final(limiter)@ == after_check(
            old(limiter)@,
            auth_key_of(ip@, path@),
            MAX_REQUESTS,
            WINDOW_SECS,
            now,
        ),
{
    let key = auth_key(ip, path);
    admission(limiter.check_with_limits_at(key.as_str(), MAX_REQUESTS, WINDOW_SECS, now))
}

/// Admission to the creation of a demo session at the instant `now`: three
/// requests an hour for each caller.
pub fn rate_limit_demo_at(limiter: &mut RateLimitState, ip: &str, now: u128) -> (verdict: AppResult<u32>)
    ensures
        verdict == admission_of(
            check_result(old(limiter)@, demo_key_of(ip@), DEMO_MAX_REQUESTS, DEMO_WINDOW_SECS, now),
        ),
        final(limiter)@ == after_check(
            old(limiter)@,
            demo_key_of(ip@),
            DEMO_MAX_REQUESTS,
            DEMO_WINDOW_SECS,
            now,
        ),
{
    let key = demo_key(ip);
    admission(limiter.check_with_limits_at(key.as_str(), DEMO_MAX_REQUESTS, DEMO_WINDOW_SECS, now))
}

/// An admission at the instant `now` led from `before` to `after` and
/// returned `verdict`.
pub open spec fn admitted_at(
    before: Map<Seq<char>, Window>,
    after: Map<Seq<char>, Window>,
    verdict: AppResult<u32>,
    key: Seq<char>,
    max_requests: u32,
    window_secs: u64,
    now: u128,
) -> bool {
    &&& verdict == admission_of(check_result(before, key, max_requests, window_secs, now))
    &&& after == after_check(before, key, max_requests, window_secs, now)
}

/// Admission to a session endpoint now: whatever the clock shows, the one
/// that [`rate_limit_auth_at`] grants at that instant. A refusal is always
/// `RateLimited`, with a wait of a minute at most.
pub fn rate_limit_auth(limiter: &mut RateLimitState, ip: &str, path: &str) -> (verdict: AppResult<u32>)
    ensures
        exists|now: u128|
            admitted_at(
                old(limiter)@,
                final(limiter)@,
                verdict,
                auth_key_of(ip@, path@),
                MAX_REQUESTS,
                WINDOW_SECS,
                now,
            ),
        verdict matches Ok(left) ==> left < MAX_REQUESTS,
        verdict matches Err(e) ==> (e matches AppError::RateLimited(secs) && secs <= WINDOW_SECS),
{
    let now = limiter.now();
    let verdict = rate_limit_auth_at(limiter, ip, path, now);
    proof {
        lemma_wait_in_seconds(WINDOW_SECS);
        assert(admitted_at(
            old(limiter)@,
            final(limiter)@,
            verdict,
            auth_key_of(ip@, path@),
            MAX_REQUESTS,
            WINDOW_SECS,
            now,
        ));
    }
    verdict
}

/// Admission to the creation of a demo session now: whatever the clock
/// shows, the one that [`rate_limit_demo_at`] grants at that instant. A
/// refusal is always `RateLimited`, with a wait of an hour at most.
pub fn rate_limit_demo(limiter: &mut RateLimitState, ip: &str) -> (verdict: AppResult<u32>)
    ensures
        exists|now: u128|
            admitted_at(
                old(limiter)@,
                final(limiter)@,
                verdict,
                demo_key_of(ip@),
                DEMO_MAX_REQUESTS,
                DEMO_WINDOW_SECS,
                now,
            ),
        verdict matches Ok(left) ==> left < DEMO_MAX_REQUESTS,
        verdict matches Err(e) ==> (e matches AppError::RateLimited(secs) && secs <= DEMO_WINDOW_SECS),
{
    let now = limiter.now();
    let verdict = rate_limit_demo_at(limiter, ip, now);
    proof {
        lemma_wait_in_seconds(DEMO_WINDOW_SECS);
        assert(admitted_at(
            old(limiter)@,
            final(limiter)@,
            verdict,
            demo_key_of(ip@),
            DEMO_MAX_REQUESTS,
            DEMO_WINDOW_SECS,
            now,
        ));
    }
    verdict
}

/// A wait of at most one window is at most the window's seconds.
pub proof fn lemma_wait_in_seconds(window_secs: u64)
    ensures
        forall|wait: u128| wait <= window_nanos(window_secs) ==> #[trigger] whole_seconds_of(wait) <= window_secs,
{
    assert forall|wait: u128| wait <= window_nanos(window_secs) implies #[trigger] whole_seconds_of(wait)
        <= window_secs by {
        assert(wait / 1_000_000_000 <= window_secs) by (nonlinear_arith)
            requires
                wait <= window_secs * 1_000_000_000,
        ;
    }
}

} // verus!
