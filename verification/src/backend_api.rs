//! The options of a `put`, and the contract that every backend meets.
use crate::common::error::CuttlestoreError;
use crate::common::time::{duration_secs, epoch_offset, get_system_time, second_of};
use crate::common::time::{since_epoch, unix_seconds};
use crate::envelope::{deadline, expired, EnvelopeView};
use crate::text::text_of;
use std::time::{Duration, SystemTime};
use vstd::prelude::*;

verus! {

/// Options to use when placing a value into a store.
#[derive(Debug, Clone, Copy, PartialEq, Eq, Structural, PartialOrd, Ord)]
pub struct PutOptions {
    /// For how many seconds, counted from the `put`, the value stays
    /// readable. `None` keeps it until it is deleted or overwritten.
    pub ttl: Option<u64>,
}

impl PutOptions {
    /// The value will be alive for this much time. Fractions of a second are
    /// dropped.
    pub fn ttl(duration: Duration) -> (options: Self)
        ensures
            options.ttl == Some(duration_secs(duration)),
    {
        Self::ttl_secs(duration.as_secs())
    }

    /// The value will be alive for this many seconds.
    pub fn ttl_secs(seconds: u64) -> (options: Self)
        ensures
            options.ttl == Some(seconds),
    {
        PutOptions { ttl: Some(seconds) }
    }

    /// The time-to-live that lasts from the second `now` to the second
    /// `target`: their distance, and zero when `target` is already past.
    pub open spec fn remaining(target: u64, now: u64) -> u64 {
        if target >= now {
            (target - now) as u64
        } else {
            0
        }
    }

    /// The value will be alive until the second `target`, when the clock
    /// reads `now`. A target in the past gives a time-to-live of zero, never
    /// a negative or wrapped one.
    pub fn until(target: u64, now: u64) -> (options: Self)
        ensures
            options.ttl == Some(Self::remaining(target, now)),
    {
        PutOptions { ttl: Some(target.saturating_sub(now)) }
    }

    /// The value will be alive until this time.
    ///
    /// The time is taken in whole seconds, so the value may stay readable
    /// for up to a second longer. A time that is already past gives a
    /// time-to-live of zero. A time before the Unix epoch is no time to live
    /// until: `try_live_until` tells such a time from the others.
    pub fn live_until(time: SystemTime) -> (options: Self)
        requires
            epoch_offset(time) is Some,
        ensures
            exists|now: u64| options.ttl == Some(#[trigger] Self::remaining(second_of(time), now)),
    {
        let target = unix_seconds(&time);
        let now = get_system_time();
        Self::until(target, now)
    }

    /// The value will be alive until this time, or `None` for a time before
    /// the Unix epoch.
    pub fn try_live_until(time: SystemTime) -> (options: Option<Self>)
        ensures
            match options {
                Some(options) => epoch_offset(time) is Some && exists|now: u64|
                    options.ttl == Some(#[trigger] Self::remaining(second_of(time), now)),
                None => epoch_offset(time) is None,
            },
    {
        match since_epoch(&time) {
            Some(_) => Some(Self::live_until(time)),
            None => None,
        }
    }
}

impl Default for PutOptions {
    /// By default, there is no TTL. Values will live indefinitely.
    fn default() -> (options: Self)
        ensures
            options.ttl is None,
    {
        Self { ttl: None }
    }
}

/// What a backend holds: for each key, its payload and deadline.
pub type Contents = Map<Seq<char>, EnvelopeView>;

/// What `get` finds under `key` at the second `now`: the payload, unless
/// the key is missing or its value has expired.
pub open spec fn lookup(contents: Contents, key: Seq<char>, now: u64) -> Option<Seq<u8>> {
    if contents.contains_key(key) && !expired(contents[key].live_until, now) {
        Some(contents[key].payload)
    } else {
        None
    }
}

/// The contents after a `get` of `key` at the second `now`: an expired
/// value is deleted, everything else stays.
pub open spec fn after_get(contents: Contents, key: Seq<char>, now: u64) -> Contents {
    if contents.contains_key(key) && expired(contents[key].live_until, now) {
        contents.remove(key)
    } else {
        contents
    }
}

/// The contents after a `put` at the second `now`: the key holds the new
/// payload, whatever it held before.
pub open spec fn after_put(
    contents: Contents,
    key: Seq<char>,
    payload: Seq<u8>,
    ttl: Option<u64>,
    now: u64,
) -> Contents {
    contents.insert(key, EnvelopeView { payload, live_until: deadline(ttl, now) })
}

/// The contents after a `delete` of `key`.
pub open spec fn after_delete(contents: Contents, key: Seq<char>) -> Contents {
    contents.remove(key)
}

/// The part of the contents that has not expired at the second `now`. It is
/// what a `scan` lists, and what a `scan` leaves behind.
pub open spec fn unexpired(contents: Contents, now: u64) -> Contents {
    Map::new(
        |key: Seq<char>| contents.contains_key(key) && !expired(contents[key].live_until, now),
        |key: Seq<char>| contents[key],
    )
}

/// Whether `pairs` lists the payloads of `contents`: every pair is an entry
/// of the contents, every entry has its pair, and no key comes twice. The
/// order of the pairs is left open.
pub open spec fn lists(pairs: Seq<(String, Vec<u8>)>, contents: Contents) -> bool {
    &&& forall|i: int|
        0 <= i < pairs.len() ==> contents.contains_key(#[trigger] pairs[i].0@)
            && contents[pairs[i].0@].payload == pairs[i].1@
    &&& forall|key: Seq<char>| #[trigger]
        contents.contains_key(key) ==> exists|i: int|
            0 <= i < pairs.len() && #[trigger] pairs[i].0@ == key
    &&& forall|i: int, j: int|
        0 <= i < j < pairs.len() ==> #[trigger] pairs[i].0@ != #[trigger] pairs[j].0@
}

/// Whether one of `items` has this name and this payload.
pub open spec fn offers(
    items: Seq<(Option<String>, Vec<u8>)>,
    name: Seq<char>,
    payload: Seq<u8>,
) -> bool {
    exists|i: int|
        0 <= i < items.len() && text_of((#[trigger] items[i]).0) == Some(name) && items[i].1@
            == payload
}

/// Whether one of `pairs` has this key and this payload.
pub open spec fn holds(pairs: Seq<(String, Vec<u8>)>, key: Seq<char>, payload: Seq<u8>) -> bool {
    exists|m: int| 0 <= m < pairs.len() && (#[trigger] pairs[m]).0@ == key && pairs[m].1@ == payload
}

/// Hands on the items that have a name, each under its name with its
/// payload, and drops the items without one. It serves every scan that
/// passes over a part of what it walks through.
///
/// Every pair that is handed on stands for an item with that name and that
/// payload, every named item has its pair, and no name comes twice.
pub fn named(items: Vec<(Option<String>, Vec<u8>)>) -> (pairs: Vec<(String, Vec<u8>)>)
    requires
        forall|i: int, j: int|
            0 <= i < j < items.len() && (#[trigger] items[i]).0 is Some && (#[trigger] items[j]).0
                is Some ==> text_of(items[i].0) != text_of(items[j].0),
    ensures
        forall|m: int|
            0 <= m < pairs.len() ==> #[trigger] offers(items@, pairs[m].0@, pairs[m].1@),
        forall|i: int|
            0 <= i < items.len() && (#[trigger] items[i]).0 is Some ==> holds(
                pairs@,
                text_of(items[i].0)->0,
                items[i].1@,
            ),
        forall|m: int, n: int|
            0 <= m < n < pairs.len() ==> (#[trigger] pairs[m]).0@ != (#[trigger] pairs[n]).0@,
{
    let mut rest = items;
    let mut pairs: Vec<(String, Vec<u8>)> = Vec::new();
    // For each pair, the index of the item it was made from.
    let ghost mut source: Seq<int> = Seq::empty();
    while rest.len() > 0
        invariant
            rest.len() <= items.len(),
            rest@ == items@.take(rest.len() as int),
            forall|i: int, j: int|
                0 <= i < j < items.len() && (#[trigger] items[i]).0 is Some && (
                #[trigger] items[j]).0 is Some ==> text_of(items[i].0) != text_of(items[j].0),
            source.len() == pairs.len(),
            forall|m: int|
                0 <= m < pairs.len() ==> rest.len() <= #[trigger] source[m] < items.len()
                    && text_of(items[source[m]].0) == Some(pairs[m].0@) && items[source[m]].1@
                    == pairs[m].1@,
            forall|m: int, n: int|
                0 <= m < n < pairs.len() ==> #[trigger] source[m] > #[trigger] source[n],
            forall|i: int|
                rest.len() <= i < items.len() && items[i].0 is Some ==> exists|m: int|
                    0 <= m < pairs.len() && #[trigger] source[m] == i,
        decreases rest.len(),
    {
        let ghost at = rest.len() - 1;
        let item = rest.pop().unwrap();
        let ghost earlier = source;
        match item.0 {
            Some(name) => {
                pairs.push((name, item.1));
                proof {
                    source = source.push(at);
                    assert forall|i: int|
                        rest.len() <= i < items.len() && items[i].0 is Some implies exists|m: int|
                        0 <= m < pairs.len() && #[trigger] source[m] == i by {
                        if i == at {
                            assert(source[pairs.len() - 1] == i);
                        } else {
                            let m = choose|m: int| 0 <= m < earlier.len() && earlier[m] == i;
                            assert(source[m] == i);
                        }
                    }
                }
            },
            None => {},
        }
    }
    proof {
        assert forall|m: int| 0 <= m < pairs.len() implies #[trigger] offers(
            items@,
            pairs[m].0@,
            pairs[m].1@,
        ) by {
            assert(text_of(items[source[m]].0) == Some(pairs[m].0@));
        }
        assert forall|m: int, n: int| 0 <= m < n < pairs.len() implies (#[trigger] pairs[m]).0@ != (
        #[trigger] pairs[n]).0@ by {
            assert(source[m] > source[n]);
        }
    }
    pairs
}

/// The operations that every storage backend offers.
///
/// A backend is described by its contents, a map from key to payload and
/// deadline. Each operation takes the current second as an argument, so that
/// its effect is a function of the contents and its arguments alone. Where an
/// operation fails, nothing is said of the contents; a backend without I/O
/// never fails.
pub trait CuttleBackend: Sized {
    /// What the backend holds.
    spec fn contents(&self) -> Contents;

    /// Whether a connection string is addressed to this kind of backend.
    spec fn claims(conn: Seq<char>) -> bool;

    /// Whether the operations of this kind of backend cannot fail, as is
    /// the case where no I/O stands behind them.
    spec fn infallible() -> bool;

    /// Whether a backend of this kind is empty whenever it is opened,
    /// because it keeps nothing beyond its own life.
    spec fn volatile() -> bool;

    /// Opens the backend that `conn` names. The result is `None` where
    /// the connection string is addressed to another kind of backend, and
    /// `Some` of an error where it is addressed to this kind but the backend
    /// cannot be opened.
    fn new(conn: &str) -> (opened: Option<Result<Self, CuttlestoreError>>)
        ensures
            opened is Some <==> Self::claims(conn@),
            Self::infallible() ==> !(opened matches Some(Err(_))),
            Self::volatile() ==> (opened matches Some(Ok(backend)) ==> backend.contents()
                == Map::<Seq<char>, EnvelopeView>::empty()),
    ;

    /// Whether this kind of backend needs a cleaner.
    spec fn needs_cleaner() -> bool;

    /// Whether expired values must be swept out from outside, because the
    /// medium does not drop them by itself.
    fn requires_cleaner(&self) -> (needed: bool)
        ensures
            needed == Self::needs_cleaner(),
    ;

    /// The name of this kind of backend.
    spec fn kind() -> Seq<char>;

    /// The name of this kind of backend, for diagnostics.
    fn name(&self) -> (name: &'static str)
        ensures
            name@ == Self::kind(),
    ;

    /// Reads the value under `key`. An expired value is never returned; it
    /// is deleted instead.
    fn get(&mut self, key: &str, now: u64) -> (found: Result<Option<Vec<u8>>, CuttlestoreError>)
        ensures
            Self::infallible() ==> found is Ok,
            found matches Ok(value) ==> {
                &&& value matches Some(payload) ==> lookup(old(self).contents(), key@, now)
                    == Some(payload@)
                &&& value is None ==> lookup(old(self).contents(), key@, now) is None
                &&& final(self).contents() == after_get(old(self).contents(), key@, now)
            },
    ;

    /// Stores `value` under `key`, in place of whatever the key held. With a
    /// time-to-live in `options`, the value is gone once that many seconds
    /// have passed.
    fn put(&mut self, key: &str, value: &[u8], options: PutOptions, now: u64) -> (done: Result<
        (),
        CuttlestoreError,
    >)
        ensures
            Self::infallible() ==> done is Ok,
            done is Ok ==> final(self).contents() == after_put(
                old(self).contents(),
                key@,
                value@,
                options.ttl,
                now,
            ),
    ;

    /// Deletes the value under `key`. Deleting a missing key is no error.
    fn delete(&mut self, key: &str) -> (done: Result<(), CuttlestoreError>)
        ensures
            Self::infallible() ==> done is Ok,
            done is Ok ==> final(self).contents() == after_delete(old(self).contents(), key@),
    ;

    /// Lists every pair that has not expired, and deletes those that have.
    fn scan(&mut self, now: u64) -> (listed: Result<Vec<(String, Vec<u8>)>, CuttlestoreError>)
        ensures
            Self::infallible() ==> listed is Ok,
            listed matches Ok(pairs) ==> {
                &&& lists(pairs@, unexpired(old(self).contents(), now))
                &&& final(self).contents() == unexpired(old(self).contents(), now)
            },
    ;
}

/// A key that holds nothing is found absent, and looking for it changes
/// nothing. Writing, deleting and reading other keys leaves it absent, and
/// so does a scan.
pub proof fn law_missing_key_is_absent(
    contents: Contents,
    key: Seq<char>,
    other: Seq<char>,
    payload: Seq<u8>,
    ttl: Option<u64>,
    now: u64,
)
    requires
        !contents.contains_key(key),
        other != key,
    ensures
        lookup(contents, key, now) is None,
        after_get(contents, key, now) == contents,
        lookup(after_put(contents, other, payload, ttl, now), key, now) is None,
        lookup(after_delete(contents, other), key, now) is None,
        lookup(after_get(contents, other, now), key, now) is None,
        lookup(unexpired(contents, now), key, now) is None,
{
}

/// A value that was put without a time-to-live is found again, unchanged,
/// at any later time, and finding it changes nothing.
pub proof fn law_put_then_get(
    contents: Contents,
    key: Seq<char>,
    payload: Seq<u8>,
    now: u64,
    later: u64,
)
    ensures
        lookup(after_put(contents, key, payload, None, now), key, later) == Some(payload),
        after_get(after_put(contents, key, payload, None, now), key, later) == after_put(
            contents,
            key,
            payload,
            None,
            now,
        ),
{
}

/// Of two values put under one key, the second is found: the last write
/// wins, and nothing is left of the first.
pub proof fn law_second_put_wins(
    contents: Contents,
    key: Seq<char>,
    first: Seq<u8>,
    first_ttl: Option<u64>,
    second: Seq<u8>,
    now: u64,
    later: u64,
    last: u64,
)
    ensures
        lookup(
            after_put(after_put(contents, key, first, first_ttl, now), key, second, None, later),
            key,
            last,
        ) == Some(second),
        after_put(after_put(contents, key, first, first_ttl, now), key, second, None, later)
            == after_put(contents, key, second, None, later),
{
}

/// A value that was put and then deleted is found absent. Deleting a key
/// that holds nothing changes nothing, and deleting twice is deleting once.
pub proof fn law_delete_then_get(
    contents: Contents,
    key: Seq<char>,
    payload: Seq<u8>,
    ttl: Option<u64>,
    now: u64,
    later: u64,
)
    ensures
        lookup(after_delete(after_put(contents, key, payload, ttl, now), key), key, later) is None,
        !contents.contains_key(key) ==> after_delete(contents, key) == contents,
        after_delete(after_delete(contents, key), key) == after_delete(contents, key),
{
}

/// A value that was put at the second `now` with a time-to-live of
/// `seconds` is found up to and including the second `now + seconds`, and is
/// absent in every second after that.
pub proof fn law_value_lives_for_its_ttl(
    contents: Contents,
    key: Seq<char>,
    payload: Seq<u8>,
    seconds: u64,
    now: u64,
    later: u64,
)
    requires
        now <= later,
    ensures
        lookup(after_put(contents, key, payload, Some(seconds), now), key, now) == Some(payload),
        later <= now + seconds ==> lookup(
            after_put(contents, key, payload, Some(seconds), now),
            key,
            later,
        ) == Some(payload),
        later > now + seconds ==> lookup(
            after_put(contents, key, payload, Some(seconds), now),
            key,
            later,
        ) is None,
{
}

/// The keys of the pairs of a listing, in the order of the listing.
pub open spec fn keys_of(pairs: Seq<(String, Vec<u8>)>) -> Seq<Seq<char>> {
    Seq::new(pairs.len(), |i: int| pairs[i].0@)
}

/// A listing of the contents has exactly one pair for each key that the
/// contents hold, with the payload of that key, and no other pair: its
/// length is the number of keys.
pub proof fn law_scan_lists_each_pair_once(pairs: Seq<(String, Vec<u8>)>, contents: Contents)
    requires
        lists(pairs, contents),
    ensures
        contents.dom().finite(),
        pairs.len() == contents.dom().len(),
        keys_of(pairs).no_duplicates(),
        keys_of(pairs).to_set() == contents.dom(),
{
    let keys = keys_of(pairs);
    assert(keys.to_set() =~= contents.dom()) by {
        assert forall|key: Seq<char>| keys.to_set().contains(key) == contents.dom().contains(
            key,
        ) by {
            if contents.contains_key(key) {
                let i = choose|i: int| 0 <= i < pairs.len() && pairs[i].0@ == key;
                assert(keys[i] == key);
            }
        }
    }
    keys.unique_seq_to_set();
    vstd::seq_lib::seq_to_set_is_finite(keys);
}

/// A scan leaves behind what has not expired and nothing that has. What a
/// `get` finds is the same before and after the scan, and a second scan in
/// the same second changes nothing more.
pub proof fn law_scan_sweeps_what_has_expired(contents: Contents, now: u64)
    ensures
        forall|key: Seq<char>| #[trigger]
            unexpired(contents, now).contains_key(key) ==> !expired(
                unexpired(contents, now)[key].live_until,
                now,
            ),
        forall|key: Seq<char>|
            lookup(unexpired(contents, now), key, now) == lookup(contents, key, now),
        unexpired(unexpired(contents, now), now) == unexpired(contents, now),
{
}

/// One `put`: the key, the payload, the time-to-live and the second of the
/// call.
pub struct Write {
    pub key: Seq<char>,
    pub payload: Seq<u8>,
    pub ttl: Option<u64>,
    pub at: u64,
}

/// The contents after the `put`s of `writes`, in their order, into a
/// backend that holds `contents`.
pub open spec fn after_writes(contents: Contents, writes: Seq<Write>) -> Contents
    decreases writes.len(),
{
    if writes.len() == 0 {
        contents
    } else {
        after_put(
            after_writes(contents, writes.drop_last()),
            writes.last().key,
            writes.last().payload,
            writes.last().ttl,
            writes.last().at,
        )
    }
}

/// Whether one of the writes put this payload under this key.
pub open spec fn was_put(writes: Seq<Write>, key: Seq<char>, payload: Seq<u8>) -> bool {
    exists|i: int|
        0 <= i < writes.len() && (#[trigger] writes[i]).key == key && writes[i].payload == payload
}

/// Whether the writes go to different keys.
pub open spec fn distinct_keys(writes: Seq<Write>) -> bool {
    forall|i: int, j: int|
        0 <= i < j < writes.len() ==> #[trigger] writes[i].key != #[trigger] writes[j].key
}

/// Whether `states` are what a backend holds before, between and after the
/// `put`s of `writes`: each state is what the `put` makes of the state
/// before it.
pub open spec fn follows_the_writes(states: Seq<Contents>, writes: Seq<Write>) -> bool {
    &&& states.len() == writes.len() + 1
    &&& forall|i: int|
        #![trigger writes[i]]
        0 <= i < writes.len() ==> states[i + 1] == after_put(
            states[i],
            writes[i].key,
            writes[i].payload,
            writes[i].ttl,
            writes[i].at,
        )
}

/// Whether nothing of what `contents` holds is alive at the second `now`.
pub open spec fn nothing_alive(contents: Contents, now: u64) -> bool {
    forall|key: Seq<char>| #[trigger]
        contents.contains_key(key) ==> expired(contents[key].live_until, now)
}

/// Whether none of the writes has expired by the second `now`.
pub open spec fn all_alive(writes: Seq<Write>, now: u64) -> bool {
    forall|i: int|
        0 <= i < writes.len() ==> !expired(deadline(#[trigger] writes[i].ttl, writes[i].at), now)
}

/// Whether `contents` holds, under the key of each write, what that write
/// put there, and nothing under any other key.
spec fn holds_the_writes(contents: Contents, writes: Seq<Write>) -> bool {
    &&& forall|i: int|
        0 <= i < writes.len() ==> contents.contains_key(#[trigger] writes[i].key)
            && contents[writes[i].key] == (EnvelopeView {
            payload: writes[i].payload,
            live_until: deadline(writes[i].ttl, writes[i].at),
        })
    &&& forall|key: Seq<char>| #[trigger]
        contents.contains_key(key) ==> exists|i: int|
            0 <= i < writes.len() && #[trigger] writes[i].key == key
}

/// Whether `held` holds, under the key of each write, what that write put
/// there, and under any other key what `before` held.
spec fn holds_the_writes_over(held: Contents, before: Contents, writes: Seq<Write>) -> bool {
    &&& forall|i: int|
        0 <= i < writes.len() ==> held.contains_key(#[trigger] writes[i].key)
            && held[writes[i].key] == (EnvelopeView {
            payload: writes[i].payload,
            live_until: deadline(writes[i].ttl, writes[i].at),
        })
    &&& forall|key: Seq<char>| #[trigger]
        held.contains_key(key) ==> (exists|i: int|
            0 <= i < writes.len() && #[trigger] writes[i].key == key) || (before.contains_key(key)
            && held[key] == before[key])
}

/// The state after the last of the `put`s is what `after_writes` makes of
/// the state before the first.
proof fn lemma_states_end_after_writes(states: Seq<Contents>, writes: Seq<Write>)
    requires
        follows_the_writes(states, writes),
    ensures
        states.last() == after_writes(states[0], writes),
    decreases writes.len(),
{
    if writes.len() > 0 {
        lemma_states_end_after_writes(states.drop_last(), writes.drop_last());
    }
}

/// After `put`s under different keys, each key holds what was put under
/// it, and every other key holds what it held before.
proof fn lemma_after_writes(contents: Contents, writes: Seq<Write>)
    requires
        distinct_keys(writes),
    ensures
        holds_the_writes_over(after_writes(contents, writes), contents, writes),
    decreases writes.len(),
{
    let held = after_writes(contents, writes);
    if writes.len() > 0 {
        let earlier = writes.drop_last();
        let last = writes.len() - 1;
        lemma_after_writes(contents, earlier);
        assert forall|i: int| 0 <= i < writes.len() implies held.contains_key(
            #[trigger] writes[i].key,
        ) && held[writes[i].key] == (EnvelopeView {
            payload: writes[i].payload,
            live_until: deadline(writes[i].ttl, writes[i].at),
        }) by {
            if i < last {
                assert(earlier[i] == writes[i]);
            }
        }
    }
}

/// Of writes that are all alive onto contents of which nothing is alive,
/// a scan leaves the writes and nothing else.
proof fn lemma_scan_leaves_the_writes(
    held: Contents,
    before: Contents,
    writes: Seq<Write>,
    now: u64,
)
    requires
        holds_the_writes_over(held, before, writes),
        nothing_alive(before, now),
        all_alive(writes, now),
    ensures
        holds_the_writes(unexpired(held, now), writes),
{
}

/// Contents that hold writes under different keys, and nothing else, hold
/// as many keys as there are writes.
proof fn lemma_as_many_keys_as_writes(contents: Contents, writes: Seq<Write>)
    requires
        distinct_keys(writes),
        holds_the_writes(contents, writes),
    ensures
        contents.dom().finite(),
        contents.dom().len() == writes.len(),
{
    let written = Seq::new(writes.len(), |i: int| writes[i].key);
    assert(written.to_set() =~= contents.dom()) by {
        assert forall|key: Seq<char>| written.to_set().contains(key) == contents.dom().contains(
            key,
        ) by {
            if contents.contains_key(key) {
                let i = choose|i: int| 0 <= i < writes.len() && #[trigger] writes[i].key == key;
                assert(written[i] == key);
            }
        }
    }
    written.unique_seq_to_set();
    vstd::seq_lib::seq_to_set_is_finite(written);
}

/// The pair that a listing of the written contents has for a write.
proof fn lemma_each_write_is_listed(
    contents: Contents,
    writes: Seq<Write>,
    pairs: Seq<(String, Vec<u8>)>,
    i: int,
) -> (j: int)
    requires
        holds_the_writes(contents, writes),
        lists(pairs, contents),
        0 <= i < writes.len(),
    ensures
        0 <= j < pairs.len(),
        pairs[j].0@ == writes[i].key,
        pairs[j].1@ == writes[i].payload,
{
    let j = choose|j: int| 0 <= j < pairs.len() && #[trigger] pairs[j].0@ == writes[i].key;
    j
}

/// The write that a pair of a listing of the written contents stands for.
proof fn lemma_each_pair_was_written(
    contents: Contents,
    writes: Seq<Write>,
    pairs: Seq<(String, Vec<u8>)>,
    j: int,
) -> (i: int)
    requires
        holds_the_writes(contents, writes),
        lists(pairs, contents),
        0 <= j < pairs.len(),
    ensures
        0 <= i < writes.len(),
        writes[i].key == pairs[j].0@,
        writes[i].payload == pairs[j].1@,
{
    let i = choose|i: int| 0 <= i < writes.len() && #[trigger] writes[i].key == pairs[j].0@;
    i
}

/// A scan after `put`s lists exactly what was put. The backend held
/// nothing alive before; then came `put`s under different keys, each state
/// being what the `put` made of the state before; none of the values has
/// expired by the second of the scan. The scan then lists as many pairs as
/// there were `put`s, one for each, with the payload that was put, and no
/// other pair. The order of the pairs is left open.
pub proof fn law_scan_lists_what_was_put(
    states: Seq<Contents>,
    writes: Seq<Write>,
    pairs: Seq<(String, Vec<u8>)>,
    now: u64,
)
    requires
        follows_the_writes(states, writes),
        distinct_keys(writes),
        all_alive(writes, now),
        nothing_alive(states[0], now),
        lists(pairs, unexpired(states.last(), now)),
    ensures
        pairs.len() == writes.len(),
        forall|i: int|
            0 <= i < writes.len() ==> holds(pairs, (#[trigger] writes[i]).key, writes[i].payload),
        forall|j: int|
            0 <= j < pairs.len() ==> #[trigger] was_put(writes, pairs[j].0@, pairs[j].1@),
{
    let held = after_writes(states[0], writes);
    let left = unexpired(held, now);
    lemma_states_end_after_writes(states, writes);
    lemma_after_writes(states[0], writes);
    lemma_scan_leaves_the_writes(held, states[0], writes, now);
    assert(pairs.len() == writes.len()) by {
        lemma_as_many_keys_as_writes(left, writes);
        law_scan_lists_each_pair_once(pairs, left);
    }
}

} // verus!
