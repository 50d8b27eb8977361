//! The backend that keeps its values in the memory of the process.
use crate::backend_api::{named, offers, unexpired};
use crate::backend_api::{Contents, CuttleBackend, PutOptions};
use crate::common::error::CuttlestoreError;
use crate::envelope::{expired, is_expired, live_until_for, EnvelopeView};
use crate::text::{same_text, text_of};
use dashmap::DashMap;
use vstd::prelude::*;
use vstd::slice::slice_to_vec;

verus! {

/// `dashmap::DashMap`, a concurrent hash map. Nothing is known of what is
/// inside but through the functions below.
#[verifier::external_type_specification]
#[verifier::external_body]
#[verifier::reject_recursive_types(K)]
#[verifier::reject_recursive_types(V)]
#[verifier::reject_recursive_types(S)]
pub struct ExDashMap<K, V, S>(DashMap<K, V, S>);

/// The entries of a map: for each key, the payload and the deadline stored
/// under it.
pub uninterp spec fn stored(map: DashMap<String, (Vec<u8>, Option<u64>)>) -> Map<
    Seq<char>,
    (Seq<u8>, Option<u64>),
>;

/// `DashMap::new`: a map without entries.
#[verifier::external_body]
fn map_new() -> (fresh: DashMap<String, (Vec<u8>, Option<u64>)>)
    ensures
        stored(fresh).dom() == Set::<Seq<char>>::empty(),
{
    DashMap::new()
}

/// `DashMap::insert`: afterwards the key holds the given entry, in place of
/// what it held before; the other entries stay.
#[verifier::external_body]
fn map_insert(
    map: &mut DashMap<String, (Vec<u8>, Option<u64>)>,
    key: String,
    payload: Vec<u8>,
    live_until: Option<u64>,
)
    ensures
        stored(*final(map)) == stored(*old(map)).insert(key@, (payload@, live_until)),
{
    map.insert(key, (payload, live_until));
}

/// `DashMap::remove`: afterwards the key holds nothing; the other entries
/// stay.
#[verifier::external_body]
fn map_remove(map: &mut DashMap<String, (Vec<u8>, Option<u64>)>, key: &str)
    ensures
        stored(*final(map)) == stored(*old(map)).remove(key@),
{
    map.remove(key);
}

/// `DashMap::get`: a copy of the entry under the key, or `None` where the
/// key holds nothing.
#[verifier::external_body]
fn map_get(map: &DashMap<String, (Vec<u8>, Option<u64>)>, key: &str) -> (entry: Option<
    (Vec<u8>, Option<u64>),
>)
    ensures
        match entry {
            Some(fields) => stored(*map).contains_key(key@) && stored(*map)[key@] == (
                fields.0@,
                fields.1,
            ),
            None => !stored(*map).contains_key(key@),
        },
{
    map.get(key).map(|entry| entry.value().clone())
}

/// `DashMap::iter`, collected: a copy of every entry, each key once, in no
/// particular order.
#[verifier::external_body]
fn map_entries(map: &DashMap<String, (Vec<u8>, Option<u64>)>) -> (entries: Vec<
    (String, Vec<u8>, Option<u64>),
>)
    ensures
        forall|i: int|
            0 <= i < entries.len() ==> stored(*map).contains_key(#[trigger] entries[i].0@)
                && stored(*map)[entries[i].0@] == (entries[i].1@, entries[i].2),
        forall|key: Seq<char>| #[trigger]
            stored(*map).contains_key(key) ==> exists|i: int|
                0 <= i < entries.len() && #[trigger] entries[i].0@ == key,
        forall|i: int, j: int|
            0 <= i < j < entries.len() ==> #[trigger] entries[i].0@ != #[trigger] entries[j].0@,
{
    map.iter().map(|entry| (entry.key().clone(), entry.value().0.clone(), entry.value().1)).collect()
}

/// A backend that holds its values in a concurrent map, and loses them when
/// the process ends.
#[derive(Debug)]
pub struct InMemoryBackend {
    map: DashMap<String, (Vec<u8>, Option<u64>)>,
}

impl InMemoryBackend {
    /// A backend that holds nothing yet.
    pub fn empty() -> (backend: Self)
        ensures
            backend.contents() == Map::<Seq<char>, EnvelopeView>::empty(),
    {
        InMemoryBackend { map: map_new() }
    }
}

impl CuttleBackend for InMemoryBackend {
    closed spec fn contents(&self) -> Contents {
        Map::new(
            |key: Seq<char>| stored(self.map).contains_key(key),
            |key: Seq<char>|
                EnvelopeView {
                    payload: stored(self.map)[key].0,
                    live_until: stored(self.map)[key].1,
                },
        )
    }

    open spec fn claims(conn: Seq<char>) -> bool {
        conn == "in-memory"@
    }

    open spec fn infallible() -> bool {
        true
    }

    open spec fn volatile() -> bool {
        true
    }

    fn new(conn: &str) -> (opened: Option<Result<Self, CuttlestoreError>>) {
        if same_text(conn, "in-memory") {
            Some(Ok(Self::empty()))
        } else {
            None
        }
    }

    open spec fn needs_cleaner() -> bool {
        true
    }

    fn requires_cleaner(&self) -> (needed: bool) {
        true
    }

    open spec fn kind() -> Seq<char> {
        "in-memory"@
    }

    fn name(&self) -> (name: &'static str) {
        "in-memory"
    }

    fn get(&mut self, key: &str, now: u64) -> (found: Result<Option<Vec<u8>>, CuttlestoreError>) {
        match map_get(&self.map, key) {
            Some(fields) => {
                if is_expired(fields.1, now) {
                    map_remove(&mut self.map, key);
                    Ok(None)
                } else {
                    Ok(Some(fields.0))
                }
            },
            None => Ok(None),
        }
    }

    fn put(&mut self, key: &str, value: &[u8], options: PutOptions, now: u64) -> (done: Result<
        (),
        CuttlestoreError,
    >) {
        let live_until = live_until_for(&options, now);
        map_insert(&mut self.map, key.to_owned(), slice_to_vec(value), live_until);
        Ok(())
    }

    fn delete(&mut self, key: &str) -> (done: Result<(), CuttlestoreError>) {
        map_remove(&mut self.map, key);
        Ok(())
    }

    fn scan(&mut self, now: u64) -> (listed: Result<Vec<(String, Vec<u8>)>, CuttlestoreError>) {
        let mut entries = map_entries(&self.map);
        let ghost all = entries@;
        let ghost before = stored(self.map);
        // The entries from the last to the first: each with its key if it
        // stays, and without a name if it has expired and is deleted.
        let mut items: Vec<(Option<String>, Vec<u8>)> = Vec::new();
        while entries.len() > 0
            invariant
                entries.len() <= all.len(),
                entries@ == all.take(entries.len() as int),
                forall|i: int|
                    0 <= i < all.len() ==> before.contains_key(#[trigger] all[i].0@)
                        && before[all[i].0@] == (all[i].1@, all[i].2),
                forall|key: Seq<char>| #[trigger]
                    before.contains_key(key) ==> exists|i: int|
                        0 <= i < all.len() && #[trigger] all[i].0@ == key,
                forall|i: int, j: int|
                    0 <= i < j < all.len() ==> #[trigger] all[i].0@ != #[trigger] all[j].0@,
                forall|key: Seq<char>| #[trigger]
                    stored(self.map).contains_key(key) ==> before.contains_key(key) && stored(
                        self.map,
                    )[key] == before[key],
                forall|i: int|
                    0 <= i < all.len() ==> (stored(self.map).contains_key(#[trigger] all[i].0@)
                        <==> i < entries.len() || !expired(all[i].2, now)),
                items.len() == all.len() - entries.len(),
                forall|j: int|
                    0 <= j < items.len() ==> (#[trigger] items[j]).1@ == all[all.len() - 1 - j].1@
                        && text_of(items[j].0) == (if expired(all[all.len() - 1 - j].2, now) {
                        None
                    } else {
                        Some(all[all.len() - 1 - j].0@)
                    }),
            decreases entries.len(),
        {
            let entry = entries.pop().unwrap();
            if is_expired(entry.2, now) {
                map_remove(&mut self.map, entry.0.as_str());
                items.push((None, entry.1));
            } else {
                items.push((Some(entry.0), entry.1));
            }
        }
        let pairs = named(items);
        proof {
            let kept = unexpired(old(self).contents(), now);
            let last = all.len() - 1;
            assert forall|m: int| 0 <= m < pairs.len() implies kept.contains_key(
                #[trigger] pairs@[m].0@,
            ) && kept[pairs@[m].0@].payload == pairs@[m].1@ by {
                assert(offers(items@, pairs[m].0@, pairs[m].1@));
            }
            assert forall|key: Seq<char>| #[trigger] kept.contains_key(key) implies exists|m: int|
                0 <= m < pairs.len() && #[trigger] pairs@[m].0@ == key by {
                let i = choose|i: int| 0 <= i < all.len() && #[trigger] all[i].0@ == key;
                assert(items[last - i].0 is Some);
            }
        }
        Ok(pairs)
    }
}

} // verus!
