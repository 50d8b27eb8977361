//! Namespaces: how the stores on one backend keep their keys apart.
//!
//! A store with a prefix keeps what its users call `key` under
//! `<prefix>:<key>`. From what the backend holds it takes only the keys that
//! begin with `<prefix>:`, and hands them out without that beginning. The
//! laws at the end say when two stores never meet.
use crate::backend_api::{after_delete, after_get, after_put, lookup, unexpired, Contents};
use crate::backend_api::{all_alive, distinct_keys, follows_the_writes, lists, nothing_alive};
use crate::backend_api::{holds, law_scan_lists_what_was_put, was_put, Write};
use vstd::prelude::*;

verus! {

/// The key under which a store with the prefix `prefix` keeps what its
/// users call `key`: the prefix, a colon and the key, or the key alone where
/// the store has no prefix.
pub open spec fn full_key(prefix: Option<Seq<char>>, key: Seq<char>) -> Seq<char> {
    match prefix {
        Some(prefix) => prefix + seq![':'] + key,
        None => key,
    }
}

/// What the users of a store with the prefix `prefix` call the key that the
/// backend holds as `stored`, or `None` where that key belongs to another
/// store: it does not begin with the prefix and a colon.
pub open spec fn local_key(prefix: Option<Seq<char>>, stored: Seq<char>) -> Option<Seq<char>> {
    match prefix {
        Some(prefix) => if (prefix + seq![':']).is_prefix_of(stored) {
            Some(stored.skip(prefix.len() as int + 1))
        } else {
            None
        },
        None => Some(stored),
    }
}

/// The contents as a store with the prefix `prefix` sees them: what is kept
/// under the keys of its namespace, by the names that its users give them.
pub open spec fn namespaced(prefix: Option<Seq<char>>, contents: Contents) -> Contents {
    Map::new(
        |key: Seq<char>| contents.contains_key(full_key(prefix, key)),
        |key: Seq<char>| contents[full_key(prefix, key)],
    )
}

/// Stripping the prefix undoes prefixing, and a stored key can be stripped
/// only if it was made by prefixing.
pub proof fn lemma_local_key_inverts_full_key(
    prefix: Option<Seq<char>>,
    key: Seq<char>,
    stored: Seq<char>,
)
    ensures
        local_key(prefix, full_key(prefix, key)) == Some(key),
        local_key(prefix, stored) == Some(key) <==> stored == full_key(prefix, key),
{
    match prefix {
        Some(p) => {
            let head = p + seq![':'];
            if head.is_prefix_of(stored) {
                assert(stored =~= head + stored.skip(head.len() as int));
            }
        },
        None => {},
    }
}

/// Through its namespace a store sees a backend of its own: what it puts,
/// deletes, gets and scans does to its view of the contents what the same
/// operation, without the prefix, does to a backend that holds that view.
/// So whatever holds of a backend holds of every store.
pub proof fn law_store_is_a_backend_of_its_own(
    prefix: Option<Seq<char>>,
    contents: Contents,
    key: Seq<char>,
    payload: Seq<u8>,
    ttl: Option<u64>,
    now: u64,
)
    ensures
        lookup(contents, full_key(prefix, key), now) == lookup(
            namespaced(prefix, contents),
            key,
            now,
        ),
        namespaced(prefix, after_put(contents, full_key(prefix, key), payload, ttl, now))
            == after_put(namespaced(prefix, contents), key, payload, ttl, now),
        namespaced(prefix, after_delete(contents, full_key(prefix, key))) == after_delete(
            namespaced(prefix, contents),
            key,
        ),
        namespaced(prefix, after_get(contents, full_key(prefix, key), now)) == after_get(
            namespaced(prefix, contents),
            key,
            now,
        ),
        namespaced(prefix, unexpired(contents, now)) == unexpired(
            namespaced(prefix, contents),
            now,
        ),
{
    let stored = full_key(prefix, key);
    assert forall|other: Seq<char>| other != key implies full_key(prefix, other) != stored by {
        lemma_local_key_inverts_full_key(prefix, other, stored);
        lemma_local_key_inverts_full_key(prefix, key, stored);
    }
}

/// The writes of a store as the backend receives them: each under the key
/// that the store gives it.
pub open spec fn stored_under(prefix: Option<Seq<char>>, writes: Seq<Write>) -> Seq<Write> {
    Seq::new(
        writes.len(),
        |i: int|
            Write {
                key: full_key(prefix, writes[i].key),
                payload: writes[i].payload,
                ttl: writes[i].ttl,
                at: writes[i].at,
            },
    )
}

/// A scan of a store after `put`s through that store lists exactly what was
/// put. The backend held nothing alive under the prefix of the store
/// before, whatever it held for other stores; then came `put`s through the
/// store under different keys, each state of the backend being what the
/// `put` made of the state before; none of the values has expired by the
/// second of the scan. The scan then lists as many pairs as there were
/// `put`s, one for each, under the key and with the payload that was put,
/// and no other pair. The order of the pairs is left open.
pub proof fn law_store_scan_lists_what_was_put(
    prefix: Option<Seq<char>>,
    states: Seq<Contents>,
    writes: Seq<Write>,
    pairs: Seq<(String, Vec<u8>)>,
    now: u64,
)
    requires
        follows_the_writes(states, stored_under(prefix, writes)),
        distinct_keys(writes),
        all_alive(writes, now),
        nothing_alive(namespaced(prefix, states[0]), now),
        lists(pairs, namespaced(prefix, unexpired(states.last(), now))),
    ensures
        pairs.len() == writes.len(),
        forall|i: int|
            0 <= i < writes.len() ==> holds(pairs, (#[trigger] writes[i]).key, writes[i].payload),
        forall|j: int|
            0 <= j < pairs.len() ==> #[trigger] was_put(writes, pairs[j].0@, pairs[j].1@),
{
    let sent = stored_under(prefix, writes);
    let views = Seq::new(states.len(), |i: int| namespaced(prefix, states[i]));
    assert(follows_the_writes(views, writes)) by {
        assert forall|i: int| #![trigger writes[i]] 0 <= i < writes.len() implies views[i + 1]
            == after_put(
            views[i],
            writes[i].key,
            writes[i].payload,
            writes[i].ttl,
            writes[i].at,
        ) by {
            assert(sent[i].key == full_key(prefix, writes[i].key));
            law_store_is_a_backend_of_its_own(
                prefix,
                states[i],
                writes[i].key,
                writes[i].payload,
                writes[i].ttl,
                writes[i].at,
            );
        }
    }
    law_store_is_a_backend_of_its_own(prefix, states.last(), Seq::empty(), Seq::empty(), None, now);
    law_scan_lists_what_was_put(views, writes, pairs, now);
}

/// The prefix of a store made with the prefix `local` on a connection
/// with the prefix `outer`: the two joined by a colon. A connection without
/// a prefix counts as one with the empty prefix.
pub open spec fn joined(outer: Option<Seq<char>>, local: Seq<char>) -> Seq<char> {
    (match outer {
        Some(outer) => outer,
        None => Seq::empty(),
    }) + seq![':'] + local
}

/// Whether two prefixes keep their stores apart: neither prefix, with the
/// colon that ends it, begins the other with its colon.
///
/// Two different prefixes without a colon in them are always apart. A
/// prefix with a colon in it can reach into another namespace: the store
/// `a` holds its key `b:k` where the store `a:b` holds its key `k`.
pub open spec fn separate(first: Seq<char>, second: Seq<char>) -> bool {
    &&& !(first + seq![':']).is_prefix_of(second + seq![':'])
    &&& !(second + seq![':']).is_prefix_of(first + seq![':'])
}

/// Of two texts that both begin a third, the shorter begins the longer.
proof fn lemma_prefixes_of_one_text(short: Seq<char>, long: Seq<char>, text: Seq<char>)
    requires
        short.is_prefix_of(text),
        long.is_prefix_of(text),
        short.len() <= long.len(),
    ensures
        short.is_prefix_of(long),
{
}

/// Two stores whose prefixes are apart share no key: no key of the one is
/// stored where a key of the other is stored, and the one passes over every
/// stored key of the other.
pub proof fn law_separate_stores_share_no_key(
    first: Seq<char>,
    second: Seq<char>,
    key: Seq<char>,
    other_key: Seq<char>,
)
    requires
        separate(first, second),
    ensures
        full_key(Some(first), key) != full_key(Some(second), other_key),
        local_key(Some(first), full_key(Some(second), other_key)) is None,
        local_key(Some(second), full_key(Some(first), key)) is None,
{
    let head = first + seq![':'];
    let other_head = second + seq![':'];
    let stored = head + key;
    let other_stored = other_head + other_key;
    if head.is_prefix_of(other_stored) {
        if head.len() <= other_head.len() {
            lemma_prefixes_of_one_text(head, other_head, other_stored);
        } else {
            lemma_prefixes_of_one_text(other_head, head, other_stored);
        }
    }
    if other_head.is_prefix_of(stored) {
        if head.len() <= other_head.len() {
            lemma_prefixes_of_one_text(head, other_head, stored);
        } else {
            lemma_prefixes_of_one_text(other_head, head, stored);
        }
    }
}

/// Two stores whose prefixes are apart do not disturb each other: what the
/// one puts or deletes under any key changes neither what the other finds
/// under any key, nor what a scan lists for the other.
pub proof fn law_separate_stores_do_not_disturb_each_other(
    contents: Contents,
    first: Seq<char>,
    second: Seq<char>,
    key: Seq<char>,
    other_key: Seq<char>,
    payload: Seq<u8>,
    ttl: Option<u64>,
    now: u64,
    later: u64,
)
    requires
        separate(first, second),
    ensures
        lookup(
            after_put(contents, full_key(Some(first), key), payload, ttl, now),
            full_key(Some(second), other_key),
            later,
        ) == lookup(contents, full_key(Some(second), other_key), later),
        lookup(
            after_delete(contents, full_key(Some(first), key)),
            full_key(Some(second), other_key),
            later,
        ) == lookup(contents, full_key(Some(second), other_key), later),
        namespaced(
            Some(second),
            after_put(contents, full_key(Some(first), key), payload, ttl, now),
        ) == namespaced(Some(second), contents),
        namespaced(
            Some(second),
            after_delete(contents, full_key(Some(first), key)),
        ) == namespaced(Some(second), contents),
{
    law_separate_stores_share_no_key(first, second, key, other_key);
}

/// Two different prefixes without a colon in them are apart.
pub proof fn law_plain_prefixes_are_separate(first: Seq<char>, second: Seq<char>)
    requires
        first != second,
        !first.contains(':'),
        !second.contains(':'),
    ensures
        separate(first, second),
{
    let head = first + seq![':'];
    let other_head = second + seq![':'];
    if head.is_prefix_of(other_head) {
        if first.len() < second.len() {
            assert(head[first.len() as int] == ':');
        }
        assert(first =~= second) by {
            assert forall|i: int| 0 <= i < first.len() implies first[i] == second[i] by {
                assert(head[i] == other_head[i]);
            }
        }
    }
    if other_head.is_prefix_of(head) {
        if second.len() < first.len() {
            assert(other_head[second.len() as int] == ':');
        }
    }
}

/// Stores made on one connection with prefixes that are apart are apart
/// themselves, whatever the prefix of the connection.
pub proof fn law_made_stores_are_separate(
    outer: Option<Seq<char>>,
    first: Seq<char>,
    second: Seq<char>,
)
    requires
        separate(first, second),
    ensures
        separate(joined(outer, first), joined(outer, second)),
{
    let base = (match outer {
        Some(outer) => outer,
        None => Seq::empty(),
    }) + seq![':'];
    let head = first + seq![':'];
    let other_head = second + seq![':'];
    let made = joined(outer, first) + seq![':'];
    let other_made = joined(outer, second) + seq![':'];
    if made.is_prefix_of(other_made) {
        assert(head =~= other_head.subrange(0, head.len() as int)) by {
            assert forall|i: int| 0 <= i < head.len() implies head[i] == other_head[i] by {
                assert(made[base.len() + i] == other_made[base.len() + i]);
            }
        }
    }
    if other_made.is_prefix_of(made) {
        assert(other_head =~= head.subrange(0, other_head.len() as int)) by {
            assert forall|i: int| 0 <= i < other_head.len() implies other_head[i] == head[i] by {
                assert(made[base.len() + i] == other_made[base.len() + i]);
            }
        }
    }
}

} // verus!
