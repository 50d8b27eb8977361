//! The store: a namespaced view of the values behind a connection.
use crate::backend_api::{after_delete, after_get, after_put, lists, lookup, unexpired};
use crate::backend_api::{named, offers};
use crate::backend_api::{CuttleBackend, PutOptions};
use crate::builder::{refuses, CuttleConnection, CuttlestoreBuilder};
use crate::common::error::CuttlestoreError;
use crate::common::time::{duration_from_secs, get_system_time};
use crate::namespace::{full_key, joined, lemma_local_key_inverts_full_key, local_key, namespaced};
use crate::text::{begins_with, chars_of, piece, text_of};
use vstd::prelude::*;
use vstd::string::{StrSliceExecFns, StringExecFns};

verus! {

/// A basic key-value store: a view of the values behind a connection,
/// through one namespace.
///
/// A store owns nothing. Every operation takes the connection that the store
/// was made on, so any number of stores can work on one connection. A store
/// with a prefix keeps its values under `<prefix>:<key>` and passes over
/// every key of the backend that does not begin with `<prefix>:`.
///
/// Each operation comes in two forms: one that reads the clock, and one
/// whose name ends in `_at` and that takes the current second as an
/// argument.
#[derive(Debug)]
pub struct Cuttlestore {
    prefix: Option<String>,
}

impl Clone for Cuttlestore {
    /// A second view through the same namespace. It costs no more than a
    /// copy of the prefix.
    fn clone(&self) -> (copy: Self)
        ensures
            copy.prefix() == self.prefix(),
    {
        Cuttlestore {
            prefix: match &self.prefix {
                Some(prefix) => Some(prefix.clone()),
                None => None,
            },
        }
    }
}

impl Cuttlestore {
    /// The prefix of the store, if it has one.
    pub closed spec fn prefix(&self) -> Option<Seq<char>> {
        text_of(self.prefix)
    }

    /// The store without a prefix: it sees every key as the backend holds
    /// it.
    pub fn unprefixed() -> (store: Self)
        ensures
            store.prefix() is None,
    {
        Cuttlestore { prefix: None }
    }

    /// The store with this prefix, or without one.
    pub fn with_prefix(prefix: Option<String>) -> (store: Self)
        ensures
            store.prefix() == text_of(prefix),
    {
        Cuttlestore { prefix }
    }

    /// The store with the prefix `local` on a connection with the prefix
    /// `outer`.
    pub fn within(outer: &Option<String>, local: &str) -> (store: Self)
        ensures
            store.prefix() == Some(joined(text_of(*outer), local@)),
    {
        let mut prefix = match outer {
            Some(outer) => outer.clone(),
            None => String::new(),
        };
        proof {
            reveal_strlit(":");
        }
        prefix.append(":");
        prefix.append(local);
        Cuttlestore { prefix: Some(prefix) }
    }

    /// Opens the connection that `conn` names, with the default settings,
    /// and the store without a prefix on it.
    pub fn new<B: CuttleBackend>(conn: &str) -> (opened: Result<
        (CuttleConnection<B>, Self),
        CuttlestoreError,
    >)
        ensures
            match opened {
                Ok(pair) => pair.0.opened_by(conn@, None, duration_from_secs(600))
                    && pair.1.prefix() is None,
                Err(error) => refuses::<B>(error, conn@),
            },
    {
        CuttlestoreBuilder::new(conn).finish()
    }

    /// Prefixes the key, if a prefix is configured for this store.
    pub fn key(&self, key: &str) -> (stored: String)
        ensures
            stored@ == full_key(self.prefix(), key@),
    {
        match &self.prefix {
            Some(prefix) => {
                let mut stored = prefix.clone();
                proof {
                    reveal_strlit(":");
                }
                stored.append(":");
                stored.append(key);
                stored
            },
            None => key.to_owned(),
        }
    }

    /// Strips the prefix from a key of the backend, if a prefix is
    /// configured for this store. The result is `None` for a key of another
    /// store.
    pub fn strip_prefix(&self, prefixed_key: String) -> (key: Option<String>)
        ensures
            text_of(key) == local_key(self.prefix(), prefixed_key@),
    {
        match &self.prefix {
            Some(prefix) => {
                let chars = chars_of(prefixed_key.as_str());
                let length = prefix.as_str().unicode_len();
                if begins_with(&chars, prefix.as_str()) && length < chars.len() && chars[length]
                    == ':' {
                    Some(piece(prefixed_key.as_str(), length + 1, chars.len()))
                } else {
                    assert(!(prefix@ + seq![':']).is_prefix_of(prefixed_key@)) by {
                        if (prefix@ + seq![':']).is_prefix_of(prefixed_key@) {
                            let head = prefix@ + seq![':'];
                            assert(prefixed_key@[length as int] == head[length as int]);
                        }
                    }
                    None
                }
            },
            None => Some(prefixed_key),
        }
    }

    /// Places a value into the store, to stay until it is deleted or
    /// overwritten.
    pub fn put<B: CuttleBackend>(
        &self,
        connection: &mut CuttleConnection<B>,
        key: &str,
        value: &[u8],
    ) -> (done: Result<(), CuttlestoreError>)
        ensures
            final(connection).prefix() == old(connection).prefix(),
            final(connection).sweep_every() == old(connection).sweep_every(),
            B::infallible() ==> done is Ok,
            done is Ok ==> forall|now: u64|
                final(connection).contents() == #[trigger] after_put(
                    old(connection).contents(),
                    full_key(self.prefix(), key@),
                    value@,
                    None,
                    now,
                ),
    {
        self.put_with(connection, key, value, PutOptions::default())
    }

    /// Places a value into the store, with the given options.
    pub fn put_with<B: CuttleBackend>(
        &self,
        connection: &mut CuttleConnection<B>,
        key: &str,
        value: &[u8],
        options: PutOptions,
    ) -> (done: Result<(), CuttlestoreError>)
        ensures
            final(connection).prefix() == old(connection).prefix(),
            final(connection).sweep_every() == old(connection).sweep_every(),
            B::infallible() ==> done is Ok,
            done is Ok ==> exists|now: u64|
                final(connection).contents() == #[trigger] after_put(
                    old(connection).contents(),
                    full_key(self.prefix(), key@),
                    value@,
                    options.ttl,
                    now,
                ),
    {
        let now = get_system_time();
        self.put_at(connection, key, value, options, now)
    }

    /// Places a value into the store at the second `now`. It takes the
    /// place of whatever the key held.
    pub fn put_at<B: CuttleBackend>(
        &self,
        connection: &mut CuttleConnection<B>,
        key: &str,
        value: &[u8],
        options: PutOptions,
        now: u64,
    ) -> (done: Result<(), CuttlestoreError>)
        ensures
            final(connection).prefix() == old(connection).prefix(),
            final(connection).sweep_every() == old(connection).sweep_every(),
            B::infallible() ==> done is Ok,
            done is Ok ==> final(connection).contents() == after_put(
                old(connection).contents(),
                full_key(self.prefix(), key@),
                value@,
                options.ttl,
                now,
            ),
    {
        let stored = self.key(key);
        connection.put(stored.as_str(), value, options, now)
    }

    /// Removes a value from the store. Removing a key that holds nothing is
    /// no error.
    pub fn delete<B: CuttleBackend>(&self, connection: &mut CuttleConnection<B>, key: &str) -> (done:
        Result<(), CuttlestoreError>)
        ensures
            final(connection).prefix() == old(connection).prefix(),
            final(connection).sweep_every() == old(connection).sweep_every(),
            B::infallible() ==> done is Ok,
            done is Ok ==> final(connection).contents() == after_delete(
                old(connection).contents(),
                full_key(self.prefix(), key@),
            ),
    {
        let stored = self.key(key);
        connection.delete(stored.as_str())
    }

    /// Gets a value from the store. An expired value is never returned.
    pub fn get<B: CuttleBackend>(&self, connection: &mut CuttleConnection<B>, key: &str) -> (found:
        Result<Option<Vec<u8>>, CuttlestoreError>)
        ensures
            final(connection).prefix() == old(connection).prefix(),
            final(connection).sweep_every() == old(connection).sweep_every(),
            B::infallible() ==> found is Ok,
            found matches Ok(value) ==> exists|now: u64|
                {
                    &&& value matches Some(payload) ==> #[trigger] lookup(
                        old(connection).contents(),
                        full_key(self.prefix(), key@),
                        now,
                    ) == Some(payload@)
                    &&& value is None ==> lookup(
                        old(connection).contents(),
                        full_key(self.prefix(), key@),
                        now,
                    ) is None
                    &&& final(connection).contents() == after_get(
                        old(connection).contents(),
                        full_key(self.prefix(), key@),
                        now,
                    )
                },
    {
        let now = get_system_time();
        self.get_at(connection, key, now)
    }

    /// Gets a value from the store at the second `now`. A value that has
    /// expired by then is not returned; it is deleted.
    pub fn get_at<B: CuttleBackend>(
        &self,
        connection: &mut CuttleConnection<B>,
        key: &str,
        now: u64,
    ) -> (found: Result<Option<Vec<u8>>, CuttlestoreError>)
        ensures
            final(connection).prefix() == old(connection).prefix(),
            final(connection).sweep_every() == old(connection).sweep_every(),
            B::infallible() ==> found is Ok,
            found matches Ok(value) ==> {
                &&& value matches Some(payload) ==> lookup(
                    old(connection).contents(),
                    full_key(self.prefix(), key@),
                    now,
                ) == Some(payload@)
                &&& value is None ==> lookup(
                    old(connection).contents(),
                    full_key(self.prefix(), key@),
                    now,
                ) is None
                &&& final(connection).contents() == after_get(
                    old(connection).contents(),
                    full_key(self.prefix(), key@),
                    now,
                )
            },
    {
        let stored = self.key(key);
        connection.get(stored.as_str(), now)
    }

    /// Lists all the pairs of the store. Expired values are never listed.
    ///
    /// This walks through everything that the backend holds, and passes
    /// over what belongs to other stores: the more the backend holds, the
    /// longer it takes.
    pub fn scan<B: CuttleBackend>(&self, connection: &mut CuttleConnection<B>) -> (listed: Result<
        Vec<(String, Vec<u8>)>,
        CuttlestoreError,
    >)
        ensures
            final(connection).prefix() == old(connection).prefix(),
            final(connection).sweep_every() == old(connection).sweep_every(),
            B::infallible() ==> listed is Ok,
            listed matches Ok(pairs) ==> exists|now: u64|
                {
                    &&& #[trigger] lists(
                        pairs@,
                        namespaced(self.prefix(), unexpired(old(connection).contents(), now)),
                    )
                    &&& final(connection).contents() == unexpired(old(connection).contents(), now)
                },
    {
        let now = get_system_time();
        self.scan_at(connection, now)
    }

    /// Lists, at the second `now`, all the pairs of the store that have not
    /// expired, each key once and without the prefix, in no particular
    /// order. Whatever has expired is deleted from the backend, in this store
    /// and in the others.
    pub fn scan_at<B: CuttleBackend>(&self, connection: &mut CuttleConnection<B>, now: u64) -> (listed:
        Result<Vec<(String, Vec<u8>)>, CuttlestoreError>)
        ensures
            final(connection).prefix() == old(connection).prefix(),
            final(connection).sweep_every() == old(connection).sweep_every(),
            B::infallible() ==> listed is Ok,
            listed matches Ok(pairs) ==> {
                &&& lists(
                    pairs@,
                    namespaced(self.prefix(), unexpired(old(connection).contents(), now)),
                )
                &&& final(connection).contents() == unexpired(old(connection).contents(), now)
            },
    {
        let mut rest = match connection.scan(now) {
            Ok(everything) => everything,
            Err(error) => {
                return Err(error);
            },
        };
        let ghost kept = unexpired(old(connection).contents(), now);
        let ghost everything = rest@;
        // The pairs of the backend from the last to the first: each with
        // the key that the users of this store give it, and without a name
        // if it belongs to another store.
        let mut items: Vec<(Option<String>, Vec<u8>)> = Vec::new();
        while rest.len() > 0
            invariant
                rest.len() <= everything.len(),
                rest@ == everything.take(rest.len() as int),
                items.len() == everything.len() - rest.len(),
                forall|j: int|
                    0 <= j < items.len() ==> (#[trigger] items[j]).1@ == everything[everything.len()
                        - 1 - j].1@ && text_of(items[j].0) == local_key(
                        self.prefix(),
                        everything[everything.len() - 1 - j].0@,
                    ),
            decreases rest.len(),
        {
            let pair = rest.pop().unwrap();
            items.push((self.strip_prefix(pair.0), pair.1));
        }
        let ghost last = everything.len() - 1;
        assert forall|i: int, j: int|
            0 <= i < j < items.len() && (#[trigger] items[i]).0 is Some && (#[trigger] items[j]).0
                is Some implies text_of(items[i].0) != text_of(items[j].0) by {
            lemma_local_key_inverts_full_key(
                self.prefix(),
                text_of(items[i].0)->0,
                everything[last - i].0@,
            );
            lemma_local_key_inverts_full_key(
                self.prefix(),
                text_of(items[j].0)->0,
                everything[last - j].0@,
            );
        }
        let pairs = named(items);
        proof {
            let own = namespaced(self.prefix(), kept);
            assert forall|m: int| 0 <= m < pairs.len() implies own.contains_key(
                #[trigger] pairs@[m].0@,
            ) && own[pairs@[m].0@].payload == pairs@[m].1@ by {
                assert(offers(items@, pairs[m].0@, pairs[m].1@));
                let j = choose|j: int|
                    0 <= j < items.len() && text_of((#[trigger] items[j]).0) == Some(pairs[m].0@)
                        && items[j].1@ == pairs[m].1@;
                let stored = everything[last - j].0@;
                lemma_local_key_inverts_full_key(self.prefix(), pairs@[m].0@, stored);
            }
            assert forall|key: Seq<char>| #[trigger] own.contains_key(key) implies exists|m: int|
                0 <= m < pairs.len() && #[trigger] pairs@[m].0@ == key by {
                let stored = full_key(self.prefix(), key);
                lemma_local_key_inverts_full_key(self.prefix(), key, stored);
                let i = choose|i: int|
                    0 <= i < everything.len() && #[trigger] everything[i].0@ == stored;
                assert(items[last - i].0 is Some);
            }
        }
        Ok(pairs)
    }
}

} // verus!
