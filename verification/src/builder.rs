//! Opening connections: the builder, the connection, and the choice of the
//! backend that a connection string names.
use crate::api::Cuttlestore;
use crate::backend_api::{after_delete, after_get, after_put, lists, lookup, unexpired};
use crate::backend_api::{Contents, CuttleBackend, PutOptions};
use crate::backends::filesystem::FilesystemBackend;
use crate::backends::in_memory::InMemoryBackend;
use crate::backends::redis::RedisBackend;
use crate::backends::sqlite::SqliteBackend;
use crate::common::cleanup::CleanerOptions;
use crate::common::error::CuttlestoreError;
use crate::common::time::duration_from_secs;
use crate::envelope::EnvelopeView;
use crate::namespace::joined;
use crate::text::{chars_of, find, first_at, lemma_first_at, piece, text_of};
use std::time::Duration;
use vstd::prelude::*;
use vstd::string::StringExecFns;

verus! {

/// The scheme of a connection string: what stands before its first colon,
/// or all of it where it has no colon.
pub open spec fn scheme_of(conn: Seq<char>) -> Seq<char> {
    conn.take(first_at(conn, ':', 0))
}

/// Whether `error` says that no backend matches `conn`, and names the
/// scheme of `conn` and nothing else of it.
pub open spec fn names_scheme_only(error: CuttlestoreError, conn: Seq<char>) -> bool {
    error matches CuttlestoreError::NoMatchingBackend(scheme) && scheme@ == scheme_of(conn)
}

/// The scheme gives away nothing of what follows it: it is the beginning
/// of the connection string, it holds no colon, and where the connection
/// string has a colon it ends before the first one.
pub proof fn law_scheme_hides_the_rest(conn: Seq<char>)
    ensures
        scheme_of(conn).is_prefix_of(conn),
        !scheme_of(conn).contains(':'),
        conn.contains(':') ==> scheme_of(conn).len() < conn.len() && conn[scheme_of(
            conn,
        ).len() as int] == ':',
{
    lemma_first_at(conn, ':', 0);
}

/// Reads the scheme of a connection string.
pub fn scheme(conn: &str) -> (scheme: String)
    ensures
        scheme@ == scheme_of(conn@),
{
    let chars = chars_of(conn);
    let end = find(&chars, ':', 0);
    piece(conn, 0, end)
}

/// The sweep period of a connection to a backend of the kind `B` that was
/// configured with `period`: that period where the backend needs a cleaner,
/// and none where it does not.
pub open spec fn sweep_for<B: CuttleBackend>(period: Duration) -> Option<Duration> {
    if B::needs_cleaner() {
        Some(period)
    } else {
        None
    }
}

/// Whether `error` is a fitting answer to the attempt to open `conn` with a
/// backend of the kind `B`. Where the connection string is not addressed to
/// that kind, the error says so and names the scheme alone. Where it is, an
/// error can only come from the backend, and only from a backend that can
/// fail.
pub open spec fn refuses<B: CuttleBackend>(error: CuttlestoreError, conn: Seq<char>) -> bool {
    if B::claims(conn) {
        !B::infallible()
    } else {
        names_scheme_only(error, conn)
    }
}

/// Configures a connection before it is opened.
#[derive(Debug)]
pub struct CuttlestoreBuilder {
    conn: String,
    cleaner: CleanerOptions,
    prefix: Option<String>,
}

impl CuttlestoreBuilder {
    /// The connection string to open.
    pub closed spec fn conn(&self) -> Seq<char> {
        self.conn@
    }

    /// The pause between two sweeps of the cleaner.
    pub closed spec fn sweep_every(&self) -> Duration {
        self.cleaner.sweep_every
    }

    /// The prefix for the whole connection, if one was set.
    pub closed spec fn connection_prefix(&self) -> Option<Seq<char>> {
        text_of(self.prefix)
    }

    /// Starts configuring a connection: a sweep every ten minutes, no
    /// prefix.
    pub fn new(conn: &str) -> (builder: Self)
        ensures
            builder.conn() == conn@,
            builder.sweep_every() == duration_from_secs(600),
            builder.connection_prefix() is None,
    {
        Self { conn: String::from_str(conn), cleaner: CleanerOptions::default(), prefix: None }
    }

    /// Every period, scan the store for stale values.
    ///
    /// This concerns the backends that do not expire values by themselves;
    /// for the others it does nothing.
    pub fn clean_every(self, period: Duration) -> (builder: Self)
        ensures
            builder.conn() == self.conn(),
            builder.sweep_every() == period,
            builder.connection_prefix() == self.connection_prefix(),
    {
        Self { conn: self.conn, cleaner: CleanerOptions { sweep_every: period }, prefix: self.prefix }
    }

    /// Every this many seconds, scan the store for stale values.
    pub fn clean_every_secs(self, secs: u64) -> (builder: Self)
        ensures
            builder.conn() == self.conn(),
            builder.sweep_every() == duration_from_secs(secs),
            builder.connection_prefix() == self.connection_prefix(),
    {
        self.clean_every(Duration::from_secs(secs))
    }

    /// Prefix every key with this string: the keys of the store that
    /// `finish` gives, and the keys of every store made on the connection
    /// that `finish_connection` gives.
    ///
    /// The prefix is invisible to the users of those stores: it is added on
    /// every operation and stripped from what a scan lists. Programs that
    /// share one backend keep out of each other's way by distinct prefixes.
    pub fn prefix(self, prefix: &str) -> (builder: Self)
        ensures
            builder.conn() == self.conn(),
            builder.sweep_every() == self.sweep_every(),
            builder.connection_prefix() == Some(prefix@),
    {
        Self { conn: self.conn, cleaner: self.cleaner, prefix: Some(String::from_str(prefix)) }
    }

    /// Takes the builder apart: the connection string, the options of the
    /// cleaner and the prefix of the connection. This is for those who open
    /// the backend themselves.
    pub fn into_parts(self) -> (parts: (String, CleanerOptions, Option<String>))
        ensures
            parts.0@ == self.conn(),
            parts.1.sweep_every == self.sweep_every(),
            text_of(parts.2) == self.connection_prefix(),
    {
        (self.conn, self.cleaner, self.prefix)
    }

    /// Opens the connection, and the store on it that works under the
    /// prefix of the builder: with a prefix `p`, the store keeps what its
    /// users call `key` under `p:key`. Without a prefix, the store sees every
    /// key as the backend holds it.
    pub fn finish<B: CuttleBackend>(self) -> (opened: Result<
        (CuttleConnection<B>, Cuttlestore),
        CuttlestoreError,
    >)
        ensures
            match opened {
                Ok(pair) => pair.0.opened_by(
                    self.conn(),
                    self.connection_prefix(),
                    self.sweep_every(),
                ) && pair.1.prefix() == self.connection_prefix(),
                Err(error) => refuses::<B>(error, self.conn()),
            },
    {
        let store = Cuttlestore::with_prefix(
            match &self.prefix {
                Some(prefix) => Some(prefix.clone()),
                None => None,
            },
        );
        match CuttleConnection::new(self) {
            Ok(connection) => Ok((connection, store)),
            Err(error) => Err(error),
        }
    }

    /// Opens the connection, on which any number of stores can then be
    /// made.
    pub fn finish_connection<B: CuttleBackend>(self) -> (opened: Result<
        CuttleConnection<B>,
        CuttlestoreError,
    >)
        ensures
            match opened {
                Ok(connection) => connection.opened_by(
                    self.conn(),
                    self.connection_prefix(),
                    self.sweep_every(),
                ),
                Err(error) => refuses::<B>(error, self.conn()),
            },
    {
        CuttleConnection::new(self)
    }
}

/// A connection to a backend. Any number of stores can be made on it; they
/// all work on the one backend that the connection holds.
pub struct CuttleConnection<B: CuttleBackend> {
    store: B,
    /// How the cleaner of this connection is to run; `None` where the
    /// backend expires values by itself.
    cleaner: Option<CleanerOptions>,
    prefix: Option<String>,
}

impl<B: CuttleBackend> CuttleConnection<B> {
    /// What the backend of the connection holds.
    pub closed spec fn contents(&self) -> Contents {
        self.store.contents()
    }

    /// The prefix of every store made on this connection, if there is one.
    pub closed spec fn prefix(&self) -> Option<Seq<char>> {
        text_of(self.prefix)
    }

    /// The pause between two sweeps of the cleaner of this connection, or
    /// `None` where the backend needs no cleaner.
    pub closed spec fn sweep_every(&self) -> Option<Duration> {
        match self.cleaner {
            Some(options) => Some(options.sweep_every),
            None => None,
        }
    }

    /// Whether this connection is what opening `conn` gives, for a builder
    /// with this prefix and this sweep period: the connection string is
    /// addressed to the backend, the prefix is kept, the sweep period is kept
    /// where the backend needs a cleaner, and a backend that keeps nothing
    /// beyond its own life starts out empty.
    pub open spec fn opened_by(
        &self,
        conn: Seq<char>,
        prefix: Option<Seq<char>>,
        period: Duration,
    ) -> bool {
        &&& B::claims(conn)
        &&& self.prefix() == prefix
        &&& self.sweep_every() == sweep_for::<B>(period)
        &&& B::volatile() ==> self.contents() == Map::<Seq<char>, EnvelopeView>::empty()
    }

    /// Opens the connection that the builder describes. Where the
    /// connection string is not addressed to the backend `B`, the error
    /// names the scheme of the string and nothing else of it.
    pub fn new(builder: CuttlestoreBuilder) -> (opened: Result<Self, CuttlestoreError>)
        ensures
            match opened {
                Ok(connection) => connection.opened_by(
                    builder.conn(),
                    builder.connection_prefix(),
                    builder.sweep_every(),
                ),
                Err(error) => refuses::<B>(error, builder.conn()),
            },
    {
        match B::new(builder.conn.as_str()) {
            Some(Ok(store)) => {
                let cleaner = builder.cleaner.for_backend(store.requires_cleaner());
                Ok(CuttleConnection { store, cleaner, prefix: builder.prefix })
            },
            Some(Err(error)) => Err(error),
            None => Err(CuttlestoreError::NoMatchingBackend(scheme(builder.conn.as_str()))),
        }
    }

    /// The prefix of the store that `make` gives for `prefix`: the prefix
    /// of the connection, a colon and `prefix`. A connection without a
    /// prefix counts as one with the empty prefix.
    pub open spec fn made_prefix(&self, prefix: Seq<char>) -> Seq<char> {
        joined(self.prefix(), prefix)
    }

    /// Makes a store on this connection.
    ///
    /// Every store on a connection needs a prefix of its own, or the keys
    /// of two stores fall together. A prefix has to stay the same for as
    /// long as the stored values are to be found again.
    pub fn make(&self, prefix: &str) -> (store: Cuttlestore)
        ensures
            store.prefix() == Some(self.made_prefix(prefix@)),
    {
        Cuttlestore::within(&self.prefix, prefix)
    }

    /// How the cleaner of this connection is to run, or `None` where the
    /// backend needs no cleaner.
    pub fn cleaner(&self) -> (options: Option<CleanerOptions>)
        ensures
            match options {
                Some(options) => self.sweep_every() == Some(options.sweep_every),
                None => self.sweep_every() is None,
            },
    {
        match &self.cleaner {
            Some(options) => Some(CleanerOptions { sweep_every: options.sweep_every }),
            None => None,
        }
    }

    /// Reads from the backend what it holds under `key`.
    pub(crate) fn get(&mut self, key: &str, now: u64) -> (found: Result<
        Option<Vec<u8>>,
        CuttlestoreError,
    >)
        ensures
            final(self).prefix() == old(self).prefix(),
            final(self).sweep_every() == old(self).sweep_every(),
            B::infallible() ==> found is Ok,
            found matches Ok(value) ==> {
                &&& value matches Some(payload) ==> lookup(old(self).contents(), key@, now)
                    == Some(payload@)
                &&& value is None ==> lookup(old(self).contents(), key@, now) is None
                &&& final(self).contents() == after_get(old(self).contents(), key@, now)
            },
    {
        self.store.get(key, now)
    }

    /// Writes to the backend under `key`.
    pub(crate) fn put(&mut self, key: &str, value: &[u8], options: PutOptions, now: u64) -> (done:
        Result<(), CuttlestoreError>)
        ensures
            final(self).prefix() == old(self).prefix(),
            final(self).sweep_every() == old(self).sweep_every(),
            B::infallible() ==> done is Ok,
            done is Ok ==> final(self).contents() == after_put(
                old(self).contents(),
                key@,
                value@,
                options.ttl,
                now,
            ),
    {
        self.store.put(key, value, options, now)
    }

    /// Deletes from the backend what it holds under `key`.
    pub(crate) fn delete(&mut self, key: &str) -> (done: Result<(), CuttlestoreError>)
        ensures
            final(self).prefix() == old(self).prefix(),
            final(self).sweep_every() == old(self).sweep_every(),
            B::infallible() ==> done is Ok,
            done is Ok ==> final(self).contents() == after_delete(old(self).contents(), key@),
    {
        self.store.delete(key)
    }

    /// Lists what the backend holds, under every prefix.
    pub(crate) fn scan(&mut self, now: u64) -> (listed: Result<
        Vec<(String, Vec<u8>)>,
        CuttlestoreError,
    >)
        ensures
            final(self).prefix() == old(self).prefix(),
            final(self).sweep_every() == old(self).sweep_every(),
            B::infallible() ==> listed is Ok,
            listed matches Ok(pairs) ==> {
                &&& lists(pairs@, unexpired(old(self).contents(), now))
                &&& final(self).contents() == unexpired(old(self).contents(), now)
            },
    {
        self.store.scan(now)
    }

    /// The name of the kind of backend that the connection holds.
    pub fn backend_name(&self) -> (name: &'static str)
        ensures
            name@ == B::kind(),
    {
        self.store.name()
    }

    /// Sweeps the backend at the second `now`: one full scan, whose pairs
    /// are dropped. What is left is what has not expired.
    pub fn sweep(&mut self, now: u64) -> (done: Result<(), CuttlestoreError>)
        ensures
            final(self).prefix() == old(self).prefix(),
            final(self).sweep_every() == old(self).sweep_every(),
            B::infallible() ==> done is Ok,
            done is Ok ==> final(self).contents() == unexpired(old(self).contents(), now),
    {
        match self.store.scan(now) {
            Ok(_) => Ok(()),
            Err(error) => Err(error),
        }
    }
}

/// The backend that a connection string names, opened as far as that is
/// possible without I/O.
#[derive(Debug)]
pub enum BackendChoice {
    Filesystem(FilesystemBackend),
    InMemory(InMemoryBackend),
    Redis(RedisBackend),
    Sqlite(SqliteBackend),
}

impl BackendChoice {
    /// Whether this choice is the right one for `conn`. The backends are
    /// asked in a fixed order, and the first that the string is addressed to
    /// is chosen: the filesystem, the memory of the process, Redis, SQLite.
    pub open spec fn chosen_for(self, conn: Seq<char>) -> bool {
        match self {
            BackendChoice::Filesystem(backend) => FilesystemBackend::folder_in(conn) == Some(
                backend.base_folder@,
            ),
            BackendChoice::InMemory(backend) => {
                &&& FilesystemBackend::folder_in(conn) is None
                &&& InMemoryBackend::claims(conn)
                &&& backend.contents() == Map::<Seq<char>, EnvelopeView>::empty()
            },
            BackendChoice::Redis(backend) => {
                &&& FilesystemBackend::folder_in(conn) is None
                &&& !InMemoryBackend::claims(conn)
                &&& RedisBackend::target_in(conn) == Some(backend@)
            },
            BackendChoice::Sqlite(backend) => {
                &&& FilesystemBackend::folder_in(conn) is None
                &&& !InMemoryBackend::claims(conn)
                &&& RedisBackend::target_in(conn) is None
                &&& SqliteBackend::path_in(conn) == Some(backend.path@)
            },
        }
    }

    /// Whether no backend is addressed by `conn`.
    pub open spec fn none_for(conn: Seq<char>) -> bool {
        &&& FilesystemBackend::folder_in(conn) is None
        &&& !InMemoryBackend::claims(conn)
        &&& RedisBackend::target_in(conn) is None
        &&& SqliteBackend::path_in(conn) is None
    }
}

/// Chooses the backend that a connection string names.
///
/// Where no backend is addressed, the error names the scheme of the string
/// and nothing else: what follows the scheme may hold a password or a path.
pub fn find_matching_backend(conn: &str) -> (found: Result<BackendChoice, CuttlestoreError>)
    ensures
        match found {
            Ok(choice) => choice.chosen_for(conn@),
            Err(error) => BackendChoice::none_for(conn@) && names_scheme_only(error, conn@),
        },
{
    if let Some(backend) = FilesystemBackend::new(conn) {
        return Ok(BackendChoice::Filesystem(backend));
    }
    if let Some(made) = InMemoryBackend::new(conn) {
        return match made {
            Ok(backend) => Ok(BackendChoice::InMemory(backend)),
            Err(error) => Err(error),
        };
    }
    if let Some(backend) = RedisBackend::new(conn) {
        return Ok(BackendChoice::Redis(backend));
    }
    if let Some(backend) = SqliteBackend::new(conn) {
        return Ok(BackendChoice::Sqlite(backend));
    }
    Err(CuttlestoreError::NoMatchingBackend(scheme(conn)))
}

} // verus!
