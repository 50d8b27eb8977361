//! The backend that keeps its values on a Redis server.
//!
//! Redis expires values by itself, so no envelope is written and no cleaner
//! is needed. The server is spoken to by the embedding program; what a
//! connection string asks for is decided here, and so is the course of a
//! scan, which walks the keys of the server and fetches the values one by
//! one.
use crate::backend_api::PutOptions;
use crate::text::{begins_with, chars_of, find, first_at, lemma_first_at, piece, spells, text_of};
use vstd::prelude::*;
use vstd::string::StrSliceExecFns;

verus! {

/// A Redis backend, as far as it is known without reaching the server.
#[derive(Debug)]
pub struct RedisBackend {
    /// The address of the server, scheme included, without the query.
    pub address: String,
    /// The `username` of the query, if it has one.
    pub username: Option<String>,
    /// The `password` of the query, if it has one.
    pub password: Option<String>,
}

/// What a connection string asks of Redis, as plain values.
pub struct RedisTarget {
    pub address: Seq<char>,
    pub username: Option<Seq<char>>,
    pub password: Option<Seq<char>>,
}

impl View for RedisBackend {
    type V = RedisTarget;

    open spec fn view(&self) -> RedisTarget {
        RedisTarget {
            address: self.address@,
            username: text_of(self.username),
            password: text_of(self.password),
        }
    }
}

/// The scheme that opens a Redis connection string: `rediss://` for a
/// secured connection, `redis://` for a plain one.
pub open spec fn redis_scheme(conn: Seq<char>) -> Option<Seq<char>> {
    if "rediss://"@.is_prefix_of(conn) {
        Some("rediss://"@)
    } else if "redis://"@.is_prefix_of(conn) {
        Some("redis://"@)
    } else {
        None
    }
}

/// Where the query argument that begins at `from` ends: at the next `&`, or
/// at `to` where none stands before it.
pub open spec fn argument_end(text: Seq<char>, from: int, to: int) -> int {
    let amp = first_at(text, '&', from);
    if amp < to {
        amp
    } else {
        to
    }
}

/// The value of the argument `text[from..to]` if it has the form
/// `<name>=<value>`; the name ends at the first `=`.
pub open spec fn argument_value(text: Seq<char>, name: Seq<char>, from: int, to: int) -> Option<
    Seq<char>,
> {
    let eq = first_at(text, '=', from);
    if eq < to && text.subrange(from, eq) == name {
        Some(text.subrange(eq + 1, to))
    } else {
        None
    }
}

/// The value that the query `text[from..to]` gives to `name`. The query is a
/// list of arguments parted by `&`; where several give a value to `name`,
/// the last one counts.
pub open spec fn query_value(text: Seq<char>, name: Seq<char>, from: int, to: int) -> Option<
    Seq<char>,
>
    decreases to - from,
    via query_value_decreases
{
    if 0 <= from <= to <= text.len() {
        let end = argument_end(text, from, to);
        let here = argument_value(text, name, from, end);
        if end >= to {
            here
        } else {
            match query_value(text, name, end + 1, to) {
                Some(later) => Some(later),
                None => here,
            }
        }
    } else {
        None
    }
}

#[via_fn]
proof fn query_value_decreases(text: Seq<char>, name: Seq<char>, from: int, to: int) {
    if 0 <= from <= to <= text.len() {
        lemma_first_at(text, '&', from);
    }
}

/// Reads the value that the query `chars[from..to]` gives to `name`.
fn query_lookup(conn: &str, chars: &Vec<char>, name: &str, from: usize, to: usize) -> (value:
    Option<String>)
    requires
        chars@ == conn@,
        from <= to <= chars.len(),
    ensures
        text_of(value) == query_value(chars@, name@, from as int, to as int),
{
    let mut value: Option<String> = None;
    let mut at: usize = from;
    loop
        invariant
            chars@ == conn@,
            from <= at <= to <= chars.len(),
            query_value(chars@, name@, from as int, to as int) == match query_value(
                chars@,
                name@,
                at as int,
                to as int,
            ) {
                Some(later) => Some(later),
                None => text_of(value),
            },
        decreases to - at,
    {
        let amp = find(chars, '&', at);
        let end = if amp < to {
            amp
        } else {
            to
        };
        let eq = find(chars, '=', at);
        if eq < end && spells(chars, at, eq, name) {
            value = Some(piece(conn, eq + 1, end));
        }
        if end >= to {
            return value;
        }
        at = end + 1;
    }
}

impl RedisBackend {
    /// What a connection string of the form
    /// `redis://<address>?username=<user>&password=<pass>` asks for, or
    /// `None` where the string has another form. The scheme may also be
    /// `rediss://`. The address is not empty and ends at the first `?`; the
    /// query ends with the line.
    pub open spec fn target_in(conn: Seq<char>) -> Option<RedisTarget> {
        match redis_scheme(conn) {
            None => None,
            Some(scheme) => {
                let start = scheme.len() as int;
                let stop = first_at(conn, '?', start);
                let from = if stop < conn.len() {
                    stop + 1
                } else {
                    stop
                };
                let to = first_at(conn, '\n', from);
                if stop == start {
                    None
                } else {
                    Some(
                        RedisTarget {
                            address: conn.take(stop),
                            username: query_value(conn, "username"@, from, to),
                            password: query_value(conn, "password"@, from, to),
                        },
                    )
                }
            },
        }
    }

    /// Reads a connection string. The result is `None` where the string is
    /// not addressed to this backend.
    pub fn new(conn: &str) -> (backend: Option<Self>)
        ensures
            match backend {
                Some(backend) => Self::target_in(conn@) == Some(backend@),
                None => Self::target_in(conn@) is None,
            },
    {
        let chars = chars_of(conn);
        let start = if begins_with(&chars, "rediss://") {
            "rediss://".unicode_len()
        } else if begins_with(&chars, "redis://") {
            "redis://".unicode_len()
        } else {
            return None;
        };
        let stop = find(&chars, '?', start);
        if stop == start {
            return None;
        }
        let from = if stop < chars.len() {
            stop + 1
        } else {
            stop
        };
        let to = find(&chars, '\n', from);
        let username = query_lookup(conn, &chars, "username", from, to);
        let password = query_lookup(conn, &chars, "password", from, to);
        Some(RedisBackend { address: piece(conn, 0, stop), username, password })
    }

    /// Redis drops expired values by itself.
    pub fn requires_cleaner(&self) -> (needed: bool)
        ensures
            !needed,
    {
        false
    }

    /// The name of this kind of backend.
    pub fn name(&self) -> (name: &'static str)
        ensures
            name@ == "redis"@,
    {
        "redis"
    }

    /// The expiry, in seconds, that a `put` sets on the server, or `None`
    /// for a value that is to stay. The server takes the seconds as a
    /// machine word: a longer time-to-live is held at the longest that fits.
    pub fn on_put(&self, options: &PutOptions) -> (seconds: Option<usize>)
        ensures
            match options.ttl {
                Some(ttl) => seconds == Some(
                    if ttl > usize::MAX {
                        usize::MAX
                    } else {
                        ttl as usize
                    },
                ),
                None => seconds is None,
            },
    {
        match options.ttl {
            Some(ttl) => if ttl > usize::MAX as u64 {
                Some(usize::MAX)
            } else {
                Some(ttl as usize)
            },
            None => None,
        }
    }
}

/// Where a scan of the server stands.
///
/// A scan first borrows a connection and opens a walk over the keys. Then,
/// for each key, it borrows a connection, asks the walk for the next key and
/// fetches the value of that key. It ends when the walk has no key left, or
/// when a connection cannot be had.
#[derive(Debug)]
pub enum ScanState {
    /// Waiting for the connection on which the walk is opened.
    Connecting,
    /// Waiting for the walk over the keys to open.
    Opening,
    /// Waiting for the connection on which the next value is fetched.
    Borrowing,
    /// Waiting for the next key of the walk.
    Advancing,
    /// Waiting for the value of this key.
    Fetching(String),
    /// The scan is over.
    Done,
}

/// What the server, or the pool of connections, has answered. `E` is the
/// error of whoever speaks to the server.
#[derive(Debug)]
pub enum ScanEvent<E> {
    /// A connection has been borrowed.
    Connected,
    /// No connection could be borrowed.
    ConnectionFailed(E),
    /// The walk over the keys is open.
    Opened,
    /// The walk over the keys could not be opened.
    OpenFailed(E),
    /// The next key of the walk, or `None` at its end.
    Key(Option<String>),
    /// The value under the key that was fetched, or `None` where the key
    /// has vanished in the meantime.
    Value(Option<Vec<u8>>),
    /// The value could not be fetched.
    FetchFailed(E),
}

/// What the scan asks for next.
#[derive(Debug)]
pub enum ScanCommand {
    /// Borrow a connection from the pool.
    Connect,
    /// Open the walk over the keys.
    Open,
    /// Ask the walk for its next key.
    NextKey,
    /// Fetch the value under this key.
    Fetch(String),
    /// Nothing: the scan is over.
    Stop,
}

/// One step of a scan: what is handed to the reader of the scan, and the
/// state in which the scan goes on.
#[derive(Debug)]
pub struct ScanStep<E> {
    /// The pair or the error to hand to the reader, if this step has one.
    pub item: Option<Result<(String, Vec<u8>), E>>,
    /// The state after the step.
    pub next: ScanState,
}

impl ScanState {
    /// The state in which every scan begins.
    pub fn start() -> (state: Self)
        ensures
            state == ScanState::Connecting,
    {
        ScanState::Connecting
    }

    /// What has to be asked of the server in this state.
    pub open spec fn wants(self) -> ScanCommand {
        match self {
            ScanState::Connecting => ScanCommand::Connect,
            ScanState::Opening => ScanCommand::Open,
            ScanState::Borrowing => ScanCommand::Connect,
            ScanState::Advancing => ScanCommand::NextKey,
            ScanState::Fetching(key) => ScanCommand::Fetch(key),
            ScanState::Done => ScanCommand::Stop,
        }
    }

    /// The step that `event` causes in this state.
    ///
    /// A failure to borrow a connection or to open the walk is handed to the
    /// reader and ends the scan. A key is followed by the fetch of its
    /// value; the end of the walk ends the scan. A value is handed to the
    /// reader together with its key; a key that has vanished is passed
    /// over; a failed fetch is handed to the reader, and the scan goes on
    /// with the next key. An answer that was not asked for ends the scan.
    pub open spec fn after<E>(self, event: ScanEvent<E>) -> ScanStep<E> {
        match (self, event) {
            (ScanState::Connecting, ScanEvent::Connected) => ScanStep {
                item: None,
                next: ScanState::Opening,
            },
            (ScanState::Connecting, ScanEvent::ConnectionFailed(error)) => ScanStep {
                item: Some(Err(error)),
                next: ScanState::Done,
            },
            (ScanState::Opening, ScanEvent::Opened) => ScanStep {
                item: None,
                next: ScanState::Borrowing,
            },
            (ScanState::Opening, ScanEvent::OpenFailed(error)) => ScanStep {
                item: Some(Err(error)),
                next: ScanState::Done,
            },
            (ScanState::Borrowing, ScanEvent::Connected) => ScanStep {
                item: None,
                next: ScanState::Advancing,
            },
            (ScanState::Borrowing, ScanEvent::ConnectionFailed(error)) => ScanStep {
                item: Some(Err(error)),
                next: ScanState::Done,
            },
            (ScanState::Advancing, ScanEvent::Key(Some(key))) => ScanStep {
                item: None,
                next: ScanState::Fetching(key),
            },
            (ScanState::Advancing, ScanEvent::Key(None)) => ScanStep {
                item: None,
                next: ScanState::Done,
            },
            (ScanState::Fetching(key), ScanEvent::Value(Some(value))) => ScanStep {
                item: Some(Ok((key, value))),
                next: ScanState::Borrowing,
            },
            (ScanState::Fetching(_), ScanEvent::Value(None)) => ScanStep {
                item: None,
                next: ScanState::Borrowing,
            },
            (ScanState::Fetching(_), ScanEvent::FetchFailed(error)) => ScanStep {
                item: Some(Err(error)),
                next: ScanState::Borrowing,
            },
            _ => ScanStep { item: None, next: ScanState::Done },
        }
    }

    /// What has to be asked of the server in this state.
    pub fn command(&self) -> (command: ScanCommand)
        ensures
            command == self.wants(),
    {
        match self {
            ScanState::Connecting => ScanCommand::Connect,
            ScanState::Opening => ScanCommand::Open,
            ScanState::Borrowing => ScanCommand::Connect,
            ScanState::Advancing => ScanCommand::NextKey,
            ScanState::Fetching(key) => ScanCommand::Fetch(key.clone()),
            ScanState::Done => ScanCommand::Stop,
        }
    }

    /// Takes the answer to the last command and makes the step that it
    /// causes.
    pub fn step<E>(self, event: ScanEvent<E>) -> (step: ScanStep<E>)
        ensures
            step == self.after(event),
    {
        match (self, event) {
            (ScanState::Connecting, ScanEvent::Connected) => ScanStep {
                item: None,
                next: ScanState::Opening,
            },
            (ScanState::Connecting, ScanEvent::ConnectionFailed(error)) => ScanStep {
                item: Some(Err(error)),
                next: ScanState::Done,
            },
            (ScanState::Opening, ScanEvent::Opened) => ScanStep {
                item: None,
                next: ScanState::Borrowing,
            },
            (ScanState::Opening, ScanEvent::OpenFailed(error)) => ScanStep {
                item: Some(Err(error)),
                next: ScanState::Done,
            },
            (ScanState::Borrowing, ScanEvent::Connected) => ScanStep {
                item: None,
                next: ScanState::Advancing,
            },
            (ScanState::Borrowing, ScanEvent::ConnectionFailed(error)) => ScanStep {
                item: Some(Err(error)),
                next: ScanState::Done,
            },
            (ScanState::Advancing, ScanEvent::Key(Some(key))) => ScanStep {
                item: None,
                next: ScanState::Fetching(key),
            },
            (ScanState::Advancing, ScanEvent::Key(None)) => ScanStep {
                item: None,
                next: ScanState::Done,
            },
            (ScanState::Fetching(key), ScanEvent::Value(Some(value))) => ScanStep {
                item: Some(Ok((key, value))),
                next: ScanState::Borrowing,
            },
            (ScanState::Fetching(_), ScanEvent::Value(None)) => ScanStep {
                item: None,
                next: ScanState::Borrowing,
            },
            (ScanState::Fetching(_), ScanEvent::FetchFailed(error)) => ScanStep {
                item: Some(Err(error)),
                next: ScanState::Borrowing,
            },
            _ => ScanStep { item: None, next: ScanState::Done },
        }
    }
}

/// A scan hands a pair to its reader only as the answer to the fetch of that
/// pair's key, and once it is over it stays over and hands out nothing.
pub proof fn law_scan_hands_out_what_was_fetched<E>(state: ScanState, event: ScanEvent<E>)
    ensures
        state.after(event).item matches Some(Ok(pair)) ==> state == ScanState::Fetching(pair.0)
            && event == ScanEvent::<E>::Value(Some(pair.1)),
        state is Done ==> state.after(event).item is None && state.after(event).next is Done,
{
}

} // verus!
