//! The storage backends.
//!
//! The in-process backend is complete here. For the backends that perform
//! I/O, this module holds what is decided without I/O: whether a connection
//! string is addressed to them, what it asks for, and what to do with what
//! was read.
pub mod filesystem;
pub mod in_memory;
pub mod redis;
pub mod sqlite;

use crate::text::{begins_with, chars_of, find, first_at, piece};
use vstd::prelude::*;
use vstd::string::StrSliceExecFns;

verus! {

/// What a connection string of the form `<scheme><location>` locates under
/// `scheme`: the characters after the scheme up to the end of the line, if
/// the string begins with the scheme and at least one such character
/// follows.
pub open spec fn location(conn: Seq<char>, scheme: Seq<char>) -> Option<Seq<char>> {
    let end = first_at(conn, '\n', scheme.len() as int);
    if scheme.is_prefix_of(conn) && end > scheme.len() {
        Some(conn.subrange(scheme.len() as int, end))
    } else {
        None
    }
}

/// Reads the location out of a connection string of the form
/// `<scheme><location>`.
pub fn locate(conn: &str, scheme: &str) -> (located: Option<String>)
    ensures
        match located {
            Some(place) => location(conn@, scheme@) == Some(place@),
            None => location(conn@, scheme@) is None,
        },
{
    let chars = chars_of(conn);
    if !begins_with(&chars, scheme) {
        return None;
    }
    let start = scheme.unicode_len();
    let end = find(&chars, '\n', start);
    if end > start {
        Some(piece(conn, start, end))
    } else {
        None
    }
}

} // verus!
