//! The backend that keeps its values in one table of an SQLite file.
//!
//! The table holds the payload and the deadline in columns of their own, so
//! no envelope is encoded. The database is driven by the embedding
//! program; what a connection string asks for, and what becomes of a row
//! that was read, is decided here.
use crate::backend_api::PutOptions;
use crate::backends::{locate, location};
use crate::envelope::{deadline, live_until_for, ReadPlan};
use vstd::prelude::*;

verus! {

/// An SQLite backend, as far as it is known without opening the file.
#[derive(Debug)]
pub struct SqliteBackend {
    /// The path of the database file.
    pub path: String,
}

/// Whether a row whose `live_until` column holds `column` is gone at the
/// second `now`: the column holds a second, and that second lies before
/// `now`. SQLite stores signed integers, and the two are compared as
/// integers: a negative column lies before every second of the clock.
pub open spec fn row_expired(column: Option<i64>, now: u64) -> bool {
    column matches Some(second) && second < now
}

/// The `live_until` column that stands for a deadline. A deadline beyond the
/// largest signed integer is held at that largest value.
pub open spec fn deadline_column(live_until: Option<u64>) -> Option<i64> {
    match live_until {
        Some(second) => Some(
            if second > i64::MAX {
                i64::MAX
            } else {
                second as i64
            },
        ),
        None => None,
    }
}

impl SqliteBackend {
    /// The path that a connection string of the form `sqlite://<path>` asks
    /// for.
    pub open spec fn path_in(conn: Seq<char>) -> Option<Seq<char>> {
        location(conn, "sqlite://"@)
    }

    /// Reads a connection string. The result is `None` where the string is
    /// not addressed to this backend.
    pub fn new(conn: &str) -> (backend: Option<Self>)
        ensures
            match backend {
                Some(backend) => Self::path_in(conn@) == Some(backend.path@),
                None => Self::path_in(conn@) is None,
            },
    {
        match locate(conn, "sqlite://") {
            Some(path) => Some(SqliteBackend { path }),
            None => None,
        }
    }

    /// Rows do not expire by themselves: a cleaner has to sweep them.
    pub fn requires_cleaner(&self) -> (needed: bool)
        ensures
            needed,
    {
        true
    }

    /// The name of this kind of backend.
    pub fn name(&self) -> (name: &'static str)
        ensures
            name@ == "sqlite"@,
    {
        "sqlite"
    }

    /// The `live_until` column to write for a `put` at the second `now`.
    pub fn on_put(&self, options: &PutOptions, now: u64) -> (column: Option<i64>)
        ensures
            column == deadline_column(deadline(options.ttl, now)),
    {
        match live_until_for(options, now) {
            Some(second) => if second > 0x7fff_ffff_ffff_ffff {
                Some(0x7fff_ffff_ffff_ffff)
            } else {
                Some(second as i64)
            },
            None => None,
        }
    }

    /// The verdict on what a `get` has read for a key at the second `now`;
    /// `None` stands for a key without a row. A key without a row is
    /// absent, and nothing is deleted; a row is judged by `on_row`.
    pub fn on_get(&self, row: Option<(Vec<u8>, Option<i64>)>, now: u64) -> (plan: ReadPlan)
        ensures
            plan == (match row {
                None => (ReadPlan { value: None, delete: false, corrupt: false }),
                Some(row) => if row_expired(row.1, now) {
                    (ReadPlan { value: None, delete: true, corrupt: false })
                } else {
                    (ReadPlan { value: Some(row.0), delete: false, corrupt: false })
                },
            }),
    {
        match row {
            None => ReadPlan::absent(),
            Some(row) => self.on_row(row.0, row.1, now),
        }
    }

    /// The verdict on a row at the second `now`, as the value to hand out
    /// and whether the row is to be deleted.
    ///
    /// A row whose `live_until` lies before `now` gives nothing and is to
    /// be deleted; any other row gives its value and stays.
    pub fn on_row(&self, value: Vec<u8>, live_until: Option<i64>, now: u64) -> (plan: ReadPlan)
        ensures
            plan == (if row_expired(live_until, now) {
                (ReadPlan { value: None, delete: true, corrupt: false })
            } else {
                (ReadPlan { value: Some(value), delete: false, corrupt: false })
            }),
    {
        let gone = match live_until {
            Some(second) => second < 0 || (second as u64) < now,
            None => false,
        };
        if gone {
            ReadPlan { value: None, delete: true, corrupt: false }
        } else {
            ReadPlan { value: Some(value), delete: false, corrupt: false }
        }
    }
}

} // verus!
