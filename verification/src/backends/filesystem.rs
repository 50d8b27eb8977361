//! The backend that keeps one file per key under a folder.
//!
//! Each file holds the envelope of its value. The files themselves are read
//! and written by the embedding program; what a connection string asks
//! for, and what becomes of the bytes that were read, is decided here.
use crate::backend_api::{after_delete, after_get, after_put, lookup, Contents, PutOptions};
use crate::backends::{locate, location};
use crate::common::error::CuttlestoreError;
use crate::envelope::{deadline, envelope_bytes, envelope_fields, expired};
use crate::envelope::{EnvelopeView, ReadPlan, Reading, StoredEnvelope};
use vstd::prelude::*;

verus! {

/// A filesystem backend, as far as it is known without touching the disk.
#[derive(Debug)]
pub struct FilesystemBackend {
    /// The folder that holds the files, one per key.
    pub base_folder: String,
}

impl FilesystemBackend {
    /// The folder that a connection string of the form
    /// `filesystem://<path>` asks for.
    pub open spec fn folder_in(conn: Seq<char>) -> Option<Seq<char>> {
        location(conn, "filesystem://"@)
    }

    /// Reads a connection string. The result is `None` where the string is
    /// not addressed to this backend.
    pub fn new(conn: &str) -> (backend: Option<Self>)
        ensures
            match backend {
                Some(backend) => Self::folder_in(conn@) == Some(backend.base_folder@),
                None => Self::folder_in(conn@) is None,
            },
    {
        match locate(conn, "filesystem://") {
            Some(base_folder) => Some(FilesystemBackend { base_folder }),
            None => None,
        }
    }

    /// Files do not expire by themselves: a cleaner has to sweep them.
    pub fn requires_cleaner(&self) -> (needed: bool)
        ensures
            needed,
    {
        true
    }

    /// The name of this kind of backend.
    pub fn name(&self) -> (name: &'static str)
        ensures
            name@ == "filesystem"@,
    {
        "filesystem"
    }

    /// The verdict on what was read for a key at the second `now`; `None`
    /// stands for a file that does not exist.
    ///
    /// A missing file is a missing key. A file that holds a live envelope
    /// gives its payload. A file that has expired or is corrupt gives
    /// nothing and is to be deleted.
    pub fn on_read(&self, file: Option<Vec<u8>>, now: u64) -> (plan: ReadPlan)
        ensures
            Self::decides(
                match file {
                    Some(bytes) => Some(bytes@),
                    None => None,
                },
                now,
                plan,
            ),
    {
        match file {
            None => ReadPlan::absent(),
            Some(bytes) => Reading::of(bytes.as_slice(), now).plan(),
        }
    }

    /// Whether `plan` is the right one for what was read at the second
    /// `now`. A missing file gives nothing and nothing is deleted. Bytes that
    /// are no envelope give nothing, are deleted, and are marked corrupt. An
    /// envelope past its deadline gives nothing and is deleted. Any other
    /// envelope gives its payload and stays.
    pub open spec fn decides(file: Option<Seq<u8>>, now: u64, plan: ReadPlan) -> bool {
        match file {
            None => plan == (ReadPlan { value: None, delete: false, corrupt: false }),
            Some(bytes) => match envelope_fields(bytes) {
                None => plan == (ReadPlan { value: None, delete: true, corrupt: true }),
                Some(fields) => if expired(fields.1, now) {
                    plan == (ReadPlan { value: None, delete: true, corrupt: false })
                } else {
                    plan.value matches Some(payload) && payload@ == fields.0 && !plan.delete
                        && !plan.corrupt
                },
            },
        }
    }

    /// The bytes to write into the file of a key, for a `put` at the second
    /// `now`. Every value can be written, and reading the bytes back with
    /// `on_read` gives the value for as long as it has not expired.
    pub fn on_put(&self, value: &[u8], options: &PutOptions, now: u64) -> (file: Result<
        Vec<u8>,
        CuttlestoreError,
    >)
        ensures
            file is Ok,
            file matches Ok(bytes) ==> bytes@ == envelope_bytes(value@, deadline(options.ttl, now))
                && envelope_fields(bytes@) == Some((value@, deadline(options.ttl, now))),
    {
        StoredEnvelope::seal(value, options, now).encode()
    }
}

/// What a folder holds when it is read as a backend: for each file whose
/// bytes are an envelope, the payload and the deadline of that envelope. A
/// file whose bytes are no envelope holds nothing.
pub open spec fn held_in(files: Map<Seq<char>, Seq<u8>>) -> Contents {
    Map::new(
        |key: Seq<char>| files.contains_key(key) && envelope_fields(files[key]) is Some,
        |key: Seq<char>|
            EnvelopeView {
                payload: (envelope_fields(files[key])->0).0,
                live_until: (envelope_fields(files[key])->0).1,
            },
    )
}

/// The bytes of the file of `key`, or `None` where the folder has no such
/// file.
pub open spec fn file_of(files: Map<Seq<char>, Seq<u8>>, key: Seq<char>) -> Option<Seq<u8>> {
    if files.contains_key(key) {
        Some(files[key])
    } else {
        None
    }
}

/// A folder whose files are read and written by these decisions is a
/// backend. What `on_read` hands out for a key is what a `get` finds in
/// what the folder holds, and deleting the file where `on_read` says so
/// leaves what a `get` leaves. A corrupt file is an absent key, before and
/// after. Writing the bytes of `on_put` is a `put`, and removing the file is
/// a `delete`.
pub proof fn law_folder_is_a_backend(
    files: Map<Seq<char>, Seq<u8>>,
    key: Seq<char>,
    plan: ReadPlan,
    bytes: Seq<u8>,
    payload: Seq<u8>,
    ttl: Option<u64>,
    now: u64,
)
    requires
        FilesystemBackend::decides(file_of(files, key), now, plan),
    ensures
        match plan.value {
            Some(value) => lookup(held_in(files), key, now) == Some(value@),
            None => lookup(held_in(files), key, now) is None,
        },
        held_in(
            if plan.delete {
                files.remove(key)
            } else {
                files
            },
        ) == after_get(held_in(files), key, now),
        plan.corrupt ==> !held_in(files).contains_key(key),
        envelope_fields(bytes) == Some((payload, deadline(ttl, now))) ==> held_in(
            files.insert(key, bytes),
        ) == after_put(held_in(files), key, payload, ttl, now),
        held_in(files.remove(key)) == after_delete(held_in(files), key),
{
}

} // verus!
