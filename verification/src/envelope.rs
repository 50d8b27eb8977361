//! The envelope that carries a value's expiry on backends without a native
//! time-to-live.
//!
//! Such a backend stores, in place of the bare payload, the payload together
//! with the second after which it may no longer be read. Reading the stored
//! bytes back gives one of three verdicts: the payload is live, it has
//! expired, or the bytes are no envelope at all.
use crate::backend_api::PutOptions;
use crate::common::error::CuttlestoreError;
use vstd::prelude::*;
use vstd::slice::slice_to_vec;

verus! {

/// A payload and the last second in which it may be read.
#[derive(Debug)]
pub struct StoredEnvelope {
    pub payload: Vec<u8>,
    /// Absent: the payload never expires. Present: the payload is readable
    /// up to and including this second, and absent afterwards.
    pub live_until: Option<u64>,
}

/// An envelope as plain values.
pub struct EnvelopeView {
    pub payload: Seq<u8>,
    pub live_until: Option<u64>,
}

impl View for StoredEnvelope {
    type V = EnvelopeView;

    open spec fn view(&self) -> EnvelopeView {
        EnvelopeView { payload: self.payload@, live_until: self.live_until }
    }
}

/// Whether a value that lives until `live_until` is gone at the second
/// `now`. The comparison is strict: during the second `live_until` itself
/// the value is still there.
pub open spec fn expired(live_until: Option<u64>, now: u64) -> bool {
    live_until matches Some(deadline) && deadline < now
}

/// The last second of life of a value stored at `now` with this
/// time-to-live. A sum beyond the largest `u64` is held at that largest
/// value.
pub open spec fn deadline(ttl: Option<u64>, now: u64) -> Option<u64> {
    match ttl {
        Some(seconds) => Some(
            if now + seconds > u64::MAX {
                u64::MAX
            } else {
                (now + seconds) as u64
            },
        ),
        None => None,
    }
}

/// The bytes that `bincode::serialize` gives for a payload and its
/// deadline.
pub uninterp spec fn envelope_bytes(payload: Seq<u8>, live_until: Option<u64>) -> Seq<u8>;

/// The payload and deadline that `bincode::deserialize` reads from `bytes`,
/// or `None` where it rejects them.
pub uninterp spec fn envelope_fields(bytes: Seq<u8>) -> Option<(Seq<u8>, Option<u64>)>;

/// `bincode::serialize` on the pair of a byte slice and an optional `u64`.
/// It succeeds on every such pair: it writes into a vector, without a limit
/// on the size, a sequence whose length is known. The bytes depend on the
/// two values alone, and `bincode::deserialize` reads the same two values
/// back from them.
#[verifier::external_body]
fn serialize_fields(payload: &[u8], live_until: Option<u64>) -> (written: Result<
    Vec<u8>,
    bincode::Error,
>)
    ensures
        written is Ok,
        written matches Ok(bytes) ==> bytes@ == envelope_bytes(payload@, live_until)
            && envelope_fields(bytes@) == Some((payload@, live_until)),
{
    bincode::serialize(&(payload, live_until))
}

/// `bincode::deserialize` into the pair of a byte vector and an optional
/// `u64`. Whether it accepts the bytes, and what it reads, depends on the
/// bytes alone.
#[verifier::external_body]
fn deserialize_fields(bytes: &[u8]) -> (read: Result<(Vec<u8>, Option<u64>), bincode::Error>)
    ensures
        match read {
            Ok(fields) => envelope_fields(bytes@) == Some((fields.0@, fields.1)),
            Err(_) => envelope_fields(bytes@) is None,
        },
{
    bincode::deserialize::<(Vec<u8>, Option<u64>)>(bytes)
}

/// Whether a value that lives until `live_until` is gone at the second
/// `now`.
pub fn is_expired(live_until: Option<u64>, now: u64) -> (gone: bool)
    ensures
        gone == expired(live_until, now),
{
    match live_until {
        Some(deadline) => deadline < now,
        None => false,
    }
}

/// The last second of life of a value stored at `now` under `options`.
pub fn live_until_for(options: &PutOptions, now: u64) -> (live_until: Option<u64>)
    ensures
        live_until == deadline(options.ttl, now),
{
    match options.ttl {
        Some(seconds) => Some(now.saturating_add(seconds)),
        None => None,
    }
}

impl StoredEnvelope {
    /// Wraps `payload` for storage at the second `now`.
    pub fn seal(payload: &[u8], options: &PutOptions, now: u64) -> (envelope: Self)
        ensures
            envelope@.payload == payload@,
            envelope@.live_until == deadline(options.ttl, now),
    {
        StoredEnvelope { payload: slice_to_vec(payload), live_until: live_until_for(options, now) }
    }

    /// Whether the envelope's payload is gone at the second `now`.
    pub fn is_expired(&self, now: u64) -> (gone: bool)
        ensures
            gone == expired(self@.live_until, now),
    {
        is_expired(self.live_until, now)
    }

    /// The bytes to store for this envelope. Every envelope can be
    /// encoded, and decoding the bytes gives the envelope back.
    pub fn encode(&self) -> (written: Result<Vec<u8>, CuttlestoreError>)
        ensures
            written is Ok,
            written matches Ok(bytes) ==> bytes@ == envelope_bytes(
                self@.payload,
                self@.live_until,
            ) && envelope_fields(bytes@) == Some((self@.payload, self@.live_until)),
    {
        match serialize_fields(self.payload.as_slice(), self.live_until) {
            Ok(bytes) => Ok(bytes),
            Err(error) => Err(CuttlestoreError::EncodingError(error)),
        }
    }

    /// The envelope that stored bytes hold, or `None` where the bytes are
    /// no envelope.
    pub fn decode(bytes: &[u8]) -> (read: Option<Self>)
        ensures
            match read {
                Some(envelope) => envelope_fields(bytes@) == Some(
                    (envelope@.payload, envelope@.live_until),
                ),
                None => envelope_fields(bytes@) is None,
            },
    {
        match deserialize_fields(bytes) {
            Ok(fields) => Some(StoredEnvelope { payload: fields.0, live_until: fields.1 }),
            Err(_) => None,
        }
    }
}

/// What a backend does after it has read what a key holds.
#[derive(Debug, PartialEq, Eq)]
pub struct ReadPlan {
    /// The value to hand to the reader, or `None` for an absent key.
    pub value: Option<Vec<u8>>,
    /// Whether what the key holds is to be deleted.
    pub delete: bool,
    /// Whether what the key holds was found corrupt. This is worth a line
    /// in the diagnostics; the reader is told nothing but that the key is
    /// absent.
    pub corrupt: bool,
}

impl ReadPlan {
    /// The plan for a key that holds nothing: nothing to hand out, nothing
    /// to delete.
    pub fn absent() -> (plan: Self)
        ensures
            plan == (ReadPlan { value: None, delete: false, corrupt: false }),
    {
        ReadPlan { value: None, delete: false, corrupt: false }
    }
}

/// What stored bytes turn out to be when they are read.
#[derive(Debug)]
pub enum Reading {
    /// An envelope whose payload may still be read.
    Live(Vec<u8>),
    /// An envelope whose deadline has passed.
    Expired,
    /// No envelope: the bytes were damaged, or never written by a store.
    Corrupt,
}

impl Reading {
    /// Whether this reading is the right one for what `fields` holds at the
    /// second `now`: corrupt where there are no fields, expired where the
    /// deadline has passed, and live with the payload otherwise.
    pub open spec fn judges(self, fields: Option<(Seq<u8>, Option<u64>)>, now: u64) -> bool {
        match fields {
            None => self is Corrupt,
            Some(fields) => if expired(fields.1, now) {
                self is Expired
            } else {
                self matches Reading::Live(payload) && payload@ == fields.0
            },
        }
    }

    /// Gives the verdict on a decoded envelope at the second `now`.
    pub fn judge(decoded: Option<StoredEnvelope>, now: u64) -> (reading: Self)
        ensures
            reading.judges(
                match decoded {
                    Some(envelope) => Some((envelope@.payload, envelope@.live_until)),
                    None => None,
                },
                now,
            ),
    {
        match decoded {
            None => Reading::Corrupt,
            Some(envelope) => if envelope.is_expired(now) {
                Reading::Expired
            } else {
                Reading::Live(envelope.payload)
            },
        }
    }

    /// Decodes stored bytes and gives the verdict on them at the second
    /// `now`.
    pub fn of(bytes: &[u8], now: u64) -> (reading: Self)
        ensures
            reading.judges(envelope_fields(bytes@), now),
    {
        Self::judge(StoredEnvelope::decode(bytes), now)
    }

    /// Whether the stored bytes are of no further use and are to be
    /// deleted: they have expired, or they are corrupt.
    pub fn is_stale(&self) -> (stale: bool)
        ensures
            stale == !(self is Live),
    {
        match self {
            Reading::Live(_) => false,
            _ => true,
        }
    }

    /// What a reader is handed: the payload if it is live, and nothing
    /// otherwise. Corruption is reported as absence, never as an error.
    pub fn into_value(self) -> (value: Option<Vec<u8>>)
        ensures
            match self {
                Reading::Live(payload) => value == Some(payload),
                _ => value is None,
            },
    {
        match self {
            Reading::Live(payload) => Some(payload),
            _ => None,
        }
    }

    /// What follows from the reading: a live payload is handed out and
    /// stays; expired or corrupt bytes give nothing and are deleted.
    pub open spec fn planned(self) -> ReadPlan {
        match self {
            Reading::Live(payload) => ReadPlan {
                value: Some(payload),
                delete: false,
                corrupt: false,
            },
            Reading::Expired => ReadPlan { value: None, delete: true, corrupt: false },
            Reading::Corrupt => ReadPlan { value: None, delete: true, corrupt: true },
        }
    }

    /// What follows from the reading.
    pub fn plan(self) -> (plan: ReadPlan)
        ensures
            plan == self.planned(),
    {
        match self {
            Reading::Live(payload) => ReadPlan { value: Some(payload), delete: false, corrupt: false },
            Reading::Expired => ReadPlan { value: None, delete: true, corrupt: false },
            Reading::Corrupt => ReadPlan { value: None, delete: true, corrupt: true },
        }
    }
}

/// Stored bytes that are no envelope are read as an absent key, whatever
/// the second: no value and no error comes of them, and they are deleted.
/// Bytes that are an envelope are never taken for corrupt.
pub proof fn law_corrupt_bytes_read_as_absent(reading: Reading, bytes: Seq<u8>, now: u64)
    requires
        reading.judges(envelope_fields(bytes), now),
    ensures
        envelope_fields(bytes) is None ==> reading is Corrupt && reading.planned() == (ReadPlan {
            value: None,
            delete: true,
            corrupt: true,
        }),
        envelope_fields(bytes) is Some ==> !reading.planned().corrupt,
        reading.planned().value is Some ==> (envelope_fields(bytes) matches Some(fields)
            && !expired(fields.1, now)) && !reading.planned().delete,
{
}

/// What was sealed is read back for as long as it lives: the bytes of an
/// envelope made at the second `now` give its payload at every second up to
/// its deadline, and nothing afterwards.
pub proof fn law_sealed_bytes_read_back(
    reading: Reading,
    bytes: Seq<u8>,
    payload: Seq<u8>,
    ttl: Option<u64>,
    now: u64,
    later: u64,
)
    requires
        envelope_fields(bytes) == Some((payload, deadline(ttl, now))),
        reading.judges(envelope_fields(bytes), later),
    ensures
        !expired(deadline(ttl, now), later) ==> (reading matches Reading::Live(read) && read@
            == payload),
        expired(deadline(ttl, now), later) ==> reading is Expired,
        !(reading is Corrupt),
{
}

} // verus!
