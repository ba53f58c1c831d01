//! The stored form of an entry for backends without native expiry, and the
//! rule that decides whether a stored entry is still alive.
use crate::column::ttl_duration;
use crate::error::CacheError;
use vstd::prelude::*;

verus! {

#[verifier::external_type_specification]
#[verifier::external_body]
pub struct ExEncodeError(bincode::error::EncodeError);

#[verifier::external_type_specification]
#[verifier::external_body]
pub struct ExDecodeError(bincode::error::DecodeError);

/// The bytes that bincode's standard configuration writes for the pair of an
/// insertion time and a payload.
pub uninterp spec fn encoded_record(inserted: u64, payload: Seq<u8>) -> Seq<u8>;

/// The pair that bincode's standard configuration reads from the front of
/// `bytes`, or `None` where the bytes do not start with such a pair.
pub uninterp spec fn decoded_record(bytes: Seq<u8>) -> Option<(u64, Seq<u8>)>;

/// Calls `bincode::encode_to_vec` on the pair `(inserted, payload)` under
/// `bincode::config::standard()`.
///
/// Trusted: the call is a function of its two arguments; it does not fail,
/// since an integer and a run of bytes are written into a vector that grows
/// as needed; and what it writes is read back as the same pair by
/// `bincode::borrow_decode_from_slice`.
#[verifier::external_body]
fn encode_record(inserted: u64, payload: &[u8]) -> (written: Result<
    Vec<u8>,
    bincode::error::EncodeError,
>)
    ensures
        written is Ok,
        written matches Ok(bytes) ==> bytes@ == encoded_record(inserted, payload@),
        written matches Ok(bytes) ==> decoded_record(bytes@) == Some((inserted, payload@)),
{
    bincode::encode_to_vec((inserted, payload), bincode::config::standard())
}

/// Calls `bincode::borrow_decode_from_slice` for a pair of a `u64` and a byte
/// slice under `bincode::config::standard()`, and copies the slice out.
///
/// Trusted: the call is a function of the bytes alone. Bytes after the pair
/// are not looked at.
#[verifier::external_body]
fn decode_record(bytes: &[u8]) -> (read: Result<(u64, Vec<u8>), bincode::error::DecodeError>)
    ensures
        read matches Ok(pair) ==> decoded_record(bytes@) == Some((pair.0, pair.1@)),
        read is Err ==> decoded_record(bytes@) is None,
{
    bincode::borrow_decode_from_slice::<(u64, &[u8]), _>(bytes, bincode::config::standard()).map(
        |read| (read.0.0, read.0.1.to_vec()),
    )
}

/// Seconds that have passed at `now` since `inserted`.
///
/// A clock that reads earlier than the insertion time counts as no time passed.
pub open spec fn elapsed(now: u64, inserted: u64) -> nat {
    if now >= inserted {
        (now - inserted) as nat
    } else {
        0
    }
}

/// An entry is expired once strictly more than its time to live has passed.
pub open spec fn expired(now: u64, inserted: u64, ttl: u64) -> bool {
    elapsed(now, inserted) > ttl
}

/// Whether `outcome` is a successful read that found exactly `payload`.
pub open spec fn yields(outcome: Result<Option<Vec<u8>>, CacheError>, payload: Seq<u8>) -> bool {
    outcome matches Ok(Some(bytes)) && bytes@ == payload
}

/// Whether `outcome` is the answer owed for an entry inserted at `inserted`
/// with `payload`, read at `now` from a column with `ttl_seconds`.
pub open spec fn entry_answer(
    inserted: u64,
    payload: Seq<u8>,
    now: u64,
    ttl_seconds: i32,
    outcome: Result<Option<Vec<u8>>, CacheError>,
) -> bool {
    if ttl_seconds < 0 {
        outcome matches Err(CacheError::Get(_))
    } else if expired(now, inserted, ttl_seconds as u64) {
        outcome == Ok::<Option<Vec<u8>>, CacheError>(None)
    } else {
        yields(outcome, payload)
    }
}

/// Whether `outcome` is the answer owed for what `decoded` holds: bytes that
/// are no record are a read failure, a record is judged by its age.
pub open spec fn record_answer(
    decoded: Option<(u64, Seq<u8>)>,
    now: u64,
    ttl_seconds: i32,
    outcome: Result<Option<Vec<u8>>, CacheError>,
) -> bool {
    match decoded {
        None => outcome matches Err(CacheError::Get(_)),
        Some(pair) => entry_answer(pair.0, pair.1, now, ttl_seconds, outcome),
    }
}

/// Whether an entry inserted at `inserted` is expired at `now` under `ttl`.
pub fn is_expired(now: u64, inserted: u64, ttl: u64) -> (gone: bool)
    ensures
        gone == expired(now, inserted, ttl),
{
    now >= inserted && now - inserted > ttl
}

/// Whether `framed` is the stored form of `payload` inserted at `inserted`:
/// the record that the encoding gives, which reads back as that very pair.
pub open spec fn is_frame_of(framed: Result<Vec<u8>, CacheError>, inserted: u64, payload: Seq<u8>) -> bool {
    framed matches Ok(stored) && stored@ == encoded_record(inserted, payload) && decoded_record(
        stored@,
    ) == Some((inserted, payload))
}

/// Wraps `payload` with its insertion time into the stored form. Every pair
/// has one; the result keeps the shape of the encoder's.
pub fn frame_record(inserted: u64, payload: &[u8]) -> (framed: Result<Vec<u8>, CacheError>)
    ensures
        is_frame_of(framed, inserted, payload@),
{
    match encode_record(inserted, payload) {
        Ok(bytes) => Ok(bytes),
        Err(e) => Err(CacheError::Encode(e.to_string())),
    }
}

/// Judges an entry that was read back: the payload while it is alive,
/// `None` once it is expired, a read failure where the column's time to live
/// is negative.
pub fn judge_entry(inserted: u64, payload: Vec<u8>, now: u64, ttl_seconds: i32) -> (outcome: Result<
    Option<Vec<u8>>,
    CacheError,
>)
    ensures
        entry_answer(inserted, payload@, now, ttl_seconds, outcome),
        ttl_seconds >= 0 && !expired(now, inserted, ttl_seconds as u64) ==> outcome == Ok::<
            Option<Vec<u8>>,
            CacheError,
        >(Some(payload)),
{
    match ttl_duration(ttl_seconds) {
        Err(reason) => Err(CacheError::Get(reason)),
        Ok(ttl) => {
            if is_expired(now, inserted, ttl) {
                Ok(None)
            } else {
                Ok(Some(payload))
            }
        },
    }
}

/// Unwraps stored bytes and judges the entry they hold.
pub fn judge_record(stored: &[u8], now: u64, ttl_seconds: i32) -> (outcome: Result<
    Option<Vec<u8>>,
    CacheError,
>)
    ensures
        record_answer(decoded_record(stored@), now, ttl_seconds, outcome),
{
    match decode_record(stored) {
        Err(e) => Err(CacheError::Get(e.to_string())),
        Ok((inserted, payload)) => judge_entry(inserted, payload, now, ttl_seconds),
    }
}

/// An entry is returned as long as no more than its time to live has passed,
/// the boundary included, and never after that.
pub proof fn entry_lives_for_its_ttl(
    inserted: u64,
    payload: Seq<u8>,
    now: u64,
    ttl_seconds: i32,
    outcome: Result<Option<Vec<u8>>, CacheError>,
)
    requires
        ttl_seconds >= 0,
        inserted <= now,
        entry_answer(inserted, payload, now, ttl_seconds, outcome),
    ensures
        now - inserted <= ttl_seconds ==> yields(outcome, payload),
        now - inserted > ttl_seconds ==> outcome == Ok::<Option<Vec<u8>>, CacheError>(None),
{
}

/// An entry that is expired stays expired at every later time.
pub proof fn expiry_is_final(inserted: u64, ttl: u64, now: u64, later: u64)
    requires
        expired(now, inserted, ttl),
        now <= later,
    ensures
        expired(later, inserted, ttl),
{
}

/// What was framed at `inserted` and is read back unchanged is judged as the
/// entry that went in: returned within its time to live, absent after it.
pub proof fn framed_record_reads_back(
    inserted: u64,
    payload: Seq<u8>,
    stored: Seq<u8>,
    now: u64,
    ttl_seconds: i32,
    outcome: Result<Option<Vec<u8>>, CacheError>,
)
    requires
        ttl_seconds >= 0,
        inserted <= now,
        decoded_record(stored) == Some((inserted, payload)),
        record_answer(decoded_record(stored), now, ttl_seconds, outcome),
    ensures
        now - inserted <= ttl_seconds ==> yields(outcome, payload),
        now - inserted > ttl_seconds ==> outcome == Ok::<Option<Vec<u8>>, CacheError>(None),
{
}

} // verus!
