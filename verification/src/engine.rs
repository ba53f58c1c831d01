use crate::column::ColumnDefinition;
use crate::error::CacheError;
use crate::noop_engine::NoopEngine;
use crate::sled_engine::{read_may_answer, SledEngine};
use crate::storage::CacheStorage;
use vstd::prelude::*;

verus! {

/// Whether `outcome` is an answer that the backend allows for a write of
/// `value` under `key` into the column `c`, read as the column reports itself.
pub open spec fn column_insert<S: CacheStorage + ?Sized, C: ColumnDefinition + ?Sized>(
    storage: &S,
    c: &C,
    key: Seq<u8>,
    value: Seq<u8>,
    outcome: Result<(), CacheError>,
) -> bool {
    exists|name: Seq<char>, ttl_seconds: i32| #[trigger]
        storage.allows_insert(name, ttl_seconds, key, value, outcome) && c.may_be_named(name)
            && c.may_live(ttl_seconds)
}

/// Whether `outcome` is an answer that the backend allows for a read of `key`
/// from the column `c`, read as the column reports itself.
pub open spec fn column_get<S: CacheStorage + ?Sized, C: ColumnDefinition + ?Sized>(
    storage: &S,
    c: &C,
    key: Seq<u8>,
    outcome: Result<Option<Vec<u8>>, CacheError>,
) -> bool {
    exists|name: Seq<char>, ttl_seconds: i32| #[trigger]
        storage.allows_get(name, ttl_seconds, key, outcome) && c.may_be_named(name) && c.may_live(
            ttl_seconds,
        )
}

/// Whether `outcome` is an answer that the backend allows for dropping the
/// column `c`, found by the name that it reports.
pub open spec fn column_drop<S: CacheStorage + ?Sized, C: ColumnDefinition + ?Sized>(
    storage: &S,
    c: &C,
    outcome: Result<(), CacheError>,
) -> bool {
    exists|name: Seq<char>| #[trigger] storage.allows_drop(name, outcome) && c.may_be_named(name)
}

/// What the facade answers to a write, given how the encoding went.
///
/// A failed encoding is reported as such and the backend is left alone;
/// otherwise the answer is one that the backend allows for the encoded bytes
/// in the column.
pub open spec fn insert_answer<S: CacheStorage + ?Sized, C: ColumnDefinition + ?Sized>(
    storage: &S,
    c: &C,
    key: Seq<u8>,
    encoded: Result<Vec<u8>, String>,
    outcome: Result<(), CacheError>,
) -> bool {
    match encoded {
        Err(reason) => outcome == Err::<(), CacheError>(CacheError::Encode(reason)),
        Ok(bytes) => column_insert(storage, c, key, bytes@, outcome),
    }
}

/// What the facade makes of a decoding attempt on bytes that were found.
pub open spec fn decoded_answer<V>(decoded: Result<V, String>) -> Result<Option<V>, CacheError> {
    match decoded {
        Ok(value) => Ok(Some(value)),
        Err(reason) => Err(CacheError::Decode(reason)),
    }
}

/// What the facade answers to a read, given what the backend answered.
///
/// The backend's failure and a missing entry pass through; bytes that were
/// found are handed to `decode`, and the answer follows from its verdict.
pub open spec fn get_answer<V, F: FnOnce(Vec<u8>) -> Result<V, String>>(
    raw: Result<Option<Vec<u8>>, CacheError>,
    decode: F,
    outcome: Result<Option<V>, CacheError>,
) -> bool {
    match raw {
        Err(e) => outcome == Err::<Option<V>, CacheError>(e),
        Ok(None) => outcome == Ok::<Option<V>, CacheError>(None),
        Ok(Some(bytes)) => exists|decoded: Result<V, String>| #[trigger]
            decode.ensures((bytes,), decoded) && outcome == decoded_answer(decoded),
    }
}

/// What the facade answers to a drop, given what the backend answered: a
/// failure of any kind is reported as a failure of the engine, in the
/// backend's words.
pub open spec fn drop_answer(raw: Result<(), CacheError>, outcome: Result<(), CacheError>) -> bool {
    match raw {
        Ok(_) => outcome is Ok,
        Err(e) => outcome == Err::<(), CacheError>(CacheError::Engine(e.reason())),
    }
}

/// The typed facade: one backend, fixed at construction, behind typed operations.
pub struct Engine<S: CacheStorage + ?Sized = dyn CacheStorage> {
    storage: Box<S>,
}

impl<S: CacheStorage + ?Sized> Engine<S> {
    /// The backend that this engine was built on.
    pub closed spec fn storage(&self) -> &S {
        &*self.storage
    }

    /// An engine on the given backend.
    #[must_use]
    pub fn new(storage: Box<S>) -> (engine: Engine<S>)
        ensures
            engine.storage() == &*storage,
    {
        Engine { storage }
    }

    /// Encodes `value` with `encode` and stores the bytes under `key`.
    ///
    /// If the encoding fails the backend is not touched and the failure is
    /// reported as `Encode`, with the encoder's own words. Otherwise the
    /// column is read once and the backend asked with what it reported.
    pub fn try_insert<V, F>(
        &self,
        c: &(impl ColumnDefinition + ?Sized),
        key: &[u8],
        value: &V,
        encode: F,
    ) -> (outcome: Result<(), CacheError>) where F: FnOnce(&V) -> Result<Vec<u8>, String>
        requires
            encode.requires((value,)),
        ensures
            exists|encoded: Result<Vec<u8>, String>| #[trigger]
                encode.ensures((value,), encoded) && insert_answer(
                    self.storage(),
                    c,
                    key@,
                    encoded,
                    outcome,
                ),
    {
        let encoded = encode(value);
        match encoded {
            Ok(bytes) => {
                let name = c.name();
                let ttl_seconds = c.get_ttl_in_seconds();
                let outcome = self.storage.insert_into(
                    name.as_str(),
                    ttl_seconds,
                    key,
                    bytes.as_slice(),
                );
                proof {
                    assert(self.storage().allows_insert(name@, ttl_seconds, key@, bytes@, outcome)
                        && c.may_be_named(name@) && c.may_live(ttl_seconds));
                }
                outcome
            },
            Err(reason) => Err(CacheError::Encode(reason)),
        }
    }

    /// Reads `key` and decodes what was found with `decode`.
    ///
    /// The column is read once and the backend asked with what it reported.
    /// The backend's own failure is handed on unchanged, absence is `Ok(None)`,
    /// and bytes that do not decode are a `Decode` error with the decoder's words.
    pub fn try_get<V, F>(
        &self,
        c: &(impl ColumnDefinition + ?Sized),
        key: &[u8],
        decode: F,
    ) -> (outcome: Result<Option<V>, CacheError>) where F: FnOnce(Vec<u8>) -> Result<V, String>
        requires
            forall|bytes: Vec<u8>| decode.requires((bytes,)),
        ensures
            exists|raw: Result<Option<Vec<u8>>, CacheError>| #[trigger]
                column_get(self.storage(), c, key@, raw) && get_answer(raw, decode, outcome),
    {
        let name = c.name();
        let ttl_seconds = c.get_ttl_in_seconds();
        let raw = self.storage.get_from(name.as_str(), ttl_seconds, key);
        let ghost seen = raw;
        proof {
            assert(self.storage().allows_get(name@, ttl_seconds, key@, seen) && c.may_be_named(name@)
                && c.may_live(ttl_seconds));
        }
        let outcome = match raw {
            Err(e) => Err(e),
            Ok(None) => Ok(None),
            Ok(Some(bytes)) => {
                let decoded = decode(bytes);
                let ghost attempt = decoded;
                let typed = match decoded {
                    Ok(value) => Ok(Some(value)),
                    Err(reason) => Err(CacheError::Decode(reason)),
                };
                proof {
                    assert(decode.ensures((bytes,), attempt) && typed == decoded_answer(attempt));
                }
                typed
            },
        };
        proof {
            assert(column_get(self.storage(), c, key@, seen) && get_answer(seen, decode, outcome));
        }
        outcome
    }

    /// Drops the column in the backend. Whatever the backend calls its
    /// failure, it comes out as an `Engine` error with the same context.
    pub fn try_drop_column(&self, c: &(impl ColumnDefinition + ?Sized)) -> (outcome: Result<
        (),
        CacheError,
    >)
        ensures
            exists|raw: Result<(), CacheError>| #[trigger]
                column_drop(self.storage(), c, raw) && drop_answer(raw, outcome),
            outcome matches Err(e) ==> e is Engine,
    {
        let name = c.name();
        let raw = self.storage.drop_named(name.as_str());
        let ghost seen = raw;
        proof {
            assert(self.storage().allows_drop(name@, seen) && c.may_be_named(name@));
        }
        let outcome = match raw {
            Ok(()) => Ok(()),
            Err(e) => Err(CacheError::Engine(e.into_reason())),
        };
        proof {
            assert(column_drop(self.storage(), c, seen) && drop_answer(seen, outcome));
        }
        outcome
    }
}

impl Default for Engine<NoopEngine> {
    /// An engine on the discard backend.
    fn default() -> (engine: Engine<NoopEngine>)
        ensures
            *engine.storage() == (NoopEngine {  }),
    {
        Engine { storage: Box::new(NoopEngine {  }) }
    }
}

/// On the discard backend every write is accepted, whatever the value
/// encodes to.
pub proof fn discard_engine_accepts_writes(
    engine: Engine<NoopEngine>,
    c: &dyn ColumnDefinition,
    key: Seq<u8>,
    bytes: Vec<u8>,
    outcome: Result<(), CacheError>,
)
    requires
        insert_answer(engine.storage(), c, key, Ok::<Vec<u8>, String>(bytes), outcome),
    ensures
        outcome is Ok,
{
}

/// On the discard backend a read finds nothing: not what was written just
/// before under the same key, and whatever the decoder would have made of it.
pub proof fn discard_engine_finds_nothing<V, F: FnOnce(Vec<u8>) -> Result<V, String>>(
    engine: Engine<NoopEngine>,
    c: &dyn ColumnDefinition,
    key: Seq<u8>,
    raw: Result<Option<Vec<u8>>, CacheError>,
    decode: F,
    outcome: Result<Option<V>, CacheError>,
)
    requires
        column_get(engine.storage(), c, key, raw),
        get_answer(raw, decode, outcome),
    ensures
        outcome == Ok::<Option<V>, CacheError>(None),
{
}

/// On the embedded backend a write into a column that reports only negative
/// times to live is refused with a `Put` error, whatever the value encodes to.
pub proof fn embedded_engine_refuses_negative_ttl(
    engine: Engine<SledEngine>,
    c: &dyn ColumnDefinition,
    key: Seq<u8>,
    bytes: Vec<u8>,
    outcome: Result<(), CacheError>,
)
    requires
        forall|ttl_seconds: i32| c.may_live(ttl_seconds) ==> ttl_seconds < 0,
        insert_answer(engine.storage(), c, key, Ok::<Vec<u8>, String>(bytes), outcome),
    ensures
        outcome matches Err(CacheError::Put(_)),
{
}

/// On the embedded backend a read from a column that reports one time to
/// live is judged by that time to live and no other.
pub proof fn embedded_engine_reads_under_the_columns_ttl(
    engine: Engine<SledEngine>,
    c: &dyn ColumnDefinition,
    ttl_seconds: i32,
    key: Seq<u8>,
    raw: Result<Option<Vec<u8>>, CacheError>,
)
    requires
        forall|other: i32| c.may_live(other) ==> other == ttl_seconds,
        column_get(engine.storage(), c, key, raw),
    ensures
        read_may_answer(ttl_seconds, raw),
{
}

/// Where the backend answers a read with the bytes that a value was encoded
/// to, and the decoder makes that value of them again, the facade answers
/// with the value that went in.
pub proof fn stored_value_comes_back<V, F: FnOnce(Vec<u8>) -> Result<V, String>>(
    value: V,
    bytes: Vec<u8>,
    decode: F,
    outcome: Result<Option<V>, CacheError>,
)
    requires
        get_answer(Ok::<Option<Vec<u8>>, CacheError>(Some(bytes)), decode, outcome),
        forall|decoded: Result<V, String>|
            decode.ensures((bytes,), decoded) ==> decoded == Ok::<V, String>(value),
    ensures
        outcome == Ok::<Option<V>, CacheError>(Some(value)),
{
}

/// Bytes that the decoder refuses are a `Decode` error: never a read failure
/// of the backend, never absence, never a value.
pub proof fn refused_bytes_are_a_decode_error<V, F: FnOnce(Vec<u8>) -> Result<V, String>>(
    bytes: Vec<u8>,
    decode: F,
    outcome: Result<Option<V>, CacheError>,
)
    requires
        get_answer(Ok::<Option<Vec<u8>>, CacheError>(Some(bytes)), decode, outcome),
        forall|decoded: Result<V, String>| decode.ensures((bytes,), decoded) ==> decoded is Err,
    ensures
        outcome matches Err(CacheError::Decode(_)),
{
}

} // verus!
