//! The embedded, persistent backend: one sled tree per column, with the time
//! to live emulated by a stored insertion time that every read checks.
use crate::clock::{clock_complaint, unix_seconds};
use crate::column::ttl_duration;
use crate::error::CacheError;
use crate::record::{decoded_record, expired, frame_record, judge_record, record_answer};
use crate::storage::CacheStorage;
use vstd::prelude::*;

verus! {

#[verifier::external_type_specification]
#[verifier::external_body]
pub struct ExDb(sled::Db);

#[verifier::external_type_specification]
#[verifier::external_body]
pub struct ExTree(sled::Tree);

#[verifier::external_type_specification]
#[verifier::external_body]
pub struct ExSledError(sled::Error);

#[verifier::external_type_specification]
pub struct ExMode(sled::Mode);

/// The page cache budget, in bytes, of a store opened without one: 1 GiB.
pub const DEFAULT_CAPACITY: u64 = 1073741824;

/// The smallest page cache budget, in bytes, that the store can be opened with.
pub const MINIMUM_CAPACITY: u64 = 256;

/// The zstd level that the store compresses with.
pub const COMPRESSION_FACTOR: i32 = 5;

/// Opens the store at `path` through a fresh `sled::Config` that is given the
/// mode, the page cache budget, and whether and how hard to compress.
/// Nothing is claimed of the outcome: it depends on the disk. sled refuses to
/// run on a page cache of fewer than 256 bytes, so no smaller one is passed.
#[verifier::external_body]
fn open_store(
    path: String,
    mode: sled::Mode,
    capacity: u64,
    use_compression: bool,
    compression_factor: i32,
) -> (opened: Result<sled::Db, sled::Error>)
    requires
        capacity >= MINIMUM_CAPACITY,
{
    sled::Config::default().mode(mode).path(path).cache_capacity(capacity).use_compression(
        use_compression,
    ).compression_factor(compression_factor).open()
}

/// Calls `sled::Db::open_tree`: the tree of that name, made if it was not there.
/// Nothing is claimed of the outcome.
#[verifier::external_body]
fn open_tree(db: &sled::Db, name: &str) -> (opened: Result<sled::Tree, sled::Error>) {
    db.open_tree(name)
}

/// Calls `sled::Db::drop_tree` and hands back whether a tree of that name was
/// there. Nothing is claimed of the outcome.
#[verifier::external_body]
fn drop_tree(db: &sled::Db, name: &str) -> (dropped: Result<bool, sled::Error>) {
    db.drop_tree(name)
}

/// Calls `sled::Tree::insert`; the value that was there before is let go.
/// Nothing is claimed of the outcome.
#[verifier::external_body]
fn tree_insert(tree: &sled::Tree, key: &[u8], value: Vec<u8>) -> (written: Result<(), sled::Error>) {
    tree.insert(key, value).map(|_| ())
}

/// Calls `sled::Tree::get` and copies the value out, where there is one.
/// Nothing is claimed of the outcome: it depends on what the tree holds.
#[verifier::external_body]
fn tree_get(tree: &sled::Tree, key: &[u8]) -> (fetched: Result<Option<Vec<u8>>, sled::Error>) {
    tree.get(key).map(|found| found.map(|bytes| bytes.to_vec()))
}

/// Calls `sled::Tree::remove`; the value that was there is let go.
/// Nothing is claimed of the outcome.
#[verifier::external_body]
fn tree_remove(tree: &sled::Tree, key: &[u8]) -> (removed: Result<(), sled::Error>) {
    tree.remove(key).map(|_| ())
}

/// How a write went outside this library: what the clock read, whether the
/// column's tree could be opened, and whether the tree took the record.
pub struct WriteTrace {
    pub clock: Option<u64>,
    pub opened: bool,
    pub written: bool,
}

/// How a read went outside this library: whether the column's tree could be
/// opened, what the tree held under the key if it could be asked, and what
/// the clock read.
pub struct ReadTrace {
    pub opened: bool,
    pub fetched: Option<Option<Seq<u8>>>,
    pub clock: Option<u64>,
}

/// The answer owed to a write into a column with `ttl_seconds` that went as
/// `trace` says. A negative time to live is a `Put` error whatever else would
/// have happened, and so is a clock that cannot be read; a tree that cannot
/// be opened is an `Engine` error, and a tree that refuses the record a `Put`
/// error, in this order.
pub open spec fn explains_write(trace: WriteTrace, ttl_seconds: i32, outcome: Result<(), CacheError>) -> bool {
    if ttl_seconds < 0 {
        outcome matches Err(CacheError::Put(_))
    } else {
        match trace.clock {
            None => outcome matches Err(CacheError::Put(_)),
            Some(_) => if !trace.opened {
                outcome matches Err(CacheError::Engine(_))
            } else if !trace.written {
                outcome matches Err(CacheError::Put(_))
            } else {
                outcome is Ok
            },
        }
    }
}

/// The answer owed to a read that went as `trace` says. A tree that cannot be
/// opened is an `Engine` error and a tree that cannot be asked a `Get` error;
/// a key that the tree does not hold is absent; what the tree holds is judged
/// as a record at the clock's reading, and a clock that cannot be read is a
/// `Get` error.
pub open spec fn explains_read(
    trace: ReadTrace,
    ttl_seconds: i32,
    outcome: Result<Option<Vec<u8>>, CacheError>,
) -> bool {
    if !trace.opened {
        outcome matches Err(CacheError::Engine(_))
    } else {
        match trace.fetched {
            None => outcome matches Err(CacheError::Get(_)),
            Some(None) => outcome == Ok::<Option<Vec<u8>>, CacheError>(None),
            Some(Some(stored)) => match trace.clock {
                None => outcome matches Err(CacheError::Get(_)),
                Some(now) => record_answer(decoded_record(stored), now, ttl_seconds, outcome),
            },
        }
    }
}

/// Whether `stored` is a record that holds `payload`, was inserted at
/// `inserted` and is not expired at `now` under `ttl_seconds`.
pub open spec fn live_record(
    stored: Seq<u8>,
    inserted: u64,
    now: u64,
    ttl_seconds: i32,
    payload: Seq<u8>,
) -> bool {
    ttl_seconds >= 0 && decoded_record(stored) == Some((inserted, payload)) && !expired(
        now,
        inserted,
        ttl_seconds as u64,
    )
}

/// Whether a write into a column with `ttl_seconds` may end in `outcome`,
/// however it went outside.
pub open spec fn write_may_answer(ttl_seconds: i32, outcome: Result<(), CacheError>) -> bool {
    exists|trace: WriteTrace| #[trigger] explains_write(trace, ttl_seconds, outcome)
}

/// Whether a read from a column with `ttl_seconds` may end in `outcome`,
/// however it went outside.
pub open spec fn read_may_answer(ttl_seconds: i32, outcome: Result<Option<Vec<u8>>, CacheError>) -> bool {
    exists|trace: ReadTrace| #[trigger] explains_read(trace, ttl_seconds, outcome)
}

/// Whether `failure` is the failure of the engine that carries the words in
/// which the store's error `e` describes itself.
pub open spec fn engine_failure_of(e: sled::Error, failure: CacheError) -> bool {
    failure matches CacheError::Engine(text) && vstd::string::to_string_from_display_ensures::<
        sled::Error,
    >(&e, text)
}

/// The answer owed by `build` for what opening the store gave: the engine
/// that owns the opened store, or the store's error as a failure of the
/// engine.
pub open spec fn explains_build(
    opened: Result<sled::Db, sled::Error>,
    built: Result<Box<SledEngine>, CacheError>,
) -> bool {
    match opened {
        Ok(db) => built matches Ok(engine) && engine.store() == db,
        Err(e) => built matches Err(failure) && engine_failure_of(e, failure),
    }
}

/// The words with which a page cache budget below the minimum is refused.
pub open spec fn capacity_refusal() -> Seq<char> {
    "cache capacity must be at least 256 bytes"@
}

/// Whether `build` may end in `built` for the requested capacity. A budget
/// below the minimum is refused in fixed words and a clock that reads before
/// the epoch in the clock's, both before anything is opened; otherwise the
/// answer follows from what opening the store gave.
pub open spec fn build_may_answer(
    capacity: Option<u64>,
    built: Result<Box<SledEngine>, CacheError>,
) -> bool {
    if cache_budget(capacity) < MINIMUM_CAPACITY {
        built matches Err(CacheError::Engine(text)) && text@ == capacity_refusal()
    } else {
        (built matches Err(CacheError::Engine(text)) && clock_complaint(text)) || (exists|
            opened: Result<sled::Db, sled::Error>,
        | #[trigger] explains_build(opened, built))
    }
}

/// The answer owed by a drop, given the error with which destroying the tree
/// failed, if it did, and the error with which opening it anew failed, if
/// that was tried and did. The first failure is the answer, as a failure of
/// the engine in the store's words; with neither, the drop went through.
pub open spec fn explains_drop(
    destroy_failed: Option<sled::Error>,
    reopen_failed: Option<sled::Error>,
    outcome: Result<(), CacheError>,
) -> bool {
    match destroy_failed {
        Some(e) => outcome matches Err(failure) && engine_failure_of(e, failure),
        None => match reopen_failed {
            Some(e) => outcome matches Err(failure) && engine_failure_of(e, failure),
            None => outcome is Ok,
        },
    }
}

/// Whether a drop may end in `outcome`, however it went outside.
pub open spec fn drop_may_answer(outcome: Result<(), CacheError>) -> bool {
    exists|destroy_failed: Option<sled::Error>, reopen_failed: Option<sled::Error>| #[trigger]
        explains_drop(destroy_failed, reopen_failed, outcome)
}

/// What the store handed back, with its error turned into a failure of the
/// engine that carries the store's own words.
pub fn engine_result<T>(outside: Result<T, sled::Error>) -> (inside: Result<T, CacheError>)
    ensures
        match outside {
            Ok(value) => inside == Ok::<T, CacheError>(value),
            Err(e) => inside matches Err(failure) && engine_failure_of(e, failure),
        },
{
    match outside {
        Ok(value) => Ok(value),
        Err(e) => Err(CacheError::Engine(e.to_string())),
    }
}

/// The page cache budget that a store is opened with.
pub open spec fn cache_budget(capacity: Option<u64>) -> u64 {
    match capacity {
        Some(bytes) => bytes,
        None => DEFAULT_CAPACITY,
    }
}

/// The embedded backend. It owns the handle of one open store for its whole life.
pub struct SledEngine {
    inner: sled::Db,
}

impl SledEngine {
    /// The open store that this engine owns.
    pub closed spec fn store(&self) -> sled::Db {
        self.inner
    }

    /// The page cache budget for a requested capacity: the request, or 1 GiB
    /// where none was made.
    pub fn capacity_or_default(capacity: Option<u64>) -> (bytes: u64)
        ensures
            bytes == cache_budget(capacity),
    {
        match capacity {
            Some(bytes) => bytes,
            None => DEFAULT_CAPACITY,
        }
    }

    /// Opens, or creates, the store at `path`, tuned for write throughput and
    /// with compression on. A store that cannot be opened is an `Engine`
    /// error; the caller decides whether that is fatal.
    ///
    /// Two requests are refused before the store is asked, because the store
    /// would not survive them: a page cache budget of fewer than 256 bytes,
    /// and any request made while the clock reads before the epoch, by which
    /// the store names its scratch files.
    pub fn build(path: String, capacity: Option<u64>) -> (built: Result<Box<SledEngine>, CacheError>)
        ensures
            build_may_answer(capacity, built),
            cache_budget(capacity) < MINIMUM_CAPACITY ==> built matches Err(CacheError::Engine(_)),
            built matches Err(e) ==> e is Engine,
    {
        let budget = Self::capacity_or_default(capacity);
        if budget < MINIMUM_CAPACITY {
            return Err(
                CacheError::Engine(String::from_str("cache capacity must be at least 256 bytes")),
            );
        }
        match unix_seconds() {
            Ok(_) => {},
            Err(reason) => {
                return Err(CacheError::Engine(reason));
            },
        }
        let opened = open_store(path, sled::Mode::HighThroughput, budget, true, COMPRESSION_FACTOR);
        let ghost seen = opened;
        let built = match engine_result(opened) {
            Ok(db) => Ok(Box::new(SledEngine { inner: db })),
            Err(failure) => Err(failure),
        };
        proof {
            assert(explains_build(seen, built));
        }
        built
    }
}

impl CacheStorage for SledEngine {
    open spec fn allows_insert(
        &self,
        name: Seq<char>,
        ttl_seconds: i32,
        key: Seq<u8>,
        value: Seq<u8>,
        outcome: Result<(), CacheError>,
    ) -> bool {
        write_may_answer(ttl_seconds, outcome)
    }

    open spec fn allows_get(
        &self,
        name: Seq<char>,
        ttl_seconds: i32,
        key: Seq<u8>,
        outcome: Result<Option<Vec<u8>>, CacheError>,
    ) -> bool {
        read_may_answer(ttl_seconds, outcome)
    }

    open spec fn allows_drop(&self, name: Seq<char>, outcome: Result<(), CacheError>) -> bool {
        drop_may_answer(outcome)
    }

    /// Stores `value` under `key` in the tree called `name`, wrapped with the
    /// current time. A negative time to live is refused before the clock is
    /// read or the store is touched.
    fn insert_into(&self, name: &str, ttl_seconds: i32, key: &[u8], value: &[u8]) -> (outcome:
        Result<(), CacheError>)
        ensures
            write_may_answer(ttl_seconds, outcome),
            ttl_seconds < 0 ==> outcome matches Err(CacheError::Put(_)),
    {
        match ttl_duration(ttl_seconds) {
            Ok(_) => {},
            Err(reason) => {
                let outcome = Err(CacheError::Put(reason));
                proof {
                    let trace = WriteTrace { clock: None, opened: false, written: false };
                    assert(explains_write(trace, ttl_seconds, outcome));
                }
                return outcome;
            },
        }
        let now = match unix_seconds() {
            Ok(seconds) => seconds,
            Err(reason) => {
                let outcome = Err(CacheError::Put(reason));
                proof {
                    let trace = WriteTrace { clock: None, opened: false, written: false };
                    assert(explains_write(trace, ttl_seconds, outcome));
                }
                return outcome;
            },
        };
        let framed = match frame_record(now, value) {
            Ok(bytes) => bytes,
            Err(e) => {
                return Err(e);
            },
        };
        let tree = match open_tree(&self.inner, name) {
            Ok(tree) => tree,
            Err(e) => {
                let outcome = Err(CacheError::Engine(e.to_string()));
                proof {
                    let trace = WriteTrace { clock: Some(now), opened: false, written: false };
                    assert(explains_write(trace, ttl_seconds, outcome));
                }
                return outcome;
            },
        };
        let written = tree_insert(&tree, key, framed);
        let outcome = match written {
            Ok(()) => Ok(()),
            Err(e) => Err(CacheError::Put(e.to_string())),
        };
        proof {
            let trace = WriteTrace { clock: Some(now), opened: true, written: outcome is Ok };
            assert(explains_write(trace, ttl_seconds, outcome));
        }
        outcome
    }

    /// Reads `key` from the tree called `name` and judges what was found
    /// against `ttl_seconds`. An expired entry is removed from the tree on the
    /// way; whether that removal succeeds does not change the answer.
    fn get_from(&self, name: &str, ttl_seconds: i32, key: &[u8]) -> (outcome: Result<
        Option<Vec<u8>>,
        CacheError,
    >)
        ensures
            read_may_answer(ttl_seconds, outcome),
    {
        let tree = match open_tree(&self.inner, name) {
            Ok(tree) => tree,
            Err(e) => {
                let outcome = Err(CacheError::Engine(e.to_string()));
                proof {
                    let trace = ReadTrace { opened: false, fetched: None, clock: None };
                    assert(explains_read(trace, ttl_seconds, outcome));
                }
                return outcome;
            },
        };
        match tree_get(&tree, key) {
            Err(e) => {
                let outcome = Err(CacheError::Get(e.to_string()));
                proof {
                    let trace = ReadTrace { opened: true, fetched: None, clock: None };
                    assert(explains_read(trace, ttl_seconds, outcome));
                }
                outcome
            },
            Ok(None) => {
                let outcome = Ok(None);
                proof {
                    let trace = ReadTrace { opened: true, fetched: Some(None), clock: None };
                    assert(explains_read(trace, ttl_seconds, outcome));
                }
                outcome
            },
            Ok(Some(stored)) => {
                let outcome = match unix_seconds() {
                    Err(reason) => {
                        let outcome = Err(CacheError::Get(reason));
                        proof {
                            let trace = ReadTrace {
                                opened: true,
                                fetched: Some(Some(stored@)),
                                clock: None,
                            };
                            assert(explains_read(trace, ttl_seconds, outcome));
                        }
                        outcome
                    },
                    Ok(now) => {
                        let outcome = judge_record(stored.as_slice(), now, ttl_seconds);
                        proof {
                            let trace = ReadTrace {
                                opened: true,
                                fetched: Some(Some(stored@)),
                                clock: Some(now),
                            };
                            assert(explains_read(trace, ttl_seconds, outcome));
                        }
                        outcome
                    },
                };
                if let Ok(None) = outcome {
                    let _ = tree_remove(&tree, key);
                }
                outcome
            },
        }
    }

    /// Empties the tree called `name`: the tree is destroyed and opened anew,
    /// so that it takes writes again. Either step failing is an `Engine` error.
    fn drop_named(&self, name: &str) -> (outcome: Result<(), CacheError>)
        ensures
            drop_may_answer(outcome),
            outcome matches Err(e) ==> e is Engine,
    {
        let destroyed = drop_tree(&self.inner, name);
        let ghost destroy_failed = destroyed.err();
        match engine_result(destroyed) {
            Ok(_) => {},
            Err(failure) => {
                let outcome = Err(failure);
                proof {
                    assert(explains_drop(destroy_failed, None, outcome));
                }
                return outcome;
            },
        }
        let reopened = open_tree(&self.inner, name);
        let ghost reopen_failed = reopened.err();
        let outcome = match engine_result(reopened) {
            Ok(_) => Ok(()),
            Err(failure) => Err(failure),
        };
        proof {
            assert(explains_drop(destroy_failed, reopen_failed, outcome));
        }
        outcome
    }
}

/// A write into a column with a negative time to live is refused with a
/// `Put` error, whatever the clock and the store would have done.
pub proof fn negative_ttl_is_never_written(ttl_seconds: i32, outcome: Result<(), CacheError>)
    requires
        ttl_seconds < 0,
        write_may_answer(ttl_seconds, outcome),
    ensures
        outcome matches Err(CacheError::Put(_)),
{
}

/// A write to this backend fails only as a `Put` or an `Engine` error.
pub proof fn write_fails_in_two_ways(ttl_seconds: i32, outcome: Result<(), CacheError>)
    requires
        write_may_answer(ttl_seconds, outcome),
    ensures
        outcome matches Err(e) ==> e is Put || e is Engine,
{
}

/// A drop on this backend fails only as an `Engine` error.
pub proof fn drop_fails_in_one_way(outcome: Result<(), CacheError>)
    requires
        drop_may_answer(outcome),
    ensures
        outcome matches Err(e) ==> e is Engine,
{
}

/// A read from this backend fails only as a `Get` or an `Engine` error.
pub proof fn read_fails_in_two_ways(ttl_seconds: i32, outcome: Result<Option<Vec<u8>>, CacheError>)
    requires
        read_may_answer(ttl_seconds, outcome),
    ensures
        outcome matches Err(e) ==> e is Get || e is Engine,
{
}

/// A read hands out a payload only from a record that the tree held and that
/// was not expired when the clock was read; with a negative time to live it
/// hands out none at all.
pub proof fn read_returns_only_live_records(
    ttl_seconds: i32,
    outcome: Result<Option<Vec<u8>>, CacheError>,
)
    requires
        read_may_answer(ttl_seconds, outcome),
        outcome matches Ok(Some(_)),
    ensures
        ttl_seconds >= 0,
        exists|stored: Seq<u8>, inserted: u64, now: u64| #[trigger]
            live_record(stored, inserted, now, ttl_seconds, outcome->Ok_0->Some_0@),
{
    let trace = choose|trace: ReadTrace| explains_read(trace, ttl_seconds, outcome);
    let stored = trace.fetched->Some_0->Some_0;
    let now = trace.clock->Some_0;
    let inserted = decoded_record(stored)->Some_0.0;
    assert(live_record(stored, inserted, now, ttl_seconds, outcome->Ok_0->Some_0@));
}

/// What a store holds that does exactly what it is asked and that nobody
/// else writes to: tree by tree, the stored bytes under each key.
///
/// The store on disk is not held to this by anything here. The laws below say
/// what the backend's rules make of such a store, so that what is owed to a
/// caller is plain wherever the store keeps its side.
pub struct IdealStore {
    pub trees: Map<Seq<char>, Map<Seq<u8>, Seq<u8>>>,
}

impl IdealStore {
    /// What the tree called `name` holds; a tree that was never opened holds
    /// nothing.
    pub open spec fn tree(self, name: Seq<char>) -> Map<Seq<u8>, Seq<u8>> {
        if self.trees.contains_key(name) {
            self.trees[name]
        } else {
            Map::empty()
        }
    }

    /// The store after `stored` was written under `key` in the tree `name`.
    pub open spec fn with_record(self, name: Seq<char>, key: Seq<u8>, stored: Seq<u8>) -> IdealStore {
        IdealStore { trees: self.trees.insert(name, self.tree(name).insert(key, stored)) }
    }

    /// The store after the tree `name` was destroyed and opened anew.
    pub open spec fn without_tree(self, name: Seq<char>) -> IdealStore {
        IdealStore { trees: self.trees.insert(name, Map::empty()) }
    }

    /// How a read of `key` in the tree `name` goes against this store when
    /// the clock reads `now`.
    pub open spec fn read(self, name: Seq<char>, key: Seq<u8>, now: u64) -> ReadTrace {
        ReadTrace {
            opened: true,
            fetched: Some(
                if self.tree(name).contains_key(key) {
                    Some(self.tree(name)[key])
                } else {
                    None
                },
            ),
            clock: Some(now),
        }
    }
}

/// Against an ideal store, a read of what was just written gives the payload
/// back for as long as no more than the time to live has passed, the
/// boundary included, and gives nothing after that. `stored` is the record
/// that the write framed at `inserted`.
pub proof fn ideal_store_keeps_an_entry_for_its_ttl(
    store: IdealStore,
    name: Seq<char>,
    key: Seq<u8>,
    stored: Seq<u8>,
    inserted: u64,
    payload: Seq<u8>,
    now: u64,
    ttl_seconds: i32,
    outcome: Result<Option<Vec<u8>>, CacheError>,
)
    requires
        ttl_seconds >= 0,
        inserted <= now,
        decoded_record(stored) == Some((inserted, payload)),
        explains_read(
            store.with_record(name, key, stored).read(name, key, now),
            ttl_seconds,
            outcome,
        ),
    ensures
        now - inserted <= ttl_seconds ==> crate::record::yields(outcome, payload),
        now - inserted > ttl_seconds ==> outcome == Ok::<Option<Vec<u8>>, CacheError>(None),
{
    let after = store.with_record(name, key, stored);
    assert(after.tree(name).contains_key(key));
    assert(after.tree(name)[key] == stored);
}

/// Against an ideal store, a read after a drop finds nothing in the column,
/// whatever key is asked for and whatever was written before.
pub proof fn ideal_store_is_empty_after_a_drop(
    store: IdealStore,
    name: Seq<char>,
    key: Seq<u8>,
    now: u64,
    ttl_seconds: i32,
    outcome: Result<Option<Vec<u8>>, CacheError>,
)
    requires
        explains_read(store.without_tree(name).read(name, key, now), ttl_seconds, outcome),
    ensures
        outcome == Ok::<Option<Vec<u8>>, CacheError>(None),
{
    let after = store.without_tree(name);
    assert(after.tree(name) =~= Map::<Seq<u8>, Seq<u8>>::empty());
}

/// Against an ideal store, neither a write into one column nor the drop of
/// it changes how a read in a column of another name goes: the same key in
/// two columns is two entries.
pub proof fn ideal_store_keeps_columns_apart(
    store: IdealStore,
    dropped: Seq<char>,
    other: Seq<char>,
    key: Seq<u8>,
    stored: Seq<u8>,
    now: u64,
)
    requires
        dropped != other,
    ensures
        store.without_tree(dropped).read(other, key, now) == store.read(other, key, now),
        store.with_record(dropped, key, stored).read(other, key, now) == store.read(
            other,
            key,
            now,
        ),
{
    assert(store.without_tree(dropped).tree(other) == store.tree(other));
    assert(store.with_record(dropped, key, stored).tree(other) == store.tree(other));
}

} // verus!
