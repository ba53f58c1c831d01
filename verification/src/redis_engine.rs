//! The rules of the networked backend: how a column and a key name an entry
//! in the remote store, how long the store keeps it, and how its replies read.
//!
//! The remote store expires entries by itself, so no insertion time is kept.
//! Whoever holds the connection performs the commands; what is sent and what a
//! reply means is decided here.
//!
//! Two things follow from leaning on the store. An entry goes when the store
//! enforces its expiry, which may be up to one of the store's ticks away from
//! the exact second that the time to live names. And a drop is a scan followed
//! by one removal per key found: it is not atomic, and an entry that is
//! inserted into the column after the scan survives the drop.
use crate::column::ttl_duration;
use crate::error::CacheError;
use vstd::prelude::*;
use vstd::string::StringExecFns;

verus! {

/// The byte that parts a column's name from the key: a colon.
pub const SEPARATOR: u8 = 58;

/// The bytes that every physical key of the column called `name` starts with.
pub open spec fn column_prefix(name: Seq<char>) -> Seq<u8> {
    vstd::utf8::encode_utf8(name).push(SEPARATOR)
}

/// The physical key of `key` in the column called `name`.
pub open spec fn physical(name: Seq<char>, key: Seq<u8>) -> Seq<u8> {
    column_prefix(name) + key
}

/// A write that the remote store is asked for: a physical key, and the seconds
/// after which the store lets the entry go.
pub struct ExpiringSet {
    pub key: Vec<u8>,
    pub seconds: u64,
}

/// The physical key of `key` in the column called `name`: the name, a colon,
/// then the key as it is.
pub fn physical_key(name: &str, key: &[u8]) -> (joined: Vec<u8>)
    ensures
        joined@ == physical(name@, key@),
{
    let prefix = name.as_bytes();
    let mut joined: Vec<u8> = Vec::new();
    let mut i: usize = 0;
    while i < prefix.len()
        invariant
            i <= prefix@.len(),
            prefix@ == vstd::utf8::encode_utf8(name@),
            joined@ == prefix@.take(i as int),
        decreases prefix@.len() - i,
    {
        joined.push(prefix[i]);
        i = i + 1;
        assert(prefix@.take(i as int) == prefix@.take(i - 1).push(prefix@[i - 1]));
    }
    assert(prefix@.take(prefix@.len() as int) == prefix@);
    joined.push(SEPARATOR);
    let ghost head = joined@;
    let mut j: usize = 0;
    while j < key.len()
        invariant
            j <= key@.len(),
            head == column_prefix(name@),
            joined@ == head + key@.take(j as int),
        decreases key@.len() - j,
    {
        joined.push(key[j]);
        j = j + 1;
        assert(key@.take(j as int) == key@.take(j - 1).push(key@[j - 1]));
        assert(joined@ == head + key@.take(j as int));
    }
    assert(key@.take(key@.len() as int) == key@);
    joined
}

/// The seconds that the remote store is told to keep an entry of a column
/// with `ttl_seconds`. A negative time to live is a `Put` error: it is never
/// turned into some other duration.
pub fn expiry_seconds(ttl_seconds: i32) -> (seconds: Result<u64, CacheError>)
    ensures
        ttl_seconds >= 0 ==> seconds == Ok::<u64, CacheError>(ttl_seconds as u64),
        ttl_seconds < 0 ==> seconds matches Err(CacheError::Put(_)),
{
    match ttl_duration(ttl_seconds) {
        Ok(seconds) => Ok(seconds),
        Err(reason) => Err(CacheError::Put(reason)),
    }
}

/// The write to ask for when `key` is inserted into the column called `name`
/// with `ttl_seconds`, or a `Put` error where the time to live is negative.
pub fn expiring_set(name: &str, ttl_seconds: i32, key: &[u8]) -> (request: Result<
    ExpiringSet,
    CacheError,
>)
    ensures
        ttl_seconds >= 0 ==> (request matches Ok(set) && set.key@ == physical(name@, key@)
            && set.seconds == ttl_seconds),
        ttl_seconds < 0 ==> request matches Err(CacheError::Put(_)),
{
    let joined = physical_key(name, key);
    match expiry_seconds(ttl_seconds) {
        Ok(seconds) => Ok(ExpiringSet { key: joined, seconds }),
        Err(e) => Err(e),
    }
}

/// What a read means, given the remote store's reply or the reason it gave
/// none. An empty reply is an absent entry: the store does not tell an entry
/// that was never set from one that was set to no bytes.
pub fn read_outcome(reply: Result<Vec<u8>, String>) -> (outcome: Result<Option<Vec<u8>>, CacheError>)
    ensures
        match reply {
            Err(reason) => outcome == Err::<Option<Vec<u8>>, CacheError>(CacheError::Get(reason)),
            Ok(bytes) => if bytes@.len() == 0 {
                outcome == Ok::<Option<Vec<u8>>, CacheError>(None)
            } else {
                outcome == Ok::<Option<Vec<u8>>, CacheError>(Some(bytes))
            },
        },
{
    match reply {
        Err(reason) => Err(CacheError::Get(reason)),
        Ok(bytes) => {
            if bytes.len() == 0 {
                Ok(None)
            } else {
                Ok(Some(bytes))
            }
        },
    }
}

/// Whether the remote store's patterns give the character a meaning of its
/// own: the star, the question mark, the two square brackets and the backslash.
pub open spec fn is_pattern_sign(c: char) -> bool {
    c == '*' || c == '?' || c == '[' || c == ']' || c == '\\'
}

/// The character as a pattern means it when it is meant as itself: with a
/// backslash before it where it is a sign, and alone where it is not.
pub open spec fn escaped_char(c: char) -> Seq<char> {
    if is_pattern_sign(c) {
        seq!['\\', c]
    } else {
        seq![c]
    }
}

/// The name as a pattern that matches the name and nothing else: every
/// character in its place, each sign with a backslash before it.
pub open spec fn escaped(name: Seq<char>) -> Seq<char>
    decreases name.len(),
{
    if name.len() == 0 {
        Seq::empty()
    } else {
        escaped(name.drop_last()) + escaped_char(name.last())
    }
}

/// Whether the remote store's patterns give the character a meaning of its own.
pub fn pattern_sign(c: char) -> (sign: bool)
    ensures
        sign == is_pattern_sign(c),
{
    c == '*' || c == '?' || c == '[' || c == ']' || c == '\\'
}

/// The pattern that finds the physical keys of the column called `name` when
/// the column is dropped: the name, a colon, and a star for the rest. The
/// name is meant literally, so each of its characters that a pattern would
/// take for a sign is escaped: the pattern matches by prefix and by nothing
/// else.
pub fn scan_pattern(name: &str) -> (pattern: String)
    ensures
        pattern@ == escaped(name@) + ":*"@,
{
    let n = name.unicode_len();
    let mut pattern = String::new();
    let mut i: usize = 0;
    while i < n
        invariant
            i <= n,
            n == name@.len(),
            pattern@ == escaped(name@.take(i as int)),
        decreases n - i,
    {
        let c = name.get_char(i);
        let ghost before = pattern@;
        if pattern_sign(c) {
            pattern.append("\\");
        }
        pattern.append(name.substring_char(i, i + 1));
        proof {
            reveal_strlit("\\");
            let upto = name@.take(i + 1);
            assert(upto.drop_last() == name@.take(i as int));
            assert(upto.last() == c);
            assert(name@.subrange(i as int, i + 1) == seq![c]);
            assert(pattern@ == before + escaped_char(c));
        }
        i = i + 1;
    }
    proof {
        assert(name@.take(n as int) == name@);
    }
    pattern.append(":*");
    pattern
}

/// A name without signs is its own pattern.
pub proof fn plain_name_is_its_own_pattern(name: Seq<char>)
    requires
        forall|i: int| 0 <= i < name.len() ==> !is_pattern_sign(#[trigger] name[i]),
    ensures
        escaped(name) == name,
    decreases name.len(),
{
    if name.len() > 0 {
        plain_name_is_its_own_pattern(name.drop_last());
        assert(name.drop_last().push(name.last()) == name);
    }
}

/// Every physical key of a column starts with the column's prefix, and what
/// follows the prefix is the key as the caller gave it.
pub proof fn physical_key_keeps_prefix_and_key(name: Seq<char>, key: Seq<u8>)
    ensures
        column_prefix(name).is_prefix_of(physical(name, key)),
        physical(name, key).skip(column_prefix(name).len() as int) == key,
{
    let prefix = column_prefix(name);
    assert(physical(name, key).take(prefix.len() as int) == prefix);
    assert(physical(name, key).skip(prefix.len() as int) == key);
}

/// The same key in two columns of different names has two physical keys, so
/// that nothing done to the entry of one column reaches the other's.
pub proof fn columns_keep_apart(first: Seq<char>, second: Seq<char>, key: Seq<u8>)
    requires
        first != second,
    ensures
        physical(first, key) != physical(second, key),
{
    if physical(first, key) == physical(second, key) {
        let a = column_prefix(first);
        let b = column_prefix(second);
        assert(physical(first, key).len() == a.len() + key.len());
        assert(physical(second, key).len() == b.len() + key.len());
        assert(a == physical(first, key).take(a.len() as int));
        assert(b == physical(second, key).take(b.len() as int));
        assert(a.drop_last() == vstd::utf8::encode_utf8(first));
        assert(b.drop_last() == vstd::utf8::encode_utf8(second));
        vstd::utf8::encode_utf8_decode_utf8(first);
        vstd::utf8::encode_utf8_decode_utf8(second);
    }
}

/// Two keys of one column have the same physical key only if they are the
/// same key.
pub proof fn keys_keep_apart(name: Seq<char>, first: Seq<u8>, second: Seq<u8>)
    requires
        first != second,
    ensures
        physical(name, first) != physical(name, second),
{
    physical_key_keeps_prefix_and_key(name, first);
    physical_key_keeps_prefix_and_key(name, second);
}

/// What the networked backend is asked to do.
pub enum Request {
    /// Store `value` under `key` in the column called `name`.
    Insert { name: String, ttl_seconds: i32, key: Vec<u8>, value: Vec<u8> },
    /// Read `key` from the column called `name`.
    Get { name: String, key: Vec<u8> },
    /// Remove every entry of the column called `name`.
    Drop { name: String },
}

/// What the holder of the connection reports after it did what it was told.
pub enum Event {
    /// A connection was taken from the pool.
    Connected,
    /// The write or the removal went through.
    Done,
    /// The remote store's reply to a read.
    Bytes(Vec<u8>),
    /// The physical keys that a scan found.
    Keys(Vec<Vec<u8>>),
    /// No connection could be had, or the command failed, for this reason.
    Failed(String),
}

/// What the holder of the connection is to do next.
pub enum Action {
    /// Take a connection from the pool.
    Connect,
    /// Set `key` to `value`, to expire after `seconds`.
    Store { key: Vec<u8>, value: Vec<u8>, seconds: u64 },
    /// Read `key`.
    Fetch { key: Vec<u8> },
    /// List the keys that match `pattern`.
    Scan { pattern: String },
    /// Remove `key`.
    Unlink { key: Vec<u8> },
    /// Release the connection and hand this answer to the caller. A write or
    /// a drop that went through answers `Ok(None)`.
    Return(Result<Option<Vec<u8>>, CacheError>),
}

/// Where one operation on the networked backend stands.
///
/// An exchange starts by asking for a connection and ends with `Return`. In
/// between, every event is answered with the next thing to do, so that the
/// order of the commands and the meaning of every failure are decided here
/// and not by whoever talks to the store.
pub enum Exchange {
    /// A connection was asked for.
    Connecting(Request),
    /// A write is under way.
    Writing,
    /// A read is under way.
    Reading,
    /// A scan for the column's keys is under way.
    Scanning,
    /// The removal of `keys[at]` is under way; the keys before it are gone.
    Sweeping { keys: Vec<Vec<u8>>, at: usize },
    /// The answer was handed out.
    Closed,
}

/// The exchange ends with a failure of the backend itself.
pub open spec fn ends_with_engine_failure(next: Exchange, action: Action) -> bool {
    next is Closed && action matches Action::Return(Err(CacheError::Engine(_)))
}

/// The exchange ends with this answer.
pub open spec fn ends_with(
    next: Exchange,
    action: Action,
    answer: Result<Option<Vec<u8>>, CacheError>,
) -> bool {
    next is Closed && action == Action::Return(answer)
}

/// What follows once the connection is there: the one command of a write or a
/// read, the scan of a drop, or at once the refusal of a negative time to live.
pub open spec fn follows_connection(request: Request, next: Exchange, action: Action) -> bool {
    match request {
        Request::Insert { name, ttl_seconds, key, value } => if ttl_seconds < 0 {
            next is Closed && action matches Action::Return(Err(CacheError::Put(_)))
        } else {
            next is Writing && (action matches Action::Store { key: to, value: bytes, seconds }
                && to@ == physical(name@, key@) && bytes == value && seconds == ttl_seconds)
        },
        Request::Get { name, key } => next is Reading && (action matches Action::Fetch { key: from }
            && from@ == physical(name@, key@)),
        Request::Drop { name } => next is Scanning && (action matches Action::Scan { pattern }
            && pattern@ == escaped(name@) + ":*"@),
    }
}

/// What follows the removal of `keys[at]`: the removal of the key after it,
/// or the end of the drop when there is none.
pub open spec fn follows_removal(keys: Vec<Vec<u8>>, at: usize, next: Exchange, action: Action) -> bool {
    if at + 1 < keys@.len() {
        next == (Exchange::Sweeping { keys, at: (at + 1) as usize }) && (action matches Action::Unlink {
            key,
        } && key@ == keys@[at + 1]@)
    } else {
        ends_with(next, action, Ok(None))
    }
}

/// The transition of an exchange: whether `next` and `action` are what
/// follows when `event` reaches `state`.
///
/// A failure to connect, to scan or to remove is an `Engine` error, a failed
/// write a `Put` error and a failed read a `Get` error, each with the reason
/// that was reported. An empty reply to a read is an absent entry. An event
/// that the state did not wait for ends the exchange with an `Engine` error.
pub open spec fn follows(state: Exchange, event: Event, next: Exchange, action: Action) -> bool {
    match state {
        Exchange::Connecting(request) => match event {
            Event::Connected => follows_connection(request, next, action),
            Event::Failed(reason) => ends_with(next, action, Err(CacheError::Engine(reason))),
            _ => ends_with_engine_failure(next, action),
        },
        Exchange::Writing => match event {
            Event::Done => ends_with(next, action, Ok(None)),
            Event::Failed(reason) => ends_with(next, action, Err(CacheError::Put(reason))),
            _ => ends_with_engine_failure(next, action),
        },
        Exchange::Reading => match event {
            Event::Bytes(bytes) => if bytes@.len() == 0 {
                ends_with(next, action, Ok(None))
            } else {
                ends_with(next, action, Ok(Some(bytes)))
            },
            Event::Failed(reason) => ends_with(next, action, Err(CacheError::Get(reason))),
            _ => ends_with_engine_failure(next, action),
        },
        Exchange::Scanning => match event {
            Event::Keys(keys) => if keys@.len() == 0 {
                ends_with(next, action, Ok(None))
            } else {
                next == (Exchange::Sweeping { keys, at: 0 }) && (action matches Action::Unlink { key }
                    && key@ == keys@[0]@)
            },
            Event::Failed(reason) => ends_with(next, action, Err(CacheError::Engine(reason))),
            _ => ends_with_engine_failure(next, action),
        },
        Exchange::Sweeping { keys, at } => match event {
            Event::Done => follows_removal(keys, at, next, action),
            Event::Failed(reason) => ends_with(next, action, Err(CacheError::Engine(reason))),
            _ => ends_with_engine_failure(next, action),
        },
        Exchange::Closed => ends_with_engine_failure(next, action),
    }
}

/// The end of an exchange that was sent an event it did not wait for.
fn out_of_turn() -> (end: (Exchange, Action))
    ensures
        ends_with_engine_failure(end.0, end.1),
{
    (
        Exchange::Closed,
        Action::Return(Err(CacheError::Engine(String::from_str("reply out of turn")))),
    )
}

impl Exchange {
    /// Starts the exchange for `request`: the first thing to do is to take a
    /// connection.
    pub fn begin(request: Request) -> (start: (Exchange, Action))
        ensures
            start.0 == Exchange::Connecting(request),
            start.1 is Connect,
    {
        (Exchange::Connecting(request), Action::Connect)
    }

    /// Whether the answer was handed out.
    pub fn is_closed(&self) -> (closed: bool)
        ensures
            closed == (*self is Closed),
    {
        match self {
            Exchange::Closed => true,
            _ => false,
        }
    }

    /// Takes `event` and says where the exchange stands now and what to do next.
    pub fn step(self, event: Event) -> (then: (Exchange, Action))
        ensures
            follows(self, event, then.0, then.1),
    {
        match self {
            Exchange::Connecting(request) => match event {
                Event::Connected => match request {
                    Request::Insert { name, ttl_seconds, key, value } => {
                        match expiring_set(name.as_str(), ttl_seconds, key.as_slice()) {
                            Ok(set) => (
                                Exchange::Writing,
                                Action::Store { key: set.key, value, seconds: set.seconds },
                            ),
                            Err(e) => (Exchange::Closed, Action::Return(Err(e))),
                        }
                    },
                    Request::Get { name, key } => (
                        Exchange::Reading,
                        Action::Fetch { key: physical_key(name.as_str(), key.as_slice()) },
                    ),
                    Request::Drop { name } => (
                        Exchange::Scanning,
                        Action::Scan { pattern: scan_pattern(name.as_str()) },
                    ),
                },
                Event::Failed(reason) => (
                    Exchange::Closed,
                    Action::Return(Err(CacheError::Engine(reason))),
                ),
                _ => out_of_turn(),
            },
            Exchange::Writing => match event {
                Event::Done => (Exchange::Closed, Action::Return(Ok(None))),
                Event::Failed(reason) => (
                    Exchange::Closed,
                    Action::Return(Err(CacheError::Put(reason))),
                ),
                _ => out_of_turn(),
            },
            Exchange::Reading => match event {
                Event::Bytes(bytes) => (Exchange::Closed, Action::Return(read_outcome(Ok(bytes)))),
                Event::Failed(reason) => (
                    Exchange::Closed,
                    Action::Return(read_outcome(Err(reason))),
                ),
                _ => out_of_turn(),
            },
            Exchange::Scanning => match event {
                Event::Keys(keys) => {
                    if keys.len() == 0 {
                        (Exchange::Closed, Action::Return(Ok(None)))
                    } else {
                        let key = vstd::slice::slice_to_vec(keys[0].as_slice());
                        (Exchange::Sweeping { keys, at: 0 }, Action::Unlink { key })
                    }
                },
                Event::Failed(reason) => (
                    Exchange::Closed,
                    Action::Return(Err(CacheError::Engine(reason))),
                ),
                _ => out_of_turn(),
            },
            Exchange::Sweeping { keys, at } => match event {
                Event::Done => {
                    if at < keys.len() && at + 1 < keys.len() {
                        let key = vstd::slice::slice_to_vec(keys[at + 1].as_slice());
                        (Exchange::Sweeping { keys, at: at + 1 }, Action::Unlink { key })
                    } else {
                        (Exchange::Closed, Action::Return(Ok(None)))
                    }
                },
                Event::Failed(reason) => (
                    Exchange::Closed,
                    Action::Return(Err(CacheError::Engine(reason))),
                ),
                _ => out_of_turn(),
            },
            Exchange::Closed => out_of_turn(),
        }
    }
}

/// How many removals a drop may still ask for, the one under way included.
pub open spec fn removals_left(state: Exchange) -> nat {
    match state {
        Exchange::Sweeping { keys, at } => if at < keys@.len() {
            (keys@.len() - at) as nat
        } else {
            0
        },
        _ => 0,
    }
}

/// A write into a column with a negative time to live is refused with a `Put`
/// error as soon as the connection is there, and nothing is sent to the store.
pub proof fn negative_ttl_never_writes(
    name: String,
    ttl_seconds: i32,
    key: Vec<u8>,
    value: Vec<u8>,
    next: Exchange,
    action: Action,
)
    requires
        ttl_seconds < 0,
        follows(
            Exchange::Connecting(Request::Insert { name, ttl_seconds, key, value }),
            Event::Connected,
            next,
            action,
        ),
    ensures
        next is Closed,
        action matches Action::Return(Err(CacheError::Put(_))),
{
}

/// A read asks the store for the very key that a write into the same column
/// under the same key sets.
pub proof fn read_asks_for_what_write_set(
    name: String,
    ttl_seconds: i32,
    key: Vec<u8>,
    value: Vec<u8>,
    after_write: Exchange,
    write: Action,
    after_read: Exchange,
    read: Action,
)
    requires
        ttl_seconds >= 0,
        follows(
            Exchange::Connecting(Request::Insert { name, ttl_seconds, key, value }),
            Event::Connected,
            after_write,
            write,
        ),
        follows(Exchange::Connecting(Request::Get { name, key }), Event::Connected, after_read, read),
    ensures
        write matches Action::Store { key: set, .. } && (read matches Action::Fetch { key: asked }
            && set@ == asked@),
{
}

/// Once the answer is out, the exchange stays closed whatever reaches it.
pub proof fn closed_stays_closed(event: Event, next: Exchange, action: Action)
    requires
        follows(Exchange::Closed, event, next, action),
    ensures
        next is Closed,
        action is Return,
{
}

/// Every step of a drop that is removing keys either ends the exchange or
/// moves on to the next key that the scan found: the removals that are left
/// become fewer, so a drop asks for no more removals than the scan found keys.
pub proof fn sweep_moves_on(
    keys: Vec<Vec<u8>>,
    at: usize,
    event: Event,
    next: Exchange,
    action: Action,
)
    requires
        at < keys@.len(),
        follows(Exchange::Sweeping { keys, at }, event, next, action),
    ensures
        removals_left(next) < removals_left(Exchange::Sweeping { keys, at }),
        next is Closed ==> action is Return,
        !(next is Closed) ==> (action matches Action::Unlink { key } && key@ == keys@[at + 1]@),
{
    assert(keys@.len() == keys.len());
}

/// What a remote store holds after it removed `keys` one by one, in their
/// order, when it held `held` before and nobody else wrote to it.
///
/// The remote store is not held to this by anything here. The laws below say
/// what a drop makes of a store that keeps its side.
pub open spec fn after_removals(held: Map<Seq<u8>, Seq<u8>>, keys: Seq<Seq<u8>>) -> Map<
    Seq<u8>,
    Seq<u8>,
>
    decreases keys.len(),
{
    if keys.len() == 0 {
        held
    } else {
        after_removals(held.remove(keys[0]), keys.drop_first())
    }
}

/// After the removals a store holds what it held before, but for the keys
/// that were removed.
pub proof fn removals_take_the_keys_and_nothing_else(
    held: Map<Seq<u8>, Seq<u8>>,
    keys: Seq<Seq<u8>>,
    key: Seq<u8>,
)
    ensures
        after_removals(held, keys).contains_key(key) <==> held.contains_key(key) && !keys.contains(
            key,
        ),
        after_removals(held, keys).contains_key(key) ==> after_removals(held, keys)[key]
            == held[key],
    decreases keys.len(),
{
    if keys.len() > 0 {
        let rest = keys.drop_first();
        removals_take_the_keys_and_nothing_else(held.remove(keys[0]), rest, key);
        assert(keys.contains(key) <==> key == keys[0] || rest.contains(key)) by {
            if keys.contains(key) {
                let i = choose|i: int| 0 <= i < keys.len() && keys[i] == key;
                if i > 0 {
                    assert(rest[i - 1] == key);
                }
            }
            if rest.contains(key) {
                let j = choose|j: int| 0 <= j < rest.len() && rest[j] == key;
                assert(keys[j + 1] == key);
            }
            if key == keys[0] {
                assert(keys[0] == key);
            }
        }
    }
}

/// Where the scan found every key that the store holds under the column's
/// prefix, a drop that went through leaves no entry of the column: a read of
/// any key of the column asks for a physical key that the store no longer
/// holds.
pub proof fn drop_leaves_nothing_of_the_column(
    held: Map<Seq<u8>, Seq<u8>>,
    scanned: Seq<Seq<u8>>,
    name: Seq<char>,
    key: Seq<u8>,
)
    requires
        forall|k: Seq<u8>| #[trigger]
            held.contains_key(k) && column_prefix(name).is_prefix_of(k) ==> scanned.contains(k),
    ensures
        !after_removals(held, scanned).contains_key(physical(name, key)),
{
    physical_key_keeps_prefix_and_key(name, key);
    removals_take_the_keys_and_nothing_else(held, scanned, physical(name, key));
}

/// Where the scan found only keys under the dropped column's prefix, a drop
/// leaves every entry that does not stand under that prefix as it was. The
/// entry of another column stands under the prefix only where that column's
/// name begins with the dropped column's name and a colon.
pub proof fn drop_leaves_the_other_entries(
    held: Map<Seq<u8>, Seq<u8>>,
    scanned: Seq<Seq<u8>>,
    dropped: Seq<char>,
    other: Seq<u8>,
)
    requires
        forall|i: int|
            0 <= i < scanned.len() ==> column_prefix(dropped).is_prefix_of(#[trigger] scanned[i]),
        !column_prefix(dropped).is_prefix_of(other),
    ensures
        after_removals(held, scanned).contains_key(other) == held.contains_key(other),
        held.contains_key(other) ==> after_removals(held, scanned)[other] == held[other],
{
    removals_take_the_keys_and_nothing_else(held, scanned, other);
}

} // verus!
