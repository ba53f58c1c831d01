use vstd::prelude::*;

verus! {

/// A logical partition of the cache: a name and a time to live.
///
/// Backends read both facts once per operation and work on the values they
/// were given; the name is used literally as a namespace token. A column says
/// what it may report through `may_be_named` and `may_live`. Left as they
/// are they admit every report; a column that always reports the same narrows
/// them to that one name and that one time to live, and the contracts of the
/// backends speak of the column through them.
pub trait ColumnDefinition {
    /// Whether `name` is a name that this column may report.
    open spec fn may_be_named(&self, name: Seq<char>) -> bool {
        true
    }

    /// Whether `ttl_seconds` is a time to live that this column may report.
    open spec fn may_live(&self, ttl_seconds: i32) -> bool {
        true
    }

    /// The column's name.
    fn name(&self) -> (name: String)
        ensures
            self.may_be_named(name@),
    ;

    /// How many seconds an entry of this column stays retrievable.
    fn get_ttl_in_seconds(&self) -> (ttl_seconds: i32)
        ensures
            self.may_live(ttl_seconds),
    ;
}

/// A column that is a pair of values: it reports the name and the time to
/// live that it was made with, and nothing else, every time.
pub struct Column {
    pub name: String,
    pub ttl_seconds: i32,
}

impl ColumnDefinition for Column {
    open spec fn may_be_named(&self, name: Seq<char>) -> bool {
        name == self.name@
    }

    open spec fn may_live(&self, ttl_seconds: i32) -> bool {
        ttl_seconds == self.ttl_seconds
    }

    fn name(&self) -> (name: String) {
        self.name.clone()
    }

    fn get_ttl_in_seconds(&self) -> (ttl_seconds: i32) {
        self.ttl_seconds
    }
}

/// The time to live as the unsigned number of seconds that it stands for. A
/// negative one stands for none: it is refused, in the words of the failed
/// conversion, and never turned into some other duration.
pub fn ttl_duration(ttl_seconds: i32) -> (duration: Result<u64, String>)
    ensures
        ttl_seconds >= 0 ==> duration == Ok::<u64, String>(ttl_seconds as u64),
        ttl_seconds < 0 ==> duration is Err,
{
    match u64::try_from(ttl_seconds) {
        Ok(seconds) => Ok(seconds),
        Err(e) => Err(e.to_string()),
    }
}

} // verus!
