use crate::column::ColumnDefinition;
use crate::error::CacheError;
use vstd::prelude::*;

verus! {

/// The raw, byte level capability that every backend offers.
///
/// A backend works on what a column reported: its name and its time to live.
/// It implements the three operations on those values and says what they may
/// answer through the three `allows_` predicates. Left as they are the
/// predicates admit every answer; a backend that knows more narrows them, and
/// the facade's contracts speak through them.
///
/// The operations that take a column read it once and hand what it reported
/// to the backend. They come with the trait.
pub trait CacheStorage: Send + Sync {
    /// Whether `outcome` is an answer that a write of `value` under `key` may
    /// give in the column called `name` with `ttl_seconds`.
    open spec fn allows_insert(
        &self,
        name: Seq<char>,
        ttl_seconds: i32,
        key: Seq<u8>,
        value: Seq<u8>,
        outcome: Result<(), CacheError>,
    ) -> bool {
        true
    }

    /// Whether `outcome` is an answer that a read of `key` may give in the
    /// column called `name` with `ttl_seconds`.
    open spec fn allows_get(
        &self,
        name: Seq<char>,
        ttl_seconds: i32,
        key: Seq<u8>,
        outcome: Result<Option<Vec<u8>>, CacheError>,
    ) -> bool {
        true
    }

    /// Whether `outcome` is an answer that dropping the column called `name`
    /// may give.
    open spec fn allows_drop(&self, name: Seq<char>, outcome: Result<(), CacheError>) -> bool {
        true
    }

    /// Stores `value` under `key` within the column called `name`, to live for
    /// `ttl_seconds`.
    fn insert_into(&self, name: &str, ttl_seconds: i32, key: &[u8], value: &[u8]) -> (outcome:
        Result<(), CacheError>)
        ensures
            self.allows_insert(name@, ttl_seconds, key@, value@, outcome),
    ;

    /// Reads `key` within the column called `name`, whose entries live for
    /// `ttl_seconds`. An absent entry and an expired one are both `Ok(None)`.
    fn get_from(&self, name: &str, ttl_seconds: i32, key: &[u8]) -> (outcome: Result<
        Option<Vec<u8>>,
        CacheError,
    >)
        ensures
            self.allows_get(name@, ttl_seconds, key@, outcome),
    ;

    /// Removes every entry of the column called `name`; the column stays usable.
    fn drop_named(&self, name: &str) -> (outcome: Result<(), CacheError>)
        ensures
            self.allows_drop(name@, outcome),
    ;

    /// Stores `value` under `key` within the column, under the name and the
    /// time to live that the column reports.
    fn try_insert(&self, c: &dyn ColumnDefinition, key: &[u8], value: &[u8]) -> (outcome: Result<
        (),
        CacheError,
    >)
        ensures
            exists|name: Seq<char>, ttl_seconds: i32| #[trigger]
                self.allows_insert(name, ttl_seconds, key@, value@, outcome) && c.may_be_named(
                    name,
                ) && c.may_live(ttl_seconds),
    {
        let name = c.name();
        let ttl_seconds = c.get_ttl_in_seconds();
        let outcome = self.insert_into(name.as_str(), ttl_seconds, key, value);
        proof {
            assert(self.allows_insert(name@, ttl_seconds, key@, value@, outcome)
                && c.may_be_named(name@) && c.may_live(ttl_seconds));
        }
        outcome
    }

    /// Reads `key` within the column, under the name and the time to live
    /// that the column reports.
    fn try_get(&self, c: &dyn ColumnDefinition, key: &[u8]) -> (outcome: Result<
        Option<Vec<u8>>,
        CacheError,
    >)
        ensures
            exists|name: Seq<char>, ttl_seconds: i32| #[trigger]
                self.allows_get(name, ttl_seconds, key@, outcome) && c.may_be_named(name)
                    && c.may_live(ttl_seconds),
    {
        let name = c.name();
        let ttl_seconds = c.get_ttl_in_seconds();
        let outcome = self.get_from(name.as_str(), ttl_seconds, key);
        proof {
            assert(self.allows_get(name@, ttl_seconds, key@, outcome) && c.may_be_named(name@)
                && c.may_live(ttl_seconds));
        }
        outcome
    }

    /// Removes every entry of the column, found by the name that it reports.
    fn try_drop_column(&self, c: &dyn ColumnDefinition) -> (outcome: Result<(), CacheError>)
        ensures
            exists|name: Seq<char>| #[trigger]
                self.allows_drop(name, outcome) && c.may_be_named(name),
    {
        let name = c.name();
        let outcome = self.drop_named(name.as_str());
        proof {
            assert(self.allows_drop(name@, outcome) && c.may_be_named(name@));
        }
        outcome
    }
}

} // verus!
