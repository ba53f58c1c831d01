use crate::error::CacheError;
use crate::storage::CacheStorage;
use vstd::prelude::*;

verus! {

/// The discard backend: it accepts every write, keeps nothing and finds nothing.
#[derive(Default, Debug)]
pub struct NoopEngine {}

impl NoopEngine {
    /// Builds the backend. There is nothing to open, so both arguments are ignored.
    pub fn build(_path: String, _capacity: Option<u64>) -> (storage: Box<NoopEngine>)
        ensures
            *storage == (NoopEngine {  }),
    {
        Box::new(NoopEngine {  })
    }
}

impl CacheStorage for NoopEngine {
    open spec fn allows_insert(
        &self,
        name: Seq<char>,
        ttl_seconds: i32,
        key: Seq<u8>,
        value: Seq<u8>,
        outcome: Result<(), CacheError>,
    ) -> bool {
        outcome is Ok
    }

    open spec fn allows_get(
        &self,
        name: Seq<char>,
        ttl_seconds: i32,
        key: Seq<u8>,
        outcome: Result<Option<Vec<u8>>, CacheError>,
    ) -> bool {
        outcome == Ok::<Option<Vec<u8>>, CacheError>(None)
    }

    open spec fn allows_drop(&self, name: Seq<char>, outcome: Result<(), CacheError>) -> bool {
        outcome is Ok
    }

    fn insert_into(&self, _name: &str, _ttl_seconds: i32, _key: &[u8], _value: &[u8]) -> (outcome:
        Result<(), CacheError>) {
        Ok(())
    }

    fn get_from(&self, _name: &str, _ttl_seconds: i32, _key: &[u8]) -> (outcome: Result<
        Option<Vec<u8>>,
        CacheError,
    >) {
        Ok(None)
    }

    fn drop_named(&self, _name: &str) -> (outcome: Result<(), CacheError>) {
        Ok(())
    }
}

} // verus!
