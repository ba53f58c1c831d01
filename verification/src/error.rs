use vstd::prelude::*;
use vstd::string::StringExecFns;

verus! {

/// The closed set of failures that any layer of the cache reports.
///
/// Each kind carries a human readable context and nothing else.
#[derive(Debug, Clone)]
pub enum CacheError {
    /// A write to the backend failed.
    Put(String),
    /// A read from the backend failed.
    Get(String),
    /// A value could not be turned into bytes.
    Encode(String),
    /// Stored bytes could not be turned back into a value.
    Decode(String),
    /// The backend itself failed, apart from any single key.
    Engine(String),
}

impl CacheError {
    /// The context that the error carries, as the string it is.
    pub open spec fn reason(&self) -> String {
        match *self {
            CacheError::Put(s) => s,
            CacheError::Get(s) => s,
            CacheError::Encode(s) => s,
            CacheError::Decode(s) => s,
            CacheError::Engine(s) => s,
        }
    }

    /// The context that the error carries, by its characters.
    pub open spec fn context(&self) -> Seq<char> {
        match *self {
            CacheError::Put(s) => s@,
            CacheError::Get(s) => s@,
            CacheError::Encode(s) => s@,
            CacheError::Decode(s) => s@,
            CacheError::Engine(s) => s@,
        }
    }

    /// The fixed words that introduce the context of each kind.
    pub open spec fn headline(&self) -> Seq<char> {
        match *self {
            CacheError::Put(_) => "Failed to insert value into cache: "@,
            CacheError::Get(_) => "Failed to get value from cache: "@,
            CacheError::Encode(_) => "Failed to encode value for cache: "@,
            CacheError::Decode(_) => "Failed to decode value for cache: "@,
            CacheError::Engine(_) => "Engine failed: "@,
        }
    }

    /// Gives up the error for the context that it carries.
    pub fn into_reason(self) -> (reason: String)
        ensures
            reason == self.reason(),
    {
        match self {
            CacheError::Put(s) => s,
            CacheError::Get(s) => s,
            CacheError::Encode(s) => s,
            CacheError::Decode(s) => s,
            CacheError::Engine(s) => s,
        }
    }

    /// The message shown to a person: the headline of the kind, then the context.
    pub fn to_string(&self) -> (text: String)
        ensures
            text@ == self.headline() + self.context(),
    {
        match self {
            CacheError::Put(key) => String::from_str("Failed to insert value into cache: ").concat(
                key.as_str(),
            ),
            CacheError::Get(key) => String::from_str("Failed to get value from cache: ").concat(
                key.as_str(),
            ),
            CacheError::Encode(key) => String::from_str(
                "Failed to encode value for cache: ",
            ).concat(key.as_str()),
            CacheError::Decode(key) => String::from_str(
                "Failed to decode value for cache: ",
            ).concat(key.as_str()),
            CacheError::Engine(message) => String::from_str("Engine failed: ").concat(
                message.as_str(),
            ),
        }
    }
}

} // verus!
