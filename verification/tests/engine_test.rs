use omega_cache::noop_engine::NoopEngine;
use omega_cache::{CacheError, CacheStorage, ColumnDefinition, Engine};

struct TestColumn {}

impl ColumnDefinition for TestColumn {
    fn name(&self) -> String {
        "test_column".to_string()
    }

    fn get_ttl_in_seconds(&self) -> i32 {
        1
    }
}

const COLUMN: TestColumn = TestColumn {};

fn encode<V: bincode::Encode>(value: &V) -> Result<Vec<u8>, String> {
    bincode::encode_to_vec(value, bincode::config::standard()).map_err(|e| e.to_string())
}

fn decode<V: bincode::Decode<()>>(bytes: Vec<u8>) -> Result<V, String> {
    bincode::decode_from_slice(&bytes, bincode::config::standard())
        .map(|read| read.0)
        .map_err(|e| e.to_string())
}

/// A backend that keeps the last value written and counts what it is asked.
struct OneSlot {
    slot: std::sync::Mutex<Option<Vec<u8>>>,
    writes: std::sync::atomic::AtomicUsize,
}

impl OneSlot {
    fn holding(bytes: Option<Vec<u8>>) -> Box<OneSlot> {
        Box::new(OneSlot {
            slot: std::sync::Mutex::new(bytes),
            writes: std::sync::atomic::AtomicUsize::new(0),
        })
    }
}

impl CacheStorage for OneSlot {
    fn insert_into(
        &self,
        _name: &str,
        _ttl_seconds: i32,
        _key: &[u8],
        value: &[u8],
    ) -> Result<(), CacheError> {
        self.writes
            .fetch_add(1, std::sync::atomic::Ordering::SeqCst);
        *self.slot.lock().unwrap() = Some(value.to_vec());
        Ok(())
    }

    fn get_from(
        &self,
        _name: &str,
        _ttl_seconds: i32,
        _key: &[u8],
    ) -> Result<Option<Vec<u8>>, CacheError> {
        Ok(self.slot.lock().unwrap().clone())
    }

    fn drop_named(&self, _name: &str) -> Result<(), CacheError> {
        Err(CacheError::Engine("no columns here".to_string()))
    }
}

/// A backend that fails at everything, each time with a kind of its own choosing.
struct Broken {}

impl CacheStorage for Broken {
    fn insert_into(
        &self,
        _name: &str,
        _ttl_seconds: i32,
        _key: &[u8],
        _value: &[u8],
    ) -> Result<(), CacheError> {
        Err(CacheError::Put("disk full".to_string()))
    }

    fn get_from(
        &self,
        _name: &str,
        _ttl_seconds: i32,
        _key: &[u8],
    ) -> Result<Option<Vec<u8>>, CacheError> {
        Err(CacheError::Get("gone".to_string()))
    }

    fn drop_named(&self, _name: &str) -> Result<(), CacheError> {
        Err(CacheError::Put("cannot drop".to_string()))
    }
}

#[test]
fn test_default_engine() {
    let engine = Engine::default();

    assert!(engine
        .try_insert(&COLUMN, String::new().as_bytes(), &100i32, encode)
        .is_ok());
    assert!(engine
        .try_get::<i32, _>(&COLUMN, "".as_bytes(), decode)
        .is_ok());
    assert!(engine.try_drop_column(&COLUMN).is_ok());
}

#[test]
fn discard_engine_never_observes_an_insert() {
    let engine = Engine::new(NoopEngine::build(String::new(), None));
    let key = "your_key";

    assert!(engine
        .try_insert(&COLUMN, key.as_bytes(), &100i32, encode)
        .is_ok());
    let cached = engine
        .try_get::<i32, _>(&COLUMN, key.as_bytes(), decode)
        .unwrap();
    assert!(cached.is_none());
}

#[test]
fn engine_accepts_an_erased_backend() {
    let storage: Box<dyn CacheStorage> = NoopEngine::build(String::new(), None);
    let engine: Engine = Engine::new(storage);

    assert!(engine
        .try_insert(&COLUMN, b"k", &7u8, encode)
        .is_ok());
    assert_eq!(
        engine.try_get::<u8, _>(&COLUMN, b"k", decode).unwrap(),
        None
    );
}

#[test]
fn engine_round_trips_a_value_through_the_backend() {
    let engine = Engine::new(OneSlot::holding(None));
    let value = ("alice".to_string(), 42u64);

    assert!(engine.try_insert(&COLUMN, b"u1", &value, encode).is_ok());
    let back = engine
        .try_get::<(String, u64), _>(&COLUMN, b"u1", decode)
        .unwrap();
    assert_eq!(back, Some(value));
}

#[test]
fn engine_hands_the_encoded_bytes_to_the_backend() {
    let storage = OneSlot::holding(None);
    let engine = Engine::new(storage);

    assert!(engine.try_insert(&COLUMN, b"k", &5u64, encode).is_ok());
    let raw = engine
        .try_get::<Vec<u8>, _>(&COLUMN, b"k", |bytes| Ok(bytes))
        .unwrap();
    assert_eq!(raw, Some(vec![5u8]));
}

#[test]
fn encode_failure_is_reported_and_storage_untouched() {
    let engine = Engine::new(OneSlot::holding(Some(vec![9])));

    let outcome = engine.try_insert(&COLUMN, b"k", &1u8, |_value: &u8| {
        Err("cannot encode".to_string())
    });
    assert!(matches!(outcome, Err(CacheError::Encode(ref reason)) if reason == "cannot encode"));
    let raw = engine
        .try_get::<Vec<u8>, _>(&COLUMN, b"k", |bytes| Ok(bytes))
        .unwrap();
    assert_eq!(raw, Some(vec![9u8]));
}

#[test]
fn wrong_type_is_a_decode_error() {
    let engine = Engine::new(OneSlot::holding(None));

    assert!(engine.try_insert(&COLUMN, b"k", &100i32, encode).is_ok());
    let outcome = engine.try_get::<String, _>(&COLUMN, b"k", decode);
    assert!(matches!(outcome, Err(CacheError::Decode(_))));
}

#[test]
fn backend_failures_pass_through_the_engine() {
    let engine = Engine::new(Box::new(Broken {}));

    let written = engine.try_insert(&COLUMN, b"k", &1u8, encode);
    assert!(matches!(written, Err(CacheError::Put(ref reason)) if reason == "disk full"));
    let read = engine.try_get::<u8, _>(&COLUMN, b"k", decode);
    assert!(matches!(read, Err(CacheError::Get(ref reason)) if reason == "gone"));

    let engine = Engine::new(OneSlot::holding(None));
    let dropped = engine.try_drop_column(&COLUMN);
    assert!(matches!(dropped, Err(CacheError::Engine(ref reason)) if reason == "no columns here"));
}

#[test]
fn a_failed_drop_is_always_an_engine_error() {
    let engine = Engine::new(Box::new(Broken {}));
    let dropped = engine.try_drop_column(&COLUMN);
    assert!(matches!(dropped, Err(CacheError::Engine(ref reason)) if reason == "cannot drop"));
}

/// A backend that answers with what it was asked: the name and the time to
/// live come back as the context of an error.
struct Echo {}

impl CacheStorage for Echo {
    fn insert_into(
        &self,
        name: &str,
        ttl_seconds: i32,
        key: &[u8],
        value: &[u8],
    ) -> Result<(), CacheError> {
        Err(CacheError::Put(format!(
            "{name}/{ttl_seconds}/{key:?}/{value:?}"
        )))
    }

    fn get_from(
        &self,
        name: &str,
        ttl_seconds: i32,
        key: &[u8],
    ) -> Result<Option<Vec<u8>>, CacheError> {
        Err(CacheError::Get(format!("{name}/{ttl_seconds}/{key:?}")))
    }

    fn drop_named(&self, name: &str) -> Result<(), CacheError> {
        Err(CacheError::Engine(name.to_string()))
    }
}

#[test]
fn the_backend_is_asked_with_what_the_column_reports() {
    let engine = Engine::new(Box::new(Echo {}));

    let written = engine.try_insert(&COLUMN, b"k", &5u64, encode);
    assert!(matches!(written, Err(CacheError::Put(ref asked)) if asked == "test_column/1/[107]/[5]"));
    let read = engine.try_get::<u8, _>(&COLUMN, b"k", decode);
    assert!(matches!(read, Err(CacheError::Get(ref asked)) if asked == "test_column/1/[107]"));
    let dropped = engine.try_drop_column(&COLUMN);
    assert!(matches!(dropped, Err(CacheError::Engine(ref asked)) if asked == "test_column"));

    let echo = Echo {};
    assert!(matches!(
        echo.try_insert(&COLUMN, b"k", b"v"),
        Err(CacheError::Put(ref asked)) if asked == "test_column/1/[107]/[118]"
    ));
    assert!(matches!(
        echo.try_get(&COLUMN, b"k"),
        Err(CacheError::Get(ref asked)) if asked == "test_column/1/[107]"
    ));
    assert!(matches!(
        echo.try_drop_column(&COLUMN),
        Err(CacheError::Engine(ref asked)) if asked == "test_column"
    ));
}
