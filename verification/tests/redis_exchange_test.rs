use omega_cache::redis_engine::{Action, Event, Exchange, Request};
use omega_cache::CacheError;
use std::collections::BTreeMap;

/// A stand-in for the remote store: keys with their values and seconds to
/// live, a switch for the connection, and a key whose removal fails.
struct FakeStore {
    entries: BTreeMap<Vec<u8>, (Vec<u8>, u64)>,
    reachable: bool,
    stuck: Option<Vec<u8>>,
    commands: Vec<String>,
}

/// The prefix that a pattern of an escaped name and a closing star stands
/// for: the star goes, and each backslash gives way to what follows it.
fn literal_prefix(pattern: &str) -> Vec<u8> {
    let body = pattern.strip_suffix('*').expect("the pattern ends with a star");
    let mut prefix = String::new();
    let mut escaped = false;
    for c in body.chars() {
        if escaped {
            prefix.push(c);
            escaped = false;
        } else if c == '\\' {
            escaped = true;
        } else {
            assert!(!matches!(c, '*' | '?' | '[' | ']'), "a sign stands bare in {pattern}");
            prefix.push(c);
        }
    }
    assert!(!escaped);
    prefix.into_bytes()
}

impl FakeStore {
    fn new() -> FakeStore {
        FakeStore {
            entries: BTreeMap::new(),
            reachable: true,
            stuck: None,
            commands: Vec::new(),
        }
    }

    fn perform(&mut self, action: Action) -> Result<Event, Result<Option<Vec<u8>>, CacheError>> {
        match action {
            Action::Connect => {
                self.commands.push("connect".to_string());
                if self.reachable {
                    Ok(Event::Connected)
                } else {
                    Ok(Event::Failed("pool timed out".to_string()))
                }
            }
            Action::Store {
                key,
                value,
                seconds,
            } => {
                self.commands.push("set".to_string());
                self.entries.insert(key, (value, seconds));
                Ok(Event::Done)
            }
            Action::Fetch { key } => {
                self.commands.push("get".to_string());
                let found = self.entries.get(&key).map(|entry| entry.0.clone());
                Ok(Event::Bytes(found.unwrap_or_default()))
            }
            Action::Scan { pattern } => {
                self.commands.push("scan".to_string());
                let prefix = literal_prefix(&pattern);
                let keys = self
                    .entries
                    .keys()
                    .filter(|key| key.starts_with(&prefix))
                    .cloned()
                    .collect();
                Ok(Event::Keys(keys))
            }
            Action::Unlink { key } => {
                self.commands.push("unlink".to_string());
                if self.stuck.as_ref() == Some(&key) {
                    Ok(Event::Failed("unlink refused".to_string()))
                } else {
                    self.entries.remove(&key);
                    Ok(Event::Done)
                }
            }
            Action::Return(answer) => Err(answer),
        }
    }

    fn run(&mut self, request: Request) -> Result<Option<Vec<u8>>, CacheError> {
        let (mut state, mut action) = Exchange::begin(request);
        loop {
            let event = match self.perform(action) {
                Ok(event) => event,
                Err(answer) => {
                    assert!(state.is_closed());
                    return answer;
                }
            };
            let then = state.step(event);
            state = then.0;
            action = then.1;
        }
    }

    fn insert(&mut self, name: &str, ttl: i32, key: &[u8], value: &[u8]) -> Result<Option<Vec<u8>>, CacheError> {
        self.run(Request::Insert {
            name: name.to_string(),
            ttl_seconds: ttl,
            key: key.to_vec(),
            value: value.to_vec(),
        })
    }

    fn get(&mut self, name: &str, key: &[u8]) -> Result<Option<Vec<u8>>, CacheError> {
        self.run(Request::Get {
            name: name.to_string(),
            key: key.to_vec(),
        })
    }

    fn drop_column(&mut self, name: &str) -> Result<Option<Vec<u8>>, CacheError> {
        self.run(Request::Drop {
            name: name.to_string(),
        })
    }
}

#[test]
fn exchange_begins_by_connecting() {
    let (state, action) = Exchange::begin(Request::Drop {
        name: "c".to_string(),
    });
    assert!(matches!(action, Action::Connect));
    assert!(!state.is_closed());
    assert!(matches!(state, Exchange::Connecting(Request::Drop { ref name }) if name == "c"));
}

#[test]
fn insert_sets_the_physical_key_with_the_ttl() {
    let mut store = FakeStore::new();
    assert_eq!(store.insert("test_column", 1, b"test_key", b"data").unwrap(), None);
    assert_eq!(
        store.entries.get(&b"test_column:test_key".to_vec()),
        Some(&(b"data".to_vec(), 1u64))
    );
    assert_eq!(store.commands, vec!["connect", "set"]);
}

#[test]
fn get_reads_what_insert_set() {
    let mut store = FakeStore::new();
    store.insert("test_column", 1, b"test_key", b"data").unwrap();
    assert_eq!(
        store.get("test_column", b"test_key").unwrap(),
        Some(b"data".to_vec())
    );
    assert_eq!(store.get("test_column", b"other").unwrap(), None);
    assert_eq!(store.get("other_column", b"test_key").unwrap(), None);
}

#[test]
fn an_entry_set_to_no_bytes_reads_as_absent() {
    let mut store = FakeStore::new();
    store.insert("c", 5, b"k", b"").unwrap();
    assert_eq!(store.entries.len(), 1);
    assert_eq!(store.get("c", b"k").unwrap(), None);
}

#[test]
fn negative_ttl_on_insert_is_a_put_error_and_nothing_is_sent() {
    let mut store = FakeStore::new();
    let outcome = store.insert("c", -1, b"k", b"v");
    assert!(matches!(outcome, Err(CacheError::Put(_))));
    assert!(store.entries.is_empty());
    assert_eq!(store.commands, vec!["connect"]);
}

#[test]
fn no_connection_is_an_engine_error_for_every_request() {
    let mut store = FakeStore::new();
    store.reachable = false;
    assert!(
        matches!(store.insert("c", 1, b"k", b"v"), Err(CacheError::Engine(ref r)) if r == "pool timed out")
    );
    assert!(matches!(store.insert("c", -1, b"k", b"v"), Err(CacheError::Engine(_))));
    assert!(matches!(store.get("c", b"k"), Err(CacheError::Engine(_))));
    assert!(matches!(store.drop_column("c"), Err(CacheError::Engine(_))));
    assert_eq!(store.commands, vec!["connect"; 4]);
}

#[test]
fn drop_removes_the_column_and_leaves_the_others() {
    let mut store = FakeStore::new();
    store.insert("A", 10, b"k", b"in a").unwrap();
    store.insert("A", 10, b"l", b"also in a").unwrap();
    store.insert("B", 10, b"k", b"in b").unwrap();

    assert_eq!(store.drop_column("A").unwrap(), None);

    assert_eq!(store.get("A", b"k").unwrap(), None);
    assert_eq!(store.get("A", b"l").unwrap(), None);
    assert_eq!(store.get("B", b"k").unwrap(), Some(b"in b".to_vec()));
}

#[test]
fn drop_of_an_empty_column_sends_no_removal() {
    let mut store = FakeStore::new();
    store.insert("B", 10, b"k", b"v").unwrap();
    store.commands.clear();
    assert_eq!(store.drop_column("A").unwrap(), None);
    assert_eq!(store.commands, vec!["connect", "scan"]);
}

#[test]
fn drop_stops_at_the_first_removal_that_fails() {
    let mut store = FakeStore::new();
    store.insert("A", 10, b"1", b"v").unwrap();
    store.insert("A", 10, b"2", b"v").unwrap();
    store.insert("A", 10, b"3", b"v").unwrap();
    store.stuck = Some(b"A:2".to_vec());
    store.commands.clear();

    let outcome = store.drop_column("A");
    assert!(matches!(outcome, Err(CacheError::Engine(ref r)) if r == "unlink refused"));
    assert_eq!(store.commands, vec!["connect", "scan", "unlink", "unlink"]);
    assert!(!store.entries.contains_key(&b"A:1".to_vec()));
    assert!(store.entries.contains_key(&b"A:2".to_vec()));
    assert!(store.entries.contains_key(&b"A:3".to_vec()));
}

#[test]
fn failures_of_commands_keep_their_kind_and_reason() {
    let (state, _) = Exchange::begin(Request::Insert {
        name: "c".to_string(),
        ttl_seconds: 3,
        key: b"k".to_vec(),
        value: b"v".to_vec(),
    });
    let (state, action) = state.step(Event::Connected);
    assert!(matches!(action, Action::Store { ref key, ref value, seconds: 3 } if key == b"c:k" && value == b"v"));
    let (state, action) = state.step(Event::Failed("read only".to_string()));
    assert!(state.is_closed());
    assert!(matches!(action, Action::Return(Err(CacheError::Put(ref r))) if r == "read only"));

    let (state, _) = Exchange::begin(Request::Get {
        name: "c".to_string(),
        key: b"k".to_vec(),
    });
    let (state, action) = state.step(Event::Connected);
    assert!(matches!(action, Action::Fetch { ref key } if key == b"c:k"));
    let (_, action) = state.step(Event::Failed("broken pipe".to_string()));
    assert!(matches!(action, Action::Return(Err(CacheError::Get(ref r))) if r == "broken pipe"));

    let (state, _) = Exchange::begin(Request::Drop {
        name: "c".to_string(),
    });
    let (state, action) = state.step(Event::Connected);
    assert!(matches!(action, Action::Scan { ref pattern } if pattern == "c:*"));
    let (_, action) = state.step(Event::Failed("no scan".to_string()));
    assert!(matches!(action, Action::Return(Err(CacheError::Engine(ref r))) if r == "no scan"));
}

#[test]
fn an_event_out_of_turn_ends_the_exchange() {
    let (state, _) = Exchange::begin(Request::Get {
        name: "c".to_string(),
        key: b"k".to_vec(),
    });
    let (state, action) = state.step(Event::Bytes(vec![1]));
    assert!(state.is_closed());
    assert!(matches!(action, Action::Return(Err(CacheError::Engine(_)))));

    let (state, action) = state.step(Event::Done);
    assert!(state.is_closed());
    assert!(matches!(action, Action::Return(Err(CacheError::Engine(_)))));

    let (state, action) = Exchange::Writing.step(Event::Keys(vec![]));
    assert!(state.is_closed());
    assert!(matches!(action, Action::Return(Err(CacheError::Engine(_)))));

    let (state, action) = Exchange::Scanning.step(Event::Connected);
    assert!(state.is_closed());
    assert!(matches!(action, Action::Return(Err(CacheError::Engine(_)))));
}

#[test]
fn a_sweep_walks_the_keys_in_the_order_of_the_scan() {
    let keys = vec![b"c:b".to_vec(), b"c:a".to_vec()];
    let (state, action) = Exchange::Scanning.step(Event::Keys(keys));
    assert!(matches!(action, Action::Unlink { ref key } if key == b"c:b"));
    let (state, action) = state.step(Event::Done);
    assert!(matches!(action, Action::Unlink { ref key } if key == b"c:a"));
    assert!(matches!(state, Exchange::Sweeping { at: 1, .. }));
    let (state, action) = state.step(Event::Done);
    assert!(state.is_closed());
    assert!(matches!(action, Action::Return(Ok(None))));

    let past_the_end = Exchange::Sweeping {
        keys: vec![b"c:a".to_vec()],
        at: usize::MAX,
    };
    let (state, action) = past_the_end.step(Event::Done);
    assert!(state.is_closed());
    assert!(matches!(action, Action::Return(Ok(None))));
}

#[test]
fn drop_of_a_column_named_with_signs_leaves_the_others() {
    let mut store = FakeStore::new();
    store.insert("A*", 10, b"k", b"starred").unwrap();
    store.insert("AB", 10, b"k", b"plain").unwrap();
    store.insert("A", 10, b"k", b"short").unwrap();
    store.insert("[A]", 10, b"k", b"bracketed").unwrap();

    assert_eq!(store.drop_column("A*").unwrap(), None);
    assert_eq!(store.get("A*", b"k").unwrap(), None);
    assert_eq!(store.get("AB", b"k").unwrap(), Some(b"plain".to_vec()));
    assert_eq!(store.get("A", b"k").unwrap(), Some(b"short".to_vec()));

    assert_eq!(store.drop_column("[A]").unwrap(), None);
    assert_eq!(store.get("[A]", b"k").unwrap(), None);
    assert_eq!(store.get("A", b"k").unwrap(), Some(b"short".to_vec()));

    let (state, _) = Exchange::begin(Request::Drop {
        name: "A?".to_string(),
    });
    let (_, action) = state.step(Event::Connected);
    assert!(matches!(action, Action::Scan { ref pattern } if pattern == "A\\?:*"));
}
