use omega_cache::column::ttl_duration;
use omega_cache::noop_engine::NoopEngine;
use omega_cache::{CacheStorage, Column, ColumnDefinition};

#[test]
fn a_column_reports_what_it_was_made_with() {
    let column = Column {
        name: "sessions".to_string(),
        ttl_seconds: 30,
    };
    assert_eq!(column.name(), "sessions");
    assert_eq!(column.get_ttl_in_seconds(), 30);
    assert_eq!(column.name(), "sessions");

    let odd = Column {
        name: String::new(),
        ttl_seconds: i32::MIN,
    };
    assert_eq!(odd.name(), "");
    assert_eq!(odd.get_ttl_in_seconds(), i32::MIN);
}

#[test]
fn a_column_goes_where_a_column_definition_is_asked_for() {
    let column = Column {
        name: "sessions".to_string(),
        ttl_seconds: 30,
    };
    let noop = NoopEngine::default();
    assert!(noop.try_insert(&column, b"k", b"v").is_ok());
    assert_eq!(noop.try_get(&column, b"k").unwrap(), None);
    assert!(noop.try_drop_column(&column).is_ok());
}

#[test]
fn a_ttl_is_a_duration_unless_it_is_negative() {
    assert_eq!(ttl_duration(0), Ok(0));
    assert_eq!(ttl_duration(1), Ok(1));
    assert_eq!(ttl_duration(i32::MAX), Ok(2147483647));
    assert_eq!(
        ttl_duration(-1),
        Err("out of range integral type conversion attempted".to_string())
    );
    assert!(ttl_duration(i32::MIN).is_err());
}
