use posthog_capture::event::Event;
use posthog_capture::properties::Properties;

#[test]
fn later_writes_win() {
    let mut event = Event::new("e".to_string(), "d".to_string());
    event.insert_prop("key1".to_string(), "value1".to_string());
    event.insert_prop_many(vec![
        ("key1".to_string(), "value1b".to_string()),
        ("key2".to_string(), "value2".to_string()),
    ]);
    let p = event.get_properties();
    assert_eq!(p.get("key1"), Some("value1b".to_string()));
    assert_eq!(p.get("key2"), Some("value2".to_string()));
    assert_eq!(p.pairs().len(), 2);
}

#[test]
fn duplicate_keys_in_one_bulk_insert() {
    let mut event = Event::new("e".to_string(), "d".to_string());
    event.insert_prop_many(vec![
        ("k".to_string(), "first".to_string()),
        ("other".to_string(), "x".to_string()),
        ("k".to_string(), "second".to_string()),
    ]);
    let p = event.get_properties();
    assert_eq!(p.get("k"), Some("second".to_string()));
    assert_eq!(p.get("other"), Some("x".to_string()));
    assert_eq!(p.pairs().len(), 2);
}

#[test]
fn untouched_keys_are_kept() {
    let mut event = Event::new("e".to_string(), "d".to_string());
    event.insert_prop("keep".to_string(), "v".to_string());
    event.insert_prop_many(vec![("new".to_string(), "w".to_string())]);
    assert_eq!(event.get_properties().get("keep"), Some("v".to_string()));
    assert_eq!(event.get_properties().get("missing"), None);
}

#[test]
fn new_properties_are_empty() {
    let p = Properties::new("subject".to_string());
    assert_eq!(p.distinct_id_str(), "subject");
    assert!(p.pairs().is_empty());
    assert_eq!(p.get("anything"), None);
}

#[test]
fn insert_overwrites_single_key() {
    let mut p = Properties::new("s".to_string());
    p.insert("a".to_string(), "1".to_string());
    p.insert("a".to_string(), "2".to_string());
    assert_eq!(p.get("a"), Some("2".to_string()));
    assert_eq!(p.pairs().len(), 1);
}

#[test]
fn event_parts_are_kept() {
    let mut event = Event::new("name".to_string(), "who".to_string());
    event.set_timestamp(posthog_capture::event::Timestamp::new(-5, 7).unwrap());
    event.set_timestamp(posthog_capture::event::Timestamp::new(10, 0).unwrap());
    let (name, props, ts) = event.into_parts();
    assert_eq!(name, "name");
    assert_eq!(props.distinct_id_str(), "who");
    assert_eq!(ts, posthog_capture::event::Timestamp::new(10, 0));
}
