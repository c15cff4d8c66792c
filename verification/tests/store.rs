use std::collections::HashMap;
use std::sync::Mutex;

use dao_copilot::dispatch::{load_conversations, save_conversation, AppState};
use dao_copilot::store::{ConversationRecord, ConversationStore};

fn as_map(records: Vec<ConversationRecord>) -> HashMap<String, String> {
    let count = records.len();
    let map: HashMap<String, String> =
        records.into_iter().map(|record| (record.id, record.content)).collect();
    assert_eq!(map.len(), count, "an identifier was listed twice");
    map
}

fn expect(pairs: &[(&str, &str)]) -> HashMap<String, String> {
    pairs.iter().map(|(id, content)| (id.to_string(), content.to_string())).collect()
}

#[test]
fn new_store_is_empty() {
    assert!(ConversationStore::new().load_all().is_empty());
    assert!(load_conversations(&AppState::new()).is_empty());
    assert!(load_conversations(&AppState::default()).is_empty());
}

#[test]
fn saved_conversation_is_loaded() {
    let mut state = AppState::default();
    assert_eq!(save_conversation(String::from("a"), String::from("x"), &mut state), Ok(()));
    assert_eq!(as_map(load_conversations(&state)), expect(&[("a", "x")]));
}

#[test]
fn second_save_overwrites_the_first() {
    let mut state = AppState::default();
    assert_eq!(save_conversation(String::from("a"), String::from("x"), &mut state), Ok(()));
    assert_eq!(save_conversation(String::from("a"), String::from("y"), &mut state), Ok(()));
    let loaded = load_conversations(&state);
    assert_eq!(loaded.len(), 1);
    assert_eq!(as_map(loaded), expect(&[("a", "y")]));
}

#[test]
fn saves_under_two_identifiers_are_both_kept() {
    let mut first = ConversationStore::new();
    assert_eq!(first.save(String::from("a"), String::from("v1")), Ok(()));
    assert_eq!(first.save(String::from("b"), String::from("v2")), Ok(()));
    let mut second = ConversationStore::new();
    assert_eq!(second.save(String::from("b"), String::from("v2")), Ok(()));
    assert_eq!(second.save(String::from("a"), String::from("v1")), Ok(()));
    let expected = expect(&[("a", "v1"), ("b", "v2")]);
    assert_eq!(as_map(first.load_all()), expected);
    assert_eq!(as_map(second.load_all()), expected);
}

#[test]
fn interleaved_saves_behind_one_lock_are_not_lost() {
    let state = Mutex::new(AppState::default());
    let requests = [("a", "v1"), ("b", "v2"), ("a", "v3"), ("c", "v4"), ("b", "v5")];
    for (id, content) in requests {
        let mut state = state.lock().unwrap();
        assert_eq!(save_conversation(String::from(id), String::from(content), &mut state), Ok(()));
    }
    let state = state.lock().unwrap();
    assert_eq!(
        as_map(load_conversations(&state)),
        expect(&[("a", "v3"), ("b", "v5"), ("c", "v4")])
    );
}

#[test]
fn overwrite_keeps_the_other_records() {
    let mut store = ConversationStore::new();
    store.save(String::from("first"), String::from("1")).unwrap();
    store.save(String::from("second"), String::from("2")).unwrap();
    store.save(String::from("third"), String::from("3")).unwrap();
    store.save(String::from("second"), String::from("two")).unwrap();
    store.save(String::from("first"), String::from("one")).unwrap();
    assert_eq!(
        as_map(store.load_all()),
        expect(&[("first", "one"), ("second", "two"), ("third", "3")])
    );
}

#[test]
fn identifiers_are_compared_to_the_letter() {
    let mut store = ConversationStore::new();
    store.save(String::from("a"), String::from("lower")).unwrap();
    store.save(String::from("A"), String::from("upper")).unwrap();
    store.save(String::from(""), String::from("empty")).unwrap();
    store.save(String::from("a "), String::from("space")).unwrap();
    store.save(String::from("\u{00e4}"), String::from("umlaut")).unwrap();
    store.save(String::from("a\u{0308}"), String::from("combining")).unwrap();
    assert_eq!(
        as_map(store.load_all()),
        expect(&[
            ("a", "lower"),
            ("A", "upper"),
            ("", "empty"),
            ("a ", "space"),
            ("\u{00e4}", "umlaut"),
            ("a\u{0308}", "combining"),
        ])
    );
}

#[test]
fn content_may_be_empty_or_repeated() {
    let mut store = ConversationStore::new();
    store.save(String::from("a"), String::new()).unwrap();
    store.save(String::from("b"), String::new()).unwrap();
    assert_eq!(as_map(store.load_all()), expect(&[("a", ""), ("b", "")]));
    store.save(String::from("a"), String::from("same")).unwrap();
    store.save(String::from("a"), String::from("same")).unwrap();
    assert_eq!(as_map(store.load_all()), expect(&[("a", "same"), ("b", "")]));
}

#[test]
fn snapshot_does_not_follow_later_saves() {
    let mut store = ConversationStore::new();
    store.save(String::from("a"), String::from("x")).unwrap();
    let snapshot = store.load_all();
    store.save(String::from("a"), String::from("y")).unwrap();
    store.save(String::from("b"), String::from("z")).unwrap();
    assert_eq!(as_map(snapshot), expect(&[("a", "x")]));
    assert_eq!(as_map(store.load_all()), expect(&[("a", "y"), ("b", "z")]));
}
