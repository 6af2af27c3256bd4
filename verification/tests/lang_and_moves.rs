use rpbot::lang::{Langs, get_key};
use rpbot::moves::{MoveList, PlayerMove};
use std::cmp::Ordering;

fn loaded() -> Langs {
    let mut langs = Langs::new();
    assert!(langs.load_locale("en-US", r#"{"hello": "Hello", "count": 3, "gone": null}"#));
    assert!(langs.load_locale("fr", r#"{"hello": "Bonjour"}"#));
    langs
}

#[test]
fn key_in_locale() {
    let langs = loaded();
    assert_eq!(get_key(&langs, "fr", "hello"), "Bonjour");
    assert_eq!(get_key(&langs, "en-US", "hello"), "Hello");
    assert_eq!(get_key(&langs, "en-US", "count"), "3");
}

#[test]
fn missing_key_falls_back_to_default() {
    let langs = loaded();
    assert_eq!(get_key(&langs, "fr", "count"), "3");
}

#[test]
fn missing_everywhere_is_not_found() {
    let langs = loaded();
    assert_eq!(get_key(&langs, "fr", "nothing"), "not_found");
    assert_eq!(get_key(&langs, "en-US", "nothing"), "not_found");
    assert_eq!(get_key(&langs, "en-US", "gone"), "not_found");
}

#[test]
fn unknown_locale_reads_default_even_null() {
    let langs = loaded();
    assert_eq!(get_key(&langs, "de", "hello"), "Hello");
    assert_eq!(get_key(&langs, "de", "nothing"), "null");
}

#[test]
fn no_default_locale() {
    let mut langs = Langs::new();
    assert!(langs.load_locale("fr", r#"{"hello": "Bonjour"}"#));
    assert_eq!(get_key(&langs, "de", "hello"), "not_found");
    assert_eq!(get_key(&langs, "fr", "other"), "not_found");
    assert_eq!(get_key(&langs, "fr", "hello"), "Bonjour");
}

#[test]
fn bad_json_is_not_loaded() {
    let mut langs = Langs::new();
    assert!(!langs.load_locale("en-US", "{bad json"));
    assert_eq!(get_key(&langs, "en-US", "hello"), "not_found");
}

#[test]
fn reloading_replaces_locale() {
    let mut langs = loaded();
    assert!(langs.load_locale("fr", r#"{"hello": "Salut"}"#));
    assert_eq!(get_key(&langs, "fr", "hello"), "Salut");
}

#[test]
fn raw_texts_one_per_locale() {
    let mut langs = loaded();
    assert!(langs.load_locale("fr", r#"{"hello": "Salut"}"#));
    let mut texts = langs.raw_texts("hello");
    texts.sort();
    assert_eq!(texts, vec![("en-US".to_string(), "Hello".to_string()), ("fr".to_string(), "Salut".to_string())]);
    let mut missing = langs.raw_texts("count");
    missing.sort();
    assert_eq!(missing, vec![("en-US".to_string(), "3".to_string()), ("fr".to_string(), "null".to_string())]);
    assert!(Langs::new().raw_texts("hello").is_empty());
}

#[test]
fn non_object_document_has_no_keys() {
    let mut langs = Langs::new();
    assert!(langs.load_locale("en-US", "[1, 2]"));
    assert_eq!(get_key(&langs, "en-US", "hello"), "not_found");
}

fn mv(player_id: u64, universe_id: u128, end: u64) -> PlayerMove {
    PlayerMove::new_from_player_doc(player_id, universe_id, end, false)
}

#[test]
fn moves_compare_reversed() {
    let early = mv(1, 1, 10);
    let late = mv(2, 1, 20);
    assert_eq!(early.cmp(&late), Ordering::Greater);
    assert_eq!(late.cmp(&early), Ordering::Less);
    assert_eq!(early.cmp(&mv(3, 1, 10)), Ordering::Equal);
    assert_eq!(late.partial_cmp(&early), Some(Ordering::Less));
}

#[test]
fn earliest_end_first() {
    let mut list = MoveList::new();
    assert!(list.is_empty());
    list.push(mv(1, 7, 50));
    list.push(mv(2, 7, 20));
    list.push(mv(3, 7, 35));
    assert_eq!(list.len(), 3);
    assert_eq!(list.peek().unwrap().player_id, 2);
    assert_eq!(list.pop().unwrap().player_id, 2);
    assert_eq!(list.pop().unwrap().player_id, 3);
    assert_eq!(list.pop().unwrap().player_id, 1);
    assert!(list.pop().is_none());
    assert!(list.peek().is_none());
}

#[test]
fn removing_a_player_keeps_others() {
    let mut list = MoveList::new();
    list.push(mv(1, 7, 50));
    list.push(mv(1, 8, 10));
    list.push(mv(2, 7, 30));
    list.remove_player(1, 7);
    let left: Vec<(u64, u128)> = list.moves().iter().map(|m| (m.player_id, m.universe_id)).collect();
    assert_eq!(left, vec![(1, 8), (2, 7)]);
}

#[test]
fn due_moves_are_taken_out() {
    let mut list = MoveList::new();
    list.push(mv(1, 7, 50));
    list.push(mv(2, 7, 20));
    list.push(mv(3, 7, 30));
    let due = list.pop_due(30);
    assert_eq!(due.iter().map(|m| m.player_id).collect::<Vec<_>>(), vec![2]);
    let rest: Vec<u64> = list.moves().iter().map(|m| m.step_end_timestamp).collect();
    assert_eq!(rest, vec![30, 50]);
    assert!(list.pop_due(0).is_empty());
    assert_eq!(list.pop_due(u64::MAX).len(), 2);
    assert!(list.is_empty());
}

#[test]
fn push_then_remove_leaves_before() {
    let mut list = MoveList::new();
    list.push(mv(2, 7, 30));
    let before = list.moves();
    list.push(mv(5, 9, 10));
    list.remove_player(5, 9);
    assert_eq!(list.moves(), before);
}
