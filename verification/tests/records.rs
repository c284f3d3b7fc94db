use quill::records::{
    book_cover_file, book_delete_statements, add_vocab_outcome, new_vocab_word, next_sort_order, reorder_sort_orders, translations_query,
};
use quill::query::SqlValue;

#[test]
fn new_collections_go_last() {
    assert_eq!(next_sort_order(None), 0);
    assert_eq!(next_sort_order(Some(-1)), 0);
    assert_eq!(next_sort_order(Some(4)), 5);
}

#[test]
fn reorder_uses_positions() {
    let ids = vec!["c".to_string(), "a".to_string(), "b".to_string()];
    let orders = reorder_sort_orders(&ids);
    assert_eq!(orders, vec![("c".to_string(), 0), ("a".to_string(), 1), ("b".to_string(), 2)]);
}

#[test]
fn saving_a_known_word_returns_the_stored_record() {
    let fresh = new_vocab_word("v2".into(), "b1".into(), "Whale".into(), "def".into(), None, Some("cfi".into()), 100);
    assert_eq!(fresh.mastery, "new");
    assert_eq!(fresh.review_count, 0);
    assert_eq!(fresh.next_review_at, None);
    assert_eq!((fresh.created_at, fresh.updated_at), (100, 100));
    let stored = new_vocab_word("v1".into(), "b1".into(), "whale".into(), "old".into(), None, None, 50);
    let (kept, inserted) = add_vocab_outcome(Some(stored), fresh.clone());
    assert_eq!(kept.id, "v1");
    assert!(!inserted);
    let (added, inserted) = add_vocab_outcome(None, fresh);
    assert_eq!(added.id, "v2");
    assert!(inserted);
}

#[test]
fn translations_listing_scopes_by_book() {
    let all = translations_query(None);
    assert!(all.sql.ends_with("LEFT JOIN books b ON t.book_id = b.id ORDER BY t.created_at DESC"));
    assert!(all.params.is_empty());
    let one = translations_query(Some("b1"));
    assert!(one.sql.ends_with(" WHERE t.book_id = ?1 ORDER BY t.created_at DESC"));
    assert!(matches!(one.params.as_slice(), [SqlValue::Text(b)] if b == "b1"));
}

#[test]
fn deleting_a_book_removes_children_first() {
    let stmts = book_delete_statements();
    assert_eq!(stmts.len(), 9);
    assert!(stmts[0].starts_with("DELETE FROM chat_messages"));
    assert_eq!(stmts[8], "DELETE FROM books WHERE id = ?1");
    assert_eq!(book_cover_file("b1"), "covers/b1.img");
}
