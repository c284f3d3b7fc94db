//! The listing plans run against SQLite with the tables they read.

use quill::chats::{chat_page_plan, decode_chat_cursor_bytes, paginate_chats, Chat, ChatCursor};
use quill::library::{book_page_plan, paginate_books, Book};
use quill::query::{SqlQuery, SqlValue};
use rusqlite::Connection;

const SCHEMA: &str = "
CREATE TABLE books (id TEXT PRIMARY KEY, title TEXT NOT NULL, author TEXT NOT NULL, description TEXT,
  cover_path TEXT, file_path TEXT NOT NULL, format TEXT NOT NULL DEFAULT 'epub', genre TEXT, pages INTEGER,
  status TEXT NOT NULL DEFAULT 'unread', progress INTEGER NOT NULL DEFAULT 0, current_cfi TEXT,
  created_at INTEGER NOT NULL, updated_at INTEGER NOT NULL, cover_data BLOB);
CREATE TABLE collections (id TEXT PRIMARY KEY, name TEXT NOT NULL, sort_order INTEGER NOT NULL DEFAULT 0,
  created_at INTEGER NOT NULL, updated_at INTEGER NOT NULL, updated_by_device TEXT);
CREATE TABLE collection_books (collection_id TEXT NOT NULL, book_id TEXT NOT NULL, created_at INTEGER NOT NULL,
  updated_at INTEGER NOT NULL, updated_by_device TEXT, PRIMARY KEY (collection_id, book_id));
CREATE TABLE chats (id TEXT PRIMARY KEY, book_id TEXT NOT NULL, title TEXT NOT NULL, model TEXT,
  pinned INTEGER NOT NULL DEFAULT 0, metadata TEXT, created_at INTEGER NOT NULL, updated_at INTEGER NOT NULL);
CREATE TABLE chat_messages (id TEXT PRIMARY KEY, chat_id TEXT NOT NULL, role TEXT NOT NULL, content TEXT NOT NULL,
  created_at INTEGER NOT NULL, updated_at INTEGER NOT NULL);
";

fn setup() -> Connection {
    let conn = Connection::open_in_memory().unwrap();
    conn.execute_batch(SCHEMA).unwrap();
    conn
}

fn to_params(q: &SqlQuery) -> Vec<rusqlite::types::Value> {
    q.params
        .iter()
        .map(|p| match p {
            SqlValue::Text(s) => rusqlite::types::Value::Text(s.clone()),
            SqlValue::Int(i) => rusqlite::types::Value::Integer(*i),
        })
        .collect()
}

struct BookPage {
    books: Vec<Book>,
    next_cursor: Option<String>,
    total: usize,
}

fn query_books(
    conn: &Connection,
    filter: Option<&str>,
    search: Option<&str>,
    collection_id: Option<&str>,
    cursor: Option<&str>,
    limit: usize,
) -> BookPage {
    let (count, page) = book_page_plan(filter, search, collection_id, cursor, limit);
    let total: i64 = conn
        .query_row(&count.sql, rusqlite::params_from_iter(to_params(&count)), |r| r.get(0))
        .unwrap();
    let mut stmt = conn.prepare(&page.sql).unwrap();
    let rows = stmt
        .query_map(rusqlite::params_from_iter(to_params(&page)), |row| {
            Ok(Book {
                id: row.get(0)?,
                title: row.get(1)?,
                author: row.get(2)?,
                description: row.get(3)?,
                cover_path: row.get(4)?,
                file_path: row.get(5)?,
                format: row.get(6)?,
                genre: row.get(7)?,
                pages: row.get(8)?,
                status: row.get(9)?,
                progress: row.get(10)?,
                current_cfi: row.get(11)?,
                created_at: row.get(12)?,
                updated_at: row.get(13)?,
                available: true,
                cover_data: None,
            })
        })
        .unwrap()
        .collect::<Result<Vec<_>, _>>()
        .unwrap();
    let (books, next_cursor) = paginate_books(rows, limit);
    BookPage { books, next_cursor, total: total as usize }
}

fn insert_book_with_ts(conn: &Connection, id: &str, status: &str, updated_at: i64) {
    conn.execute(
        "INSERT INTO books (id, title, author, file_path, format, status, progress, created_at, updated_at)
         VALUES (?1, ?2, 'Author', 'books/test.epub', 'epub', ?3, 0, ?4, ?4)",
        (id, format!("Book {id}"), status, updated_at,),
    )
    .unwrap();
}

fn add_to_collection(conn: &Connection, collection: &str, books: &[&str]) {
    conn.execute(
        "INSERT INTO collections (id, name, sort_order, created_at, updated_at, updated_by_device)
         VALUES (?1, 'Shelf', 0, 1, 1, 'dev')",
        (collection,),
    )
    .unwrap();
    for b in books {
        conn.execute(
            "INSERT INTO collection_books (collection_id, book_id, created_at, updated_at, updated_by_device)
             VALUES (?1, ?2, 1, 1, 'dev')",
            (collection, b,),
        )
        .unwrap();
    }
}

#[test]
fn pagination_returns_first_page() {
    let conn = setup();
    for i in 0..5 {
        insert_book_with_ts(&conn, &format!("b{i}"), "reading", 1000 + i);
    }
    let page = query_books(&conn, None, None, None, None, 3);
    assert_eq!(page.books.len(), 3);
    assert_eq!(page.total, 5);
    assert!(page.next_cursor.is_some());
}

#[test]
fn pagination_cursor_returns_next_page() {
    let conn = setup();
    for i in 0..5 {
        insert_book_with_ts(&conn, &format!("b{i}"), "reading", 1000 + i);
    }
    let page1 = query_books(&conn, None, None, None, None, 3);
    let page2 = query_books(&conn, None, None, None, page1.next_cursor.as_deref(), 3);
    assert_eq!(page2.books.len(), 2);
    assert_eq!(page2.total, 5);
    assert!(page2.next_cursor.is_none());
}

#[test]
fn pagination_no_more_pages() {
    let conn = setup();
    for i in 0..3 {
        insert_book_with_ts(&conn, &format!("b{i}"), "reading", 1000 + i);
    }
    let page = query_books(&conn, None, None, None, None, 5);
    assert_eq!(page.books.len(), 3);
    assert!(page.next_cursor.is_none());
}

#[test]
fn pagination_filter_by_status() {
    let conn = setup();
    insert_book_with_ts(&conn, "b1", "reading", 1000);
    insert_book_with_ts(&conn, "b2", "finished", 1001);
    insert_book_with_ts(&conn, "b3", "reading", 1002);
    let page = query_books(&conn, Some("reading"), None, None, None, 10);
    assert_eq!(page.books.len(), 2);
    assert_eq!(page.total, 2);
}

#[test]
fn pagination_search() {
    let conn = setup();
    insert_book_with_ts(&conn, "b1", "reading", 1000);
    insert_book_with_ts(&conn, "b2", "reading", 1001);
    let page = query_books(&conn, None, Some("Book b1"), None, None, 10);
    assert_eq!(page.books.len(), 1);
    assert_eq!(page.books[0].id, "b1");
}

#[test]
fn pagination_collection_filter() {
    let conn = setup();
    insert_book_with_ts(&conn, "b1", "reading", 1000);
    insert_book_with_ts(&conn, "b2", "reading", 1001);
    insert_book_with_ts(&conn, "b3", "reading", 1002);
    add_to_collection(&conn, "c1", &["b1", "b3"]);
    let page = query_books(&conn, None, None, Some("c1"), None, 10);
    assert_eq!(page.books.len(), 2);
    assert_eq!(page.total, 2);
}

#[test]
fn pagination_collection_with_cursor() {
    let conn = setup();
    for i in 0..5 {
        insert_book_with_ts(&conn, &format!("b{i}"), "reading", 1000 + i);
    }
    add_to_collection(&conn, "c1", &["b0", "b1", "b2", "b3", "b4"]);
    let page1 = query_books(&conn, None, None, Some("c1"), None, 3);
    assert_eq!(page1.books.len(), 3);
    assert_eq!(page1.total, 5);
    assert!(page1.next_cursor.is_some());
    let page2 = query_books(&conn, None, None, Some("c1"), page1.next_cursor.as_deref(), 3);
    assert_eq!(page2.books.len(), 2);
    assert!(page2.next_cursor.is_none());
}

struct ChatPage {
    chats: Vec<Chat>,
    next_cursor: Option<String>,
    total: usize,
}

fn decode_cursor(text: &str) -> Option<ChatCursor> {
    let bytes = decode_chat_cursor_bytes(text)?;
    let v: serde_json::Value = serde_json::from_slice(&bytes).ok()?;
    Some(ChatCursor {
        pinned: v.get("pinned")?.as_bool()?,
        updated_at: v.get("updated_at")?.as_i64()?,
        id: v.get("id")?.as_str()?.to_string(),
    })
}

fn query_all_chats(
    conn: &Connection,
    search: Option<&str>,
    book_id: Option<&str>,
    cursor: Option<&str>,
    limit: usize,
) -> ChatPage {
    let (count, page) = chat_page_plan(search, book_id, cursor.and_then(decode_cursor), limit);
    let total: i64 = conn
        .query_row(&count.sql, rusqlite::params_from_iter(to_params(&count)), |r| r.get(0))
        .unwrap();
    let mut stmt = conn.prepare(&page.sql).unwrap();
    let rows = stmt
        .query_map(rusqlite::params_from_iter(to_params(&page)), |row| {
            Ok(Chat {
                id: row.get(0)?,
                book_id: row.get(1)?,
                title: row.get(2)?,
                model: row.get(3)?,
                pinned: row.get(4)?,
                metadata: row.get(5)?,
                created_at: row.get(6)?,
                updated_at: row.get(7)?,
                book_title: row.get(8)?,
                message_count: row.get(9)?,
                last_message: row.get(10)?,
            })
        })
        .unwrap()
        .collect::<Result<Vec<_>, _>>()
        .unwrap();
    let (chats, next_cursor) = paginate_chats(rows, limit);
    ChatPage { chats, next_cursor, total: total as usize }
}

fn chat_setup() -> Connection {
    let conn = setup();
    let t0: i64 = 1704067200000;
    conn.execute(
        "INSERT INTO books (id, title, author, file_path, status, progress, created_at, updated_at)
         VALUES ('book1', 'Test Book', 'Author', 'books/test.epub', 'reading', 0, ?1, ?1)",
        (t0,),
    )
    .unwrap();
    conn.execute(
        "INSERT INTO books (id, title, author, file_path, status, progress, created_at, updated_at)
         VALUES ('book2', 'Second Book', 'Author 2', 'books/test2.epub', 'reading', 0, ?1, ?1)",
        (t0,),
    )
    .unwrap();
    conn
}

fn insert_chat_at(conn: &Connection, id: &str, book_id: &str, title: &str, pinned: bool, updated_at: i64) {
    conn.execute(
        "INSERT INTO chats (id, book_id, title, pinned, created_at, updated_at) VALUES (?1, ?2, ?3, ?4, ?5, ?5)",
        (id, book_id, title, pinned, updated_at,),
    )
    .unwrap();
}

fn insert_msg(conn: &Connection, id: &str, chat_id: &str, role: &str, content: &str, at: i64) {
    conn.execute(
        "INSERT INTO chat_messages (id, chat_id, role, content, created_at, updated_at) VALUES (?1, ?2, ?3, ?4, ?5, ?5)",
        (id, chat_id, role, content, at,),
    )
    .unwrap();
}

fn ids(chats: &[Chat]) -> Vec<&str> {
    chats.iter().map(|c| c.id.as_str()).collect()
}

#[test]
fn test_list_all_chats_with_extras() {
    let conn = chat_setup();
    insert_chat_at(&conn, "c1", "book1", "Chat A", false, 10);
    insert_msg(&conn, "m1", "c1", "user", "Hello", 1);
    insert_msg(&conn, "m2", "c1", "assistant", "Hi there!", 2);
    let page = query_all_chats(&conn, None, None, None, 20);
    assert_eq!(page.chats.len(), 1);
    assert_eq!(page.chats[0].book_title, Some("Test Book".to_string()));
    assert_eq!(page.chats[0].message_count, Some(2));
    assert_eq!(page.chats[0].last_message, Some("Hi there!".to_string()));
}

#[test]
fn test_list_all_chats_page_boundaries_and_pinned_order() {
    let conn = chat_setup();
    insert_chat_at(&conn, "p2", "book1", "Pinned older", true, 200);
    insert_chat_at(&conn, "u1", "book1", "Unpinned newer", false, 500);
    insert_chat_at(&conn, "p1", "book1", "Pinned newer", true, 400);
    insert_chat_at(&conn, "u2", "book1", "Unpinned older", false, 100);
    let first = query_all_chats(&conn, None, None, None, 2);
    assert_eq!(first.total, 4);
    assert_eq!(ids(&first.chats), ["p1", "p2"]);
    let second = query_all_chats(&conn, None, None, first.next_cursor.as_deref(), 2);
    assert_eq!(second.total, 4);
    assert_eq!(ids(&second.chats), ["u1", "u2"]);
    assert!(second.next_cursor.is_none());
}

#[test]
fn test_list_all_chats_uses_id_tiebreaker_across_pages() {
    let conn = chat_setup();
    insert_chat_at(&conn, "c3", "book1", "Third", false, 100);
    insert_chat_at(&conn, "c1", "book1", "First", false, 100);
    insert_chat_at(&conn, "c2", "book1", "Second", false, 100);
    let first = query_all_chats(&conn, None, None, None, 2);
    let second = query_all_chats(&conn, None, None, first.next_cursor.as_deref(), 2);
    assert_eq!(ids(&first.chats), ["c1", "c2"]);
    assert_eq!(second.chats[0].id, "c3");
}

#[test]
fn test_list_all_chats_walks_large_history_without_gaps() {
    let conn = chat_setup();
    for index in 0..45 {
        let id = format!("c{index:02}");
        insert_chat_at(&conn, &id, "book1", &id, false, index);
    }
    let mut cursor: Option<String> = None;
    let mut all: Vec<String> = Vec::new();
    loop {
        let page = query_all_chats(&conn, None, None, cursor.as_deref(), 20);
        all.extend(page.chats.into_iter().map(|chat| chat.id));
        match page.next_cursor {
            Some(next) => cursor = Some(next),
            None => break,
        }
    }
    assert_eq!(all.len(), 45);
    assert_eq!(all.iter().collect::<std::collections::HashSet<_>>().len(), 45);
    assert_eq!(all.first().unwrap(), "c44");
    assert_eq!(all.last().unwrap(), "c00");
}

#[test]
fn test_list_all_chats_search_matches_across_page_boundary() {
    let conn = chat_setup();
    insert_chat_at(&conn, "c4", "book1", "Needle newest", false, 400);
    insert_chat_at(&conn, "c3", "book1", "Unrelated", false, 300);
    insert_chat_at(&conn, "c2", "book2", "Another unrelated", false, 200);
    insert_chat_at(&conn, "c1", "book2", "Old NEEDLE result", false, 100);
    insert_msg(&conn, "m1", "c3", "user", "needle only appears in this message", 1);
    let first = query_all_chats(&conn, Some("needle"), None, None, 1);
    assert_eq!(first.total, 2);
    assert_eq!(first.chats[0].id, "c4");
    let second = query_all_chats(&conn, Some("needle"), None, first.next_cursor.as_deref(), 1);
    assert_eq!(second.chats.len(), 1);
    assert_eq!(second.chats[0].id, "c1");
}

#[test]
fn test_list_all_chats_search_treats_like_metacharacters_literally() {
    let conn = chat_setup();
    insert_chat_at(&conn, "percent", "book1", "100% useful", false, 500);
    insert_chat_at(&conn, "plain-percent", "book1", "100 percent useful", false, 400);
    insert_chat_at(&conn, "underscore", "book1", "Chat_1", false, 300);
    insert_chat_at(&conn, "plain-underscore", "book1", "ChatA1", false, 200);
    insert_chat_at(&conn, "backslash", "book1", "Path \\ notes", false, 100);
    let percent = query_all_chats(&conn, Some("%"), None, None, 20);
    let underscore = query_all_chats(&conn, Some("_"), None, None, 20);
    let backslash = query_all_chats(&conn, Some("\\"), None, None, 20);
    assert_eq!(percent.total, 1);
    assert_eq!(percent.chats[0].id, "percent");
    assert_eq!(underscore.total, 1);
    assert_eq!(underscore.chats[0].id, "underscore");
    assert_eq!(backslash.total, 1);
    assert_eq!(backslash.chats[0].id, "backslash");
}

#[test]
fn test_list_all_chats_filters_by_book_before_pagination() {
    let conn = chat_setup();
    insert_chat_at(&conn, "c3", "book1", "Other book", false, 300);
    insert_chat_at(&conn, "c2", "book2", "First match", false, 200);
    insert_chat_at(&conn, "c1", "book2", "Second match", false, 100);
    let page = query_all_chats(&conn, None, Some("book2"), None, 20);
    assert_eq!(page.total, 2);
    assert_eq!(ids(&page.chats), ["c2", "c1"]);
}

#[test]
fn test_list_all_chats_stays_stable_when_loaded_chat_is_touched() {
    let conn = chat_setup();
    insert_chat_at(&conn, "c4", "book1", "Newest", false, 400);
    insert_chat_at(&conn, "c3", "book1", "Second", false, 300);
    insert_chat_at(&conn, "c2", "book1", "Third", false, 200);
    insert_chat_at(&conn, "c1", "book1", "Oldest", false, 100);
    let first = query_all_chats(&conn, None, None, None, 2);
    conn.execute("UPDATE chats SET updated_at = 500 WHERE id = 'c4'", []).unwrap();
    let second = query_all_chats(&conn, None, None, first.next_cursor.as_deref(), 2);
    assert_eq!(ids(&second.chats), ["c2", "c1"]);
}
