//! The reader's annotation records — bookmarks, highlights, collections,
//! saved translations and vocabulary — with the rules that shape them
//! before they are stored.
use vstd::prelude::*;

use crate::query::{params_view, text_param, Param, SqlQuery, SqlValue};
use crate::text::owned;

verus! {

/// A bookmark at a location of a book.
#[derive(Debug, Clone)]
pub struct Bookmark {
    pub id: String,
    pub book_id: String,
    pub cfi: String,
    pub label: Option<String>,
    pub created_at: i64,
    pub updated_at: i64,
}

/// A highlighted range of a book.
#[derive(Debug, Clone)]
pub struct Highlight {
    pub id: String,
    pub book_id: String,
    pub cfi_range: String,
    pub color: String,
    pub note: Option<String>,
    pub text_content: Option<String>,
    pub created_at: i64,
    pub updated_at: i64,
}

/// A named shelf of books.
#[derive(Debug, Clone)]
pub struct Collection {
    pub id: String,
    pub name: String,
    pub book_count: i32,
    pub sort_order: i32,
    pub created_at: i64,
    pub updated_at: i64,
}

/// A translation the user chose to save.
#[derive(Debug, Clone)]
pub struct Translation {
    pub id: String,
    pub book_id: String,
    pub source_text: String,
    pub translated_text: String,
    pub target_language: String,
    pub cfi: Option<String>,
    pub created_at: i64,
    pub updated_at: i64,
    pub book_title: Option<String>,
}

/// A word saved for review.
#[derive(Debug, Clone)]
pub struct VocabWord {
    pub id: String,
    pub book_id: String,
    pub word: String,
    pub definition: String,
    pub context_sentence: Option<String>,
    pub cfi: Option<String>,
    pub mastery: String,
    pub review_count: i64,
    pub next_review_at: Option<i64>,
    pub created_at: i64,
    pub updated_at: i64,
    pub book_title: Option<String>,
}

/// Counts over the saved words.
#[derive(Debug, Clone)]
pub struct VocabStats {
    pub total: i64,
    pub new_count: i64,
    pub learning_count: i64,
    pub mastered_count: i64,
    pub due_for_review: i64,
}

/// What the settings UI shows of iCloud.
#[derive(Debug, Clone)]
pub struct ICloudStatus {
    pub available: bool,
    pub enabled: bool,
    /// Whether the container already holds a library another device set up.
    pub has_existing_data: bool,
}

/// A new collection goes after every existing one: one past the largest
/// sort order, or first when there is none.
pub fn next_sort_order(max_existing: Option<i32>) -> (r: i32)
    requires
        max_existing matches Some(m) ==> m < i32::MAX,
    ensures
        r == (match max_existing {
            Some(m) => m + 1,
            None => 0,
        }),
{
    match max_existing {
        Some(m) => m + 1,
        None => 0,
    }
}

/// The sort order each collection gets when the user reorders them: its
/// position in the new order (as an `i32`, wrapping as `as` does).
pub fn reorder_sort_orders(ids: &Vec<String>) -> (r: Vec<(String, i32)>)
    ensures
        r@.len() == ids@.len(),
        forall|i: int| 0 <= i < ids@.len() ==> (#[trigger] r@[i]).0@ == ids@[i]@ && r@[i].1 == (i as i32),
{
    let mut out: Vec<(String, i32)> = Vec::new();
    let mut i: usize = 0;
    while i < ids.len()
        invariant
            i <= ids@.len(),
            out@.len() == i,
            forall|j: int| 0 <= j < i ==> (#[trigger] out@[j]).0@ == ids@[j]@ && out@[j].1 == (j as i32),
        decreases ids@.len() - i,
    {
        let order: i32 = #[verifier::truncate] (i as i32);
        out.push((owned(ids[i].as_str()), order));
        i = i + 1;
    }
    out
}

/// Mastery of a word nobody reviewed yet.
pub const MASTERY_NEW: &'static str = "new";

/// A freshly saved word: mastery `new`, never reviewed, nothing scheduled,
/// created and updated now.
pub fn new_vocab_word(
    id: String,
    book_id: String,
    word: String,
    definition: String,
    context_sentence: Option<String>,
    cfi: Option<String>,
    now: i64,
) -> (v: VocabWord)
    ensures
        v.id == id,
        v.book_id == book_id,
        v.word == word,
        v.definition == definition,
        v.context_sentence == context_sentence,
        v.cfi == cfi,
        v.mastery@ == MASTERY_NEW@,
        v.review_count == 0,
        v.next_review_at is None,
        v.created_at == now,
        v.updated_at == now,
        v.book_title is None,
{
    VocabWord {
        id,
        book_id,
        word,
        definition,
        context_sentence,
        cfi,
        mastery: owned(MASTERY_NEW),
        review_count: 0,
        next_review_at: None,
        created_at: now,
        updated_at: now,
        book_title: None,
    }
}

/// Saving a word the book already has (matched without regard to case)
/// writes nothing and publishes nothing: the stored record is returned.
/// Otherwise the fresh record is stored and published.
pub fn add_vocab_outcome(existing: Option<VocabWord>, fresh: VocabWord) -> (r: (VocabWord, bool))
    ensures
        match existing {
            Some(e) => r.0 == e && !r.1,
            None => r.0 == fresh && r.1,
        },
{
    match existing {
        Some(e) => (e, false),
        None => (fresh, true),
    }
}

/// The saved-translations listing, newest first, optionally for one book.
pub open spec fn translations_sql_spec(scoped: bool) -> Seq<char> {
    "SELECT t.id, t.book_id, t.source_text, t.translated_text, t.target_language, t.cfi, t.created_at, t.updated_at, b.title FROM translations t LEFT JOIN books b ON t.book_id = b.id"@
        + (if scoped { " WHERE t.book_id = ?1"@ } else { Seq::empty() }) + " ORDER BY t.created_at DESC"@
}

/// The statement listing saved translations; scoped to `book_id` when one
/// is given, which is then its only parameter.
pub fn translations_query(book_id: Option<&str>) -> (q: SqlQuery)
    ensures
        q.sql@ == translations_sql_spec(book_id is Some),
        match book_id {
            Some(b) => params_view(q.params@) == seq![Param::Text(b@)],
            None => q.params@.len() == 0,
        },
{
    let mut sql = owned(
        "SELECT t.id, t.book_id, t.source_text, t.translated_text, t.target_language, t.cfi, t.created_at, t.updated_at, b.title FROM translations t LEFT JOIN books b ON t.book_id = b.id",
    );
    let mut params: Vec<SqlValue> = Vec::new();
    if let Some(b) = book_id {
        sql.append(" WHERE t.book_id = ?1");
        params.push(text_param(b));
        assert(params_view(params@) =~= seq![Param::Text(b@)]);
    }
    sql.append(" ORDER BY t.created_at DESC");
    proof {
        if book_id is None {
            assert(sql@ =~= translations_sql_spec(false));
        }
    }
    SqlQuery { sql, params }
}

/// The statements deleting a book with everything that hangs off it, in
/// order: messages before their chats, every child before the book.
pub open spec fn book_delete_statements_spec() -> Seq<Seq<char>> {
    seq![
        "DELETE FROM chat_messages WHERE chat_id IN (SELECT id FROM chats WHERE book_id = ?1)"@,
        "DELETE FROM chats WHERE book_id = ?1"@,
        "DELETE FROM collection_books WHERE book_id = ?1"@,
        "DELETE FROM highlights WHERE book_id = ?1"@,
        "DELETE FROM bookmarks WHERE book_id = ?1"@,
        "DELETE FROM vocab_words WHERE book_id = ?1"@,
        "DELETE FROM translations WHERE book_id = ?1"@,
        "DELETE FROM book_settings WHERE book_id = ?1"@,
        "DELETE FROM books WHERE id = ?1"@,
    ]
}

/// The statement deleting the rows of `table` that belong to the book
/// given as the first parameter.
pub open spec fn delete_by_book(table: Seq<char>) -> Seq<char> {
    "DELETE FROM "@ + table + " WHERE book_id = ?1"@
}

/// The tables whose rows belong to a book through their `book_id`.
pub open spec fn book_child_table(t: Seq<char>) -> bool {
    ||| t == "chats"@
    ||| t == "collection_books"@
    ||| t == "highlights"@
    ||| t == "bookmarks"@
    ||| t == "vocab_words"@
    ||| t == "translations"@
    ||| t == "book_settings"@
}

/// Whether the statement `stmt` runs before the last statement of `s`.
pub open spec fn runs_before_last(s: Seq<Seq<char>>, stmt: Seq<char>) -> bool {
    exists|i: int| 0 <= i < s.len() - 1 && #[trigger] s[i] == stmt
}

/// Deleting a book removes everything that hangs off it first: the
/// messages of its chats before the chats, then its rows in
/// `collection_books`, `highlights`, `bookmarks`, `vocab_words`,
/// `translations` and `book_settings`, each by `book_id`, and last the
/// book row itself by its id.
pub proof fn law_book_delete_cascade()
    ensures
        ({
            let s = book_delete_statements_spec();
            &&& s.len() > 0
            &&& s.last() == "DELETE FROM books WHERE id = ?1"@
            &&& exists|i: int, j: int|
                0 <= i < j < s.len() - 1 && #[trigger] s[i]
                    == "DELETE FROM chat_messages WHERE chat_id IN (SELECT id FROM chats WHERE book_id = ?1)"@
                    && #[trigger] s[j] == delete_by_book("chats"@)
            &&& runs_before_last(s, delete_by_book("collection_books"@))
            &&& runs_before_last(s, delete_by_book("highlights"@))
            &&& runs_before_last(s, delete_by_book("bookmarks"@))
            &&& runs_before_last(s, delete_by_book("vocab_words"@))
            &&& runs_before_last(s, delete_by_book("translations"@))
            &&& runs_before_last(s, delete_by_book("book_settings"@))
            &&& forall|i: int|
                0 <= i < s.len() - 1 ==> #[trigger] s[i]
                    == "DELETE FROM chat_messages WHERE chat_id IN (SELECT id FROM chats WHERE book_id = ?1)"@
                    || exists|t: Seq<char>| book_child_table(t) && s[i] == delete_by_book(t)
        }),
{
    let s = book_delete_statements_spec();
    reveal_strlit("DELETE FROM ");
    reveal_strlit(" WHERE book_id = ?1");
    reveal_strlit("chats");
    reveal_strlit("collection_books");
    reveal_strlit("highlights");
    reveal_strlit("bookmarks");
    reveal_strlit("vocab_words");
    reveal_strlit("translations");
    reveal_strlit("book_settings");
    reveal_strlit("DELETE FROM chats WHERE book_id = ?1");
    reveal_strlit("DELETE FROM collection_books WHERE book_id = ?1");
    reveal_strlit("DELETE FROM highlights WHERE book_id = ?1");
    reveal_strlit("DELETE FROM bookmarks WHERE book_id = ?1");
    reveal_strlit("DELETE FROM vocab_words WHERE book_id = ?1");
    reveal_strlit("DELETE FROM translations WHERE book_id = ?1");
    reveal_strlit("DELETE FROM book_settings WHERE book_id = ?1");
    assert(s[1] =~= delete_by_book("chats"@));
    assert(s[2] =~= delete_by_book("collection_books"@));
    assert(s[3] =~= delete_by_book("highlights"@));
    assert(s[4] =~= delete_by_book("bookmarks"@));
    assert(s[5] =~= delete_by_book("vocab_words"@));
    assert(s[6] =~= delete_by_book("translations"@));
    assert(s[7] =~= delete_by_book("book_settings"@));
    assert(book_child_table("chats"@) && book_child_table("collection_books"@) && book_child_table("highlights"@)
        && book_child_table("bookmarks"@) && book_child_table("vocab_words"@) && book_child_table("translations"@)
        && book_child_table("book_settings"@));
}

/// The deletion cascade of a book, each statement taking the book id as
/// its one parameter.
pub fn book_delete_statements() -> (r: Vec<&'static str>)
    ensures
        r@.len() == book_delete_statements_spec().len(),
        forall|i: int| 0 <= i < r@.len() ==> (#[trigger] r@[i])@ == book_delete_statements_spec()[i],
{
    let mut v: Vec<&'static str> = Vec::new();
    v.push("DELETE FROM chat_messages WHERE chat_id IN (SELECT id FROM chats WHERE book_id = ?1)");
    v.push("DELETE FROM chats WHERE book_id = ?1");
    v.push("DELETE FROM collection_books WHERE book_id = ?1");
    v.push("DELETE FROM highlights WHERE book_id = ?1");
    v.push("DELETE FROM bookmarks WHERE book_id = ?1");
    v.push("DELETE FROM vocab_words WHERE book_id = ?1");
    v.push("DELETE FROM translations WHERE book_id = ?1");
    v.push("DELETE FROM book_settings WHERE book_id = ?1");
    v.push("DELETE FROM books WHERE id = ?1");
    v
}

/// Where a synced cover image of a book lives, relative to the data
/// directory: `covers/<id>.img`.
pub fn book_cover_file(id: &str) -> (r: String)
    ensures
        r@ == "covers/"@ + id@ + ".img"@,
{
    let mut s = owned("covers/");
    s.append(id);
    s.append(".img");
    s
}

} // verus!
