//! Keyset pagination of the book and chat listings: the listing order,
//! the condition a page cursor adds, and why paging through it neither
//! skips nor repeats a row.
use vstd::prelude::*;

use crate::chats::{chat_cursor_text, chat_page_spec, Chat};
use crate::library::{book_cursor_spec, book_page_spec, law_book_cursor_round_trip, parse_book_cursor_spec, Book};
use crate::lww::{lemma_str_lt_asymmetric, lemma_str_lt_irreflexive, str_lt};

verus! {

/// The position of a row in a listing: pinned, last update, id.
pub type ListKey = (bool, i64, Seq<char>);

/// Listing order: pinned rows first, then newer first, then by id.
pub open spec fn key_before(a: ListKey, b: ListKey) -> bool {
    (a.0 && !b.0) || (a.0 == b.0 && (a.1 > b.1 || (a.1 == b.1 && str_lt(a.2, b.2))))
}

/// A flag as SQLite stores it.
pub open spec fn flag(b: bool) -> int {
    if b { 1 } else { 0 }
}

/// The chat cursor condition as SQLite evaluates it for a row:
/// `pinned < ? OR (pinned = ? AND (updated_at < ? OR (updated_at = ? AND id > ?)))`
/// with the cursor's pinned flag, update time and id.
pub open spec fn chat_after_cursor(row: ListKey, cur: ListKey) -> bool {
    flag(row.0) < flag(cur.0) || (flag(row.0) == flag(cur.0) && (row.1 < cur.1 || (row.1 == cur.1 && str_lt(cur.2, row.2))))
}

/// The book cursor condition as SQLite evaluates it for a row:
/// `updated_at < ? OR (updated_at = ? AND id > ?)`.
pub open spec fn book_after_cursor(row: (i64, Seq<char>), cur: (i64, Seq<char>)) -> bool {
    row.0 < cur.0 || (row.0 == cur.0 && str_lt(cur.1, row.1))
}

/// A listing in order, no two rows at the same position.
pub open spec fn strictly_listed(keys: Seq<ListKey>) -> bool {
    forall|i: int, j: int| 0 <= i < j < keys.len() ==> key_before(#[trigger] keys[i], #[trigger] keys[j])
}

proof fn lemma_key_before_irreflexive(a: ListKey)
    ensures
        !key_before(a, a),
{
    lemma_str_lt_irreflexive(a.2);
}

proof fn lemma_key_before_asymmetric(a: ListKey, b: ListKey)
    requires
        key_before(a, b),
    ensures
        !key_before(b, a),
{
    if a.0 == b.0 && a.1 == b.1 && str_lt(a.2, b.2) {
        lemma_str_lt_asymmetric(a.2, b.2);
    }
}

/// The prefixes of a sequence, filtered by a predicate that fails on the
/// first `k + 1` elements and holds on the rest.
proof fn lemma_filter_after<T>(keys: Seq<T>, p: spec_fn(T) -> bool, k: int, n: int)
    requires
        0 <= k < keys.len(),
        0 <= n <= keys.len(),
        forall|i: int| 0 <= i <= k ==> !p(#[trigger] keys[i]),
        forall|i: int| k < i < keys.len() ==> p(#[trigger] keys[i]),
    ensures
        keys.take(n).filter(p) == (if n <= k + 1 { Seq::<T>::empty() } else { keys.subrange(k + 1, n) }),
    decreases n,
{
    if n == 0 {
        reveal(Seq::filter);
        assert(keys.take(0) =~= Seq::<T>::empty());
    } else {
        lemma_filter_after(keys, p, k, n - 1);
        assert(keys.take(n) =~= keys.take(n - 1).push(keys[n - 1]));
        keys.take(n - 1).lemma_filter_push(keys[n - 1], p);
        if n > k + 1 {
            if n - 1 == k + 1 {
                assert(keys.subrange(k + 1, n) =~= seq![keys[n - 1]]);
                assert(Seq::<T>::empty().push(keys[n - 1]) =~= seq![keys[n - 1]]);
            } else {
                assert(keys.subrange(k + 1, n) =~= keys.subrange(k + 1, n - 1).push(keys[n - 1]));
            }
        }
    }
}

/// Paging loses and repeats nothing: in a listing in order, the rows the
/// chat cursor of the row at position `k` lets through are exactly the
/// rows listed after it. So each page starts right after the last row of
/// the one before, whatever the page size.
pub proof fn law_chat_pages_have_no_gaps(keys: Seq<ListKey>, k: int)
    requires
        strictly_listed(keys),
        0 <= k < keys.len(),
    ensures
        keys.filter(|x: ListKey| chat_after_cursor(x, keys[k])) == keys.skip(k + 1),
{
    let p = |x: ListKey| chat_after_cursor(x, keys[k]);
    assert forall|x: ListKey| #[trigger] p(x) == key_before(keys[k], x) by {}
    assert forall|i: int| 0 <= i <= k implies !p(#[trigger] keys[i]) by {
        if i == k {
            lemma_key_before_irreflexive(keys[k]);
        } else {
            assert(key_before(keys[i], keys[k]));
            lemma_key_before_asymmetric(keys[i], keys[k]);
        }
    }
    assert forall|i: int| k < i < keys.len() implies p(#[trigger] keys[i]) by {
        assert(key_before(keys[k], keys[i]));
    }
    lemma_filter_after(keys, p, k, keys.len() as int);
    assert(keys.take(keys.len() as int) =~= keys);
    if keys.len() <= k + 1 {
        assert(keys.skip(k + 1) =~= Seq::<ListKey>::empty());
    } else {
        assert(keys.subrange(k + 1, keys.len() as int) =~= keys.skip(k + 1));
    }
}

/// The same for the book listing, which has no pinned rows: the book
/// cursor of the row at position `k` lets through exactly the rows listed
/// after it.
pub proof fn law_book_pages_have_no_gaps(keys: Seq<(i64, Seq<char>)>, k: int)
    requires
        forall|i: int, j: int| 0 <= i < j < keys.len() ==> key_before(
            (false, (#[trigger] keys[i]).0, keys[i].1),
            (false, (#[trigger] keys[j]).0, keys[j].1),
        ),
        0 <= k < keys.len(),
    ensures
        keys.filter(|x: (i64, Seq<char>)| book_after_cursor(x, keys[k])) == keys.skip(k + 1),
{
    let lifted = keys.map_values(|x: (i64, Seq<char>)| (false, x.0, x.1));
    assert forall|i: int, j: int| 0 <= i < j < lifted.len() implies key_before(#[trigger] lifted[i], #[trigger] lifted[j]) by {
        assert(key_before((false, keys[i].0, keys[i].1), (false, keys[j].0, keys[j].1)));
    }
    let p = |x: (i64, Seq<char>)| book_after_cursor(x, keys[k]);
    let q = |x: ListKey| chat_after_cursor(x, lifted[k]);
    assert forall|i: int| 0 <= i <= k implies !p(#[trigger] keys[i]) by {
        assert(!q(lifted[i])) by {
            if i == k {
                lemma_key_before_irreflexive(lifted[k]);
            } else {
                assert(key_before(lifted[i], lifted[k]));
                lemma_key_before_asymmetric(lifted[i], lifted[k]);
            }
        }
    }
    assert forall|i: int| k < i < keys.len() implies p(#[trigger] keys[i]) by {
        assert(key_before(lifted[k], lifted[i]));
    }
    lemma_filter_after(keys, p, k, keys.len() as int);
    assert(keys.take(keys.len() as int) =~= keys);
    if keys.len() <= k + 1 {
        assert(keys.skip(k + 1) =~= Seq::<(i64, Seq<char>)>::empty());
    } else {
        assert(keys.subrange(k + 1, keys.len() as int) =~= keys.skip(k + 1));
    }
}


/// The rows a chat page request returns: the first `limit` rows the cursor
/// lets through (every row without a cursor).
pub open spec fn chat_page(keys: Seq<ListKey>, cur: Option<ListKey>, limit: nat) -> Seq<ListKey> {
    let through = match cur {
        Some(c) => keys.filter(|x: ListKey| chat_after_cursor(x, c)),
        None => keys,
    };
    through.take(if limit < through.len() { limit as int } else { through.len() as int })
}

/// The rows of the first `n` pages of a walk: each page asked for with the
/// cursor of the last row listed so far.
pub open spec fn chat_walk(keys: Seq<ListKey>, limit: nat, n: nat) -> Seq<ListKey>
    decreases n,
{
    if n == 0 {
        Seq::empty()
    } else {
        let prev = chat_walk(keys, limit, (n - 1) as nat);
        let cur = if prev.len() == 0 {
            None
        } else {
            Some(prev.last())
        };
        prev + chat_page(keys, cur, limit)
    }
}

/// The smaller of two integers.
pub open spec fn min_int(a: int, b: int) -> int {
    if a < b {
        a
    } else {
        b
    }
}

/// Walking the chat listing page by page lists every row exactly once, in
/// listing order: the first `n` pages are the first `n * limit` rows (all
/// of them once `n * limit` reaches the count).
pub proof fn law_chat_walk_lists_every_row_once(keys: Seq<ListKey>, limit: nat, n: nat)
    requires
        strictly_listed(keys),
        limit > 0,
    ensures
        chat_walk(keys, limit, n) == keys.take(min_int((n * limit) as int, keys.len() as int)),
    decreases n,
{
    if n == 0 {
        assert(keys.take(0) =~= Seq::<ListKey>::empty());
    } else {
        let m1 = (n - 1) as nat;
        law_chat_walk_lists_every_row_once(keys, limit, m1);
        let prev = chat_walk(keys, limit, m1);
        let m = min_int((m1 * limit) as int, keys.len() as int);
        assert(n * limit == m1 * limit + limit) by (nonlinear_arith)
            requires
                m1 == n - 1,
        ;
        assert(m1 * limit >= 0) by (nonlinear_arith);
        let target = min_int((n * limit) as int, keys.len() as int);
        if prev.len() == 0 {
            assert(m == 0);
            assert(target == min_int(limit as int, keys.len() as int));
            assert(keys.take(target) =~= prev + chat_page(keys, None, limit));
        } else {
            let k = m - 1;
            assert(prev.last() == keys[k]);
            law_chat_pages_have_no_gaps(keys, k);
            let through = keys.skip(m);
            assert(chat_page(keys, Some(keys[k]), limit) =~= through.take(
                if limit < through.len() { limit as int } else { through.len() as int },
            ));
            assert(keys.take(target) =~= prev + through.take(
                if limit < through.len() { limit as int } else { through.len() as int },
            ));
        }
    }
}

/// The rows a book page request returns: the first `limit` rows the
/// cursor lets through (every row without a cursor).
pub open spec fn book_page(keys: Seq<(i64, Seq<char>)>, cur: Option<(i64, Seq<char>)>, limit: nat) -> Seq<
    (i64, Seq<char>),
> {
    let through = match cur {
        Some(c) => keys.filter(|x: (i64, Seq<char>)| book_after_cursor(x, c)),
        None => keys,
    };
    through.take(if limit < through.len() { limit as int } else { through.len() as int })
}

/// The rows of the first `n` pages of a walk through the book listing.
pub open spec fn book_walk(keys: Seq<(i64, Seq<char>)>, limit: nat, n: nat) -> Seq<(i64, Seq<char>)>
    decreases n,
{
    if n == 0 {
        Seq::empty()
    } else {
        let prev = book_walk(keys, limit, (n - 1) as nat);
        let cur = if prev.len() == 0 {
            None
        } else {
            Some(prev.last())
        };
        prev + book_page(keys, cur, limit)
    }
}

/// Walking the book listing page by page lists every book exactly once, in
/// listing order (newest first, then by id).
pub proof fn law_book_walk_lists_every_row_once(keys: Seq<(i64, Seq<char>)>, limit: nat, n: nat)
    requires
        forall|i: int, j: int| 0 <= i < j < keys.len() ==> key_before(
            (false, (#[trigger] keys[i]).0, keys[i].1),
            (false, (#[trigger] keys[j]).0, keys[j].1),
        ),
        limit > 0,
    ensures
        book_walk(keys, limit, n) == keys.take(min_int((n * limit) as int, keys.len() as int)),
    decreases n,
{
    if n == 0 {
        assert(keys.take(0) =~= Seq::<(i64, Seq<char>)>::empty());
    } else {
        let m1 = (n - 1) as nat;
        law_book_walk_lists_every_row_once(keys, limit, m1);
        let prev = book_walk(keys, limit, m1);
        let m = min_int((m1 * limit) as int, keys.len() as int);
        assert(n * limit == m1 * limit + limit) by (nonlinear_arith)
            requires
                m1 == n - 1,
        ;
        assert(m1 * limit >= 0) by (nonlinear_arith);
        let target = min_int((n * limit) as int, keys.len() as int);
        if prev.len() == 0 {
            assert(m == 0);
            assert(keys.take(target) =~= prev + book_page(keys, None, limit));
        } else {
            let k = m - 1;
            assert(prev.last() == keys[k]);
            law_book_pages_have_no_gaps(keys, k);
            let through = keys.skip(m);
            assert(book_page(keys, Some(keys[k]), limit) =~= through.take(
                if limit < through.len() { limit as int } else { through.len() as int },
            ));
            assert(keys.take(target) =~= prev + through.take(
                if limit < through.len() { limit as int } else { through.len() as int },
            ));
        }
    }
}

/// The listing position of a book.
pub open spec fn book_key(b: Book) -> (i64, Seq<char>) {
    (b.updated_at, b.id@)
}

/// The listing position of a chat.
pub open spec fn chat_key(c: Chat) -> ListKey {
    (c.pinned, c.updated_at, c.id@)
}

/// The rows a book cursor lets through (every row without one).
pub open spec fn book_through(keys: Seq<(i64, Seq<char>)>, cur: Option<(i64, Seq<char>)>) -> Seq<(i64, Seq<char>)> {
    match cur {
        Some(c) => keys.filter(|x: (i64, Seq<char>)| book_after_cursor(x, c)),
        None => keys,
    }
}

/// The rows a chat cursor lets through (every row without one).
pub open spec fn chat_through(keys: Seq<ListKey>, cur: Option<ListKey>) -> Seq<ListKey> {
    match cur {
        Some(c) => keys.filter(|x: ListKey| chat_after_cursor(x, c)),
        None => keys,
    }
}

/// One step of a walk through the library as `paginate_books` takes it:
/// when the rows fetched are the first `limit + 1` that the cursor lets
/// through, the books kept are the walk's page, the next cursor is there
/// exactly when more books follow that page, and it reads back as the
/// position of the page's last book, the cursor of the walk's next step.
pub proof fn law_book_page_step(
    keys: Seq<(i64, Seq<char>)>,
    cur: Option<(i64, Seq<char>)>,
    limit: usize,
    rows: Seq<Book>,
    books: Seq<Book>,
    next: Option<String>,
)
    requires
        limit > 0,
        rows.map_values(|b: Book| book_key(b)) == book_page(keys, cur, (limit + 1) as nat),
        book_page_spec(rows, limit, books, next),
    ensures
        books.map_values(|b: Book| book_key(b)) == book_page(keys, cur, limit as nat),
        next is Some <==> book_through(keys, cur).len() > limit,
        next matches Some(c) ==> parse_book_cursor_spec(c@) == Some(book_page(keys, cur, limit as nat).last()),
{
    let through = book_through(keys, cur);
    let rk = rows.map_values(|b: Book| book_key(b));
    assert(rk.len() == rows.len());
    let page = book_page(keys, cur, limit as nat);
    if rows.len() > limit {
        assert(through.len() > limit);
        assert(books.map_values(|b: Book| book_key(b)) =~= page);
        let last = rows[limit - 1];
        assert(rk[limit - 1] == book_key(last));
        assert(page.last() == through[limit - 1]);
        law_book_cursor_round_trip(last.updated_at, last.id@);
    } else {
        assert(through.len() <= limit);
        assert(books.map_values(|b: Book| book_key(b)) =~= page);
    }
}

/// The same step through the chat listing as `paginate_chats` takes it:
/// the chats kept are the walk's page, and the next cursor is there exactly
/// when more chats follow that page, holding the position of its last
/// chat.
pub proof fn law_chat_page_step(
    keys: Seq<ListKey>,
    cur: Option<ListKey>,
    limit: usize,
    rows: Seq<Chat>,
    chats: Seq<Chat>,
    next: Option<String>,
)
    requires
        limit > 0,
        rows.map_values(|c: Chat| chat_key(c)) == chat_page(keys, cur, (limit + 1) as nat),
        chat_page_spec(rows, limit, chats, next),
    ensures
        chats.map_values(|c: Chat| chat_key(c)) == chat_page(keys, cur, limit as nat),
        next is Some <==> chat_through(keys, cur).len() > limit,
        next matches Some(c) ==> ({
            let k = chat_page(keys, cur, limit as nat).last();
            c@ == chat_cursor_text(k.0, k.1, k.2)
        }),
{
    let through = chat_through(keys, cur);
    let rk = rows.map_values(|c: Chat| chat_key(c));
    assert(rk.len() == rows.len());
    let page = chat_page(keys, cur, limit as nat);
    if rows.len() > limit {
        assert(through.len() > limit);
        assert(chats.map_values(|c: Chat| chat_key(c)) =~= page);
        assert(rk[limit - 1] == chat_key(rows[limit - 1]));
        assert(page.last() == through[limit - 1]);
    } else {
        assert(through.len() <= limit);
        assert(chats.map_values(|c: Chat| chat_key(c)) =~= page);
    }
}

} // verus!
