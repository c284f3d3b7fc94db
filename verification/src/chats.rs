//! Book chats: records, the escaped title search, the opaque page cursor,
//! and the query plan and pagination of the all-chats listing.
use vstd::prelude::*;

use crate::codec::{base64_spec, base64_url_no_pad, base64_url_no_pad_decode, format_i64, i64_text};
use crate::query::{params_view, texts, where_clause, where_spec, Param, SqlQuery, SqlValue};
use crate::text::{owned, push_char, spec_str_to_lowercase, to_lowercase};
use vstd::utf8::encode_utf8;

verus! {

/// A chat about a book.
#[derive(Debug)]
pub struct Chat {
    pub id: String,
    pub book_id: String,
    pub title: String,
    pub model: Option<String>,
    pub pinned: bool,
    pub metadata: Option<String>,
    pub created_at: i64,
    pub updated_at: i64,
    pub book_title: Option<String>,
    pub message_count: Option<i64>,
    pub last_message: Option<String>,
}

/// One message of a chat.
#[derive(Debug)]
pub struct ChatMsg {
    pub id: String,
    pub chat_id: String,
    pub role: String,
    pub content: String,
    pub context: Option<String>,
    pub metadata: Option<String>,
    pub created_at: i64,
    pub updated_at: i64,
}

/// One page of the all-chats listing.
#[derive(Debug)]
pub struct ChatPage {
    pub chats: Vec<Chat>,
    pub next_cursor: Option<String>,
    pub total: usize,
}

/// Where a chat page ends: the listing order's key of its last chat.
#[derive(Debug, PartialEq, Eq)]
pub struct ChatCursor {
    pub pinned: bool,
    pub updated_at: i64,
    pub id: String,
}

/// Chats per book, for the chats sidebar.
#[derive(Debug)]
pub struct ChatBookCount {
    pub book_id: String,
    pub book_title: Option<String>,
    pub count: usize,
}

/// Chat totals, overall and per book.
#[derive(Debug)]
pub struct ChatCounts {
    pub total: usize,
    pub by_book: Vec<ChatBookCount>,
}

/// A character escaped for a `LIKE ... ESCAPE '\'` pattern: `\`, `%` and
/// `_` get a backslash in front.
pub open spec fn like_escape_char(c: char) -> Seq<char> {
    if c == '\\' || c == '%' || c == '_' {
        seq!['\\', c]
    } else {
        seq![c]
    }
}

/// A text escaped for a `LIKE ... ESCAPE '\'` pattern.
pub open spec fn like_escape(s: Seq<char>) -> Seq<char>
    decreases s.len(),
{
    if s.len() == 0 {
        Seq::empty()
    } else {
        like_escape(s.drop_last()) + like_escape_char(s.last())
    }
}

/// The pattern of a chat title search: the lower-cased query, escaped, so
/// that `%`, `_` and `\` match themselves, inside `%`.
pub open spec fn chat_search_pattern_spec(search: Seq<char>) -> Seq<char> {
    "%"@ + like_escape(spec_str_to_lowercase(search)) + "%"@
}

/// What a `LIKE ... ESCAPE '\'` pattern matches literally: a backslash
/// stands for the character after it.
pub open spec fn like_unescape(p: Seq<char>) -> Seq<char>
    decreases p.len(),
{
    if p.len() == 0 {
        Seq::empty()
    } else if p[0] == '\\' && p.len() >= 2 {
        seq![p[1]] + like_unescape(p.skip(2))
    } else {
        seq![p[0]] + like_unescape(p.skip(1))
    }
}

proof fn lemma_like_unescape_escaped(s: Seq<char>, t: Seq<char>)
    ensures
        like_unescape(like_escape(s) + t) == s + like_unescape(t),
    decreases s.len(),
{
    if s.len() == 0 {
        assert(like_escape(s) + t =~= t);
        assert(s + like_unescape(t) =~= like_unescape(t));
    } else {
        let c = s.last();
        let rest = like_escape_char(c) + t;
        lemma_like_unescape_escaped(s.drop_last(), rest);
        assert(like_escape(s) + t =~= like_escape(s.drop_last()) + rest);
        if c == '\\' || c == '%' || c == '_' {
            assert(rest.skip(2) =~= t);
        } else {
            assert(rest.skip(1) =~= t);
        }
        assert(like_unescape(rest) == seq![c] + like_unescape(t));
        assert(s.drop_last() + (seq![c] + like_unescape(t)) =~= s + like_unescape(t));
    }
}

/// A search matches titles holding the query literally: the pattern is the
/// escaped lower-cased query between two `%` wildcards, and reading its
/// escapes back gives exactly the lower-cased query, so `%`, `_` and `\`
/// in it match only themselves.
pub proof fn law_chat_search_pattern_is_literal(search: Seq<char>)
    ensures
        ({
            let p = chat_search_pattern_spec(search);
            &&& p.len() >= 2
            &&& p[0] == '%'
            &&& p.last() == '%'
            &&& like_unescape(p.subrange(1, p.len() - 1)) == spec_str_to_lowercase(search)
        }),
{
    reveal_strlit("%");
    let e = like_escape(spec_str_to_lowercase(search));
    let p = chat_search_pattern_spec(search);
    assert(p.subrange(1, p.len() - 1) =~= e);
    lemma_like_unescape_escaped(spec_str_to_lowercase(search), Seq::empty());
    assert(e + Seq::<char>::empty() =~= e);
    assert(spec_str_to_lowercase(search) + like_unescape(Seq::<char>::empty()) =~= spec_str_to_lowercase(search));
}

/// Builds the pattern of a chat title search.
pub fn chat_search_pattern(search: &str) -> (r: String)
    ensures
        r@ == chat_search_pattern_spec(search@),
{
    let lowered = to_lowercase(search);
    let s = lowered.as_str();
    let n = s.unicode_len();
    let mut out = owned("%");
    let ghost start = out@;
    let mut i: usize = 0;
    assert(s@.take(0) =~= Seq::<char>::empty());
    while i < n
        invariant
            n == s@.len(),
            i <= n,
            out@ == start + like_escape(s@.take(i as int)),
        decreases n - i,
    {
        let c = s.get_char(i);
        if c == '\\' || c == '%' || c == '_' {
            push_char(&mut out, '\\');
        }
        push_char(&mut out, c);
        assert(s@.take(i + 1).drop_last() =~= s@.take(i as int));
        assert(out@ =~= start + like_escape(s@.take(i + 1)));
        i = i + 1;
    }
    assert(s@.take(n as int) =~= s@);
    out.append("%");
    out
}

/// A lower-case hexadecimal digit.
pub open spec fn hex_digit(n: u32) -> char {
    if n < 10 {
        (48 + n) as char
    } else {
        (87 + n) as char
    }
}

/// How `serde_json` writes one character inside a string: `"` and `\`
/// and the short control escapes with a backslash, other control
/// characters below U+0020 as `\u00xx`, everything else as it is.
pub open spec fn json_char_escape(c: char) -> Seq<char> {
    if c == '"' {
        seq!['\\', '"']
    } else if c == '\\' {
        seq!['\\', '\\']
    } else if c == '\u{8}' {
        seq!['\\', 'b']
    } else if c == '\u{c}' {
        seq!['\\', 'f']
    } else if c == '\n' {
        seq!['\\', 'n']
    } else if c == '\r' {
        seq!['\\', 'r']
    } else if c == '\t' {
        seq!['\\', 't']
    } else if (c as u32) < 32 {
        seq!['\\', 'u', '0', '0', hex_digit((c as u32) / 16), hex_digit((c as u32) % 16)]
    } else {
        seq![c]
    }
}

/// The characters of a string, escaped as `serde_json` writes them.
pub open spec fn json_escape(s: Seq<char>) -> Seq<char>
    decreases s.len(),
{
    if s.len() == 0 {
        Seq::empty()
    } else {
        json_escape(s.drop_last()) + json_char_escape(s.last())
    }
}

/// What `serde_json` writes for a string: the JSON string literal.
pub open spec fn spec_json_string(s: Seq<char>) -> Seq<char> {
    seq!['"'] + json_escape(s) + seq!['"']
}

/// Calls `serde_json::to_string` on a string slice: its JSON literal,
/// quoted and escaped by the crate's `ESCAPE` table. Writing a `&str`
/// cannot fail, so the error branch is never taken.
#[verifier::external_body]
fn json_string(s: &str) -> (r: String)
    ensures
        r@ == spec_json_string(s@),
{
    serde_json::to_string(s).unwrap_or_default()
}

/// The JSON text of a cursor, fields in declaration order.
pub open spec fn chat_cursor_json(pinned: bool, updated_at: i64, id: Seq<char>) -> Seq<char> {
    "{\"pinned\":"@ + (if pinned {
        "true"@
    } else {
        "false"@
    }) + ",\"updated_at\":"@ + i64_text(updated_at) + ",\"id\":"@ + spec_json_string(id) + "}"@
}

/// The opaque cursor text: the cursor's JSON in unpadded URL-safe base64.
pub open spec fn chat_cursor_text(pinned: bool, updated_at: i64, id: Seq<char>) -> Seq<char> {
    base64_spec(encode_utf8(chat_cursor_json(pinned, updated_at, id)), true, false)
}

/// Encodes a chat page cursor as opaque URL-safe text.
pub fn encode_chat_cursor(cursor: &ChatCursor) -> (r: String)
    ensures
        r@ == chat_cursor_text(cursor.pinned, cursor.updated_at, cursor.id@),
{
    let mut json = owned("{\"pinned\":");
    if cursor.pinned {
        json.append("true");
    } else {
        json.append("false");
    }
    json.append(",\"updated_at\":");
    let ts = format_i64(cursor.updated_at);
    json.append(ts.as_str());
    json.append(",\"id\":");
    let id = json_string(cursor.id.as_str());
    json.append(id.as_str());
    json.append("}");
    base64_url_no_pad(json.as_str().as_bytes())
}

/// The JSON bytes an opaque cursor carries: `None` when the text is no
/// unpadded URL-safe base64 encoding. Reading the JSON is the caller's.
pub fn decode_chat_cursor_bytes(cursor: &str) -> (r: Option<Vec<u8>>)
    ensures
        match r {
            Some(b) => base64_spec(b@, true, false) == cursor@,
            None => forall|b: Seq<u8>| base64_spec(b, true, false) != cursor@,
        },
{
    base64_url_no_pad_decode(cursor)
}

/// Decoding a cursor's text gives back exactly the JSON it was encoded
/// from: a byte string decodes from the text if and only if it is that
/// JSON. So `decode_chat_cursor_bytes(encode_chat_cursor(c))` is always
/// `Some` of the cursor's JSON.
pub proof fn law_chat_cursor_round_trip(pinned: bool, updated_at: i64, id: Seq<char>, b: Seq<u8>)
    ensures
        base64_spec(b, true, false) == chat_cursor_text(pinned, updated_at, id)
            <==> b == encode_utf8(chat_cursor_json(pinned, updated_at, id)),
{
    if base64_spec(b, true, false) == chat_cursor_text(pinned, updated_at, id) {
        crate::codec::lemma_base64_injective(b, encode_utf8(chat_cursor_json(pinned, updated_at, id)), true);
    }
}

/// The condition a cursor adds: chats after it in listing order (pinned
/// first, newer first, then by id).
pub const CHAT_CURSOR_COND: &'static str =
    "(c.pinned < ? OR (c.pinned = ? AND (c.updated_at < ? OR (c.updated_at = ? AND c.id > ?))))";

/// The title-search condition.
pub const CHAT_SEARCH_COND: &'static str = "LOWER(c.title) LIKE ? ESCAPE '\\'";

/// The columns of a listed chat, with its book title, message count and
/// last message.
pub const CHAT_COLUMNS: &'static str = "SELECT c.id, c.book_id, c.title, c.model, c.pinned, c.metadata, c.created_at, c.updated_at,
                b.title,
                (SELECT COUNT(*) FROM chat_messages WHERE chat_id = c.id),
                (SELECT content FROM chat_messages WHERE chat_id = c.id ORDER BY created_at DESC, rowid DESC LIMIT 1)
         FROM chats c LEFT JOIN books b ON c.book_id = b.id
         ";

/// The order and page bound of the chat listing.
pub const CHAT_ORDER_LIMIT: &'static str = "
         ORDER BY c.pinned DESC, c.updated_at DESC, c.id ASC
         LIMIT ?";

/// The conditions of the chat listing before any cursor.
pub open spec fn chat_list_conds(search: Option<&str>, book_id: Option<&str>) -> Seq<Seq<char>> {
    (match search {
        Some(s) => if s@.len() > 0 {
            seq![CHAT_SEARCH_COND@]
        } else {
            Seq::empty()
        },
        None => Seq::empty(),
    }) + (if book_id is Some {
        seq!["c.book_id = ?"@]
    } else {
        Seq::empty()
    })
}

/// The parameters of [`chat_list_conds`].
pub open spec fn chat_list_params(search: Option<&str>, book_id: Option<&str>) -> Seq<Param> {
    (match search {
        Some(s) => if s@.len() > 0 {
            seq![Param::Text(chat_search_pattern_spec(s@))]
        } else {
            Seq::empty()
        },
        None => Seq::empty(),
    }) + (match book_id {
        Some(b) => seq![Param::Text(b@)],
        None => Seq::empty(),
    })
}

/// A pinned flag as SQLite stores it.
pub open spec fn pinned_int(p: bool) -> i64 {
    if p {
        1
    } else {
        0
    }
}

/// The two statements of a chat page: the total count (ignoring the
/// cursor) and the page itself (one row beyond `limit`).
pub open spec fn chat_page_plan_spec(
    count: SqlQuery,
    page: SqlQuery,
    search: Option<&str>,
    book_id: Option<&str>,
    cursor: Option<ChatCursor>,
    limit: usize,
) -> bool {
    let conds = chat_list_conds(search, book_id);
    let params = chat_list_params(search, book_id);
    let page_conds = match cursor {
        Some(_) => conds.push(CHAT_CURSOR_COND@),
        None => conds,
    };
    let page_params = match cursor {
        Some(c) => params + seq![
            Param::Int(pinned_int(c.pinned)),
            Param::Int(pinned_int(c.pinned)),
            Param::Int(c.updated_at),
            Param::Int(c.updated_at),
            Param::Text(c.id@),
        ],
        None => params,
    };
    &&& count.sql@ == "SELECT COUNT(*) FROM chats c"@ + where_spec(conds)
    &&& params_view(count.params@) == params
    &&& page.sql@ == CHAT_COLUMNS@ + where_spec(page_conds) + CHAT_ORDER_LIMIT@
    &&& params_view(page.params@) == page_params.push(Param::Int((limit + 1) as i64))
}

fn chat_conds(search: Option<&str>, book_id: Option<&str>) -> (r: (Vec<String>, Vec<SqlValue>))
    ensures
        texts(r.0@) == chat_list_conds(search, book_id),
        params_view(r.1@) == chat_list_params(search, book_id),
{
    let mut conds: Vec<String> = Vec::new();
    let mut params: Vec<SqlValue> = Vec::new();
    match search {
        Some(s) => {
            if !s.is_empty() {
                conds.push(owned(CHAT_SEARCH_COND));
                params.push(SqlValue::Text(chat_search_pattern(s)));
            }
        },
        None => {},
    }
    match book_id {
        Some(b) => {
            conds.push(owned("c.book_id = ?"));
            params.push(SqlValue::Text(owned(b)));
        },
        None => {},
    }
    assert(texts(conds@) =~= chat_list_conds(search, book_id));
    assert(params_view(params@) =~= chat_list_params(search, book_id));
    (conds, params)
}

/// Plans the statements of one page of the chat listing.
pub fn chat_page_plan(
    search: Option<&str>,
    book_id: Option<&str>,
    cursor: Option<ChatCursor>,
    limit: usize,
) -> (r: (SqlQuery, SqlQuery))
    requires
        limit < usize::MAX,
    ensures
        chat_page_plan_spec(r.0, r.1, search, book_id, cursor, limit),
{
    let (count_conds, count_params) = chat_conds(search, book_id);
    let mut count_sql = owned("SELECT COUNT(*) FROM chats c");
    let w = where_clause(&count_conds);
    count_sql.append(w.as_str());
    let count = SqlQuery { sql: count_sql, params: count_params };
    let (mut conds, mut params) = chat_conds(search, book_id);
    let ghost c0 = texts(conds@);
    let ghost p0 = params_view(params@);
    let ghost cur = cursor;
    match cursor {
        Some(c) => {
            conds.push(owned(CHAT_CURSOR_COND));
            let pinned: i64 = if c.pinned {
                1
            } else {
                0
            };
            params.push(SqlValue::Int(pinned));
            params.push(SqlValue::Int(pinned));
            params.push(SqlValue::Int(c.updated_at));
            params.push(SqlValue::Int(c.updated_at));
            params.push(SqlValue::Text(c.id));
            assert(texts(conds@) =~= c0.push(CHAT_CURSOR_COND@));
            assert(params_view(params@) =~= p0 + seq![
                Param::Int(pinned_int(cur.unwrap().pinned)),
                Param::Int(pinned_int(cur.unwrap().pinned)),
                Param::Int(cur.unwrap().updated_at),
                Param::Int(cur.unwrap().updated_at),
                Param::Text(cur.unwrap().id@),
            ]);
        },
        None => {},
    }
    let mut sql = owned(CHAT_COLUMNS);
    let pw = where_clause(&conds);
    sql.append(pw.as_str());
    sql.append(CHAT_ORDER_LIMIT);
    let bound = (#[verifier::truncate] ((limit + 1) as i64));
    let ghost before_bound = params_view(params@);
    params.push(SqlValue::Int(bound));
    assert(params_view(params@) =~= before_bound.push(Param::Int(bound)));
    (count, SqlQuery { sql, params })
}

/// The page of the chat listing fetched with one extra row: at most
/// `limit` chats, and the cursor of the last one when more follow.
pub open spec fn chat_page_spec(
    rows: Seq<Chat>,
    limit: usize,
    chats: Seq<Chat>,
    next_cursor: Option<String>,
) -> bool {
    if rows.len() > limit {
        &&& chats == rows.take(limit as int)
        &&& next_cursor matches Some(c) && c@ == chat_cursor_text(
            rows[limit - 1].pinned,
            rows[limit - 1].updated_at,
            rows[limit - 1].id@,
        )
    } else {
        chats == rows && next_cursor is None
    }
}

/// Cuts the fetched rows to a page and computes the next cursor. A zero
/// `limit` only works when nothing was fetched.
pub fn paginate_chats(rows: Vec<Chat>, limit: usize) -> (r: (Vec<Chat>, Option<String>))
    requires
        rows@.len() > limit ==> limit > 0,
    ensures
        chat_page_spec(rows@, limit, r.0@, r.1),
{
    let mut rows = rows;
    if rows.len() > limit {
        rows.truncate(limit);
        let last = &rows[limit - 1];
        let cursor = ChatCursor {
            pinned: last.pinned,
            updated_at: last.updated_at,
            id: last.id.clone(),
        };
        let text = encode_chat_cursor(&cursor);
        (rows, Some(text))
    } else {
        (rows, None)
    }
}

/// Default size of a listing page.
pub const DEFAULT_PAGE_SIZE: usize = 20;

/// The page size of the chat listing: the requested size, 20 by default,
/// never below one.
pub fn chat_page_size(limit: Option<usize>) -> (r: usize)
    ensures
        r == match limit {
            Some(l) => if l == 0 {
                1
            } else {
                l
            },
            None => DEFAULT_PAGE_SIZE,
        },
        r >= 1,
{
    match limit {
        Some(l) => if l == 0 {
            1
        } else {
            l
        },
        None => DEFAULT_PAGE_SIZE,
    }
}

/// A message as saved: created and updated now.
pub fn new_chat_message(
    id: String,
    chat_id: String,
    role: String,
    content: String,
    context: Option<String>,
    metadata: Option<String>,
    now: i64,
) -> (m: ChatMsg)
    ensures
        m.id == id,
        m.chat_id == chat_id,
        m.role == role,
        m.content == content,
        m.context == context,
        m.metadata == metadata,
        m.created_at == now,
        m.updated_at == now,
{
    ChatMsg { id, chat_id, role, content, context, metadata, created_at: now, updated_at: now }
}

/// Saving a message moves its chat's stamp to `(now, device)` only when
/// that is newer than the chat's, so replaying an older message from a
/// peer never drags the chat backwards.
pub fn chat_bump_applies(chat_updated_at: i64, chat_device: &str, now: i64, device: &str) -> (b: bool)
    ensures
        b == crate::lww::stamp_newer(now, device@, chat_updated_at, chat_device@),
{
    crate::lww::stamp_is_newer(now, device, chat_updated_at, chat_device)
}

/// The title of a new chat: the given one, else `New chat`.
pub fn new_chat_title(title: Option<String>) -> (r: String)
    ensures
        r@ == match title {
            Some(t) => t@,
            None => "New chat"@,
        },
{
    match title {
        Some(t) => t,
        None => owned("New chat"),
    }
}

/// A freshly created chat: unpinned, no metadata, created and updated now.
pub fn new_chat(id: String, book_id: String, title: String, model: Option<String>, now: i64) -> (r:
    Chat)
    ensures
        r.id == id,
        r.book_id == book_id,
        r.title == title,
        r.model == model,
        !r.pinned,
        r.metadata is None,
        r.created_at == now,
        r.updated_at == now,
        r.book_title is None,
        r.message_count is None,
        r.last_message is None,
{
    Chat {
        id,
        book_id,
        title,
        model,
        pinned: false,
        metadata: None,
        created_at: now,
        updated_at: now,
        book_title: None,
        message_count: None,
        last_message: None,
    }
}

/// The chats of a history request: all of the book's chats, or only the
/// one named, in their listed order.
pub open spec fn history_selection(chats: Seq<Chat>, chat_id: Option<Seq<char>>) -> Seq<Chat>
    decreases chats.len(),
{
    match chat_id {
        None => chats,
        Some(target) => if chats.len() == 0 {
            Seq::empty()
        } else {
            let rest = history_selection(chats.drop_last(), chat_id);
            if chats.last().id@ == target {
                rest.push(chats.last())
            } else {
                rest
            }
        },
    }
}

/// A history request for one chat returns exactly the book's chats with
/// that id, in their listed order (the input filtered by id); without one,
/// every chat of the book.
pub proof fn law_history_selects_named_chat(chats: Seq<Chat>, target: Seq<char>)
    ensures
        history_selection(chats, Some(target)) == chats.filter(|c: Chat| c.id@ == target),
        history_selection(chats, None) == chats,
        forall|i: int|
            0 <= i < history_selection(chats, Some(target)).len() ==> (#[trigger] history_selection(
                chats,
                Some(target),
            )[i]).id@ == target,
    decreases chats.len(),
{
    let p = |c: Chat| c.id@ == target;
    if chats.len() == 0 {
        reveal(Seq::filter);
        assert(chats.filter(p) =~= Seq::<Chat>::empty());
    } else {
        law_history_selects_named_chat(chats.drop_last(), target);
        chats.drop_last().lemma_filter_push(chats.last(), p);
        assert(chats.drop_last().push(chats.last()) =~= chats);
        let rest = history_selection(chats.drop_last(), Some(target));
        let r = history_selection(chats, Some(target));
        assert forall|i: int| 0 <= i < r.len() implies (#[trigger] r[i]).id@ == target by {
            if i < rest.len() {
                assert(r[i] == rest[i]);
            }
        }
    }
}

/// Narrows a book's chats to the one a history request names, if any.
pub fn select_history_chats(chats: Vec<Chat>, chat_id: Option<&str>) -> (r: Vec<Chat>)
    ensures
        r@ == history_selection(
            chats@,
            match chat_id {
                Some(t) => Some(t@),
                None => None,
            },
        ),
{
    match chat_id {
        None => chats,
        Some(target) => {
            let ghost orig = chats@;
            let ghost key = Some(target@);
            let mut rest = chats;
            let total = rest.len();
            let mut out: Vec<Chat> = Vec::new();
            let mut taken: usize = 0;
            assert(orig.skip(0) =~= orig);
            while rest.len() > 0
                invariant
                    taken + rest@.len() == orig.len(),
                    total == orig.len(),
                    rest@ == orig.skip(taken as int),
                    key == Some(target@),
                    out@ == history_selection(orig.take(taken as int), key),
                decreases rest@.len(),
            {
                let c = rest.remove(0);
                assert(rest@ =~= orig.skip(taken + 1));
                assert(c == orig[taken as int]);
                assert(orig.take(taken + 1).drop_last() =~= orig.take(taken as int));
                if crate::text::str_eq(c.id.as_str(), target) {
                    out.push(c);
                }
                taken = taken + 1;
            }
            assert(orig.take(taken as int) =~= orig);
            out
        },
    }
}

} // verus!
