//! The book library: file names for imported books, cover data URIs, the
//! records built on import, and the query plans and cursors of the paged
//! library listing.
use vstd::prelude::*;

use crate::codec::{base64_spec, base64_standard, format_i64, i64_text, parse_i64, parse_i64_spec};
use crate::query::{params_view, texts, where_clause, where_spec, Param, SqlQuery, SqlValue};
use crate::text::{
    char_is_alphanumeric, char_is_whitespace, char_utf8_len, owned, push_char,
    spec_char_is_alphanumeric, spec_char_is_whitespace, spec_str_to_lowercase, to_lowercase, utf8_len,
};
use vstd::string::StringSliceAdditionalSpecFns;
use vstd::utf8::{decode_utf8, encode_scalar, encode_utf8, encode_utf8_decode_utf8, is_char_boundary};

verus! {

/// Whether `b` begins with the bytes `p`.
pub open spec fn bytes_start_with(b: Seq<u8>, p: Seq<u8>) -> bool {
    p.len() <= b.len() && b.subrange(0, p.len() as int) == p
}

fn starts_with_bytes(b: &[u8], p: &[u8]) -> (r: bool)
    ensures
        r == bytes_start_with(b@, p@),
{
    if p.len() > b.len() {
        return false;
    }
    let mut i: usize = 0;
    while i < p.len()
        invariant
            p@.len() <= b@.len(),
            i <= p@.len(),
            forall|j: int| 0 <= j < i ==> b@[j] == p@[j],
        decreases p@.len() - i,
    {
        if b[i] != p[i] {
            return false;
        }
        i = i + 1;
    }
    assert(b@.subrange(0, p@.len() as int) =~= p@);
    true
}

/// The image type of a stored cover, by its magic bytes: PNG, JPEG, GIF,
/// WebP; anything else is served as PNG.
pub open spec fn cover_mime_spec(b: Seq<u8>) -> Seq<char> {
    if bytes_start_with(b, seq![0x89u8, 0x50u8, 0x4eu8, 0x47u8]) {
        "image/png"@
    } else if bytes_start_with(b, seq![0xffu8, 0xd8u8, 0xffu8]) {
        "image/jpeg"@
    } else if bytes_start_with(b, seq![0x47u8, 0x49u8, 0x46u8, 0x38u8]) {
        "image/gif"@
    } else if b.len() > 12 && bytes_start_with(b, seq![0x52u8, 0x49u8, 0x46u8, 0x46u8])
        && b.subrange(8, 12) == seq![0x57u8, 0x45u8, 0x42u8, 0x50u8] {
        "image/webp"@
    } else {
        "image/png"@
    }
}

/// The image type of a stored cover, by its magic bytes.
pub fn cover_mime(b: &[u8]) -> (r: String)
    ensures
        r@ == cover_mime_spec(b@),
{
    let png: [u8; 4] = [0x89, 0x50, 0x4e, 0x47];
    let jpeg: [u8; 3] = [0xff, 0xd8, 0xff];
    let gif: [u8; 4] = [0x47, 0x49, 0x46, 0x38];
    let riff: [u8; 4] = [0x52, 0x49, 0x46, 0x46];
    assert(png@ =~= seq![0x89u8, 0x50u8, 0x4eu8, 0x47u8]);
    assert(jpeg@ =~= seq![0xffu8, 0xd8u8, 0xffu8]);
    assert(gif@ =~= seq![0x47u8, 0x49u8, 0x46u8, 0x38u8]);
    assert(riff@ =~= seq![0x52u8, 0x49u8, 0x46u8, 0x46u8]);
    if starts_with_bytes(b, &png) {
        owned("image/png")
    } else if starts_with_bytes(b, &jpeg) {
        owned("image/jpeg")
    } else if starts_with_bytes(b, &gif) {
        owned("image/gif")
    } else if b.len() > 12 && starts_with_bytes(b, &riff) && b[8] == 0x57 && b[9] == 0x45 && b[10]
        == 0x42 && b[11] == 0x50 {
        assert(b@.subrange(8, 12) =~= seq![0x57u8, 0x45u8, 0x42u8, 0x50u8]);
        owned("image/webp")
    } else {
        if b.len() > 12 && starts_with_bytes(b, &riff) {
            assert(b@.subrange(8, 12) != seq![0x57u8, 0x45u8, 0x42u8, 0x50u8]) by {
                if b@.subrange(8, 12) == seq![0x57u8, 0x45u8, 0x42u8, 0x50u8] {
                    assert(b@.subrange(8, 12)[0] == b@[8]);
                    assert(b@.subrange(8, 12)[1] == b@[9]);
                    assert(b@.subrange(8, 12)[2] == b@[10]);
                    assert(b@.subrange(8, 12)[3] == b@[11]);
                }
            }
        }
        owned("image/png")
    }
}

/// A cover blob as a `data:` URI the web view can render directly.
pub open spec fn cover_data_uri_spec(b: Seq<u8>) -> Seq<char> {
    "data:"@ + cover_mime_spec(b) + ";base64,"@ + base64_spec(b, false, true)
}

/// Encodes a cover blob as a base64 `data:` URI with its detected type.
pub fn cover_blob_to_data_uri(bytes: &[u8]) -> (r: String)
    ensures
        r@ == cover_data_uri_spec(bytes@),
{
    let mut out = owned("data:");
    let mime = cover_mime(bytes);
    out.append(mime.as_str());
    out.append(";base64,");
    let b64 = base64_standard(bytes);
    out.append(b64.as_str());
    out
}

/// A title character kept in a slug: letters, digits, space, `-` and `_`
/// stay; everything else becomes a space.
pub open spec fn slug_char(c: char) -> char {
    if spec_char_is_alphanumeric(c) || c == ' ' || c == '-' || c == '_' {
        c
    } else {
        ' '
    }
}

/// The whitespace-separated words of `s`, as `split_whitespace` yields them.
pub open spec fn words(s: Seq<char>) -> Seq<Seq<char>>
    decreases s.len(),
{
    if s.len() == 0 {
        Seq::empty()
    } else {
        let w = words(s.drop_last());
        if spec_char_is_whitespace(s.last()) {
            w
        } else if s.len() >= 2 && !spec_char_is_whitespace(s[s.len() - 2]) {
            w.update(w.len() - 1, w.last().push(s.last()))
        } else {
            w.push(seq![s.last()])
        }
    }
}

/// Words joined by `-`.
pub open spec fn join_dash(ws: Seq<Seq<char>>) -> Seq<char>
    decreases ws.len(),
{
    if ws.len() == 0 {
        Seq::empty()
    } else if ws.len() == 1 {
        ws[0]
    } else {
        join_dash(ws.drop_last()) + seq!['-'] + ws.last()
    }
}

/// The untruncated slug of a title: kept characters, words joined by `-`,
/// lower-cased.
pub open spec fn slug_base(title: Seq<char>) -> Seq<char> {
    spec_str_to_lowercase(join_dash(words(title.map_values(|c: char| slug_char(c)))))
}

/// How many leading characters of `s` fit in `budget` bytes of UTF-8.
pub open spec fn fit_len(s: Seq<char>, budget: int) -> nat
    decreases s.len(),
{
    if s.len() == 0 || encode_scalar(s[0] as u32).len() > budget {
        0
    } else {
        1 + fit_len(s.drop_first(), budget - encode_scalar(s[0] as u32).len())
    }
}

/// Index of the last `-` of `s`, if any.
pub open spec fn last_dash(s: Seq<char>) -> Option<int>
    decreases s.len(),
{
    if s.len() == 0 {
        None
    } else if s.last() == '-' {
        Some(s.len() - 1)
    } else {
        last_dash(s.drop_last())
    }
}

/// Byte budget of a slug.
pub const SLUG_MAX_BYTES: usize = 60;

/// A slug cut to fit its byte budget: when too long, the longest prefix of
/// whole characters that fits, then back to before its last `-`.
pub open spec fn slug_truncate(s: Seq<char>) -> Seq<char> {
    let k = fit_len(s, SLUG_MAX_BYTES as int);
    if k == s.len() {
        s
    } else {
        let head = s.take(k as int);
        match last_dash(head) {
            Some(i) => head.take(i),
            None => head,
        }
    }
}

/// The file-name slug of a book title.
pub open spec fn slugify_spec(title: Seq<char>) -> Seq<char> {
    slug_truncate(slug_base(title))
}

proof fn lemma_words_nonempty(s: Seq<char>)
    ensures
        forall|i: int| 0 <= i < words(s).len() ==> #[trigger] words(s)[i].len() > 0,
        s.len() > 0 && !spec_char_is_whitespace(s.last()) ==> words(s).len() > 0,
    decreases s.len(),
{
    if s.len() > 0 {
        lemma_words_nonempty(s.drop_last());
        if !spec_char_is_whitespace(s.last()) && s.len() >= 2 && !spec_char_is_whitespace(
            s[s.len() - 2],
        ) {
            assert(s.drop_last().last() == s[s.len() - 2]);
        }
    }
}

proof fn lemma_join_dash_empty(ws: Seq<Seq<char>>)
    requires
        forall|i: int| 0 <= i < ws.len() ==> #[trigger] ws[i].len() > 0,
    ensures
        join_dash(ws).len() == 0 <==> ws.len() == 0,
    decreases ws.len(),
{
    if ws.len() > 1 {
        lemma_join_dash_empty(ws.drop_last());
    }
}

proof fn lemma_join_dash_extend(ws: Seq<Seq<char>>, c: char)
    requires
        ws.len() > 0,
    ensures
        join_dash(ws.update(ws.len() - 1, ws.last().push(c))) == join_dash(ws).push(c),
{
    let ws2 = ws.update(ws.len() - 1, ws.last().push(c));
    if ws.len() == 1 {
        assert(ws2[0] == ws[0].push(c));
    } else {
        assert(ws2.drop_last() =~= ws.drop_last());
        assert(join_dash(ws2) =~= join_dash(ws).push(c));
    }
}

fn slug_words_joined(title: &str) -> (r: String)
    ensures
        r@ == join_dash(words(title@.map_values(|c: char| slug_char(c)))),
{
    let ghost mapped = title@.map_values(|c: char| slug_char(c));
    let n = title.unicode_len();
    let mut out = String::new();
    let mut in_word = false;
    let mut i: usize = 0;
    assert(mapped.take(0) =~= Seq::<char>::empty());
    while i < n
        invariant
            n == title@.len(),
            mapped == title@.map_values(|c: char| slug_char(c)),
            i <= n,
            out@ == join_dash(words(mapped.take(i as int))),
            in_word == (i > 0 && !spec_char_is_whitespace(mapped[i - 1])),
        decreases n - i,
    {
        let raw = title.get_char(i);
        let c = if char_is_alphanumeric(raw) || raw == ' ' || raw == '-' || raw == '_' {
            raw
        } else {
            ' '
        };
        assert(c == mapped[i as int]);
        let ghost before = mapped.take(i as int);
        let ghost after = mapped.take(i + 1);
        assert(after.drop_last() =~= before);
        assert(after.last() == c);
        proof {
            lemma_words_nonempty(before);
        }
        if char_is_whitespace(c) {
            in_word = false;
        } else {
            if in_word {
                assert(after[after.len() - 2] == mapped[i - 1]);
                assert(words(before).len() > 0) by {
                    assert(before.last() == mapped[i - 1]);
                }
                proof {
                    lemma_join_dash_extend(words(before), c);
                }
                push_char(&mut out, c);
            } else {
                if i > 0 {
                    assert(after[after.len() - 2] == mapped[i - 1]);
                }
                proof {
                    lemma_join_dash_empty(words(before));
                }
                if out.as_str().is_empty() {
                    push_char(&mut out, c);
                    assert(out@ =~= join_dash(words(after)));
                } else {
                    assert(words(before).len() > 0);
                    assert(words(after) == words(before).push(seq![c]));
                    assert(words(after).drop_last() =~= words(before));
                    push_char(&mut out, '-');
                    push_char(&mut out, c);
                    assert(out@ =~= join_dash(words(after)));
                }
            }
            in_word = true;
        }
        i = i + 1;
    }
    assert(mapped.take(n as int) =~= mapped);
    out
}

proof fn lemma_fit_len(s: Seq<char>, budget: int)
    requires
        budget >= 0,
    ensures
        fit_len(s, budget) <= s.len(),
        utf8_len(s.take(fit_len(s, budget) as int)) <= budget,
        fit_len(s, budget) == s.len() <==> utf8_len(s) <= budget,
    decreases s.len(),
{
    if s.len() > 0 {
        let w = encode_scalar(s[0] as u32).len();
        assert(encode_utf8(s) =~= encode_scalar(s[0] as u32) + encode_utf8(s.drop_first()));
        assert(utf8_len(s) == w + utf8_len(s.drop_first()));
        assert(s.take(0) =~= Seq::<char>::empty());
        assert(encode_utf8(Seq::<char>::empty()) =~= Seq::<u8>::empty());
        if w > budget {
            assert(fit_len(s, budget) == 0);
        } else {
            lemma_fit_len(s.drop_first(), budget - w);
            let k = fit_len(s, budget);
            assert(k == 1 + fit_len(s.drop_first(), budget - w));
            let t = s.take(k as int);
            assert(t.drop_first() =~= s.drop_first().take(k - 1));
            assert(t[0] == s[0]);
            assert(encode_utf8(t) =~= encode_scalar(s[0] as u32) + encode_utf8(t.drop_first()));
        }
    } else {
        assert(s.take(0) =~= s);
        assert(encode_utf8(s) =~= Seq::<u8>::empty());
    }
}

proof fn lemma_last_dash(s: Seq<char>)
    ensures
        match last_dash(s) {
            Some(i) => 0 <= i < s.len() && s[i] == '-' && forall|j: int|
                i < j < s.len() ==> s[j] != '-',
            None => forall|j: int| 0 <= j < s.len() ==> s[j] != '-',
        },
    decreases s.len(),
{
    if s.len() > 0 && s.last() != '-' {
        lemma_last_dash(s.drop_last());
        assert forall|j: int| 0 <= j < s.len() - 1 implies s[j] == s.drop_last()[j] by {}
    }
}

/// The file-name slug of a book title: letters and digits (any script),
/// spaces, `-` and `_` kept, words joined by `-`, lower-cased, and cut to
/// at most 60 bytes on a character boundary, back to a word break.
pub fn slugify(title: &str) -> (r: String)
    ensures
        r@ == slugify_spec(title@),
{
    let joined = slug_words_joined(title);
    let slug = to_lowercase(joined.as_str());
    let ghost s = slug@;
    let n = slug.as_str().unicode_len();
    let mut k: usize = 0;
    let mut budget: usize = SLUG_MAX_BYTES;
    assert(s.skip(0) =~= s);
    while k < n && char_utf8_len(slug.as_str().get_char(k)) <= budget
        invariant
            n == s.len(),
            s == slug@,
            k <= n,
            budget <= SLUG_MAX_BYTES,
            fit_len(s, SLUG_MAX_BYTES as int) == k + fit_len(s.skip(k as int), budget as int),
        decreases n - k,
    {
        let w = char_utf8_len(slug.as_str().get_char(k));
        assert(s.skip(k as int)[0] == s[k as int]);
        assert(s.skip(k as int).drop_first() =~= s.skip(k + 1));
        budget = budget - w;
        k = k + 1;
    }
    assert(fit_len(s.skip(k as int), budget as int) == 0);
    if k == n {
        return slug;
    }
    let head = slug.as_str().substring_char(0, k);
    let ghost h = s.take(k as int);
    assert(head@ =~= h);
    let mut j: usize = k;
    assert(h.take(k as int) =~= h);
    while j > 0 && head.get_char(j - 1) != '-'
        invariant
            j <= k,
            head@ == h,
            h.len() == k,
            last_dash(h) == last_dash(h.take(j as int)),
        decreases j,
    {
        assert(h.take(j as int).drop_last() =~= h.take(j - 1));
        j = j - 1;
    }
    assert(h.take(k as int) =~= h);
    if j == 0 {
        assert(h.take(0) =~= Seq::<char>::empty());
        owned(head)
    } else {
        assert(h.take(j as int).last() == '-');
        owned(head.substring_char(0, j - 1))
    }
}

/// A slug never exceeds its byte budget.
pub proof fn law_slug_fits_budget(title: Seq<char>)
    ensures
        utf8_len(slugify_spec(title)) <= SLUG_MAX_BYTES,
{
    let s = slug_base(title);
    lemma_fit_len(s, SLUG_MAX_BYTES as int);
    let k = fit_len(s, SLUG_MAX_BYTES as int);
    if k != s.len() {
        let head = s.take(k as int);
        lemma_last_dash(head);
        match last_dash(head) {
            Some(i) => {
                crate::text::lemma_utf8_len_prefix(head, i);
            },
            None => {},
        }
    }
}


/// The first eight bytes of a book id (a UUID), as characters.
pub open spec fn short_id_spec(id: Seq<char>) -> Seq<char> {
    decode_utf8(encode_utf8(id).subrange(0, 8))
}

/// The stored file name of an imported book: `{slug}_{short id}.{ext}`,
/// or `{id}.{ext}` when the title leaves no slug.
pub open spec fn book_filename_spec(title: Seq<char>, id: Seq<char>, ext: Seq<char>) -> Seq<char> {
    let slug = slugify_spec(title);
    if slug.len() == 0 {
        id + "."@ + ext
    } else {
        slug + "_"@ + short_id_spec(id) + "."@ + ext
    }
}

/// Builds the stored file name of an imported book. The id must have a
/// character boundary at byte 8 (a UUID does), since its first eight bytes
/// are taken.
pub fn book_filename(title: &str, book_id: &str, ext: &str) -> (r: String)
    requires
        is_char_boundary(encode_utf8(book_id@), 8),
    ensures
        r@ == book_filename_spec(title@, book_id@, ext@),
{
    let slug = slugify(title);
    let (short_id, _rest) = book_id.split_at(8);
    proof {
        encode_utf8_decode_utf8(short_id@);
        assert(short_id.spec_bytes() =~= encode_utf8(book_id@).subrange(0, 8));
    }
    if slug.as_str().is_empty() {
        let mut out = owned(book_id);
        out.append(".");
        out.append(ext);
        out
    } else {
        let mut out = slug;
        out.append("_");
        out.append(short_id);
        out.append(".");
        out.append(ext);
        out
    }
}

/// The text after the last `.` of `s` (all of `s` when it has none), as
/// `rsplit('.').next()` yields it.
pub open spec fn after_last_dot(s: Seq<char>) -> Seq<char>
    decreases s.len(),
{
    if s.len() == 0 {
        s
    } else if s.last() == '.' {
        Seq::empty()
    } else {
        after_last_dot(s.drop_last()).push(s.last())
    }
}

/// The lower-cased extension of an import path.
pub open spec fn file_extension_spec(path: Seq<char>) -> Seq<char> {
    spec_str_to_lowercase(after_last_dot(path))
}

/// The lower-cased text after the last `.` of a path.
pub fn file_extension(path: &str) -> (r: String)
    ensures
        r@ == file_extension_spec(path@),
{
    let n = path.unicode_len();
    let mut j: usize = n;
    assert(path@.take(n as int) =~= path@);
    assert(after_last_dot(path@) =~= after_last_dot(path@) + path@.subrange(n as int, n as int));
    while j > 0 && path.get_char(j - 1) != '.'
        invariant
            n == path@.len(),
            j <= n,
            after_last_dot(path@) == after_last_dot(path@.take(j as int)) + path@.subrange(
                j as int,
                n as int,
            ),
        decreases j,
    {
        let ghost t = path@.take(j as int);
        assert(t.drop_last() =~= path@.take(j - 1));
        assert(after_last_dot(t) == after_last_dot(path@.take(j - 1)).push(t.last()));
        assert(path@.subrange(j - 1, n as int) =~= seq![t.last()] + path@.subrange(
            j as int,
            n as int,
        ));
        assert(after_last_dot(path@.take(j - 1)).push(t.last()) + path@.subrange(j as int, n as int)
            =~= after_last_dot(path@.take(j - 1)) + path@.subrange(j - 1, n as int));
        j = j - 1;
    }
    proof {
        if j > 0 {
            assert(path@.take(j as int).last() == '.');
        } else {
            assert(path@.take(0) =~= Seq::<char>::empty());
        }
        assert(after_last_dot(path@) =~= path@.subrange(j as int, n as int));
    }
    let tail = path.substring_char(j, n);
    to_lowercase(tail)
}

/// The two book formats the library imports.
#[derive(Debug, Clone, Copy, PartialEq, Eq)]
pub enum BookFormat {
    Epub,
    Pdf,
}

/// The format name stored with a book.
pub open spec fn format_name_spec(f: BookFormat) -> Seq<char> {
    match f {
        BookFormat::Epub => "epub"@,
        BookFormat::Pdf => "pdf"@,
    }
}

impl BookFormat {
    /// The format name stored with a book.
    pub fn name(&self) -> (r: String)
        ensures
            r@ == format_name_spec(*self),
    {
        match self {
            BookFormat::Epub => owned("epub"),
            BookFormat::Pdf => owned("pdf"),
        }
    }
}

/// The importer the app uses for a file: PDF for a `.pdf` extension (any
/// case), EPUB for everything else.
pub fn import_format(path: &str) -> (r: BookFormat)
    ensures
        r == (if file_extension_spec(path@) == "pdf"@ {
            BookFormat::Pdf
        } else {
            BookFormat::Epub
        }),
{
    let ext = file_extension(path);
    if crate::text::str_eq(ext.as_str(), "pdf") {
        BookFormat::Pdf
    } else {
        BookFormat::Epub
    }
}

/// The importer an MCP client may use: only `.epub` and `.pdf` (any case);
/// any other extension is refused with the extension it had.
pub fn mcp_import_format(path: &str) -> (r: Result<BookFormat, String>)
    ensures
        file_extension_spec(path@) == "epub"@ ==> r == Ok::<BookFormat, String>(BookFormat::Epub),
        file_extension_spec(path@) == "pdf"@ ==> r == Ok::<BookFormat, String>(BookFormat::Pdf),
        file_extension_spec(path@) != "epub"@ && file_extension_spec(path@) != "pdf"@ ==> (r matches Err(
            e,
        ) && e@ == file_extension_spec(path@)),
{
    proof {
        reveal_strlit("epub");
        reveal_strlit("pdf");
        assert("epub"@.len() == 4);
        assert("pdf"@.len() == 3);
        assert("epub"@ != "pdf"@);
    }
    let ext = file_extension(path);
    if crate::text::str_eq(ext.as_str(), "epub") {
        Ok(BookFormat::Epub)
    } else if crate::text::str_eq(ext.as_str(), "pdf") {
        Ok(BookFormat::Pdf)
    } else {
        Err(ext)
    }
}

/// The refusal an MCP client gets for an unsupported extension.
pub fn unsupported_format_message(ext: &str) -> (r: String)
    ensures
        r@ == "Unsupported format '."@ + ext@ + "'. Only .epub and .pdf are supported."@,
{
    let mut out = owned("Unsupported format '.");
    out.append(ext);
    out.append("'. Only .epub and .pdf are supported.");
    out
}


/// A book of the library as the UI receives it.
#[derive(Debug)]
pub struct Book {
    pub id: String,
    pub title: String,
    pub author: String,
    pub description: Option<String>,
    pub cover_path: Option<String>,
    pub file_path: String,
    pub format: String,
    pub genre: Option<String>,
    pub pages: Option<i32>,
    pub status: String,
    pub progress: i32,
    pub current_cfi: Option<String>,
    pub created_at: i64,
    pub updated_at: i64,
    /// Whether the book file is locally available (not an iCloud placeholder).
    pub available: bool,
    /// The cover as a `data:` URI, when the book has one.
    pub cover_data: Option<String>,
}

/// The characters of an optional string.
pub open spec fn opt_view(o: Option<String>) -> Option<Seq<char>> {
    match o {
        Some(s) => Some(s@),
        None => None,
    }
}

/// The record of a freshly imported book: stored under `books/`, unread,
/// at the start, created and updated now, available, with its cover as a
/// data URI when it has one.
pub open spec fn imported_book_spec(
    b: Book,
    id: Seq<char>,
    title: Seq<char>,
    author: Seq<char>,
    description: Option<Seq<char>>,
    file_name: Seq<char>,
    format: BookFormat,
    pages: i32,
    now: i64,
    cover: Option<Seq<u8>>,
) -> bool {
    &&& b.id@ == id
    &&& b.title@ == title
    &&& b.author@ == author
    &&& opt_view(b.description) == description
    &&& b.cover_path is None
    &&& b.file_path@ == "books/"@ + file_name
    &&& b.format@ == format_name_spec(format)
    &&& b.genre is None
    &&& b.pages == Some(pages)
    &&& b.status@ == "unread"@
    &&& b.progress == 0
    &&& b.current_cfi is None
    &&& b.created_at == now
    &&& b.updated_at == now
    &&& b.available
    &&& match cover {
        Some(c) => opt_view(b.cover_data) == Some(cover_data_uri_spec(c)),
        None => b.cover_data is None,
    }
}

/// Builds the record of a freshly imported book.
pub fn imported_book(
    id: String,
    title: String,
    author: String,
    description: Option<String>,
    file_name: &str,
    format: BookFormat,
    pages: i32,
    now: i64,
    cover: Option<&[u8]>,
) -> (r: Book)
    ensures
        imported_book_spec(
            r,
            id@,
            title@,
            author@,
            opt_view(description),
            file_name@,
            format,
            pages,
            now,
            match cover {
                Some(c) => Some(c@),
                None => None,
            },
        ),
{
    let mut file_path = owned("books/");
    file_path.append(file_name);
    let cover_data = match cover {
        Some(c) => Some(cover_blob_to_data_uri(c)),
        None => None,
    };
    Book {
        id,
        title,
        author,
        description,
        cover_path: None,
        file_path,
        format: format.name(),
        genre: None,
        pages: Some(pages),
        status: owned("unread"),
        progress: 0,
        current_cfi: None,
        created_at: now,
        updated_at: now,
        available: true,
        cover_data,
    }
}

/// A PDF metadata field is used only when it holds more than whitespace.
pub open spec fn pdf_info_spec(raw: Option<String>) -> Option<Seq<char>> {
    match raw {
        Some(v) => if crate::text::trim_spec(v@).len() > 0 {
            Some(v@)
        } else {
            None
        },
        None => None,
    }
}

fn pdf_info(raw: Option<String>) -> (r: Option<String>)
    ensures
        opt_view(r) == pdf_info_spec(raw),
{
    match raw {
        Some(v) => {
            if crate::text::trim(v.as_str()).as_str().is_empty() {
                None
            } else {
                Some(v)
            }
        },
        None => None,
    }
}

/// What the PDF import takes from a document.
#[derive(Debug)]
pub struct PdfExtracted {
    pub title: String,
    pub author: String,
    pub description: Option<String>,
    pub pages: i32,
    pub cover: Option<Vec<u8>>,
}

/// The import data of a PDF from its Info dictionary: title (else the
/// file-name fallback), author (else `Unknown Author`), subject as the
/// description, page count and rendered cover.
pub fn pdf_extracted(
    title: Option<String>,
    author: Option<String>,
    subject: Option<String>,
    pages: i32,
    cover: Option<Vec<u8>>,
    fallback_title: &str,
) -> (r: PdfExtracted)
    ensures
        r.title@ == match pdf_info_spec(title) {
            Some(t) => t,
            None => fallback_title@,
        },
        r.author@ == match pdf_info_spec(author) {
            Some(a) => a,
            None => "Unknown Author"@,
        },
        opt_view(r.description) == pdf_info_spec(subject),
        r.pages == pages,
        r.cover == cover,
{
    let title = match pdf_info(title) {
        Some(t) => t,
        None => owned(fallback_title),
    };
    let author = match pdf_info(author) {
        Some(a) => a,
        None => owned("Unknown Author"),
    };
    PdfExtracted { title, author, description: pdf_info(subject), pages, cover }
}

/// The import data of a PDF that could not be read: the file-name title,
/// `Unknown Author`, no pages, no cover.
pub fn pdf_fallback(fallback_title: &str) -> (r: PdfExtracted)
    ensures
        r.title@ == fallback_title@,
        r.author@ == "Unknown Author"@,
        r.description is None,
        r.pages == 0,
        r.cover is None,
{
    PdfExtracted {
        title: owned(fallback_title),
        author: owned("Unknown Author"),
        description: None,
        pages: 0,
        cover: None,
    }
}

/// The title a PDF import falls back to: the file stem, else `Untitled`.
pub fn pdf_fallback_title(path: &str) -> (r: String)
    ensures
        r@ == match crate::paths::spec_path_file_stem(path@) {
            Some(s) => s,
            None => "Untitled"@,
        },
{
    match crate::paths::path_file_stem(path) {
        Some(s) => s,
        None => owned("Untitled"),
    }
}


/// Status filters match the reading status; `all` matches everything; any
/// other filter is a genre.
pub open spec fn is_status_filter(f: Seq<char>) -> bool {
    f == "reading"@ || f == "finished"@ || f == "unread"@
}

/// The search pattern of a library query: the lower-cased query inside `%`.
pub open spec fn book_search_pattern(q: Seq<char>) -> Seq<char> {
    "%"@ + spec_str_to_lowercase(q) + "%"@
}

/// The filter and search conditions of a library query, over columns
/// prefixed by `col` (`books.` in the joined listing, empty in the MCP one).
pub open spec fn book_filter_conds(col: Seq<char>, filter: Option<&str>, search: Option<&str>) -> Seq<
    Seq<char>,
> {
    let f = match filter {
        Some(f) => if is_status_filter(f@) {
            seq![col + "status = ?"@]
        } else if f@ == "all"@ {
            Seq::empty()
        } else {
            seq![col + "genre = ?"@]
        },
        None => Seq::empty(),
    };
    let q = match search {
        Some(q) => if q@.len() > 0 {
            seq![
                "(LOWER("@ + col + "title) LIKE ? OR LOWER("@ + col + "author) LIKE ?)"@,
            ]
        } else {
            Seq::empty()
        },
        None => Seq::empty(),
    };
    f + q
}

/// The parameters of [`book_filter_conds`], in order.
pub open spec fn book_filter_params(filter: Option<&str>, search: Option<&str>) -> Seq<Param> {
    let f = match filter {
        Some(f) => if f@ == "all"@ {
            Seq::empty()
        } else {
            seq![Param::Text(f@)]
        },
        None => Seq::empty(),
    };
    let q = match search {
        Some(q) => if q@.len() > 0 {
            seq![Param::Text(book_search_pattern(q@)), Param::Text(book_search_pattern(q@))]
        } else {
            Seq::empty()
        },
        None => Seq::empty(),
    };
    f + q
}

fn push_book_filters(
    conds: &mut Vec<String>,
    params: &mut Vec<SqlValue>,
    col: &str,
    filter: Option<&str>,
    search: Option<&str>,
)
    ensures
        texts(final(conds)@) == texts(old(conds)@) + book_filter_conds(col@, filter, search),
        params_view(final(params)@) == params_view(old(params)@) + book_filter_params(filter, search),
{
    let ghost c0 = texts(conds@);
    let ghost p0 = params_view(params@);
    proof {
        reveal_strlit("all");
        reveal_strlit("reading");
        reveal_strlit("finished");
        reveal_strlit("unread");
        assert("reading"@.len() == 7 && "finished"@.len() == 8 && "unread"@.len() == 6);
        assert("all"@.len() == 3);
    }
    match filter {
        Some(f) => {
            if crate::text::str_eq(f, "reading") || crate::text::str_eq(f, "finished")
                || crate::text::str_eq(f, "unread") {
                let mut c = owned(col);
                c.append("status = ?");
                conds.push(c);
                params.push(SqlValue::Text(owned(f)));
            } else if crate::text::str_eq(f, "all") {
            } else {
                let mut c = owned(col);
                c.append("genre = ?");
                conds.push(c);
                params.push(SqlValue::Text(owned(f)));
            }
        },
        None => {},
    }
    let ghost c1 = texts(conds@);
    let ghost p1 = params_view(params@);
    assert(p1 =~= p0 + match filter {
        Some(f) => if f@ == "all"@ {
            Seq::empty()
        } else {
            seq![Param::Text(f@)]
        },
        None => Seq::<Param>::empty(),
    });
    match search {
        Some(q) => {
            if !q.is_empty() {
                let mut c = owned("(LOWER(");
                c.append(col);
                c.append("title) LIKE ? OR LOWER(");
                c.append(col);
                c.append("author) LIKE ?)");
                conds.push(c);
                let lowered = crate::text::to_lowercase(q);
                let mut pattern = owned("%");
                pattern.append(lowered.as_str());
                pattern.append("%");
                assert(pattern@ == book_search_pattern(q@));
                params.push(SqlValue::Text(pattern.clone()));
                params.push(SqlValue::Text(pattern));
                assert(params_view(params@) =~= p1 + seq![
                    Param::Text(book_search_pattern(q@)),
                    Param::Text(book_search_pattern(q@)),
                ]);
            }
        },
        None => {},
    }
    assert(texts(conds@) =~= c0 + book_filter_conds(col@, filter, search));
    assert(params_view(params@) =~= p0 + book_filter_params(filter, search));
}

/// The table expression of a library query: with a collection, books
/// joined to the collection's membership.
pub open spec fn book_from_spec(collection: bool) -> Seq<char> {
    if collection {
        "books INNER JOIN collection_books cb ON cb.book_id = books.id"@
    } else {
        "books"@
    }
}

/// The position a library page ends at: `updated_at:id` of its last book.
pub open spec fn book_cursor_spec(updated_at: i64, id: Seq<char>) -> Seq<char> {
    i64_text(updated_at) + ":"@ + id
}

/// Index of the first `:` of `s`, if any.
pub open spec fn first_colon(s: Seq<char>) -> Option<int>
    decreases s.len(),
{
    if s.len() == 0 {
        None
    } else if s[0] == ':' {
        Some(0)
    } else {
        match first_colon(s.drop_first()) {
            Some(i) => Some(i + 1),
            None => None,
        }
    }
}

/// The position a library cursor names: the text before the first `:` as
/// an `i64` timestamp, the rest as the id; nothing when it does not parse.
pub open spec fn parse_book_cursor_spec(c: Seq<char>) -> Option<(i64, Seq<char>)> {
    match first_colon(c) {
        Some(i) => match parse_i64_spec(c.take(i)) {
            Some(ts) => Some((ts, c.skip(i + 1))),
            None => None,
        },
        None => None,
    }
}

proof fn lemma_first_colon(s: Seq<char>, k: int)
    requires
        0 <= k <= s.len(),
        forall|j: int| 0 <= j < k ==> s[j] != ':',
        k < s.len() ==> s[k] == ':',
    ensures
        first_colon(s) == (if k < s.len() {
            Some(k)
        } else {
            None::<int>
        }),
    decreases k,
{
    if k > 0 {
        assert forall|j: int| 0 <= j < k - 1 implies s.drop_first()[j] != ':' by {
            assert(s.drop_first()[j] == s[j + 1]);
        }
        if k < s.len() {
            assert(s.drop_first()[k - 1] == s[k]);
        }
        lemma_first_colon(s.drop_first(), k - 1);
    }
}

/// Splits a library cursor into its timestamp and id.
pub fn parse_book_cursor(c: &str) -> (r: Option<(i64, String)>)
    ensures
        match r {
            Some((ts, id)) => parse_book_cursor_spec(c@) == Some((ts, id@)),
            None => parse_book_cursor_spec(c@) is None,
        },
{
    let n = c.unicode_len();
    let mut i: usize = 0;
    while i < n && c.get_char(i) != ':'
        invariant
            n == c@.len(),
            i <= n,
            forall|j: int| 0 <= j < i ==> c@[j] != ':',
        decreases n - i,
    {
        i = i + 1;
    }
    proof {
        lemma_first_colon(c@, i as int);
    }
    if i == n {
        return None;
    }
    match parse_i64(c.substring_char(0, i)) {
        Some(ts) => Some((ts, owned(c.substring_char(i + 1, n)))),
        None => None,
    }
}

/// Reading a cursor back gives the timestamp and id it was made from.
pub proof fn law_book_cursor_round_trip(updated_at: i64, id: Seq<char>)
    ensures
        parse_book_cursor_spec(book_cursor_spec(updated_at, id)) == Some((updated_at, id)),
{
    reveal_strlit(":");
    let t = i64_text(updated_at);
    let c = book_cursor_spec(updated_at, id);
    crate::codec::law_i64_text_round_trip(updated_at);
    lemma_i64_text_no_colon(updated_at);
    assert forall|j: int| 0 <= j < t.len() implies c[j] != ':' by {
        assert(c[j] == t[j]);
    }
    assert(c[t.len() as int] == ':');
    lemma_first_colon(c, t.len() as int);
    assert(c.take(t.len() as int) =~= t);
    assert(c.skip(t.len() as int + 1) =~= id);
}

proof fn lemma_i64_text_no_colon(n: i64)
    ensures
        forall|j: int| 0 <= j < i64_text(n).len() ==> i64_text(n)[j] != ':',
{
    if n < 0 {
        lemma_digits_no_colon((-n) as nat);
        let d = crate::codec::decimal_digits((-n) as nat);
        assert forall|j: int| 0 <= j < i64_text(n).len() implies i64_text(n)[j] != ':' by {
            if j > 0 {
                assert(i64_text(n)[j] == d[j - 1]);
            }
        }
    } else {
        lemma_digits_no_colon(n as nat);
    }
}

proof fn lemma_digits_no_colon(n: nat)
    ensures
        forall|j: int|
            0 <= j < crate::codec::decimal_digits(n).len() ==> crate::codec::decimal_digits(n)[j]
                != ':',
    decreases n,
{
    let d = crate::codec::decimal_digits(n);
    if n >= 10 {
        lemma_digits_no_colon(n / 10);
        assert forall|j: int| 0 <= j < d.len() implies d[j] != ':' by {
            if j < d.len() - 1 {
                assert(d[j] == crate::codec::decimal_digits(n / 10)[j]);
            }
        }
    }
}

/// The condition a cursor adds: books after the cursor in listing order
/// (newer-first by `updated_at`, then by id).
pub const BOOK_CURSOR_COND: &'static str =
    "(books.updated_at < ? OR (books.updated_at = ? AND books.id > ?))";

/// The columns of a listed book.
pub const BOOK_COLUMNS: &'static str = "SELECT books.id, books.title, books.author, books.description, books.cover_path, books.file_path, books.format, books.genre, books.pages, books.status, books.progress, books.current_cfi, books.created_at, books.updated_at, books.cover_data FROM ";

/// The order and page bound of a listing.
pub const BOOK_ORDER_LIMIT: &'static str = " ORDER BY books.updated_at DESC, books.id ASC LIMIT ?";

/// The conditions of a library listing before any cursor: collection
/// membership, then the filter and search.
pub open spec fn book_list_conds(
    filter: Option<&str>,
    search: Option<&str>,
    collection_id: Option<&str>,
) -> Seq<Seq<char>> {
    (if collection_id is Some {
        seq!["cb.collection_id = ?"@]
    } else {
        Seq::empty()
    }) + book_filter_conds("books."@, filter, search)
}

/// The parameters of [`book_list_conds`].
pub open spec fn book_list_params(
    filter: Option<&str>,
    search: Option<&str>,
    collection_id: Option<&str>,
) -> Seq<Param> {
    (match collection_id {
        Some(c) => seq![Param::Text(c@)],
        None => Seq::empty(),
    }) + book_filter_params(filter, search)
}

/// The two statements of a library page: the total count (ignoring the
/// cursor) and the page itself (one row beyond `limit`, to tell whether
/// another page follows).
pub open spec fn book_page_plan_spec(
    count: SqlQuery,
    page: SqlQuery,
    filter: Option<&str>,
    search: Option<&str>,
    collection_id: Option<&str>,
    cursor: Option<&str>,
    limit: usize,
) -> bool {
    let from = book_from_spec(collection_id is Some);
    let conds = book_list_conds(filter, search, collection_id);
    let params = book_list_params(filter, search, collection_id);
    let cursor_part = match cursor {
        Some(c) => parse_book_cursor_spec(c@),
        None => None,
    };
    let page_conds = match cursor_part {
        Some(_) => conds.push(BOOK_CURSOR_COND@),
        None => conds,
    };
    let page_params = match cursor_part {
        Some((ts, id)) => params + seq![Param::Int(ts), Param::Int(ts), Param::Text(id)],
        None => params,
    };
    &&& count.sql@ == "SELECT COUNT(*) FROM "@ + from + where_spec(conds)
    &&& params_view(count.params@) == params
    &&& page.sql@ == BOOK_COLUMNS@ + from + where_spec(page_conds) + BOOK_ORDER_LIMIT@
    &&& params_view(page.params@) == page_params.push(Param::Int((limit + 1) as i64))
}

/// The condition a filter other than `all` puts on a listing: the reading
/// status for `reading`, `finished` and `unread`, the genre otherwise.
pub open spec fn listing_filter_cond(f: Seq<char>) -> Seq<char> {
    if f == "reading"@ || f == "finished"@ || f == "unread"@ {
        "books.status = ?"@
    } else {
        "books.genre = ?"@
    }
}

/// Where the filter's condition and parameter sit in a listing: after the
/// collection's, when there is one.
pub open spec fn listing_filter_slot(collection_id: Option<&str>) -> int {
    if collection_id is Some {
        1
    } else {
        0
    }
}

/// The tables a listing reads: the books, joined to a collection's
/// membership when it lists one.
pub open spec fn listing_from(collection_id: Option<&str>) -> Seq<char> {
    if collection_id is Some {
        "books INNER JOIN collection_books cb ON cb.book_id = books.id"@
    } else {
        "books"@
    }
}

/// The filter of a library listing: `reading`, `finished` and `unread`
/// match the reading status, `all` matches everything, and any other
/// filter is a genre. Both statements of a page (the count and the page)
/// carry that one condition right after the collection's, bound to the
/// filter itself.
pub proof fn law_book_filter_condition(
    count: SqlQuery,
    page: SqlQuery,
    f: &str,
    search: Option<&str>,
    collection_id: Option<&str>,
    cursor: Option<&str>,
    limit: usize,
)
    requires
        book_page_plan_spec(count, page, Some(f), search, collection_id, cursor, limit),
        f@ != "all"@,
    ensures
        exists|cs: Seq<Seq<char>>|
            listing_filter_slot(collection_id) < cs.len() && #[trigger] cs[listing_filter_slot(collection_id)]
                == listing_filter_cond(f@) && count.sql@ == "SELECT COUNT(*) FROM "@ + listing_from(collection_id)
                + where_spec(cs),
        params_view(count.params@).len() > listing_filter_slot(collection_id),
        params_view(count.params@)[listing_filter_slot(collection_id)] == Param::Text(f@),
        exists|cs: Seq<Seq<char>>|
            listing_filter_slot(collection_id) < cs.len() && #[trigger] cs[listing_filter_slot(collection_id)]
                == listing_filter_cond(f@) && page.sql@ == BOOK_COLUMNS@ + listing_from(collection_id) + where_spec(
                cs,
            ) + BOOK_ORDER_LIMIT@,
        params_view(page.params@).len() > listing_filter_slot(collection_id),
        params_view(page.params@)[listing_filter_slot(collection_id)] == Param::Text(f@),
{
    reveal_strlit("books.");
    reveal_strlit("status = ?");
    reveal_strlit("genre = ?");
    reveal_strlit("books.status = ?");
    reveal_strlit("books.genre = ?");
    reveal_strlit("all");
    let k: int = if collection_id is Some { 1 } else { 0 };
    let conds = book_list_conds(Some(f), search, collection_id);
    let params = book_list_params(Some(f), search, collection_id);
    let cond = listing_filter_cond(f@);
    assert("books."@ + "status = ?"@ =~= "books.status = ?"@);
    assert("books."@ + "genre = ?"@ =~= "books.genre = ?"@);
    assert(conds[k] == cond);
    assert(params[k] == Param::Text(f@));
    let cursor_part = match cursor {
        Some(c) => parse_book_cursor_spec(c@),
        None => None,
    };
    let page_conds = match cursor_part {
        Some(_) => conds.push(BOOK_CURSOR_COND@),
        None => conds,
    };
    let page_params = match cursor_part {
        Some((ts, id)) => params + seq![Param::Int(ts), Param::Int(ts), Param::Text(id)],
        None => params,
    };
    assert(page_conds[k] == cond);
    assert(page_params[k] == Param::Text(f@));
    assert(params_view(page.params@) == page_params.push(Param::Int((limit + 1) as i64)));
    assert(params_view(page.params@)[k] == page_params[k]);
    let from = book_from_spec(collection_id is Some);
    assert(count.sql@ == "SELECT COUNT(*) FROM "@ + from + where_spec(conds));
    assert(k < conds.len() && conds[k] == cond);
    assert(page.sql@ == BOOK_COLUMNS@ + from + where_spec(page_conds) + BOOK_ORDER_LIMIT@);
    assert(k < page_conds.len() && page_conds[k] == cond);
}

/// Without a filter, or with `all`, a listing has no status or genre
/// condition; a non-empty search adds, last, a condition matching the
/// lower-cased title or author against the lower-cased query inside `%`,
/// bound twice.
pub proof fn law_book_listing_all_and_search(
    count: SqlQuery,
    page: SqlQuery,
    filter: Option<&str>,
    search: Option<&str>,
    collection_id: Option<&str>,
    cursor: Option<&str>,
    limit: usize,
)
    requires
        book_page_plan_spec(count, page, filter, search, collection_id, cursor, limit),
    ensures
        (filter is None || filter.unwrap()@ == "all"@) ==> exists|cs: Seq<Seq<char>>|
            count.sql@ == "SELECT COUNT(*) FROM "@ + listing_from(collection_id) + where_spec(cs) && (forall|i: int|
                0 <= i < cs.len() ==> #[trigger] cs[i] != "books.status = ?"@ && cs[i] != "books.genre = ?"@),
        (search matches Some(q) && q@.len() > 0) ==> ({
            let pat = Param::Text("%"@ + spec_str_to_lowercase(search.unwrap()@) + "%"@);
            let ps = params_view(count.params@);
            &&& ps.len() >= 2 && ps[ps.len() - 1] == pat && ps[ps.len() - 2] == pat
            &&& exists|cs: Seq<Seq<char>>|
                cs.len() > 0 && #[trigger] cs.last() == "(LOWER(books.title) LIKE ? OR LOWER(books.author) LIKE ?)"@
                    && count.sql@ == "SELECT COUNT(*) FROM "@ + listing_from(collection_id) + where_spec(cs)
        }),
{
    reveal_strlit("books.");
    reveal_strlit("(LOWER(");
    reveal_strlit("title) LIKE ? OR LOWER(");
    reveal_strlit("author) LIKE ?)");
    reveal_strlit("(LOWER(books.title) LIKE ? OR LOWER(books.author) LIKE ?)");
    reveal_strlit("books.status = ?");
    reveal_strlit("books.genre = ?");
    reveal_strlit("cb.collection_id = ?");
    reveal_strlit("all");
    let conds = book_list_conds(filter, search, collection_id);
    let params = book_list_params(filter, search, collection_id);
    assert(count.sql@ == "SELECT COUNT(*) FROM "@ + listing_from(collection_id) + where_spec(conds));
    if filter is None || filter.unwrap()@ == "all"@ {
        assert forall|i: int| 0 <= i < conds.len() implies #[trigger] conds[i] != "books.status = ?"@ && conds[i]
            != "books.genre = ?"@ by {
            let cp: Seq<Seq<char>> = if collection_id is Some {
                seq!["cb.collection_id = ?"@]
            } else {
                Seq::empty()
            };
            let sc = "(LOWER("@ + "books."@ + "title) LIKE ? OR LOWER("@ + "books."@ + "author) LIKE ?)"@;
            let fc = book_filter_conds("books."@, filter, search);
            assert(conds == cp + fc);
            reveal_strlit("reading");
            reveal_strlit("finished");
            reveal_strlit("unread");
            assert("all"@.len() == 3 && "reading"@.len() == 7 && "finished"@.len() == 8 && "unread"@.len() == 6);
            assert(!is_status_filter("all"@));
            assert(fc.len() <= 1);
            assert(fc.len() == 1 ==> fc[0] == sc);
            if i < cp.len() {
                assert(conds[i] == "cb.collection_id = ?"@);
            } else {
                assert(conds[i] == fc[i - cp.len()]);
                assert(conds[i] == sc);
            }
            assert("cb.collection_id = ?"@.len() != "books.status = ?"@.len());
            assert("cb.collection_id = ?"@.len() != "books.genre = ?"@.len());
            assert(("(LOWER("@ + "books."@ + "title) LIKE ? OR LOWER("@ + "books."@ + "author) LIKE ?)"@).len()
                != "books.status = ?"@.len());
            assert(("(LOWER("@ + "books."@ + "title) LIKE ? OR LOWER("@ + "books."@ + "author) LIKE ?)"@).len()
                != "books.genre = ?"@.len());
        }
    }
    if search matches Some(q) && q@.len() > 0 {
        assert("(LOWER("@ + "books."@ + "title) LIKE ? OR LOWER("@ + "books."@ + "author) LIKE ?)"@
            =~= "(LOWER(books.title) LIKE ? OR LOWER(books.author) LIKE ?)"@);
        assert(conds.last() == "(LOWER(books.title) LIKE ? OR LOWER(books.author) LIKE ?)"@);
        assert(params_view(count.params@) == params);
    }
}

fn clone_values(v: &Vec<SqlValue>) -> (r: Vec<SqlValue>)
    ensures
        params_view(r@) == params_view(v@),
{
    let mut out: Vec<SqlValue> = Vec::new();
    let mut i: usize = 0;
    while i < v.len()
        invariant
            i <= v@.len(),
            out@.len() == i,
            forall|j: int| 0 <= j < i ==> out@[j]@ == v@[j]@,
        decreases v@.len() - i,
    {
        let x = match &v[i] {
            SqlValue::Text(s) => SqlValue::Text(s.clone()),
            SqlValue::Int(n) => SqlValue::Int(*n),
        };
        out.push(x);
        i = i + 1;
    }
    assert(params_view(out@) =~= params_view(v@));
    out
}

fn clone_texts(v: &Vec<String>) -> (r: Vec<String>)
    ensures
        texts(r@) == texts(v@),
{
    let mut out: Vec<String> = Vec::new();
    let mut i: usize = 0;
    while i < v.len()
        invariant
            i <= v@.len(),
            out@.len() == i,
            forall|j: int| 0 <= j < i ==> out@[j]@ == v@[j]@,
        decreases v@.len() - i,
    {
        out.push(v[i].clone());
        i = i + 1;
    }
    assert(texts(out@) =~= texts(v@));
    out
}

/// Plans the statements of one page of the library listing.
pub fn book_page_plan(
    filter: Option<&str>,
    search: Option<&str>,
    collection_id: Option<&str>,
    cursor: Option<&str>,
    limit: usize,
) -> (r: (SqlQuery, SqlQuery))
    requires
        limit < usize::MAX,
    ensures
        book_page_plan_spec(r.0, r.1, filter, search, collection_id, cursor, limit),
{
    let mut conds: Vec<String> = Vec::new();
    let mut params: Vec<SqlValue> = Vec::new();
    match collection_id {
        Some(c) => {
            conds.push(owned("cb.collection_id = ?"));
            params.push(SqlValue::Text(owned(c)));
        },
        None => {},
    }
    push_book_filters(&mut conds, &mut params, "books.", filter, search);
    assert(texts(conds@) =~= book_list_conds(filter, search, collection_id));
    assert(params_view(params@) =~= book_list_params(filter, search, collection_id));
    let from = if collection_id.is_some() {
        owned("books INNER JOIN collection_books cb ON cb.book_id = books.id")
    } else {
        owned("books")
    };
    let mut count_sql = owned("SELECT COUNT(*) FROM ");
    count_sql.append(from.as_str());
    let w = where_clause(&conds);
    count_sql.append(w.as_str());
    let count = SqlQuery { sql: count_sql, params: clone_values(&params) };
    let mut page_conds = clone_texts(&conds);
    let cursor_part = match cursor {
        Some(c) => parse_book_cursor(c),
        None => None,
    };
    match cursor_part {
        Some((ts, id)) => {
            page_conds.push(owned(BOOK_CURSOR_COND));
            let ghost p_before = params_view(params@);
            let ghost idv = id@;
            params.push(SqlValue::Int(ts));
            params.push(SqlValue::Int(ts));
            params.push(SqlValue::Text(id));
            assert(params_view(params@) =~= p_before + seq![
                Param::Int(ts),
                Param::Int(ts),
                Param::Text(idv),
            ]);
        },
        None => {},
    }
    let mut page_sql = owned(BOOK_COLUMNS);
    page_sql.append(from.as_str());
    let pw = where_clause(&page_conds);
    page_sql.append(pw.as_str());
    page_sql.append(BOOK_ORDER_LIMIT);
    let bound = (#[verifier::truncate] ((limit + 1) as i64));
    let ghost before_bound = params_view(params@);
    params.push(SqlValue::Int(bound));
    assert(params_view(params@) =~= before_bound.push(Param::Int(bound)));
    let page = SqlQuery { sql: page_sql, params };
    proof {
        let ghost cp = match cursor {
            Some(c) => parse_book_cursor_spec(c@),
            None => None,
        };
        match cp {
            Some(_) => {
                assert(texts(page_conds@) =~= book_list_conds(filter, search, collection_id).push(
                    BOOK_CURSOR_COND@,
                ));
            },
            None => {},
        }
    }
    (count, page)
}

/// The page of a listing fetched with one extra row: at most `limit`
/// books, and the cursor of the last one when more follow.
pub open spec fn book_page_spec(
    rows: Seq<Book>,
    limit: usize,
    books: Seq<Book>,
    next_cursor: Option<String>,
) -> bool {
    if rows.len() > limit {
        &&& books == rows.take(limit as int)
        &&& next_cursor matches Some(c) && c@ == book_cursor_spec(
            rows[limit - 1].updated_at,
            rows[limit - 1].id@,
        )
    } else {
        books == rows && next_cursor is None
    }
}

/// Cuts the fetched rows to a page and computes the next cursor. A zero
/// `limit` only works when nothing was fetched.
pub fn paginate_books(rows: Vec<Book>, limit: usize) -> (r: (Vec<Book>, Option<String>))
    requires
        rows@.len() > limit ==> limit > 0,
    ensures
        book_page_spec(rows@, limit, r.0@, r.1),
{
    let mut rows = rows;
    if rows.len() > limit {
        rows.truncate(limit);
        let last = &rows[limit - 1];
        let mut cursor = format_i64(last.updated_at);
        cursor.append(":");
        cursor.append(last.id.as_str());
        (rows, Some(cursor))
    } else {
        (rows, None)
    }
}

/// One page of the library listing.
#[derive(Debug)]
pub struct BookPage {
    pub books: Vec<Book>,
    pub next_cursor: Option<String>,
    pub total: usize,
}

/// Book counts for the library sidebar.
#[derive(Debug)]
pub struct BookCounts {
    pub all: usize,
    pub reading: usize,
    pub finished: usize,
}

/// The MCP listing's statement: filter and search on bare columns, a
/// `has_cover` flag in place of the cover bytes, newest first, at most
/// `limit` books.
pub open spec fn lite_plan_spec(q: SqlQuery, filter: Option<&str>, search: Option<&str>, limit: usize) -> bool {
    &&& q.sql@ == LITE_COLUMNS@ + where_spec(book_filter_conds(Seq::empty(), filter, search))
        + " ORDER BY updated_at DESC LIMIT ?"@
    &&& params_view(q.params@) == book_filter_params(filter, search).push(Param::Int(limit as i64))
}

/// The columns of the MCP listing.
pub const LITE_COLUMNS: &'static str = "SELECT id, title, author, description, cover_path, file_path, format, genre, pages, status, progress, current_cfi, created_at, updated_at, (cover_data IS NOT NULL AND LENGTH(cover_data) > 0) AS has_cover FROM books";

/// Plans the MCP listing's statement.
pub fn lite_book_plan(filter: Option<&str>, search: Option<&str>, limit: usize) -> (r: SqlQuery)
    ensures
        lite_plan_spec(r, filter, search, limit),
{
    let mut conds: Vec<String> = Vec::new();
    let mut params: Vec<SqlValue> = Vec::new();
    proof {
        reveal_strlit("");
        assert(""@ =~= Seq::<char>::empty());
    }
    push_book_filters(&mut conds, &mut params, "", filter, search);
    assert(texts(conds@) =~= book_filter_conds(Seq::empty(), filter, search));
    let mut sql = owned(LITE_COLUMNS);
    let w = where_clause(&conds);
    sql.append(w.as_str());
    sql.append(" ORDER BY updated_at DESC LIMIT ?");
    let bound = (#[verifier::truncate] (limit as i64));
    let ghost before_bound = params_view(params@);
    params.push(SqlValue::Int(bound));
    assert(params_view(params@) =~= before_bound.push(Param::Int(bound)));
    SqlQuery { sql, params }
}

/// The marker the MCP listing puts in `cover_data` for a book with a cover.
pub fn lite_cover_marker(has_cover: bool) -> (r: Option<String>)
    ensures
        has_cover ==> (r matches Some(m) && m@ == "has_cover"@),
        !has_cover ==> r is None,
{
    if has_cover {
        Some(owned("has_cover"))
    } else {
        None
    }
}


/// A stored path made absolute against the data directory, unless it
/// already is.
pub open spec fn resolved_spec(data_dir: Seq<char>, p: Seq<char>) -> Seq<char> {
    if crate::paths::is_absolute_spec(p) {
        p
    } else {
        crate::paths::join_spec(data_dir, p)
    }
}

/// Makes a book's stored file and cover paths absolute against the data
/// directory; the cover sentinel `none` is left alone. Nothing else of the
/// book changes.
pub fn resolve_book_paths(book: &mut Book, data_dir: &str)
    ensures
        final(book).file_path@ == resolved_spec(data_dir@, old(book).file_path@),
        opt_view(final(book).cover_path) == match old(book).cover_path {
            Some(c) => if c@ == "none"@ {
                Some(c@)
            } else {
                Some(resolved_spec(data_dir@, c@))
            },
            None => None,
        },
        final(book).id == old(book).id,
        final(book).title == old(book).title,
        final(book).author == old(book).author,
        final(book).description == old(book).description,
        final(book).format == old(book).format,
        final(book).genre == old(book).genre,
        final(book).pages == old(book).pages,
        final(book).status == old(book).status,
        final(book).progress == old(book).progress,
        final(book).current_cfi == old(book).current_cfi,
        final(book).created_at == old(book).created_at,
        final(book).updated_at == old(book).updated_at,
        final(book).available == old(book).available,
        final(book).cover_data == old(book).cover_data,
{
    if !crate::paths::is_absolute(book.file_path.as_str()) {
        book.file_path = crate::paths::join(data_dir, book.file_path.as_str());
    }
    let new_cover = match &book.cover_path {
        Some(c) => {
            if !crate::text::str_eq(c.as_str(), "none") && !crate::paths::is_absolute(c.as_str()) {
                Some(crate::paths::join(data_dir, c.as_str()))
            } else {
                Some(c.clone())
            }
        },
        None => None,
    };
    book.cover_path = new_cover;
}

/// What an MCP client sees of a book: the stored (relative) paths, no
/// availability, and only whether a cover exists.
#[derive(Debug)]
pub struct McpBook {
    pub id: String,
    pub title: String,
    pub author: String,
    pub description: Option<String>,
    pub file_path: String,
    pub format: String,
    pub genre: Option<String>,
    pub pages: Option<i32>,
    pub status: String,
    pub progress: i32,
    pub current_cfi: Option<String>,
    pub created_at: i64,
    pub updated_at: i64,
    pub has_cover: bool,
}

impl McpBook {
    /// Projects a book for MCP: `has_cover` when it has non-empty cover data.
    pub fn from_book(b: Book) -> (r: McpBook)
        ensures
            r.id == b.id,
            r.title == b.title,
            r.author == b.author,
            r.description == b.description,
            r.file_path == b.file_path,
            r.format == b.format,
            r.genre == b.genre,
            r.pages == b.pages,
            r.status == b.status,
            r.progress == b.progress,
            r.current_cfi == b.current_cfi,
            r.created_at == b.created_at,
            r.updated_at == b.updated_at,
            r.has_cover == (b.cover_data matches Some(d) && d@.len() > 0),
    {
        let has_cover = match &b.cover_data {
            Some(d) => !d.as_str().is_empty(),
            None => false,
        };
        McpBook {
            id: b.id,
            title: b.title,
            author: b.author,
            description: b.description,
            file_path: b.file_path,
            format: b.format,
            genre: b.genre,
            pages: b.pages,
            status: b.status,
            progress: b.progress,
            current_cfi: b.current_cfi,
            created_at: b.created_at,
            updated_at: b.updated_at,
            has_cover,
        }
    }
}

/// A book column an edit can set.
#[derive(Debug, Clone, Copy, PartialEq, Eq)]
pub enum BookField {
    Title,
    Author,
    Genre,
    Status,
}

/// The column name of an editable field.
pub open spec fn book_field_column(f: BookField) -> Seq<char> {
    match f {
        BookField::Title => "title"@,
        BookField::Author => "author"@,
        BookField::Genre => "genre"@,
        BookField::Status => "status"@,
    }
}

/// The statement that sets one field of a book, stamping the edit time and
/// device.
pub open spec fn field_update_sql(f: BookField) -> Seq<char> {
    "UPDATE books SET "@ + book_field_column(f)
        + " = ?1, updated_at = ?2, updated_by_device = ?3 WHERE id = ?4"@
}

/// The edits of a partial book update, in the order title, author, genre,
/// status, each present only when its value was given.
pub open spec fn book_edits_spec(
    title: Option<&str>,
    author: Option<&str>,
    genre: Option<&str>,
    status: Option<&str>,
) -> Seq<(BookField, Seq<char>)> {
    (match title {
        Some(v) => seq![(BookField::Title, v@)],
        None => Seq::empty(),
    }) + (match author {
        Some(v) => seq![(BookField::Author, v@)],
        None => Seq::empty(),
    }) + (match genre {
        Some(v) => seq![(BookField::Genre, v@)],
        None => Seq::empty(),
    }) + (match status {
        Some(v) => seq![(BookField::Status, v@)],
        None => Seq::empty(),
    })
}

/// One edit of a book.
#[derive(Debug)]
pub struct BookEdit {
    pub field: BookField,
    pub value: String,
    pub statement: SqlQuery,
}

fn push_edit(out: &mut Vec<BookEdit>, field: BookField, value: &str, id: &str, now: i64, device: &str)
    ensures
        final(out)@.len() == old(out)@.len() + 1,
        forall|j: int| 0 <= j < old(out)@.len() ==> final(out)@[j] == old(out)@[j],
        book_edit_ok(final(out)@.last(), field, value@, id@, now, device@),
{
    let mut sql = owned("UPDATE books SET ");
    let col = match field {
        BookField::Title => "title",
        BookField::Author => "author",
        BookField::Genre => "genre",
        BookField::Status => "status",
    };
    sql.append(col);
    sql.append(" = ?1, updated_at = ?2, updated_by_device = ?3 WHERE id = ?4");
    let mut params: Vec<SqlValue> = Vec::new();
    params.push(SqlValue::Text(owned(value)));
    params.push(SqlValue::Int(now));
    params.push(SqlValue::Text(owned(device)));
    params.push(SqlValue::Text(owned(id)));
    assert(params_view(params@) =~= seq![
        Param::Text(value@),
        Param::Int(now),
        Param::Text(device@),
        Param::Text(id@),
    ]);
    out.push(BookEdit { field, value: owned(value), statement: SqlQuery { sql, params } });
}

/// One edit is the update of its field to its value, for this book, now,
/// by this device.
pub open spec fn book_edit_ok(
    e: BookEdit,
    field: BookField,
    value: Seq<char>,
    id: Seq<char>,
    now: i64,
    device: Seq<char>,
) -> bool {
    &&& e.field == field
    &&& e.value@ == value
    &&& e.statement.sql@ == field_update_sql(field)
    &&& params_view(e.statement.params@) == seq![
        Param::Text(value),
        Param::Int(now),
        Param::Text(device),
        Param::Text(id),
    ]
}

/// The edits of a partial book update.
pub fn book_edits(
    id: &str,
    title: Option<&str>,
    author: Option<&str>,
    genre: Option<&str>,
    status: Option<&str>,
    now: i64,
    device: &str,
) -> (r: Vec<BookEdit>)
    ensures
        r@.len() == book_edits_spec(title, author, genre, status).len(),
        forall|j: int|
            0 <= j < r@.len() ==> book_edit_ok(
                #[trigger] r@[j],
                book_edits_spec(title, author, genre, status)[j].0,
                book_edits_spec(title, author, genre, status)[j].1,
                id@,
                now,
                device@,
            ),
{
    let ghost spec = book_edits_spec(title, author, genre, status);
    let mut out: Vec<BookEdit> = Vec::new();
    let ghost s1 = match title {
        Some(v) => seq![(BookField::Title, v@)],
        None => Seq::<(BookField, Seq<char>)>::empty(),
    };
    match title {
        Some(v) => push_edit(&mut out, BookField::Title, v, id, now, device),
        None => {},
    }
    let ghost s2 = s1 + match author {
        Some(v) => seq![(BookField::Author, v@)],
        None => Seq::<(BookField, Seq<char>)>::empty(),
    };
    match author {
        Some(v) => push_edit(&mut out, BookField::Author, v, id, now, device),
        None => {},
    }
    let ghost s3 = s2 + match genre {
        Some(v) => seq![(BookField::Genre, v@)],
        None => Seq::<(BookField, Seq<char>)>::empty(),
    };
    match genre {
        Some(v) => push_edit(&mut out, BookField::Genre, v, id, now, device),
        None => {},
    }
    match status {
        Some(v) => push_edit(&mut out, BookField::Status, v, id, now, device),
        None => {},
    }
    assert(spec =~= s3 + match status {
        Some(v) => seq![(BookField::Status, v@)],
        None => Seq::<(BookField, Seq<char>)>::empty(),
    });
    out
}

} // verus!
