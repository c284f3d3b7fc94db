use quill::library::{
    book_filename, cover_blob_to_data_uri, cover_mime, file_extension, import_format,
    mcp_import_format, parse_book_cursor, pdf_fallback_title, slugify, unsupported_format_message,
    BookFormat,
};

#[test]
fn slugify_does_not_panic_on_cjk_title_at_byte_boundary() {
    let title = "百年孤独(根据马尔克斯指定版本翻译,未做任何增删)";
    let slug = slugify(title);
    assert!(!slug.is_empty());
    assert!(slug.chars().count() > 0);
    let _ = book_filename(title, "abcdef0123456789", "epub");
}

#[test]
fn slugify_truncates_long_ascii_at_word_boundary() {
    let title = "the quick brown fox jumps over the lazy dog and then keeps on running";
    let slug = slugify(title);
    assert!(slug.len() <= 60);
    assert!(slug.starts_with("the-quick-brown-fox"));
    assert!(!slug.ends_with('-'));
}

#[test]
fn slug_and_file_name_exact_values() {
    assert_eq!(slugify("Hello, World!  Again"), "hello-world-again");
    assert_eq!(slugify("a_b-c"), "a_b-c");
    assert_eq!(slugify("???"), "");
    assert_eq!(book_filename("Moby Dick", "0123456789abcdef", "epub"), "moby-dick_01234567.epub");
    assert_eq!(book_filename("!!!", "0123456789abcdef", "pdf"), "0123456789abcdef.pdf");
    let long = slugify("the quick brown fox jumps over the lazy dog and then keeps on running");
    assert_eq!(long, "the-quick-brown-fox-jumps-over-the-lazy-dog-and-then-keeps");
}

#[test]
fn covers_become_data_uris_by_sniffed_type() {
    assert_eq!(cover_mime(b"\x89PNG\r\n"), "image/png");
    assert_eq!(cover_mime(b"\xFF\xD8\xFF\xE0"), "image/jpeg");
    assert_eq!(cover_mime(b"GIF89a"), "image/gif");
    assert_eq!(cover_mime(b"RIFF\0\0\0\0WEBPVP8 "), "image/webp");
    assert_eq!(cover_mime(b"RIFF\0\0\0\0WEBP"), "image/png");
    assert_eq!(cover_mime(b"??"), "image/png");
    assert_eq!(cover_blob_to_data_uri(b"GIF8"), "data:image/gif;base64,R0lGOA==");
    assert_eq!(cover_blob_to_data_uri(b"\xFF\xD8\xFF"), "data:image/jpeg;base64,/9j/");
}

#[test]
fn import_formats_by_extension() {
    assert_eq!(file_extension("/a/b/Book.PDF"), "pdf");
    assert_eq!(file_extension("noext"), "noext");
    assert!(matches!(import_format("/x/y.pdf"), BookFormat::Pdf));
    assert!(matches!(import_format("/x/y.txt"), BookFormat::Epub));
    assert!(matches!(mcp_import_format("/x/y.EPUB"), Ok(BookFormat::Epub)));
    assert_eq!(mcp_import_format("/x/y.mobi").unwrap_err(), "mobi");
    assert_eq!(unsupported_format_message("txt"), "Unsupported format '.txt'. Only .epub and .pdf are supported.");
    assert_eq!(pdf_fallback_title("/books/My Paper.pdf"), "My Paper");
}

#[test]
fn book_cursors_parse_back() {
    assert_eq!(parse_book_cursor("1700:abc:def"), Some((1700, "abc:def".to_string())));
    assert_eq!(parse_book_cursor("-5:x"), Some((-5, "x".to_string())));
    assert_eq!(parse_book_cursor("nocolon"), None);
    assert_eq!(parse_book_cursor("12a:x"), None);
}

fn book(id: &str, updated_at: i64) -> quill::library::Book {
    quill::library::Book {
        id: id.to_string(),
        title: id.to_string(),
        author: String::new(),
        description: None,
        cover_path: None,
        file_path: format!("books/{id}.epub"),
        format: "epub".to_string(),
        genre: None,
        pages: None,
        status: "unread".to_string(),
        progress: 0,
        current_cfi: None,
        created_at: updated_at,
        updated_at,
        available: true,
        cover_data: None,
    }
}

#[test]
fn paging_walks_the_listing_without_gaps() {
    // The listing order: newest first, then by id; several rows share a time.
    let all: Vec<(i64, &str)> = vec![(9, "a"), (9, "b"), (7, "a"), (7, "c"), (7, "d"), (5, "z"), (1, "m")];
    for limit in 1..5usize {
        let mut seen: Vec<(i64, String)> = Vec::new();
        let mut cursor: Option<String> = None;
        loop {
            // What the page query returns: rows after the cursor, one extra.
            let after: Vec<quill::library::Book> = all
                .iter()
                .filter(|(ts, id)| match cursor.as_deref().and_then(parse_book_cursor) {
                    Some((cts, cid)) => *ts < cts || (*ts == cts && *id > cid.as_str()),
                    None => true,
                })
                .take(limit + 1)
                .map(|(ts, id)| book(id, *ts))
                .collect();
            let (page, next) = quill::library::paginate_books(after, limit);
            seen.extend(page.iter().map(|b| (b.updated_at, b.id.clone())));
            match next {
                Some(c) => cursor = Some(c),
                None => break,
            }
        }
        let expected: Vec<(i64, String)> = all.iter().map(|(t, i)| (*t, i.to_string())).collect();
        assert_eq!(seen, expected, "limit {limit}");
    }
}
