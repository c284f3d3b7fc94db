use std::io::{Cursor, Write};

use quill::container::container_package_path_suspect;
use quill::ebook::{
    count_chapters, cover_extension, cover_file_name, extract_metadata,
    is_image_resource, read_epub, resolve_cover,
    EpubError,
};
use zip::write::SimpleFileOptions;
use zip::{CompressionMethod, ZipWriter};

const CONTAINER: &str = r#"<?xml version="1.0"?>
<container version="1.0" xmlns="urn:oasis:names:tc:opendocument:xmlns:container">
  <rootfiles>
    <rootfile full-path="OEBPS/content.opf" media-type="application/oebps-package+xml"/>
  </rootfiles>
</container>"#;

fn build_epub(opf: &str, files: &[(&str, &[u8])]) -> Vec<u8> {
    build_epub_with(CONTAINER, opf, files)
}

fn build_epub_with(container: &str, opf: &str, files: &[(&str, &[u8])]) -> Vec<u8> {
    let mut zip = ZipWriter::new(Cursor::new(Vec::new()));
    let stored = SimpleFileOptions::default().compression_method(CompressionMethod::Stored);
    zip.start_file("mimetype", stored).unwrap();
    zip.write_all(b"application/epub+zip").unwrap();
    zip.start_file("META-INF/container.xml", stored).unwrap();
    zip.write_all(container.as_bytes()).unwrap();
    zip.start_file("OEBPS/content.opf", stored).unwrap();
    zip.write_all(opf.as_bytes()).unwrap();
    for (name, data) in files {
        zip.start_file(format!("OEBPS/{name}"), stored).unwrap();
        zip.write_all(data).unwrap();
    }
    zip.finish().unwrap().into_inner()
}

fn opf(version: &str, metadata: &str, manifest: &str, spine: &str) -> String {
    format!(
        r#"<?xml version="1.0" encoding="UTF-8"?>
<package xmlns="http://www.idpf.org/2007/opf" version="{version}" unique-identifier="uid">
  <metadata xmlns:dc="http://purl.org/dc/elements/1.1/" xmlns:opf="http://www.idpf.org/2007/opf">
    <dc:identifier id="uid">urn:uuid:1234</dc:identifier>
    {metadata}
  </metadata>
  <manifest>
    {manifest}
  </manifest>
  <spine>
    {spine}
  </spine>
</package>"#
    )
}

const XHTML: &[u8] = b"<html xmlns=\"http://www.w3.org/1999/xhtml\"><body><p>x</p></body></html>";
const PNG: &[u8] = b"\x89PNG fake image bytes";
const GIF: &[u8] = b"GIF89a fake";

#[test]
fn epub2_cover_meta_and_metadata() {
    let bytes = build_epub(
        &opf(
            "2.0",
            r#"<dc:title>Moby Dick</dc:title><dc:creator>Herman Melville</dc:creator>
               <dc:description>A whale.</dc:description><meta name="cover" content="cover-img"/>"#,
            r#"<item id="ch1" href="ch1.xhtml" media-type="application/xhtml+xml"/>
               <item id="ch2" href="ch2.xhtml" media-type="application/xhtml+xml"/>
               <item id="cover-img" href="cover.png" media-type="image/png"/>"#,
            r#"<itemref idref="ch1"/><itemref idref="ch2"/>"#,
        ),
        &[("ch1.xhtml", XHTML), ("ch2.xhtml", XHTML), ("cover.png", PNG)],
    );
    let mut doc = read_epub(bytes).unwrap();
    let x = extract_metadata(&mut doc, "book-1");
    assert_eq!(x.metadata.title, "Moby Dick");
    assert_eq!(x.metadata.author, "Herman Melville");
    assert_eq!(x.metadata.description.as_deref(), Some("A whale."));
    assert_eq!(x.metadata.cover_path.as_deref(), Some("covers/book-1.png"));
    let cover = x.cover.unwrap();
    assert_eq!(cover.file_name, "book-1.png");
    assert_eq!(cover.data, PNG);
    assert_eq!(count_chapters(&doc), 2);
}

#[test]
fn epub3_cover_image_property() {
    let bytes = build_epub(
        &opf(
            "3.0",
            r#"<dc:title>T</dc:title>"#,
            r#"<item id="c1" href="ch1.xhtml" media-type="application/xhtml+xml"/>
               <item id="img" href="art.gif" media-type="image/gif" properties="cover-image"/>"#,
            r#"<itemref idref="c1"/>"#,
        ),
        &[("ch1.xhtml", XHTML), ("art.gif", GIF)],
    );
    let mut doc = read_epub(bytes).unwrap();
    let x = extract_metadata(&mut doc, "b3");
    assert_eq!(x.metadata.author, "Unknown Author");
    assert_eq!(x.metadata.description, None);
    assert_eq!(x.metadata.cover_path.as_deref(), Some("covers/b3.gif"));
    assert_eq!(x.cover.unwrap().data, GIF);
}

#[test]
fn conventional_ids_skip_cover_pages() {
    let bytes = build_epub(
        &opf(
            "2.0",
            "",
            r#"<item id="cover" href="cover.xhtml" media-type="application/xhtml+xml"/>
               <item id="ci" href="ci.jpeg" media-type="image/jpeg"/>"#,
            r#"<itemref idref="cover"/>"#,
        ),
        &[("cover.xhtml", XHTML), ("ci.jpeg", PNG)],
    );
    let mut doc = read_epub(bytes).unwrap();
    let x = extract_metadata(&mut doc, "b4");
    assert_eq!(x.metadata.title, "Untitled");
    assert_eq!(x.metadata.author, "Unknown Author");
    assert_eq!(x.metadata.cover_path.as_deref(), Some("covers/b4.jpg"));
    assert_eq!(count_chapters(&doc), 1);
}

#[test]
fn no_image_means_no_cover() {
    let bytes = build_epub(
        &opf(
            "2.0",
            r#"<dc:title>Plain</dc:title>"#,
            r#"<item id="ch1" href="ch1.xhtml" media-type="application/xhtml+xml"/>"#,
            r#"<itemref idref="ch1"/>"#,
        ),
        &[("ch1.xhtml", XHTML)],
    );
    let mut doc = read_epub(bytes).unwrap();
    let x = extract_metadata(&mut doc, "b5");
    assert_eq!(x.metadata.cover_path, None);
    assert!(x.cover.is_none());
}

#[test]
fn crate_cover_lookup_is_taken_as_found() {
    // The crate's own EPUB2 lookup follows the cover meta without looking
    // at the mime type; only the fallbacks insist on images.
    let bytes = build_epub(
        &opf(
            "2.0",
            r#"<dc:title>Plain</dc:title><meta name="cover" content="ch1"/>"#,
            r#"<item id="ch1" href="ch1.xhtml" media-type="application/xhtml+xml"/>"#,
            r#"<itemref idref="ch1"/>"#,
        ),
        &[("ch1.xhtml", XHTML)],
    );
    let mut doc = read_epub(bytes).unwrap();
    let x = extract_metadata(&mut doc, "b6");
    assert_eq!(x.metadata.cover_path.as_deref(), Some("covers/b6.jpg"));
    assert_eq!(x.cover.unwrap().data, XHTML);
}

#[test]
fn broken_bytes_are_refused() {
    assert!(matches!(read_epub(b"not a zip".to_vec()), Err(EpubError::Broken(_))));
}

#[test]
fn cover_naming() {
    assert!(is_image_resource("image/webp"));
    assert!(!is_image_resource("application/xhtml+xml"));
    assert_eq!(cover_extension("image/png"), "png");
    assert_eq!(cover_extension("image/gif"), "gif");
    assert_eq!(cover_extension("image/jpeg"), "jpg");
    assert_eq!(cover_extension("image/svg+xml"), "jpg");
    assert_eq!(cover_file_name("abc", "image/png"), "abc.png");
}

#[test]
fn resolve_cover_takes_the_lookup_result_before_the_fallbacks() {
    let bytes = build_epub(
        &opf(
            "2.0",
            r#"<dc:title>T</dc:title>"#,
            r#"<item id="c1" href="ch1.xhtml" media-type="application/xhtml+xml"/>
               <item id="ci" href="fallback.gif" media-type="image/gif"/>"#,
            r#"<itemref idref="c1"/>"#,
        ),
        &[("ch1.xhtml", XHTML), ("fallback.gif", GIF)],
    );
    let mut doc = read_epub(bytes).unwrap();
    let found = resolve_cover(Some((PNG.to_vec(), "image/png".to_string())), &mut doc, "b9").unwrap();
    assert_eq!(found.file_name, "b9.png");
    assert_eq!(found.data, PNG);
    let fallback = resolve_cover(None, &mut doc, "b9").unwrap();
    assert_eq!(fallback.file_name, "b9.gif");
    assert_eq!(fallback.data, GIF);
}

fn minimal_opf() -> String {
    opf("2.0", "<dc:title>T</dc:title>", r#"<item id="ch1" href="ch1.xhtml" media-type="application/xhtml+xml"/>"#, r#"<itemref idref="ch1"/>"#)
}

#[test]
fn package_path_without_parent_is_refused() {
    for path in ["", "/", "/./", "&#47;", "//.", "&#x2F;&#46;"] {
        let container = CONTAINER.replace("OEBPS/content.opf", path);
        let bytes = build_epub_with(&container, &minimal_opf(), &[("ch1.xhtml", XHTML)]);
        assert!(matches!(read_epub(bytes), Err(EpubError::PackagePath)), "path {path:?}");
    }
    assert_eq!(EpubError::PackagePath.message(), "the container names no package folder");
}

#[test]
fn package_paths_the_crate_opens_are_not_refused() {
    // A character reference at the start decodes to `OEBPS/content.opf`.
    let container = CONTAINER.replace("OEBPS/content.opf", "&#x4F;EBPS/content.opf");
    let bytes = build_epub_with(&container, &minimal_opf(), &[("ch1.xhtml", XHTML)]);
    assert!(read_epub(bytes).is_ok());
    // A comment or a later rootfile naming an empty path is not read.
    let container = CONTAINER
        .replace("<rootfiles>", "<!-- <rootfile full-path=\"\"/> --><rootfiles>")
        .replace("</rootfiles>", "<rootfile full-path=\"\" media-type=\"x\"/></rootfiles>");
    let bytes = build_epub_with(&container, &minimal_opf(), &[("ch1.xhtml", XHTML)]);
    assert!(read_epub(bytes).is_ok());
    // An absolute path with an entity has a parent folder: the crate's own
    // error, not a refusal.
    let container = CONTAINER.replace("OEBPS/content.opf", "/OEBPS/a&amp;b.opf");
    let bytes = build_epub_with(&container, &minimal_opf(), &[("ch1.xhtml", XHTML)]);
    assert!(!matches!(read_epub(bytes), Err(EpubError::PackagePath)));
}

#[test]
fn container_scan_reads_the_first_rootfile_below_the_root() {
    assert!(container_package_path_suspect(b"<c><rootfile full-path = '' /></c>"));
    assert!(container_package_path_suspect(
        b"<c xmlns:opf=\"urn:x\"><r><opf:rootfile opf:full-path=\"//.\"/></r></c>"
    ));
    assert!(!container_package_path_suspect(b"<c><rootfile full-path=\"OEBPS/content.opf\"/></c>"));
    assert!(!container_package_path_suspect(b"<c><rootfile full-path=\"/OEBPS/content.opf\"/></c>"));
    assert!(!container_package_path_suspect(b"<c><rootfile full-path=\".\"/></c>"));
    assert!(!container_package_path_suspect(b"<c><rootfile full-path=\"/..\"/></c>"));
    // The root element itself is never the rootfile read.
    assert!(!container_package_path_suspect(b"<rootfile full-path=\"\"/>"));
    // Only the first rootfile counts.
    assert!(!container_package_path_suspect(b"<c><rootfile full-path=\"a.opf\"/><rootfile full-path=\"\"/></c>"));
    // An entity the document declares is expanded; an undeclared one stops
    // the reader before the rootfile, and the crate reports its own error.
    assert!(container_package_path_suspect(b"<!DOCTYPE c [<!ENTITY p \"/\">]><c><rootfile full-path=\"&p;\"/></c>"));
    assert!(!container_package_path_suspect(b"<!DOCTYPE c [<!ENTITY p \"a/\">]><c><rootfile full-path=\"&p;b\"/></c>"));
    assert!(!container_package_path_suspect(b"<c><rootfile full-path=\"&p;\"/></c>"));
    // Too short for the crate to read at all.
    assert!(!container_package_path_suspect(b"<c>"));
    // UTF-16 with a byte order mark reads the same.
    let mut utf16: Vec<u8> = vec![0xFF, 0xFE];
    utf16.extend("<c><rootfile full-path=\"\"/></c>".bytes().flat_map(|b| [b, 0u8]));
    assert!(container_package_path_suspect(&utf16));
}
