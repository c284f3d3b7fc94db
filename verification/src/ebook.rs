//! Metadata and cover extraction from an EPUB opened with the `epub`
//! crate. The document stays the crate's; its metadata, resources and
//! spine are named here and the extraction rules are proved over them.
use vstd::prelude::*;

use epub::doc::{DocError, EpubDoc};
use std::io::Cursor;

use crate::container::{container_package_path_suspect, package_path_suspect};
use crate::text::{is_prefix, owned, starts_with};

verus! {

#[verifier::external_type_specification]
#[verifier::external_body]
pub struct ExDocError(DocError);

/// An EPUB opened from bytes held in memory. Verus refuses a declaration
/// of the crate's `EpubDoc` (its reader bound names std's `Read` and
/// `Seek`), so the document is held here, opaque, and read only through the
/// accessors below.
#[verifier::external_body]
pub struct EpubBook {
    doc: EpubDoc<Cursor<Vec<u8>>>,
}

/// The metadata items of a document, as (property, value) pairs in
/// document order.
pub uninterp spec fn epub_metadata(doc: EpubBook) -> Seq<(Seq<char>, Seq<char>)>;

/// The resources a document hands out, by manifest id: their bytes and
/// their mime type. An id whose archive entry cannot be read is absent.
pub uninterp spec fn epub_resources(doc: EpubBook) -> Map<Seq<char>, (Seq<u8>, Seq<char>)>;

/// The spine of a document: its chapters' ids in reading order.
pub uninterp spec fn epub_spine(doc: EpubBook) -> Seq<Seq<char>>;

/// Whether the crate read the package as EPUB 3.
pub uninterp spec fn epub_version3(doc: EpubBook) -> bool;

/// The manifest ids whose `properties` list `cover-image`.
pub uninterp spec fn epub_cover_image_ids(doc: EpubBook) -> Set<Seq<char>>;

/// Two states of a document that hold the same contents: reading an entry
/// changes none of them.
pub open spec fn same_contents(a: EpubBook, b: EpubBook) -> bool {
    &&& epub_metadata(a) == epub_metadata(b)
    &&& epub_resources(a) == epub_resources(b)
    &&& epub_spine(a) == epub_spine(b)
    &&& epub_version3(a) == epub_version3(b)
    &&& epub_cover_image_ids(a) == epub_cover_image_ids(b)
}

/// The value of the first metadata item with `property`.
pub open spec fn first_value(items: Seq<(Seq<char>, Seq<char>)>, property: Seq<char>) -> Option<Seq<char>>
    decreases items.len(),
{
    if items.len() == 0 {
        None
    } else if items[0].0 == property {
        Some(items[0].1)
    } else {
        first_value(items.drop_first(), property)
    }
}

/// What the `epub` crate reads from the bytes of an EPUB file: `None` when
/// the archive or its package does not parse, else the document's metadata
/// items, resources and spine (as `epub_metadata`, `epub_resources` and
/// `epub_spine` name them). Parsing the same bytes gives the same document.
pub uninterp spec fn epub_parse(bytes: Seq<u8>) -> Option<
    (Seq<(Seq<char>, Seq<char>)>, Map<Seq<char>, (Seq<u8>, Seq<char>)>, Seq<Seq<char>>),
>;

/// The metadata, resources and spine of a document, together.
pub open spec fn epub_contents(doc: EpubBook) -> (
    Seq<(Seq<char>, Seq<char>)>,
    Map<Seq<char>, (Seq<u8>, Seq<char>)>,
    Seq<Seq<char>>,
) {
    (epub_metadata(doc), epub_resources(doc), epub_spine(doc))
}

/// The bytes of `META-INF/container.xml` in the zip archive `bytes`, as the
/// `epub` crate's archive reads them; `None` when the archive does not open
/// or has no such entry.
pub uninterp spec fn epub_container_of(bytes: Seq<u8>) -> Option<Seq<u8>>;

/// Calls `EpubArchive::from_reader` and `get_container_file`.
#[verifier::external_body]
fn epub_container(bytes: &[u8]) -> (r: Option<Vec<u8>>)
    ensures
        match r {
            Some(c) => epub_container_of(bytes@) == Some(c@),
            None => epub_container_of(bytes@) is None,
        },
{
    match epub::archive::EpubArchive::from_reader(Cursor::new(bytes.to_vec())) {
        Ok(mut archive) => archive.get_container_file().ok(),
        Err(_) => None,
    }
}

/// Calls `EpubDoc::from_reader` on the bytes of an EPUB file. It succeeds
/// exactly when the archive and its package parse, and the document it
/// opens holds what the bytes hold; both are named by `epub_parse`. The
/// crate's error is passed on unexamined. The crate panics when the
/// package path the container names has no parent folder; those inputs
/// are left out (`package_path_suspect`).
#[verifier::external_body]
fn epub_from_bytes(bytes: Vec<u8>) -> (r: Result<EpubBook, DocError>)
    requires
        match epub_container_of(bytes@) {
            Some(c) => !package_path_suspect(c),
            None => true,
        },
    ensures
        match r {
            Ok(doc) => epub_parse(bytes@) == Some(epub_contents(doc)),
            Err(_) => epub_parse(bytes@) is None,
        },
{
    EpubDoc::from_reader(Cursor::new(bytes)).map(|doc| EpubBook { doc })
}

/// Calls `DocError`'s `to_string`; its text is the crate's.
#[verifier::external_body]
fn doc_error_text(e: &DocError) -> (r: String) {
    e.to_string()
}

/// Calls `EpubDoc::mdata`, which returns the first metadata item with the
/// property, and keeps its value.
#[verifier::external_body]
fn epub_mdata(doc: &EpubBook, property: &str) -> (r: Option<String>)
    ensures
        match r {
            Some(v) => first_value(epub_metadata(*doc), property@) == Some(v@),
            None => first_value(epub_metadata(*doc), property@) is None,
        },
{
    doc.doc.mdata(property).map(|m| m.value.clone())
}

/// Calls `EpubDoc::get_resource`: the bytes and mime type of the resource
/// with the manifest id `id`. Reading an entry leaves the document's
/// contents as they were.
#[verifier::external_body]
fn epub_get_resource(doc: &mut EpubBook, id: &str) -> (r: Option<(Vec<u8>, String)>)
    ensures
        same_contents(*final(doc), *old(doc)),
        match r {
            Some((data, mime)) => epub_resources(*old(doc)).dom().contains(id@)
                && epub_resources(*old(doc))[id@] == (data@, mime@),
            None => !epub_resources(*old(doc)).dom().contains(id@),
        },
{
    doc.doc.get_resource(id)
}

/// What the crate's cover lookup may give for a document. EPUB 3: the
/// resource under one of the ids marked `cover-image` (which one, when
/// several are, is left open: the crate walks a hash map), or nothing when
/// none is marked or the one it picked does not read. Otherwise: the
/// resource the `<meta name="cover">` value names, when it reads.
pub open spec fn cover_outcome_ok(
    version3: bool,
    ids: Set<Seq<char>>,
    items: Seq<(Seq<char>, Seq<char>)>,
    res: Map<Seq<char>, (Seq<u8>, Seq<char>)>,
    found: Option<(Seq<u8>, Seq<char>)>,
) -> bool {
    if version3 {
        match found {
            Some(c) => exists|id: Seq<char>| #[trigger] ids.contains(id) && res.dom().contains(id) && res[id] == c,
            None => ids == Set::<Seq<char>>::empty() || exists|id: Seq<char>| #[trigger] ids.contains(id)
                && !res.dom().contains(id),
        }
    } else {
        found == match first_value(items, "cover"@) {
            Some(v) => if res.dom().contains(v) {
                Some(res[v])
            } else {
                None
            },
            None => None,
        }
    }
}

/// `cover_outcome_ok` over a document's contents.
pub open spec fn cover_lookup_ok(doc: EpubBook, found: Option<(Seq<u8>, Seq<char>)>) -> bool {
    cover_outcome_ok(
        epub_version3(doc),
        epub_cover_image_ids(doc),
        epub_metadata(doc),
        epub_resources(doc),
        found,
    )
}

/// Calls `EpubDoc::get_cover`: `get_cover_id` (EPUB 3: an id marked
/// `cover-image`, found by walking the resource hash map; otherwise the
/// `cover` meta value), then `get_resource` on it.
#[verifier::external_body]
fn epub_get_cover(doc: &mut EpubBook) -> (r: Option<(Vec<u8>, String)>)
    ensures
        same_contents(*final(doc), *old(doc)),
        cover_outcome_ok(
            epub_version3(*old(doc)),
            epub_cover_image_ids(*old(doc)),
            epub_metadata(*old(doc)),
            epub_resources(*old(doc)),
            resource_view(r),
        ),
{
    doc.doc.get_cover()
}

/// Calls `EpubDoc::get_num_chapters`, the length of the spine.
#[verifier::external_body]
fn epub_num_chapters(doc: &EpubBook) -> (n: usize)
    ensures
        n == epub_spine(*doc).len(),
{
    doc.doc.get_num_chapters()
}

/// Why an EPUB could not be read.
#[derive(Debug)]
pub enum EpubError {
    /// The archive or its package is broken; the crate's explanation.
    Broken(String),
    /// The container's package path has no parent folder.
    PackagePath,
}

impl EpubError {
    /// The text shown for the error.
    pub fn message(&self) -> (r: String)
        ensures
            r@ == match self {
                EpubError::Broken(m) => m@,
                EpubError::PackagePath => "the container names no package folder"@,
            },
    {
        match self {
            EpubError::Broken(m) => m.clone(),
            EpubError::PackagePath => owned("the container names no package folder"),
        }
    }
}

/// Whether the container of the archive `bytes` names a package path
/// without a parent folder.
pub open spec fn bad_package_path(bytes: Seq<u8>) -> bool {
    match epub_container_of(bytes) {
        Some(c) => package_path_suspect(c),
        None => false,
    }
}

/// Opens an EPUB from the bytes of its file: the document those bytes
/// hold, or `Broken` with the crate's explanation when they do not parse.
/// A container whose first `rootfile` names a package path without a
/// parent folder (the crate cannot open it) is refused as `PackagePath`
/// before the crate reads the package.
pub fn read_epub(bytes: Vec<u8>) -> (r: Result<EpubBook, EpubError>)
    ensures
        bad_package_path(bytes@) ==> r matches Err(EpubError::PackagePath),
        !bad_package_path(bytes@) ==> match r {
            Ok(doc) => epub_parse(bytes@) == Some(epub_contents(doc)),
            Err(EpubError::Broken(_)) => epub_parse(bytes@) is None,
            Err(EpubError::PackagePath) => false,
        },
{
    match epub_container(bytes.as_slice()) {
        Some(c) => {
            if container_package_path_suspect(c.as_slice()) {
                return Err(EpubError::PackagePath);
            }
        },
        None => {},
    }
    match epub_from_bytes(bytes) {
        Ok(doc) => Ok(doc),
        Err(e) => Err(EpubError::Broken(doc_error_text(&e))),
    }
}

/// Title, author, description and cover of a book.
#[derive(Debug)]
pub struct EpubMetadata {
    pub title: String,
    pub author: String,
    pub description: Option<String>,
    /// `covers/<file>`, relative to the data directory, when a cover
    /// image was found.
    pub cover_path: Option<String>,
}

/// A cover image to be written under the covers directory.
#[derive(Debug)]
pub struct CoverFile {
    pub file_name: String,
    pub data: Vec<u8>,
}

/// What extraction yields: the metadata and the cover bytes to store.
#[derive(Debug)]
pub struct EpubExtract {
    pub metadata: EpubMetadata,
    pub cover: Option<CoverFile>,
}

/// Whether a resource is an image, by its mime type.
pub open spec fn is_image_spec(mime: Seq<char>) -> bool {
    is_prefix("image/"@, mime)
}

/// A resource whose mime type starts with `image/`.
pub fn is_image_resource(mime: &str) -> (b: bool)
    ensures
        b == is_image_spec(mime@),
{
    starts_with(mime, "image/")
}

/// The file extension a cover is stored with.
pub open spec fn cover_extension_spec(mime: Seq<char>) -> Seq<char> {
    if mime == "image/png"@ {
        "png"@
    } else if mime == "image/gif"@ {
        "gif"@
    } else {
        "jpg"@
    }
}

/// `png` and `gif` keep their extension; everything else is stored as
/// `jpg`.
pub fn cover_extension(mime: &str) -> (r: &'static str)
    ensures
        r@ == cover_extension_spec(mime@),
{
    if crate::text::str_eq(mime, "image/png") {
        "png"
    } else if crate::text::str_eq(mime, "image/gif") {
        "gif"
    } else {
        "jpg"
    }
}

/// `<book_id>.<ext>`.
pub open spec fn cover_file_name_spec(book_id: Seq<char>, mime: Seq<char>) -> Seq<char> {
    book_id + "."@ + cover_extension_spec(mime)
}

/// The name a book's cover is stored under.
pub fn cover_file_name(book_id: &str, mime: &str) -> (r: String)
    ensures
        r@ == cover_file_name_spec(book_id@, mime@),
{
    let mut s = owned(book_id);
    s.append(".");
    s.append(cover_extension(mime));
    s
}

/// The conventional manifest ids tried last, in order.
pub open spec fn conventional_cover_ids() -> Seq<Seq<char>> {
    seq!["cover-image"@, "cover"@, "ci"@]
}

/// The image resource found under the first of `ids` that names one.
pub open spec fn first_image(res: Map<Seq<char>, (Seq<u8>, Seq<char>)>, ids: Seq<Seq<char>>) -> Option<(Seq<u8>, Seq<char>)>
    decreases ids.len(),
{
    if ids.len() == 0 {
        None
    } else if res.dom().contains(ids[0]) && is_image_spec(res[ids[0]].1) {
        Some(res[ids[0]])
    } else {
        first_image(res, ids.drop_first())
    }
}

/// The cover after the crate's own lookup failed: the image resource the
/// EPUB2 `<meta name="cover">` points at, else the first conventional id
/// naming an image. A non-image resource (a cover page) never counts.
pub open spec fn fallback_cover_spec(doc: EpubBook) -> Option<(Seq<u8>, Seq<char>)> {
    let res = epub_resources(doc);
    match first_value(epub_metadata(doc), "cover"@) {
        Some(id) => if res.dom().contains(id) && is_image_spec(res[id].1) {
            Some(res[id])
        } else {
            first_image(res, conventional_cover_ids())
        },
        None => first_image(res, conventional_cover_ids()),
    }
}

/// Looks `id` up and keeps the resource only when it is an image.
fn image_resource(doc: &mut EpubBook, id: &str) -> (r: Option<(Vec<u8>, String)>)
    ensures
        same_contents(*final(doc), *old(doc)),
        match r {
            Some((data, mime)) => epub_resources(*old(doc)).dom().contains(id@)
                && is_image_spec(epub_resources(*old(doc))[id@].1)
                && epub_resources(*old(doc))[id@] == (data@, mime@),
            None => !(epub_resources(*old(doc)).dom().contains(id@)
                && is_image_spec(epub_resources(*old(doc))[id@].1)),
        },
{
    match epub_get_resource(doc, id) {
        Some((data, mime)) => {
            if is_image_resource(mime.as_str()) {
                Some((data, mime))
            } else {
                None
            }
        },
        None => None,
    }
}

/// The fallback strategies after the crate's `get_cover` found nothing:
/// the EPUB2 cover meta, then the conventional ids, images only.
pub fn fallback_cover(doc: &mut EpubBook) -> (r: Option<(Vec<u8>, String)>)
    ensures
        same_contents(*final(doc), *old(doc)),
        match r {
            Some((data, mime)) => fallback_cover_spec(*old(doc)) == Some((data@, mime@)),
            None => fallback_cover_spec(*old(doc)) is None,
        },
{
    let ghost d0 = *doc;
    if let Some(id) = epub_mdata(doc, "cover") {
        if let Some(found) = image_resource(doc, id.as_str()) {
            return Some(found);
        }
    }
    let ids: [&'static str; 3] = ["cover-image", "cover", "ci"];
    assert(conventional_cover_ids().skip(0) =~= conventional_cover_ids());
    let mut i: usize = 0;
    while i < 3
        invariant
            i <= 3,
            d0 == *old(doc),
            forall|k: int| 0 <= k < 3 ==> #[trigger] ids@[k]@ == conventional_cover_ids()[k],
            same_contents(*doc, d0),
            fallback_cover_spec(d0) == first_image(epub_resources(d0), conventional_cover_ids().skip(i as int)),
        decreases 3 - i,
    {
        let ghost rest = conventional_cover_ids().skip(i as int);
        assert(rest[0] == ids@[i as int]@);
        assert(rest.drop_first() =~= conventional_cover_ids().skip(i + 1));
        if let Some(found) = image_resource(doc, ids[i]) {
            return Some(found);
        }
        i = i + 1;
    }
    None
}

/// A resource as bytes and mime characters.
pub open spec fn resource_view(r: Option<(Vec<u8>, String)>) -> Option<(Seq<u8>, Seq<char>)> {
    match r {
        Some((data, mime)) => Some((data@, mime@)),
        None => None,
    }
}

/// The cover the extraction settles on: the crate's own `get_cover` result
/// when it found one, else the fallbacks.
pub open spec fn resolved_cover_spec(found: Option<(Seq<u8>, Seq<char>)>, doc: EpubBook) -> Option<(Seq<u8>, Seq<char>)> {
    match found {
        Some(c) => Some(c),
        None => fallback_cover_spec(doc),
    }
}

/// What extraction makes of the title, creator, description and cover.
pub open spec fn extract_spec(
    items: Seq<(Seq<char>, Seq<char>)>,
    cover: Option<(Seq<u8>, Seq<char>)>,
    book_id: Seq<char>,
    x: EpubExtract,
) -> bool {
    &&& x.metadata.title@ == (match first_value(items, "title"@) {
        Some(t) => t,
        None => "Untitled"@,
    })
    &&& x.metadata.author@ == (match first_value(items, "creator"@) {
        Some(a) => a,
        None => "Unknown Author"@,
    })
    &&& (match x.metadata.description {
        Some(d) => first_value(items, "description"@) == Some(d@),
        None => first_value(items, "description"@) is None,
    })
    &&& (match cover {
        Some((data, mime)) => (x.cover matches Some(c) && c.data@ == data
            && c.file_name@ == cover_file_name_spec(book_id, mime)
            && (x.metadata.cover_path matches Some(p) && p@ == "covers/"@ + c.file_name@)),
        None => x.cover is None && x.metadata.cover_path is None,
    })
}

/// The cover file of a book given what the crate's lookup returned:
/// `found` when it found one, else the fallbacks; named
/// `<book_id>.<png|gif|jpg>` by its mime type.
pub fn resolve_cover(found: Option<(Vec<u8>, String)>, doc: &mut EpubBook, book_id: &str) -> (r: Option<
    CoverFile,
>)
    ensures
        same_contents(*final(doc), *old(doc)),
        match resolved_cover_spec(resource_view(found), *old(doc)) {
            Some((data, mime)) => r matches Some(c) && c.data@ == data && c.file_name@
                == cover_file_name_spec(book_id@, mime),
            None => r is None,
        },
{
    let cover = match found {
        Some(c) => Some(c),
        None => fallback_cover(doc),
    };
    match cover {
        Some((data, mime)) => Some(CoverFile { file_name: cover_file_name(book_id, mime.as_str()), data }),
        None => None,
    }
}

/// Title (default `Untitled`), author from the creator (default `Unknown
/// Author`), description, and the cover: the crate's `get_cover`, else the
/// EPUB2 cover meta, else the conventional ids, images only. The cover is
/// named `<book_id>.<png|gif|jpg>` and its stored path is under `covers/`;
/// writing the file is the caller's. The cover is resolved from what the
/// crate's lookup gave, which `cover_lookup_ok` bounds.
pub fn extract_metadata(doc: &mut EpubBook, book_id: &str) -> (x: EpubExtract)
    ensures
        same_contents(*final(doc), *old(doc)),
        exists|found: Option<(Seq<u8>, Seq<char>)>| {
            &&& #[trigger] cover_lookup_ok(*old(doc), found)
            &&& extract_spec(epub_metadata(*old(doc)), resolved_cover_spec(found, *old(doc)), book_id@, x)
        },
{
    let title = match epub_mdata(doc, "title") {
        Some(t) => t,
        None => owned("Untitled"),
    };
    let author = match epub_mdata(doc, "creator") {
        Some(a) => a,
        None => owned("Unknown Author"),
    };
    let description = epub_mdata(doc, "description");
    let ghost d0 = *doc;
    let found = epub_get_cover(doc);
    let ghost found_view = resource_view(found);
    let cover_file = resolve_cover(found, doc, book_id);
    let cover_path = match &cover_file {
        Some(c) => {
            let mut path = owned("covers/");
            path.append(c.file_name.as_str());
            Some(path)
        },
        None => None,
    };
    let x = EpubExtract {
        metadata: EpubMetadata { title, author, description, cover_path },
        cover: cover_file,
    };
    assert(cover_lookup_ok(d0, found_view));
    assert(extract_spec(epub_metadata(d0), resolved_cover_spec(found_view, d0), book_id@, x));
    x
}

/// The number of chapters: the length of the spine.
pub fn count_chapters(doc: &EpubBook) -> (n: usize)
    ensures
        n == epub_spine(*doc).len(),
{
    epub_num_chapters(doc)
}

} // verus!
