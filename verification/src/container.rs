//! The package path an EPUB's `META-INF/container.xml` names, read the way
//! the `epub` crate reads it: the container's bytes go to the `xml`
//! reader (a UTF-8 byte-order mark dropped, UTF-16 turned into UTF-8), the
//! first `rootfile` element below the root is found, and its `full-path`
//! attribute is taken. The crate cannot open a book whose package path has
//! no parent folder; this decides, from the container's bytes, when that
//! is so.
use vstd::prelude::*;

use crate::paths::{path_parent, spec_path_parent};
use crate::text::{owned, str_eq};

verus! {

/// One event of the `xml` reader: `0` with the local name and the
/// attributes (local name, value) for an element start, `1` with the local
/// name for an element end, `2` for anything else.
pub type XmlEvent = (u8, Seq<char>, Seq<(Seq<char>, Seq<char>)>);

/// The events the `xml` reader, configured as the `epub` crate configures
/// it (the entities `nbsp`, `copy` and `reg` added), reports for
/// `content`, up to its end or its first error.
pub uninterp spec fn xml_element_events(content: Seq<u8>) -> Seq<XmlEvent>;

/// Runs the `xml` reader over `content` as the `epub` crate does and
/// reports its events up to the end or the first error; what the reader
/// makes of the text is named, not restated.
#[verifier::external_body]
fn xml_events(content: &[u8]) -> (r: Vec<(u8, String, Vec<(String, String)>)>)
    ensures
        r.deep_view() == xml_element_events(content@),
{
    let config = xml::reader::ParserConfig::new().add_entity("nbsp", " ").add_entity("copy", "\u{a9}");
    config.add_entity("reg", "\u{ae}").create_reader(content).into_iter().map_while(Result::ok).map(|e| match e {
        xml::reader::XmlEvent::StartElement { name, attributes, .. } => {
            (0u8, name.local_name, attributes.into_iter().map(|a| (a.name.local_name, a.value)).collect())
        },
        xml::reader::XmlEvent::EndElement { name } => (1u8, name.local_name, Vec::new()),
        _ => (2u8, String::new(), Vec::new()),
    }).collect()
}

/// The UTF-8 bytes of `String::from_utf16_lossy` of `units`: each unpaired
/// surrogate becomes U+FFFD.
pub uninterp spec fn utf16_lossy_bytes(units: Seq<u16>) -> Seq<u8>;

/// Calls `String::from_utf16_lossy`; the decoding is named, not restated.
#[verifier::external_body]
fn utf16_lossy(units: &[u16]) -> (r: Vec<u8>)
    ensures
        r@ == utf16_lossy_bytes(units@),
{
    String::from_utf16_lossy(units).into_bytes()
}

/// The 16-bit units of `b` in pairs (a trailing odd byte dropped), high
/// byte first when `big_endian`, as a little-endian machine assembles them.
pub open spec fn utf16_units(b: Seq<u8>, big_endian: bool) -> Seq<u16> {
    Seq::new(
        b.len() / 2,
        |k: int|
            if big_endian {
                (b[2 * k] as int * 256 + b[2 * k + 1] as int) as u16
            } else {
                (b[2 * k + 1] as int * 256 + b[2 * k] as int) as u16
            },
    )
}

/// What the `epub` crate hands the `xml` reader for a container of at
/// least four bytes: the bytes after a UTF-8 byte-order mark, the UTF-8 of
/// a text after a UTF-16 one, else the bytes themselves.
pub open spec fn reader_input(c: Seq<u8>) -> Seq<u8> {
    if c[0] == 0xefu8 && c[1] == 0xbbu8 && c[2] == 0xbfu8 {
        c.skip(3)
    } else if (c[0] == 0xfeu8 && c[1] == 0xffu8) || (c[0] == 0xffu8 && c[1] == 0xfeu8) {
        utf16_lossy_bytes(utf16_units(c.skip(2), c[0] == 0xfeu8))
    } else {
        c
    }
}

/// The attributes of the first `rootfile` element below the root, read
/// from event `i` with `depth` elements open (0 before the root).
pub open spec fn rootfile_from(ev: Seq<XmlEvent>, i: int, depth: nat) -> Option<Seq<(Seq<char>, Seq<char>)>>
    decreases ev.len() - i,
{
    if i < 0 || i >= ev.len() {
        None
    } else {
        let e = ev[i];
        if depth == 0 {
            rootfile_from(ev, i + 1, if e.0 == 0 { 1 } else { 0 })
        } else if e.0 == 0 {
            if e.1 == "rootfile"@ {
                Some(e.2)
            } else {
                rootfile_from(ev, i + 1, depth + 1)
            }
        } else if e.0 == 1 {
            if depth == 1 {
                None
            } else {
                rootfile_from(ev, i + 1, (depth - 1) as nat)
            }
        } else {
            rootfile_from(ev, i + 1, depth)
        }
    }
}

/// The value of the first attribute whose local name is `key`.
pub open spec fn first_attr(attrs: Seq<(Seq<char>, Seq<char>)>, key: Seq<char>) -> Option<Seq<char>>
    decreases attrs.len(),
{
    if attrs.len() == 0 {
        None
    } else if attrs[0].0 == key {
        Some(attrs[0].1)
    } else {
        first_attr(attrs.drop_first(), key)
    }
}

/// The package path the container names: the `full-path` of the first
/// `rootfile` below the root, as the `epub` crate reads it; nothing when
/// the container is shorter than four bytes, has no such element, or the
/// element has no such attribute.
pub open spec fn container_package_path(container: Seq<u8>) -> Option<Seq<char>> {
    if container.len() < 4 {
        None
    } else {
        match rootfile_from(xml_element_events(reader_input(container)), 0, 0) {
            Some(attrs) => first_attr(attrs, "full-path"@),
            None => None,
        }
    }
}

/// Whether the crate cannot open a book with this container: the package
/// path it names has no parent folder.
pub open spec fn package_path_suspect(container: Seq<u8>) -> bool {
    match container_package_path(container) {
        Some(p) => spec_path_parent(p) is None,
        None => false,
    }
}

fn reader_input_exec(c: &[u8]) -> (r: Vec<u8>)
    requires
        c@.len() >= 4,
    ensures
        r@ == reader_input(c@),
{
    if c[0] == 0xefu8 && c[1] == 0xbbu8 && c[2] == 0xbfu8 {
        let mut out: Vec<u8> = Vec::new();
        let mut k: usize = 3;
        while k < c.len()
            invariant
                3 <= k <= c@.len(),
                out@ == c@.subrange(3, k as int),
            decreases c@.len() - k,
        {
            out.push(c[k]);
            k = k + 1;
        }
        assert(out@ =~= c@.skip(3));
        out
    } else if (c[0] == 0xfeu8 && c[1] == 0xffu8) || (c[0] == 0xffu8 && c[1] == 0xfeu8) {
        let big = c[0] == 0xfeu8;
        let ghost b = c@.skip(2);
        let len = c.len();
        let n = (len - 2) / 2;
        let mut units: Vec<u16> = Vec::new();
        let mut k: usize = 0;
        assert(2 * n <= b.len());
        while k < n
            invariant
                n == b.len() / 2,
                2 * n <= b.len(),
                b.len() + 2 == c@.len(),
                len == c@.len(),
                b == c@.skip(2),
                c@.len() >= 4,
                big == (c@[0] == 0xfeu8),
                k <= n,
                units@ =~= utf16_units(b, big).take(k as int),
            decreases n - k,
        {
            let x = c[2 + 2 * k];
            let y = c[3 + 2 * k];
            assert(x == b[2 * k as int] && y == b[2 * k + 1]);
            let u: u16 = if big {
                (x as u16) * 256 + (y as u16)
            } else {
                (y as u16) * 256 + (x as u16)
            };
            units.push(u);
            k = k + 1;
        }
        assert(units@ =~= utf16_units(b, big));
        utf16_lossy(units.as_slice())
    } else {
        let mut out: Vec<u8> = Vec::new();
        let mut k: usize = 0;
        while k < c.len()
            invariant
                k <= c@.len(),
                out@ == c@.subrange(0, k as int),
            decreases c@.len() - k,
        {
            out.push(c[k]);
            k = k + 1;
        }
        assert(out@ =~= c@);
        out
    }
}

fn rootfile_attrs(ev: &Vec<(u8, String, Vec<(String, String)>)>) -> (r: Option<usize>)
    ensures
        match r {
            Some(i) => i < ev@.len() && rootfile_from(ev.deep_view(), 0, 0) == Some(ev.deep_view()[i as int].2),
            None => rootfile_from(ev.deep_view(), 0, 0) is None,
        },
{
    let ghost dv = ev.deep_view();
    let mut i: usize = 0;
    let mut depth: usize = 0;
    while i < ev.len()
        invariant
            dv == ev.deep_view(),
            dv.len() == ev@.len(),
            i <= ev@.len(),
            depth <= i,
            rootfile_from(dv, 0, 0) == rootfile_from(dv, i as int, depth as nat),
        decreases ev@.len() - i,
    {
        let e = &ev[i];
        assert(dv[i as int] == (e.0, e.1@, e.2.deep_view()));
        if depth == 0 {
            if e.0 == 0 {
                depth = 1;
            }
        } else if e.0 == 0 {
            if str_eq(e.1.as_str(), "rootfile") {
                proof {
                    reveal_strlit("rootfile");
                }
                return Some(i);
            }
            depth = depth + 1;
        } else if e.0 == 1 {
            if depth == 1 {
                return None;
            }
            depth = depth - 1;
        }
        i = i + 1;
    }
    None
}

fn first_attr_exec(attrs: &Vec<(String, String)>, key: &str) -> (r: Option<usize>)
    ensures
        match r {
            Some(k) => k < attrs@.len() && first_attr(attrs.deep_view(), key@) == Some(attrs@[k as int].1@),
            None => first_attr(attrs.deep_view(), key@) is None,
        },
{
    let ghost dv = attrs.deep_view();
    let mut k: usize = 0;
    assert(dv.skip(0) =~= dv);
    while k < attrs.len()
        invariant
            dv == attrs.deep_view(),
            dv.len() == attrs@.len(),
            k <= attrs@.len(),
            first_attr(dv, key@) == first_attr(dv.skip(k as int), key@),
        decreases attrs@.len() - k,
    {
        let a = &attrs[k];
        assert(dv[k as int] == (a.0@, a.1@));
        assert(dv.skip(k as int)[0] == dv[k as int]);
        assert(dv.skip(k as int).drop_first() =~= dv.skip(k + 1));
        if str_eq(a.0.as_str(), key) {
            return Some(k);
        }
        k = k + 1;
    }
    assert(dv.skip(k as int).len() == 0);
    None
}

/// The package path the container names (see `container_package_path`).
pub fn read_container_package_path(container: &[u8]) -> (r: Option<String>)
    ensures
        match r {
            Some(p) => container_package_path(container@) == Some(p@),
            None => container_package_path(container@) is None,
        },
{
    if container.len() < 4 {
        return None;
    }
    let input = reader_input_exec(container);
    let events = xml_events(input.as_slice());
    match rootfile_attrs(&events) {
        Some(i) => {
            proof {
                reveal_strlit("full-path");
            }
            let attrs = &events[i].2;
            match first_attr_exec(attrs, "full-path") {
                Some(k) => Some(owned(attrs[k].1.as_str())),
                None => None,
            }
        },
        None => None,
    }
}

/// Whether the crate cannot open a book with this container (see
/// `package_path_suspect`).
pub fn container_package_path_suspect(container: &[u8]) -> (b: bool)
    ensures
        b == package_path_suspect(container@),
{
    match read_container_package_path(container) {
        Some(p) => path_parent(p.as_str()).is_none(),
        None => false,
    }
}

} // verus!
