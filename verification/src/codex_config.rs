//! The Codex CLI's TOML config: whether it points at Quill's MCP server,
//! and the edit that adds or removes that entry. The document stays the
//! `toml_edit` crate's (it keeps the user's comments, spacing and table
//! order); what the decisions read of it is named here.
use vstd::prelude::*;

use crate::text::owned;

verus! {

/// A key path: the keys from the root table down to an item.
pub type KeyPath = Seq<Seq<char>>;

/// What the contracts read of a TOML document: the paths of its tables,
/// the paths of its other items (values and arrays of tables), the text of
/// each string value, and the strings of each array made only of strings.
pub type TomlView = (Set<KeyPath>, Set<KeyPath>, Map<KeyPath, Seq<char>>, Map<KeyPath, Seq<Seq<char>>>);

/// A `toml_edit` document, held opaque and read only through the wrappers
/// below.
#[verifier::external_body]
pub struct CodexDoc {
    doc: toml_edit::DocumentMut,
}

/// The paths of the tables (`Item::Table`, implicit ones included) below
/// the root, reached through tables.
pub uninterp spec fn toml_tables(doc: CodexDoc) -> Set<KeyPath>;

/// The paths of the items that are not tables (values, arrays of tables),
/// reached through tables; a removed or never-set key (`Item::None`) is no
/// item.
pub uninterp spec fn toml_items(doc: CodexDoc) -> Set<KeyPath>;

/// The text of every string value, by path.
pub uninterp spec fn toml_strings(doc: CodexDoc) -> Map<KeyPath, Seq<char>>;

/// The strings of every array value whose elements are all strings, by path.
pub uninterp spec fn toml_string_arrays(doc: CodexDoc) -> Map<KeyPath, Seq<Seq<char>>>;

/// What `toml_edit` parses from `text`: `None` when it is not TOML, else
/// the view of the document it reads.
pub uninterp spec fn toml_text_view(text: Seq<char>) -> Option<TomlView>;

/// The view of a document.
pub open spec fn toml_view(d: CodexDoc) -> TomlView {
    (toml_tables(d), toml_items(d), toml_strings(d), toml_string_arrays(d))
}

/// The view of an empty document.
pub open spec fn empty_view() -> TomlView {
    (Set::empty(), Set::empty(), Map::empty(), Map::empty())
}

/// Whether `q` is `p` or lies below it.
pub open spec fn under(p: KeyPath, q: KeyPath) -> bool {
    p.len() <= q.len() && q.subrange(0, p.len() as int) == p
}

/// `a` and `b` hold the same paths outside `p`.
pub open spec fn same_set_off(a: Set<KeyPath>, b: Set<KeyPath>, p: KeyPath) -> bool {
    forall|q: KeyPath| !under(p, q) ==> (#[trigger] a.contains(q) == b.contains(q))
}

/// `a` and `b` map the same paths to the same values outside `p`.
pub open spec fn same_map_off<V>(a: Map<KeyPath, V>, b: Map<KeyPath, V>, p: KeyPath) -> bool {
    forall|q: KeyPath|
        !under(p, q) ==> (#[trigger] a.dom().contains(q) == b.dom().contains(q) && (a.dom().contains(q)
            ==> a[q] == b[q]))
}

/// Nothing of `a` lies at or below `p`.
pub open spec fn none_under(a: Set<KeyPath>, p: KeyPath) -> bool {
    forall|q: KeyPath| under(p, q) ==> !#[trigger] a.contains(q)
}

/// Nothing of `a` lies at or below `p`.
pub open spec fn none_under_map<V>(a: Map<KeyPath, V>, p: KeyPath) -> bool {
    forall|q: KeyPath| under(p, q) ==> !#[trigger] a.dom().contains(q)
}

/// Two views agree on every item outside `p` (tables aside): the same
/// item paths, string texts and string arrays.
pub open spec fn items_kept_off(a: TomlView, b: TomlView, p: KeyPath) -> bool {
    &&& same_set_off(a.1, b.1, p)
    &&& same_map_off(a.2, b.2, p)
    &&& same_map_off(a.3, b.3, p)
}

/// No item lies at or below `p`.
pub open spec fn no_items_under(v: TomlView, p: KeyPath) -> bool {
    &&& none_under(v.0, p)
    &&& none_under(v.1, p)
    &&& none_under_map(v.2, p)
    &&& none_under_map(v.3, p)
}

/// Calls `str::parse::<DocumentMut>`.
#[verifier::external_body]
fn toml_parse(raw: &str) -> (r: Result<CodexDoc, String>)
    ensures
        match r {
            Ok(d) => toml_text_view(raw@) == Some(toml_view(d)),
            Err(_) => toml_text_view(raw@) is None,
        },
{
    match raw.parse::<toml_edit::DocumentMut>() {
        Ok(doc) => Ok(CodexDoc { doc }),
        Err(e) => Err(e.to_string()),
    }
}

/// Calls `DocumentMut::new`.
#[verifier::external_body]
fn toml_new() -> (d: CodexDoc)
    ensures
        toml_view(d) == empty_view(),
{
    CodexDoc { doc: toml_edit::DocumentMut::new() }
}

/// Calls `Table::contains_table` on the root: whether `key` holds a table.
#[verifier::external_body]
fn toml_is_table(d: &CodexDoc, key: &str) -> (b: bool)
    ensures
        b == toml_tables(*d).contains(seq![key@]),
{
    d.doc.contains_table(key)
}

/// Assigns a new empty `Table` to `key` of the root (`doc[key] =
/// Item::Table(Table::new())`), dropping whatever `key` held.
#[verifier::external_body]
fn toml_reset_table(d: &mut CodexDoc, key: &str)
    ensures
        items_kept_off(toml_view(*final(d)), toml_view(*old(d)), seq![key@]),
        same_set_off(toml_tables(*final(d)), toml_tables(*old(d)), seq![key@]),
        toml_tables(*final(d)).contains(seq![key@]),
        forall|q: KeyPath| under(seq![key@], q) && q != seq![key@] ==> !#[trigger] toml_tables(*final(d)).contains(q),
        none_under(toml_items(*final(d)), seq![key@]),
        none_under_map(toml_strings(*final(d)), seq![key@]),
        none_under_map(toml_string_arrays(*final(d)), seq![key@]),
{
    d.doc[key] = toml_edit::Item::Table(toml_edit::Table::new());
}

/// Under the root table `table`, when it is a table, sets `name` to a new
/// table holding the string `command` under `command_key` and the array of
/// the `args` strings under `args_key` (`Table::new`, `value`, indexing
/// assignment); returns whether `table` was a table (else nothing changes).
#[verifier::external_body]
fn toml_set_entry(
    d: &mut CodexDoc,
    table: &str,
    name: &str,
    command_key: &str,
    command: &str,
    args_key: &str,
    args: Vec<String>,
) -> (placed: bool)
    requires
        command_key@ != args_key@,
    ensures
        placed == toml_tables(*old(d)).contains(seq![table@]),
        !placed ==> toml_view(*final(d)) == toml_view(*old(d)),
        placed ==> items_kept_off(toml_view(*final(d)), toml_view(*old(d)), seq![table@, name@]),
        placed ==> same_set_off(toml_tables(*final(d)), toml_tables(*old(d)), seq![table@, name@]),
        placed ==> toml_tables(*final(d)).contains(seq![table@, name@]),
        placed ==> toml_items(*final(d)).contains(seq![table@, name@, command_key@]),
        placed ==> toml_items(*final(d)).contains(seq![table@, name@, args_key@]),
        placed ==> toml_strings(*final(d)).dom().contains(seq![table@, name@, command_key@]),
        placed ==> toml_strings(*final(d))[seq![table@, name@, command_key@]] == command@,
        placed ==> toml_string_arrays(*final(d)).dom().contains(seq![table@, name@, args_key@]),
        placed ==> toml_string_arrays(*final(d))[seq![table@, name@, args_key@]] == args@.map_values(|s: String| s@),
{
    match d.doc.get_mut(table).and_then(toml_edit::Item::as_table_mut) {
        Some(t) => {
            let mut entry = toml_edit::Table::new();
            entry[command_key] = toml_edit::value(command);
            entry[args_key] = toml_edit::value(args.into_iter().collect::<toml_edit::Array>());
            t[name] = toml_edit::Item::Table(entry);
            true
        },
        None => false,
    }
}

/// `Table::remove(name)` on the root's `table` when it is a table
/// (`get_mut` then `as_table_mut`); otherwise nothing changes.
#[verifier::external_body]
fn toml_remove_entry(d: &mut CodexDoc, table: &str, name: &str)
    ensures
        !toml_tables(*old(d)).contains(seq![table@]) ==> toml_view(*final(d)) == toml_view(*old(d)),
        toml_tables(*old(d)).contains(seq![table@]) ==> items_kept_off(toml_view(*final(d)), toml_view(*old(d)), seq![table@, name@]),
        toml_tables(*old(d)).contains(seq![table@]) ==> same_set_off(toml_tables(*final(d)), toml_tables(*old(d)), seq![table@, name@]),
        toml_tables(*old(d)).contains(seq![table@]) ==> no_items_under(toml_view(*final(d)), seq![table@, name@]),
{
    if let Some(t) = d.doc.get_mut(table).and_then(toml_edit::Item::as_table_mut) {
        t.remove(name);
    }
}

/// `get(table)`, `as_table`, `get(name)`: whether the root's `table` is a
/// table holding an item (a table or anything else) under `name`.
#[verifier::external_body]
fn toml_has_entry(d: &CodexDoc, table: &str, name: &str) -> (b: bool)
    ensures
        b == (toml_tables(*d).contains(seq![table@]) && (toml_tables(*d).contains(seq![table@, name@])
            || toml_items(*d).contains(seq![table@, name@]))),
{
    d.doc.get(table).and_then(toml_edit::Item::as_table).and_then(|t| t.get(name)).is_some()
}

/// The text `DocumentMut`'s `to_string` writes for a document.
pub uninterp spec fn toml_rendered(doc: CodexDoc) -> Seq<char>;

/// `DocumentMut`'s `to_string`.
#[verifier::external_body]
fn toml_text(d: &CodexDoc) -> (r: String)
    ensures
        r@ == toml_rendered(*d),
{
    d.doc.to_string()
}

/// The root table holding the MCP servers.
pub const SERVERS_TABLE: &'static str = "mcp_servers";

/// Quill's entry among them.
pub const QUILL_SERVER: &'static str = "quill";

/// `mcp_servers`.
pub open spec fn servers_path() -> KeyPath {
    seq![SERVERS_TABLE@]
}

/// `mcp_servers.quill`.
pub open spec fn quill_path() -> KeyPath {
    seq![SERVERS_TABLE@, QUILL_SERVER@]
}

/// Whether a config has Quill's entry: `mcp_servers` is a table holding
/// something under `quill`.
pub open spec fn has_quill_view(v: TomlView) -> bool {
    v.0.contains(servers_path()) && (v.0.contains(quill_path()) || v.1.contains(quill_path()))
}

/// Whether the Codex config text points at Quill's MCP server; text that
/// is not TOML is an error (the parser's message).
pub fn codex_config_enabled(raw: &str) -> (r: Result<bool, String>)
    ensures
        match toml_text_view(raw@) {
            None => r is Err,
            Some(v) => r == Ok::<bool, String>(has_quill_view(v)),
        },
{
    let doc = match toml_parse(raw) {
        Ok(d) => d,
        Err(e) => return Err(e),
    };
    Ok(toml_has_entry(&doc, SERVERS_TABLE, QUILL_SERVER))
}

/// The document an edit starts from: the parsed text, or an empty one when
/// there is no file yet.
pub open spec fn base_view(raw: Option<&str>) -> Option<TomlView> {
    match raw {
        Some(t) => toml_text_view(t@),
        None => Some(empty_view()),
    }
}

/// The edited config `v` of the config `b`. Enabling sets
/// `mcp_servers.quill` to `command = <binary>` and `args = ["mcp"]`,
/// making `mcp_servers` a table first when it is not one (what it held is
/// dropped); disabling removes `mcp_servers.quill`. Every item outside
/// what changed keeps its path and value.
pub open spec fn codex_edited(b: TomlView, v: TomlView, enabled: bool, binary: Seq<char>) -> bool {
    if enabled {
        let q = quill_path();
        &&& has_quill_view(v)
        &&& v.2.dom().contains(q.push("command"@))
        &&& v.2[q.push("command"@)] == binary
        &&& v.3.dom().contains(q.push("args"@))
        &&& v.3[q.push("args"@)] == seq!["mcp"@]
        &&& if b.0.contains(servers_path()) {
            items_kept_off(v, b, q)
        } else {
            items_kept_off(v, b, servers_path())
        }
    } else {
        &&& !has_quill_view(v)
        &&& items_kept_off(v, b, quill_path())
    }
}

proof fn lemma_under_quill_is_under_servers(q: KeyPath)
    requires
        under(quill_path(), q),
    ensures
        under(servers_path(), q),
{
    assert(q.subrange(0, 1) =~= q.subrange(0, 2).subrange(0, 1));
    assert(quill_path().subrange(0, 1) =~= servers_path());
}

/// Adds (`enabled`) or removes Quill's MCP server entry in the Codex config
/// text `raw` (`None` when there is no file yet) and gives the new text.
/// Text that is not TOML is an error (the parser's message). Comments,
/// spacing and table order are kept by the `toml_edit` document.
pub fn codex_config_edit(raw: Option<&str>, enabled: bool, binary_path: &str) -> (r: Result<String, String>)
    ensures
        base_view(raw) is None ==> r is Err,
        base_view(raw) matches Some(b) ==> (r matches Ok(out) && exists|d: CodexDoc|
            #[trigger] toml_rendered(d) == out@ && codex_edited(b, toml_view(d), enabled, binary_path@)),
{
    let mut doc = match raw {
        Some(t) => match toml_parse(t) {
            Ok(d) => d,
            Err(e) => return Err(e),
        },
        None => toml_new(),
    };
    let ghost d0 = toml_view(doc);
    if enabled {
        let had_table = toml_is_table(&doc, SERVERS_TABLE);
        if !had_table {
            toml_reset_table(&mut doc, SERVERS_TABLE);
        }
        let ghost d1 = toml_view(doc);
        let mut args: Vec<String> = Vec::new();
        args.push(owned("mcp"));
        proof {
            reveal_strlit("command");
            reveal_strlit("args");
            assert("command"@.len() != "args"@.len());
        }
        let placed = toml_set_entry(&mut doc, SERVERS_TABLE, QUILL_SERVER, "command", binary_path, "args", args);
        if !placed {
            return Err(owned("mcp_servers is not a table"));
        }
        let ghost d2 = toml_view(doc);
        let out = toml_text(&doc);
        proof {
            let q = quill_path();
            assert(seq![SERVERS_TABLE@, QUILL_SERVER@] == q);
            assert(args@.map_values(|s: String| s@) =~= seq!["mcp"@]);
            assert(seq![SERVERS_TABLE@, QUILL_SERVER@, "command"@] =~= q.push("command"@));
            assert(seq![SERVERS_TABLE@, QUILL_SERVER@, "args"@] =~= q.push("args"@));
            assert(seq![SERVERS_TABLE@] == servers_path());
            assert(!under(q, servers_path()));
            assert(d2.0.contains(servers_path()));
            assert(d2.0.contains(q));
            let v = d2;
            if d0.0.contains(servers_path()) {
                assert(d1 == d0);
                assert(items_kept_off(v, d0, q));
            } else {
                assert forall|p: KeyPath| !under(servers_path(), p) implies (#[trigger] v.1.contains(p)
                    == d0.1.contains(p)) by {
                    if under(q, p) {
                        lemma_under_quill_is_under_servers(p);
                    }
                }
                assert forall|p: KeyPath| !under(servers_path(), p) implies (#[trigger] v.2.dom().contains(p)
                    == d0.2.dom().contains(p) && (v.2.dom().contains(p) ==> v.2[p] == d0.2[p])) by {
                    if under(q, p) {
                        lemma_under_quill_is_under_servers(p);
                    }
                }
                assert forall|p: KeyPath| !under(servers_path(), p) implies (#[trigger] v.3.dom().contains(p)
                    == d0.3.dom().contains(p) && (v.3.dom().contains(p) ==> v.3[p] == d0.3[p])) by {
                    if under(q, p) {
                        lemma_under_quill_is_under_servers(p);
                    }
                }
            }
            assert(codex_edited(d0, toml_view(doc), enabled, binary_path@));
            assert(toml_rendered(doc) == out@);
        }
        Ok(out)
    } else {
        toml_remove_entry(&mut doc, SERVERS_TABLE, QUILL_SERVER);
        let ghost d2 = toml_view(doc);
        let out = toml_text(&doc);
        proof {
            let q = quill_path();
            assert(seq![SERVERS_TABLE@, QUILL_SERVER@] == q);
            assert(under(q, q)) by {
                assert(q.subrange(0, 2) =~= q);
            }
            if d0.0.contains(servers_path()) {
                assert(!d2.0.contains(q) && !d2.1.contains(q));
            } else {
                assert(d2 == d0);
            }
            assert(codex_edited(d0, toml_view(doc), enabled, binary_path@));
            assert(toml_rendered(doc) == out@);
        }
        Ok(out)
    }
}

} // verus!
