//! The JSON-format MCP client config: whether it points at Quill, and
//! adding or removing that one entry while every other entry stays as it
//! was.
use vstd::prelude::*;

use crate::text::{owned, str_eq};

verus! {

/// A JSON value. Numbers keep their literal text; objects keep their
/// entries in order, keys unique as a parser leaves them.
#[derive(Debug)]
pub enum Json {
    Null,
    Bool(bool),
    Number(String),
    Str(String),
    Array(Vec<Json>),
    Object(Vec<(String, Json)>),
}

/// The value of the first entry with `key`.
pub open spec fn lookup(entries: Seq<(String, Json)>, key: Seq<char>) -> Option<Json>
    decreases entries.len(),
{
    if entries.len() == 0 {
        None
    } else if entries[0].0@ == key {
        Some(entries[0].1)
    } else {
        lookup(entries.drop_first(), key)
    }
}

/// The key of the top-level entry holding the servers.
pub const SERVERS_KEY: &'static str = "mcpServers";

/// The key of Quill's own server entry.
pub const QUILL_KEY: &'static str = "quill";

/// The entry that launches this binary's MCP server.
pub open spec fn quill_entry_spec(e: Json, binary: Seq<char>) -> bool {
    e matches Json::Object(fields) && fields@.len() == 2
        && fields@[0].0@ == "command"@ && (fields@[0].1 matches Json::Str(c) && c@ == binary)
        && fields@[1].0@ == "args"@ && (fields@[1].1 matches Json::Array(a) && a@.len() == 1
            && (a@[0] matches Json::Str(m) && m@ == "mcp"@))
}

/// Whether a config has a server entry for Quill.
pub open spec fn has_quill_spec(doc: Json) -> bool {
    match doc {
        Json::Object(entries) => match lookup(entries@, SERVERS_KEY@) {
            Some(Json::Object(servers)) => lookup(servers@, QUILL_KEY@) is Some,
            _ => false,
        },
        _ => false,
    }
}

proof fn lemma_lookup_found(entries: Seq<(String, Json)>, key: Seq<char>, i: int)
    requires
        0 <= i < entries.len(),
        entries[i].0@ == key,
        forall|j: int| 0 <= j < i ==> entries[j].0@ != key,
    ensures
        lookup(entries, key) == Some(entries[i].1),
    decreases i,
{
    if i > 0 {
        let rest = entries.drop_first();
        assert forall|j: int| 0 <= j < i - 1 implies rest[j].0@ != key by {
            assert(rest[j] == entries[j + 1]);
        }
        lemma_lookup_found(rest, key, i - 1);
    }
}

proof fn lemma_lookup_absent(entries: Seq<(String, Json)>, key: Seq<char>)
    requires
        forall|j: int| 0 <= j < entries.len() ==> entries[j].0@ != key,
    ensures
        lookup(entries, key) is None,
    decreases entries.len(),
{
    if entries.len() > 0 {
        let rest = entries.drop_first();
        assert forall|j: int| 0 <= j < rest.len() implies rest[j].0@ != key by {
            assert(rest[j] == entries[j + 1]);
        }
        lemma_lookup_absent(rest, key);
    }
}

/// Looking up in a sequence with one more entry at the end.
proof fn lemma_lookup_push(entries: Seq<(String, Json)>, e: (String, Json), key: Seq<char>)
    ensures
        lookup(entries.push(e), key) == (match lookup(entries, key) {
            Some(v) => Some(v),
            None => if e.0@ == key { Some(e.1) } else { None },
        }),
    decreases entries.len(),
{
    reveal_with_fuel(lookup, 2);
    if entries.len() > 0 {
        assert(entries.push(e)[0] == entries[0]);
        assert(entries.push(e).drop_first() =~= entries.drop_first().push(e));
        lemma_lookup_push(entries.drop_first(), e, key);
    } else {
        assert(entries.push(e)[0] == e);
        assert(entries.push(e).drop_first() =~= Seq::<(String, Json)>::empty());
        assert(lookup(Seq::<(String, Json)>::empty(), key) is None);
    }
}

/// Replacing the value of the first entry with `key`.
proof fn lemma_lookup_update(entries: Seq<(String, Json)>, i: int, key: Seq<char>, v: Json, other: Seq<char>)
    requires
        0 <= i < entries.len(),
        entries[i].0@ == key,
        forall|j: int| 0 <= j < i ==> entries[j].0@ != key,
    ensures
        lookup(entries.update(i, (entries[i].0, v)), key) == Some(v),
        other != key ==> lookup(entries.update(i, (entries[i].0, v)), other) == lookup(entries, other),
    decreases i,
{
    let u = entries.update(i, (entries[i].0, v));
    if i == 0 {
        assert(u.drop_first() =~= entries.drop_first());
    } else {
        let rest = entries.drop_first();
        assert(u.drop_first() =~= rest.update(i - 1, (rest[i - 1].0, v)));
        assert forall|j: int| 0 <= j < i - 1 implies rest[j].0@ != key by {
            assert(rest[j] == entries[j + 1]);
        }
        lemma_lookup_update(rest, i - 1, key, v, other);
    }
}

/// The index of the first entry with `key`.
fn find_key(entries: &Vec<(String, Json)>, key: &str) -> (r: Option<usize>)
    ensures
        match r {
            Some(i) => i < entries@.len() && entries@[i as int].0@ == key@
                && forall|j: int| 0 <= j < i ==> entries@[j].0@ != key@,
            None => forall|j: int| 0 <= j < entries@.len() ==> entries@[j].0@ != key@,
        },
{
    let mut i: usize = 0;
    while i < entries.len()
        invariant
            i <= entries@.len(),
            forall|j: int| 0 <= j < i ==> entries@[j].0@ != key@,
        decreases entries@.len() - i,
    {
        if str_eq(entries[i].0.as_str(), key) {
            return Some(i);
        }
        i = i + 1;
    }
    None
}

/// Sets `key` to `v`: the first entry with the key gets the new value, or
/// a new entry goes at the end. Every other key keeps its value.
fn set_key(entries: Vec<(String, Json)>, key: &str, v: Json) -> (r: Vec<(String, Json)>)
    ensures
        lookup(r@, key@) == Some(v),
        forall|k: Seq<char>| k != key@ ==> #[trigger] lookup(r@, k) == lookup(entries@, k),
{
    let mut entries = entries;
    match find_key(&entries, key) {
        Some(i) => {
            let ghost before = entries@;
            let (k, _old) = entries.remove(i);
            entries.insert(i, (k, v));
            proof {
                assert(entries@ =~= before.update(i as int, (before[i as int].0, v)));
                assert forall|k2: Seq<char>| k2 != key@ implies #[trigger] lookup(entries@, k2) == lookup(before, k2) by {
                    lemma_lookup_update(before, i as int, key@, v, k2);
                }
                lemma_lookup_update(before, i as int, key@, v, key@);
            }
            entries
        },
        None => {
            let ghost before = entries@;
            entries.push((owned(key), v));
            proof {
                lemma_lookup_absent(before, key@);
                assert forall|k2: Seq<char>| k2 != key@ implies #[trigger] lookup(entries@, k2) == lookup(before, k2) by {
                    lemma_lookup_push(before, entries@.last(), k2);
                    assert(entries@ == before.push(entries@.last()));
                }
                lemma_lookup_push(before, entries@.last(), key@);
                assert(entries@ == before.push(entries@.last()));
            }
            entries
        },
    }
}

/// Removes every entry with `key`. Every other key keeps its value.
fn remove_key(entries: Vec<(String, Json)>, key: &str) -> (r: Vec<(String, Json)>)
    ensures
        lookup(r@, key@) is None,
        forall|k: Seq<char>| k != key@ ==> #[trigger] lookup(r@, k) == lookup(entries@, k),
{
    let ghost all = entries@;
    let mut rest = entries;
    let mut kept: Vec<(String, Json)> = Vec::new();
    let mut taken: usize = 0;
    let total = rest.len();
    while rest.len() > 0
        invariant
            total == all.len(),
            taken + rest@.len() == total,
            rest@ == all.skip(taken as int),
            forall|j: int| 0 <= j < kept@.len() ==> kept@[j].0@ != key@,
            forall|k: Seq<char>| k != key@ ==> #[trigger] lookup(kept@, k) == lookup(all.take(taken as int), k),
        decreases rest@.len(),
    {
        let ghost before = kept@;
        let e = rest.remove(0);
        proof {
            assert(all.take(taken + 1) =~= all.take(taken as int).push(e));
            assert(rest@ =~= all.skip(taken + 1));
        }
        if !str_eq(e.0.as_str(), key) {
            kept.push(e);
            proof {
                assert forall|k: Seq<char>| k != key@ implies #[trigger] lookup(kept@, k) == lookup(all.take(taken + 1), k) by {
                    lemma_lookup_push(before, e, k);
                    lemma_lookup_push(all.take(taken as int), e, k);
                    assert(kept@ =~= before.push(e));
                }
            }
        } else {
            proof {
                assert forall|k: Seq<char>| k != key@ implies #[trigger] lookup(kept@, k) == lookup(all.take(taken + 1), k) by {
                    lemma_lookup_push(all.take(taken as int), e, k);
                }
            }
        }
        taken = taken + 1;
    }
    proof {
        assert(all.take(taken as int) =~= all);
        lemma_lookup_absent(kept@, key@);
    }
    kept
}

/// The server entry that launches `binary` with the `mcp` argument.
pub fn quill_entry(binary: &str) -> (e: Json)
    ensures
        quill_entry_spec(e, binary@),
{
    let mut args: Vec<Json> = Vec::new();
    args.push(Json::Str(owned("mcp")));
    let mut fields: Vec<(String, Json)> = Vec::new();
    fields.push((owned("command"), Json::Str(owned(binary))));
    fields.push((owned("args"), Json::Array(args)));
    Json::Object(fields)
}

/// Whether the parsed config has `mcpServers.quill`.
pub fn json_config_has_quill(doc: &Json) -> (b: bool)
    ensures
        b == has_quill_spec(*doc),
{
    match doc {
        Json::Object(entries) => match find_key(entries, SERVERS_KEY) {
            Some(i) => {
                proof {
                    lemma_lookup_found(entries@, SERVERS_KEY@, i as int);
                }
                match &entries[i].1 {
                    Json::Object(servers) => {
                        let r = find_key(servers, QUILL_KEY);
                        proof {
                            match r {
                                Some(j) => lemma_lookup_found(servers@, QUILL_KEY@, j as int),
                                None => lemma_lookup_absent(servers@, QUILL_KEY@),
                            }
                        }
                        r.is_some()
                    },
                    _ => false,
                }
            },
            None => {
                proof {
                    lemma_lookup_absent(entries@, SERVERS_KEY@);
                }
                false
            },
        },
        _ => false,
    }
}

/// Why a config could not be edited; the file is left as it was.
#[derive(Debug, PartialEq, Eq, Structural)]
pub enum ConfigShapeError {
    /// The top level is not a JSON object.
    NotObject,
    /// `mcpServers` exists but is not a JSON object.
    ServersNotObject,
}

/// What a refusal is reported as, for the config file at `path`.
pub open spec fn config_shape_message_spec(e: ConfigShapeError, path: Seq<char>) -> Seq<char> {
    match e {
        ConfigShapeError::NotObject => path + " is not a JSON object at top level"@,
        ConfigShapeError::ServersNotObject => path + "::mcpServers is not a JSON object"@,
    }
}

impl ConfigShapeError {
    /// The refusal's message for the config file at `path`.
    pub fn message(&self, path: &str) -> (r: String)
        ensures
            r@ == config_shape_message_spec(*self, path@),
    {
        let mut s = owned(path);
        match self {
            ConfigShapeError::NotObject => s.append(" is not a JSON object at top level"),
            ConfigShapeError::ServersNotObject => s.append("::mcpServers is not a JSON object"),
        }
        s
    }
}

/// The edited config: with `enabled`, Quill's entry launching `binary` is
/// set under `mcpServers` (created when missing); without, it is removed.
/// Nothing else changes: every other top-level key and every other server
/// keeps its value. A config of another shape is refused.
pub open spec fn edited_config_spec(doc: Json, enabled: bool, binary: Seq<char>, r: Result<Json, ConfigShapeError>) -> bool {
    match doc {
        Json::Object(entries) => match lookup(entries@, SERVERS_KEY@) {
            Some(Json::Object(old_servers)) => edit_ok(entries@, old_servers@, enabled, binary, r),
            None => edit_ok(entries@, Seq::empty(), enabled, binary, r),
            Some(_) => r == Err::<Json, ConfigShapeError>(ConfigShapeError::ServersNotObject),
        },
        _ => r == Err::<Json, ConfigShapeError>(ConfigShapeError::NotObject),
    }
}

/// The successful edit, given the old servers.
pub open spec fn edit_ok(
    entries: Seq<(String, Json)>,
    old_servers: Seq<(String, Json)>,
    enabled: bool,
    binary: Seq<char>,
    r: Result<Json, ConfigShapeError>,
) -> bool {
    &&& r matches Ok(Json::Object(new_entries))
    &&& forall|k: Seq<char>| k != SERVERS_KEY@ ==> #[trigger] lookup(new_entries@, k) == lookup(entries, k)
    &&& lookup(new_entries@, SERVERS_KEY@) matches Some(Json::Object(servers))
    &&& forall|k: Seq<char>| k != QUILL_KEY@ ==> #[trigger] lookup(servers@, k) == lookup(old_servers, k)
    &&& if enabled {
        lookup(servers@, QUILL_KEY@) matches Some(e) && quill_entry_spec(e, binary)
    } else {
        lookup(servers@, QUILL_KEY@) is None
    }
}

/// Adds (`enabled`) or removes Quill's server entry in a parsed config.
pub fn edit_json_config(doc: Json, enabled: bool, binary: &str) -> (r: Result<Json, ConfigShapeError>)
    ensures
        edited_config_spec(doc, enabled, binary@, r),
{
    let ghost d0 = doc;
    let mut entries = match doc {
        Json::Object(entries) => entries,
        _ => return Err(ConfigShapeError::NotObject),
    };
    let ghost e0 = entries@;
    let servers: Vec<(String, Json)> = match find_key(&entries, SERVERS_KEY) {
        Some(i) => {
            proof {
                lemma_lookup_found(entries@, SERVERS_KEY@, i as int);
            }
            let (k, v) = entries.remove(i);
            let s = match v {
                Json::Object(s) => s,
                other => {
                    return Err(ConfigShapeError::ServersNotObject);
                },
            };
            entries.insert(i, (k, Json::Null));
            proof {
                assert(entries@ =~= e0.update(i as int, (e0[i as int].0, Json::Null)));
                assert forall|k2: Seq<char>| k2 != SERVERS_KEY@ implies #[trigger] lookup(entries@, k2) == lookup(e0, k2) by {
                    lemma_lookup_update(e0, i as int, SERVERS_KEY@, Json::Null, k2);
                }
            }
            s
        },
        None => {
            proof {
                lemma_lookup_absent(entries@, SERVERS_KEY@);
            }
            Vec::new()
        },
    };
    let ghost old_servers = servers@;
    let new_servers = if enabled {
        set_key(servers, QUILL_KEY, quill_entry(binary))
    } else {
        remove_key(servers, QUILL_KEY)
    };
    let ghost mid = entries@;
    let out = set_key(entries, SERVERS_KEY, Json::Object(new_servers));
    proof {
        assert forall|k: Seq<char>| k != SERVERS_KEY@ implies #[trigger] lookup(out@, k) == lookup(e0, k) by {
            assert(lookup(out@, k) == lookup(mid, k));
        }
    }
    Ok(Json::Object(out))
}

/// Editing never loses anything but Quill's own entry: after enabling and
/// then disabling, every other top-level key and every other server has
/// the value it started with, and Quill's entry is gone.
pub proof fn law_config_edit_non_destructive(
    doc: Json,
    binary: Seq<char>,
    r1: Result<Json, ConfigShapeError>,
    r2: Result<Json, ConfigShapeError>,
)
    requires
        edited_config_spec(doc, true, binary, r1),
        (r1 matches Ok(d1) && edited_config_spec(d1, false, binary, r2)),
        (doc matches Json::Object(entries) && lookup(entries@, SERVERS_KEY@) matches Some(Json::Object(_))),
    ensures
        r2 matches Ok(d2) && !has_quill_spec(d2),
        (doc matches Json::Object(entries) && r2 matches Ok(Json::Object(final_entries))
            && forall|k: Seq<char>| k != SERVERS_KEY@ ==> #[trigger] lookup(final_entries@, k) == lookup(entries@, k)),
{
    if let Json::Object(entries) = doc {
        if let Ok(Json::Object(e1)) = r1 {
            if let Ok(Json::Object(e2)) = r2 {
                assert forall|k: Seq<char>| k != SERVERS_KEY@ implies #[trigger] lookup(e2@, k) == lookup(entries@, k) by {
                    assert(lookup(e2@, k) == lookup(e1@, k));
                }
            }
        }
    }
}

} // verus!
