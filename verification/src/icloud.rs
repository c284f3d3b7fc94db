//! iCloud container paths, the evicted-file placeholder naming scheme, and
//! the set of paths with a read probe still in flight.
use vstd::prelude::*;

use crate::paths::{
    join, join_spec, path_file_name, path_parent, spec_path_file_name, spec_path_parent,
};
use crate::platform::Platform;
use crate::text::{ends_with, is_prefix, is_suffix, owned, push_char, starts_with, str_eq};

verus! {

/// The ubiquity container this app syncs through.
pub const ICLOUD_CONTAINER_ID: &'static str = "iCloud.com.wycstudios.quill";

/// Where macOS keeps every ubiquity container, relative to `$HOME`.
pub const MOBILE_DOCUMENTS: &'static str = "Library/Mobile Documents";

/// The user-visible folder inside a container.
pub const CONTAINER_DOCUMENTS: &'static str = "Documents";

/// What iCloud appends to the name of an evicted file's stub.
pub const PLACEHOLDER_SUFFIX: &'static str = ".icloud";

/// `s` with every `.` replaced by `~`, the way container ids become folder
/// names.
pub open spec fn tilde_for_dots(s: Seq<char>) -> Seq<char> {
    Seq::new(s.len(), |i: int| if s[i] == '.' { '~' } else { s[i] })
}

/// The folder name of a container id (`str::replace('.', "~")`).
pub fn container_folder_name(id: &str) -> (r: String)
    ensures
        r@ == tilde_for_dots(id@),
{
    let n = id.unicode_len();
    let mut out = String::new();
    let mut i: usize = 0;
    while i < n
        invariant
            n == id@.len(),
            i <= n,
            out@ == tilde_for_dots(id@.subrange(0, i as int)),
        decreases n - i,
    {
        let c = id.get_char(i);
        if c == '.' {
            push_char(&mut out, '~');
        } else {
            push_char(&mut out, c);
        }
        i = i + 1;
        assert(out@ =~= tilde_for_dots(id@.subrange(0, i as int)));
    }
    assert(id@.subrange(0, n as int) =~= id@);
    out
}

/// `~/Library/Mobile Documents` for a home directory.
pub open spec fn mobile_documents_spec(home: Seq<char>) -> Seq<char> {
    join_spec(home, MOBILE_DOCUMENTS@)
}

/// `~/Library/Mobile Documents/<container folder>/Documents`.
pub open spec fn icloud_data_dir_spec(home: Seq<char>) -> Seq<char> {
    join_spec(
        join_spec(mobile_documents_spec(home), tilde_for_dots(ICLOUD_CONTAINER_ID@)),
        CONTAINER_DOCUMENTS@,
    )
}

/// The directory whose presence tells that this Mac is signed in to iCloud.
pub fn mobile_documents_dir(home: &str) -> (r: String)
    ensures
        r@ == mobile_documents_spec(home@),
{
    join(home, MOBILE_DOCUMENTS)
}

/// The iCloud Documents directory for the home directory `home`, by the
/// deterministic path; `None` off macOS and when there is no home
/// directory. Whether the directory exists is not checked.
pub fn icloud_data_dir(platform: Platform, home: Option<&str>) -> (r: Option<String>)
    ensures
        match (platform, home) {
            (Platform::MacOs, Some(h)) => r matches Some(d) && d@ == icloud_data_dir_spec(h@),
            _ => r is None,
        },
{
    if platform != Platform::MacOs {
        return None;
    }
    match home {
        Some(h) => {
            let base = mobile_documents_dir(h);
            let folder = container_folder_name(ICLOUD_CONTAINER_ID);
            let container = join(base.as_str(), folder.as_str());
            Some(join(container.as_str(), CONTAINER_DOCUMENTS))
        },
        None => None,
    }
}

/// The stub name iCloud leaves for an evicted file: `.<name>.icloud`.
pub open spec fn placeholder_name_spec(name: Seq<char>) -> Seq<char> {
    seq!['.'] + name + PLACEHOLDER_SUFFIX@
}

/// Whether a directory entry name has the placeholder shape.
pub open spec fn is_placeholder_name_spec(name: Seq<char>) -> bool {
    is_prefix(seq!['.'], name) && is_suffix(PLACEHOLDER_SUFFIX@, name)
}

/// The real file name a placeholder stands for: its name without the
/// leading `.` and the `.icloud` suffix.
pub open spec fn real_name_spec(name: Seq<char>) -> Seq<char> {
    name.subrange(1, name.len() - PLACEHOLDER_SUFFIX@.len())
}

/// `.<name>.icloud`.
pub fn placeholder_name(name: &str) -> (r: String)
    ensures
        r@ == placeholder_name_spec(name@),
{
    proof {
        reveal_strlit(".");
    }
    let mut out = owned(".");
    out.append(name);
    out.append(PLACEHOLDER_SUFFIX);
    out
}

/// True when `name` matches the evicted-placeholder pattern
/// `.<realname>.icloud`.
pub fn is_icloud_placeholder(name: &str) -> (b: bool)
    ensures
        b == is_placeholder_name_spec(name@),
{
    proof {
        reveal_strlit(".");
        assert(".".view() =~= seq!['.']);
    }
    starts_with(name, ".") && ends_with(name, PLACEHOLDER_SUFFIX)
}

/// `.foo.epub.icloud` → `foo.epub`; `None` when the name is no placeholder.
/// The name `.icloud` itself, which has the shape but no room for a real
/// name, is not accepted.
pub fn real_name_from_placeholder(name: &str) -> (r: Option<String>)
    requires
        is_placeholder_name_spec(name@) ==> name@.len() > PLACEHOLDER_SUFFIX@.len(),
    ensures
        match r {
            Some(stem) => is_placeholder_name_spec(name@) && stem@ == real_name_spec(name@),
            None => !is_placeholder_name_spec(name@),
        },
{
    proof {
        reveal_strlit(".icloud");
    }
    if !is_icloud_placeholder(name) {
        return None;
    }
    let n = name.unicode_len();
    Some(owned(name.substring_char(1, n - 7)))
}

/// A placeholder name is recognised as one and leads back to the real
/// name it was made from.
pub proof fn law_placeholder_round_trip(name: Seq<char>)
    ensures
        is_placeholder_name_spec(placeholder_name_spec(name)),
        placeholder_name_spec(name).len() > PLACEHOLDER_SUFFIX@.len(),
        real_name_spec(placeholder_name_spec(name)) == name,
{
    reveal_strlit(".icloud");
    let p = placeholder_name_spec(name);
    assert(p.subrange(0, 1) =~= seq!['.']);
    assert(p.subrange(p.len() - 7, p.len() as int) =~= PLACEHOLDER_SUFFIX@);
    assert(real_name_spec(p) =~= name);
}

/// The placeholder for the file `name` inside `parent`.
pub fn placeholder_beside(parent: &str, name: &str) -> (r: String)
    ensures
        r@ == join_spec(parent@, placeholder_name_spec(name@)),
{
    let stub = placeholder_name(name);
    join(parent, stub.as_str())
}

/// What `icloud_placeholder_path` returns for the parent and file name
/// std splits a path into.
pub open spec fn placeholder_path_spec(path: Seq<char>) -> Option<Seq<char>> {
    match (spec_path_parent(path), spec_path_file_name(path)) {
        (Some(parent), Some(name)) => Some(join_spec(parent, placeholder_name_spec(name))),
        _ => None,
    }
}

/// `/dir/foo.epub` → `/dir/.foo.epub.icloud`; `None` when the path has no
/// parent or no file name.
pub fn icloud_placeholder_path(path: &str) -> (r: Option<String>)
    ensures
        match r {
            Some(p) => placeholder_path_spec(path@) == Some(p@),
            None => placeholder_path_spec(path@) is None,
        },
{
    let parent = match path_parent(path) {
        Some(p) => p,
        None => return None,
    };
    let name = match path_file_name(path) {
        Some(n) => n,
        None => return None,
    };
    Some(placeholder_beside(parent.as_str(), name.as_str()))
}

/// Whether some string of `v` has the characters `p`.
pub open spec fn listed(v: Seq<String>, p: Seq<char>) -> bool {
    exists|j: int| 0 <= j < v.len() && #[trigger] v[j]@ == p
}

/// The paths whose one-byte read probe has not returned yet.
pub struct ProbeSet {
    paths: Vec<String>,
}

impl View for ProbeSet {
    type V = Set<Seq<char>>;

    closed spec fn view(&self) -> Set<Seq<char>> {
        Set::new(|p: Seq<char>| listed(self.paths@, p))
    }
}

impl ProbeSet {
    /// No probe in flight.
    pub fn new() -> (s: Self)
        ensures
            s@ == Set::<Seq<char>>::empty(),
    {
        let s = ProbeSet { paths: Vec::new() };
        assert(s@ =~= Set::<Seq<char>>::empty());
        s
    }

    /// Whether a probe worker is still blocked on `path`.
    pub fn probe_in_flight(&self, path: &str) -> (b: bool)
        ensures
            b == self@.contains(path@),
    {
        let mut i: usize = 0;
        while i < self.paths.len()
            invariant
                i <= self.paths.len(),
                forall|j: int| 0 <= j < i ==> self.paths[j]@ != path@,
            decreases self.paths.len() - i,
        {
            if str_eq(self.paths[i].as_str(), path) {
                assert(listed(self.paths@, path@));
                return true;
            }
            i = i + 1;
        }
        false
    }

    /// Marks `path` in flight. Returns `false`, and changes nothing, when a
    /// probe is already blocked on it.
    pub fn try_mark_probe(&mut self, path: &str) -> (marked: bool)
        ensures
            marked == !old(self)@.contains(path@),
            final(self)@ == old(self)@.insert(path@),
    {
        if self.probe_in_flight(path) {
            assert(self@.insert(path@) =~= self@);
            return false;
        }
        let ghost before = self.paths@;
        self.paths.push(owned(path));
        proof {
            assert forall|p: Seq<char>| #[trigger] listed(self.paths@, p) <==> (listed(before, p) || p == path@) by {
                if p == path@ {
                    assert(self.paths@[before.len() as int]@ == p);
                }
                if listed(before, p) {
                    let i = choose|i: int| 0 <= i < before.len() && #[trigger] before[i]@ == p;
                    assert(self.paths@[i]@ == p);
                }
                if listed(self.paths@, p) && p != path@ {
                    let i = choose|i: int| 0 <= i < self.paths@.len() && #[trigger] self.paths@[i]@ == p;
                    assert(before[i]@ == p);
                }
            }
            assert(self@ =~= old(self)@.insert(path@));
        }
        true
    }

    /// Clears the mark on `path` once its probe returned, on any outcome.
    pub fn clear_probe(&mut self, path: &str)
        ensures
            final(self)@ == old(self)@.remove(path@),
    {
        let ghost all = self.paths@;
        let mut kept: Vec<String> = Vec::new();
        let mut i: usize = 0;
        while i < self.paths.len()
            invariant
                all == self.paths@,
                i <= self.paths.len(),
                forall|j: int| 0 <= j < kept.len() ==> #[trigger] kept[j]@ != path@,
                forall|p: Seq<char>| p != path@ ==> (#[trigger] listed(kept@, p)
                    <==> listed(all.subrange(0, i as int), p)),
            decreases self.paths.len() - i,
        {
            let ghost before = kept@;
            let ghost cur = all[i as int];
            if !str_eq(self.paths[i].as_str(), path) {
                kept.push(owned(self.paths[i].as_str()));
                assert(kept@.len() == before.len() + 1);
                assert(kept@[before.len() as int]@ == cur@);
            }
            proof {
                assert(cur@ == path@ ==> kept@ == before);
                assert(cur@ != path@ ==> kept@.len() == before.len() + 1 && kept@[before.len() as int]@ == cur@);
                assert(forall|j: int| 0 <= j < before.len() ==> kept@[j] == before[j]);
                let done = all.subrange(0, i + 1);
                let prev = all.subrange(0, i as int);
                assert forall|p: Seq<char>| p != path@ implies (#[trigger] listed(kept@, p)
                    <==> listed(done, p)) by {
                    if listed(kept@, p) {
                        let j = choose|j: int| 0 <= j < kept@.len() && #[trigger] kept@[j]@ == p;
                        if j < before.len() {
                            assert(before[j]@ == p);
                            assert(listed(before, p));
                            let k = choose|k: int| 0 <= k < prev.len() && #[trigger] prev[k]@ == p;
                            assert(done[k]@ == p);
                        } else {
                            assert(done[i as int] == cur);
                        }
                    }
                    if listed(done, p) {
                        let j = choose|j: int| 0 <= j < done.len() && #[trigger] done[j]@ == p;
                        if j < i {
                            assert(prev[j]@ == p);
                            assert(listed(prev, p));
                            assert(listed(before, p));
                            let k = choose|k: int| 0 <= k < before.len() && #[trigger] before[k]@ == p;
                            assert(kept@[k]@ == p);
                        } else {
                            assert(done[j] == cur);
                            assert(kept@[before.len() as int]@ == p);
                        }
                    }
                }
            }
            i = i + 1;
        }
        let ghost old_view = self@;
        assert(all.subrange(0, all.len() as int) =~= all);
        self.paths = kept;
        proof {
            assert forall|p: Seq<char>| #[trigger] self@.contains(p) <==> old_view.remove(path@).contains(p) by {
                if listed(self.paths@, p) {
                    let j = choose|j: int| 0 <= j < self.paths@.len() && #[trigger] self.paths@[j]@ == p;
                    assert(self.paths@[j]@ != path@);
                }
            }
            assert(self@ =~= old_view.remove(path@));
        }
    }
}

/// While a probe is in flight on a path, every further mark of that path
/// is refused; once it is cleared, the next mark succeeds.
pub proof fn law_probe_single_flight(s: Set<Seq<char>>, path: Seq<char>)
    ensures
        s.insert(path).contains(path),
        !s.insert(path).remove(path).contains(path),
        s.insert(path).insert(path) == s.insert(path),
{
    assert(s.insert(path).insert(path) =~= s.insert(path));
}

} // verus!
