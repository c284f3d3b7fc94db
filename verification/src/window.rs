//! Per-window state kept by label: each window's title-bar zoom, set when
//! the page zooms and dropped when the window closes.
use vstd::prelude::*;

use crate::text::{owned, str_eq};

verus! {

/// Whether no two entries share a label.
pub open spec fn unique_labels<Z>(s: Seq<(String, Z)>) -> bool {
    forall|i: int, j: int| 0 <= i < j < s.len() ==> s[i].0@ != s[j].0@
}

/// Whether some entry has the label.
pub open spec fn has_label<Z>(s: Seq<(String, Z)>, l: Seq<char>) -> bool {
    exists|i: int| 0 <= i < s.len() && #[trigger] s[i].0@ == l
}

/// The entries as a map from label to value.
pub open spec fn values_map<Z>(s: Seq<(String, Z)>) -> Map<Seq<char>, Z> {
    Map::new(
        |l: Seq<char>| has_label(s, l),
        |l: Seq<char>| s[choose|i: int| 0 <= i < s.len() && #[trigger] s[i].0@ == l].1,
    )
}

proof fn lemma_value_at<Z>(s: Seq<(String, Z)>, i: int)
    requires
        unique_labels(s),
        0 <= i < s.len(),
    ensures
        values_map(s).dom().contains(s[i].0@),
        values_map(s)[s[i].0@] == s[i].1,
{
    let l = s[i].0@;
    assert(has_label(s, l));
    let c = choose|k: int| 0 <= k < s.len() && #[trigger] s[k].0@ == l;
    assert(c == i);
}

proof fn lemma_map_update<Z>(s: Seq<(String, Z)>, i: int, v: Z)
    requires
        unique_labels(s),
        0 <= i < s.len(),
    ensures
        unique_labels(s.update(i, (s[i].0, v))),
        values_map(s.update(i, (s[i].0, v))) == values_map(s).insert(s[i].0@, v),
{
    let u = s.update(i, (s[i].0, v));
    assert forall|a: int, b: int| 0 <= a < b < u.len() implies u[a].0@ != u[b].0@ by {
        assert(u[a].0 == s[a].0);
        assert(u[b].0 == s[b].0);
    }
    let m = values_map(s).insert(s[i].0@, v);
    assert forall|l: Seq<char>| values_map(u).dom().contains(l) <==> m.dom().contains(l) by {
        if has_label(u, l) {
            let k = choose|k: int| 0 <= k < u.len() && #[trigger] u[k].0@ == l;
            assert(s[k].0 == u[k].0);
            assert(has_label(s, l));
        }
        if has_label(s, l) {
            let k = choose|k: int| 0 <= k < s.len() && #[trigger] s[k].0@ == l;
            assert(s[k].0 == u[k].0);
            assert(has_label(u, l));
        }
        if l == s[i].0@ {
            assert(u[i].0@ == l);
        }
    }
    assert forall|l: Seq<char>| #[trigger] values_map(u).dom().contains(l) implies values_map(u)[l] == m[l] by {
        let k = choose|k: int| 0 <= k < u.len() && #[trigger] u[k].0@ == l;
        lemma_value_at(u, k);
        assert(s[k].0 == u[k].0);
        lemma_value_at(s, k);
    }
    assert(values_map(u) =~= m);
}

proof fn lemma_map_push<Z>(s: Seq<(String, Z)>, k: String, v: Z)
    requires
        unique_labels(s),
        !has_label(s, k@),
    ensures
        unique_labels(s.push((k, v))),
        values_map(s.push((k, v))) == values_map(s).insert(k@, v),
{
    let u = s.push((k, v));
    assert forall|a: int, b: int| 0 <= a < b < u.len() implies u[a].0@ != u[b].0@ by {
        assert(u[a] == s[a]);
        if b < s.len() {
            assert(u[b] == s[b]);
        } else {
            assert(s[a].0@ != k@);
        }
    }
    let m = values_map(s).insert(k@, v);
    assert forall|l: Seq<char>| values_map(u).dom().contains(l) <==> m.dom().contains(l) by {
        if has_label(u, l) {
            let j = choose|j: int| 0 <= j < u.len() && #[trigger] u[j].0@ == l;
            if j < s.len() {
                assert(u[j] == s[j]);
                assert(has_label(s, l));
            }
        }
        if has_label(s, l) {
            let j = choose|j: int| 0 <= j < s.len() && #[trigger] s[j].0@ == l;
            assert(u[j] == s[j]);
            assert(has_label(u, l));
        }
        if l == k@ {
            assert(u[s.len() as int].0@ == l);
        }
    }
    assert forall|l: Seq<char>| #[trigger] values_map(u).dom().contains(l) implies values_map(u)[l] == m[l] by {
        let j = choose|j: int| 0 <= j < u.len() && #[trigger] u[j].0@ == l;
        lemma_value_at(u, j);
        if j < s.len() {
            assert(u[j] == s[j]);
            lemma_value_at(s, j);
        }
    }
    assert(values_map(u) =~= m);
}

proof fn lemma_map_remove<Z>(s: Seq<(String, Z)>, i: int)
    requires
        unique_labels(s),
        0 <= i < s.len(),
    ensures
        unique_labels(s.remove(i)),
        values_map(s.remove(i)) == values_map(s).remove(s[i].0@),
{
    let u = s.remove(i);
    assert forall|a: int, b: int| 0 <= a < b < u.len() implies u[a].0@ != u[b].0@ by {
        let sa = if a < i { a } else { a + 1 };
        let sb = if b < i { b } else { b + 1 };
        assert(u[a] == s[sa]);
        assert(u[b] == s[sb]);
    }
    let m = values_map(s).remove(s[i].0@);
    assert forall|l: Seq<char>| values_map(u).dom().contains(l) <==> m.dom().contains(l) by {
        if has_label(u, l) {
            let j = choose|j: int| 0 <= j < u.len() && #[trigger] u[j].0@ == l;
            let sj = if j < i { j } else { j + 1 };
            assert(u[j] == s[sj]);
            assert(has_label(s, l));
            assert(sj != i);
        }
        if has_label(s, l) && l != s[i].0@ {
            let j = choose|j: int| 0 <= j < s.len() && #[trigger] s[j].0@ == l;
            let uj = if j < i { j } else { j - 1 };
            assert(j != i);
            assert(u[uj] == s[j]);
            assert(has_label(u, l));
        }
    }
    assert forall|l: Seq<char>| #[trigger] values_map(u).dom().contains(l) implies values_map(u)[l] == m[l] by {
        let j = choose|j: int| 0 <= j < u.len() && #[trigger] u[j].0@ == l;
        lemma_value_at(u, j);
        let sj = if j < i { j } else { j + 1 };
        assert(u[j] == s[sj]);
        lemma_value_at(s, sj);
    }
    assert(values_map(u) =~= m);
}

/// A value per window label. The values are opaque here; the title bar
/// keeps a zoom factor per window in one.
pub struct WindowValues<Z> {
    entries: Vec<(String, Z)>,
}

impl<Z> WindowValues<Z> {
    /// Labels are unique.
    pub closed spec fn wf(&self) -> bool {
        unique_labels(self.entries@)
    }

    /// The value of each label that has one.
    pub closed spec fn values(&self) -> Map<Seq<char>, Z> {
        values_map(self.entries@)
    }

    /// No window has a value.
    pub fn new() -> (w: Self)
        ensures
            w.wf(),
            w.values() == Map::<Seq<char>, Z>::empty(),
    {
        let w = WindowValues { entries: Vec::new() };
        assert(w.values() =~= Map::<Seq<char>, Z>::empty());
        w
    }

    fn index_of(&self, label: &str) -> (r: Option<usize>)
        ensures
            match r {
                Some(i) => i < self.entries@.len() && self.entries@[i as int].0@ == label@,
                None => !has_label(self.entries@, label@),
            },
    {
        let mut i: usize = 0;
        while i < self.entries.len()
            invariant
                i <= self.entries@.len(),
                forall|j: int| 0 <= j < i ==> self.entries@[j].0@ != label@,
            decreases self.entries@.len() - i,
        {
            if str_eq(self.entries[i].0.as_str(), label) {
                return Some(i);
            }
            i = i + 1;
        }
        None
    }

    /// Records `value` for the window `label`, replacing its old one.
    pub fn set(&mut self, label: &str, value: Z)
        requires
            old(self).wf(),
        ensures
            final(self).wf(),
            final(self).values() == old(self).values().insert(label@, value),
    {
        let ghost before = self.entries@;
        match self.index_of(label) {
            Some(i) => {
                let (k, _old) = self.entries.remove(i);
                self.entries.insert(i, (k, value));
                proof {
                    assert(self.entries@ =~= before.update(i as int, (before[i as int].0, value)));
                    lemma_map_update(before, i as int, value);
                }
            },
            None => {
                let k = owned(label);
                self.entries.push((k, value));
                proof {
                    lemma_map_push(before, self.entries@.last().0, value);
                    assert(self.entries@ =~= before.push((self.entries@.last().0, value)));
                }
            },
        }
    }

    /// Drops the value of the window `label`, if it has one.
    pub fn remove(&mut self, label: &str) -> (r: Option<Z>)
        requires
            old(self).wf(),
        ensures
            final(self).wf(),
            final(self).values() == old(self).values().remove(label@),
            match r {
                Some(z) => old(self).values().dom().contains(label@) && old(self).values()[label@] == z,
                None => !old(self).values().dom().contains(label@),
            },
    {
        let ghost before = self.entries@;
        match self.index_of(label) {
            Some(i) => {
                let (_k, z) = self.entries.remove(i);
                proof {
                    lemma_map_remove(before, i as int);
                    lemma_value_at(before, i as int);
                }
                Some(z)
            },
            None => {
                proof {
                    assert(self.values().remove(label@) =~= self.values());
                }
                None
            },
        }
    }
}

impl<Z: Copy> WindowValues<Z> {
    /// The value of the window `label`.
    pub fn get(&self, label: &str) -> (r: Option<Z>)
        requires
            self.wf(),
        ensures
            match r {
                Some(z) => self.values().dom().contains(label@) && self.values()[label@] == z,
                None => !self.values().dom().contains(label@),
            },
    {
        match self.index_of(label) {
            Some(i) => {
                proof {
                    lemma_value_at(self.entries@, i as int);
                }
                Some(self.entries[i].1)
            },
            None => None,
        }
    }
}

/// Values are kept per window: setting one window's value leaves every
/// other window's as it was, and removing a window's value on close leaves
/// the others too.
pub proof fn law_window_scoped<Z>(m: Map<Seq<char>, Z>, a: Seq<char>, b: Seq<char>, z: Z)
    requires
        a != b,
    ensures
        m.insert(a, z).dom().contains(a) && m.insert(a, z)[a] == z,
        m.insert(a, z).dom().contains(b) == m.dom().contains(b),
        m.dom().contains(b) ==> m.insert(a, z)[b] == m[b],
        !m.remove(a).dom().contains(a),
        m.remove(a).dom().contains(b) == m.dom().contains(b),
        m.dom().contains(b) ==> m.remove(a)[b] == m[b],
{
}

} // verus!
