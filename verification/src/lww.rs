//! Last-writer-wins stamps: an update time with the writing device as the
//! tie-break, as the chat bump and the merge rules order writes.
use vstd::prelude::*;

verus! {

/// Strict lexicographic order of strings by code point, which is the
/// byte order of their UTF-8 (SQLite's `BINARY` collation).
pub open spec fn str_lt(a: Seq<char>, b: Seq<char>) -> bool
    decreases a.len(),
{
    if b.len() == 0 {
        false
    } else if a.len() == 0 {
        true
    } else if (a[0] as u32) < (b[0] as u32) {
        true
    } else if a[0] == b[0] {
        str_lt(a.drop_first(), b.drop_first())
    } else {
        false
    }
}

/// Whether a write stamped `(ts, device)` is newer than the stored stamp
/// `(cur_ts, cur_device)`: a later time, or the same time from a device
/// that sorts after.
pub open spec fn stamp_newer(ts: i64, device: Seq<char>, cur_ts: i64, cur_device: Seq<char>) -> bool {
    cur_ts < ts || (cur_ts == ts && str_lt(cur_device, device))
}

/// Code-point comparison of two strings.
pub fn string_lt(a: &str, b: &str) -> (r: bool)
    ensures
        r == str_lt(a@, b@),
{
    let n = a.unicode_len();
    let m = b.unicode_len();
    let mut i: usize = 0;
    assert(a@.skip(0) =~= a@);
    assert(b@.skip(0) =~= b@);
    while i < n && i < m
        invariant
            n == a@.len(),
            m == b@.len(),
            i <= n,
            i <= m,
            forall|j: int| 0 <= j < i ==> a@[j] == b@[j],
            str_lt(a@, b@) == str_lt(a@.skip(i as int), b@.skip(i as int)),
        decreases n - i,
    {
        let x = a.get_char(i);
        let y = b.get_char(i);
        proof {
            assert(a@.skip(i as int)[0] == x);
            assert(b@.skip(i as int)[0] == y);
            assert(a@.skip(i as int).drop_first() =~= a@.skip(i + 1));
            assert(b@.skip(i as int).drop_first() =~= b@.skip(i + 1));
        }
        if (x as u32) < (y as u32) {
            return true;
        }
        if x != y {
            return false;
        }
        i = i + 1;
    }
    i < m && i == n
}

/// Whether a write stamped `(ts, device)` replaces the stored stamp.
pub fn stamp_is_newer(ts: i64, device: &str, cur_ts: i64, cur_device: &str) -> (b: bool)
    ensures
        b == stamp_newer(ts, device@, cur_ts, cur_device@),
{
    cur_ts < ts || (cur_ts == ts && string_lt(cur_device, device))
}

pub proof fn lemma_str_lt_irreflexive(a: Seq<char>)
    ensures
        !str_lt(a, a),
    decreases a.len(),
{
    if a.len() > 0 {
        lemma_str_lt_irreflexive(a.drop_first());
    }
}

pub proof fn lemma_str_lt_asymmetric(a: Seq<char>, b: Seq<char>)
    requires
        str_lt(a, b),
    ensures
        !str_lt(b, a),
    decreases a.len(),
{
    if a.len() > 0 && b.len() > 0 && a[0] == b[0] {
        lemma_str_lt_asymmetric(a.drop_first(), b.drop_first());
    }
}

proof fn lemma_str_lt_total(a: Seq<char>, b: Seq<char>)
    ensures
        str_lt(a, b) || str_lt(b, a) || a == b,
    decreases a.len(),
{
    if a.len() > 0 && b.len() > 0 && a[0] == b[0] {
        lemma_str_lt_total(a.drop_first(), b.drop_first());
        if a.drop_first() == b.drop_first() {
            assert(a =~= seq![a[0]] + a.drop_first());
            assert(b =~= seq![b[0]] + b.drop_first());
        }
    } else if a.len() == 0 && b.len() == 0 {
        assert(a =~= b);
    } else if a.len() > 0 && b.len() > 0 {
        vstd::utf8::char_u32_cast(a[0], a[0] as u32);
        vstd::utf8::char_u32_cast(b[0], b[0] as u32);
        assert((a[0] as u32) != (b[0] as u32));
    }
}

proof fn lemma_str_lt_transitive(a: Seq<char>, b: Seq<char>, c: Seq<char>)
    requires
        str_lt(a, b),
        str_lt(b, c),
    ensures
        str_lt(a, c),
    decreases a.len(),
{
    if a.len() > 0 && b.len() > 0 && c.len() > 0 && a[0] == b[0] && b[0] == c[0] {
        lemma_str_lt_transitive(a.drop_first(), b.drop_first(), c.drop_first());
    }
}

/// The stamp kept after a write: the newer of the two.
pub open spec fn stamp_merge(cur: (i64, Seq<char>), w: (i64, Seq<char>)) -> (i64, Seq<char>) {
    if stamp_newer(w.0, w.1, cur.0, cur.1) {
        w
    } else {
        cur
    }
}

/// A write never moves a stamp backwards, a stamp is never newer than
/// itself, and the stamp kept after two writes does not depend on the
/// order they arrive in: replaying peers' writes in any order converges.
pub proof fn law_stamp_merge_order_independent(s: (i64, Seq<char>), w1: (i64, Seq<char>), w2: (i64, Seq<char>))
    ensures
        !stamp_newer(s.0, s.1, s.0, s.1),
        !stamp_newer(s.0, s.1, stamp_merge(s, w1).0, stamp_merge(s, w1).1),
        stamp_merge(stamp_merge(s, w1), w2) == stamp_merge(stamp_merge(s, w2), w1),
{
    lemma_str_lt_irreflexive(s.1);
    lemma_str_lt_irreflexive(w1.1);
    lemma_str_lt_irreflexive(w2.1);
    if stamp_newer(w1.0, w1.1, s.0, s.1) {
        if s.0 == w1.0 {
            lemma_str_lt_asymmetric(s.1, w1.1);
        }
    }
    lemma_str_lt_total(s.1, w1.1);
    lemma_str_lt_total(s.1, w2.1);
    lemma_str_lt_total(w1.1, w2.1);
    if str_lt(s.1, w1.1) && str_lt(w1.1, w2.1) {
        lemma_str_lt_transitive(s.1, w1.1, w2.1);
    }
    if str_lt(s.1, w2.1) && str_lt(w2.1, w1.1) {
        lemma_str_lt_transitive(s.1, w2.1, w1.1);
    }
    if str_lt(w1.1, s.1) && str_lt(s.1, w2.1) {
        lemma_str_lt_transitive(w1.1, s.1, w2.1);
    }
    if str_lt(w2.1, s.1) && str_lt(s.1, w1.1) {
        lemma_str_lt_transitive(w2.1, s.1, w1.1);
    }
    if str_lt(w1.1, w2.1) && str_lt(w2.1, s.1) {
        lemma_str_lt_transitive(w1.1, w2.1, s.1);
    }
    if str_lt(w2.1, w1.1) && str_lt(w1.1, s.1) {
        lemma_str_lt_transitive(w2.1, w1.1, s.1);
    }
    if str_lt(w1.1, w2.1) {
        lemma_str_lt_asymmetric(w1.1, w2.1);
    }
    if str_lt(w2.1, w1.1) {
        lemma_str_lt_asymmetric(w2.1, w1.1);
    }
    if str_lt(s.1, w1.1) {
        lemma_str_lt_asymmetric(s.1, w1.1);
    }
    if str_lt(s.1, w2.1) {
        lemma_str_lt_asymmetric(s.1, w2.1);
    }
    if str_lt(w1.1, s.1) {
        lemma_str_lt_asymmetric(w1.1, s.1);
    }
    if str_lt(w2.1, s.1) {
        lemma_str_lt_asymmetric(w2.1, s.1);
    }
}

} // verus!
