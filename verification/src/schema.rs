//! Which schema migrations a database still needs, and how stored book
//! paths become relative to the data directory.
use vstd::prelude::*;

use crate::stream::trim_trailing_slashes;
use crate::text::{is_prefix, owned, starts_with};

verus! {

/// One migration to apply.
#[derive(Debug, Clone, Copy, PartialEq, Eq, Structural)]
pub struct MigrationRun {
    pub version: i64,
    /// The column-adding migrations may fail on a database that already has
    /// the column; their failure is ignored.
    pub tolerate_failure: bool,
}

/// The migrations that fail harmlessly when their column already exists.
pub open spec fn tolerated(version: i64) -> bool {
    version == 4 || version == 5
}

/// The migrations, in their listed order, that a database at `current`
/// still needs, stopping at the first one past `max`.
pub open spec fn migration_plan_spec(versions: Seq<i64>, current: i64, max: i64) -> Seq<MigrationRun>
    decreases versions.len(),
{
    if versions.len() == 0 || versions[0] > max {
        Seq::empty()
    } else if versions[0] > current {
        seq![MigrationRun { version: versions[0], tolerate_failure: tolerated(versions[0]) }]
            + migration_plan_spec(versions.drop_first(), versions[0], max)
    } else {
        migration_plan_spec(versions.drop_first(), current, max)
    }
}

/// The migrations to run, in order, for a database whose recorded version
/// is `current`, applying none past `max` (`i64::MAX` for all). Each run
/// advances the recorded version, so a failure later does not repeat the
/// earlier ones.
pub fn migration_plan(versions: &Vec<i64>, current: i64, max: i64) -> (r: Vec<MigrationRun>)
    ensures
        r@ == migration_plan_spec(versions@, current, max),
{
    let mut out: Vec<MigrationRun> = Vec::new();
    let mut cur = current;
    let mut i: usize = 0;
    assert(versions@.skip(0) =~= versions@);
    assert(out@ + migration_plan_spec(versions@, current, max) =~= migration_plan_spec(versions@, current, max));
    while i < versions.len()
        invariant
            i <= versions@.len(),
            out@ + migration_plan_spec(versions@.skip(i as int), cur, max) == migration_plan_spec(
                versions@,
                current,
                max,
            ),
        decreases versions@.len() - i,
    {
        let v = versions[i];
        let ghost rest = versions@.skip(i as int);
        assert(rest[0] == v);
        assert(rest.drop_first() =~= versions@.skip(i + 1));
        if v > max {
            assert(out@ + Seq::<MigrationRun>::empty() =~= out@);
            return out;
        }
        if v > cur {
            let ghost before = out@;
            out.push(MigrationRun { version: v, tolerate_failure: v == 4 || v == 5 });
            assert(before + migration_plan_spec(rest, cur, max) =~= out@ + migration_plan_spec(
                versions@.skip(i + 1),
                v,
                max,
            ));
            cur = v;
        }
        i = i + 1;
    }
    assert(out@ + Seq::<MigrationRun>::empty() =~= out@);
    out
}

/// A plan applies versions in increasing order, each newer than what the
/// database had, none newer than `max`: so running it twice never applies
/// a migration twice.
pub proof fn law_migration_plan_monotone(versions: Seq<i64>, current: i64, max: i64)
    ensures
        forall|k: int| 0 <= k < migration_plan_spec(versions, current, max).len() ==> current < (
        #[trigger] migration_plan_spec(versions, current, max)[k]).version <= max,
        forall|j: int, k: int| 0 <= j < k < migration_plan_spec(versions, current, max).len() ==> (
        #[trigger] migration_plan_spec(versions, current, max)[j]).version < (
        #[trigger] migration_plan_spec(versions, current, max)[k]).version,
    decreases versions.len(),
{
    if versions.len() == 0 || versions[0] > max {
    } else if versions[0] > current {
        law_migration_plan_monotone(versions.drop_first(), versions[0], max);
        let tail = migration_plan_spec(versions.drop_first(), versions[0], max);
        let p = migration_plan_spec(versions, current, max);
        assert(p == seq![MigrationRun { version: versions[0], tolerate_failure: tolerated(versions[0]) }] + tail);
        assert forall|k: int| 0 <= k < p.len() implies current < (#[trigger] p[k]).version <= max by {
            if k > 0 {
                assert(p[k] == tail[k - 1]);
            }
        }
        assert forall|j: int, k: int| 0 <= j < k < p.len() implies (#[trigger] p[j]).version < (#[trigger] p[k]).version by {
            assert(p[k] == tail[k - 1]);
            if j > 0 {
                assert(p[j] == tail[j - 1]);
            }
        }
    } else {
        law_migration_plan_monotone(versions.drop_first(), current, max);
        assert(migration_plan_spec(versions, current, max) == migration_plan_spec(versions.drop_first(), current, max));
    }
}

/// `<data_dir>/`, with the data directory's trailing slashes dropped.
pub open spec fn data_dir_prefix_spec(data_dir: Seq<char>) -> Seq<char> {
    trim_trailing_slashes(data_dir) + "/"@
}

/// The prefix stripped from absolute book paths.
pub fn data_dir_prefix(data_dir: &str) -> (r: String)
    ensures
        r@ == data_dir_prefix_spec(data_dir@),
{
    crate::stream::endpoint_url(data_dir, "/")
}

/// A path under the prefix becomes relative; any other path is kept.
pub open spec fn relative_path_spec(prefix: Seq<char>, path: Seq<char>) -> Seq<char> {
    if is_prefix(prefix, path) {
        path.subrange(prefix.len() as int, path.len() as int)
    } else {
        path
    }
}

/// Strips the data-directory prefix from a stored path.
pub fn relative_path(prefix: &str, path: &str) -> (r: String)
    ensures
        r@ == relative_path_spec(prefix@, path@),
{
    if starts_with(path, prefix) {
        let n = path.unicode_len();
        let k = prefix.unicode_len();
        owned(path.substring_char(k, n))
    } else {
        owned(path)
    }
}

} // verus!
