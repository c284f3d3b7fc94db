//! Path arithmetic on string paths as std's `Path` performs it on the
//! target platform: joining, absolute paths, and the parent / file-name
//! split.
use vstd::prelude::*;


verus! {

/// What `Path::is_absolute` returns for a path: on Unix, whether it starts
/// at the root; on Windows, whether it has both a prefix and a root.
pub uninterp spec fn is_absolute_spec(p: Seq<char>) -> bool;

/// What `Path::join` returns for two paths: on Unix, an absolute `rel`
/// replaces the base, otherwise a separator is added unless the base is
/// empty or already ends in one; Windows adds its prefix rules.
pub uninterp spec fn join_spec(base: Seq<char>, rel: Seq<char>) -> Seq<char>;

/// Calls `Path::is_absolute` on a UTF-8 path; the platform's rule is named.
#[verifier::external_body]
pub(crate) fn is_absolute(p: &str) -> (b: bool)
    ensures
        b == is_absolute_spec(p@),
{
    std::path::Path::new(p).is_absolute()
}

/// Calls `Path::join` on two UTF-8 paths; the platform's rule is named.
#[verifier::external_body]
pub(crate) fn join(base: &str, rel: &str) -> (r: String)
    ensures
        r@ == join_spec(base@, rel@),
{
    std::path::Path::new(base).join(rel).to_string_lossy().into_owned()
}

/// What `Path::parent` returns for a path.
pub uninterp spec fn spec_path_parent(p: Seq<char>) -> Option<Seq<char>>;

/// What `Path::file_name` returns for a path.
pub uninterp spec fn spec_path_file_name(p: Seq<char>) -> Option<Seq<char>>;

/// What `Path::file_stem` returns for a path.
pub uninterp spec fn spec_path_file_stem(p: Seq<char>) -> Option<Seq<char>>;

/// Calls `Path::parent` on a UTF-8 path; the component rules are std's
/// and are named here, not restated.
#[verifier::external_body]
pub(crate) fn path_parent(p: &str) -> (r: Option<String>)
    ensures
        match r {
            Some(s) => spec_path_parent(p@) == Some(s@),
            None => spec_path_parent(p@) is None,
        },
{
    std::path::Path::new(p).parent().and_then(|q| q.to_str()).map(|q| q.to_string())
}

/// Calls `Path::file_name` on a UTF-8 path; named, not restated.
#[verifier::external_body]
pub(crate) fn path_file_name(p: &str) -> (r: Option<String>)
    ensures
        match r {
            Some(s) => spec_path_file_name(p@) == Some(s@),
            None => spec_path_file_name(p@) is None,
        },
{
    std::path::Path::new(p).file_name().and_then(|q| q.to_str()).map(|q| q.to_string())
}

/// Calls `Path::file_stem` on a UTF-8 path; named, not restated.
#[verifier::external_body]
pub(crate) fn path_file_stem(p: &str) -> (r: Option<String>)
    ensures
        match r {
            Some(s) => spec_path_file_stem(p@) == Some(s@),
            None => spec_path_file_stem(p@) is None,
        },
{
    std::path::Path::new(p).file_stem().and_then(|q| q.to_str()).map(|q| q.to_string())
}

} // verus!
