//! Local file-system path operations, through `std::path`.

use vstd::prelude::*;

verus! {

/// What `Path::join` returns for two paths.
pub uninterp spec fn path_join_of(base: Seq<char>, tail: Seq<char>) -> Seq<char>;

/// What `Path::parent` returns for a path.
pub uninterp spec fn path_parent_of(path: Seq<char>) -> Option<Seq<char>>;

/// What `Path::file_name` returns for a path.
pub uninterp spec fn path_file_name_of(path: Seq<char>) -> Option<Seq<char>>;

/// `Path::join`: adjoins `tail` to `base`. How it does so depends on the
/// platform's path syntax (separators, roots, drive prefixes), so only the
/// name of the result is stated.
#[verifier::external_body]
pub(crate) fn path_join(base: &str, tail: &str) -> (r: String)
    ensures
        r@ == path_join_of(base@, tail@),
{
    std::path::Path::new(base).join(tail).to_string_lossy().into_owned()
}

/// `Path::parent`: the path without its final component. The documentation
/// promises `None` for the empty path and for a path that ends in the root.
#[verifier::external_body]
pub(crate) fn path_parent(path: &str) -> (r: Option<String>)
    ensures
        match r {
            Some(p) => path_parent_of(path@) == Some(p@),
            None => path_parent_of(path@) is None,
        },
        path@.len() == 0 || path@ == seq!['/'] ==> r is None,
{
    std::path::Path::new(path).parent().map(|p| p.to_string_lossy().into_owned())
}

/// `Path::file_name`: the final component of a path, if it is a normal name.
/// The documentation promises `None` for a path whose last component is `..`.
#[verifier::external_body]
pub(crate) fn path_file_name(path: &str) -> (r: Option<String>)
    ensures
        match r {
            Some(n) => path_file_name_of(path@) == Some(n@),
            None => path_file_name_of(path@) is None,
        },
        path@ == seq!['.', '.'] || (path@.len() >= 3 && path@.subrange(
            path@.len() - 3,
            path@.len() as int,
        ) == seq!['/', '.', '.']) ==> r is None,
{
    std::path::Path::new(path).file_name().map(|n| n.to_string_lossy().into_owned())
}

} // verus!
