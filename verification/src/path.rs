//! Where a deployed artifact goes. Paths are split and joined by `camino`;
//! what is done with the pieces is decided here.

use vstd::prelude::*;
use camino::Utf8Path;

verus! {

/// The directory inside a container that deployed binaries are placed in.
pub const BIN_DIR: &'static str = "/usr/local/bin";

/// The components that `camino::Utf8Path::components` finds in `path`, each
/// as the text that `Utf8Component::as_str` gives for it, first to last.
pub uninterp spec fn path_components(path: Seq<char>) -> Seq<Seq<char>>;

/// The path that `camino::Utf8Path::join` makes of `base` and `tail`.
pub uninterp spec fn joined_path(base: Seq<char>, tail: Seq<char>) -> Seq<char>;

/// Splits `path` with `camino::Utf8Path::components` and hands out every
/// component as text. Nothing is claimed of the components but that they
/// are the ones `path_components` names.
#[verifier::external_body]
fn components(path: &str) -> (r: Vec<String>)
    ensures
        r.deep_view() == path_components(path@),
{
    Utf8Path::new(path).components().map(|c| c.as_str().to_owned()).collect()
}

/// Adjoins `tail` to `base` with `camino::Utf8Path::join`. Nothing is
/// claimed of the result but that it is the path `joined_path` names.
#[verifier::external_body]
fn join(base: &str, tail: &str) -> (r: String)
    ensures
        r@ == joined_path(base@, tail@),
{
    Utf8Path::new(base).join(tail).into_string()
}

/// The last of `parts`, if there is any.
pub open spec fn final_part(parts: Seq<Seq<char>>) -> Option<Seq<char>> {
    if parts.len() == 0 {
        None
    } else {
        Some(parts.last())
    }
}

/// The last of the given path components, if there is any.
pub fn final_segment(parts: &Vec<String>) -> (r: Option<String>)
    ensures
        r is Some <==> final_part(parts.deep_view()) is Some,
        r matches Some(name) ==> final_part(parts.deep_view()) == Some(name@),
{
    let n: usize = parts.len();
    if n == 0 {
        None
    } else {
        Some(parts[n - 1].clone())
    }
}

/// Where the artifact at `source` is deployed: its final path segment,
/// placed under the binary directory. A path without components has no
/// such place.
pub open spec fn install_target(source: Seq<char>) -> Option<Seq<char>> {
    match final_part(path_components(source)) {
        Some(name) => Some(joined_path(BIN_DIR@, name)),
        None => None,
    }
}

/// Where the artifact at `source` is deployed inside a container.
pub fn install_path(source: &str) -> (r: Option<String>)
    ensures
        r is Some <==> install_target(source@) is Some,
        r matches Some(dest) ==> install_target(source@) == Some(dest@),
{
    let parts = components(source);
    match final_segment(&parts) {
        Some(name) => Some(join(BIN_DIR, name.as_str())),
        None => None,
    }
}

} // verus!
