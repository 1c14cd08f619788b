//! Paths as text.
//!
//! The library holds every path as a `String` and leaves the rules of the
//! platform's path syntax to `std::path`: the operations it needs are called
//! there, and their results are named here.

use vstd::prelude::*;
use vstd::std_specs::iter::IteratorSpec;

verus! {

/// The text of `Path::new(base).join(part)`.
pub uninterp spec fn path_join(base: Seq<char>, part: Seq<char>) -> Seq<char>;

/// The text of `Path::new(path).with_extension(extension)`.
pub uninterp spec fn path_with_extension(path: Seq<char>, extension: Seq<char>) -> Seq<char>;

/// Whether `Path::new(path).ends_with(child)` holds: whether the components
/// of `child` are the last components of `path`.
pub uninterp spec fn path_ends_with(path: Seq<char>, child: Seq<char>) -> bool;

/// Whether `c` separates the components of a path on some platform.
pub open spec fn is_separator(c: char) -> bool {
    c == '/' || c == '\\'
}

/// Whether `text` is free of path separators.
pub open spec fn no_separator(text: Seq<char>) -> bool {
    forall|i: int| 0 <= i < text.len() ==> !is_separator(#[trigger] text[i])
}

/// Whether `name` is a single segment of a path: not empty and free of path
/// separators.
pub open spec fn is_segment(name: Seq<char>) -> bool {
    name.len() > 0 && no_separator(name)
}

/// Tells whether `name` is a single segment of a path.
pub fn check_segment(name: &str) -> (ok: bool)
    ensures
        ok == is_segment(name@),
{
    if name.is_empty() {
        return false;
    }
    let mut chars = name.chars();
    let ghost mut seen: int = 0;
    assert(name@.skip(0) =~= name@);
    loop
        invariant
            0 <= seen <= name@.len(),
            name@.len() > 0,
            chars.obeys_prophetic_iter_laws(),
            chars.remaining() == name@.skip(seen),
            forall|i: int| 0 <= i < seen ==> !is_separator(#[trigger] name@[i]),
        decreases name@.len() - seen,
    {
        match chars.next() {
            None => {
                assert(name@.skip(seen).len() == 0);
                return true;
            },
            Some(c) => {
                assert(c == name@[seen]);
                if c == '/' || c == '\\' {
                    return false;
                }
                proof {
                    assert(name@.skip(seen).drop_first() =~= name@.skip(seen + 1));
                    seen = seen + 1;
                }
            },
        }
    }
}

/// Calls `Path::join`. Trusted: the result is a function of the two texts
/// alone, for the platform the library is built for. Both arguments are
/// UTF-8, so the joined path is, and its text loses nothing.
#[verifier::external_body]
pub(crate) fn join(base: &str, part: &str) -> (joined: String)
    ensures
        joined@ == path_join(base@, part@),
{
    std::path::Path::new(base).join(part).to_string_lossy().into_owned()
}

/// Calls `Path::with_extension`, which panics on an extension that holds a
/// path separator. Trusted: the result is a function of the two texts alone,
/// for the platform the library is built for.
#[verifier::external_body]
pub(crate) fn with_extension(path: &str, extension: &str) -> (out: String)
    requires
        no_separator(extension@),
    ensures
        out@ == path_with_extension(path@, extension@),
{
    std::path::Path::new(path).with_extension(extension).to_string_lossy().into_owned()
}

/// Calls `Path::ends_with`. Trusted: the result is a function of the two
/// texts alone, for the platform the library is built for.
#[verifier::external_body]
pub(crate) fn ends_with(path: &str, child: &str) -> (found: bool)
    ensures
        found == path_ends_with(path@, child@),
{
    std::path::Path::new(path).ends_with(child)
}

/// The texts of `strings`, in order.
pub open spec fn texts(strings: Seq<String>) -> Seq<Seq<char>> {
    strings.map_values(|text: String| text@)
}

/// The path that `std::path` collects from the two paths `first` and
/// `second`: both are pushed onto an empty path, one after the other.
pub open spec fn path_of_two(first: Seq<char>, second: Seq<char>) -> Seq<char> {
    path_join(path_join(Seq::empty(), first), second)
}

/// Collects a path from `first` and `second`.
pub(crate) fn collect_two(first: &str, second: &str) -> (path: String)
    ensures
        path@ == path_of_two(first@, second@),
{
    let empty = String::new();
    let start = join(empty.as_str(), first);
    join(start.as_str(), second)
}

} // verus!
