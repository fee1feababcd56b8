//! What the library asks of the platform's path syntax.
//!
//! How a path splits into components depends on the platform, so little is
//! claimed here of what these calls return: only what the documentation of
//! the standard library says of them on every platform. The rules that use
//! the answers are stated for every answer.
use crate::text::is_substring;
use vstd::prelude::*;

verus! {

/// `std::path::Path::is_absolute` on `path`. Which paths are absolute differs
/// from platform to platform, so nothing is claimed of the answer.
#[verifier::external_body]
pub(crate) fn is_absolute(path: &str) -> bool {
    std::path::Path::new(path).is_absolute()
}

/// `std::path::Path::starts_with`: whether the components of `base` are a
/// prefix of those of `path`. A path begins with itself; nothing else is
/// claimed of the answer.
#[verifier::external_body]
pub(crate) fn starts_with(path: &str, base: &str) -> (within: bool)
    ensures
        path@ == base@ ==> within,
{
    std::path::Path::new(path).starts_with(base)
}

/// `std::path::Path::extension` on `path`, as text. Which part of a path is
/// its file name differs from platform to platform. On every platform the
/// extension is what follows the last dot of the file name: it holds no dot
/// itself, and it stands in the path right after a dot.
#[verifier::external_body]
pub(crate) fn extension(path: &str) -> (ext: Option<String>)
    ensures
        ext matches Some(e) ==> !e@.contains('.') && is_substring(path@, "."@ + e@),
{
    std::path::Path::new(path).extension().map(|ext| ext.to_string_lossy().into_owned())
}

} // verus!
