use vstd::prelude::*;
use crate::text::{remove_all, without};

verus! {

/// The path that `std::path::Path::join` makes of a base and a relative name.
pub uninterp spec fn joined(base: Seq<char>, name: Seq<char>) -> Seq<char>;

/// The parent that `std::path::Path::parent` finds for a path, if any.
pub uninterp spec fn parent_of(path: Seq<char>) -> Option<Seq<char>>;

/// Relies on `std::path::Path::join`, which builds the path lexically from
/// the two texts alone; a path built from UTF-8 texts converts back losslessly.
#[verifier::external_body]
pub(crate) fn join_path(base: &str, name: &str) -> (r: String)
    ensures
        r@ == joined(base@, name@),
{
    std::path::Path::new(base).join(name).to_string_lossy().into_owned()
}

/// Relies on `std::path::Path::parent`, which is lexical: the path without its
/// last component, or `None` for a root or an empty path.
#[verifier::external_body]
fn parent_path(path: &str) -> (r: Option<String>)
    ensures
        match r {
            Some(p) => parent_of(path@) == Some(p@),
            None => parent_of(path@) is None,
        },
{
    std::path::Path::new(path).parent().map(|p| p.to_string_lossy().into_owned())
}

/// The prefix that marks an extended-length path on Windows, which the
/// engine's tools do not accept.
pub open spec fn verbatim_prefix() -> Seq<char> {
    "\\\\?\\"@
}

/// A path with the extended-length marker taken out.
pub fn strip_verbatim(path: &str) -> (r: String)
    ensures
        r@ == without(path@, verbatim_prefix()),
{
    remove_all(path, "\\\\?\\")
}

/// The directory that holds the engine's binaries under a resources directory.
pub open spec fn bin_dir_of(resources: Seq<char>) -> Seq<char> {
    without(joined(joined(resources, "postgresql"@), "bin"@), verbatim_prefix())
}

pub fn bin_dir(resources: &str) -> (r: String)
    ensures
        r@ == bin_dir_of(resources@),
{
    let root = join_path(resources, "postgresql");
    let raw = join_path(root.as_str(), "bin");
    strip_verbatim(raw.as_str())
}

/// The directory of a configuration file, or `None` when the path has no parent.
pub fn config_dir(config_path: &str) -> (r: Option<String>)
    ensures
        match r {
            Some(p) => parent_of(config_path@) == Some(p@),
            None => parent_of(config_path@) is None,
        },
{
    parent_path(config_path)
}

} // verus!
