//! File system paths. A path is handed through as the platform's own type;
//! the engine builds one from text, extends it by a name and prints it.

use vstd::prelude::*;
use std::path::Path;
use std::path::PathBuf;

verus! {

#[verifier::external_type_specification]
#[verifier::external_body]
pub struct ExPath(Path);

#[verifier::external_type_specification]
#[verifier::external_body]
pub struct ExPathBuf(PathBuf);

/// `PathBuf::as_path` borrows the path that the buffer holds.
pub assume_specification[ PathBuf::as_path ](p: &PathBuf) -> (r: &Path);

/// The path that `Path::new` makes of a text.
#[verifier::external_body]
pub(crate) fn path_of(s: &str) -> (p: &Path) {
    Path::new(s)
}

/// `base` extended by `name`, as `Path::join` does it on this platform.
#[verifier::external_body]
pub(crate) fn path_join(base: &Path, name: &str) -> (p: PathBuf) {
    base.join(name)
}

/// The text that `Path::display` prints for a path.
#[verifier::external_body]
pub(crate) fn path_text(p: &Path) -> (s: String) {
    p.display().to_string()
}

} // verus!
