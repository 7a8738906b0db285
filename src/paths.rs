//! Text of file-system paths.
use vstd::prelude::*;
use std::path::Path;

verus! {

#[verifier::external_type_specification]
#[verifier::external_body]
pub struct ExPath(Path);

/// The text of a path with every sequence that is not Unicode replaced by U+FFFD.
pub uninterp spec fn lossy_path_text(p: &Path) -> Seq<char>;

/// Relies on `Path::to_string_lossy`: the path's text, non-Unicode sequences
/// replaced by U+FFFD; the same path always gives the same text.
#[verifier::external_body]
fn to_string_lossy(path: &Path) -> (r: String)
    ensures
        r@ == lossy_path_text(path),
{
    path.to_string_lossy().into_owned()
}

/// The text of a path, as a mount point is shown in the disk block.
pub fn path_to_string(path: &Path) -> (r: String)
    ensures
        r@ == lossy_path_text(path),
{
    to_string_lossy(path)
}

} // verus!
