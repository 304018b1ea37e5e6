//! Paths as texts: where the extension of a file name begins, and what a
//! path becomes when the extension is replaced.

use vstd::prelude::*;
use std::path::PathBuf;

verus! {

/// Whether `extension` is not empty and holds no character that separates
/// the parts of a path.
pub open spec fn is_extension(extension: Seq<char>) -> bool {
    extension.len() > 0 && forall|i: int|
        0 <= i < extension.len() ==> (#[trigger] extension[i]) != '/' && extension[i] != '\\'
}

/// Whether `c` may stand in a path that every system reads alike: an ASCII
/// letter or digit, `_`, `-`, `.` or `/`.
pub open spec fn is_path_char(c: char) -> bool {
    ||| 'a' <= c <= 'z'
    ||| 'A' <= c <= 'Z'
    ||| '0' <= c <= '9'
    ||| c == '_'
    ||| c == '-'
    ||| c == '.'
    ||| c == '/'
}

/// The place where the last part of a path begins: after the last `/`
/// before `upto`, or 0.
pub open spec fn last_part_start(path: Seq<char>, upto: int) -> int
    decreases upto,
{
    if upto <= 0 || upto > path.len() {
        0
    } else if path[upto - 1] == '/' {
        upto
    } else {
        last_part_start(path, upto - 1)
    }
}

/// The place of the last `.` at or after `from` and before `upto`, or -1.
pub open spec fn last_point(path: Seq<char>, from: int, upto: int) -> int
    decreases upto - from,
{
    if upto <= from || upto > path.len() {
        -1
    } else if path[upto - 1] == '.' {
        upto - 1
    } else {
        last_point(path, from, upto - 1)
    }
}

/// The place where the stem of the file name ends: at the last `.` of the
/// last part, unless that is its first character or it has none; then at
/// the end of the path.
pub open spec fn stem_end(path: Seq<char>) -> int {
    let start = last_part_start(path, path.len() as int);
    let point = last_point(path, start, path.len() as int);
    if point <= start {
        path.len() as int
    } else {
        point
    }
}

/// Whether every system reads `path` alike, as a relative path that ends in
/// a file name: it holds only ASCII letters, digits, `_`, `-`, `.` and `/`,
/// does not begin with `/`, and its last part is not empty, not `.` and not
/// `..`.
pub open spec fn is_portable(path: Seq<char>) -> bool {
    let name = path.skip(last_part_start(path, path.len() as int));
    &&& path.len() > 0
    &&& forall|i: int| 0 <= i < path.len() ==> is_path_char(#[trigger] path[i])
    &&& path[0] != '/'
    &&& name.len() > 0
    &&& name != seq!['.']
    &&& name != seq!['.', '.']
}

/// What holds of a replaced extension on every system and for every path:
/// the path stays as it is, which it does where it names no file, or the
/// result ends with a point and the extension.
pub open spec fn kept_or_ends_with(path: Seq<char>, extension: Seq<char>, replaced: Seq<char>) -> bool {
    replaced == path || (seq!['.'] + extension).is_suffix_of(replaced)
}

/// `path` with what follows the stem of its file name replaced by a point
/// and `extension`.
pub open spec fn with_extension(path: Seq<char>, extension: Seq<char>) -> Seq<char> {
    path.take(stem_end(path)) + seq!['.'] + extension
}

/// Replaces the extension of a path with `PathBuf::set_extension`: the path
/// is cut after the stem of its file name, and a point and the extension
/// are put there; a path without a file name stays as it is. How a path
/// falls into parts differs from system to system; the result is stated in
/// full for the paths that all read alike.
#[verifier::external_body]
pub(crate) fn replace_extension(path: &str, extension: &str) -> (replaced: String)
    requires
        is_extension(extension@),
    ensures
        kept_or_ends_with(path@, extension@, replaced@),
        is_portable(path@) ==> replaced@ == with_extension(path@, extension@),
{
    let mut replaced = PathBuf::from(path);
    replaced.set_extension(extension);
    replaced.to_string_lossy().into_owned()
}

} // verus!
