//! Path validation: rejecting empty paths, traversal sequences, and illegal
//! characters; anchoring relative paths under a workspace root; and cleaning
//! file names.
//!
//! Paths are handled as plain text with `/` as the separator; `\` is folded
//! to `/` by normalization, and a path is absolute when it starts with `/`.

use crate::error::AppError;
use crate::strutil::{all_blank, is_all_blank};
use vstd::prelude::*;
use vstd::string::StrSliceExecFns;
use vstd::string::StringExecFns;

verus! {

/// A character that may not occur anywhere in a path.
pub open spec fn illegal_path_char(c: char) -> bool {
    c == '<' || c == '>' || c == ':' || c == '"' || c == '|' || c == '?' || c == '*'
}

/// A character that may not occur in a file name: the illegal path
/// characters plus the separators.
pub open spec fn illegal_filename_char(c: char) -> bool {
    illegal_path_char(c) || c == '/' || c == '\\'
}

/// A backslash folded to a forward slash; other characters unchanged.
pub open spec fn normalized_path_char(c: char) -> char {
    if c == '\\' {
        '/'
    } else {
        c
    }
}

/// The path with every backslash folded to a forward slash.
pub open spec fn normalized_path(s: Seq<char>) -> Seq<char> {
    s.map_values(|c: char| normalized_path_char(c))
}

/// Whether the path holds two consecutive dots, the mark of a traversal.
pub open spec fn has_dotdot(s: Seq<char>) -> bool {
    exists|i: int| 0 <= i && i + 1 < s.len() && (#[trigger] s[i]) == '.' && s[i + 1] == '.'
}

/// Whether the path holds a character that [`illegal_path_char`] rejects.
pub open spec fn has_illegal_path_char(s: Seq<char>) -> bool {
    exists|i: int| 0 <= i < s.len() && illegal_path_char(s[i])
}

/// Whether the path is absolute: it starts with the separator.
pub open spec fn is_absolute_path(s: Seq<char>) -> bool {
    s.len() > 0 && s[0] == '/'
}

/// A path accepted by [`validate_path`]: nonempty, no traversal, no illegal
/// characters.
pub open spec fn acceptable_path(s: Seq<char>) -> bool {
    s.len() > 0 && !has_dotdot(s) && !has_illegal_path_char(s)
}

/// What [`validate_path`] returns for an accepted path: the path itself when
/// absolute, else the path anchored under the workspace root.
pub open spec fn anchored_path(path: Seq<char>, workspace: Seq<char>) -> Seq<char> {
    if is_absolute_path(path) {
        path
    } else {
        workspace + seq!['/'] + path
    }
}

/// The path with every backslash folded to a forward slash.
pub fn path_to_normalized_string(path: &str) -> (r: String)
    ensures
        r@ == normalized_path(path@),
{
    let n = path.unicode_len();
    let mut out = String::new();
    let mut i: usize = 0;
    while i < n
        invariant
            n == path@.len(),
            i <= n,
            out@ == normalized_path(path@.take(i as int)),
        decreases n - i,
    {
        let c = path.get_char(i);
        if c == '\\' {
            out.push('/');
        } else {
            out.push(c);
        }
        proof {
            assert(out@ =~= normalized_path(path@.take(i + 1)));
        }
        i = i + 1;
    }
    proof {
        assert(path@.take(n as int) =~= path@);
    }
    out
}

/// Whether the path holds a character that paths may not contain.
pub fn contains_illegal_chars(path: &str) -> (r: bool)
    ensures
        r == has_illegal_path_char(path@),
{
    let n = path.unicode_len();
    let mut i: usize = 0;
    while i < n
        invariant
            n == path@.len(),
            i <= n,
            forall|j: int| 0 <= j < i ==> !illegal_path_char(path@[j]),
        decreases n - i,
    {
        let c = path.get_char(i);
        if c == '<' || c == '>' || c == ':' || c == '"' || c == '|' || c == '?' || c == '*' {
            return true;
        }
        i = i + 1;
    }
    false
}

/// Whether the path holds two consecutive dots.
fn contains_dotdot(path: &str) -> (r: bool)
    ensures
        r == has_dotdot(path@),
{
    let n = path.unicode_len();
    if n < 2 {
        return false;
    }
    let mut i: usize = 0;
    while i + 1 < n
        invariant
            n == path@.len(),
            i + 1 <= n,
            forall|j: int| 0 <= j < i ==> !((#[trigger] path@[j]) == '.' && path@[j + 1] == '.'),
        decreases n - i,
    {
        if path.get_char(i) == '.' && path.get_char(i + 1) == '.' {
            return true;
        }
        i = i + 1;
    }
    false
}

/// Validates a path and anchors it: an empty path, a path with a traversal
/// sequence, and a path with illegal characters are rejected, each with its
/// own message; an accepted relative path is joined under the workspace
/// root, an accepted absolute path is returned as it is.
pub fn validate_path(path: &str, workspace: &str) -> (r: Result<String, AppError>)
    ensures
        r is Ok <==> acceptable_path(path@),
        r is Ok ==> r->Ok_0@ == anchored_path(path@, workspace@),
        path@.len() == 0 ==> r is Err && r->Err_0 is PathValidation
            && r->Err_0->PathValidation_0@ == "Path cannot be empty"@,
        path@.len() > 0 && has_dotdot(path@) ==> r is Err && r->Err_0 is PathValidation
            && r->Err_0->PathValidation_0@ == "Path traversal detected"@,
        path@.len() > 0 && !has_dotdot(path@) && has_illegal_path_char(path@) ==> r is Err
            && r->Err_0 is PathValidation && r->Err_0->PathValidation_0@
            == "Path contains illegal characters"@,
{
    if path.unicode_len() == 0 {
        return Err(AppError::PathValidation(String::from_str("Path cannot be empty")));
    }
    if contains_dotdot(path) {
        return Err(AppError::PathValidation(String::from_str("Path traversal detected")));
    }
    if contains_illegal_chars(path) {
        return Err(AppError::PathValidation(String::from_str("Path contains illegal characters")));
    }
    if path.get_char(0) == '/' {
        Ok(String::from_str(path))
    } else {
        let mut joined = String::from_str(workspace);
        joined.append("/");
        joined.append(path);
        proof {
            reveal_strlit("/");
            assert(joined@ =~= workspace@ + seq!['/'] + path@);
        }
        Ok(joined)
    }
}

/// Whether one canonical absolute path lies at or below another: the
/// workspace is a whole-component prefix of the path.
pub open spec fn is_path_prefix(workspace: Seq<char>, path: Seq<char>) -> bool {
    workspace.len() <= path.len() && path.take(workspace.len() as int) == workspace && (path.len()
        == workspace.len() || path[workspace.len() as int] == '/' || (workspace.len() > 0
        && workspace[workspace.len() - 1] == '/'))
}

/// Whether a canonical absolute path lies within the canonical workspace
/// root. The caller canonicalizes both paths first; a path that cannot be
/// canonicalized is outside the workspace by definition.
pub fn is_within_workspace(path: &str, workspace: &str) -> (r: bool)
    ensures
        r == is_path_prefix(workspace@, path@),
{
    let wn = workspace.unicode_len();
    let pn = path.unicode_len();
    if pn < wn {
        proof {
            assert(!is_path_prefix(workspace@, path@));
        }
        return false;
    }
    let mut i: usize = 0;
    while i < wn
        invariant
            wn == workspace@.len(),
            pn == path@.len(),
            wn <= pn,
            i <= wn,
            forall|j: int| 0 <= j < i ==> path@[j] == workspace@[j],
        decreases wn - i,
    {
        if path.get_char(i) != workspace.get_char(i) {
            proof {
                assert(path@.take(wn as int)[i as int] != workspace@[i as int]);
            }
            return false;
        }
        i = i + 1;
    }
    proof {
        assert(path@.take(wn as int) =~= workspace@);
    }
    if pn == wn {
        return true;
    }
    if path.get_char(wn) == '/' {
        return true;
    }
    if wn > 0 && workspace.get_char(wn - 1) == '/' {
        return true;
    }
    false
}

/// Cleans a file name by dropping every illegal character. A name that is
/// all whitespace (or empty) is rejected, as is one with nothing left after
/// cleaning.
pub fn sanitize_filename(filename: &str) -> (r: Result<String, AppError>)
    ensures
        all_blank(filename@) ==> r is Err && r->Err_0 is InvalidArgument
            && r->Err_0->InvalidArgument_0@ == "Filename cannot be empty"@,
        !all_blank(filename@) ==> {
            let kept = filename@.filter(|c: char| !illegal_filename_char(c));
            &&& kept.len() == 0 ==> r is Err && r->Err_0 is InvalidArgument
                && r->Err_0->InvalidArgument_0@ == "Invalid filename after sanitization"@
            &&& kept.len() > 0 ==> r is Ok && r->Ok_0@ == kept
        },
{
    let n = filename.unicode_len();
    if is_all_blank(filename) {
        return Err(AppError::InvalidArgument(String::from_str("Filename cannot be empty")));
    }
    let mut out = String::new();
    let mut k: usize = 0;
    while k < n
        invariant
            n == filename@.len(),
            k <= n,
            out@ == filename@.take(k as int).filter(|c: char| !illegal_filename_char(c)),
        decreases n - k,
    {
        let c = filename.get_char(k);
        let keep = !(c == '<' || c == '>' || c == ':' || c == '"' || c == '|' || c == '?' || c
            == '*' || c == '/' || c == '\\');
        if keep {
            out.push(c);
        }
        proof {
            reveal_with_fuel(Seq::filter, 2);
            let prefix = filename@.take(k + 1);
            assert(prefix.drop_last() =~= filename@.take(k as int));
            assert(prefix.last() == filename@[k as int]);
            assert(out@ =~= prefix.filter(|c: char| !illegal_filename_char(c)));
        }
        k = k + 1;
    }
    proof {
        assert(filename@.take(n as int) =~= filename@);
    }
    if out.unicode_len() == 0 {
        return Err(
            AppError::InvalidArgument(String::from_str("Invalid filename after sanitization")),
        );
    }
    Ok(out)
}

} // verus!
