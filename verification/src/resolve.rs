//! Selector resolution: a client-supplied selector is mapped to a local path
//! anchored at the root directory, and any selector whose path segments could
//! climb out of that root is refused before any filesystem access.
use vstd::prelude::*;
use crate::error::ServeError;

verus! {

/// A `..` path segment starts at position `i` of `s`: two dots, preceded by
/// nothing or a separator, followed by nothing or a separator.
pub open spec fn is_dotdot_at(s: Seq<char>, i: int) -> bool {
    &&& 0 <= i
    &&& i + 2 <= s.len()
    &&& s[i] == '.'
    &&& s[i + 1] == '.'
    &&& (i == 0 || s[i - 1] == '/')
    &&& (i + 2 == s.len() || s[i + 2] == '/')
}

/// The selector contains a parent-directory segment somewhere, and so could
/// resolve outside the root.
pub open spec fn has_traversal(s: Seq<char>) -> bool {
    exists|i: int| is_dotdot_at(s, i)
}

/// The local path a selector resolves to: the root, a separator, and the
/// selector itself.
pub open spec fn spec_local_path(root: Seq<char>, selector: Seq<char>) -> Seq<char> {
    root + seq!['/'] + selector
}

/// Scans a selector for a `..` path segment.
pub fn selector_escapes(selector: &str) -> (b: bool)
    ensures
        b == has_traversal(selector@),
{
    let len: usize = selector.unicode_len();
    if len < 2 {
        proof {
            assert(forall|j: int| !is_dotdot_at(selector@, j));
        }
        return false;
    }
    let mut i: usize = 0;
    while i <= len - 2
        invariant
            len == selector@.len(),
            2 <= len,
            i <= len - 1,
            forall|j: int| j < i ==> !is_dotdot_at(selector@, j),
        decreases len - i,
    {
        if selector.get_char(i) == '.' && selector.get_char(i + 1) == '.' && (i == 0
            || selector.get_char(i - 1) == '/') && (i + 2 == len || selector.get_char(i + 2)
            == '/') {
            proof {
                assert(is_dotdot_at(selector@, i as int));
            }
            return true;
        }
        i = i + 1;
    }
    proof {
        assert(forall|j: int| is_dotdot_at(selector@, j) ==> j + 2 <= len && j < i);
        assert(forall|j: int| !is_dotdot_at(selector@, j));
    }
    false
}

/// Resolves a selector against the root directory. A selector with a `..`
/// segment is refused as `Forbidden` and no path is produced for it; any
/// other selector resolves to `root/selector`.
pub fn resolve_selector(root: &str, selector: &str) -> (r: Result<String, ServeError>)
    ensures
        r is Ok <==> !has_traversal(selector@),
        (r matches Ok(p) ==> p@ == spec_local_path(root@, selector@)),
        (r matches Err(e) ==> e == ServeError::Forbidden),
{
    if selector_escapes(selector) {
        return Err(ServeError::Forbidden);
    }
    let mut path = String::from_str(root);
    path.append("/");
    path.append(selector);
    proof {
        reveal_strlit("/");
        assert(path@ =~= spec_local_path(root@, selector@));
    }
    Ok(path)
}

} // verus!
