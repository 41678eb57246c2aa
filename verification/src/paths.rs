//! Path safety for plugin, audio and output arguments.
use vstd::prelude::*;
use crate::error::{RenderError, RenderErrorView};
use crate::text::{concat2, chars_of};

verus! {

/// `s` holds a `..` component at `i`: the two dots fill a whole `/`-separated segment.
pub open spec fn parent_segment_at(s: Seq<char>, i: int) -> bool {
    &&& 0 <= i
    &&& i + 2 <= s.len()
    &&& s[i] == '.'
    &&& s[i + 1] == '.'
    &&& (i == 0 || s[i - 1] == '/')
    &&& (i + 2 == s.len() || s[i + 2] == '/')
}

/// Some component of the path `s` is `..` (`Component::ParentDir`).
pub open spec fn has_parent_dir(s: Seq<char>) -> bool {
    exists|i: int| parent_segment_at(s, i)
}

/// The error `deny_parent_dirs` reports for `label`.
pub open spec fn parent_dir_error(label: Seq<char>) -> RenderErrorView {
    RenderErrorView::Job(label + " must not contain '..' path components"@)
}

/// Whether `path` has a `..` component.
pub fn has_parent_dir_exec(path: &Vec<char>) -> (r: bool)
    ensures
        r == has_parent_dir(path@),
{
    let n = path.len();
    if n < 2 {
        assert forall|i: int| !parent_segment_at(path@, i) by {}
        return false;
    }
    let mut i: usize = 0;
    while i + 1 < n
        invariant
            n == path.len(),
            n >= 2,
            i + 1 <= n,
            forall|k: int| 0 <= k < i ==> !parent_segment_at(path@, k),
        decreases n - i,
    {
        if path[i] == '.' && path[i + 1] == '.' && (i == 0 || path[i - 1] == '/') && (i + 2 == n
            || path[i + 2] == '/') {
            assert(parent_segment_at(path@, i as int));
            return true;
        }
        i = i + 1;
    }
    assert forall|k: int| !parent_segment_at(path@, k) by {
        if 0 <= k && k + 2 <= n {
            assert(k < i);
        }
    }
    false
}

/// Reject paths that contain `..` components (path traversal).
pub fn deny_parent_dirs(path: &str, label: &str) -> (r: Result<(), RenderError>)
    ensures
        r is Ok <==> !has_parent_dir(path@),
        r matches Err(e) ==> e@ == parent_dir_error(label@),
{
    let p = chars_of(path);
    if has_parent_dir_exec(&p) {
        let m = concat2(label, " must not contain '..' path components");
        return Err(RenderError::Job(m));
    }
    Ok(())
}

} // verus!
