//! Roots, and the resolution of a caller's path against a root.

use vstd::prelude::*;
use vstd::string::StrSliceExecFns;
use vstd::string::StringExecFns;
use crate::text::trim_start;
use crate::text::lemma_trim_start_self;

verus! {

/// A root is anchored: it starts with `/` and ends with `/`.
pub open spec fn is_root(r: Seq<char>) -> bool {
    r.len() > 0 && r[0] == '/' && r.last() == '/'
}

/// The root that a configured value stands for, or the value itself where it is refused.
///
/// Nothing, or the empty string, stands for `/`. A value that does not start with `/` is refused.
/// Any other value stands for itself, with a `/` added at its end where it has none.
pub open spec fn validate_root(configured: Option<Seq<char>>) -> Result<Seq<char>, Seq<char>> {
    match configured {
        None => Ok(seq!['/']),
        Some(v) => if v.len() == 0 {
            Ok(seq!['/'])
        } else if v[0] != '/' {
            Err(v)
        } else if v.last() == '/' {
            Ok(v)
        } else {
            Ok(v.push('/'))
        },
    }
}

/// The length of the first segment of `s`: the characters before its first `/`.
pub open spec fn segment_len(s: Seq<char>) -> nat
    decreases s.len(),
{
    if s.len() == 0 || s[0] == '/' {
        0
    } else {
        1 + segment_len(s.skip(1))
    }
}

/// Whether a segment is `..`, the step to the parent.
pub open spec fn is_parent(segment: Seq<char>) -> bool {
    segment.len() == 2 && segment[0] == '.' && segment[1] == '.'
}

/// Whether a `..` segment begins at the index `i` of `s`: two dots, with the start of `s` or a
/// `/` before them and the end of `s` or a `/` after them.
pub open spec fn parent_at(s: Seq<char>, i: int) -> bool {
    &&& 0 <= i
    &&& i + 2 <= s.len()
    &&& (i == 0 || s[i - 1] == '/')
    &&& s[i] == '.'
    &&& s[i + 1] == '.'
    &&& (i + 2 == s.len() || s[i + 2] == '/')
}

/// `s` without its `..` segments: each is taken out, together with the `/` that follows it.
/// Every other segment, and every other `/`, stays where it is.
pub open spec fn without_parents(s: Seq<char>) -> Seq<char>
    decreases s.len(),
{
    let n = segment_len(s) as int;
    let segment = s.take(n);
    if n >= s.len() {
        if is_parent(segment) {
            Seq::empty()
        } else {
            segment
        }
    } else {
        let rest = without_parents(s.skip(n + 1));
        if is_parent(segment) {
            rest
        } else {
            segment.push('/') + rest
        }
    }
}

/// The absolute path of `path` under `root`: the root itself where the two are equal, else the
/// root followed by the path without any leading occurrence of the root and without its `..`
/// segments, so that no step to a parent leads out of the root.
pub open spec fn resolve(root: Seq<char>, path: Seq<char>) -> Seq<char> {
    if path == root {
        root
    } else {
        root + without_parents(trim_start(path, root))
    }
}

/// A path that names a directory: the empty path, which is the root, or one that ends with `/`.
pub open spec fn is_dir_path(path: Seq<char>) -> bool {
    path.len() == 0 || path.last() == '/'
}

/// `s` without its `..` segments.
pub fn drop_parents(s: &str) -> (r: String)
    ensures
        r@ == without_parents(s@),
{
    let len = s.unicode_len();
    let mut out = String::new();
    let mut start: usize = 0;
    proof {
        assert(s@.skip(0) =~= s@);
        assert(out@ + without_parents(s@) =~= without_parents(s@));
    }
    loop
        invariant
            len == s@.len(),
            start <= len,
            out@ + without_parents(s@.skip(start as int)) == without_parents(s@),
        decreases len - start,
    {
        let mut end = start;
        while end < len && s.get_char(end) != '/'
            invariant
                len == s@.len(),
                start <= end <= len,
                forall|k: int| start <= k < end ==> s@[k] != '/',
            decreases len - end,
        {
            end += 1;
        }
        let ghost tail = s@.skip(start as int);
        let ghost segment = tail.take(end - start);
        proof {
            assert forall|k: int| 0 <= k < end - start implies tail[k] != '/' by {
                assert(tail[k] == s@[start + k]);
            }
            if end < len {
                assert(tail[end - start] == s@[end as int]);
            }
            lemma_segment_len(tail, end - start);
            assert(segment =~= s@.subrange(start as int, end as int));
        }
        let parent = end - start == 2 && s.get_char(start) == '.' && s.get_char(start + 1) == '.';
        proof {
            if end - start == 2 {
                assert(segment[0] == s@[start as int] && segment[1] == s@[start + 1]);
            }
            assert(parent == is_parent(segment));
        }
        let ghost before = out@;
        if !parent {
            out.append(s.substring_char(start, end));
        }
        if end == len {
            proof {
                assert(out@ =~= before + without_parents(tail));
            }
            return out;
        }
        if !parent {
            out.append("/");
        }
        proof {
            reveal_strlit("/");
            assert(tail.skip(end - start + 1) =~= s@.skip(end + 1));
            assert("/"@ =~= seq!['/']);
            assert(out@ + without_parents(s@.skip(end + 1)) =~= before + without_parents(tail));
        }
        start = end + 1;
    }
}

/// Whether `path` names a directory.
pub fn is_dir(path: &str) -> (r: bool)
    ensures
        r == is_dir_path(path@),
{
    if path.is_empty() {
        return true;
    }
    let len = path.unicode_len();
    path.get_char(len - 1) == '/'
}

/// The first segment holds no `/`, and ends at a `/` or at the end.
pub proof fn lemma_segment(s: Seq<char>)
    ensures
        segment_len(s) <= s.len(),
        forall|k: int| 0 <= k < segment_len(s) ==> s[k] != '/',
        segment_len(s) < s.len() ==> s[segment_len(s) as int] == '/',
    decreases s.len(),
{
    if s.len() > 0 && s[0] != '/' {
        let t = s.skip(1);
        lemma_segment(t);
        assert forall|k: int| 0 <= k < segment_len(s) implies s[k] != '/' by {
            if k > 0 {
                assert(s[k] == t[k - 1]);
            }
        }
        if segment_len(s) < s.len() {
            assert(s[segment_len(s) as int] == t[segment_len(t) as int]);
        }
    }
}

/// A run of `n` characters without `/`, which ends at a `/` or at the end, is the first
/// segment.
pub proof fn lemma_segment_len(s: Seq<char>, n: int)
    requires
        0 <= n <= s.len(),
        forall|k: int| 0 <= k < n ==> s[k] != '/',
        n == s.len() || s[n] == '/',
    ensures
        segment_len(s) == n,
    decreases n,
{
    if n > 0 {
        let t = s.skip(1);
        assert forall|k: int| 0 <= k < n - 1 implies t[k] != '/' by {
            assert(t[k] == s[k + 1]);
        }
        if n - 1 < t.len() {
            assert(t[n - 1] == s[n]);
        }
        lemma_segment_len(t, n - 1);
    }
}

/// What is left without the `..` segments holds no `..` segment.
pub proof fn lemma_without_parents(s: Seq<char>)
    ensures
        forall|i: int| !parent_at(without_parents(s), i),
    decreases s.len(),
{
    lemma_segment(s);
    let n = segment_len(s) as int;
    let segment = s.take(n);
    let r = without_parents(s);
    assert forall|k: int| 0 <= k < n implies segment[k] != '/' by {
        assert(segment[k] == s[k]);
    }
    if n >= s.len() {
        assert forall|i: int| !parent_at(r, i) by {
            if parent_at(r, i) {
                assert(r == segment);
                if i > 0 {
                    assert(segment[i - 1] != '/');
                }
                if i + 2 < segment.len() {
                    assert(segment[i + 2] != '/');
                }
                assert(is_parent(segment));
            }
        }
    } else {
        let rest = without_parents(s.skip(n + 1));
        lemma_without_parents(s.skip(n + 1));
        if !is_parent(segment) {
            let head = segment.push('/');
            assert(r == head + rest);
            assert forall|i: int| !parent_at(r, i) by {
                if parent_at(r, i) {
                    if i > n {
                        let j = i - (n + 1);
                        assert(r[i] == rest[j]);
                        assert(r[i + 1] == rest[j + 1]);
                        if j > 0 {
                            assert(r[i - 1] == rest[j - 1]);
                        }
                        if i + 2 < r.len() {
                            assert(r[i + 2] == rest[j + 2]);
                        }
                        assert(parent_at(rest, j));
                    } else if i == n {
                        assert(r[i] == '/');
                    } else {
                        assert(r[i] == segment[i]);
                        if i > 0 {
                            assert(r[i - 1] == segment[i - 1]);
                        }
                        if i + 1 == n {
                            assert(r[i + 1] == '/');
                        } else {
                            assert(r[i + 1] == segment[i + 1]);
                            if i + 2 < n {
                                assert(r[i + 2] == segment[i + 2]);
                            } else {
                                assert(i == 0 && n == 2);
                                assert(is_parent(segment));
                            }
                        }
                    }
                }
            }
        }
    }
}

/// What holds no `..` segment is left as it is.
pub proof fn lemma_without_parents_keeps(s: Seq<char>)
    requires
        forall|i: int| !parent_at(s, i),
    ensures
        without_parents(s) == s,
    decreases s.len(),
{
    lemma_segment(s);
    let n = segment_len(s) as int;
    let segment = s.take(n);
    if is_parent(segment) {
        assert(segment[0] == s[0] && segment[1] == s[1]);
        assert(parent_at(s, 0));
    }
    if n >= s.len() {
        assert(segment =~= s);
    } else {
        let t = s.skip(n + 1);
        assert forall|j: int| !parent_at(t, j) by {
            if parent_at(t, j) {
                assert(t[j] == s[j + n + 1] && t[j + 1] == s[j + n + 2]);
                if j > 0 {
                    assert(t[j - 1] == s[j + n]);
                }
                if j + 2 < t.len() {
                    assert(t[j + 2] == s[j + n + 3]);
                }
                assert(parent_at(s, j + n + 1));
            }
        }
        lemma_without_parents_keeps(t);
        assert(segment.push('/') + t =~= s);
    }
}

/// Resolving a root against itself gives the root.
pub proof fn lemma_resolve_root(r: Seq<char>)
    ensures
        resolve(r, r) == r,
{
}

/// Every resolved path is anchored under its root.
pub proof fn lemma_resolve_anchored(root: Seq<char>, path: Seq<char>)
    ensures
        root.is_prefix_of(resolve(root, path)),
{
    assert(root.is_prefix_of(root));
    let rest = without_parents(trim_start(path, root));
    assert((root + rest).subrange(0, root.len() as int) =~= root);
}

/// No resolved path leaves its root by a step to the parent: below the root it holds no `..`
/// segment, whatever the path held.
pub proof fn lemma_resolve_stays_below(root: Seq<char>, path: Seq<char>)
    requires
        is_root(root),
    ensures
        forall|i: int| i >= root.len() ==> !parent_at(resolve(root, path), i),
{
    let abs = resolve(root, path);
    if path != root {
        let rest = without_parents(trim_start(path, root));
        lemma_without_parents(trim_start(path, root));
        assert forall|i: int| i >= root.len() implies !parent_at(abs, i) by {
            if parent_at(abs, i) {
                let j = i - root.len();
                assert(abs[i] == rest[j]);
                assert(abs[i + 1] == rest[j + 1]);
                if j > 0 {
                    assert(abs[i - 1] == rest[j - 1]);
                }
                if i + 2 < abs.len() {
                    assert(abs[i + 2] == rest[j + 2]);
                }
                assert(parent_at(rest, j));
            }
        }
    }
}

/// What is left after trimming does not start with the pattern.
pub proof fn lemma_trim_start_done(s: Seq<char>, pattern: Seq<char>)
    requires
        pattern.len() > 0,
    ensures
        !pattern.is_prefix_of(trim_start(s, pattern)),
        trim_start(trim_start(s, pattern), pattern) == trim_start(s, pattern),
    decreases s.len(),
{
    if pattern.is_prefix_of(s) {
        lemma_trim_start_done(s.skip(pattern.len() as int), pattern);
    }
}

/// A path that is resolved already resolves to itself, where what it holds below its leading
/// roots has no `..` segment.
pub proof fn lemma_resolve_idempotent(root: Seq<char>, path: Seq<char>)
    requires
        root.len() > 0,
        forall|i: int| !parent_at(trim_start(path, root), i),
    ensures
        resolve(root, resolve(root, path)) == resolve(root, path),
{
    let once = resolve(root, path);
    if once != root {
        let rest = trim_start(path, root);
        lemma_trim_start_done(path, root);
        lemma_without_parents_keeps(rest);
        assert(root.is_prefix_of(root + rest)) by {
            assert((root + rest).subrange(0, root.len() as int) =~= root);
        }
        assert((root + rest).skip(root.len() as int) =~= rest);
        assert(trim_start(once, root) == trim_start(rest, root));
    } else {
        lemma_trim_start_self(root);
        assert(without_parents(Seq::<char>::empty()) =~= Seq::<char>::empty()) by {
            assert(segment_len(Seq::<char>::empty()) == 0);
            assert(Seq::<char>::empty().take(0) =~= Seq::<char>::empty());
        }
    }
}

/// A value that does not start with `/` is refused, unless it is empty.
pub proof fn lemma_root_without_leading_slash(r: Seq<char>)
    requires
        r.len() > 0,
        r[0] != '/',
    ensures
        validate_root(Some(r)) == Err::<Seq<char>, Seq<char>>(r),
{
}

/// A value that starts with `/` and does not end with `/` gets one `/` at its end.
pub proof fn lemma_root_without_trailing_slash(r: Seq<char>)
    requires
        r.len() > 0,
        r[0] == '/',
        r.last() != '/',
    ensures
        validate_root(Some(r)) == Ok::<Seq<char>, Seq<char>>(r + seq!['/']),
{
    assert(r.push('/') =~= r + seq!['/']);
}

/// Every root that validation lets through is anchored.
pub proof fn lemma_validated_root_is_root(configured: Option<Seq<char>>)
    ensures
        validate_root(configured) matches Ok(r) ==> is_root(r),
{
}

} // verus!
