//! Path shapes: splitting into components, safety faults, joining under a
//! root, and taking a parent directory.
//!
//! Paths are plain strings. A component is a maximal run of characters
//! between `/` separators; empty runs (from repeated separators or a
//! trailing separator) are not components. Joining a root with components
//! writes a single `/` before each component.

use vstd::prelude::*;

use crate::errors::PathFault;

verus! {

/// The position of the first `/` at or after `i`, or the end of the
/// string if none follows: the end of the component starting at `i`.
pub open spec fn seg_end(s: Seq<char>, i: int) -> int
    recommends
        0 <= i <= s.len(),
    decreases s.len() - i,
{
    if i < s.len() {
        if s[i] == '/' {
            i
        } else {
            seg_end(s, i + 1)
        }
    } else {
        s.len() as int
    }
}

/// The end of a component lies between its start and the end of the
/// string, at a `/` unless it is the end of the string, and no `/`
/// stands before it.
pub proof fn lemma_seg_end_bounds(s: Seq<char>, i: int)
    requires
        0 <= i <= s.len(),
    ensures
        i <= seg_end(s, i) <= s.len(),
        seg_end(s, i) < s.len() ==> s[seg_end(s, i)] == '/',
        forall|j: int| i <= j < seg_end(s, i) ==> s[j] != '/',
    decreases s.len() - i,
{
    if i < s.len() && s[i] != '/' {
        lemma_seg_end_bounds(s, i + 1);
    }
}

/// The components of `s` from position `i` on.
pub open spec fn components_from(s: Seq<char>, i: int) -> Seq<Seq<char>>
    decreases s.len() - i,
    when 0 <= i
    via components_from_decreases
{
    if i >= s.len() {
        Seq::empty()
    } else if s[i] == '/' {
        components_from(s, i + 1)
    } else {
        seq![s.subrange(i, seg_end(s, i))] + components_from(s, seg_end(s, i))
    }
}

#[via_fn]
proof fn components_from_decreases(s: Seq<char>, i: int) {
    if 0 <= i < s.len() && s[i] != '/' {
        lemma_seg_end_bounds(s, i);
    }
}

/// The components of a whole path string.
pub open spec fn path_components(s: Seq<char>) -> Seq<Seq<char>> {
    components_from(s, 0)
}

/// Whether every character of a component is a dot.
pub open spec fn all_dots(c: Seq<char>) -> bool {
    forall|j: int| 0 <= j < c.len() ==> c[j] == '.'
}

/// The fault a single component carries, if any: the current-directory
/// marker `.`, the parent marker `..`, or the reserved sentinel `...`.
/// Four or more dots are an ordinary file name.
pub open spec fn comp_fault(c: Seq<char>) -> Option<PathFault> {
    if all_dots(c) && c.len() == 1 {
        Some(PathFault::CurDir)
    } else if all_dots(c) && c.len() == 2 {
        Some(PathFault::Parent)
    } else if all_dots(c) && c.len() == 3 {
        Some(PathFault::Sentinel)
    } else {
        None
    }
}

/// The fault of the first faulty component, if any.
pub open spec fn comps_fault(cs: Seq<Seq<char>>) -> Option<PathFault>
    decreases cs.len(),
{
    if cs.len() == 0 {
        None
    } else if comp_fault(cs.first()) is Some {
        comp_fault(cs.first())
    } else {
        comps_fault(cs.drop_first())
    }
}

/// The first safety fault of a declared path: empty, absolute, or the
/// first disallowed component in order.
pub open spec fn path_fault(s: Seq<char>) -> Option<PathFault> {
    if s.len() == 0 {
        Some(PathFault::Empty)
    } else if s[0] == '/' {
        Some(PathFault::Absolute)
    } else {
        comps_fault(path_components(s))
    }
}

/// `p` is a prefix of `a`.
pub open spec fn starts_with(a: Seq<char>, p: Seq<char>) -> bool {
    p.len() <= a.len() && a.subrange(0, p.len() as int) == p
}

/// The string written by joining `root` with the components `cs`: a `/`
/// before each component.
pub open spec fn spec_join(root: Seq<char>, cs: Seq<Seq<char>>) -> Seq<char>
    decreases cs.len(),
{
    if cs.len() == 0 {
        root
    } else {
        spec_join(root + seq!['/'] + cs.first(), cs.drop_first())
    }
}

/// Whatever is joined under a root keeps the root as a prefix.
pub proof fn lemma_join_prefix(root: Seq<char>, cs: Seq<Seq<char>>)
    ensures
        starts_with(spec_join(root, cs), root),
    decreases cs.len(),
{
    if cs.len() == 0 {
        assert(root.subrange(0, root.len() as int) =~= root);
    } else {
        let root2 = root + seq!['/'] + cs.first();
        lemma_join_prefix(root2, cs.drop_first());
        assert(root2.subrange(0, root.len() as int) =~= root);
        assert(spec_join(root, cs).subrange(0, root.len() as int) =~= root2.subrange(
            0,
            root.len() as int,
        ));
    }
}

/// The staging directory under a build-output root.
pub open spec fn spec_staging_dir(target_root: Seq<char>) -> Seq<char> {
    target_root + "/magisk"@
}

/// Writes the staging directory under a build-output root.
pub fn staging_dir(target_root: &str) -> (r: String)
    ensures
        r@ == spec_staging_dir(target_root@),
{
    let mut acc = String::from_str(target_root);
    acc.append("/magisk");
    acc
}

/// The index of the last `/` in `s`, or `-1` if there is none.
pub open spec fn last_slash(s: Seq<char>) -> int
    decreases s.len(),
{
    if s.len() == 0 {
        -1
    } else if s[s.len() - 1] == '/' {
        s.len() - 1
    } else {
        last_slash(s.drop_last())
    }
}

/// Walks to the first `/` at or after `i`, or to the end of the string.
fn seg_end_at(s: &str, i: usize, n: usize) -> (r: usize)
    requires
        n == s@.len(),
        i <= n,
    ensures
        r as int == seg_end(s@, i as int),
        i <= r <= n,
        r < n ==> s@[r as int] == '/',
{
    let mut j: usize = i;
    while j < n && s.get_char(j) != '/'
        invariant
            n == s@.len(),
            i <= j <= n,
            seg_end(s@, i as int) == seg_end(s@, j as int),
        decreases n - j,
    {
        j = j + 1;
    }
    j
}

/// Splits a path string into its components.
pub fn split_components(s: &str) -> (r: Vec<String>)
    ensures
        r.deep_view() == path_components(s@),
{
    let n = s.unicode_len();
    let mut out: Vec<String> = Vec::new();
    let mut i: usize = 0;
    while i < n
        invariant
            n == s@.len(),
            i <= n,
            path_components(s@) == out.deep_view() + components_from(s@, i as int),
        decreases n - i,
    {
        if s.get_char(i) == '/' {
            i = i + 1;
        } else {
            let j = seg_end_at(s, i, n);
            let piece = s.substring_char(i, j);
            let ghost old_out = out.deep_view();
            out.push(String::from_str(piece));
            proof {
                assert(out.deep_view() =~= old_out + seq![piece@]);
                assert(out.deep_view() + components_from(s@, j as int) =~= old_out
                    + components_from(s@, i as int));
            }
            i = j;
        }
    }
    proof {
        assert(path_components(s@) =~= out.deep_view());
    }
    out
}

/// Reports the fault a single component carries, if any.
pub fn component_fault(c: &str) -> (r: Option<PathFault>)
    ensures
        r == comp_fault(c@),
{
    let n = c.unicode_len();
    if n == 0 || n > 3 {
        return None;
    }
    let mut i: usize = 0;
    while i < n
        invariant
            n == c@.len(),
            i <= n,
            forall|j: int| 0 <= j < i ==> c@[j] == '.',
        decreases n - i,
    {
        if c.get_char(i) != '.' {
            return None;
        }
        i = i + 1;
    }
    if n == 1 {
        Some(PathFault::CurDir)
    } else if n == 2 {
        Some(PathFault::Parent)
    } else {
        Some(PathFault::Sentinel)
    }
}

/// Reports the fault of the first faulty component, if any.
pub fn components_fault(cs: &Vec<String>) -> (r: Option<PathFault>)
    ensures
        r == comps_fault(cs.deep_view()),
{
    let mut k: usize = 0;
    proof {
        assert(cs.deep_view().subrange(0, cs.len() as int) =~= cs.deep_view());
    }
    while k < cs.len()
        invariant
            k <= cs.len(),
            comps_fault(cs.deep_view()) == comps_fault(
                cs.deep_view().subrange(k as int, cs.len() as int),
            ),
        decreases cs.len() - k,
    {
        let f = component_fault(cs[k].as_str());
        proof {
            let tail = cs.deep_view().subrange(k as int, cs.len() as int);
            assert(tail.first() == cs.deep_view()[k as int]);
            assert(tail.drop_first() =~= cs.deep_view().subrange(k as int + 1, cs.len() as int));
        }
        if let Some(fault) = f {
            return Some(fault);
        }
        k = k + 1;
    }
    None
}

/// Joins `root` with the components of `cs` from position `from` on,
/// writing a `/` before each.
pub fn join_under(root: &str, cs: &Vec<String>, from: usize) -> (r: String)
    requires
        from <= cs@.len(),
    ensures
        r@ == spec_join(root@, cs.deep_view().subrange(from as int, cs.deep_view().len() as int)),
{
    proof {
        reveal_strlit("/");
    }
    let mut acc = String::from_str(root);
    let mut k: usize = from;
    while k < cs.len()
        invariant
            from <= k <= cs.len(),
            spec_join(root@, cs.deep_view().subrange(from as int, cs.len() as int)) == spec_join(
                acc@,
                cs.deep_view().subrange(k as int, cs.len() as int),
            ),
            "/"@ == seq!['/'],
        decreases cs.len() - k,
    {
        acc.append("/");
        acc.append(cs[k].as_str());
        proof {
            let tail = cs.deep_view().subrange(k as int, cs.len() as int);
            assert(tail.first() == cs.deep_view()[k as int]);
            assert(tail.drop_first() =~= cs.deep_view().subrange(k as int + 1, cs.len() as int));
        }
        k = k + 1;
    }
    proof {
        assert(cs.deep_view().subrange(k as int, cs.len() as int) =~= Seq::<Seq<char>>::empty());
    }
    acc
}

/// The parent directory of a path string, if it has one.
pub fn parent_dir(s: &str) -> (r: Option<String>)
    ensures
        match r {
            Some(p) => spec_parent(s@) == Some(p@),
            None => spec_parent(s@) is None,
        },
{
    let n = s.unicode_len();
    let mut k: usize = n;
    proof {
        assert(s@.subrange(0, n as int) =~= s@);
    }
    while k > 0 && s.get_char(k - 1) != '/'
        invariant
            n == s@.len(),
            k <= n,
            last_slash(s@) == last_slash(s@.subrange(0, k as int)),
        decreases k,
    {
        proof {
            let pre = s@.subrange(0, k as int);
            assert(pre.drop_last() =~= s@.subrange(0, k - 1));
        }
        k = k - 1;
    }
    proof {
        if k == 0 {
            assert(s@.subrange(0, 0) =~= Seq::<char>::empty());
            assert(last_slash(s@) == -1);
        } else {
            let pre = s@.subrange(0, k as int);
            assert(pre[pre.len() - 1] == '/');
            assert(last_slash(s@) == k - 1);
        }
    }
    if n == 0 {
        None
    } else if k == 0 {
        Some(String::new())
    } else if k == 1 {
        if n == 1 {
            None
        } else {
            let root = s.substring_char(0, 1);
            proof {
                assert(s@.subrange(0, 1) =~= seq![s@[0]]);
                assert(s@[0] == '/');
            }
            Some(String::from_str(root))
        }
    } else {
        Some(String::from_str(s.substring_char(0, k - 1)))
    }
}

/// The parent directory of a path string: the text before the last `/`.
/// The parent of a bare file name is the empty string; the root `/` and
/// the empty string have no parent.
pub open spec fn spec_parent(s: Seq<char>) -> Option<Seq<char>> {
    if s.len() == 0 {
        None
    } else if last_slash(s) == -1 {
        Some(Seq::empty())
    } else if last_slash(s) == 0 {
        if s.len() == 1 {
            None
        } else {
            Some(seq!['/'])
        }
    } else {
        Some(s.subrange(0, last_slash(s)))
    }
}

} // verus!
