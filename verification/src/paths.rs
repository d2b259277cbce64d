//! A plain model of filesystem paths.
//!
//! The reload pipeline decides which resource categories a batch of file
//! changes touches by comparing changed paths against known watch roots.
//! A path is held as its sequence of components, so that "equals" and
//! "lies under" are decisions over plain values.

use vstd::prelude::*;

verus! {

/// Whether `pre` is a component-wise prefix of `p`.
pub open spec fn is_path_prefix(pre: Seq<Seq<char>>, p: Seq<Seq<char>>) -> bool {
    pre.len() <= p.len() && forall|i: int| 0 <= i < pre.len() ==> p[i] == pre[i]
}

/// Component-wise equality of two paths.
pub fn path_eq(a: &Vec<String>, b: &Vec<String>) -> (r: bool)
    ensures
        r == (a.deep_view() == b.deep_view()),
{
    if a.len() != b.len() {
        proof {
            assert(a.deep_view().len() == a@.len());
            assert(b.deep_view().len() == b@.len());
        }
        return false;
    }
    let mut i: usize = 0;
    while i < a.len()
        invariant
            i <= a@.len(),
            a@.len() == b@.len(),
            forall|k: int| 0 <= k < i ==> a.deep_view()[k] == b.deep_view()[k],
        decreases a@.len() - i,
    {
        if !(a[i] == b[i]) {
            proof {
                assert(a.deep_view()[i as int] == a@[i as int]@);
                assert(b.deep_view()[i as int] == b@[i as int]@);
            }
            return false;
        }
        proof {
            assert(a.deep_view()[i as int] == a@[i as int]@);
            assert(b.deep_view()[i as int] == b@[i as int]@);
        }
        i += 1;
    }
    proof {
        assert(a.deep_view() =~= b.deep_view());
    }
    true
}

/// Whether `p` equals `pre` or lies underneath it.
pub fn path_starts_with(p: &Vec<String>, pre: &Vec<String>) -> (r: bool)
    ensures
        r == is_path_prefix(pre.deep_view(), p.deep_view()),
{
    if pre.len() > p.len() {
        proof {
            assert(p.deep_view().len() == p@.len());
            assert(pre.deep_view().len() == pre@.len());
        }
        return false;
    }
    let mut i: usize = 0;
    while i < pre.len()
        invariant
            i <= pre@.len(),
            pre@.len() <= p@.len(),
            forall|k: int| 0 <= k < i ==> p.deep_view()[k] == pre.deep_view()[k],
        decreases pre@.len() - i,
    {
        if !(p[i] == pre[i]) {
            proof {
                assert(p.deep_view()[i as int] == p@[i as int]@);
                assert(pre.deep_view()[i as int] == pre@[i as int]@);
            }
            return false;
        }
        proof {
            assert(p.deep_view()[i as int] == p@[i as int]@);
            assert(pre.deep_view()[i as int] == pre@[i as int]@);
        }
        i += 1;
    }
    true
}

/// A copy of a path, component for component.
pub fn clone_path(v: &Vec<String>) -> (r: Vec<String>)
    ensures
        r.deep_view() == v.deep_view(),
{
    let mut r: Vec<String> = Vec::new();
    let mut i: usize = 0;
    while i < v.len()
        invariant
            i <= v@.len(),
            r@.len() == i,
            forall|k: int| 0 <= k < i ==> r.deep_view()[k] == v.deep_view()[k],
        decreases v@.len() - i,
    {
        r.push(v[i].clone());
        proof {
            assert(r.deep_view()[i as int] == r@[i as int]@);
            assert(v.deep_view()[i as int] == v@[i as int]@);
        }
        i += 1;
    }
    proof {
        assert(r.deep_view() =~= v.deep_view());
    }
    r
}

/// The path one component below `base`.
pub fn path_join(base: &Vec<String>, segment: &str) -> (r: Vec<String>)
    ensures
        r.deep_view() == base.deep_view().push(segment@),
{
    let mut r = clone_path(base);
    r.push(String::from_str(segment));
    proof {
        assert(r.deep_view() =~= base.deep_view().push(segment@));
    }
    r
}

} // verus!
