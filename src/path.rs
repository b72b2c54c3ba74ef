use vstd::prelude::*;
use crate::extension::views;

verus! {

/// `path` with the segments of `root` taken off its front, if `root` is a
/// prefix of it.
pub open spec fn relative(root: Seq<Seq<char>>, path: Seq<Seq<char>>) -> Option<Seq<Seq<char>>> {
    if root.len() <= path.len() && path.take(root.len() as int) == root {
        Some(path.skip(root.len() as int))
    } else {
        None
    }
}

/// A copy of a list of strings (a segment path, a list of extensions).
pub fn copy_strings(p: &Vec<String>) -> (r: Vec<String>)
    ensures
        views(r@) == views(p@),
{
    let mut r: Vec<String> = Vec::new();
    let mut i: usize = 0;
    while i < p.len()
        invariant
            i <= p@.len(),
            views(r@) == views(p@.take(i as int)),
        decreases p@.len() - i,
    {
        let ghost old_r = r@;
        r.push(p[i].clone());
        proof {
            assert(views(r@) =~= views(old_r).push(p@[i as int]@));
            assert(views(r@) =~= views(p@.take(i + 1)));
        }
        i = i + 1;
    }
    proof {
        assert(p@.take(p@.len() as int) =~= p@);
    }
    r
}

/// `path` relative to `root`: `None` where `path` does not lie under `root`.
pub fn relative_to(root: &Vec<String>, path: &Vec<String>) -> (r: Option<Vec<String>>)
    ensures
        match r {
            Some(rel) => relative(views(root@), views(path@)) == Some(views(rel@)),
            None => relative(views(root@), views(path@)) is None,
        },
{
    if root.len() > path.len() {
        return None;
    }
    let mut i: usize = 0;
    while i < root.len()
        invariant
            root@.len() <= path@.len(),
            i <= root@.len(),
            forall|k: int| 0 <= k < i ==> views(path@)[k] == #[trigger] views(root@)[k],
        decreases root@.len() - i,
    {
        if path[i] != root[i] {
            assert(views(path@).take(root@.len() as int)[i as int] != views(root@)[i as int]);
            return None;
        }
        i = i + 1;
    }
    assert(views(path@).take(root@.len() as int) =~= views(root@));
    let mut rel: Vec<String> = Vec::new();
    let mut j: usize = root.len();
    while j < path.len()
        invariant
            root@.len() <= j <= path@.len(),
            views(rel@) == views(path@).subrange(root@.len() as int, j as int),
        decreases path@.len() - j,
    {
        let ghost old_rel = rel@;
        rel.push(path[j].clone());
        proof {
            assert(views(rel@) =~= views(old_rel).push(path@[j as int]@));
            assert(views(rel@) =~= views(path@).subrange(root@.len() as int, j + 1));
        }
        j = j + 1;
    }
    assert(views(rel@) =~= views(path@).skip(root@.len() as int));
    Some(rel)
}

} // verus!
