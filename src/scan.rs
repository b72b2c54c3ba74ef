use vstd::prelude::*;
use crate::extension::{views, wanted, has_wanted_extension};
use crate::path::copy_strings;
use vstd::seq_lib::seq_to_set_distributes_over_add;

verus! {

/// The kind of an entry of a directory listing.
#[derive(Clone, Copy, Debug, PartialEq, Eq)]
pub enum EntryKind {
    File,
    Directory,
    /// Anything else (a device, a socket, a dangling link): never kept, never entered.
    Other,
}

/// One entry of a directory listing, as read from the filesystem.
pub struct DirEntry {
    pub name: String,
    pub kind: EntryKind,
}

/// A discovered file, by the segments of its full path.
pub struct ScanEntry {
    pub path: Vec<String>,
}

pub open spec fn entry_paths(es: Seq<ScanEntry>) -> Seq<Seq<Seq<char>>> {
    es.map_values(|e: ScanEntry| views(e.path@))
}

pub open spec fn dir_paths(ds: Seq<Vec<String>>) -> Seq<Seq<Seq<char>>> {
    ds.map_values(|d: Vec<String>| views(d@))
}

/// The files of one listing of `dir` that a scan for `exts` keeps, in listing order.
pub open spec fn files_of(dir: Seq<Seq<char>>, entries: Seq<DirEntry>, exts: Seq<Seq<char>>) -> Seq<Seq<Seq<char>>>
    decreases entries.len(),
{
    if entries.len() == 0 {
        Seq::empty()
    } else {
        let rest = files_of(dir, entries.drop_last(), exts);
        let e = entries.last();
        if e.kind == EntryKind::File && wanted(e.name@, exts) {
            rest.push(dir.push(e.name@))
        } else {
            rest
        }
    }
}

/// The subdirectories of one listing of `dir`, in listing order.
pub open spec fn dirs_of(dir: Seq<Seq<char>>, entries: Seq<DirEntry>) -> Seq<Seq<Seq<char>>>
    decreases entries.len(),
{
    if entries.len() == 0 {
        Seq::empty()
    } else {
        let rest = dirs_of(dir, entries.drop_last());
        let e = entries.last();
        if e.kind == EntryKind::Directory {
            rest.push(dir.push(e.name@))
        } else {
            rest
        }
    }
}

/// A depth-first walk of a directory tree, driven by its caller: the caller
/// takes the next directory with `next_dir`, lists it, and hands the listing
/// to `absorb`. A directory that cannot be read is simply not absorbed.
pub struct Scanner {
    pending: Vec<Vec<String>>,
    found: Vec<ScanEntry>,
    extensions: Vec<String>,
}

impl Scanner {
    /// The directories still to be listed; the last is listed next.
    pub closed spec fn pending_view(&self) -> Seq<Seq<Seq<char>>> {
        dir_paths(self.pending@)
    }

    /// The files kept so far, in the order found.
    pub closed spec fn found_view(&self) -> Seq<Seq<Seq<char>>> {
        entry_paths(self.found@)
    }

    pub closed spec fn extensions_view(&self) -> Seq<Seq<char>> {
        views(self.extensions@)
    }

    /// A walk of the tree under `root` that keeps files whose extension is in `extensions`.
    pub fn new(root: Vec<String>, extensions: Vec<String>) -> (r: Scanner)
        ensures
            r.pending_view() == seq![views(root@)],
            r.found_view() == Seq::<Seq<Seq<char>>>::empty(),
            r.extensions_view() == views(extensions@),
    {
        let mut pending: Vec<Vec<String>> = Vec::new();
        pending.push(root);
        let r = Scanner { pending, found: Vec::new(), extensions };
        assert(r.pending_view() =~= seq![views(root@)]);
        assert(r.found_view() =~= Seq::<Seq<Seq<char>>>::empty());
        r
    }

    /// Whether every directory reached has been handed out.
    pub fn is_done(&self) -> (r: bool)
        ensures
            r == (self.pending_view().len() == 0),
    {
        self.pending.len() == 0
    }

    /// Hands out the next directory to list.
    pub fn next_dir(&mut self) -> (r: Option<Vec<String>>)
        ensures
            final(self).found_view() == old(self).found_view(),
            final(self).extensions_view() == old(self).extensions_view(),
            old(self).pending_view().len() == 0 ==> r is None && final(self).pending_view() == old(self).pending_view(),
            old(self).pending_view().len() > 0 ==> r is Some
                && views(r->0@) == old(self).pending_view().last()
                && final(self).pending_view() == old(self).pending_view().drop_last(),
    {
        let r = self.pending.pop();
        proof {
            if old(self).pending@.len() > 0 {
                assert(self.pending_view() =~= old(self).pending_view().drop_last());
            }
        }
        r
    }

    /// Takes in the listing of `dir`: keeps its wanted files and queues its subdirectories.
    pub fn absorb(&mut self, dir: &Vec<String>, entries: &Vec<DirEntry>)
        ensures
            final(self).found_view() == old(self).found_view() + files_of(views(dir@), entries@, old(self).extensions_view()),
            final(self).pending_view() == old(self).pending_view() + dirs_of(views(dir@), entries@),
            final(self).extensions_view() == old(self).extensions_view(),
    {
        let ghost d = views(dir@);
        let ghost exts = views(self.extensions@);
        let mut i: usize = 0;
        while i < entries.len()
            invariant
                i <= entries@.len(),
                d == views(dir@),
                exts == views(self.extensions@),
                exts == old(self).extensions_view(),
                self.found_view() == old(self).found_view() + files_of(d, entries@.take(i as int), exts),
                self.pending_view() == old(self).pending_view() + dirs_of(d, entries@.take(i as int)),
            decreases entries@.len() - i,
        {
            let e = &entries[i];
            proof {
                assert(entries@.take(i + 1).drop_last() =~= entries@.take(i as int));
                assert(entries@.take(i + 1).last() == entries@[i as int]);
            }
            match e.kind {
                EntryKind::File => {
                    if has_wanted_extension(e.name.as_str(), &self.extensions) {
                        let mut p = copy_strings(dir);
                        let ghost old_p = p@;
                        p.push(e.name.clone());
                        let ghost old_found = self.found@;
                        self.found.push(ScanEntry { path: p });
                        proof {
                            assert(views(p@) =~= views(old_p).push(e.name@));
                            assert(entry_paths(self.found@) =~= entry_paths(old_found).push(d.push(e.name@)));
                        }
                    }
                },
                EntryKind::Directory => {
                    let mut p = copy_strings(dir);
                    let ghost old_p = p@;
                    p.push(e.name.clone());
                    let ghost old_pending = self.pending@;
                    self.pending.push(p);
                    proof {
                        assert(views(p@) =~= views(old_p).push(e.name@));
                        assert(dir_paths(self.pending@) =~= dir_paths(old_pending).push(d.push(e.name@)));
                    }
                },
                EntryKind::Other => {},
            }
            proof {
                assert(self.found_view() =~= old(self).found_view() + files_of(d, entries@.take(i + 1), exts));
                assert(self.pending_view() =~= old(self).pending_view() + dirs_of(d, entries@.take(i + 1)));
            }
            i = i + 1;
        }
        proof {
            assert(entries@.take(entries@.len() as int) =~= entries@);
        }
    }

    /// The files kept, in the order found.
    pub fn into_found(self) -> (r: Vec<ScanEntry>)
        ensures
            entry_paths(r@) == self.found_view(),
    {
        self.found
    }
}

/// Directories may be listed in any order: after two listings have been
/// absorbed, the set of files kept does not depend on which came first.
pub proof fn law_listing_order(
    found: Seq<Seq<Seq<char>>>,
    dir_a: Seq<Seq<char>>,
    list_a: Seq<DirEntry>,
    dir_b: Seq<Seq<char>>,
    list_b: Seq<DirEntry>,
    exts: Seq<Seq<char>>,
)
    ensures
        (found + files_of(dir_a, list_a, exts) + files_of(dir_b, list_b, exts)).to_set()
            == (found + files_of(dir_b, list_b, exts) + files_of(dir_a, list_a, exts)).to_set(),
{
    let fa = files_of(dir_a, list_a, exts);
    let fb = files_of(dir_b, list_b, exts);
    seq_to_set_distributes_over_add(found + fa, fb);
    seq_to_set_distributes_over_add(found, fa);
    seq_to_set_distributes_over_add(found + fb, fa);
    seq_to_set_distributes_over_add(found, fb);
    assert((found + fa + fb).to_set() =~= (found + fb + fa).to_set());
}

/// A whole walk over a static tree, as a sequence of `next_dir` and `absorb`
/// calls carries it out: `tree` gives the listing of each directory (empty
/// where it cannot be read). `None` where `fuel` steps do not finish it.
pub open spec fn walk(
    pending: Seq<Seq<Seq<char>>>,
    found: Seq<Seq<Seq<char>>>,
    tree: spec_fn(Seq<Seq<char>>) -> Seq<DirEntry>,
    exts: Seq<Seq<char>>,
    fuel: nat,
) -> Option<Seq<Seq<Seq<char>>>>
    decreases fuel,
{
    if pending.len() == 0 {
        Some(found)
    } else if fuel == 0 {
        None
    } else {
        let d = pending.last();
        walk(
            pending.drop_last() + dirs_of(d, tree(d)),
            found + files_of(d, tree(d), exts),
            tree,
            exts,
            (fuel - 1) as nat,
        )
    }
}

proof fn lemma_walk_fuel(
    pending: Seq<Seq<Seq<char>>>,
    found: Seq<Seq<Seq<char>>>,
    tree: spec_fn(Seq<Seq<char>>) -> Seq<DirEntry>,
    exts: Seq<Seq<char>>,
    fuel: nat,
    more: nat,
)
    requires
        walk(pending, found, tree, exts, fuel) is Some,
        fuel <= more,
    ensures
        walk(pending, found, tree, exts, more) == walk(pending, found, tree, exts, fuel),
    decreases fuel,
{
    if pending.len() > 0 {
        let d = pending.last();
        lemma_walk_fuel(
            pending.drop_last() + dirs_of(d, tree(d)),
            found + files_of(d, tree(d), exts),
            tree,
            exts,
            (fuel - 1) as nat,
            (more - 1) as nat,
        );
    }
}

/// Scanning an unchanged tree twice gives the same files: every walk of the
/// tree under `root` that finishes yields the same sequence, hence the same set.
pub proof fn law_scan_repeatable(
    root: Seq<Seq<char>>,
    tree: spec_fn(Seq<Seq<char>>) -> Seq<DirEntry>,
    exts: Seq<Seq<char>>,
    fuel1: nat,
    fuel2: nat,
)
    requires
        walk(seq![root], Seq::empty(), tree, exts, fuel1) is Some,
        walk(seq![root], Seq::empty(), tree, exts, fuel2) is Some,
    ensures
        walk(seq![root], Seq::empty(), tree, exts, fuel1) == walk(seq![root], Seq::empty(), tree, exts, fuel2),
        walk(seq![root], Seq::empty(), tree, exts, fuel1)->0.to_set()
            == walk(seq![root], Seq::empty(), tree, exts, fuel2)->0.to_set(),
{
    if fuel1 <= fuel2 {
        lemma_walk_fuel(seq![root], Seq::empty(), tree, exts, fuel1, fuel2);
    } else {
        lemma_walk_fuel(seq![root], Seq::empty(), tree, exts, fuel2, fuel1);
    }
}

/// One `next_dir` followed by the `absorb` of that directory's listing is one
/// step of the walk: the walk that remains from the new state is the walk
/// from the old one.
pub proof fn law_scan_step_follows_walk(
    before: Scanner,
    taken: Scanner,
    after: Scanner,
    dir: Seq<Seq<char>>,
    tree: spec_fn(Seq<Seq<char>>) -> Seq<DirEntry>,
    fuel: nat,
)
    requires
        before.pending_view().len() > 0,
        dir == before.pending_view().last(),
        taken.pending_view() == before.pending_view().drop_last(),
        taken.found_view() == before.found_view(),
        taken.extensions_view() == before.extensions_view(),
        after.found_view() == taken.found_view() + files_of(dir, tree(dir), taken.extensions_view()),
        after.pending_view() == taken.pending_view() + dirs_of(dir, tree(dir)),
        after.extensions_view() == taken.extensions_view(),
    ensures
        walk(before.pending_view(), before.found_view(), tree, before.extensions_view(), fuel + 1)
            == walk(after.pending_view(), after.found_view(), tree, after.extensions_view(), fuel),
{
}

} // verus!
