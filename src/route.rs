use vstd::prelude::*;
use crate::extension::views;
use crate::path::{copy_strings, relative, relative_to};
use crate::scan::{ScanEntry, entry_paths};

verus! {

/// Where the discovered files go.
#[derive(Clone, Copy, Debug, PartialEq, Eq)]
pub enum Mode {
    /// Each file is moved to `dest/<origin>/<name>`.
    PerFolder,
    /// Each file is moved to `dest/pics/<origin>-<name>`.
    Merged,
    /// Each file is copied to `dest/<origin>/<name>`, then moved to
    /// `dest/AAA-pics/<origin>-<name>`.
    Both,
}

/// The mode chosen by its position in the selection list; an unknown
/// position falls back to `PerFolder`.
pub open spec fn mode_of_index(i: usize) -> Mode {
    if i == 1 {
        Mode::Merged
    } else if i == 2 {
        Mode::Both
    } else {
        Mode::PerFolder
    }
}

impl Mode {
    pub fn from_index(i: usize) -> (r: Mode)
        ensures
            r == mode_of_index(i),
    {
        match i {
            1 => Mode::Merged,
            2 => Mode::Both,
            _ => Mode::PerFolder,
        }
    }
}

/// One destination of a file: the directory to create, the name in it, and
/// whether the source stays (a copy) or goes (a rename).
pub struct Placement {
    pub dir: Vec<String>,
    pub name: String,
    pub keep_source: bool,
}

/// The placements of one discovered file, carried out in order. A file that
/// does not lie under the workspace gets none.
pub struct FilePlan {
    pub source: Vec<String>,
    pub placements: Vec<Placement>,
}

pub type PlacementView = (Seq<Seq<char>>, Seq<char>, bool);

pub open spec fn placement_view(p: Placement) -> PlacementView {
    (views(p.dir@), p.name@, p.keep_source)
}

pub open spec fn placements_view(ps: Seq<Placement>) -> Seq<PlacementView> {
    ps.map_values(|p: Placement| placement_view(p))
}

/// The origin folder of a file, by its path relative to the workspace: the
/// first segment, or empty for a file that sits at the workspace root.
pub open spec fn origin_of(rel: Seq<Seq<char>>) -> Seq<char> {
    if rel.len() >= 2 {
        rel[0]
    } else {
        Seq::empty()
    }
}

/// `dest/<origin>`, or `dest` itself for an empty origin.
pub open spec fn folder_dir(dest: Seq<Seq<char>>, origin: Seq<char>) -> Seq<Seq<char>> {
    if origin.len() == 0 {
        dest
    } else {
        dest.push(origin)
    }
}

/// `<origin>-<name>`.
pub open spec fn merged_name(origin: Seq<char>, name: Seq<char>) -> Seq<char> {
    origin + "-"@ + name
}

/// The placements of a file with workspace-relative path `rel` (not empty).
pub open spec fn planned(rel: Seq<Seq<char>>, dest: Seq<Seq<char>>, mode: Mode) -> Seq<PlacementView> {
    let o = origin_of(rel);
    let n = rel.last();
    match mode {
        Mode::PerFolder => seq![(folder_dir(dest, o), n, false)],
        Mode::Merged => seq![(dest.push("pics"@), merged_name(o, n), false)],
        Mode::Both => seq![
            (folder_dir(dest, o), n, true),
            (dest.push("AAA-pics"@), merged_name(o, n), false),
        ],
    }
}

/// The placements of the file at `path`: none where it does not lie strictly
/// under `workspace`.
pub open spec fn plan_of(
    path: Seq<Seq<char>>,
    workspace: Seq<Seq<char>>,
    dest: Seq<Seq<char>>,
    mode: Mode,
) -> Seq<PlacementView> {
    match relative(workspace, path) {
        Some(rel) => if rel.len() > 0 {
            planned(rel, dest, mode)
        } else {
            Seq::empty()
        },
        None => Seq::empty(),
    }
}

fn folder_dir_exec(dest: &Vec<String>, origin: &String) -> (r: Vec<String>)
    ensures
        views(r@) == folder_dir(views(dest@), origin@),
{
    let mut d = copy_strings(dest);
    if !origin.as_str().is_empty() {
        let ghost old_d = d@;
        d.push(origin.clone());
        assert(views(d@) =~= views(old_d).push(origin@));
    }
    d
}

fn sub_dir(dest: &Vec<String>, name: &str) -> (r: Vec<String>)
    ensures
        views(r@) == views(dest@).push(name@),
{
    let mut d = copy_strings(dest);
    let ghost old_d = d@;
    d.push(String::from_str(name));
    assert(views(d@) =~= views(old_d).push(name@));
    d
}

fn merged_name_exec(origin: &String, name: &String) -> (r: String)
    ensures
        r@ == merged_name(origin@, name@),
{
    let mut s = origin.clone();
    s.append("-");
    s.append(name.as_str());
    proof {
        reveal_strlit("-");
    }
    s
}

/// Plans where the file at `path` goes.
pub fn plan_file(path: &Vec<String>, workspace: &Vec<String>, dest: &Vec<String>, mode: Mode) -> (r: FilePlan)
    ensures
        views(r.source@) == views(path@),
        placements_view(r.placements@) == plan_of(views(path@), views(workspace@), views(dest@), mode),
{
    let source = copy_strings(path);
    let mut placements: Vec<Placement> = Vec::new();
    let rel = match relative_to(workspace, path) {
        Some(rel) => rel,
        None => {
            assert(placements_view(placements@) =~= Seq::<PlacementView>::empty());
            return FilePlan { source, placements };
        },
    };
    if rel.len() == 0 {
        assert(placements_view(placements@) =~= Seq::<PlacementView>::empty());
        return FilePlan { source, placements };
    }
    let origin = if rel.len() >= 2 {
        rel[0].clone()
    } else {
        String::new()
    };
    let name = rel[rel.len() - 1].clone();
    assert(origin@ == origin_of(views(rel@)));
    assert(name@ == views(rel@).last());
    proof {
        reveal_strlit("pics");
        reveal_strlit("AAA-pics");
    }
    match mode {
        Mode::PerFolder => {
            placements.push(Placement { dir: folder_dir_exec(dest, &origin), name, keep_source: false });
        },
        Mode::Merged => {
            let merged = merged_name_exec(&origin, &name);
            placements.push(Placement { dir: sub_dir(dest, "pics"), name: merged, keep_source: false });
        },
        Mode::Both => {
            let merged = merged_name_exec(&origin, &name);
            placements.push(Placement { dir: folder_dir_exec(dest, &origin), name, keep_source: true });
            placements.push(Placement { dir: sub_dir(dest, "AAA-pics"), name: merged, keep_source: false });
        },
    }
    assert(placements_view(placements@) =~= planned(views(rel@), views(dest@), mode));
    FilePlan { source, placements }
}

pub open spec fn plan_sources(ps: Seq<FilePlan>) -> Seq<Seq<Seq<char>>> {
    ps.map_values(|p: FilePlan| views(p.source@))
}

/// Plans the placements of every discovered file, one plan per file, in order.
pub fn plan_routes(entries: &Vec<ScanEntry>, workspace: &Vec<String>, dest: &Vec<String>, mode: Mode) -> (r: Vec<FilePlan>)
    ensures
        r@.len() == entries@.len(),
        plan_sources(r@) == entry_paths(entries@),
        forall|i: int| 0 <= i < r@.len() ==> placements_view(#[trigger] r@[i].placements@)
            == plan_of(views(entries@[i].path@), views(workspace@), views(dest@), mode),
{
    let mut r: Vec<FilePlan> = Vec::new();
    let mut i: usize = 0;
    while i < entries.len()
        invariant
            i <= entries@.len(),
            r@.len() == i,
            forall|k: int| 0 <= k < i ==> views(#[trigger] r@[k].source@) == views(entries@[k].path@),
            forall|k: int| 0 <= k < i ==> placements_view(#[trigger] r@[k].placements@)
                == plan_of(views(entries@[k].path@), views(workspace@), views(dest@), mode),
        decreases entries@.len() - i,
    {
        let p = plan_file(&entries[i].path, workspace, dest, mode);
        r.push(p);
        i = i + 1;
    }
    assert(plan_sources(r@) =~= entry_paths(entries@));
    r
}

/// Plans the placements of `files`, found under `source_directory`, into
/// `target_root_directory` in the mode at position `combo`.
pub fn move_files_to_directory(
    files: &Vec<ScanEntry>,
    source_directory: &Vec<String>,
    target_root_directory: &Vec<String>,
    combo: usize,
) -> (r: Vec<FilePlan>)
    ensures
        r@.len() == files@.len(),
        plan_sources(r@) == entry_paths(files@),
        forall|i: int| 0 <= i < r@.len() ==> placements_view(#[trigger] r@[i].placements@)
            == plan_of(views(files@[i].path@), views(source_directory@), views(target_root_directory@), mode_of_index(combo)),
{
    plan_routes(files, source_directory, target_root_directory, Mode::from_index(combo))
}

/// The full path a placement leads to.
pub open spec fn target_of(p: PlacementView) -> Seq<Seq<char>> {
    p.0.push(p.1)
}

/// The destination layout: a file found at `<origin>/.../<name>` inside the
/// workspace goes to `dest/<origin>/<name>` in `PerFolder`, to
/// `dest/pics/<origin>-<name>` in `Merged`, and in `Both` is first copied to
/// `dest/<origin>/<name>` and then moved to `dest/AAA-pics/<origin>-<name>`.
pub proof fn law_layout(workspace: Seq<Seq<char>>, rel: Seq<Seq<char>>, dest: Seq<Seq<char>>, mode: Mode)
    requires
        rel.len() >= 2,
        rel[0].len() > 0,
    ensures
        ({
            let ps = plan_of(workspace + rel, workspace, dest, mode);
            let origin = rel[0];
            let name = rel.last();
            match mode {
                Mode::PerFolder => ps.len() == 1
                    && target_of(ps[0]) == dest + seq![origin, name] && !ps[0].2,
                Mode::Merged => ps.len() == 1
                    && target_of(ps[0]) == dest + seq!["pics"@, origin + "-"@ + name] && !ps[0].2,
                Mode::Both => ps.len() == 2
                    && target_of(ps[0]) == dest + seq![origin, name] && ps[0].2
                    && target_of(ps[1]) == dest + seq!["AAA-pics"@, origin + "-"@ + name] && !ps[1].2,
            }
        }),
{
    let path = workspace + rel;
    assert(path.take(workspace.len() as int) =~= workspace);
    assert(path.skip(workspace.len() as int) =~= rel);
    let ps = plan_of(path, workspace, dest, mode);
    assert(ps == planned(rel, dest, mode));
    let origin = rel[0];
    let name = rel.last();
    assert(dest.push(origin).push(name) =~= dest + seq![origin, name]);
    assert(dest.push("pics"@).push(origin + "-"@ + name) =~= dest + seq!["pics"@, origin + "-"@ + name]);
    assert(dest.push("AAA-pics"@).push(origin + "-"@ + name) =~= dest + seq!["AAA-pics"@, origin + "-"@ + name]);
}

/// The step of a placement that failed.
#[derive(Clone, Copy, Debug, PartialEq, Eq)]
pub enum FailedStep {
    CreateDir,
    Copy,
    Rename,
}

/// A placement that did not happen: the file's position in the plan list,
/// the placement's position in its plan, and the step that failed.
#[derive(Clone, Copy, Debug, PartialEq, Eq)]
pub struct RouteFailure {
    pub file: usize,
    pub placement: usize,
    pub step: FailedStep,
}

/// The tally of carrying out a list of plans. A failed placement is recorded
/// and the work goes on with the next one.
pub struct RouteReport {
    pub placed: usize,
    pub failures: Vec<RouteFailure>,
}

impl RouteReport {
    pub fn new() -> (r: RouteReport)
        ensures
            r.placed == 0,
            r.failures@.len() == 0,
    {
        RouteReport { placed: 0, failures: Vec::new() }
    }

    /// Records the result of placement `placement` of file `file`.
    pub fn record(&mut self, file: usize, placement: usize, result: Result<(), FailedStep>)
        requires
            old(self).placed < usize::MAX,
        ensures
            result is Ok ==> final(self).placed == old(self).placed + 1
                && final(self).failures@ == old(self).failures@,
            result is Err ==> final(self).placed == old(self).placed
                && final(self).failures@ == old(self).failures@.push(
                    RouteFailure { file, placement, step: result->Err_0 },
                ),
    {
        match result {
            Ok(()) => {
                self.placed = self.placed + 1;
            },
            Err(step) => {
                self.failures.push(RouteFailure { file, placement, step });
            },
        }
    }
}

} // verus!
