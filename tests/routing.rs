use repkg::{
    move_files_to_directory, plan_file, plan_routes, FailedStep, FilePlan, Mode, RouteFailure,
    RouteReport, ScanEntry,
};

fn strings(items: &[&str]) -> Vec<String> {
    items.iter().map(|s| s.to_string()).collect()
}

fn found(rel: &[&str]) -> ScanEntry {
    let mut path = strings(&["/", "out", "tmp"]);
    path.extend(strings(rel));
    ScanEntry { path }
}

/// Each placement as (target path, kept source).
fn targets(plan: &FilePlan) -> Vec<(Vec<String>, bool)> {
    plan.placements
        .iter()
        .map(|p| {
            let mut t = p.dir.clone();
            t.push(p.name.clone());
            (t, p.keep_source)
        })
        .collect()
}

fn plans(mode: Mode) -> Vec<FilePlan> {
    let entries = vec![found(&["A", "x.png"]), found(&["B", "y.jpg"])];
    plan_routes(&entries, &strings(&["/", "out", "tmp"]), &strings(&["/", "out"]), mode)
}

#[test]
fn per_folder_layout() {
    let p = plans(Mode::PerFolder);
    assert_eq!(p.len(), 2);
    assert_eq!(p[0].source, strings(&["/", "out", "tmp", "A", "x.png"]));
    assert_eq!(targets(&p[0]), vec![(strings(&["/", "out", "A", "x.png"]), false)]);
    assert_eq!(targets(&p[1]), vec![(strings(&["/", "out", "B", "y.jpg"]), false)]);
}

#[test]
fn merged_layout() {
    let p = plans(Mode::Merged);
    assert_eq!(targets(&p[0]), vec![(strings(&["/", "out", "pics", "A-x.png"]), false)]);
    assert_eq!(targets(&p[1]), vec![(strings(&["/", "out", "pics", "B-y.jpg"]), false)]);
}

#[test]
fn both_layout_copies_then_moves() {
    let p = plans(Mode::Both);
    assert_eq!(
        targets(&p[0]),
        vec![
            (strings(&["/", "out", "A", "x.png"]), true),
            (strings(&["/", "out", "AAA-pics", "A-x.png"]), false),
        ]
    );
    assert_eq!(
        targets(&p[1]),
        vec![
            (strings(&["/", "out", "B", "y.jpg"]), true),
            (strings(&["/", "out", "AAA-pics", "B-y.jpg"]), false),
        ]
    );
}

#[test]
fn nested_file_keeps_first_segment_as_origin() {
    let ws = strings(&["/", "out", "tmp"]);
    let dest = strings(&["/", "out"]);
    let plan = plan_file(&found(&["A", "deep", "z.png"]).path, &ws, &dest, Mode::Merged);
    assert_eq!(targets(&plan), vec![(strings(&["/", "out", "pics", "A-z.png"]), false)]);
}

#[test]
fn file_at_workspace_root_has_empty_origin() {
    let ws = strings(&["/", "out", "tmp"]);
    let dest = strings(&["/", "out"]);
    let path = found(&["top.png"]).path;
    let per = plan_file(&path, &ws, &dest, Mode::PerFolder);
    assert_eq!(targets(&per), vec![(strings(&["/", "out", "top.png"]), false)]);
    let merged = plan_file(&path, &ws, &dest, Mode::Merged);
    assert_eq!(targets(&merged), vec![(strings(&["/", "out", "pics", "-top.png"]), false)]);
}

#[test]
fn file_outside_workspace_is_skipped() {
    let ws = strings(&["/", "out", "tmp"]);
    let dest = strings(&["/", "out"]);
    let plan = plan_file(&strings(&["/", "elsewhere", "A", "x.png"]), &ws, &dest, Mode::Both);
    assert!(plan.placements.is_empty());
    assert_eq!(plan.source, strings(&["/", "elsewhere", "A", "x.png"]));
    let plan = plan_file(&ws, &ws, &dest, Mode::Both);
    assert!(plan.placements.is_empty());
}

#[test]
fn combo_positions_select_modes() {
    let entries = vec![found(&["A", "x.png"])];
    let ws = strings(&["/", "out", "tmp"]);
    let dest = strings(&["/", "out"]);
    let per = move_files_to_directory(&entries, &ws, &dest, 0);
    assert_eq!(targets(&per[0]), vec![(strings(&["/", "out", "A", "x.png"]), false)]);
    let merged = move_files_to_directory(&entries, &ws, &dest, 1);
    assert_eq!(targets(&merged[0]), vec![(strings(&["/", "out", "pics", "A-x.png"]), false)]);
    let both = move_files_to_directory(&entries, &ws, &dest, 2);
    assert_eq!(both[0].placements.len(), 2);
    let unknown = move_files_to_directory(&entries, &ws, &dest, 9);
    assert_eq!(targets(&unknown[0]), vec![(strings(&["/", "out", "A", "x.png"]), false)]);
}

#[test]
fn mode_from_index() {
    assert_eq!(Mode::from_index(0), Mode::PerFolder);
    assert_eq!(Mode::from_index(1), Mode::Merged);
    assert_eq!(Mode::from_index(2), Mode::Both);
    assert_eq!(Mode::from_index(3), Mode::PerFolder);
}

#[test]
fn one_failed_rename_leaves_the_others_placed() {
    let entries = vec![found(&["A", "x.png"]), found(&["A", "w.png"]), found(&["B", "y.jpg"])];
    let p = plan_routes(&entries, &strings(&["/", "out", "tmp"]), &strings(&["/", "out"]), Mode::PerFolder);
    let mut report = RouteReport::new();
    for (i, plan) in p.iter().enumerate() {
        for (k, _) in plan.placements.iter().enumerate() {
            let result = if i == 1 { Err(FailedStep::Rename) } else { Ok(()) };
            report.record(i, k, result);
        }
    }
    assert_eq!(report.placed, 2);
    assert_eq!(report.failures, vec![RouteFailure { file: 1, placement: 0, step: FailedStep::Rename }]);
}
