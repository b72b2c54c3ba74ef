use repkg::{
    check_path, copy_strings, extension_set, has_wanted_extension, relative_to, Job, Mode, PathKind,
    PathMeta, ValidationError,
};

fn strings(items: &[&str]) -> Vec<String> {
    items.iter().map(|s| s.to_string()).collect()
}

#[test]
fn check_path_accepts_files_and_directories() {
    assert_eq!(check_path("/data/in", PathMeta::Directory), Ok(PathKind::Directory));
    assert_eq!(check_path("/data/in.pkg", PathMeta::File), Ok(PathKind::File));
}

#[test]
fn check_path_rejects_missing_other_and_empty() {
    assert_eq!(check_path("/nowhere", PathMeta::Missing), Err(ValidationError::NotFound));
    assert_eq!(check_path("/dev/null", PathMeta::Other), Err(ValidationError::UnsupportedKind));
    assert_eq!(check_path("", PathMeta::Directory), Err(ValidationError::NotFound));
}

#[test]
fn extension_set_keeps_defaults_and_nonempty_extras() {
    let extra = strings(&["gif", "", "png", "mp4"]);
    assert_eq!(extension_set(&extra), strings(&["jpg", "png", "jpeg", "gif", "png", "mp4"]));
    assert_eq!(extension_set(&Vec::new()), strings(&["jpg", "png", "jpeg"]));
}

#[test]
fn wanted_extension_matches_lowercased_extension() {
    let exts = strings(&["jpg", "png", "jpeg"]);
    assert!(has_wanted_extension("x.png", &exts));
    assert!(has_wanted_extension("photo.JPG", &exts));
    assert!(has_wanted_extension("a.b.JpEg", &exts));
    assert!(!has_wanted_extension("x.gif", &exts));
    assert!(!has_wanted_extension("png", &exts));
    assert!(!has_wanted_extension(".png", &exts));
    assert!(!has_wanted_extension("x.png.txt", &exts));
    assert!(!has_wanted_extension("x.pn", &exts));
    assert!(!has_wanted_extension("x.", &exts));
    assert!(!has_wanted_extension("x.png", &Vec::new()));
}

#[test]
fn wanted_extension_is_exact_on_the_whole_extension() {
    let exts = strings(&["jp"]);
    assert!(!has_wanted_extension("x.jpg", &exts));
    assert!(has_wanted_extension("x.jp", &exts));
}

#[test]
fn relative_to_strips_the_root() {
    let root = strings(&["/", "dest", "tmp"]);
    let path = strings(&["/", "dest", "tmp", "A", "x.png"]);
    assert_eq!(relative_to(&root, &path), Some(strings(&["A", "x.png"])));
    assert_eq!(relative_to(&root, &root), Some(Vec::new()));
    assert_eq!(relative_to(&root, &strings(&["/", "other", "tmp", "x.png"])), None);
    assert_eq!(relative_to(&root, &strings(&["/", "dest"])), None);
}

#[test]
fn copy_strings_copies_every_segment() {
    let p = strings(&["/", "a", "b"]);
    assert_eq!(copy_strings(&p), p);
}

#[test]
fn command_line_with_and_without_title_flag() {
    let mut job = Job {
        source: "C:\\pkgs".to_string(),
        destination: "C:\\out".to_string(),
        name_by_title: false,
        mode: Mode::PerFolder,
        extra_extensions: Vec::new(),
    };
    assert_eq!(job.command_line("C:\\out\\tmp"), "extract -o C:\\out\\tmp C:\\pkgs");
    job.name_by_title = true;
    assert_eq!(job.command_line("C:\\out\\tmp"), "extract -n -o C:\\out\\tmp C:\\pkgs");
}

#[test]
fn job_extensions_add_user_extensions() {
    let job = Job {
        source: "s".to_string(),
        destination: "d".to_string(),
        name_by_title: false,
        mode: Mode::Merged,
        extra_extensions: strings(&["", "webp"]),
    };
    assert_eq!(job.extensions(), strings(&["jpg", "png", "jpeg", "webp"]));
}

#[test]
fn shell_line_turns_backslashes_into_slashes() {
    assert_eq!(
        repkg::shell_line("RePKG_temp.exe", "extract -o C:\\out\\tmp C:\\pkgs"),
        ".\\RePKG_temp.exe extract -o C:/out/tmp C:/pkgs"
    );
    assert_eq!(repkg::shell_line("a\\b.exe", ""), ".\\a/b.exe ");
    assert_eq!(repkg::shell_line("x", "\\\\"), ".\\x //");
}

#[test]
fn empty_path_has_no_metadata() {
    assert_eq!(check_path("", PathMeta::Missing), Err(ValidationError::NotFound));
    assert_eq!(check_path("", PathMeta::File), Err(ValidationError::NotFound));
}
