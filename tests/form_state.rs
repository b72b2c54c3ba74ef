use repkg::{check_search_param, demo, same_text, Job, Mode, RepkgApp};

#[test]
fn search_param_requires_both_paths() {
    let c = check_search_param("", "");
    assert_eq!(c.status, 1);
    assert_eq!(c.message, "壁纸大文件不能为空");
    let c = check_search_param("C:\\pkgs", "");
    assert_eq!(c.status, 1);
    assert_eq!(c.message, "保存地址不能为空");
    let c = check_search_param("C:\\pkgs", "C:\\out");
    assert_eq!(c.status, 2);
    assert_eq!(c.message, "");
}

#[test]
fn mode_labels_round_trip() {
    let mut app = RepkgApp::default();
    for i in 0..3 {
        app.cobo_status = i;
        assert_eq!(RepkgApp::str_to_cobo_status(app.cobo_status_to_str()), i);
    }
    app.cobo_status = 0;
    assert_eq!(app.cobo_status_to_str(), "以文件夹分类");
    app.cobo_status = 1;
    assert_eq!(app.cobo_status_to_str(), "合并到文件夹");
    app.cobo_status = 2;
    assert_eq!(app.cobo_status_to_str(), "分类和合并");
    app.cobo_status = 5;
    assert_eq!(app.cobo_status_to_str(), "以文件夹分类");
    assert_eq!(RepkgApp::str_to_cobo_status("other"), 0);
}

#[test]
fn same_text_compares_characters() {
    assert!(same_text("分类", "分类"));
    assert!(!same_text("分类", "分"));
    assert!(!same_text("ab", "ac"));
    assert!(same_text("", ""));
}

#[test]
fn form_becomes_a_job() {
    let mut app = RepkgApp::default();
    app.target = "C:\\pkgs".to_string();
    app.saved = "C:\\out".to_string();
    app.as_title = true;
    app.cobo_status = 2;
    app.addition_suffix = vec!["gif".to_string()];
    let job = Job::from_param(app.to_param());
    assert_eq!(job.source, "C:\\pkgs");
    assert_eq!(job.destination, "C:\\out");
    assert!(job.name_by_title);
    assert_eq!(job.mode, Mode::Both);
    assert_eq!(job.extra_extensions, vec!["gif".to_string()]);
}

#[test]
fn demo_parameters() {
    let p = demo();
    assert_eq!(p.target, "C:\\admin\\workplace\\repkg1");
    assert_eq!(p.saved, "C:\\admin\\workplace\\all\\demo");
    assert_eq!(p.cobo_status, 0);
    assert!(p.addition_suffix.is_empty());
}
