use hbd_launcher::launch::{
    build_launch_plan, join_path, merged_pythonpath, spawn_error_message, StartConfig,
};
use hbd_launcher::paths::FsModel;

fn p(parts: &[&str]) -> Vec<String> {
    parts.iter().map(|s| s.to_string()).collect()
}

fn plain_config(cwd: Vec<String>) -> StartConfig {
    StartConfig {
        python_override: None,
        port_override: None,
        workdir_override: None,
        pythonpath: None,
        path_sep: "/".to_string(),
        cwd,
        exe_dir: None,
    }
}

#[test]
fn join_path_concatenates_components() {
    assert_eq!(join_path(&p(&["", "repo", "sub"]), "/"), "/repo/sub");
    assert_eq!(join_path(&p(&["rel", "dir"]), "/"), "rel/dir");
}

#[test]
fn join_path_edge_cases() {
    assert_eq!(join_path(&p(&[]), "/"), "");
    assert_eq!(join_path(&p(&["only"]), "/"), "only");
}

#[test]
fn merge_prepends_workdir_to_existing_value() {
    let r = merged_pythonpath("/repo", &Some("old".to_string()), ":");
    assert_eq!(r, "/repo:old");
}

#[test]
fn merge_ignores_empty_existing_value() {
    assert_eq!(merged_pythonpath("/repo", &Some(String::new()), ":"), "/repo");
    assert_eq!(merged_pythonpath("/repo", &None, ":"), "/repo");
}

#[test]
fn plan_uses_defaults_without_overrides() {
    let fs = FsModel {
        dirs: vec![p(&["", "repo"]), p(&["", "repo", "humblebundle_downloader"])],
        files: vec![p(&["", "repo", "pyproject.toml"])],
    };
    let cfg = plain_config(p(&["", "repo", "sub"]));
    let plan = build_launch_plan(&cfg, &fs, "python".to_string());
    assert_eq!(plan.program, "python");
    assert_eq!(plan.args, p(&["-m", "humblebundle_downloader.ui_server"]));
    assert_eq!(plan.workdir, p(&["", "repo"]));
    assert_eq!(plan.port, "8000");
    assert_eq!(plan.unbuffered, "1");
    assert_eq!(plan.pythonpath, "/repo");
}

#[test]
fn plan_workdir_uses_root_found_from_exe_dir() {
    let fs = FsModel {
        dirs: vec![p(&["", "inst"]), p(&["", "inst", "humblebundle_downloader"])],
        files: vec![p(&["", "inst", "pyproject.toml"])],
    };
    let mut cfg = plain_config(p(&["", "elsewhere"]));
    cfg.exe_dir = Some(p(&["", "inst", "bin"]));
    let plan = build_launch_plan(&cfg, &fs, "python".to_string());
    assert_eq!(plan.workdir, p(&["", "inst"]));
    assert_eq!(plan.pythonpath, "/inst");
}

#[test]
fn plan_workdir_falls_back_to_cwd() {
    let fs = FsModel { dirs: vec![], files: vec![] };
    let cfg = plain_config(p(&["", "somewhere"]));
    let plan = build_launch_plan(&cfg, &fs, "python".to_string());
    assert_eq!(plan.workdir, p(&["", "somewhere"]));
    assert_eq!(plan.pythonpath, "/somewhere");
}

#[test]
fn plan_honors_overrides_and_merges_search_path() {
    let fs = FsModel { dirs: vec![], files: vec![] };
    let mut cfg = plain_config(p(&["", "elsewhere"]));
    cfg.port_override = Some("9100".to_string());
    cfg.workdir_override = Some(p(&["", "forced"]));
    cfg.pythonpath = Some("keep".to_string());
    let plan = build_launch_plan(&cfg, &fs, "python".to_string());
    assert_eq!(plan.port, "9100");
    assert_eq!(plan.workdir, p(&["", "forced"]));
    // The merged variable starts with the working directory's string form,
    // then the separator, then the pre-existing value.
    assert_eq!(plan.pythonpath, "/forced/keep");
    assert!(plan.pythonpath.starts_with("/forced/"));
    assert!(plan.pythonpath.ends_with("keep"));
}

#[test]
fn spawn_error_names_the_command() {
    let msg = spawn_error_message("/repo/python", "no such file");
    assert_eq!(
        msg,
        "Failed to start UI server (command: /repo/python): no such file"
    );
}
