use hbd_launcher::paths::{
    bootstrap_script, bundled_python_path, find_repo_root, locate_project_root, FsModel, ShellKind,
};

fn p(parts: &[&str]) -> Vec<String> {
    parts.iter().map(|s| s.to_string()).collect()
}

fn marker_tree(root: &[&str]) -> FsModel {
    let mut dir = root.to_vec();
    dir.push("humblebundle_downloader");
    let mut file = root.to_vec();
    file.push("pyproject.toml");
    FsModel { dirs: vec![p(root), p(&dir)], files: vec![p(&file)] }
}

#[test]
fn find_root_from_itself() {
    let fs = marker_tree(&["", "repo"]);
    assert_eq!(find_repo_root(&fs, &p(&["", "repo"])), Some(p(&["", "repo"])));
}

#[test]
fn find_root_from_descendant_within_bound() {
    let fs = marker_tree(&["", "repo"]);
    let start = p(&["", "repo", "a", "b"]);
    assert_eq!(find_repo_root(&fs, &start), Some(p(&["", "repo"])));
    // Six levels below the root: the last candidate the walk examines.
    let deep = p(&["", "repo", "a", "b", "c", "d", "e", "f"]);
    assert_eq!(find_repo_root(&fs, &deep), Some(p(&["", "repo"])));
}

#[test]
fn find_root_depth_exceeded() {
    let fs = marker_tree(&["", "repo"]);
    // Seven levels below the root: one past what the walk may examine.
    let too_deep = p(&["", "repo", "a", "b", "c", "d", "e", "f", "g"]);
    assert_eq!(find_repo_root(&fs, &too_deep), None);
}

#[test]
fn find_root_missing_marker_dir() {
    let fs = FsModel {
        dirs: vec![p(&["", "repo"])],
        files: vec![p(&["", "repo", "pyproject.toml"])],
    };
    assert_eq!(find_repo_root(&fs, &p(&["", "repo", "a"])), None);
}

#[test]
fn find_root_missing_marker_file() {
    let fs = FsModel {
        dirs: vec![p(&["", "repo"]), p(&["", "repo", "humblebundle_downloader"])],
        files: vec![],
    };
    assert_eq!(find_repo_root(&fs, &p(&["", "repo", "a"])), None);
}

#[test]
fn find_root_stops_at_filesystem_root() {
    let fs = FsModel { dirs: vec![], files: vec![] };
    assert_eq!(find_repo_root(&fs, &p(&["a", "b"])), None);
}

#[test]
fn locate_prefers_cwd_over_exe_dir() {
    let mut fs = marker_tree(&["", "one"]);
    let other = marker_tree(&["", "two"]);
    fs.dirs.extend(other.dirs);
    fs.files.extend(other.files);
    let r = locate_project_root(&fs, &p(&["", "one", "sub"]), &Some(p(&["", "two", "sub"])));
    assert_eq!(r, Some(p(&["", "one"])));
}

#[test]
fn locate_falls_back_to_exe_dir() {
    let fs = marker_tree(&["", "two"]);
    let r = locate_project_root(&fs, &p(&["", "elsewhere"]), &Some(p(&["", "two", "sub"])));
    assert_eq!(r, Some(p(&["", "two"])));
    let none = locate_project_root(&fs, &p(&["", "elsewhere"]), &None);
    assert_eq!(none, None);
}

#[test]
fn bundled_prefers_windows_layout() {
    let mut fs = marker_tree(&["", "repo"]);
    let win = p(&["", "repo", "desktop", "tauri-app", ".venv", "Scripts", "python.exe"]);
    let unix = p(&["", "repo", "desktop", "tauri-app", ".venv", "bin", "python"]);
    fs.files.push(win.clone());
    fs.files.push(unix.clone());
    let r = bundled_python_path(&fs, &p(&["", "repo"]), &None);
    assert_eq!(r, Some(win));
}

#[test]
fn bundled_unix_when_windows_absent() {
    let mut fs = marker_tree(&["", "repo"]);
    let unix = p(&["", "repo", "desktop", "tauri-app", ".venv", "bin", "python"]);
    fs.files.push(unix.clone());
    let r = bundled_python_path(&fs, &p(&["", "repo"]), &None);
    assert_eq!(r, Some(unix));
}

#[test]
fn bundled_none_when_neither_layout_exists() {
    let fs = marker_tree(&["", "repo"]);
    assert_eq!(bundled_python_path(&fs, &p(&["", "repo"]), &None), None);
}

#[test]
fn bundled_none_without_project_root() {
    let fs = FsModel { dirs: vec![], files: vec![] };
    assert_eq!(bundled_python_path(&fs, &p(&["", "repo"]), &None), None);
}

#[test]
fn bootstrap_prefers_powershell_script() {
    let mut fs = marker_tree(&["", "repo"]);
    fs.files.push(p(&["", "repo", "desktop", "tauri-app", "bootstrap.ps1"]));
    fs.files.push(p(&["", "repo", "desktop", "tauri-app", "bootstrap.sh"]));
    let call = bootstrap_script(&fs, &p(&["", "repo"]), &None).unwrap();
    assert_eq!(call.shell, ShellKind::PowerShell);
    assert_eq!(call.script, p(&["", "repo", "desktop", "tauri-app", "bootstrap.ps1"]));
}

#[test]
fn bootstrap_posix_when_powershell_absent() {
    let mut fs = marker_tree(&["", "repo"]);
    fs.files.push(p(&["", "repo", "desktop", "tauri-app", "bootstrap.sh"]));
    let call = bootstrap_script(&fs, &p(&["", "repo"]), &None).unwrap();
    assert_eq!(call.shell, ShellKind::Posix);
    assert_eq!(call.script, p(&["", "repo", "desktop", "tauri-app", "bootstrap.sh"]));
}

#[test]
fn bootstrap_base_falls_back_to_cwd() {
    let fs = FsModel {
        dirs: vec![],
        files: vec![p(&["", "cwd", "desktop", "tauri-app", "bootstrap.sh"])],
    };
    let call = bootstrap_script(&fs, &p(&["", "cwd"]), &None).unwrap();
    assert_eq!(call.shell, ShellKind::Posix);
    assert_eq!(call.script, p(&["", "cwd", "desktop", "tauri-app", "bootstrap.sh"]));
}

#[test]
fn bootstrap_none_when_no_script_exists() {
    let fs = marker_tree(&["", "repo"]);
    assert!(bootstrap_script(&fs, &p(&["", "repo"]), &None).is_none());
}
