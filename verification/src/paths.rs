//! Project-root and interpreter discovery over a filesystem snapshot.
//!
//! Paths are sequences of components. The shell that talks to the operating
//! system probes the concrete filesystem and records what it saw in an
//! [`FsModel`]; every decision in this module is a pure function of that
//! snapshot.

use vstd::prelude::*;

verus! {

broadcast use vstd::std_specs::vec::vec_clone_deep_view_proof;

/// A snapshot of the filesystem entries that path resolution may probe.
/// `dirs` holds paths known to exist as directories, `files` paths known to
/// exist as non-directory entries.
pub struct FsModel {
    pub dirs: Vec<Vec<String>>,
    pub files: Vec<Vec<String>>,
}

impl FsModel {
    /// The snapshot records `p` as an existing directory.
    pub open spec fn has_dir(self, p: Seq<Seq<char>>) -> bool {
        exists|i: int| 0 <= i < self.dirs.deep_view().len() && self.dirs.deep_view()[i] == p
    }

    /// The snapshot records `p` as an existing non-directory entry.
    pub open spec fn has_file(self, p: Seq<Seq<char>>) -> bool {
        exists|i: int| 0 <= i < self.files.deep_view().len() && self.files.deep_view()[i] == p
    }

    /// The snapshot records `p` as existing, whatever its kind.
    pub open spec fn has_entry(self, p: Seq<Seq<char>>) -> bool {
        self.has_dir(p) || self.has_file(p)
    }

    /// Does the snapshot hold `p` as a directory?
    pub fn is_dir(&self, p: &Vec<String>) -> (r: bool)
        ensures
            r == self.has_dir(p.deep_view()),
    {
        let mut j: usize = 0;
        while j < self.dirs.len()
            invariant
                j <= self.dirs.len(),
                forall|i: int| 0 <= i < j ==> self.dirs.deep_view()[i] != p.deep_view(),
            decreases self.dirs.len() - j,
        {
            if path_eq(&self.dirs[j], p) {
                assert(self.dirs.deep_view()[j as int] == p.deep_view());
                return true;
            }
            j += 1;
        }
        false
    }

    /// Does the snapshot hold `p` as a non-directory entry?
    pub fn is_file(&self, p: &Vec<String>) -> (r: bool)
        ensures
            r == self.has_file(p.deep_view()),
    {
        let mut j: usize = 0;
        while j < self.files.len()
            invariant
                j <= self.files.len(),
                forall|i: int| 0 <= i < j ==> self.files.deep_view()[i] != p.deep_view(),
            decreases self.files.len() - j,
        {
            if path_eq(&self.files[j], p) {
                assert(self.files.deep_view()[j as int] == p.deep_view());
                return true;
            }
            j += 1;
        }
        false
    }

    /// Does the snapshot hold `p` at all?
    pub fn entry_exists(&self, p: &Vec<String>) -> (r: bool)
        ensures
            r == self.has_entry(p.deep_view()),
    {
        self.is_dir(p) || self.is_file(p)
    }
}

/// How many parent steps the upward walk may take: it examines the start
/// directory and up to this many of its ancestors.
pub const MAX_ASCENT: usize = 6;

/// Name of the marker subdirectory that identifies a project root.
pub open spec fn marker_dir_name() -> Seq<char> {
    "humblebundle_downloader"@
}

/// Name of the marker manifest file that identifies a project root.
pub open spec fn marker_file_name() -> Seq<char> {
    "pyproject.toml"@
}

/// `p` is a project root: it holds the marker subdirectory and the marker
/// manifest file.
pub open spec fn is_repo_root(fs: FsModel, p: Seq<Seq<char>>) -> bool {
    fs.has_dir(p.push(marker_dir_name())) && fs.has_entry(p.push(marker_file_name()))
}

/// The result of walking upward from `start` for at most `fuel` directories:
/// the first project root met, or nothing if the walk runs out of fuel or
/// passes the filesystem root.
pub open spec fn repo_root_from(fs: FsModel, start: Seq<Seq<char>>, fuel: nat) -> Option<
    Seq<Seq<char>>,
>
    decreases fuel,
{
    if fuel == 0 {
        None
    } else if is_repo_root(fs, start) {
        Some(start)
    } else if start.len() == 0 {
        None
    } else {
        repo_root_from(fs, start.drop_last(), (fuel - 1) as nat)
    }
}

/// `base` extended by one more component named `name`.
fn child_path(base: &Vec<String>, name: &str) -> (r: Vec<String>)
    ensures
        r.deep_view() == base.deep_view().push(name@),
{
    let mut r = base.clone();
    r.push(name.to_owned());
    proof {
        assert(r.deep_view() =~= base.deep_view().push(name@));
    }
    r
}

/// Walks upward from `start`, at each level checking for the marker
/// subdirectory and marker file, and returns the first directory satisfying
/// both; nothing once it has climbed `MAX_ASCENT` levels without success, or
/// if it passes the filesystem root first.
pub fn find_repo_root(fs: &FsModel, start: &Vec<String>) -> (r: Option<Vec<String>>)
    ensures
        r.deep_view() == repo_root_from(*fs, start.deep_view(), (MAX_ASCENT + 1) as nat),
{
    let mut current: Vec<String> = start.clone();
    let mut i: usize = 0;
    while i < MAX_ASCENT + 1
        invariant
            i <= MAX_ASCENT + 1,
            repo_root_from(*fs, start.deep_view(), (MAX_ASCENT + 1) as nat) == repo_root_from(
                *fs,
                current.deep_view(),
                (MAX_ASCENT + 1 - i) as nat,
            ),
        decreases MAX_ASCENT + 1 - i,
    {
        let marker_dir = child_path(&current, "humblebundle_downloader");
        if fs.is_dir(&marker_dir) {
            let marker_file = child_path(&current, "pyproject.toml");
            if fs.entry_exists(&marker_file) {
                return Some(current);
            }
        }
        if current.len() == 0 {
            return None;
        }
        let ghost pre = current.deep_view();
        let _ = current.pop();
        proof {
            assert(current.deep_view() =~= pre.drop_last());
        }
        i += 1;
    }
    None
}

/// The project root the launcher settles on: the first found walking up from
/// the working directory, else the first found walking up from the directory
/// holding the running executable.
pub open spec fn locate_spec(
    fs: FsModel,
    cwd: Seq<Seq<char>>,
    exe_dir: Option<Seq<Seq<char>>>,
) -> Option<Seq<Seq<char>>> {
    match repo_root_from(fs, cwd, (MAX_ASCENT + 1) as nat) {
        Some(root) => Some(root),
        None => match exe_dir {
            Some(e) => repo_root_from(fs, e, (MAX_ASCENT + 1) as nat),
            None => None,
        },
    }
}

/// Tries the working directory first, then the executable's directory.
pub fn locate_project_root(
    fs: &FsModel,
    cwd: &Vec<String>,
    exe_dir: &Option<Vec<String>>,
) -> (r: Option<Vec<String>>)
    ensures
        r.deep_view() == locate_spec(*fs, cwd.deep_view(), exe_dir.deep_view()),
{
    let from_cwd = find_repo_root(fs, cwd);
    if from_cwd.is_some() {
        return from_cwd;
    }
    match exe_dir {
        Some(e) => find_repo_root(fs, e),
        None => None,
    }
}

/// The bundled interpreter's location under a project root, Windows layout.
pub open spec fn venv_rel_windows() -> Seq<Seq<char>> {
    seq!["desktop"@, "tauri-app"@, ".venv"@, "Scripts"@, "python.exe"@]
}

/// The bundled interpreter's location under a project root, Unix layout.
pub open spec fn venv_rel_unix() -> Seq<Seq<char>> {
    seq!["desktop"@, "tauri-app"@, ".venv"@, "bin"@, "python"@]
}

/// Where the bundled-interpreter probe lands: under the located project root,
/// the Windows layout if present, else the Unix layout if present, else
/// nothing; nothing too when no project root is found.
pub open spec fn bundled_python_spec(
    fs: FsModel,
    cwd: Seq<Seq<char>>,
    exe_dir: Option<Seq<Seq<char>>>,
) -> Option<Seq<Seq<char>>> {
    match locate_spec(fs, cwd, exe_dir) {
        None => None,
        Some(root) => if fs.has_entry(root + venv_rel_windows()) {
            Some(root + venv_rel_windows())
        } else if fs.has_entry(root + venv_rel_unix()) {
            Some(root + venv_rel_unix())
        } else {
            None
        },
    }
}

/// `root` extended by the Windows-layout interpreter components.
fn venv_windows_path(root: &Vec<String>) -> (r: Vec<String>)
    ensures
        r.deep_view() == root.deep_view() + venv_rel_windows(),
{
    let r = child_path(root, "desktop");
    let r = child_path(&r, "tauri-app");
    let r = child_path(&r, ".venv");
    let r = child_path(&r, "Scripts");
    let r = child_path(&r, "python.exe");
    proof {
        assert(r.deep_view() =~= root.deep_view() + venv_rel_windows());
    }
    r
}

/// `root` extended by the Unix-layout interpreter components.
fn venv_unix_path(root: &Vec<String>) -> (r: Vec<String>)
    ensures
        r.deep_view() == root.deep_view() + venv_rel_unix(),
{
    let r = child_path(root, "desktop");
    let r = child_path(&r, "tauri-app");
    let r = child_path(&r, ".venv");
    let r = child_path(&r, "bin");
    let r = child_path(&r, "python");
    proof {
        assert(r.deep_view() =~= root.deep_view() + venv_rel_unix());
    }
    r
}

/// Probes the two bundled-interpreter layouts under the located project root,
/// Windows layout first, and returns the first that exists in the snapshot.
pub fn bundled_python_path(
    fs: &FsModel,
    cwd: &Vec<String>,
    exe_dir: &Option<Vec<String>>,
) -> (r: Option<Vec<String>>)
    ensures
        r.deep_view() == bundled_python_spec(*fs, cwd.deep_view(), exe_dir.deep_view()),
{
    match locate_project_root(fs, cwd, exe_dir) {
        None => None,
        Some(root) => {
            let win = venv_windows_path(&root);
            if fs.entry_exists(&win) {
                return Some(win);
            }
            let unix = venv_unix_path(&root);
            if fs.entry_exists(&unix) {
                return Some(unix);
            }
            None
        },
    }
}

/// With both bundled layouts present, resolution yields the Windows-style
/// path, because the probe order tries it first; with neither present it
/// yields nothing.
pub proof fn lemma_bundled_probe_order(
    fs: FsModel,
    cwd: Seq<Seq<char>>,
    exe_dir: Option<Seq<Seq<char>>>,
    root: Seq<Seq<char>>,
)
    requires
        locate_spec(fs, cwd, exe_dir) == Some(root),
    ensures
        fs.has_entry(root + venv_rel_windows()) && fs.has_entry(root + venv_rel_unix())
            ==> bundled_python_spec(fs, cwd, exe_dir) == Some(root + venv_rel_windows()),
        !fs.has_entry(root + venv_rel_windows()) && !fs.has_entry(root + venv_rel_unix())
            ==> bundled_python_spec(fs, cwd, exe_dir) is None,
{
}

/// Which script interpreter a bootstrap script is run with.
#[derive(Clone, Copy, PartialEq, Eq, Structural, Debug)]
pub enum ShellKind {
    PowerShell,
    Posix,
}

/// A bootstrap script to run: which interpreter, and the script's path.
pub struct ScriptCall {
    pub shell: ShellKind,
    pub script: Vec<String>,
}

/// Where bootstrap scripts live relative to the base directory.
pub open spec fn bootstrap_rel(name: Seq<char>) -> Seq<Seq<char>> {
    seq!["desktop"@, "tauri-app"@, name]
}

/// The base directory under which bootstrap scripts are sought: the located
/// project root, falling back to the working directory.
pub open spec fn bootstrap_base(
    fs: FsModel,
    cwd: Seq<Seq<char>>,
    exe_dir: Option<Seq<Seq<char>>>,
) -> Seq<Seq<char>> {
    match locate_spec(fs, cwd, exe_dir) {
        Some(root) => root,
        None => cwd,
    }
}

/// The bootstrap script the launcher would run: the PowerShell script if it
/// exists, else the POSIX script if it exists, else nothing.
pub open spec fn bootstrap_script_spec(
    fs: FsModel,
    cwd: Seq<Seq<char>>,
    exe_dir: Option<Seq<Seq<char>>>,
) -> Option<(ShellKind, Seq<Seq<char>>)> {
    let base = bootstrap_base(fs, cwd, exe_dir);
    if fs.has_entry(base + bootstrap_rel("bootstrap.ps1"@)) {
        Some((ShellKind::PowerShell, base + bootstrap_rel("bootstrap.ps1"@)))
    } else if fs.has_entry(base + bootstrap_rel("bootstrap.sh"@)) {
        Some((ShellKind::Posix, base + bootstrap_rel("bootstrap.sh"@)))
    } else {
        None
    }
}

/// `base` extended by the bootstrap-script components for `name`.
fn bootstrap_path(base: &Vec<String>, name: &str) -> (r: Vec<String>)
    ensures
        r.deep_view() == base.deep_view() + bootstrap_rel(name@),
{
    let r = child_path(base, "desktop");
    let r = child_path(&r, "tauri-app");
    let r = child_path(&r, name);
    proof {
        assert(r.deep_view() =~= base.deep_view() + bootstrap_rel(name@));
    }
    r
}

/// Picks the bootstrap script to provision the bundled interpreter with,
/// preferring the PowerShell variant over the POSIX one.
pub fn bootstrap_script(
    fs: &FsModel,
    cwd: &Vec<String>,
    exe_dir: &Option<Vec<String>>,
) -> (r: Option<ScriptCall>)
    ensures
        match r {
            Some(call) => bootstrap_script_spec(*fs, cwd.deep_view(), exe_dir.deep_view())
                == Some((call.shell, call.script.deep_view())),
            None => bootstrap_script_spec(*fs, cwd.deep_view(), exe_dir.deep_view()) is None,
        },
{
    let base = match locate_project_root(fs, cwd, exe_dir) {
        Some(root) => root,
        None => cwd.clone(),
    };
    let ps1 = bootstrap_path(&base, "bootstrap.ps1");
    if fs.entry_exists(&ps1) {
        return Some(ScriptCall { shell: ShellKind::PowerShell, script: ps1 });
    }
    let sh = bootstrap_path(&base, "bootstrap.sh");
    if fs.entry_exists(&sh) {
        return Some(ScriptCall { shell: ShellKind::Posix, script: sh });
    }
    None
}

/// Walking up from a directory that lies below a project root finds that
/// root, provided the start lies fewer than `fuel` levels below it and no
/// directory strictly between the start and the root is itself a project
/// root. The walk runs with fuel `MAX_ASCENT + 1`, so any start at depth up
/// to `MAX_ASCENT` below the root resolves to it.
pub proof fn lemma_ascent_finds_root(
    fs: FsModel,
    root: Seq<Seq<char>>,
    start: Seq<Seq<char>>,
    fuel: nat,
)
    requires
        is_repo_root(fs, root),
        root.len() <= start.len(),
        start.len() - root.len() < fuel,
        start.take(root.len() as int) == root,
        forall|k: int|
            root.len() < k <= start.len() ==> !is_repo_root(fs, #[trigger] start.take(k)),
    ensures
        repo_root_from(fs, start, fuel) == Some(root),
    decreases start.len(),
{
    if start.len() == root.len() {
        assert(start.take(root.len() as int) =~= start);
        assert(is_repo_root(fs, start));
    } else {
        assert(start.take(start.len() as int) =~= start);
        assert(!is_repo_root(fs, start));
        let parent = start.drop_last();
        assert(parent =~= start.take(start.len() - 1));
        assert(parent.take(root.len() as int) =~= start.take(root.len() as int));
        assert forall|k: int| root.len() < k <= parent.len() implies !is_repo_root(
            fs,
            #[trigger] parent.take(k),
        ) by {
            assert(parent.take(k) =~= start.take(k));
        }
        lemma_ascent_finds_root(fs, root, parent, (fuel - 1) as nat);
    }
}

/// If none of the directories the bounded walk can reach — the start and its
/// nearest `fuel - 1` ancestors — is a project root, the walk returns
/// nothing. With the walk's fuel of `MAX_ASCENT + 1`, a start lying more
/// than `MAX_ASCENT` levels below the only project root resolves to nothing.
pub proof fn lemma_ascent_misses(fs: FsModel, start: Seq<Seq<char>>, fuel: nat)
    requires
        forall|j: int|
            0 <= j <= start.len() && start.len() - fuel < j ==> !is_repo_root(
                fs,
                #[trigger] start.take(j),
            ),
    ensures
        repo_root_from(fs, start, fuel) is None,
    decreases fuel,
{
    if fuel == 0 {
    } else {
        assert(start.take(start.len() as int) =~= start);
        assert(!is_repo_root(fs, start));
        if start.len() == 0 {
        } else {
            let parent = start.drop_last();
            assert(parent =~= start.take(start.len() - 1));
            assert forall|j: int|
                0 <= j <= parent.len() && parent.len() - (fuel - 1) < j implies !is_repo_root(
                fs,
                #[trigger] parent.take(j),
            ) by {
                assert(parent.take(j) =~= start.take(j));
            }
            lemma_ascent_misses(fs, parent, (fuel - 1) as nat);
        }
    }
}

/// Component-wise path equality.
pub fn path_eq(a: &Vec<String>, b: &Vec<String>) -> (r: bool)
    ensures
        r == (a.deep_view() == b.deep_view()),
{
    if a.len() != b.len() {
        assert(a.deep_view().len() != b.deep_view().len());
        return false;
    }
    let mut i: usize = 0;
    while i < a.len()
        invariant
            i <= a.len(),
            a.len() == b.len(),
            forall|k: int| 0 <= k < i ==> a.deep_view()[k] == b.deep_view()[k],
        decreases a.len() - i,
    {
        if !(a[i] == b[i]) {
            assert(a.deep_view()[i as int] != b.deep_view()[i as int]);
            return false;
        }
        i += 1;
    }
    assert(a.deep_view() =~= b.deep_view());
    true
}

} // verus!
