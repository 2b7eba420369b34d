//! Construction of the child process's launch environment.

use crate::paths::FsModel;
use crate::paths::locate_project_root;
use crate::paths::locate_spec;
use vstd::prelude::*;

verus! {

broadcast use vstd::std_specs::vec::vec_clone_deep_view_proof;

/// The string form of a component path: components joined by `sep`.
pub open spec fn join_seq(p: Seq<Seq<char>>, sep: Seq<char>) -> Seq<char>
    decreases p.len(),
{
    if p.len() == 0 {
        Seq::empty()
    } else if p.len() == 1 {
        p[0]
    } else {
        join_seq(p.drop_last(), sep) + sep + p.last()
    }
}

/// Joins path components with the platform separator.
pub fn join_path(p: &Vec<String>, sep: &str) -> (r: String)
    ensures
        r@ == join_seq(p.deep_view(), sep@),
{
    if p.len() == 0 {
        return String::new();
    }
    let mut acc: String = p[0].clone();
    let mut i: usize = 1;
    while i < p.len()
        invariant
            1 <= i <= p.len(),
            acc@ == join_seq(p.deep_view().take(i as int), sep@),
        decreases p.len() - i,
    {
        acc.append(sep);
        acc.append(p[i].as_str());
        proof {
            let dv = p.deep_view();
            assert(dv.take(i + 1).drop_last() =~= dv.take(i as int));
            assert(dv.take(i + 1).last() == dv[i as int]);
        }
        i += 1;
    }
    proof {
        assert(p.deep_view().take(p.len() as int) =~= p.deep_view());
    }
    acc
}

/// The child's module search path: the working directory's string form,
/// keeping any non-empty pre-existing value after a separator.
pub open spec fn merged_pythonpath_spec(
    workdir: Seq<char>,
    existing: Option<Seq<char>>,
    sep: Seq<char>,
) -> Seq<char> {
    match existing {
        Some(e) => if e.len() > 0 {
            workdir + sep + e
        } else {
            workdir
        },
        None => workdir,
    }
}

/// Prepends the working directory to the pre-existing search-path value.
pub fn merged_pythonpath(workdir: &str, existing: &Option<String>, sep: &str) -> (r: String)
    ensures
        r@ == merged_pythonpath_spec(workdir@, existing.deep_view(), sep@),
{
    match existing {
        Some(e) => {
            if e.as_str().is_empty() {
                workdir.to_owned()
            } else {
                let mut r = workdir.to_owned();
                r.append(sep);
                r.append(e.as_str());
                r
            }
        },
        None => workdir.to_owned(),
    }
}

/// With a non-empty pre-existing search-path value, the merged variable is
/// exactly the working directory's string, then the separator, then the old
/// value; in particular it begins with the working directory followed by the
/// separator.
pub proof fn lemma_merge_preserves_existing(
    workdir: Seq<char>,
    existing: Seq<char>,
    sep: Seq<char>,
)
    requires
        existing.len() > 0,
    ensures
        merged_pythonpath_spec(workdir, Some(existing), sep) == workdir + sep + existing,
        merged_pythonpath_spec(workdir, Some(existing), sep).take(
            workdir.len() + sep.len() as int,
        ) == workdir + sep,
{
    assert((workdir + sep + existing).take(workdir.len() + sep.len() as int) =~= workdir + sep);
}

/// Everything the launcher reads from its surroundings before starting the
/// child: override variables, the pre-existing search-path value, the
/// platform separator, the working directory, and the running executable's
/// directory.
pub struct StartConfig {
    /// Interpreter-path override; ignored when empty.
    pub python_override: Option<String>,
    /// Serving-port override.
    pub port_override: Option<String>,
    /// Working-directory override.
    pub workdir_override: Option<Vec<String>>,
    /// Pre-existing search-path variable value.
    pub pythonpath: Option<String>,
    /// The platform's path separator, as a one-character string.
    pub path_sep: String,
    /// The process's current working directory.
    pub cwd: Vec<String>,
    /// The directory holding the running executable, when known.
    pub exe_dir: Option<Vec<String>>,
}

/// The port the child serves on: the override if set, else the default.
pub open spec fn default_port() -> Seq<char> {
    "8000"@
}

/// The port handed to the child.
pub open spec fn port_spec(cfg: StartConfig) -> Seq<char> {
    match cfg.port_override {
        Some(p) => p@,
        None => default_port(),
    }
}

/// The child's working directory: the override if set, else the resolved
/// project root (sought from the current directory, then from the
/// executable's directory), else the current directory.
pub open spec fn workdir_spec(cfg: StartConfig, fs: FsModel) -> Seq<Seq<char>> {
    match cfg.workdir_override {
        Some(w) => w.deep_view(),
        None => match locate_spec(fs, cfg.cwd.deep_view(), cfg.exe_dir.deep_view()) {
            Some(root) => root,
            None => cfg.cwd.deep_view(),
        },
    }
}

/// The arguments selecting the backend server entry point.
pub open spec fn module_args() -> Seq<Seq<char>> {
    seq!["-m"@, "humblebundle_downloader.ui_server"@]
}

/// Everything needed to spawn the child: program, arguments, working
/// directory, and the environment additions.
pub struct LaunchPlan {
    /// The interpreter to execute.
    pub program: String,
    /// Arguments selecting the backend server entry point.
    pub args: Vec<String>,
    /// The child's working directory, as components.
    pub workdir: Vec<String>,
    /// Value for the serving-port variable.
    pub port: String,
    /// Value for the unbuffered-output variable.
    pub unbuffered: String,
    /// Value for the merged module search-path variable.
    pub pythonpath: String,
}

/// `plan` is the launch plan the configuration and snapshot call for, with
/// `program` as the interpreter.
pub open spec fn plan_matches(
    cfg: StartConfig,
    fs: FsModel,
    program: Seq<char>,
    plan: LaunchPlan,
) -> bool {
    &&& plan.program@ == program
    &&& plan.args.deep_view() == module_args()
    &&& plan.workdir.deep_view() == workdir_spec(cfg, fs)
    &&& plan.port@ == port_spec(cfg)
    &&& plan.unbuffered@ == "1"@
    &&& plan.pythonpath@ == merged_pythonpath_spec(
        join_seq(workdir_spec(cfg, fs), cfg.path_sep@),
        cfg.pythonpath.deep_view(),
        cfg.path_sep@,
    )
}

/// Builds the launch plan for the resolved interpreter `program`.
pub fn build_launch_plan(cfg: &StartConfig, fs: &FsModel, program: String) -> (plan: LaunchPlan)
    ensures
        plan_matches(*cfg, *fs, program@, plan),
{
    let workdir: Vec<String> = match &cfg.workdir_override {
        Some(w) => w.clone(),
        None => match locate_project_root(fs, &cfg.cwd, &cfg.exe_dir) {
            Some(root) => root,
            None => cfg.cwd.clone(),
        },
    };
    let workdir_str = join_path(&workdir, cfg.path_sep.as_str());
    let pythonpath = merged_pythonpath(
        workdir_str.as_str(),
        &cfg.pythonpath,
        cfg.path_sep.as_str(),
    );
    let port: String = match &cfg.port_override {
        Some(p) => p.clone(),
        None => "8000".to_owned(),
    };
    let mut args: Vec<String> = Vec::new();
    args.push("-m".to_owned());
    args.push("humblebundle_downloader.ui_server".to_owned());
    proof {
        assert(args.deep_view() =~= module_args());
    }
    LaunchPlan { program, args, workdir, port, unbuffered: "1".to_owned(), pythonpath }
}

/// The diagnostic reported when spawning the child fails, naming the
/// attempted command.
pub open spec fn spawn_error_spec(program: Seq<char>, detail: Seq<char>) -> Seq<char> {
    "Failed to start UI server (command: "@ + program + "): "@ + detail
}

/// Builds the spawn-failure diagnostic for `program` and the OS's `detail`.
pub fn spawn_error_message(program: &str, detail: &str) -> (r: String)
    ensures
        r@ == spawn_error_spec(program@, detail@),
{
    let mut r = "Failed to start UI server (command: ".to_owned();
    r.append(program);
    r.append("): ");
    r.append(detail);
    r
}

} // verus!
