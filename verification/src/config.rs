//! The persisted configuration: the root directory under which stash files
//! live, and the computation of the per-repository, per-branch stash file
//! path beneath it.

use vstd::prelude::*;

use crate::text::{ends_with, starts_with};

verus! {

/// Why the configuration could not be read.
#[derive(Debug)]
pub enum LoadConfigError {
    /// The configuration file does not exist; the caller creates a default
    /// instead of failing.
    FileNotFound,
    /// The file exists but could not be read; carries the reported reason.
    IOError(String),
    /// The file could not be parsed; carries the reported reason.
    TomlError(String),
}

/// Why the configuration could not be written.
#[derive(Debug)]
pub enum SaveConfigError {
    IOError(String),
    TomlError(String),
}

/// The persisted configuration: stash files live directly under
/// `root_directory`.
#[derive(Debug, Clone)]
pub struct Config {
    pub root_directory: String,
}

/// The stash file path: `<root>/<repository> - <branch>.stash`. Distinct
/// (repository, branch) pairs map to distinct file names.
pub open spec fn spec_stash_filepath(root: Seq<char>, repo: Seq<char>, branch: Seq<char>) -> Seq<
    char,
> {
    root + "/"@ + repo + " - "@ + branch + ".stash"@
}

/// Relies on `directories::ProjectDirs`: an opaque handle to the platform's
/// standard per-project directories.
#[verifier::external_type_specification]
#[verifier::external_body]
pub struct ExProjectDirs(directories::ProjectDirs);

/// Relies on `directories::ProjectDirs::from`, which derives the project's
/// standard directories from operating-system conventions and the
/// environment, and returns `None` when no home directory is available.
/// The result depends on the environment, so nothing is stated of it.
#[verifier::external_body]
fn project_dirs_from(qualifier: &str, organization: &str, application: &str) -> Option<
    directories::ProjectDirs,
> {
    directories::ProjectDirs::from(qualifier, organization, application)
}

/// Relies on `directories::ProjectDirs::config_dir`; the path depends on the
/// machine's environment, so nothing is stated of it.
#[verifier::external_body]
fn project_config_dir(dirs: &directories::ProjectDirs) -> String {
    dirs.config_dir().to_string_lossy().into_owned()
}

/// Relies on `directories::ProjectDirs::data_local_dir`; the path depends on
/// the machine's environment, so nothing is stated of it.
#[verifier::external_body]
fn project_data_local_dir(dirs: &directories::ProjectDirs) -> String {
    dirs.data_local_dir().to_string_lossy().into_owned()
}

impl Config {
    pub fn new(root_directory: String) -> (c: Config)
        ensures
            c.root_directory == root_directory,
    {
        Config { root_directory }
    }

    /// The platform's per-user configuration file for this tool: the
    /// project's standard configuration directory, `config.toml` below it.
    /// `None` when the platform offers no home directory.
    pub fn get_default_config_filepath() -> (r: Option<String>)
        ensures
            r matches Some(p) ==> ends_with(p@, "/config.toml"@),
    {
        match project_dirs_from("", "", "git_progress_sync") {
            None => None,
            Some(dirs) => {
                let dir = project_config_dir(&dirs);
                let p = dir.concat("/config.toml");
                proof {
                    assert((dir@ + "/config.toml"@).skip(dir@.len() as int) =~= "/config.toml"@);
                }
                Some(p)
            },
        }
    }

    /// The default root directory for stash files: `stashes` under the
    /// project's standard local data directory. `None` when the platform
    /// offers no home directory.
    pub fn get_default_root_directory() -> (r: Option<String>)
        ensures
            r matches Some(p) ==> ends_with(p@, "/stashes"@),
    {
        match project_dirs_from("", "", "git_progress_sync") {
            None => None,
            Some(dirs) => {
                let dir = project_data_local_dir(&dirs);
                let p = dir.concat("/stashes");
                proof {
                    assert((dir@ + "/stashes"@).skip(dir@.len() as int) =~= "/stashes"@);
                }
                Some(p)
            },
        }
    }

    /// A configuration pointing at the default root directory, or `None`
    /// when the platform offers no home directory.
    pub fn default() -> (r: Option<Config>)
        ensures
            r matches Some(c) ==> ends_with(c.root_directory@, "/stashes"@),
    {
        match Self::get_default_root_directory() {
            None => None,
            Some(root_directory) => Some(Config { root_directory }),
        }
    }

    /// The path of the stash file for the given repository and branch:
    /// `<root_directory>/<repo_name> - <branch_name>.stash`.
    pub fn get_stash_filepath(&self, repo_name: &str, branch_name: &str) -> (r: String)
        ensures
            r@ == spec_stash_filepath(self.root_directory@, repo_name@, branch_name@),
    {
        let mut r = self.root_directory.clone();
        r.append("/");
        r.append(repo_name);
        r.append(" - ");
        r.append(branch_name);
        r.append(".stash");
        r
    }
}

/// The stash file path always lies under the configured root directory: it
/// is the root followed by a separator and the file name, so a configured
/// root is the one the path is computed beneath.
pub proof fn lemma_stash_path_under_root(root: Seq<char>, repo: Seq<char>, branch: Seq<char>)
    ensures
        starts_with_root(spec_stash_filepath(root, repo, branch), root),
{
    let p = spec_stash_filepath(root, repo, branch);
    reveal_strlit("/");
    assert(p.len() >= root.len() + 1);
    assert(p.take(root.len() as int) =~= root);
    assert(p[root.len() as int] == '/');
}

/// `path` begins with `root` followed by a `/` separator.
pub open spec fn starts_with_root(path: Seq<char>, root: Seq<char>) -> bool {
    starts_with(path, root) && path.len() > root.len() && path[root.len() as int] == '/'
}

} // verus!
