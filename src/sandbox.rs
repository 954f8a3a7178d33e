//! How strictly a spawned process is confined: which paths it may touch and
//! which environment it starts with.

use vstd::prelude::*;
use vstd::string::*;

use crate::text::{has_prefix, str_starts_with};

verus! {

/// How strictly a process is confined.
#[derive(Debug, Clone, Copy, PartialEq, Eq, Structural)]
pub enum IsolationLevel {
    Unconfined,
    Basic,
    Strict,
    VeryStrict,
}

/// Whether `path` may be accessed under `level`: anything under `/` with no
/// isolation, `/tmp` or `/home` under basic isolation, only `/tmp` above that.
pub open spec fn path_allowed(level: IsolationLevel, path: Seq<char>) -> bool {
    match level {
        IsolationLevel::Unconfined => has_prefix(path, "/"@),
        IsolationLevel::Basic => has_prefix(path, "/tmp"@) || has_prefix(path, "/home"@),
        _ => has_prefix(path, "/tmp"@),
    }
}

/// The environment a process starts with under `level`: whether the
/// inherited environment is cleared, and the variables then set, in order.
pub open spec fn env_plan(level: IsolationLevel) -> (bool, Seq<(Seq<char>, Seq<char>)>) {
    match level {
        IsolationLevel::Unconfined => (false, seq![]),
        IsolationLevel::Basic => (true, seq![("PATH"@, "/usr/bin:/bin"@), ("HOME"@, "/tmp"@)]),
        IsolationLevel::Strict => (
            true,
            seq![("PATH"@, "/usr/bin:/bin"@), ("HOME"@, "/tmp"@), ("TMPDIR"@, "/tmp"@)],
        ),
        IsolationLevel::VeryStrict => (
            true,
            seq![("PATH"@, ""@), ("HOME"@, "/tmp"@), ("TMPDIR"@, "/tmp"@)],
        ),
    }
}

/// The views of a list of variable settings.
pub open spec fn var_views(v: Seq<(String, String)>) -> Seq<(Seq<char>, Seq<char>)> {
    v.map_values(|p: (String, String)| (p.0@, p.1@))
}

/// The environment to give a confined process.
#[derive(Debug)]
pub struct EnvPlan {
    /// Whether the inherited environment is cleared first.
    pub clear: bool,
    /// The variables to set, in order.
    pub vars: Vec<(String, String)>,
}

/// A confinement level and an optional working directory for processes.
pub struct Sandbox {
    isolation_level: IsolationLevel,
    work_dir: Option<String>,
}

impl Sandbox {
    /// The level of this sandbox.
    pub closed spec fn level(&self) -> IsolationLevel {
        self.isolation_level
    }

    /// The working directory of this sandbox, if set.
    pub closed spec fn dir(&self) -> Option<Seq<char>> {
        match self.work_dir {
            Some(d) => Some(d@),
            None => None,
        }
    }

    /// A sandbox at `isolation_level` with no working directory.
    pub fn new(isolation_level: IsolationLevel) -> (r: Sandbox)
        ensures
            r.level() == isolation_level,
            r.dir() is None,
    {
        Sandbox { isolation_level, work_dir: None }
    }

    /// The same sandbox, running processes in `work_dir`.
    pub fn with_work_dir(self, work_dir: String) -> (r: Sandbox)
        ensures
            r.level() == self.level(),
            r.dir() == Some(work_dir@),
    {
        Sandbox { isolation_level: self.isolation_level, work_dir: Some(work_dir) }
    }

    /// The working directory, if set.
    pub fn work_dir(&self) -> (r: Option<String>)
        ensures
            match r {
                Some(d) => self.dir() == Some(d@),
                None => self.dir() is None,
            },
    {
        match &self.work_dir {
            Some(d) => Some(d.clone()),
            None => None,
        }
    }

    /// Whether `path` may be accessed from inside this sandbox.
    pub fn is_path_allowed(&self, path: &str) -> (r: bool)
        ensures
            r == path_allowed(self.level(), path@),
    {
        match self.isolation_level {
            IsolationLevel::Unconfined => str_starts_with(path, "/"),
            IsolationLevel::Basic => str_starts_with(path, "/tmp") || str_starts_with(path, "/home"),
            _ => str_starts_with(path, "/tmp"),
        }
    }

    /// The confinement level.
    pub fn isolation_level(&self) -> (r: IsolationLevel)
        ensures
            r == self.level(),
    {
        self.isolation_level
    }

    /// The environment a process spawned in this sandbox starts with.
    pub fn env_plan(&self) -> (r: EnvPlan)
        ensures
            (r.clear, var_views(r.vars@)) == env_plan(self.level()),
    {
        let mut vars: Vec<(String, String)> = Vec::new();
        let clear = match self.isolation_level {
            IsolationLevel::Unconfined => false,
            IsolationLevel::Basic => {
                vars.push((String::from_str("PATH"), String::from_str("/usr/bin:/bin")));
                vars.push((String::from_str("HOME"), String::from_str("/tmp")));
                true
            },
            IsolationLevel::Strict => {
                vars.push((String::from_str("PATH"), String::from_str("/usr/bin:/bin")));
                vars.push((String::from_str("HOME"), String::from_str("/tmp")));
                vars.push((String::from_str("TMPDIR"), String::from_str("/tmp")));
                true
            },
            IsolationLevel::VeryStrict => {
                vars.push((String::from_str("PATH"), String::from_str("")));
                vars.push((String::from_str("HOME"), String::from_str("/tmp")));
                vars.push((String::from_str("TMPDIR"), String::from_str("/tmp")));
                true
            },
        };
        assert(var_views(vars@) =~= env_plan(self.level()).1);
        EnvPlan { clear, vars }
    }
}

impl Default for Sandbox {
    fn default() -> (r: Sandbox)
        ensures
            r.level() == IsolationLevel::Basic,
            r.dir() is None,
    {
        Sandbox::new(IsolationLevel::Basic)
    }
}

} // verus!
