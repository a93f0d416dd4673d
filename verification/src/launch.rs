use crate::error::{BackendError, BackendErrorView, PathKind};
use vstd::prelude::*;

verus! {

/// A filesystem path together with what the host observed of it.
#[derive(Debug)]
pub struct ProbedPath {
    pub path: String,
    pub exists: bool,
}

/// What the host knows when a start is requested: the outcome of resolving
/// its application-data directory, and the three entries a launch needs.
#[derive(Debug)]
pub struct LaunchContext {
    pub app_data_dir: Result<String, String>,
    pub backend_dir: ProbedPath,
    pub config_file: ProbedPath,
    pub data_dir: ProbedPath,
}

/// One environment variable handed to the child.
#[derive(Debug)]
pub struct EnvVar {
    pub name: String,
    pub value: String,
}

/// How the child process is to be spawned.
#[derive(Debug)]
pub struct LaunchConfig {
    pub working_dir: String,
    pub program: String,
    pub args: Vec<String>,
    pub env: Vec<EnvVar>,
}

/// A `ProbedPath` with its path as a sequence of characters.
pub struct ProbedPathView {
    pub path: Seq<char>,
    pub exists: bool,
}

/// A `LaunchContext` with its texts as sequences of characters.
pub struct LaunchContextView {
    pub app_data_dir: Result<Seq<char>, Seq<char>>,
    pub backend_dir: ProbedPathView,
    pub config_file: ProbedPathView,
    pub data_dir: ProbedPathView,
}

/// A `LaunchConfig` with its texts as sequences of characters, and each
/// environment variable as a pair of name and value.
pub struct LaunchConfigView {
    pub working_dir: Seq<char>,
    pub program: Seq<char>,
    pub args: Seq<Seq<char>>,
    pub env: Seq<(Seq<char>, Seq<char>)>,
}

impl View for ProbedPath {
    type V = ProbedPathView;

    open spec fn view(&self) -> ProbedPathView {
        ProbedPathView { path: self.path@, exists: self.exists }
    }
}

impl View for LaunchContext {
    type V = LaunchContextView;

    open spec fn view(&self) -> LaunchContextView {
        LaunchContextView {
            app_data_dir: match self.app_data_dir {
                Ok(dir) => Ok(dir@),
                Err(reason) => Err(reason@),
            },
            backend_dir: self.backend_dir@,
            config_file: self.config_file@,
            data_dir: self.data_dir@,
        }
    }
}

impl View for LaunchConfig {
    type V = LaunchConfigView;

    open spec fn view(&self) -> LaunchConfigView {
        LaunchConfigView {
            working_dir: self.working_dir@,
            program: self.program@,
            args: Seq::new(self.args@.len(), |i: int| self.args@[i]@),
            env: Seq::new(self.env@.len(), |i: int| (self.env@[i].name@, self.env@[i].value@)),
        }
    }
}

/// The executable that runs the server.
pub open spec fn server_program() -> Seq<char> {
    "python3"@
}

/// The arguments that select the embedded HTTP server, bound to the loopback
/// address on port 8000.
pub open spec fn server_args() -> Seq<Seq<char>> {
    seq![
        "-m"@,
        "uvicorn"@,
        "api.server:app"@,
        "--host"@,
        "127.0.0.1"@,
        "--port"@,
        "8000"@,
    ]
}

/// The variable that tells the child where its configuration file is.
pub open spec fn config_path_var() -> Seq<char> {
    "GMAPS_CONFIG_PATH"@
}

/// The variable that tells the child where its data directory is.
pub open spec fn data_path_var() -> Seq<char> {
    "GMAPS_DATA_PATH"@
}

impl LaunchConfigView {
    /// No variable is named twice.
    pub open spec fn env_names_unique(self) -> bool {
        forall|i: int, j: int|
            0 <= i < j < self.env.len() ==> (#[trigger] self.env[i]).0 != (#[trigger] self.env[j]).0
    }

    /// The environment as a mapping from names to values.
    pub open spec fn env_map(self) -> Map<Seq<char>, Seq<char>> {
        Map::new(
            |name: Seq<char>| exists|i: int| 0 <= i < self.env.len() && self.env[i].0 == name,
            |name: Seq<char>|
                self.env[choose|i: int| 0 <= i < self.env.len() && self.env[i].0 == name].1,
        )
    }
}

impl LaunchContextView {
    /// The first required entry that is absent, in the order backend
    /// directory, configuration file, data directory.
    pub open spec fn first_missing(self) -> Option<(PathKind, Seq<char>)> {
        if !self.backend_dir.exists {
            Some((PathKind::BackendDirectory, self.backend_dir.path))
        } else if !self.config_file.exists {
            Some((PathKind::ConfigFile, self.config_file.path))
        } else if !self.data_dir.exists {
            Some((PathKind::DataDirectory, self.data_dir.path))
        } else {
            None
        }
    }

    /// The launch configuration that this context gives: the child runs in
    /// the backend directory and learns the two paths from its environment.
    pub open spec fn launch_config(self) -> LaunchConfigView {
        LaunchConfigView {
            working_dir: self.backend_dir.path,
            program: server_program(),
            args: server_args(),
            env: seq![
                (config_path_var(), self.config_file.path),
                (data_path_var(), self.data_dir.path),
            ],
        }
    }

    /// What a launch from this context comes to: the configuration to spawn
    /// with, or the reason why nothing may be spawned.
    pub open spec fn plan(self) -> Result<LaunchConfigView, BackendErrorView> {
        match self.app_data_dir {
            Err(reason) => Err(BackendErrorView::DirectoryResolution { reason }),
            Ok(_) => match self.first_missing() {
                Some((kind, path)) => Err(BackendErrorView::PathNotFound { kind, path }),
                None => Ok(self.launch_config()),
            },
        }
    }
}

/// The two variable names differ, so a launch configuration names no
/// variable twice, and its environment maps each name to its path.
pub proof fn lemma_launch_env(ctx: LaunchContextView)
    ensures
        config_path_var() != data_path_var(),
        ctx.launch_config().env_names_unique(),
        ctx.launch_config().env_map().dom() =~= set![config_path_var(), data_path_var()],
        ctx.launch_config().env_map()[config_path_var()] == ctx.config_file.path,
        ctx.launch_config().env_map()[data_path_var()] == ctx.data_dir.path,
{
    reveal_strlit("GMAPS_CONFIG_PATH");
    reveal_strlit("GMAPS_DATA_PATH");
    let config = ctx.launch_config();
    assert(config_path_var().len() != data_path_var().len());
    assert(config.env[0].0 == config_path_var());
    assert(config.env[1].0 == data_path_var());
    assert(config.env_map().dom().contains(config_path_var()));
    assert(config.env_map().dom().contains(data_path_var()));
}

impl LaunchContext {
    /// The first required entry that is absent, if any.
    pub fn first_missing(&self) -> (missing: Option<(PathKind, String)>)
        ensures
            match missing {
                Some((kind, path)) => self@.first_missing() == Some((kind, path@)),
                None => self@.first_missing().is_none(),
            },
    {
        if !self.backend_dir.exists {
            Some((PathKind::BackendDirectory, self.backend_dir.path.clone()))
        } else if !self.config_file.exists {
            Some((PathKind::ConfigFile, self.config_file.path.clone()))
        } else if !self.data_dir.exists {
            Some((PathKind::DataDirectory, self.data_dir.path.clone()))
        } else {
            None
        }
    }

    /// The launch configuration that this context gives. The paths are not
    /// tested here: `plan` does that first.
    pub fn launch_config(&self) -> (config: LaunchConfig)
        ensures
            config@ == self@.launch_config(),
            config@.env_names_unique(),
    {
        let mut args: Vec<String> = Vec::new();
        args.push(String::from_str("-m"));
        args.push(String::from_str("uvicorn"));
        args.push(String::from_str("api.server:app"));
        args.push(String::from_str("--host"));
        args.push(String::from_str("127.0.0.1"));
        args.push(String::from_str("--port"));
        args.push(String::from_str("8000"));
        let mut env: Vec<EnvVar> = Vec::new();
        env.push(
            EnvVar {
                name: String::from_str("GMAPS_CONFIG_PATH"),
                value: self.config_file.path.clone(),
            },
        );
        env.push(
            EnvVar { name: String::from_str("GMAPS_DATA_PATH"), value: self.data_dir.path.clone() },
        );
        let config = LaunchConfig {
            working_dir: self.backend_dir.path.clone(),
            program: String::from_str("python3"),
            args,
            env,
        };
        proof {
            lemma_launch_env(self@);
            assert(config@.args =~= server_args());
            assert(config@.env =~= self@.launch_config().env);
        }
        config
    }

    /// Validates the context and builds the launch configuration: an error
    /// where the application-data directory was not resolved, else where a
    /// required entry is absent (the first such entry is named), else the
    /// configuration.
    pub fn plan(&self) -> (planned: Result<LaunchConfig, BackendError>)
        ensures
            match planned {
                Ok(config) => {
                    &&& self@.plan() == Ok::<LaunchConfigView, BackendErrorView>(config@)
                    &&& config@.env_names_unique()
                },
                Err(error) => self@.plan() == Err::<LaunchConfigView, BackendErrorView>(error@),
            },
    {
        match &self.app_data_dir {
            Err(reason) => Err(BackendError::DirectoryResolution { reason: reason.clone() }),
            Ok(_) => match self.first_missing() {
                Some((kind, path)) => Err(BackendError::PathNotFound { kind, path }),
                None => Ok(self.launch_config()),
            },
        }
    }
}

} // verus!
