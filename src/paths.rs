use crate::error::{ConfigError, NotFoundKind};
use vstd::prelude::*;
use vstd::string::{StrSliceExecFns, StringExecFns};

verus! {

/// The standard base64 encoding, with padding, of the UTF-8 bytes of `text`.
pub uninterp spec fn base64_of(text: Seq<char>) -> Seq<char>;

/// Relies on `base64::encode`: the standard base64 encoding of the bytes it is given.
#[verifier::external_body]
fn encode_base64(text: &str) -> (r: String)
    ensures
        r@ == base64_of(text@),
{
    base64::encode(text)
}

/// `name`, a relative path, appended to the path `base`: with a `/` between them unless
/// `base` is empty or already ends in one.
pub open spec fn join_path(base: Seq<char>, name: Seq<char>) -> Seq<char> {
    if base.len() == 0 {
        name
    } else if base.last() == '/' {
        base + name
    } else {
        base + "/"@ + name
    }
}

/// Appends the relative path `name` to `base`.
pub fn join(base: &str, name: &str) -> (r: String)
    ensures
        r@ == join_path(base@, name@),
{
    let n = base.unicode_len();
    let mut out = String::from_str(base);
    if n > 0 && base.get_char(n - 1) != '/' {
        out.append("/");
    }
    out.append(name);
    out
}

/// The environment variables that locate the directories of a running instance; `None`
/// for one that is not set.
#[derive(Debug, Clone, PartialEq, Eq)]
pub struct PathEnv {
    pub xdg_config_home: Option<String>,
    pub xdg_cache_home: Option<String>,
    pub xdg_runtime_dir: Option<String>,
    pub home: Option<String>,
}

/// The directory a value of `var`, else the directory `fallback` in the home directory.
pub open spec fn dir_or_home(var: Option<String>, home: Option<String>, fallback: Seq<char>) -> Seq<
    char,
> {
    match var {
        Some(d) => d@,
        None => join_path(home->Some_0@, fallback),
    }
}

/// The directory that holds the log files.
pub open spec fn cache_dir(env: PathEnv) -> Seq<char> {
    dir_or_home(env.xdg_cache_home, env.home, ".cache"@)
}

/// The directory that holds the sockets.
pub open spec fn runtime_dir(env: PathEnv) -> Seq<char> {
    match env.xdg_runtime_dir {
        Some(d) => d@,
        None => "/tmp"@,
    }
}

/// The configuration directory used when none is given.
pub open spec fn default_config_dir_of(env: PathEnv) -> Seq<char> {
    join_path(dir_or_home(env.xdg_config_home, env.home, ".config"@), "eww"@)
}

/// The paths of a running instance, all derived from its configuration directory.
#[derive(Debug, Clone, PartialEq, Eq)]
pub struct EwwPaths {
    log_file: String,
    ipc_socket_file: String,
    config_dir: String,
}

impl EwwPaths {
    pub closed spec fn log_file_view(&self) -> Seq<char> {
        self.log_file@
    }

    pub closed spec fn ipc_socket_file_view(&self) -> Seq<char> {
        self.ipc_socket_file@
    }

    pub closed spec fn config_dir_view(&self) -> Seq<char> {
        self.config_dir@
    }

    /// Refuses a configuration path that is a file, or that does not exist.
    pub fn check_config_dir(config_dir: &String, is_file: bool, exists: bool) -> (r: Result<
        (),
        ConfigError,
    >)
        ensures
            is_file ==> r == Err::<(), ConfigError>(
                ConfigError::ConfigNotFound { path: *config_dir, kind: NotFoundKind::FileGivenForDirectory },
            ),
            !is_file && !exists ==> r == Err::<(), ConfigError>(
                ConfigError::ConfigNotFound { path: *config_dir, kind: NotFoundKind::MissingDirectory },
            ),
            !is_file && exists ==> r == Ok::<(), ConfigError>(()),
    {
        if is_file {
            return Err(ConfigError::ConfigNotFound { path: config_dir.clone(), kind: NotFoundKind::FileGivenForDirectory });
        }
        if !exists {
            return Err(ConfigError::ConfigNotFound { path: config_dir.clone(), kind: NotFoundKind::MissingDirectory });
        }
        Ok(())
    }

    /// The paths for the canonical configuration directory `config_dir`: the log file and
    /// the socket are named after the base64 encoding of the directory, so that each
    /// directory has its own.
    pub fn from_config_dir(config_dir: String, env: &PathEnv) -> (r: EwwPaths)
        requires
            env.xdg_cache_home is Some || env.home is Some,
        ensures
            r.config_dir_view() == config_dir@,
            r.log_file_view() == join_path(
                cache_dir(*env),
                "eww_"@ + base64_of(config_dir@) + ".log"@,
            ),
            r.ipc_socket_file_view() == join_path(
                runtime_dir(*env),
                "eww-server_"@ + base64_of(config_dir@),
            ),
    {
        let daemon_id = encode_base64(config_dir.as_str());
        let cache = match &env.xdg_cache_home {
            Some(d) => d.clone(),
            None => match &env.home {
                Some(h) => join(h.as_str(), ".cache"),
                None => String::new(),
            },
        };
        let runtime = match &env.xdg_runtime_dir {
            Some(d) => d.clone(),
            None => String::from_str("/tmp"),
        };
        let mut log_name = String::from_str("eww_");
        log_name.append(daemon_id.as_str());
        log_name.append(".log");
        let mut socket_name = String::from_str("eww-server_");
        socket_name.append(daemon_id.as_str());
        let log_file = join(cache.as_str(), log_name.as_str());
        let ipc_socket_file = join(runtime.as_str(), socket_name.as_str());
        EwwPaths { config_dir, log_file, ipc_socket_file }
    }

    /// The configuration directory used when none is given: `eww` in `$XDG_CONFIG_HOME`,
    /// or in `~/.config`.
    pub fn default_config_dir(env: &PathEnv) -> (r: String)
        requires
            env.xdg_config_home is Some || env.home is Some,
        ensures
            r@ == default_config_dir_of(*env),
    {
        let base = match &env.xdg_config_home {
            Some(d) => d.clone(),
            None => match &env.home {
                Some(h) => join(h.as_str(), ".config"),
                None => String::new(),
            },
        };
        join(base.as_str(), "eww")
    }

    pub fn get_log_file(&self) -> (r: &String)
        ensures
            r@ == self.log_file_view(),
    {
        &self.log_file
    }

    pub fn get_ipc_socket_file(&self) -> (r: &String)
        ensures
            r@ == self.ipc_socket_file_view(),
    {
        &self.ipc_socket_file
    }

    pub fn get_config_dir(&self) -> (r: &String)
        ensures
            r@ == self.config_dir_view(),
    {
        &self.config_dir
    }

    /// The main configuration file.
    pub fn get_yuck_path(&self) -> (r: String)
        ensures
            r@ == join_path(self.config_dir_view(), "eww.yuck"@),
    {
        join(self.config_dir.as_str(), "eww.yuck")
    }

    /// The stylesheet.
    pub fn get_eww_scss_path(&self) -> (r: String)
        ensures
            r@ == join_path(self.config_dir_view(), "eww.scss"@),
    {
        join(self.config_dir.as_str(), "eww.scss")
    }

    /// The three paths, for display.
    pub fn to_string(&self) -> (r: String)
        ensures
            r@ == "config-dir: "@ + self.config_dir_view() + ", ipc-socket: "@
                + self.ipc_socket_file_view() + ", log-file: "@ + self.log_file_view(),
    {
        let mut out = String::from_str("config-dir: ");
        out.append(self.config_dir.as_str());
        out.append(", ipc-socket: ");
        out.append(self.ipc_socket_file.as_str());
        out.append(", log-file: ");
        out.append(self.log_file.as_str());
        proof {
            assert(out@ =~= "config-dir: "@ + self.config_dir_view() + ", ipc-socket: "@
                + self.ipc_socket_file_view() + ", log-file: "@ + self.log_file_view());
        }
        out
    }
}

} // verus!
