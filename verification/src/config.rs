//! Application configuration: the configured values, the precedence rules
//! that combine a configuration file with environment and command-line
//! overrides, and the write-once holder that the collection component owns.
//! Reading the file, the environment and the command line happens outside
//! the library; the already-captured values are combined here.
use vstd::prelude::*;

verus! {

/// The configured values: where to send data, how often to collect, and
/// which execution strategy to use.
#[derive(Debug, Clone)]
pub struct AppConfig {
    pub server: String,
    pub interval_secs: u64,
    pub execution_method: String,
}

/// The mathematical content of a configuration.
pub struct ConfigV {
    pub server: Seq<char>,
    pub interval_secs: int,
    pub execution_method: Seq<char>,
}

impl View for AppConfig {
    type V = ConfigV;

    open spec fn view(&self) -> ConfigV {
        ConfigV {
            server: self.server@,
            interval_secs: self.interval_secs as int,
            execution_method: self.execution_method@,
        }
    }
}

impl Default for AppConfig {
    /// The defaults used when no configuration source provides a value.
    fn default() -> (r: AppConfig)
        ensures
            r.server@ == "127.0.0.1:5000"@,
            r.interval_secs == 10,
            r.execution_method@ == "std_command"@,
    {
        AppConfig {
            server: "127.0.0.1:5000".to_owned(),
            interval_secs: 10,
            execution_method: "std_command".to_owned(),
        }
    }
}

/// One source's overrides: a value is `Some` exactly when the source
/// provided it.
#[derive(Debug, Clone)]
pub struct ConfigOverrides {
    pub server: Option<String>,
    pub interval_secs: Option<u64>,
    pub execution_method: Option<String>,
}

impl ConfigOverrides {
    /// Overrides from a source that provided nothing.
    pub fn none() -> (r: ConfigOverrides)
        ensures
            r.server is None,
            r.interval_secs is None,
            r.execution_method is None,
    {
        ConfigOverrides { server: None, interval_secs: None, execution_method: None }
    }
}

/// Combines configuration sources in precedence order.
pub struct ConfigLoader;

impl ConfigLoader {
    /// Applies one source's overrides on top of a configuration: each value
    /// the source provided replaces the configured one.
    pub fn apply_overrides(config: AppConfig, over: ConfigOverrides) -> (r: AppConfig)
        ensures
            r.server@ == (match over.server {
                Some(ref s) => s@,
                None => config.server@,
            }),
            r.interval_secs == (match over.interval_secs {
                Some(v) => v,
                None => config.interval_secs,
            }),
            r.execution_method@ == (match over.execution_method {
                Some(ref s) => s@,
                None => config.execution_method@,
            }),
    {
        let server = match over.server {
            Some(s) => s,
            None => config.server,
        };
        let interval_secs = match over.interval_secs {
            Some(v) => v,
            None => config.interval_secs,
        };
        let execution_method = match over.execution_method {
            Some(s) => s,
            None => config.execution_method,
        };
        AppConfig { server, interval_secs, execution_method }
    }

    /// Combines the sources: the file's values (or the defaults where no
    /// file was read) are overridden by the environment's values, which are
    /// overridden by the command line's.
    pub fn load_config(
        file: Option<AppConfig>,
        env: ConfigOverrides,
        cli: ConfigOverrides,
    ) -> (r: AppConfig)
        ensures
            r.server@ == (match cli.server {
                Some(ref s) => s@,
                None => match env.server {
                    Some(ref s) => s@,
                    None => match file {
                        Some(ref f) => f.server@,
                        None => "127.0.0.1:5000"@,
                    },
                },
            }),
            r.interval_secs == (match cli.interval_secs {
                Some(v) => v,
                None => match env.interval_secs {
                    Some(v) => v,
                    None => match file {
                        Some(ref f) => f.interval_secs,
                        None => 10,
                    },
                },
            }),
            r.execution_method@ == (match cli.execution_method {
                Some(ref s) => s@,
                None => match env.execution_method {
                    Some(ref s) => s@,
                    None => match file {
                        Some(ref f) => f.execution_method@,
                        None => "std_command"@,
                    },
                },
            }),
    {
        let base = match file {
            Some(f) => f,
            None => AppConfig::default(),
        };
        let with_env = Self::apply_overrides(base, env);
        Self::apply_overrides(with_env, cli)
    }
}

/// The write-once holder of the loaded configuration. It starts empty, is
/// initialized exactly once, and every later read sees the value that was
/// stored.
pub struct Config {
    inner: Option<AppConfig>,
}

impl Config {
    /// The stored configuration, if one has been stored.
    pub closed spec fn stored(&self) -> Option<ConfigV> {
        match self.inner {
            Some(ref c) => Some(c@),
            None => None,
        }
    }

    /// An empty holder.
    pub fn new() -> (r: Config)
        ensures
            r.stored() is None,
    {
        Config { inner: None }
    }

    /// Whether a configuration has been stored.
    pub fn is_initialized(&self) -> (r: bool)
        ensures
            r == (self.stored() is Some),
    {
        self.inner.is_some()
    }

    /// Stores the configuration. May be called only once.
    pub fn initialize(&mut self, config: AppConfig)
        requires
            old(self).stored() is None,
        ensures
            final(self).stored() == Some(config@),
    {
        self.inner = Some(config);
    }

    /// The stored configuration.
    pub fn get(&self) -> (r: &AppConfig)
        requires
            self.stored() is Some,
        ensures
            Some(r@) == self.stored(),
    {
        match self.inner {
            Some(ref c) => c,
            None => unreached(),
        }
    }

    /// The stored execution method.
    pub fn execution_method(&self) -> (r: &str)
        requires
            self.stored() is Some,
        ensures
            Some(r@) == (match self.stored() {
                Some(c) => Some(c.execution_method),
                None => None,
            }),
    {
        self.get().execution_method.as_str()
    }

    /// The stored server address.
    pub fn server(&self) -> (r: &str)
        requires
            self.stored() is Some,
        ensures
            Some(r@) == (match self.stored() {
                Some(c) => Some(c.server),
                None => None,
            }),
    {
        self.get().server.as_str()
    }

    /// The stored collection interval in seconds.
    pub fn interval_secs(&self) -> (r: u64)
        requires
            self.stored() is Some,
        ensures
            Some(r as int) == (match self.stored() {
                Some(c) => Some(c.interval_secs),
                None => None,
            }),
    {
        self.get().interval_secs
    }
}

} // verus!
