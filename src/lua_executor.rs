//! The executor for the Lua backend, which this build does not include: its
//! configuration is checked, and every script is refused.
use vstd::prelude::*;
use crate::outcome::{ErrorKind, ExecError};

verus! {

/// The resource limits for the Lua backend.
#[derive(Clone, Copy, Debug, PartialEq, Eq, Structural)]
pub struct ExecutorConfig {
    /// The longest a run may take, in milliseconds.
    pub max_duration_ms: u64,
    /// The memory a run may use, in bytes.
    pub memory_limit: usize,
}

/// The limits used when the caller gives none: five seconds and 10 MiB.
pub open spec fn default_limits() -> ExecutorConfig {
    ExecutorConfig { max_duration_ms: 5_000, memory_limit: 10_485_760 }
}

impl ExecutorConfig {
    /// Every limit is strictly positive.
    pub open spec fn is_valid(&self) -> bool {
        self.max_duration_ms > 0 && self.memory_limit > 0
    }

    /// Whether every limit is strictly positive.
    pub fn validate(&self) -> (r: bool)
        ensures
            r == self.is_valid(),
    {
        self.max_duration_ms > 0 && self.memory_limit > 0
    }
}

impl Default for ExecutorConfig {
    fn default() -> (r: Self)
        ensures
            r == default_limits(),
    {
        ExecutorConfig { max_duration_ms: 5_000, memory_limit: 10 * 1024 * 1024 }
    }
}

/// What every script run on the Lua backend is answered with.
pub open spec fn not_enabled_text() -> Seq<char> {
    "Lua scripting not enabled. Build with --features lua-scripting"@
}

/// The Lua backend, which this build leaves out.
pub struct LuaExecutor {
    config: ExecutorConfig,
}

impl LuaExecutor {
    /// The limits this executor was built with.
    pub closed spec fn limits(&self) -> ExecutorConfig {
        self.config
    }

    /// Creates an executor with the default limits.
    pub fn new() -> (r: Self)
        ensures
            r.limits() == default_limits(),
    {
        LuaExecutor { config: ExecutorConfig::default() }
    }

    /// Creates an executor with the given limits, which must all be positive.
    pub fn with_config(config: ExecutorConfig) -> (r: Result<Self, ExecError>)
        ensures
            r is Ok <==> config.is_valid(),
            r matches Ok(x) ==> x.limits() == config,
            r matches Err(e) ==> e.kind == ErrorKind::ConfigError,
    {
        if config.validate() {
            Ok(LuaExecutor { config })
        } else {
            Err(
                ExecError {
                    kind: ErrorKind::ConfigError,
                    message: "every resource limit must be positive".to_owned(),
                },
            )
        }
    }

    /// The limits this executor was built with.
    pub fn config(&self) -> (r: &ExecutorConfig)
        ensures
            *r == self.limits(),
    {
        &self.config
    }

    /// Refuses the script: the Lua backend is not part of this build.
    pub fn execute(&self, _script: &str) -> (r: Result<String, String>)
        ensures
            r matches Err(m) && m@ == not_enabled_text(),
    {
        Err("Lua scripting not enabled. Build with --features lua-scripting".to_owned())
    }
}

impl Default for LuaExecutor {
    fn default() -> (r: Self)
        ensures
            r.limits() == default_limits(),
    {
        Self::new()
    }
}

} // verus!
