//! The script executor over the embedded `rhai` interpreter.
use vstd::prelude::*;
use crate::engine::{
    self, deadline_ms_of, function_refused_of, max_array_size_of, max_map_size_of, max_operations_of,
    max_string_size_of, symbol_disabled_of,
};
use crate::outcome::{interpreter_failures_are_never_config_errors, outcome_of, outcome_spec, outcome_view, EngineError, EngineValue, ErrorKind, ExecError};
use rhai::Engine;

verus! {

/// The resource limits that bound one execution.
#[derive(Clone, Copy, Debug, PartialEq, Eq, Structural)]
pub struct ExecutorConfig {
    /// The operation budget of one run.
    pub max_operations: u64,
    /// The longest a run may take, in milliseconds.
    pub max_duration_ms: u64,
    /// The longest string, in characters, that a run may hand back.
    pub max_string_len: usize,
    /// The largest array or object map that a run may build.
    pub max_array_size: usize,
}

/// The byte limit for strings in the interpreter: a character takes at most
/// four bytes in UTF-8, so a string of `max_chars` characters never exceeds it.
pub open spec fn string_bytes_limit(max_chars: usize) -> usize {
    if max_chars <= usize::MAX / 4 {
        (max_chars * 4) as usize
    } else {
        usize::MAX
    }
}

fn bytes_limit(max_chars: usize) -> (r: usize)
    ensures
        r == string_bytes_limit(max_chars),
{
    if max_chars <= usize::MAX / 4 {
        max_chars * 4
    } else {
        usize::MAX
    }
}

/// The limits used when the caller gives none.
pub open spec fn default_limits() -> ExecutorConfig {
    ExecutorConfig {
        max_operations: 100_000,
        max_duration_ms: 5_000,
        max_string_len: 10_000,
        max_array_size: 1_000,
    }
}

impl ExecutorConfig {
    /// Every limit is strictly positive.
    pub open spec fn is_valid(&self) -> bool {
        self.max_operations > 0 && self.max_duration_ms > 0 && self.max_string_len > 0
            && self.max_array_size > 0
    }

    /// Whether every limit is strictly positive.
    pub fn validate(&self) -> (r: bool)
        ensures
            r == self.is_valid(),
    {
        self.max_operations > 0 && self.max_duration_ms > 0 && self.max_string_len > 0
            && self.max_array_size > 0
    }
}

impl Default for ExecutorConfig {
    fn default() -> (r: Self)
        ensures
            r == default_limits(),
    {
        ExecutorConfig {
            max_operations: 100_000,
            max_duration_ms: 5_000,
            max_string_len: 10_000,
            max_array_size: 1_000,
        }
    }
}

/// Runs scripts in a sandboxed interpreter: `eval` and module loading are
/// disabled, `sleep` is refused, and the configured limits are installed
/// before any script runs; the wall-clock limit is restarted at the start of
/// every run. Every run gets a scope of its own, so no binding outlives a
/// call, and runs on one executor take turns, as `&mut self` makes them.
pub struct RhaiExecutor {
    engine: Engine,
    config: ExecutorConfig,
}

impl RhaiExecutor {
    /// The limits this executor was built with.
    pub closed spec fn limits(&self) -> ExecutorConfig {
        self.config
    }

    /// The interpreter this executor runs scripts in.
    pub closed spec fn interpreter(&self) -> Engine {
        self.engine
    }

    /// The interpreter holds this executor's limits, with object maps held to
    /// the array limit and strings to a byte limit that no string within the
    /// character limit exceeds, has `eval` and `import` disabled, and refuses
    /// `sleep`.
    pub open spec fn sandboxed(&self) -> bool {
        let e = self.interpreter();
        &&& max_operations_of(e) == self.limits().max_operations
        &&& deadline_ms_of(e) == self.limits().max_duration_ms
        &&& max_string_size_of(e) == string_bytes_limit(self.limits().max_string_len)
        &&& max_array_size_of(e) == self.limits().max_array_size
        &&& max_map_size_of(e) == self.limits().max_array_size
        &&& symbol_disabled_of(e, "eval"@)
        &&& symbol_disabled_of(e, "import"@)
        &&& function_refused_of(e, "sleep"@)
    }

    /// Creates an executor with the default limits.
    pub fn new() -> (r: Self)
        ensures
            r.limits() == default_limits(),
            r.sandboxed(),
    {
        let config = ExecutorConfig::default();
        Self::install(config)
    }

    /// Creates an executor with the given limits, which must all be positive.
    pub fn with_config(config: ExecutorConfig) -> (r: Result<Self, ExecError>)
        ensures
            r is Ok <==> config.is_valid(),
            r matches Ok(x) ==> x.limits() == config && x.sandboxed(),
            r matches Err(e) ==> e.kind == ErrorKind::ConfigError,
    {
        if !config.validate() {
            return Err(
                ExecError {
                    kind: ErrorKind::ConfigError,
                    message: "every resource limit must be positive".to_owned(),
                },
            );
        }
        Ok(Self::install(config))
    }

    fn install(config: ExecutorConfig) -> (r: Self)
        requires
            config.is_valid(),
        ensures
            r.config == config,
            r.sandboxed(),
    {
        let mut engine = engine::new_engine();
        engine::set_max_operations(&mut engine, config.max_operations);
        engine::set_max_string_size(&mut engine, bytes_limit(config.max_string_len));
        engine::set_max_array_size(&mut engine, config.max_array_size);
        engine::set_max_map_size(&mut engine, config.max_array_size);
        engine::disable_symbol(&mut engine, "eval");
        engine::disable_symbol(&mut engine, "import");
        engine::refuse_function(&mut engine, "sleep", "sleep (number)");
        engine::start_deadline(&mut engine, config.max_duration_ms);
        RhaiExecutor { engine, config }
    }

    /// The limits this executor was built with.
    pub fn config(&self) -> (r: &ExecutorConfig)
        ensures
            *r == self.limits(),
    {
        &self.config
    }

    /// The interpreter, to register host functions on before any script runs.
    /// The limits stay as they were.
    pub fn engine_mut(&mut self) -> (r: &mut Engine)
        ensures
            final(self).limits() == old(self).limits(),
    {
        &mut self.engine
    }

    /// Runs the whole script and returns the text of its final value, or the
    /// classified failure. No entry point is asked for, so the failure is
    /// never `FunctionNotFound`, and never `ConfigError`. The wall-clock
    /// limit starts with the run.
    pub fn execute(&mut self, script: &str) -> (r: Result<String, ExecError>)
        ensures
            final(self).limits() == old(self).limits(),
            old(self).sandboxed() ==> final(self).sandboxed(),
            exists|raw: Result<EngineValue, EngineError>|
                outcome_view(r) == outcome_spec(raw, None, old(self).limits().max_string_len as nat),
            r matches Err(e) ==> e.kind != ErrorKind::ConfigError && e.kind
                != ErrorKind::FunctionNotFound,
    {
        engine::start_deadline(&mut self.engine, self.config.max_duration_ms);
        let raw = engine::eval_in_fresh_scope(&self.engine, script);
        let ghost g = raw;
        let r = outcome_of(raw, None, self.config.max_string_len);
        assert(outcome_view(r) == outcome_spec(g, None, old(self).limits().max_string_len as nat));
        proof {
            if let Err(e) = g {
                interpreter_failures_are_never_config_errors(e, None);
            }
        }
        r
    }

    /// Loads the script, then calls its function `fn_name` with the given
    /// string arguments, and returns the text of the value it returns, or the
    /// classified failure. `FunctionNotFound` means that no function of that
    /// name was found. The wall-clock limit starts with the run.
    pub fn call_fn(&mut self, script: &str, fn_name: &str, args: Vec<String>) -> (r: Result<
        String,
        ExecError,
    >)
        ensures
            final(self).limits() == old(self).limits(),
            old(self).sandboxed() ==> final(self).sandboxed(),
            exists|raw: Result<EngineValue, EngineError>|
                outcome_view(r) == outcome_spec(raw, Some(fn_name@), old(self).limits().max_string_len as nat),
            r matches Err(e) ==> e.kind != ErrorKind::ConfigError,
    {
        engine::start_deadline(&mut self.engine, self.config.max_duration_ms);
        let raw = match engine::compile(&self.engine, script) {
            Ok(ast) => engine::call_in_fresh_scope(&self.engine, &ast, fn_name, args),
            Err(e) => Err(e),
        };
        let ghost g = raw;
        let r = outcome_of(raw, Some(fn_name), self.config.max_string_len);
        assert(outcome_view(r) == outcome_spec(g, Some(fn_name@), old(self).limits().max_string_len as nat));
        proof {
            if let Err(e) = g {
                interpreter_failures_are_never_config_errors(e, Some(fn_name@));
            }
        }
        r
    }
}

impl Default for RhaiExecutor {
    fn default() -> (r: Self)
        ensures
            r.limits() == default_limits(),
            r.sandboxed(),
    {
        Self::new()
    }
}

} // verus!
