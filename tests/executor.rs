use script_executor::lua_executor::{self, LuaExecutor};
use script_executor::outcome::{
    outcome_of, EngineError, EngineValue, ErrorKind, ExecError, Limit, ParseFailure,
};
use script_executor::rhai_executor::{ExecutorConfig, RhaiExecutor};

fn kind_of(r: &Result<String, ExecError>) -> ErrorKind {
    match r {
        Ok(v) => panic!("expected a failure, got {v}"),
        Err(e) => e.kind,
    }
}

#[test]
fn test_basic_execution() {
    let mut executor = RhaiExecutor::new();
    let result = executor.execute("40 + 2").unwrap();
    assert_eq!(result, "42");
}

#[test]
fn test_operation_limit() {
    let config = ExecutorConfig {
        max_operations: 10,
        ..Default::default()
    };

    let mut executor = RhaiExecutor::with_config(config).unwrap();

    let result = executor.execute(
        r#"
            let x = 0;
            for i in 0..1000 {
                x += i;
            }
            x
        "#,
    );

    assert!(result.is_err());
}

#[test]
fn test_function_call() {
    let mut executor = RhaiExecutor::new();

    let script = r#"
            fn greet(name) {
                "Hello, " + name + "!"
            }
        "#;

    let result = executor
        .call_fn(script, "greet", vec!["World".to_string()])
        .unwrap();

    assert_eq!(result, "Hello, World!");
}

#[test]
fn it_works() {
    let result = 2 + 2;
    assert_eq!(result, 4);
}

#[test]
fn test_shared_library_compiles() {
    let mut executor = RhaiExecutor::default();
    assert_eq!(executor.config().max_operations, 100_000);
}

#[test]
fn default_limits_are_documented_values() {
    let c = ExecutorConfig::default();
    assert_eq!(c.max_operations, 100_000);
    assert_eq!(c.max_duration_ms, 5_000);
    assert_eq!(c.max_string_len, 10_000);
    assert_eq!(c.max_array_size, 1_000);
    assert!(c.validate());
}

#[test]
fn zero_limit_is_config_error() {
    for config in [
        ExecutorConfig { max_operations: 0, ..Default::default() },
        ExecutorConfig { max_duration_ms: 0, ..Default::default() },
        ExecutorConfig { max_string_len: 0, ..Default::default() },
        ExecutorConfig { max_array_size: 0, ..Default::default() },
    ] {
        assert!(!config.validate());
        match RhaiExecutor::with_config(config) {
            Ok(_) => panic!("a zero limit was accepted"),
            Err(e) => assert_eq!(e.kind, ErrorKind::ConfigError),
        }
    }
}

#[test]
fn with_config_keeps_limits() {
    let config = ExecutorConfig { max_operations: 77, ..Default::default() };
    let mut executor = RhaiExecutor::with_config(config).unwrap();
    assert_eq!(*executor.config(), config);
}

#[test]
fn unbounded_loop_hits_operation_limit() {
    let config = ExecutorConfig { max_operations: 10, ..Default::default() };
    let mut executor = RhaiExecutor::with_config(config).unwrap();
    let r = executor.execute("let x = 0; loop { x += 1; }");
    assert_eq!(kind_of(&r), ErrorKind::LimitExceeded(Limit::Operations));
}

#[test]
fn eval_is_disabled() {
    let mut executor = RhaiExecutor::new();
    let r = executor.execute("eval(\"40 + 2\")");
    assert_eq!(kind_of(&r), ErrorKind::DisabledCapability);
}

#[test]
fn module_import_is_disabled() {
    let mut executor = RhaiExecutor::new();
    let r = executor.execute("import \"secrets\" as s; 1");
    assert_eq!(kind_of(&r), ErrorKind::DisabledCapability);
}

#[test]
fn file_primitive_is_disabled() {
    let mut executor = RhaiExecutor::new();
    let r = executor.execute("open_file(\"/etc/passwd\")");
    assert_eq!(kind_of(&r), ErrorKind::DisabledCapability);
}

#[test]
fn syntax_error_is_compile_error() {
    let mut executor = RhaiExecutor::new();
    let r = executor.execute("let = ;");
    assert_eq!(kind_of(&r), ErrorKind::CompileError);
}

#[test]
fn unknown_function_is_runtime_error() {
    let mut executor = RhaiExecutor::new();
    let r = executor.execute("frobnicate(1)");
    assert_eq!(kind_of(&r), ErrorKind::RuntimeError);
}

#[test]
fn missing_entry_point_is_function_not_found() {
    let mut executor = RhaiExecutor::new();
    let script = "fn greet(name) { \"Hello, \" + name + \"!\" }";
    let r = executor.call_fn(script, "farewell", vec!["World".to_string()]);
    assert_eq!(kind_of(&r), ErrorKind::FunctionNotFound);
}

#[test]
fn call_fn_with_syntax_error_is_compile_error() {
    let mut executor = RhaiExecutor::new();
    let r = executor.call_fn("fn greet(name) {", "greet", vec![]);
    assert_eq!(kind_of(&r), ErrorKind::CompileError);
}

#[test]
fn bindings_do_not_leak_between_calls() {
    let mut executor = RhaiExecutor::new();
    assert_eq!(executor.execute("let x = 1; x").unwrap(), "1");
    assert_eq!(executor.execute("let x = 2; x").unwrap(), "2");
    let r = executor.execute("x");
    assert_eq!(kind_of(&r), ErrorKind::RuntimeError);
}

#[test]
fn interleaved_sessions_are_isolated() {
    let mut executor = RhaiExecutor::new();
    let script_one = "let x = 1; x";
    let script_two = "let x = 2; x";
    for _ in 0..3 {
        assert_eq!(executor.execute(script_one).unwrap(), "1");
        assert_eq!(executor.execute(script_two).unwrap(), "2");
        assert_eq!(executor.execute(script_one).unwrap(), "1");
    }
}

#[test]
fn repeated_execution_gives_same_outcome() {
    let mut executor = RhaiExecutor::new();
    let script = "let a = [1, 2, 3]; a.len() * 7";
    let first = executor.execute(script);
    let second = executor.execute(script);
    assert_eq!(first.clone().unwrap(), "21");
    assert_eq!(first.unwrap(), second.unwrap());
    let bad = "let = ;";
    let e1 = executor.execute(bad).unwrap_err();
    let e2 = executor.execute(bad).unwrap_err();
    assert_eq!(e1.kind, e2.kind);
    assert_eq!(e1.message, e2.message);
}

#[test]
fn string_at_limit_succeeds_and_one_more_fails() {
    let config = ExecutorConfig { max_string_len: 5, ..Default::default() };
    let mut executor = RhaiExecutor::with_config(config).unwrap();
    assert_eq!(executor.execute("let a = \"ab\"; let b = \"cde\"; a + b").unwrap(), "abcde");
    let r = executor.execute("let a = \"ab\"; let b = \"cdef\"; a + b");
    assert_eq!(kind_of(&r), ErrorKind::LimitExceeded(Limit::StringLength));
    assert_eq!(executor.execute("\"abcde\"").unwrap(), "abcde");
    let r = executor.execute("\"abcdef\"");
    assert_eq!(kind_of(&r), ErrorKind::LimitExceeded(Limit::StringLength));
}

#[test]
fn array_over_limit_fails() {
    let config = ExecutorConfig { max_array_size: 3, ..Default::default() };
    let mut executor = RhaiExecutor::with_config(config).unwrap();
    assert_eq!(executor.execute("let a = [1, 2]; a.push(3); a.len()").unwrap(), "3");
    let r = executor.execute("let a = [1, 2]; a.push(3); a.push(4); a.len()");
    assert_eq!(kind_of(&r), ErrorKind::LimitExceeded(Limit::ArraySize));
    let r = executor.execute("let a = [1, 2, 3, 4, 5]; a.len()");
    assert_eq!(kind_of(&r), ErrorKind::LimitExceeded(Limit::ArraySize));
}

#[test]
fn values_render_canonically() {
    let mut executor = RhaiExecutor::new();
    assert_eq!(executor.execute("true").unwrap(), "true");
    assert_eq!(executor.execute("\"text\"").unwrap(), "text");
    assert_eq!(executor.execute("()").unwrap(), "nil");
    assert_eq!(executor.execute("let a = [1, 2]; a").unwrap(), "[1, 2]");
}

#[test]
fn runtime_failure_is_runtime_error() {
    let mut executor = RhaiExecutor::new();
    let r = executor.execute("throw \"boom\"");
    assert_eq!(kind_of(&r), ErrorKind::RuntimeError);
}

#[test]
fn classification_of_engine_failures() {
    let cases = [
        (EngineError::Parse(ParseFailure::Other("bad".to_string())), None, ErrorKind::CompileError),
        (EngineError::Parse(ParseFailure::ImproperSymbol("eval".to_string())), None, ErrorKind::DisabledCapability),
        (EngineError::Parse(ParseFailure::Reserved("import".to_string())), None, ErrorKind::DisabledCapability),
        (EngineError::Parse(ParseFailure::Reserved("if".to_string())), None, ErrorKind::CompileError),
        (EngineError::Parse(ParseFailure::LiteralTooLarge("Length of string".to_string())), None, ErrorKind::LimitExceeded(Limit::StringLength)),
        (EngineError::Nested(Box::new(EngineError::FunctionNotFound("greet".to_string()))), Some("greet"), ErrorKind::RuntimeError),
        (EngineError::Nested(Box::new(EngineError::TooManyOperations)), Some("greet"), ErrorKind::LimitExceeded(Limit::Operations)),
        (EngineError::FunctionNotFound("connect (&str)".to_string()), None, ErrorKind::DisabledCapability),
        (EngineError::FunctionNotFound("read_file (&str)".to_string()), None, ErrorKind::DisabledCapability),
        (EngineError::FunctionNotFound("greet".to_string()), Some("greet"), ErrorKind::FunctionNotFound),
        (EngineError::FunctionNotFound("greet (i64)".to_string()), Some("hello"), ErrorKind::RuntimeError),
        (EngineError::TooManyOperations, None, ErrorKind::LimitExceeded(Limit::Operations)),
        (EngineError::DataTooLarge("Size of array literal".to_string()), None, ErrorKind::LimitExceeded(Limit::ArraySize)),
        (EngineError::Terminated, None, ErrorKind::LimitExceeded(Limit::Time)),
        (EngineError::DataTooLarge("Length of string".to_string()), None, ErrorKind::LimitExceeded(Limit::StringLength)),
        (EngineError::DataTooLarge("Size of object map".to_string()), None, ErrorKind::LimitExceeded(Limit::ArraySize)),
        (EngineError::Runtime("oops".to_string()), None, ErrorKind::RuntimeError),
    ];
    for (raw, entry, kind) in cases {
        let r = outcome_of(Err(raw), entry, 100);
        assert_eq!(r.unwrap_err().kind, kind);
    }
    let e = outcome_of(Err(EngineError::TooManyOperations), None, 100).unwrap_err();
    assert_eq!(e.message, "operation limit reached");
    let v = EngineValue { is_unit: false, text: "42".to_string() };
    assert_eq!(outcome_of(Ok(v), None, 100).unwrap(), "42");
}

#[test]
fn result_text_is_held_to_string_limit() {
    let unit = EngineValue { is_unit: true, text: String::new() };
    assert_eq!(outcome_of(Ok(unit.clone()), None, 3).unwrap(), "nil");
    let e = outcome_of(Ok(unit), None, 2).unwrap_err();
    assert_eq!(e.kind, ErrorKind::LimitExceeded(Limit::StringLength));
    let v = EngineValue { is_unit: false, text: "abcde".to_string() };
    assert_eq!(outcome_of(Ok(v.clone()), None, 5).unwrap(), "abcde");
    let e = outcome_of(Ok(v), None, 4).unwrap_err();
    assert_eq!(e.kind, ErrorKind::LimitExceeded(Limit::StringLength));

    let config = ExecutorConfig { max_string_len: 5, ..Default::default() };
    let mut executor = RhaiExecutor::with_config(config).unwrap();
    let r = executor.execute("[1, 2, 3]");
    assert_eq!(kind_of(&r), ErrorKind::LimitExceeded(Limit::StringLength));
}

#[test]
fn lua_backend_refuses_scripts() {
    let executor = LuaExecutor::new();
    assert_eq!(executor.config().memory_limit, 10 * 1024 * 1024);
    assert_eq!(executor.config().max_duration_ms, 5_000);
    assert_eq!(
        executor.execute("return 40 + 2"),
        Err("Lua scripting not enabled. Build with --features lua-scripting".to_string())
    );
}

#[test]
fn lua_zero_limit_is_config_error() {
    let config = lua_executor::ExecutorConfig { memory_limit: 0, ..Default::default() };
    match LuaExecutor::with_config(config) {
        Ok(_) => panic!("a zero limit was accepted"),
        Err(e) => assert_eq!(e.kind, ErrorKind::ConfigError),
    }
    let ok = LuaExecutor::with_config(lua_executor::ExecutorConfig::default()).unwrap();
    assert_eq!(*ok.config(), lua_executor::ExecutorConfig::default());
}

#[test]
fn sleep_is_refused() {
    let mut executor = RhaiExecutor::new();
    let r = executor.execute("sleep(9000000000)");
    assert_eq!(kind_of(&r), ErrorKind::DisabledCapability);
    let r = executor.execute("sleep(1e300)");
    assert_eq!(kind_of(&r), ErrorKind::DisabledCapability);
}

#[test]
fn network_primitive_is_disabled() {
    let mut executor = RhaiExecutor::new();
    let r = executor.execute("connect(\"example.org:80\")");
    assert_eq!(kind_of(&r), ErrorKind::DisabledCapability);
}

#[test]
fn failed_inner_call_of_same_name_is_not_function_not_found() {
    let mut executor = RhaiExecutor::new();
    let script = "fn greet(name) { greet(name, 1) }";
    let r = executor.call_fn(script, "greet", vec!["World".to_string()]);
    assert_eq!(kind_of(&r), ErrorKind::RuntimeError);
}

#[test]
fn host_function_registered_before_first_run() {
    let mut executor = RhaiExecutor::new();
    executor.engine_mut().register_fn("double", |x: i64| x * 2);
    assert_eq!(executor.execute("double(21)").unwrap(), "42");
    assert_eq!(executor.config().max_operations, 100_000);
}

#[test]
fn string_limit_counts_characters() {
    let v = EngineValue { is_unit: false, text: "\u{e9}".to_string() };
    assert_eq!(outcome_of(Ok(v), None, 1).unwrap(), "\u{e9}");
    let config = ExecutorConfig { max_string_len: 3, ..Default::default() };
    let mut executor = RhaiExecutor::with_config(config).unwrap();
    let s = "\u{e9}t\u{e9}".to_string();
    assert_eq!(executor.call_fn("fn id(x) { x }", "id", vec![s.clone()]).unwrap(), s);
    let r = executor.call_fn("fn id(x) { x + \"!\" }", "id", vec![s]);
    assert_eq!(kind_of(&r), ErrorKind::LimitExceeded(Limit::StringLength));
}

#[test]
fn run_past_deadline_hits_time_limit() {
    let config = ExecutorConfig {
        max_operations: 1_000_000_000_000,
        max_duration_ms: 50,
        ..Default::default()
    };
    let mut executor = RhaiExecutor::with_config(config).unwrap();
    let r = executor.execute("let x = 0; loop { x += 1; }");
    assert_eq!(kind_of(&r), ErrorKind::LimitExceeded(Limit::Time));
    assert_eq!(executor.execute("40 + 2").unwrap(), "42");
    let r = executor.call_fn("fn spin() { loop { } }", "spin", vec![]);
    assert_eq!(kind_of(&r), ErrorKind::LimitExceeded(Limit::Time));
}

#[test]
fn sleep_in_call_fn_script_is_disabled() {
    let mut executor = RhaiExecutor::new();
    let r = executor.call_fn("sleep(1); fn sleep_well() { 1 }", "sleep", vec![]);
    assert_eq!(kind_of(&r), ErrorKind::DisabledCapability);
}
