//! The embedded interpreter, reached through trusted wrappers.
//!
//! Each item here states what the library relies on of the `rhai` crate.
use vstd::prelude::*;
use crate::outcome::{deadline_passed, EngineError, EngineValue, ParseFailure};
use rhai::{Dynamic, Engine, EvalAltResult, LexError, ParseErrorType, Position, Scope, AST};

verus! {

#[verifier::external_type_specification]
#[verifier::external_body]
pub struct ExEngine(Engine);

#[verifier::external_type_specification]
#[verifier::external_body]
pub struct ExAst(AST);

#[verifier::external_type_specification]
#[verifier::external_body]
pub struct ExEvalAltResult(EvalAltResult);

#[verifier::external_type_specification]
#[verifier::external_body]
pub struct ExParseErrorType(ParseErrorType);

/// The operation budget an interpreter holds for each run.
pub uninterp spec fn max_operations_of(e: Engine) -> u64;

/// The longest string, in bytes, an interpreter lets a run build.
pub uninterp spec fn max_string_size_of(e: Engine) -> usize;

/// The largest array an interpreter lets a run build.
pub uninterp spec fn max_array_size_of(e: Engine) -> usize;

/// The largest object map an interpreter lets a run build.
pub uninterp spec fn max_map_size_of(e: Engine) -> usize;

/// Whether an interpreter treats the symbol as disabled.
pub uninterp spec fn symbol_disabled_of(e: Engine, symbol: Seq<char>) -> bool;

/// Whether an interpreter answers every one-number call of the function with
/// a failure, in place of the standard package's function of that name.
pub uninterp spec fn function_refused_of(e: Engine, name: Seq<char>) -> bool;

/// The wall-clock limit, in milliseconds, that an interpreter holds each run
/// to, counted from the moment the limit was set.
pub uninterp spec fn deadline_ms_of(e: Engine) -> u64;

/// The disabled symbols, refused functions and deadline of `a` and `b` agree.
pub open spec fn same_other_settings(a: Engine, b: Engine) -> bool {
    &&& forall|s: Seq<char>| #[trigger] symbol_disabled_of(b, s) == symbol_disabled_of(a, s)
    &&& forall|n: Seq<char>| #[trigger] function_refused_of(b, n) == function_refused_of(a, n)
    &&& deadline_ms_of(b) == deadline_ms_of(a)
}

/// Relies on `rhai::Engine::new`: an interpreter with the standard packages.
#[verifier::external_body]
pub(crate) fn new_engine() -> (r: Engine) {
    Engine::new()
}

/// Relies on `rhai::Engine::set_max_operations`, which writes the operation
/// limit alone. The crate reads zero as no limit, so only positive limits are
/// passed.
#[verifier::external_body]
pub(crate) fn set_max_operations(engine: &mut Engine, operations: u64)
    requires
        operations > 0,
    ensures
        max_operations_of(*final(engine)) == operations,
        max_string_size_of(*final(engine)) == max_string_size_of(*old(engine)),
        max_array_size_of(*final(engine)) == max_array_size_of(*old(engine)),
        max_map_size_of(*final(engine)) == max_map_size_of(*old(engine)),
        same_other_settings(*old(engine), *final(engine)),
{
    engine.set_max_operations(operations);
}

/// Relies on `rhai::Engine::set_max_string_size`, which writes the string
/// limit alone. Zero would mean no limit, so only positive limits are passed.
#[verifier::external_body]
pub(crate) fn set_max_string_size(engine: &mut Engine, max_len: usize)
    requires
        max_len > 0,
    ensures
        max_string_size_of(*final(engine)) == max_len,
        max_operations_of(*final(engine)) == max_operations_of(*old(engine)),
        max_array_size_of(*final(engine)) == max_array_size_of(*old(engine)),
        max_map_size_of(*final(engine)) == max_map_size_of(*old(engine)),
        same_other_settings(*old(engine), *final(engine)),
{
    engine.set_max_string_size(max_len);
}

/// Relies on `rhai::Engine::set_max_array_size`, which writes the array limit
/// alone. Zero would mean no limit, so only positive limits are passed.
#[verifier::external_body]
pub(crate) fn set_max_array_size(engine: &mut Engine, max_size: usize)
    requires
        max_size > 0,
    ensures
        max_array_size_of(*final(engine)) == max_size,
        max_operations_of(*final(engine)) == max_operations_of(*old(engine)),
        max_string_size_of(*final(engine)) == max_string_size_of(*old(engine)),
        max_map_size_of(*final(engine)) == max_map_size_of(*old(engine)),
        same_other_settings(*old(engine), *final(engine)),
{
    engine.set_max_array_size(max_size);
}

/// Relies on `rhai::Engine::set_max_map_size`, which writes the object map
/// limit alone. Zero would mean no limit, so only positive limits are passed.
#[verifier::external_body]
pub(crate) fn set_max_map_size(engine: &mut Engine, max_size: usize)
    requires
        max_size > 0,
    ensures
        max_map_size_of(*final(engine)) == max_size,
        max_operations_of(*final(engine)) == max_operations_of(*old(engine)),
        max_string_size_of(*final(engine)) == max_string_size_of(*old(engine)),
        max_array_size_of(*final(engine)) == max_array_size_of(*old(engine)),
        same_other_settings(*old(engine), *final(engine)),
{
    engine.set_max_map_size(max_size);
}

/// Relies on `rhai::Engine::disable_symbol`, which adds the symbol to the
/// disabled set and changes nothing else.
#[verifier::external_body]
pub(crate) fn disable_symbol(engine: &mut Engine, symbol: &str)
    ensures
        symbol_disabled_of(*final(engine), symbol@),
        forall|s: Seq<char>|
            s != symbol@ ==> #[trigger] symbol_disabled_of(*final(engine), s)
                == symbol_disabled_of(*old(engine), s),
        forall|n: Seq<char>| #[trigger] function_refused_of(*final(engine), n)
            == function_refused_of(*old(engine), n),
        deadline_ms_of(*final(engine)) == deadline_ms_of(*old(engine)),
        max_operations_of(*final(engine)) == max_operations_of(*old(engine)),
        max_string_size_of(*final(engine)) == max_string_size_of(*old(engine)),
        max_array_size_of(*final(engine)) == max_array_size_of(*old(engine)),
        max_map_size_of(*final(engine)) == max_map_size_of(*old(engine)),
{
    engine.disable_symbol(symbol);
}

/// Relies on `rhai::Engine::register_fn`: a function registered on the
/// interpreter is found before a standard package's function of the same
/// name and argument types. Both one-number forms of `name` fail as a missing
/// function whose signature is `report`. Registering changes no limit and no
/// disabled symbol.
#[verifier::external_body]
pub(crate) fn refuse_function(engine: &mut Engine, name: &str, report: &str)
    ensures
        function_refused_of(*final(engine), name@),
        forall|n: Seq<char>|
            n != name@ ==> #[trigger] function_refused_of(*final(engine), n)
                == function_refused_of(*old(engine), n),
        forall|s: Seq<char>| #[trigger] symbol_disabled_of(*final(engine), s)
            == symbol_disabled_of(*old(engine), s),
        deadline_ms_of(*final(engine)) == deadline_ms_of(*old(engine)),
        max_operations_of(*final(engine)) == max_operations_of(*old(engine)),
        max_string_size_of(*final(engine)) == max_string_size_of(*old(engine)),
        max_array_size_of(*final(engine)) == max_array_size_of(*old(engine)),
        max_map_size_of(*final(engine)) == max_map_size_of(*old(engine)),
{
    let (a, b) = (report.to_owned(), report.to_owned());
    engine.register_fn(name, move |_: rhai::INT| -> Result<(), Box<EvalAltResult>> {
        Err(EvalAltResult::ErrorFunctionNotFound(a.clone(), Position::NONE).into())
    });
    engine.register_fn(name, move |_: rhai::FLOAT| -> Result<(), Box<EvalAltResult>> {
        Err(EvalAltResult::ErrorFunctionNotFound(b.clone(), Position::NONE).into())
    });
}

/// Relies on `rhai::Engine::on_progress`, whose callback runs at every step
/// of a run and stops the run as terminated when it returns a value, and on
/// `std::time::Instant` to measure the time since the limit was set. The
/// callback changes no other setting.
#[verifier::external_body]
pub(crate) fn start_deadline(engine: &mut Engine, limit_ms: u64)
    ensures
        deadline_ms_of(*final(engine)) == limit_ms,
        forall|s: Seq<char>| #[trigger] symbol_disabled_of(*final(engine), s)
            == symbol_disabled_of(*old(engine), s),
        forall|n: Seq<char>| #[trigger] function_refused_of(*final(engine), n)
            == function_refused_of(*old(engine), n),
        max_operations_of(*final(engine)) == max_operations_of(*old(engine)),
        max_string_size_of(*final(engine)) == max_string_size_of(*old(engine)),
        max_array_size_of(*final(engine)) == max_array_size_of(*old(engine)),
        max_map_size_of(*final(engine)) == max_map_size_of(*old(engine)),
{
    let start = std::time::Instant::now();
    engine.on_progress(move |_| match deadline_passed(start.elapsed().as_millis(), limit_ms) {
        true => Some(Dynamic::UNIT),
        false => None,
    });
}

/// Relies on the variants of `rhai::ParseErrorType` and `rhai::LexError`, one
/// arm for each variant that is read.
#[verifier::external_body]
fn parse_failure(err: &ParseErrorType) -> (r: ParseFailure) {
    match err {
        ParseErrorType::Reserved(s) => ParseFailure::Reserved(s.clone()),
        ParseErrorType::BadInput(LexError::ImproperSymbol(s, _)) => ParseFailure::ImproperSymbol(s.clone()),
        ParseErrorType::LiteralTooLarge(what, _) => ParseFailure::LiteralTooLarge(what.clone()),
        other => ParseFailure::Other(other.to_string()),
    }
}

/// Relies on the variants of `rhai::EvalAltResult`, one arm for each variant
/// that is read; a failure inside a function or module keeps its nesting.
#[verifier::external_body]
fn engine_error(err: &EvalAltResult) -> (r: EngineError) {
    match err {
        EvalAltResult::ErrorParsing(p, _) => EngineError::Parse(parse_failure(p)),
        EvalAltResult::ErrorInFunctionCall(_, _, e, _) => EngineError::Nested(Box::new(engine_error(e))),
        EvalAltResult::ErrorInModule(_, e, _) => EngineError::Nested(Box::new(engine_error(e))),
        EvalAltResult::ErrorFunctionNotFound(sig, _) => EngineError::FunctionNotFound(sig.clone()),
        EvalAltResult::ErrorTooManyOperations(_) => EngineError::TooManyOperations,
        EvalAltResult::ErrorDataTooLarge(what, _) => EngineError::DataTooLarge(what.clone()),
        EvalAltResult::ErrorTerminated(..) => EngineError::Terminated,
        other => EngineError::Runtime(other.to_string()),
    }
}

/// Relies on `rhai::Engine::eval_with_scope`: runs the script in a scope of
/// its own, which is dropped when the run ends, and renders the result with
/// `rhai::Dynamic`'s `Display`, noting whether it is the unit value
/// (`rhai::Dynamic::is_unit`).
#[verifier::external_body]
pub(crate) fn eval_in_fresh_scope(engine: &Engine, script: &str) -> (r: Result<EngineValue, EngineError>) {
    let mut scope = Scope::new();
    match engine.eval_with_scope::<Dynamic>(&mut scope, script) {
        Ok(v) => Ok(EngineValue { is_unit: v.is_unit(), text: v.to_string() }),
        Err(e) => Err(engine_error(&e)),
    }
}

/// Relies on `rhai::Engine::compile`: parses the script without running it.
#[verifier::external_body]
pub(crate) fn compile(engine: &Engine, script: &str) -> (r: Result<AST, EngineError>) {
    match engine.compile(script) {
        Ok(ast) => Ok(ast),
        Err(e) => Err(EngineError::Parse(parse_failure(e.err_type()))),
    }
}

/// Relies on `rhai::Engine::call_fn`: runs the script's top-level statements
/// in a scope of its own, then calls the named script function with the
/// arguments as strings, and renders the result with `rhai::Dynamic`'s
/// `Display`, noting whether it is the unit value (`rhai::Dynamic::is_unit`).
/// A missing entry function is reported by its bare name
/// (`rhai-1.26.1/src/api/call_fn.rs`); a missing function that the script
/// calls, by its call signature, `name (types)`.
#[verifier::external_body]
pub(crate) fn call_in_fresh_scope(engine: &Engine, ast: &AST, name: &str, args: Vec<String>) -> (r: Result<EngineValue, EngineError>) {
    let args: Vec<Dynamic> = args.into_iter().map(Dynamic::from).collect();
    match engine.call_fn::<Dynamic>(&mut Scope::new(), ast, name, args) {
        Ok(v) => Ok(EngineValue { is_unit: v.is_unit(), text: v.to_string() }),
        Err(e) => Err(engine_error(&e)),
    }
}

} // verus!
