//! The failure taxonomy of an execution and the classification of what the
//! interpreter reports into it.
use vstd::prelude::*;
use vstd::string::*;
use crate::text::{call_name, name_of_call, same_text};

verus! {

/// The sandboxing ceiling that stopped an execution.
#[derive(Clone, Copy, Debug, PartialEq, Eq, Structural)]
pub enum Limit {
    Operations,
    Time,
    StringLength,
    ArraySize,
    Memory,
}

/// What kind of failure an execution ended in.
#[derive(Clone, Copy, Debug, PartialEq, Eq, Structural)]
pub enum ErrorKind {
    /// The resource limits given at construction were not all positive.
    ConfigError,
    /// The script does not parse.
    CompileError,
    /// The script refers to a built-in that the sandbox forbids.
    DisabledCapability,
    /// The script failed while it ran.
    RuntimeError,
    /// The requested entry point is not defined by the script.
    FunctionNotFound,
    /// A sandboxing ceiling was hit.
    LimitExceeded(Limit),
}

/// A failed execution: its kind and a message for the caller.
#[derive(Clone, Debug)]
pub struct ExecError {
    pub kind: ErrorKind,
    pub message: String,
}

/// A value as the interpreter returns it: whether it is the unit value, and
/// its text as the interpreter renders it.
#[derive(Clone, Debug)]
pub struct EngineValue {
    pub is_unit: bool,
    pub text: String,
}

/// A parse failure as the interpreter reports it.
#[derive(Clone, Debug)]
pub enum ParseFailure {
    /// A reserved symbol, or an active symbol that was disabled; the symbol.
    Reserved(String),
    /// A symbol the tokenizer refuses, such as a disabled reserved keyword;
    /// the symbol.
    ImproperSymbol(String),
    /// A literal larger than its size limit; what was too large.
    LiteralTooLarge(String),
    /// Any other parse failure; the parser's message.
    Other(String),
}

/// A failure as the interpreter reports it, reduced to what the
/// classification reads.
#[derive(Debug)]
pub enum EngineError {
    /// The script does not parse.
    Parse(ParseFailure),
    /// A failure inside a function that the script called.
    Nested(Box<EngineError>),
    /// A function was called that does not exist; its call signature.
    FunctionNotFound(String),
    /// The operation budget ran out.
    TooManyOperations,
    /// A value grew past its size limit; what grew.
    DataTooLarge(String),
    /// The run was stopped from the host.
    Terminated,
    /// Any other failure while running; its message.
    Runtime(String),
}

/// The symbols that the sandbox disables in the interpreter: dynamic
/// evaluation and module loading.
pub open spec fn is_disabled_symbol(s: Seq<char>) -> bool {
    s == "eval"@ || s == "import"@
}

/// Function names that reach files, processes or module loading. The
/// interpreter offers none of them; a script that calls one is told that the
/// capability is disabled.
pub open spec fn is_forbidden_call(name: Seq<char>) -> bool {
    is_disabled_symbol(name) || name == "sleep"@ || name == "connect"@ || name == "socket"@
        || name == "listen"@ || name == "http_get"@ || name == "http_post"@ || name == "fetch"@
        || name == "open"@ || name == "open_file"@ || name == "read_file"@
        || name == "write_file"@ || name == "remove_file"@ || name == "system"@ || name
        == "exec"@ || name == "spawn"@ || name == "require"@ || name == "load"@ || name
        == "dofile"@ || name == "loadfile"@
}

/// The interpreter's wording for a string that grew past its limit.
pub open spec fn string_too_long_text() -> Seq<char> {
    "Length of string"@
}

/// The limit that a value or literal too large for it hit, by the
/// interpreter's wording of what was too large.
pub open spec fn size_kind(what: Seq<char>) -> ErrorKind {
    if what == string_too_long_text() {
        ErrorKind::LimitExceeded(Limit::StringLength)
    } else {
        ErrorKind::LimitExceeded(Limit::ArraySize)
    }
}

/// The kind of failure that a parse failure is classified as.
pub open spec fn parse_kind(p: ParseFailure) -> ErrorKind {
    match p {
        ParseFailure::Reserved(s) => if is_disabled_symbol(s@) {
            ErrorKind::DisabledCapability
        } else {
            ErrorKind::CompileError
        },
        ParseFailure::ImproperSymbol(s) => if is_disabled_symbol(s@) {
            ErrorKind::DisabledCapability
        } else {
            ErrorKind::CompileError
        },
        ParseFailure::LiteralTooLarge(what) => size_kind(what@),
        ParseFailure::Other(_) => ErrorKind::CompileError,
    }
}

/// The kind of failure that an interpreter failure is classified as, where
/// `entry` is the entry point that was asked for, if any. The interpreter
/// names a missing entry point by its bare name, and a missing function that
/// the script calls by its call signature (name, then the argument types in
/// parentheses). A failure inside a called function is classified as if no
/// entry point had been asked for: the entry point was found.
pub open spec fn kind_of(e: EngineError, entry: Option<Seq<char>>) -> ErrorKind
    decreases e,
{
    match e {
        EngineError::Parse(p) => parse_kind(p),
        EngineError::Nested(inner) => kind_of(*inner, None),
        EngineError::FunctionNotFound(sig) => if entry == Some(sig@) {
            ErrorKind::FunctionNotFound
        } else if is_forbidden_call(name_of_call(sig@)) {
            ErrorKind::DisabledCapability
        } else {
            ErrorKind::RuntimeError
        },
        EngineError::TooManyOperations => ErrorKind::LimitExceeded(Limit::Operations),
        EngineError::DataTooLarge(what) => size_kind(what@),
        EngineError::Terminated => ErrorKind::LimitExceeded(Limit::Time),
        EngineError::Runtime(_) => ErrorKind::RuntimeError,
    }
}

/// The message that goes with a parse failure.
pub open spec fn parse_message(p: ParseFailure) -> Seq<char> {
    match p {
        ParseFailure::Reserved(s) => s@,
        ParseFailure::ImproperSymbol(s) => s@,
        ParseFailure::LiteralTooLarge(what) => what@,
        ParseFailure::Other(m) => m@,
    }
}

/// The message that goes with an interpreter failure: that of the innermost
/// failure.
pub open spec fn message_of(e: EngineError) -> Seq<char>
    decreases e,
{
    match e {
        EngineError::Parse(p) => parse_message(p),
        EngineError::Nested(inner) => message_of(*inner),
        EngineError::FunctionNotFound(sig) => sig@,
        EngineError::TooManyOperations => "operation limit reached"@,
        EngineError::DataTooLarge(what) => what@,
        EngineError::Terminated => "time limit reached"@,
        EngineError::Runtime(m) => m@,
    }
}

/// The canonical text of a value: the unit value renders as `nil`, every
/// other value as the interpreter renders it.
pub open spec fn render(v: EngineValue) -> Seq<char> {
    if v.is_unit {
        "nil"@
    } else {
        v.text@
    }
}

/// The size in characters of the canonical text of a value.
pub open spec fn rendered_size(v: EngineValue) -> nat {
    render(v).len()
}

/// The message of a result whose text is longer than the string limit.
pub open spec fn result_too_long_text() -> Seq<char> {
    "Length of result"@
}

/// The caller-facing outcome of what the interpreter returned, where `entry`
/// is the entry point that was asked for, if any, and `max_len` the longest
/// text, in characters, that may be handed out: the canonical text of the value
/// when it fits, the classified failure otherwise.
pub open spec fn outcome_spec(
    raw: Result<EngineValue, EngineError>,
    entry: Option<Seq<char>>,
    max_len: nat,
) -> Result<Seq<char>, (ErrorKind, Seq<char>)> {
    match raw {
        Ok(v) => if rendered_size(v) <= max_len {
            Ok(render(v))
        } else {
            Err((ErrorKind::LimitExceeded(Limit::StringLength), result_too_long_text()))
        },
        Err(e) => Err((kind_of(e, entry), message_of(e))),
    }
}

/// The view of an execution outcome: the result text, or the failure's kind
/// and message.
pub open spec fn outcome_view(r: Result<String, ExecError>) -> Result<Seq<char>, (ErrorKind, Seq<char>)> {
    match r {
        Ok(v) => Ok(v@),
        Err(e) => Err((e.kind, e.message@)),
    }
}

/// Whether a run that has taken `elapsed_ms` milliseconds is past a
/// wall-clock limit of `limit_ms` milliseconds.
pub fn deadline_passed(elapsed_ms: u128, limit_ms: u64) -> (r: bool)
    ensures
        r == (elapsed_ms > limit_ms),
{
    elapsed_ms > limit_ms as u128
}

/// Whether `name` is one of the symbols that the sandbox disables.
pub fn disabled_symbol(name: &str) -> (r: bool)
    ensures
        r == is_disabled_symbol(name@),
{
    same_text(name, "eval") || same_text(name, "import")
}

/// Whether `name` is a function that reaches files, processes or modules.
pub fn forbidden_call(name: &str) -> (r: bool)
    ensures
        r == is_forbidden_call(name@),
{
    disabled_symbol(name) || same_text(name, "sleep") || same_text(name, "connect") || same_text(
        name,
        "socket",
    ) || same_text(name, "listen") || same_text(name, "http_get") || same_text(name, "http_post")
        || same_text(name, "fetch") || same_text(name, "open") || same_text(name, "open_file")
        || same_text(name, "read_file") || same_text(name, "write_file") || same_text(
        name,
        "remove_file",
    ) || same_text(name, "system") || same_text(name, "exec") || same_text(name, "spawn")
        || same_text(name, "require") || same_text(name, "load") || same_text(name, "dofile")
        || same_text(name, "loadfile")
}

fn size_limit(what: &str) -> (r: ErrorKind)
    ensures
        r == size_kind(what@),
{
    if same_text(what, "Length of string") {
        ErrorKind::LimitExceeded(Limit::StringLength)
    } else {
        ErrorKind::LimitExceeded(Limit::ArraySize)
    }
}

fn classify_parse(p: &ParseFailure) -> (r: ErrorKind)
    ensures
        r == parse_kind(*p),
{
    match p {
        ParseFailure::Reserved(s) => if disabled_symbol(s.as_str()) {
            ErrorKind::DisabledCapability
        } else {
            ErrorKind::CompileError
        },
        ParseFailure::ImproperSymbol(s) => if disabled_symbol(s.as_str()) {
            ErrorKind::DisabledCapability
        } else {
            ErrorKind::CompileError
        },
        ParseFailure::LiteralTooLarge(what) => size_limit(what.as_str()),
        ParseFailure::Other(_) => ErrorKind::CompileError,
    }
}

/// Classifies an interpreter failure; `entry` is the entry point that was
/// asked for, if any.
pub fn classify(e: &EngineError, entry: Option<&str>) -> (r: ErrorKind)
    ensures
        r == kind_of(*e, match entry {
            Some(s) => Some(s@),
            None => None,
        }),
    decreases *e,
{
    match e {
        EngineError::Parse(p) => classify_parse(p),
        EngineError::Nested(inner) => classify(inner, None),
        EngineError::FunctionNotFound(sig) => {
            let name = call_name(sig.as_str());
            let is_entry = match entry {
                Some(en) => same_text(en, sig.as_str()),
                None => false,
            };
            if is_entry {
                ErrorKind::FunctionNotFound
            } else if forbidden_call(name) {
                ErrorKind::DisabledCapability
            } else {
                ErrorKind::RuntimeError
            }
        },
        EngineError::TooManyOperations => ErrorKind::LimitExceeded(Limit::Operations),
        EngineError::DataTooLarge(what) => size_limit(what.as_str()),
        EngineError::Terminated => ErrorKind::LimitExceeded(Limit::Time),
        EngineError::Runtime(_) => ErrorKind::RuntimeError,
    }
}

/// The message that goes with an interpreter failure.
fn message(e: EngineError) -> (r: String)
    ensures
        r@ == message_of(e),
    decreases e,
{
    match e {
        EngineError::Parse(p) => match p {
            ParseFailure::Reserved(s) => s,
            ParseFailure::ImproperSymbol(s) => s,
            ParseFailure::LiteralTooLarge(what) => what,
            ParseFailure::Other(m) => m,
        },
        EngineError::Nested(inner) => message(*inner),
        EngineError::FunctionNotFound(sig) => sig,
        EngineError::TooManyOperations => "operation limit reached".to_owned(),
        EngineError::DataTooLarge(what) => what,
        EngineError::Terminated => "time limit reached".to_owned(),
        EngineError::Runtime(m) => m,
    }
}

fn too_long() -> (r: ExecError)
    ensures
        r.kind == ErrorKind::LimitExceeded(Limit::StringLength),
        r.message@ == result_too_long_text(),
{
    ExecError { kind: ErrorKind::LimitExceeded(Limit::StringLength), message: "Length of result".to_owned() }
}

/// Turns what the interpreter returned into the caller-facing outcome.
pub fn outcome_of(raw: Result<EngineValue, EngineError>, entry: Option<&str>, max_len: usize) -> (r:
    Result<String, ExecError>)
    ensures
        outcome_view(r) == outcome_spec(
            raw,
            match entry {
                Some(s) => Some(s@),
                None => None,
            },
            max_len as nat,
        ),
{
    match raw {
        Ok(v) => {
            if v.is_unit {
                proof {
                    reveal_strlit("nil");
                }
                if max_len >= 3 {
                    Ok("nil".to_owned())
                } else {
                    Err(too_long())
                }
            } else if v.text.as_str().unicode_len() <= max_len {
                Ok(v.text)
            } else {
                Err(too_long())
            }
        },
        Err(e) => {
            let kind = classify(&e, entry);
            let message = message(e);
            Err(ExecError { kind, message })
        },
    }
}

/// The kind of failure an outcome holds, if it is one.
pub open spec fn failure_kind(o: Result<Seq<char>, (ErrorKind, Seq<char>)>) -> Option<ErrorKind> {
    match o {
        Ok(_) => None,
        Err((k, _)) => Some(k),
    }
}

/// A run stopped by its operation budget is reported as
/// `LimitExceeded(Operations)`, whatever entry point was asked for.
pub proof fn operation_budget_is_reported(entry: Option<Seq<char>>, max_len: nat)
    ensures
        failure_kind(outcome_spec(Err(EngineError::TooManyOperations), entry, max_len)) == Some(
            ErrorKind::LimitExceeded(Limit::Operations),
        ),
{
}

/// A script that the interpreter rejects for using a disabled symbol, or that
/// calls a forbidden function other than the requested entry point, never
/// succeeds: it is reported as `DisabledCapability`.
pub proof fn disabled_capabilities_are_reported(name: String, entry: Option<Seq<char>>, max_len: nat)
    ensures
        is_disabled_symbol(name@) ==> outcome_spec(
            Err(EngineError::Parse(ParseFailure::ImproperSymbol(name))),
            entry,
            max_len,
        )
            == Err::<Seq<char>, (ErrorKind, Seq<char>)>((ErrorKind::DisabledCapability, name@)),
        is_forbidden_call(name_of_call(name@)) && entry != Some(name@) ==> outcome_spec(
            Err(EngineError::FunctionNotFound(name)),
            entry,
            max_len,
        ) == Err::<Seq<char>, (ErrorKind, Seq<char>)>((ErrorKind::DisabledCapability, name@)),
{
}

/// A result whose text is exactly as long as the string limit is handed out
/// unchanged; one character more and the run fails with
/// `LimitExceeded(StringLength)`, as does a run in which the interpreter
/// reports a string grown past the limit.
pub proof fn string_limit_boundary(v: EngineValue, entry: Option<Seq<char>>, max_len: nat)
    ensures
        rendered_size(v) == max_len ==> outcome_spec(Ok(v), entry, max_len) == Ok::<
            Seq<char>,
            (ErrorKind, Seq<char>),
        >(render(v)),
        rendered_size(v) == max_len + 1 ==> failure_kind(outcome_spec(Ok(v), entry, max_len)) == Some(
            ErrorKind::LimitExceeded(Limit::StringLength),
        ),
        forall|what: String|
            what@ == string_too_long_text() ==> failure_kind(
                #[trigger] outcome_spec(Err(EngineError::DataTooLarge(what)), entry, max_len),
            ) == Some(ErrorKind::LimitExceeded(Limit::StringLength)),
{
}

/// A failure that the interpreter reports is never a `ConfigError`, and it is
/// a `FunctionNotFound` only where an entry point was asked for.
pub proof fn interpreter_failures_are_never_config_errors(e: EngineError, entry: Option<Seq<char>>)
    ensures
        kind_of(e, entry) != ErrorKind::ConfigError,
        entry is None ==> kind_of(e, entry) != ErrorKind::FunctionNotFound,
    decreases e,
{
    if let EngineError::Nested(inner) = e {
        interpreter_failures_are_never_config_errors(*inner, None);
    }
}

} // verus!
