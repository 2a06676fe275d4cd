//! The start function of an instance.
use crate::version::ApiVersion;
use vstd::prelude::*;

verus! {

/// An instance of the WebAssembly engine.
#[verifier::external_type_specification]
#[verifier::external_body]
pub struct ExInstance(wasmtime::Instance);

/// A function of the WebAssembly engine with a known signature.
#[verifier::external_type_specification]
#[verifier::external_body]
#[verifier::reject_recursive_types(Params)]
#[verifier::reject_recursive_types(Results)]
pub struct ExTypedFunc<Params, Results>(wasmtime::TypedFunc<Params, Results>);

/// The functions that an instance exports, by name: each as a function without parameters and
/// results, or none where it has some.
pub uninterp spec fn instance_functions(instance: wasmtime::Instance) -> Map<
    Seq<char>,
    Option<wasmtime::TypedFunc<(), ()>>,
>;

/// Calls `wasmtime::Instance::get_func`, and `wasmtime::Func::typed` on what it finds. Claimed:
/// something is found exactly if the instance exports a function of that name; and what comes of
/// it is that function, or an error where it has parameters or results.
#[verifier::external_body]
fn exported_procedure(instance: &wasmtime::Instance, name: &str) -> (found: Option<
    Result<wasmtime::TypedFunc<(), ()>, anyhow::Error>,
>)
    ensures
        (found is Some) == instance_functions(*instance).contains_key(name@),
        found matches Some(typed) ==> match typed {
            Ok(func) => instance_functions(*instance)[name@] == Some(func),
            Err(_) => instance_functions(*instance)[name@] is None,
        },
{
    let func = instance.get_func(name)?;
    Some(func.typed::<(), ()>().cloned())
}

/// What is said of an instance without a start function.
pub const START_NOT_FOUND: &'static str = "`_start` function not found";

/// Why an instance cannot be started.
pub enum StartError {
    /// It has no start function.
    NotFound,
    /// Its start function has parameters or results.
    Mistyped(anyhow::Error),
}

impl StartError {
    /// What is said of the error, where the engine says nothing itself.
    pub fn text(&self) -> (text: Option<&'static str>)
        ensures
            text is Some <==> *self is NotFound,
            text is Some ==> text->0@ == "`_start` function not found"@,
    {
        match self {
            StartError::NotFound => Some(START_NOT_FOUND),
            StartError::Mistyped(_) => None,
        }
    }
}

/// What a search for the start function leads to.
pub enum StartResolution {
    /// The instance is not started.
    Skip,
    /// The start function is called.
    Call,
    /// There is no start function.
    NotFound,
    /// The start function has parameters or results.
    Mistyped,
}

/// A legacy module is not started; any other has to export a function `_start` that takes
/// nothing and returns nothing.
pub open spec fn start_resolution(
    legacy: bool,
    functions: Map<Seq<char>, Option<wasmtime::TypedFunc<(), ()>>>,
) -> StartResolution {
    if legacy {
        StartResolution::Skip
    } else if !functions.contains_key("_start"@) {
        StartResolution::NotFound
    } else if functions["_start"@] is Some {
        StartResolution::Call
    } else {
        StartResolution::Mistyped
    }
}

/// What to make of a search for the start function: it has to be there, and to have the right
/// signature.
pub fn require_start<F>(found: Option<Result<F, anyhow::Error>>) -> (result: Result<F, StartError>)
    ensures
        match found {
            None => result == Err::<F, StartError>(StartError::NotFound),
            Some(Ok(start)) => result == Ok::<F, StartError>(start),
            Some(Err(error)) => result == Err::<F, StartError>(StartError::Mistyped(error)),
        },
{
    match found {
        None => Err(StartError::NotFound),
        Some(Ok(start)) => Ok(start),
        Some(Err(error)) => Err(StartError::Mistyped(error)),
    }
}

/// The start function to call on `instance`; none for a legacy module.
pub fn resolve_start(instance: &wasmtime::Instance, version: &ApiVersion) -> (result: Result<
    Option<wasmtime::TypedFunc<(), ()>>,
    StartError,
>)
    requires
        version@.well_formed(),
    ensures
        match start_resolution(version@.legacy(), instance_functions(*instance)) {
            StartResolution::Skip => result is Ok && result->Ok_0 is None,
            StartResolution::Call => result is Ok && result->Ok_0 is Some && result->Ok_0
                == instance_functions(*instance)["_start"@],
            StartResolution::NotFound => result is Err && result->Err_0 is NotFound,
            StartResolution::Mistyped => result is Err && result->Err_0 is Mistyped,
        },
        result matches Ok(None) <==> version@.legacy(),
        !version@.legacy() && instance_functions(*instance).contains_key("_start"@)
            && instance_functions(*instance)["_start"@] is Some ==> result is Ok && result->Ok_0
            == instance_functions(*instance)["_start"@],
        result is Err && result->Err_0 is NotFound <==> !version@.legacy() && !instance_functions(
            *instance,
        ).contains_key("_start"@),
{
    if version.is_legacy() {
        return Ok(None);
    }
    match require_start(exported_procedure(instance, "_start")) {
        Ok(start) => Ok(Some(start)),
        Err(error) => Err(error),
    }
}

/// A module that is not legacy is started exactly if it exports a function `_start` without
/// parameters and results, and lacks its start function exactly if it exports no function of that
/// name; a legacy module is not started, whatever it exports.
pub proof fn law_start_function_decides(
    functions: Map<Seq<char>, Option<wasmtime::TypedFunc<(), ()>>>,
)
    ensures
        start_resolution(false, functions) == StartResolution::NotFound
            <==> !functions.contains_key("_start"@),
        start_resolution(false, functions) == StartResolution::Call <==> functions.contains_key(
            "_start"@,
        ) && functions["_start"@] is Some,
        start_resolution(false, functions) == StartResolution::Mistyped
            <==> functions.contains_key("_start"@) && functions["_start"@] is None,
        start_resolution(true, functions) == StartResolution::Skip,
{
}

/// What else is exported makes no difference: two instances that agree at `_start` are started
/// alike.
pub proof fn law_other_exports_make_no_difference(
    legacy: bool,
    functions: Map<Seq<char>, Option<wasmtime::TypedFunc<(), ()>>>,
    others: Map<Seq<char>, Option<wasmtime::TypedFunc<(), ()>>>,
)
    requires
        functions.contains_key("_start"@) <==> others.contains_key("_start"@),
        functions.contains_key("_start"@) ==> functions["_start"@] == others["_start"@],
    ensures
        start_resolution(legacy, functions) == start_resolution(legacy, others),
{
}

} // verus!
