use matchstick::instance::{InstanceSettings, MatchstickInstance, SetupError, Stage};
use matchstick::plan::ModuleImports;
use matchstick::slot::ContextSlot;
use matchstick::start::{require_start, resolve_start, StartError};
use matchstick::version::ApiVersion;
use matchstick::watchdog::Span;
use wasmtime::{Engine, Func, Instance, Linker, Module, Store};

fn settings(version: ApiVersion, timeout: Option<Span>) -> InstanceSettings {
    let mut settings = InstanceSettings::of_module("a.wasm");
    settings.api_version = version;
    settings.timeout = timeout;
    settings
}

fn set_up(version: ApiVersion) -> MatchstickInstance {
    let imports = ModuleImports::new();
    MatchstickInstance::from_valid_module_with_ctx(settings(version, None), &imports, &Vec::new())
}

fn current() -> ApiVersion {
    ApiVersion::new(0, 0, 5)
}

fn legacy() -> ApiVersion {
    ApiVersion::new(0, 0, 4)
}

/// Guests declare an even number of types: the engine lays their contexts out aligned then, which
/// builds with debug assertions insist on.
fn guest(wat: &str) -> Instance {
    let engine = Engine::default();
    let store = Store::new(&engine);
    Instance::new(&store, &Module::new(&engine, wat).unwrap(), &[]).unwrap()
}

fn empty_linker() -> Linker {
    Linker::new(&Store::new(&Engine::default()))
}

#[test]
fn module_is_tested_with_fixed_settings() {
    let settings = InstanceSettings::of_module("./tests/.bin/a.wasm");
    assert_eq!(settings.wasm_path, "./tests/.bin/a.wasm");
    assert_eq!(settings.subgraph_id, "ipfsMap");
    assert_eq!(settings.deployment_id, 42);
    assert_eq!(settings.api_version.release(), (0, 0, 5));
    assert!(!settings.api_version.is_legacy());
    assert!(settings.allow_non_deterministic_ipfs);
    assert!(settings.timeout.is_none());
}

#[test]
fn new_instance_is_to_be_linked() {
    let mut imports = ModuleImports::new();
    imports.record("box.profile".to_string(), "index".to_string());
    imports.record("log.log".to_string(), "index".to_string());
    let instance = MatchstickInstance::new("a.wasm", &imports, &Vec::new());
    assert_eq!(instance.stage(), Stage::Linking);
    assert_eq!(instance.settings().wasm_path, "a.wasm");
    assert_eq!(instance.plan().len(), 1);
    assert_eq!(instance.plan()[0].name, "log.log");
}

#[test]
fn path_decides_nothing_but_itself() {
    let imports = ModuleImports::new();
    let one = MatchstickInstance::new("a.wasm", &imports, &Vec::new());
    let other = MatchstickInstance::new("./b.wasm", &imports, &Vec::new());
    let (one, other) = (one.settings(), other.settings());
    assert_eq!((one.wasm_path.as_str(), other.wasm_path.as_str()), ("a.wasm", "./b.wasm"));
    assert_eq!((one.subgraph_id.as_str(), other.subgraph_id.as_str()), ("ipfsMap", "ipfsMap"));
    assert_eq!((one.deployment_id, other.deployment_id), (42, 42));
    assert_eq!(one.api_version.release(), other.api_version.release());
    assert!(one.timeout.is_none() && other.timeout.is_none());
}

#[test]
fn instance_is_started_and_can_be_used() {
    let mut instance = set_up(current());
    assert_eq!(instance.stage(), Stage::Linking);
    instance.link(&mut empty_linker(), Vec::new());
    assert_eq!(instance.stage(), Stage::Instantiating);
    instance.instantiated(Ok(false));
    assert_eq!(instance.stage(), Stage::MakingContext);
    instance.context_made(Ok(()));
    assert_eq!(instance.stage(), Stage::ResolvingStart);
    let module = r#"(module
        (global $g (mut i32) (i32.const 3))
        (func (export "_start") (global.set $g (i32.const 8)))
        (func (export "get") (result i32) global.get $g))"#;
    let guest = guest(module);
    let start = instance.resolve_start(&guest).unwrap();
    assert_eq!(instance.stage(), Stage::CallingStart);
    start.call(()).unwrap();
    let get = guest.get_func("get").unwrap();
    assert_eq!(get.typed::<(), i32>().unwrap().call(()).unwrap(), 8);
    instance.started();
    assert_eq!(instance.stage(), Stage::Ready);
    assert!(instance.finish().is_ok());
}

#[test]
fn context_that_is_there_is_not_made_again() {
    let mut instance = set_up(current());
    instance.link(&mut empty_linker(), Vec::new());
    instance.instantiated(Ok(true));
    assert_eq!(instance.stage(), Stage::ResolvingStart);
}

#[test]
fn slot_decides_whether_a_context_is_made() {
    let mut instance = set_up(current());
    instance.link(&mut empty_linker(), Vec::new());
    instance.instance_made(&ContextSlot::<u8, u16>::Ready(5));
    assert_eq!(instance.stage(), Stage::ResolvingStart);

    let mut instance = set_up(legacy());
    instance.link(&mut empty_linker(), Vec::new());
    let mut slot: ContextSlot<u8, u16> = ContextSlot::Pending(5);
    instance.instance_made(&slot);
    assert_eq!(instance.stage(), Stage::MakingContext);
    instance.make_context(&mut slot, |mapping| Ok(u16::from(mapping) + 1));
    assert_eq!(instance.stage(), Stage::Ready);
    assert_eq!(slot.context().copied(), Some(6));
}

#[test]
fn context_that_cannot_be_made_uses_the_slot_up() {
    let mut instance = set_up(current());
    instance.link(&mut empty_linker(), Vec::new());
    let mut slot: ContextSlot<u8, u16> = ContextSlot::Pending(5);
    instance.instance_made(&slot);
    instance.make_context(&mut slot, |_mapping| Err(anyhow::Error::msg("no memory")));
    assert_eq!(instance.stage(), Stage::Failed);
    assert!(matches!(slot, ContextSlot::Spent));
    match instance.finish() {
        Err(SetupError::Context(error)) => assert_eq!(error.to_string(), "no memory"),
        _ => panic!("the failure was lost"),
    }
}

#[test]
fn legacy_instance_is_not_started() {
    let mut instance = set_up(legacy());
    instance.link(&mut empty_linker(), Vec::new());
    instance.instantiated(Ok(false));
    assert_eq!(instance.stage(), Stage::MakingContext);
    instance.context_made(Ok(()));
    assert_eq!(instance.stage(), Stage::Ready);
    let mut early = set_up(legacy());
    early.link(&mut empty_linker(), Vec::new());
    early.instantiated(Ok(true));
    assert_eq!(early.stage(), Stage::Ready);
    assert!(early.finish().is_ok());
}

#[test]
fn timeout_asks_for_a_watchdog() {
    let imports = ModuleImports::new();
    let settings = settings(current(), Some(Span::new(5, 0)));
    let mut instance =
        MatchstickInstance::from_valid_module_with_ctx(settings, &imports, &Vec::new());
    assert_eq!(instance.stage(), Stage::ArmingWatchdog);
    instance.watchdog_armed();
    assert_eq!(instance.stage(), Stage::Linking);
}

#[test]
fn refused_link_ends_the_set_up() {
    let mut imports = ModuleImports::new();
    imports.record("abort".to_string(), "env".to_string());
    imports.record("abort".to_string(), "env".to_string());
    let mut instance = MatchstickInstance::new("a.wasm", &imports, &Vec::new());
    let mut linker = empty_linker();
    let wat = r#"(module (type (func (param i64))) (func (export "f")))"#;
    let module = Module::new(linker.store().engine(), wat).unwrap();
    let provider = Instance::new(linker.store(), &module, &[]).unwrap();
    let funcs: Vec<Func> = vec![provider.get_func("f").unwrap(), provider.get_func("f").unwrap()];
    instance.link(&mut linker, funcs);
    assert_eq!(instance.stage(), Stage::Failed);
    match instance.finish() {
        Err(SetupError::Link(error)) => {
            assert_eq!(error.to_string(), "import of `env::abort` defined twice")
        }
        _ => panic!("the link was not refused"),
    }
}

#[test]
fn failed_instantiation_ends_the_set_up() {
    let mut instance = set_up(current());
    instance.link(&mut empty_linker(), Vec::new());
    instance.instantiated(Err(anyhow::Error::msg("unknown import")));
    assert_eq!(instance.stage(), Stage::Failed);
    match instance.finish() {
        Err(SetupError::Instantiate(error)) => assert_eq!(error.to_string(), "unknown import"),
        _ => panic!("the failure was lost"),
    }
}

#[test]
fn failed_context_ends_the_set_up() {
    let mut instance = set_up(legacy());
    instance.link(&mut empty_linker(), Vec::new());
    instance.instantiated(Ok(false));
    instance.context_made(Err(anyhow::Error::msg("no memory")));
    assert_eq!(instance.stage(), Stage::Failed);
    match instance.finish() {
        Err(SetupError::Context(error)) => assert_eq!(error.to_string(), "no memory"),
        _ => panic!("the failure was lost"),
    }
}

fn failed_start(wat: &str) -> StartError {
    let mut instance = set_up(current());
    instance.link(&mut empty_linker(), Vec::new());
    instance.instantiated(Ok(true));
    assert!(instance.resolve_start(&guest(wat)).is_none());
    assert_eq!(instance.stage(), Stage::Failed);
    match instance.finish() {
        Err(SetupError::Start(error)) => error,
        _ => panic!("the start function was found"),
    }
}

#[test]
fn instance_without_start_function_fails() {
    for wat in [
        "(module)",
        r#"(module (type (func (param i64))) (func (export "start")))"#,
        r#"(module (global (export "_start") i32 (i32.const 0)))"#,
    ] {
        let error = failed_start(wat);
        assert!(matches!(error, StartError::NotFound));
        assert_eq!(error.text(), Some("`_start` function not found"));
    }
    assert_eq!(StartError::Mistyped(anyhow::Error::msg("params")).text(), None);
}

#[test]
fn start_function_takes_and_returns_nothing() {
    match failed_start(r#"(module (type (func)) (func (export "_start") (param i32)))"#) {
        StartError::Mistyped(error) => {
            assert_eq!(error.to_string(), "type mismatch with parameters")
        }
        _ => panic!("the start function was missing"),
    }
    let wat = r#"(module (type (func)) (func (export "_start") (result i32) i32.const 0))"#;
    match failed_start(wat) {
        StartError::Mistyped(error) => assert_eq!(error.to_string(), "type mismatch with results"),
        _ => panic!("the start function was missing"),
    }
}

#[test]
fn start_function_is_resolved_by_version() {
    let bare = guest("(module)");
    assert!(matches!(resolve_start(&bare, &legacy()), Ok(None)));
    assert!(matches!(resolve_start(&bare, &current()), Err(StartError::NotFound)));
    let good = guest(r#"(module (type (func (param i64))) (func (export "_start")))"#);
    assert!(matches!(resolve_start(&good, &legacy()), Ok(None)));
    assert!(matches!(resolve_start(&good, &current()), Ok(Some(_))));
}

#[test]
fn search_for_the_start_function_is_judged() {
    assert!(matches!(require_start::<u8>(None), Err(StartError::NotFound)));
    assert!(matches!(require_start(Some(Ok(3u8))), Ok(3)));
    match require_start::<u8>(Some(Err(anyhow::Error::msg("params")))) {
        Err(StartError::Mistyped(error)) => assert_eq!(error.to_string(), "params"),
        _ => panic!("the error was lost"),
    }
}
