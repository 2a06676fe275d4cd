use matchstick::imports::HostImport;
use matchstick::linker::link_all;
use matchstick::plan::{link_plan, Link, LinkTarget, ModuleImports};
use matchstick::version::ApiVersion;
use wasmtime::{Engine, Func, Instance, Linker, Module, Store};

fn imports(pairs: &[(&str, &str)]) -> ModuleImports {
    let mut imports = ModuleImports::new();
    for (module, name) in pairs {
        imports.record(name.to_string(), module.to_string());
    }
    imports
}

fn strings(texts: &[&str]) -> Vec<String> {
    texts.iter().map(|text| text.to_string()).collect()
}

fn planned(pairs: &[(&str, &str)], host_fns: &[&str], version: &ApiVersion) -> Vec<Link> {
    link_plan(&imports(pairs), &strings(host_fns), version)
}

fn texts(plan: &[Link]) -> Vec<(&str, &str, LinkTarget)> {
    plan.iter().map(|link| (link.module.as_str(), link.name.as_str(), link.target)).collect()
}

fn current() -> ApiVersion {
    ApiVersion::new(0, 0, 5)
}

fn legacy() -> ApiVersion {
    ApiVersion::new(0, 0, 4)
}

#[test]
fn legacy_table_has_all_functions_in_order() {
    let rows: Vec<(&str, &str, usize)> = HostImport::table(true)
        .iter()
        .map(|import| (import.name(), import.section(), import.parameters()))
        .collect();
    assert_eq!(
        rows,
        vec![
            ("ethereum.call", "host_export_other", 1),
            ("ethereum.encode", "host_export_other", 1),
            ("ethereum.decode", "host_export_other", 2),
            ("abort", "host_export_other", 4),
            ("mockFunction", "host_export_other", 6),
            ("clearStore", "host_export_other", 0),
            ("logStore", "host_export_other", 0),
            ("store.get", "host_export_store_get", 2),
            ("store.set", "host_export_store_set", 3),
            ("ipfs.cat", "host_export_ipfs_cat", 1),
            ("ipfs.map", "host_export_ipfs_map", 4),
            ("store.remove", "host_export_other", 2),
            ("typeConversion.bytesToString", "host_export_other", 1),
            ("typeConversion.bytesToHex", "host_export_other", 1),
            ("typeConversion.bigIntToString", "host_export_other", 1),
            ("typeConversion.bigIntToHex", "host_export_other", 1),
            ("typeConversion.stringToH160", "host_export_other", 1),
            ("typeConversion.bytesToBase58", "host_export_other", 1),
            ("json.fromBytes", "host_export_other", 1),
            ("json.try_fromBytes", "host_export_other", 1),
            ("json.toI64", "host_export_other", 1),
            ("json.toU64", "host_export_other", 1),
            ("json.toF64", "host_export_other", 1),
            ("json.toBigInt", "host_export_other", 1),
            ("crypto.keccak256", "host_export_other", 1),
            ("bigInt.plus", "host_export_other", 2),
            ("bigInt.minus", "host_export_other", 2),
            ("bigInt.times", "host_export_other", 2),
            ("bigInt.dividedBy", "host_export_other", 2),
            ("bigInt.dividedByDecimal", "host_export_other", 2),
            ("bigInt.mod", "host_export_other", 2),
            ("bigInt.pow", "host_export_other", 2),
            ("bigInt.fromString", "host_export_other", 1),
            ("bigInt.bitOr", "host_export_other", 2),
            ("bigInt.bitAnd", "host_export_other", 2),
            ("bigInt.leftShift", "host_export_other", 2),
            ("bigInt.rightShift", "host_export_other", 2),
            ("bigDecimal.toString", "host_export_other", 1),
            ("bigDecimal.fromString", "host_export_other", 1),
            ("bigDecimal.plus", "host_export_other", 2),
            ("bigDecimal.minus", "host_export_other", 2),
            ("bigDecimal.times", "host_export_other", 2),
            ("bigDecimal.dividedBy", "host_export_other", 2),
            ("bigDecimal.equals", "host_export_other", 2),
            ("dataSource.create", "host_export_other", 2),
            ("dataSource.createWithContext", "host_export_other", 3),
            ("dataSource.address", "host_export_other", 0),
            ("dataSource.network", "host_export_other", 0),
            ("dataSource.context", "host_export_other", 0),
            ("ens.nameByHash", "host_export_other", 1),
            ("log.log", "host_export_other", 2),
            ("arweave.transactionData", "host_export_other", 1),
            ("box.profile", "host_export_other", 1),
            ("_registerTest", "host_export_other", 3),
            ("_assert.fieldEquals", "host_export_other", 4),
            ("_assert.equals", "host_export_other", 2),
            ("_assert.notInStore", "host_export_other", 2),
        ]
    );
}

#[test]
fn current_table_lacks_the_withdrawn_functions() {
    let full = HostImport::table(true);
    let kept: Vec<HostImport> = full
        .into_iter()
        .filter(|import| {
            *import != HostImport::ArweaveTransactionData && *import != HostImport::BoxProfile
        })
        .collect();
    assert_eq!(HostImport::table(false), kept);
    assert_eq!(kept.len(), 55);
}

#[test]
fn import_names_differ() {
    let table = HostImport::table(true);
    for (i, a) in table.iter().enumerate() {
        for b in &table[i + 1..] {
            assert_ne!(a.name(), b.name());
        }
    }
}

#[test]
fn plan_follows_the_table() {
    let plan = planned(
        &[("index", "log.log"), ("env", "abort"), ("index", "ethereum.call"), ("index", "unknown")],
        &[],
        &current(),
    );
    assert_eq!(
        texts(&plan),
        vec![
            ("index", "ethereum.call", LinkTarget::Import(HostImport::EthereumCall)),
            ("env", "abort", LinkTarget::Import(HostImport::Abort)),
            ("index", "log.log", LinkTarget::Import(HostImport::LogLog)),
        ]
    );
}

#[test]
fn import_is_linked_for_each_module_that_has_it() {
    let plan = planned(&[("b", "abort"), ("a", "abort"), ("b", "abort")], &[], &current());
    let target = LinkTarget::Import(HostImport::Abort);
    assert_eq!(
        texts(&plan),
        vec![("b", "abort", target), ("a", "abort", target), ("b", "abort", target)]
    );
}

#[test]
fn functions_of_the_chain_come_first() {
    let plan = planned(
        &[("env", "abort"), ("m", "chain.b"), ("n", "chain.b"), ("m", "chain.a")],
        &["chain.a", "chain.none", "chain.b"],
        &current(),
    );
    assert_eq!(
        texts(&plan),
        vec![
            ("m", "chain.a", LinkTarget::HostFn(0)),
            ("m", "chain.b", LinkTarget::HostFn(2)),
            ("n", "chain.b", LinkTarget::HostFn(2)),
            ("env", "abort", LinkTarget::Import(HostImport::Abort)),
        ]
    );
}

#[test]
fn withdrawn_functions_are_linked_for_legacy_modules_only() {
    let pairs = [("index", "_registerTest"), ("index", "box.profile"), ("index", "log.log")];
    assert_eq!(
        texts(&planned(&pairs, &[], &legacy())),
        vec![
            ("index", "log.log", LinkTarget::Import(HostImport::LogLog)),
            ("index", "box.profile", LinkTarget::Import(HostImport::BoxProfile)),
            ("index", "_registerTest", LinkTarget::Import(HostImport::RegisterTest)),
        ]
    );
    assert_eq!(
        texts(&planned(&pairs, &[], &current())),
        vec![
            ("index", "log.log", LinkTarget::Import(HostImport::LogLog)),
            ("index", "_registerTest", LinkTarget::Import(HostImport::RegisterTest)),
        ]
    );
}

#[test]
fn module_without_imports_has_an_empty_plan() {
    assert!(planned(&[], &["chain.a"], &legacy()).is_empty());
}

/// Functions of the store that return 0, 1, 2 and so on. Modules declare an even number of types
/// here: the engine lays their contexts out aligned then, which builds with debug assertions
/// insist on.
fn numbered(store: &Store, count: usize) -> Vec<Func> {
    let mut wat = String::from("(module (type (func (param i64)))");
    for i in 0..count {
        wat.push_str(&format!("(func (export \"f{}\") (result i32) i32.const {})", i, i));
    }
    wat.push(')');
    let module = Module::new(store.engine(), &wat).unwrap();
    let instance = Instance::new(store, &module, &[]).unwrap();
    (0..count).map(|i| instance.get_func(&format!("f{}", i)).unwrap()).collect()
}

#[test]
fn linked_imports_answer_the_guest() {
    let engine = Engine::default();
    let store = Store::new(&engine);
    let wat = r#"(module
        (type (func (param i64)))
        (import "index" "dataSource.network" (func $network (result i32)))
        (import "index" "clearStore" (func $clear (result i32)))
        (func (export "network") (result i32) call $network)
        (func (export "clear") (result i32) call $clear))"#;
    let module = Module::new(&engine, wat).unwrap();
    let pairs = [("index", "dataSource.network"), ("index", "clearStore")];
    let plan = planned(&pairs, &[], &current());
    let mut linker = Linker::new(&store);
    assert!(link_all(&mut linker, &plan, numbered(&store, 2)).is_ok());
    let instance: Instance = linker.instantiate(&module).unwrap();
    let call = |name: &str| {
        instance.get_func(name).unwrap().typed::<(), i32>().unwrap().call(()).unwrap()
    };
    assert_eq!(call("clear"), 0);
    assert_eq!(call("network"), 1);
}

#[test]
fn repeated_definition_is_refused() {
    let store = Store::new(&Engine::default());
    let mut linker = Linker::new(&store);
    let pairs = ["abort", "clearStore", "clearStore", "logStore"].map(|name| ("env", name));
    let plan = planned(&pairs, &[], &current());
    let error = link_all(&mut linker, &plan, numbered(&store, 4)).unwrap_err();
    assert_eq!(error.to_string(), "import of `env::clearStore` defined twice");
    assert!(linker.get_one_by_name("env", Some("abort")).is_ok());
    assert!(linker.get_one_by_name("env", Some("clearStore")).is_ok());
    assert!(linker.get_one_by_name("env", Some("logStore")).is_err());
}

#[test]
fn function_of_the_chain_may_not_take_a_table_name() {
    let store = Store::new(&Engine::default());
    let mut linker = Linker::new(&store);
    let plan = planned(&[("index", "ethereum.call")], &["ethereum.call"], &current());
    assert_eq!(plan.len(), 2);
    let error = link_all(&mut linker, &plan, numbered(&store, 2)).unwrap_err();
    assert_eq!(error.to_string(), "import of `index::ethereum.call` defined twice");
}

#[test]
fn pair_that_is_taken_is_refused() {
    let store = Store::new(&Engine::default());
    let mut linker = Linker::new(&store);
    linker.define("env", "abort", numbered(&store, 1).remove(0)).unwrap();
    let plan = planned(&[("env", "abort")], &[], &current());
    assert!(link_all(&mut linker, &plan, numbered(&store, 1)).is_err());
}

#[test]
fn shadowing_linker_takes_repeated_definitions() {
    let store = Store::new(&Engine::default());
    let mut linker = Linker::new(&store);
    linker.allow_shadowing(true);
    let plan = planned(&[("env", "abort"), ("env", "abort")], &[], &current());
    assert!(link_all(&mut linker, &plan, numbered(&store, 2)).is_ok());
}

#[test]
fn function_of_another_store_is_refused() {
    let engine = Engine::default();
    let store = Store::new(&engine);
    let other = Store::new(&engine);
    let mut linker = Linker::new(&store);
    let plan = planned(&[("env", "abort")], &[], &current());
    let error = link_all(&mut linker, &plan, numbered(&other, 1)).unwrap_err();
    assert_eq!(error.to_string(), "all linker items must be from the same store");
    assert!(linker.get_one_by_name("env", Some("abort")).is_err());
}
