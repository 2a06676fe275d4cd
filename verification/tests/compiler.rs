use matchstick::compiler::{Compiler, DirEntry, BIN_DIRECTORY};
use matchstick::failure::Failure;

fn strings(texts: &[&str]) -> Vec<String> {
    texts.iter().map(|text| text.to_string()).collect()
}

#[test]
fn default_compiler_compiles_a_file() {
    let entry = DirEntry::File("./tests/gravity.test.ts".to_string());
    let invocation = Compiler::default().compile("gravity".to_string(), entry);
    assert_eq!(invocation.program, "./node_modules/assemblyscript/bin/asc");
    assert_eq!(
        invocation.args,
        strings(&[
            "./tests/gravity.test.ts",
            "./node_modules/@graphprotocol/graph-ts/global/global.ts",
            "--lib",
            "./node_modules/",
            "--explicitStart",
            "--outFile",
            "./tests/.bin/gravity.wasm",
        ])
    );
    assert_eq!(invocation.out_file, "./tests/.bin/gravity.wasm");
    assert_eq!(BIN_DIRECTORY, "./tests/.bin/");
}

#[test]
fn options_are_passed_in_the_order_of_the_calls() {
    let compiler = Compiler::default()
        .export_table()
        .runtime("stub")
        .optimize()
        .debug()
        .export_runtime()
        .enable("bulk-memory");
    let entry = DirEntry::File("a.ts".to_string());
    let invocation = compiler.compile("a".to_string(), entry);
    assert_eq!(
        invocation.args[4..],
        strings(&[
            "--explicitStart",
            "--exportTable",
            "--runtime",
            "stub",
            "--optimize",
            "--debug",
            "--exportRuntime",
            "--enable",
            "bulk-memory",
            "--outFile",
            "./tests/.bin/a.wasm",
        ])
    );
}

#[test]
fn options_may_be_repeated() {
    let compiler = Compiler::default().optimize().optimize();
    let invocation = compiler.compile("a".to_string(), DirEntry::Directory(Vec::new()));
    assert_eq!(
        invocation.args[3..],
        strings(&[
            "--explicitStart",
            "--optimize",
            "--optimize",
            "--outFile",
            "./tests/.bin/a.wasm",
        ])
    );
}

#[test]
fn directory_yields_its_test_files_in_order() {
    let paths = strings(&[
        "./tests/g/z.test.ts",
        "./tests/g/utils.ts",
        "./tests/g/.test.ts",
        "./tests/g/a.test.tsx",
        "./tests/g/a.test.ts",
        "./tests/g/b.TEST.ts",
        "test.ts",
    ]);
    let (in_files, out_file) =
        Compiler::get_paths_for("g".to_string(), DirEntry::Directory(paths));
    assert_eq!(
        in_files,
        strings(&["./tests/g/z.test.ts", "./tests/g/.test.ts", "./tests/g/a.test.ts"])
    );
    assert_eq!(out_file, "./tests/.bin/g.wasm");
}

#[test]
fn file_is_taken_whatever_its_name() {
    let (in_files, out_file) =
        Compiler::get_paths_for("readme".to_string(), DirEntry::File("README.md".to_string()));
    assert_eq!(in_files, strings(&["README.md"]));
    assert_eq!(out_file, "./tests/.bin/readme.wasm");
}

#[test]
fn empty_directory_yields_no_files() {
    let (in_files, out_file) =
        Compiler::get_paths_for(String::new(), DirEntry::Directory(Vec::new()));
    assert!(in_files.is_empty());
    assert_eq!(out_file, "./tests/.bin/.wasm");
}

#[test]
fn names_beyond_ascii_are_kept() {
    let paths = strings(&["./tests/\u{e9}t\u{e9}.test.ts", "\u{1f980}"]);
    let (in_files, out_file) =
        Compiler::get_paths_for("\u{e9}t\u{e9}".to_string(), DirEntry::Directory(paths));
    assert_eq!(in_files, strings(&["./tests/\u{e9}t\u{e9}.test.ts"]));
    assert_eq!(out_file, "./tests/.bin/\u{e9}t\u{e9}.wasm");
}

#[test]
fn output_carries_what_the_program_left() {
    let entry = DirEntry::File("a.ts".to_string());
    let invocation = Compiler::default().compile("a".to_string(), entry);
    let last = invocation.args[invocation.args.len() - 1].clone();
    let output = invocation.finish(7i32, vec![1u8, 2], vec![3u8]);
    assert_eq!(output.status, 7);
    assert_eq!(output.stdout, vec![1u8, 2]);
    assert_eq!(output.stderr, vec![3u8]);
    assert_eq!(output.file, "./tests/.bin/a.wasm");
    assert_eq!(output.file, last);
}

#[test]
fn failures_say_what_went_wrong() {
    let error = || "denied".to_string();
    assert_eq!(
        Failure::BinDirectory(error()).message(),
        "Something went wrong when trying to create `./tests/.bin/`: denied"
    );
    assert_eq!(
        Failure::DeploymentId(error()).message(),
        "Could not create deployment id: denied"
    );
    let path = "./tests/.bin/a.wasm".to_string();
    assert_eq!(
        Failure::ModuleFile { path, error: error() }.message(),
        "Something went wrong while trying to read `./tests/.bin/a.wasm`: denied"
    );
    assert_eq!(
        Failure::InvalidModule(error()).message(),
        "Could not create ValidModule: denied"
    );
    assert_eq!(
        Failure::Instance(error()).message(),
        "Could not create WasmInstance from valid module with context: denied"
    );
}
