//! The AssemblyScript compiler: which program is run, with which arguments, on which files.
use crate::text::{ends_with, has_suffix, joined, law_suffix_stands_behind_a_stem, texts};
use vstd::prelude::*;
use vstd::string::*;

verus! {

/// How the AssemblyScript compiler is called.
pub struct Compiler {
    program: String,
    global: String,
    lib: String,
    options: Vec<String>,
}

/// What a [`Compiler`] says.
pub struct CompilerView {
    /// The path of the compiler.
    pub program: Seq<char>,
    /// The file with the global declarations, which is compiled along.
    pub global: Seq<char>,
    /// The directory in which libraries are looked up.
    pub lib: Seq<char>,
    /// The options, in the order in which they are passed.
    pub options: Seq<Seq<char>>,
}

impl View for Compiler {
    type V = CompilerView;

    closed spec fn view(&self) -> CompilerView {
        CompilerView {
            program: self.program@,
            global: self.global@,
            lib: self.lib@,
            options: texts(self.options@),
        }
    }
}

impl CompilerView {
    /// The compiler as it is before any option is added.
    pub open spec fn initial() -> CompilerView {
        CompilerView {
            program: "./node_modules/assemblyscript/bin/asc"@,
            global: "./node_modules/@graphprotocol/graph-ts/global/global.ts"@,
            lib: "./node_modules/"@,
            options: seq!["--explicitStart"@],
        }
    }

    /// The compiler with `more` options behind those that it has.
    pub open spec fn with(self, more: Seq<Seq<char>>) -> CompilerView {
        CompilerView { options: self.options + more, ..self }
    }

    /// The arguments for compiling `in_files` into `out_file`.
    pub open spec fn arguments(self, in_files: Seq<Seq<char>>, out_file: Seq<char>) -> Seq<
        Seq<char>,
    > {
        in_files + seq![self.global, "--lib"@, self.lib] + self.options + seq![
            "--outFile"@,
            out_file,
        ]
    }
}

/// An entry of the directory that holds the tests.
pub enum DirEntry {
    /// A directory, with the paths of what is in it, in the order in which they are listed.
    Directory(Vec<String>),
    /// Anything else, with its path.
    File(String),
}

/// What a [`DirEntry`] says.
pub enum DirEntryView {
    /// A directory, with the paths of what is in it.
    Directory(Seq<Seq<char>>),
    /// Anything else, with its path.
    File(Seq<char>),
}

impl View for DirEntry {
    type V = DirEntryView;

    open spec fn view(&self) -> DirEntryView {
        match self {
            DirEntry::Directory(paths) => DirEntryView::Directory(texts(paths@)),
            DirEntry::File(path) => DirEntryView::File(path@),
        }
    }
}

/// Whether the file at `path` is a test file.
pub open spec fn is_test_file(path: Seq<char>) -> bool {
    has_suffix(path, ".test.ts"@)
}

/// The files that are compiled for an entry: of a directory the test files in it, else the entry
/// itself, whatever it is called.
pub open spec fn source_files(entry: DirEntryView) -> Seq<Seq<char>> {
    match entry {
        DirEntryView::Directory(paths) => paths.filter(|path: Seq<char>| is_test_file(path)),
        DirEntryView::File(path) => seq![path],
    }
}

/// The directory into which tests are compiled.
pub const BIN_DIRECTORY: &'static str = "./tests/.bin/";

/// The file into which the test called `name` is compiled.
pub open spec fn binary_of(name: Seq<char>) -> Seq<char> {
    BIN_DIRECTORY@ + name + ".wasm"@
}

/// A call of the compiler.
pub struct Invocation {
    /// The program to run.
    pub program: String,
    /// Its arguments.
    pub args: Vec<String>,
    /// The file that it writes.
    pub out_file: String,
}

/// What came of a call of the compiler. `S` is the exit status of the program that was run.
pub struct CompileOutput<S> {
    /// How the program ended.
    pub status: S,
    /// What it wrote to its standard output.
    pub stdout: Vec<u8>,
    /// What it wrote to its standard error.
    pub stderr: Vec<u8>,
    /// The file that it was to write.
    pub file: String,
}

impl Invocation {
    /// The output of the call, once the program has ended.
    pub fn finish<S>(self, status: S, stdout: Vec<u8>, stderr: Vec<u8>) -> (output: CompileOutput<
        S,
    >)
        ensures
            output.status == status,
            output.stdout == stdout,
            output.stderr == stderr,
            output.file == self.out_file,
    {
        CompileOutput { status, stdout, stderr, file: self.out_file }
    }
}

/// The paths of a list that belong to test files.
fn test_files(paths: &Vec<String>) -> (files: Vec<String>)
    ensures
        texts(files@) == texts(paths@).filter(
            |path: Seq<char>| is_test_file(path),
        ),
{
    let ghost all = texts(paths@);
    let ghost wanted = |path: Seq<char>| is_test_file(path);
    let mut files: Vec<String> = Vec::new();
    let mut i: usize = 0;
    proof {
        reveal(Seq::filter);
        assert(texts(files@) =~= all.take(0).filter(wanted));
    }
    while i < paths.len()
        invariant
            i <= paths.len(),
            all == texts(paths@),
            wanted == (|path: Seq<char>| is_test_file(path)),
            texts(files@) == all.take(i as int).filter(wanted),
        decreases paths.len() - i,
    {
        let ghost before = files@;
        if ends_with(paths[i].as_str(), ".test.ts") {
            files.push(paths[i].clone());
            assert(texts(files@) =~= texts(before).push(all[i as int]));
        }
        proof {
            reveal(Seq::filter);
            assert(all.take(i + 1).drop_last() =~= all.take(i as int));
        }
        i += 1;
    }
    assert(all.take(i as int) =~= all);
    files
}

/// Appends copies of `more` to `list`.
fn append_copies(list: &mut Vec<String>, more: &Vec<String>)
    ensures
        texts(final(list)@) == texts(old(list)@) + texts(
            more@,
        ),
{
    let ghost before = texts(list@);
    let ghost added = texts(more@);
    let mut i: usize = 0;
    assert(before + added.take(0) =~= before);
    while i < more.len()
        invariant
            i <= more.len(),
            added == texts(more@),
            texts(list@) == before + added.take(i as int),
        decreases more.len() - i,
    {
        let ghost so_far = list@;
        list.push(more[i].clone());
        assert(texts(list@) =~= texts(so_far).push(added[i as int]));
        assert(added.take(i + 1) =~= added.take(i as int).push(added[i as int]));
        i += 1;
    }
    assert(added.take(i as int) =~= added);
}

impl Default for Compiler {
    fn default() -> (compiler: Compiler)
        ensures
            compiler@ == CompilerView::initial(),
    {
        let mut options: Vec<String> = Vec::new();
        options.push("--explicitStart".to_owned());
        let compiler = Compiler {
            program: "./node_modules/assemblyscript/bin/asc".to_owned(),
            global: "./node_modules/@graphprotocol/graph-ts/global/global.ts".to_owned(),
            lib: "./node_modules/".to_owned(),
            options,
        };
        assert(compiler@.options =~= CompilerView::initial().options);
        compiler
    }
}

impl Compiler {
    /// The compiler with one more option.
    fn with_option(self, option: &str) -> (compiler: Compiler)
        ensures
            compiler@ == self@.with(seq![option@]),
    {
        let mut compiler = self;
        compiler.options.push(option.to_owned());
        assert(compiler@.options =~= self@.options + seq![option@]);
        compiler
    }

    /// The compiler with one more option and its value.
    fn with_option_value(self, option: &str, value: &str) -> (compiler: Compiler)
        ensures
            compiler@ == self@.with(seq![option@, value@]),
    {
        let compiler = self.with_option(option).with_option(value);
        assert(compiler@.options =~= self@.options + seq![option@, value@]);
        compiler
    }

    /// Lets the function table be exported.
    pub fn export_table(self) -> (compiler: Compiler)
        ensures
            compiler@ == self@.with(seq!["--exportTable"@]),
    {
        self.with_option("--exportTable")
    }

    /// Lets the output be optimized.
    pub fn optimize(self) -> (compiler: Compiler)
        ensures
            compiler@ == self@.with(seq!["--optimize"@]),
    {
        self.with_option("--optimize")
    }

    /// Lets debug information be written.
    pub fn debug(self) -> (compiler: Compiler)
        ensures
            compiler@ == self@.with(seq!["--debug"@]),
    {
        self.with_option("--debug")
    }

    /// Lets the runtime helpers be exported.
    pub fn export_runtime(self) -> (compiler: Compiler)
        ensures
            compiler@ == self@.with(seq!["--exportRuntime"@]),
    {
        self.with_option("--exportRuntime")
    }

    /// Sets the runtime variant.
    pub fn runtime(self, s: &str) -> (compiler: Compiler)
        ensures
            compiler@ == self@.with(seq!["--runtime"@, s@]),
    {
        self.with_option_value("--runtime", s)
    }

    /// Switches a language feature on.
    pub fn enable(self, s: &str) -> (compiler: Compiler)
        ensures
            compiler@ == self@.with(seq!["--enable"@, s@]),
    {
        self.with_option_value("--enable", s)
    }

    /// The files to compile for an entry, and the file into which the test called `name` is
    /// compiled.
    pub fn get_paths_for(name: String, entry: DirEntry) -> (paths: (Vec<String>, String))
        ensures
            texts(paths.0@) == source_files(entry@),
            paths.1@ == binary_of(name@),
    {
        let in_files: Vec<String> = match entry {
            DirEntry::Directory(paths) => test_files(&paths),
            DirEntry::File(path) => {
                let mut files: Vec<String> = Vec::new();
                files.push(path);
                assert(texts(files@) =~= seq![path@]);
                files
            },
        };
        let out_file: String = joined(joined(BIN_DIRECTORY, name.as_str()).as_str(), ".wasm");
        (in_files, out_file)
    }

    /// The call of the compiler that compiles an entry into the test called `name`.
    pub fn compile(&self, name: String, entry: DirEntry) -> (invocation: Invocation)
        ensures
            invocation.program@ == self@.program,
            texts(invocation.args@) == self@.arguments(
                source_files(entry@),
                binary_of(name@),
            ),
            invocation.out_file@ == binary_of(name@),
    {
        let (in_files, out_file) = Compiler::get_paths_for(name, entry);
        let ghost files = texts(in_files@);
        let mut args: Vec<String> = in_files;
        args.push(self.global.clone());
        args.push("--lib".to_owned());
        args.push(self.lib.clone());
        assert(texts(args@) =~= files + seq![self@.global, "--lib"@, self@.lib]);
        append_copies(&mut args, &self.options);
        let ghost before = args@;
        args.push("--outFile".to_owned());
        args.push(out_file.clone());
        assert(texts(args@) =~= texts(before) + seq![
            "--outFile"@,
            out_file@,
        ]);
        Invocation { program: self.program.clone(), args, out_file }
    }
}

/// Options that are added one after the other are passed in that order.
pub proof fn law_options_accumulate(
    compiler: CompilerView,
    first: Seq<Seq<char>>,
    second: Seq<Seq<char>>,
)
    ensures
        compiler.with(first).with(second) == compiler.with(first + second),
{
    assert(compiler.options + first + second =~= compiler.options + (first + second));
}

/// Whatever options are added, the explicit start stays the first of them, and the paths of the
/// compiler stay what they are.
pub proof fn law_explicit_start_comes_first(more: Seq<Seq<char>>)
    ensures
        CompilerView::initial().with(more).options[0] == "--explicitStart"@,
        CompilerView::initial().with(more).program == CompilerView::initial().program,
        CompilerView::initial().with(more).global == CompilerView::initial().global,
        CompilerView::initial().with(more).lib == CompilerView::initial().lib,
{
}

/// The sources come first among the arguments, and the output file comes last, behind its flag.
pub proof fn law_sources_first_and_output_last(
    compiler: CompilerView,
    in_files: Seq<Seq<char>>,
    out_file: Seq<char>,
)
    ensures
        ({
            let args = compiler.arguments(in_files, out_file);
            &&& args.len() == in_files.len() + compiler.options.len() + 5
            &&& args.take(in_files.len() as int) == in_files
            &&& args[args.len() - 2] == "--outFile"@
            &&& args.last() == out_file
        }),
{
    assert(compiler.arguments(in_files, out_file).take(in_files.len() as int) =~= in_files);
}

/// Of a directory exactly the test files in it are compiled.
pub proof fn law_directory_yields_its_test_files(paths: Seq<Seq<char>>, path: Seq<char>)
    ensures
        source_files(DirEntryView::Directory(paths)).contains(path) <==> paths.contains(path)
            && is_test_file(path),
    decreases paths.len(),
{
    reveal(Seq::filter);
    if paths.len() > 0 {
        let front = paths.drop_last();
        let kept = source_files(DirEntryView::Directory(front));
        let all_kept = source_files(DirEntryView::Directory(paths));
        law_directory_yields_its_test_files(front, path);
        assert(paths =~= front.push(paths.last()));
        assert(front.push(paths.last()).contains(path) <==> front.contains(path) || path
            == paths.last()) by {
            lemma_push_contains(front, paths.last(), path);
        }
        if is_test_file(paths.last()) {
            lemma_push_contains(kept, paths.last(), path);
            assert(all_kept == kept.push(paths.last()));
        }
    }
}

proof fn lemma_push_contains<A>(items: Seq<A>, last: A, item: A)
    ensures
        items.push(last).contains(item) <==> items.contains(item) || item == last,
{
    let more = items.push(last);
    if items.contains(item) {
        let i = choose|i: int| 0 <= i < items.len() && items[i] == item;
        assert(more[i] == item);
    }
    if item == last {
        assert(more[items.len() as int] == item);
    }
    if more.contains(item) {
        let i = choose|i: int| 0 <= i < more.len() && more[i] == item;
        if i < items.len() {
            assert(items[i] == item);
        }
    }
}

/// Tests with different names are compiled into different files.
pub proof fn law_binaries_differ(a: Seq<char>, b: Seq<char>)
    requires
        a != b,
    ensures
        binary_of(a) != binary_of(b),
{
    let start = BIN_DIRECTORY@;
    let end = ".wasm"@;
    if binary_of(a) == binary_of(b) {
        assert(binary_of(a).len() == start.len() + a.len() + end.len());
        assert(binary_of(b).len() == start.len() + b.len() + end.len());
        assert(binary_of(a).subrange(start.len() as int, (start.len() + a.len()) as int) =~= a);
        assert(binary_of(b).subrange(start.len() as int, (start.len() + b.len()) as int) =~= b);
    }
}

/// Adding options puts them behind those that are there, and changes nothing else.
pub proof fn law_adding_options_changes_nothing_else(compiler: CompilerView, more: Seq<Seq<char>>)
    ensures
        compiler.with(more).options == compiler.options + more,
        compiler.with(more).program == compiler.program,
        compiler.with(more).global == compiler.global,
        compiler.with(more).lib == compiler.lib,
{
}

/// However many sources and options there are: the sources come first, each in its place; behind
/// them stand the file with the global declarations, the library flag and the library directory;
/// then come the options, each in its place, and then the flag of the output file and that file.
pub proof fn law_each_argument_has_its_place(
    compiler: CompilerView,
    in_files: Seq<Seq<char>>,
    out_file: Seq<char>,
)
    ensures
        ({
            let args = compiler.arguments(in_files, out_file);
            let behind = in_files.len() as int;
            let end = behind + 3 + compiler.options.len();
            &&& args.len() == end + 2
            &&& forall|i: int| 0 <= i < behind ==> #[trigger] args[i] == in_files[i]
            &&& args[behind] == compiler.global
            &&& args[behind + 1] == "--lib"@
            &&& args[behind + 2] == compiler.lib
            &&& args.subrange(behind + 3, end) == compiler.options
            &&& args[end] == "--outFile"@
            &&& args[end + 1] == out_file
        }),
{
    let args = compiler.arguments(in_files, out_file);
    let behind = in_files.len() as int;
    assert(args.subrange(behind + 3, behind + 3 + compiler.options.len()) =~= compiler.options);
}

/// One more source makes one more argument, in its place among the sources, and leaves the
/// arguments behind the sources as they are.
pub proof fn law_sources_do_not_touch_the_rest(
    compiler: CompilerView,
    in_files: Seq<Seq<char>>,
    other_files: Seq<Seq<char>>,
    out_file: Seq<char>,
)
    ensures
        compiler.arguments(in_files, out_file).skip(in_files.len() as int) == compiler.arguments(
            other_files,
            out_file,
        ).skip(other_files.len() as int),
{
    assert(compiler.arguments(in_files, out_file).skip(in_files.len() as int)
        =~= compiler.arguments(other_files, out_file).skip(other_files.len() as int));
}

/// A path of a directory is among its sources if it is some stem followed by `.test.ts`, and
/// every source of a directory is a path of it of that form.
pub proof fn law_sources_of_a_directory_end_in_test_ts(
    paths: Seq<Seq<char>>,
    stem: Seq<char>,
    path: Seq<char>,
)
    ensures
        paths.contains(stem + ".test.ts"@) ==> source_files(
            DirEntryView::Directory(paths),
        ).contains(stem + ".test.ts"@),
        source_files(DirEntryView::Directory(paths)).contains(path) ==> paths.contains(path)
            && exists|front: Seq<char>| path == #[trigger] (front + ".test.ts"@),
{
    law_directory_yields_its_test_files(paths, stem + ".test.ts"@);
    law_directory_yields_its_test_files(paths, path);
    law_suffix_stands_behind_a_stem(path, stem, ".test.ts"@);
}

/// A listing is gone through path by path: a test file is kept as it is, anything else is left
/// out, and what two listings yield one after the other is what the two yield as one.
pub proof fn law_listing_is_gone_through_in_order(
    first: Seq<Seq<char>>,
    second: Seq<Seq<char>>,
    stem: Seq<char>,
    path: Seq<char>,
)
    ensures
        source_files(DirEntryView::Directory(first + second)) == source_files(
            DirEntryView::Directory(first),
        ) + source_files(DirEntryView::Directory(second)),
        source_files(DirEntryView::Directory(seq![stem + ".test.ts"@])) == seq![
            stem + ".test.ts"@,
        ],
        !(exists|front: Seq<char>| path == #[trigger] (front + ".test.ts"@)) ==> source_files(
            DirEntryView::Directory(seq![path]),
        ) == Seq::<Seq<char>>::empty(),
    decreases second.len(),
{
    reveal(Seq::filter);
    let wanted = |path: Seq<char>| is_test_file(path);
    law_suffix_stands_behind_a_stem(path, stem, ".test.ts"@);
    assert(seq![stem + ".test.ts"@].drop_last() =~= Seq::empty());
    assert(seq![path].drop_last() =~= Seq::empty());
    assert(source_files(DirEntryView::Directory(seq![stem + ".test.ts"@])) =~= seq![
        stem + ".test.ts"@,
    ]);
    if second.len() == 0 {
        assert(first + second =~= first);
        assert(source_files(DirEntryView::Directory(second)) =~= Seq::empty());
        assert(first.filter(wanted) + second.filter(wanted) =~= first.filter(wanted));
    } else {
        law_listing_is_gone_through_in_order(first, second.drop_last(), stem, path);
        assert((first + second).drop_last() =~= first + second.drop_last());
        assert((first + second).filter(wanted) =~= first.filter(wanted) + second.filter(wanted));
    }
}

/// An entry that is no directory is its own source, whatever its path is.
pub proof fn law_file_is_its_own_source(path: Seq<char>)
    ensures
        source_files(DirEntryView::File(path)) == seq![path],
{
}

/// An entry says what it holds, path by path.
pub proof fn law_entry_says_what_it_holds(paths: Vec<String>, path: String, i: int)
    ensures
        DirEntry::File(path)@ == DirEntryView::File(path@),
        DirEntry::Directory(paths)@ is Directory,
        DirEntry::Directory(paths)@->Directory_0.len() == paths@.len(),
        0 <= i < paths@.len() ==> DirEntry::Directory(paths)@->Directory_0[i] == paths@[i]@,
{
}

/// A test is compiled into the directory of compiled tests, under its name and with the extension
/// `.wasm`, whatever the name is.
pub proof fn law_binary_goes_by_the_name(name: Seq<char>)
    ensures
        binary_of(name) == "./tests/.bin/"@ + name + ".wasm"@,
{
}

} // verus!
