//! Which host functions are linked into a module, under which module names, and in which order.
use crate::imports::{
    import_table, law_import_names_differ, law_table_has_no_repeats, law_table_is_complete,
    HostImport,
};
use crate::text::texts;
use crate::version::ApiVersion;
use vstd::prelude::*;

verus! {

/// An import name, with the modules from which a guest imports it.
struct ImportEntry {
    name: String,
    modules: Vec<String>,
}

/// The imports of a guest module: to each import name, the module names under which it occurs,
/// in order.
pub struct ModuleImports {
    entries: Vec<ImportEntry>,
}

impl ModuleImports {
    /// Whether entry `i` is that of `name`.
    spec fn is_entry_of(self, i: int, name: Seq<char>) -> bool {
        0 <= i < self.entries@.len() && self.entries@[i].name@ == name
    }

    /// The place of the entry of `name`.
    spec fn place(self, name: Seq<char>) -> int {
        choose|i: int| self.is_entry_of(i, name)
    }

    /// No import name has two entries.
    pub closed spec fn well_formed(self) -> bool {
        forall|i: int, j: int|
            0 <= i < j < self.entries@.len() ==> #[trigger] self.entries@[i].name@
                != #[trigger] self.entries@[j].name@
    }
}

impl View for ModuleImports {
    type V = Map<Seq<char>, Seq<Seq<char>>>;

    closed spec fn view(&self) -> Map<Seq<char>, Seq<Seq<char>>> {
        Map::new(
            |name: Seq<char>| exists|i: int| self.is_entry_of(i, name),
            |name: Seq<char>| texts(self.entries@[self.place(name)].modules@),
        )
    }
}

/// The module names under which `name` is imported; none if it is not imported.
pub open spec fn modules_of(imports: Map<Seq<char>, Seq<Seq<char>>>, name: Seq<char>) -> Seq<
    Seq<char>,
> {
    if imports.contains_key(name) {
        imports[name]
    } else {
        Seq::empty()
    }
}

impl ModuleImports {
    /// A module without imports.
    pub fn new() -> (imports: ModuleImports)
        ensures
            imports.well_formed(),
            imports@ == Map::<Seq<char>, Seq<Seq<char>>>::empty(),
    {
        let imports = ModuleImports { entries: Vec::new() };
        assert(imports@ =~= Map::<Seq<char>, Seq<Seq<char>>>::empty());
        imports
    }

    /// The place of the entry of `name`, if there is one.
    fn find(&self, name: &String) -> (found: Option<usize>)
        requires
            self.well_formed(),
        ensures
            found is None <==> !self@.contains_key(name@),
            found matches Some(i) ==> self.is_entry_of(i as int, name@) && self.place(name@) == i,
    {
        let mut i: usize = 0;
        while i < self.entries.len()
            invariant
                self.well_formed(),
                i <= self.entries.len(),
                forall|j: int| 0 <= j < i ==> !self.is_entry_of(j, name@),
            decreases self.entries.len() - i,
        {
            if self.entries[i].name.eq(name) {
                assert(self.is_entry_of(i as int, name@));
                assert(self.is_entry_of(self.place(name@), name@));
                return Some(i);
            }
            i += 1;
        }
        None
    }

    /// Records that the guest imports `name` from `module`.
    pub fn record(&mut self, name: String, module: String)
        requires
            old(self).well_formed(),
        ensures
            final(self).well_formed(),
            final(self)@ == old(self)@.insert(name@, modules_of(old(self)@, name@).push(module@)),
            final(self)@[name@] == if old(self)@.contains_key(name@) {
                old(self)@[name@].push(module@)
            } else {
                seq![module@]
            },
    {
        let ghost before = *self;
        let ghost text = module@;
        match self.find(&name) {
            Some(i) => {
                self.entries[i].modules.push(module);
                proof {
                    assert forall|j: int, k: int|
                        0 <= j < k < self.entries@.len() implies #[trigger] self.entries@[j].name@
                        != #[trigger] self.entries@[k].name@ by {
                        assert(before.entries@[j].name@ != before.entries@[k].name@);
                    }
                    before.lemma_modules_at(i as int);
                    assert(texts(self.entries@[i as int].modules@) =~= texts(
                        before.entries@[i as int].modules@,
                    ).push(text));
                }
            },
            None => {
                let mut modules: Vec<String> = Vec::new();
                modules.push(module);
                self.entries.push(ImportEntry { name, modules });
                proof {
                    let last = before.entries@.len() as int;
                    assert forall|j: int, k: int|
                        0 <= j < k < self.entries@.len() implies #[trigger] self.entries@[j].name@
                        != #[trigger] self.entries@[k].name@ by {
                        assert(before.is_entry_of(j, before.entries@[j].name@));
                        if k < last {
                            assert(before.entries@[j].name@ != before.entries@[k].name@);
                        }
                    }
                    assert(texts(self.entries@[last].modules@) =~= Seq::empty().push(text));
                }
            },
        }
        proof {
            let after = before@.insert(name@, modules_of(before@, name@).push(text));
            assert forall|other: Seq<char>| #[trigger]
                self@.contains_key(other) <==> after.contains_key(other) by {
                if before@.contains_key(other) {
                    let j = before.place(other);
                    assert(before.is_entry_of(j, other));
                    assert(self.is_entry_of(j, other));
                }
                if self@.contains_key(other) {
                    let j = self.place(other);
                    assert(self.is_entry_of(j, other));
                    if other != name@ {
                        assert(before.is_entry_of(j, other));
                    }
                }
                if other == name@ && !before@.contains_key(other) {
                    assert(self.is_entry_of(before.entries@.len() as int, other));
                }
            }
            assert forall|other: Seq<char>| #[trigger]
                self@.contains_key(other) implies self@[other] == after[other] by {
                let j = self.place(other);
                assert(self.is_entry_of(j, other));
                self.lemma_modules_at(j);
                if j < before.entries@.len() {
                    before.lemma_modules_at(j);
                }
            }
            assert(self@ =~= after);
        }
    }

    proof fn lemma_modules_at(self, i: int)
        requires
            self.well_formed(),
            0 <= i < self.entries@.len(),
        ensures
            self@.contains_key(self.entries@[i].name@),
            self@[self.entries@[i].name@] == texts(self.entries@[i].modules@),
    {
        let name = self.entries@[i].name@;
        assert(self.is_entry_of(i, name));
        assert(self.is_entry_of(self.place(name), name));
    }
}

/// What answers a linked import.
#[derive(Clone, Copy, Debug, PartialEq, Eq, Structural)]
pub enum LinkTarget {
    /// The host function of the chain at this place of its list.
    HostFn(usize),
    /// A function of the fixed table.
    Import(HostImport),
}

/// One definition to make in the linker.
pub struct Link {
    /// The module name under which the guest imports the function.
    pub module: String,
    /// The import name.
    pub name: String,
    /// What answers a call.
    pub target: LinkTarget,
}

/// What a [`Link`] says.
pub struct LinkView {
    /// The module name.
    pub module: Seq<char>,
    /// The import name.
    pub name: Seq<char>,
    /// What answers a call.
    pub target: LinkTarget,
}

impl View for Link {
    type V = LinkView;

    open spec fn view(&self) -> LinkView {
        LinkView { module: self.module@, name: self.name@, target: self.target }
    }
}

impl LinkView {
    /// What a linker tells definitions apart by.
    pub open spec fn key(self) -> (Seq<char>, Seq<char>) {
        (self.module, self.name)
    }
}

/// The views of a list of links.
pub open spec fn link_views(links: Seq<Link>) -> Seq<LinkView> {
    links.map_values(|link: Link| link@)
}

/// `target`, once for each module from which `name` is imported.
pub open spec fn links_of(
    imports: Map<Seq<char>, Seq<Seq<char>>>,
    name: Seq<char>,
    target: LinkTarget,
) -> Seq<LinkView> {
    modules_of(imports, name).map_values(
        |module: Seq<char>| LinkView { module, name, target },
    )
}

/// The links of the host functions of the chain.
pub open spec fn host_fn_links(
    imports: Map<Seq<char>, Seq<Seq<char>>>,
    host_fns: Seq<Seq<char>>,
) -> Seq<LinkView>
    decreases host_fns.len(),
{
    if host_fns.len() == 0 {
        Seq::empty()
    } else {
        host_fn_links(imports, host_fns.drop_last()) + links_of(
            imports,
            host_fns.last(),
            LinkTarget::HostFn((host_fns.len() - 1) as usize),
        )
    }
}

/// The links of functions of the fixed table.
pub open spec fn table_links(
    imports: Map<Seq<char>, Seq<Seq<char>>>,
    table: Seq<HostImport>,
) -> Seq<LinkView>
    decreases table.len(),
{
    if table.len() == 0 {
        Seq::empty()
    } else {
        table_links(imports, table.drop_last()) + links_of(
            imports,
            table.last().name_text(),
            LinkTarget::Import(table.last()),
        )
    }
}

/// All links of a module: first those of the host functions of the chain, then those of the
/// fixed table.
pub open spec fn planned_links(
    imports: Map<Seq<char>, Seq<Seq<char>>>,
    host_fns: Seq<Seq<char>>,
    legacy: bool,
) -> Seq<LinkView> {
    host_fn_links(imports, host_fns) + table_links(imports, import_table(legacy))
}

impl ModuleImports {
    /// Appends `target` to `plan`, once for each module from which `name` is imported.
    fn plan_links(&self, name: &str, target: LinkTarget, plan: &mut Vec<Link>)
        requires
            self.well_formed(),
        ensures
            link_views(final(plan)@) == link_views(old(plan)@) + links_of(self@, name@, target),
    {
        let name: String = name.to_owned();
        let ghost whole = links_of(self@, name@, target);
        let ghost before = link_views(plan@);
        match self.find(&name) {
            None => {
                assert(before + whole =~= before);
            },
            Some(place) => {
                let modules: &Vec<String> = &self.entries[place].modules;
                proof {
                    self.lemma_modules_at(place as int);
                }
                let mut i: usize = 0;
                assert(before + whole.take(0) =~= before);
                while i < modules.len()
                    invariant
                        i <= modules.len(),
                        whole == links_of(self@, name@, target),
                        modules_of(self@, name@) == texts(modules@),
                        link_views(plan@) == before + whole.take(i as int),
                    decreases modules.len() - i,
                {
                    let ghost so_far = plan@;
                    plan.push(Link { module: modules[i].clone(), name: name.clone(), target });
                    assert(whole[i as int] == plan@.last()@);
                    assert(whole.take(i + 1) =~= whole.take(i as int).push(whole[i as int]));
                    assert(link_views(plan@) =~= link_views(so_far).push(plan@.last()@));
                    i += 1;
                }
                assert(whole.take(i as int) =~= whole);
            },
        }
    }
}

/// All definitions to make in the linker for a module with these imports, in order.
pub fn link_plan(
    imports: &ModuleImports,
    host_fns: &Vec<String>,
    version: &ApiVersion,
) -> (plan: Vec<Link>)
    requires
        imports.well_formed(),
        version@.well_formed(),
    ensures
        link_views(plan@) == planned_links(imports@, texts(host_fns@), version@.legacy()),
{
    let mut plan: Vec<Link> = Vec::new();
    let ghost names = texts(host_fns@);
    let mut i: usize = 0;
    assert(link_views(plan@) =~= host_fn_links(imports@, names.take(0)));
    while i < host_fns.len()
        invariant
            imports.well_formed(),
            names == texts(host_fns@),
            i <= host_fns.len(),
            link_views(plan@) == host_fn_links(imports@, names.take(i as int)),
        decreases host_fns.len() - i,
    {
        imports.plan_links(host_fns[i].as_str(), LinkTarget::HostFn(i), &mut plan);
        assert(names.take(i + 1).drop_last() =~= names.take(i as int));
        i += 1;
    }
    assert(names.take(i as int) =~= names);
    let table: Vec<HostImport> = HostImport::table(version.is_legacy());
    let ghost first = host_fn_links(imports@, names);
    let mut j: usize = 0;
    assert(table_links(imports@, table@.take(0)) =~= Seq::empty());
    assert(first + Seq::empty() =~= first);
    while j < table.len()
        invariant
            imports.well_formed(),
            j <= table.len(),
            link_views(plan@) == first + table_links(imports@, table@.take(j as int)),
        decreases table.len() - j,
    {
        imports.plan_links(table[j].name(), LinkTarget::Import(table[j]), &mut plan);
        proof {
            let import = table@[j as int];
            let more = links_of(imports@, import.name_text(), LinkTarget::Import(import));
            assert(table@.take(j + 1).drop_last() =~= table@.take(j as int));
            assert(first + table_links(imports@, table@.take(j as int)) + more =~= first + (
            table_links(imports@, table@.take(j as int)) + more));
        }
        j += 1;
    }
    assert(table@.take(j as int) =~= table@);
    plan
}

/// Whether `link` is right for these inputs: the guest imports its name from its module, and
/// its target goes by that name.
pub open spec fn is_due(
    imports: Map<Seq<char>, Seq<Seq<char>>>,
    host_fns: Seq<Seq<char>>,
    legacy: bool,
    link: LinkView,
) -> bool {
    &&& modules_of(imports, link.name).contains(link.module)
    &&& match link.target {
        LinkTarget::HostFn(i) => i < host_fns.len() && host_fns[i as int] == link.name,
        LinkTarget::Import(import) => import.name_text() == link.name && (legacy
            || !import.withdrawn()),
    }
}

/// Whether no two of the links have the same module and import name.
pub open spec fn keys_differ(links: Seq<LinkView>) -> bool {
    forall|i: int, j: int|
        0 <= i < j < links.len() ==> #[trigger] links[i].key() != #[trigger] links[j].key()
}

proof fn lemma_links_of(
    imports: Map<Seq<char>, Seq<Seq<char>>>,
    name: Seq<char>,
    target: LinkTarget,
    link: LinkView,
)
    ensures
        links_of(imports, name, target).contains(link) <==> link.name == name && link.target
            == target && modules_of(imports, name).contains(link.module),
{
    let modules = modules_of(imports, name);
    let links = links_of(imports, name, target);
    if links.contains(link) {
        let i = choose|i: int| 0 <= i < links.len() && links[i] == link;
        assert(modules[i] == link.module);
    }
    if link.name == name && link.target == target && modules.contains(link.module) {
        let i = choose|i: int| 0 <= i < modules.len() && modules[i] == link.module;
        assert(links[i] == link);
    }
}

proof fn lemma_host_fn_links(
    imports: Map<Seq<char>, Seq<Seq<char>>>,
    host_fns: Seq<Seq<char>>,
    link: LinkView,
)
    requires
        host_fns.len() <= usize::MAX,
    ensures
        host_fn_links(imports, host_fns).contains(link) <==> link.target is HostFn
            && link.target->HostFn_0 < host_fns.len()
            && host_fns[link.target->HostFn_0 as int] == link.name
            && modules_of(imports, link.name).contains(link.module),
    decreases host_fns.len(),
{
    if host_fns.len() > 0 {
        let last = (host_fns.len() - 1) as usize;
        let front = host_fn_links(imports, host_fns.drop_last());
        let back = links_of(imports, host_fns.last(), LinkTarget::HostFn(last));
        lemma_host_fn_links(imports, host_fns.drop_last(), link);
        lemma_links_of(imports, host_fns.last(), LinkTarget::HostFn(last), link);
        lemma_sum_contains(front, back, link);
    }
}

proof fn lemma_table_links(
    imports: Map<Seq<char>, Seq<Seq<char>>>,
    table: Seq<HostImport>,
    link: LinkView,
)
    ensures
        table_links(imports, table).contains(link) <==> link.target is Import && table.contains(
            link.target->Import_0,
        ) && link.target->Import_0.name_text() == link.name && modules_of(
            imports,
            link.name,
        ).contains(link.module),
    decreases table.len(),
{
    if table.len() > 0 {
        let front = table_links(imports, table.drop_last());
        let target = LinkTarget::Import(table.last());
        let back = links_of(imports, table.last().name_text(), target);
        lemma_table_links(imports, table.drop_last(), link);
        lemma_links_of(imports, table.last().name_text(), target, link);
        lemma_sum_contains(front, back, link);
        if link.target is Import {
            let import = link.target->Import_0;
            if table.contains(import) && import != table.last() {
                let i = choose|i: int| 0 <= i < table.len() && table[i] == import;
                assert(table.drop_last()[i] == import);
            }
            if table.drop_last().contains(import) {
                let i = choose|i: int|
                    0 <= i < table.drop_last().len() && table.drop_last()[i] == import;
                assert(table[i] == import);
            }
            if import == table.last() {
                assert(table[table.len() - 1] == import);
            }
        }
    }
}

proof fn lemma_sum_contains<A>(front: Seq<A>, back: Seq<A>, item: A)
    ensures
        (front + back).contains(item) <==> front.contains(item) || back.contains(item),
{
    let sum = front + back;
    if sum.contains(item) {
        let i = choose|i: int| 0 <= i < sum.len() && sum[i] == item;
        if i < front.len() {
            assert(front[i] == item);
        } else {
            assert(back[i - front.len()] == item);
        }
    }
    if front.contains(item) {
        let i = choose|i: int| 0 <= i < front.len() && front[i] == item;
        assert(sum[i] == item);
    }
    if back.contains(item) {
        let i = choose|i: int| 0 <= i < back.len() && back[i] == item;
        assert(sum[front.len() + i] == item);
    }
}

/// The plan links each import that the guest has and the host knows, to what goes by its name,
/// and links nothing else. A withdrawn function is linked for a legacy module only.
pub proof fn law_plan_links_what_is_due(
    imports: Map<Seq<char>, Seq<Seq<char>>>,
    host_fns: Seq<Seq<char>>,
    legacy: bool,
    link: LinkView,
)
    requires
        host_fns.len() <= usize::MAX,
    ensures
        planned_links(imports, host_fns, legacy).contains(link) <==> is_due(
            imports,
            host_fns,
            legacy,
            link,
        ),
{
    let table = import_table(legacy);
    lemma_host_fn_links(imports, host_fns, link);
    lemma_table_links(imports, table, link);
    lemma_sum_contains(host_fn_links(imports, host_fns), table_links(imports, table), link);
    if link.target is Import {
        law_table_is_complete(legacy, link.target->Import_0);
    }
}

proof fn lemma_sum_keys_differ(front: Seq<LinkView>, back: Seq<LinkView>)
    requires
        keys_differ(front),
        keys_differ(back),
        forall|i: int, j: int|
            0 <= i < front.len() && 0 <= j < back.len() ==> #[trigger] front[i].name
                != #[trigger] back[j].name,
    ensures
        keys_differ(front + back),
{
    let sum = front + back;
    assert forall|i: int, j: int| 0 <= i < j < sum.len() implies #[trigger] sum[i].key()
        != #[trigger] sum[j].key() by {
        if i < front.len() && j >= front.len() {
            assert(front[i].name != back[j - front.len()].name);
        } else if j < front.len() {
            assert(front[i].key() != front[j].key());
        } else {
            assert(back[i - front.len()].key() != back[j - front.len()].key());
        }
    }
}

proof fn lemma_links_of_keys_differ(
    imports: Map<Seq<char>, Seq<Seq<char>>>,
    name: Seq<char>,
    target: LinkTarget,
)
    requires
        modules_of(imports, name).no_duplicates(),
    ensures
        keys_differ(links_of(imports, name, target)),
{
    let links = links_of(imports, name, target);
    let modules = modules_of(imports, name);
    assert forall|i: int, j: int| 0 <= i < j < links.len() implies #[trigger] links[i].key()
        != #[trigger] links[j].key() by {
        assert(modules[i] != modules[j]);
    }
}

proof fn lemma_host_fn_keys_differ(
    imports: Map<Seq<char>, Seq<Seq<char>>>,
    host_fns: Seq<Seq<char>>,
)
    requires
        host_fns.len() <= usize::MAX,
        host_fns.no_duplicates(),
        forall|name: Seq<char>| #[trigger] modules_of(imports, name).no_duplicates(),
    ensures
        keys_differ(host_fn_links(imports, host_fns)),
    decreases host_fns.len(),
{
    if host_fns.len() > 0 {
        let last = (host_fns.len() - 1) as usize;
        let front = host_fn_links(imports, host_fns.drop_last());
        let back = links_of(imports, host_fns.last(), LinkTarget::HostFn(last));
        lemma_host_fn_keys_differ(imports, host_fns.drop_last());
        assert(modules_of(imports, host_fns.last()).no_duplicates());
        lemma_links_of_keys_differ(imports, host_fns.last(), LinkTarget::HostFn(last));
        assert forall|i: int, j: int|
            0 <= i < front.len() && 0 <= j < back.len() implies #[trigger] front[i].name
            != #[trigger] back[j].name by {
            assert(front.contains(front[i]));
            lemma_host_fn_links(imports, host_fns.drop_last(), front[i]);
        }
        lemma_sum_keys_differ(front, back);
    }
}

proof fn lemma_table_keys_differ(
    imports: Map<Seq<char>, Seq<Seq<char>>>,
    table: Seq<HostImport>,
)
    requires
        table.no_duplicates(),
        forall|name: Seq<char>| #[trigger] modules_of(imports, name).no_duplicates(),
    ensures
        keys_differ(table_links(imports, table)),
    decreases table.len(),
{
    if table.len() > 0 {
        let front = table_links(imports, table.drop_last());
        let name = table.last().name_text();
        let back = links_of(imports, name, LinkTarget::Import(table.last()));
        lemma_table_keys_differ(imports, table.drop_last());
        assert(modules_of(imports, name).no_duplicates());
        lemma_links_of_keys_differ(imports, name, LinkTarget::Import(table.last()));
        assert forall|i: int, j: int|
            0 <= i < front.len() && 0 <= j < back.len() implies #[trigger] front[i].name
            != #[trigger] back[j].name by {
            assert(front.contains(front[i]));
            lemma_table_links(imports, table.drop_last(), front[i]);
            let import = front[i].target->Import_0;
            let k = choose|k: int| 0 <= k < table.len() - 1 && table.drop_last()[k] == import;
            assert(table[k] == import);
            law_import_names_differ(import, table.last());
        }
        lemma_sum_keys_differ(front, back);
    }
}

/// Where no import is listed twice and the functions of the chain have names of their own, no
/// definition is made twice.
pub proof fn law_no_definition_is_repeated(
    imports: Map<Seq<char>, Seq<Seq<char>>>,
    host_fns: Seq<Seq<char>>,
    legacy: bool,
)
    requires
        host_fns.len() <= usize::MAX,
        forall|name: Seq<char>| #[trigger] modules_of(imports, name).no_duplicates(),
        host_fns.no_duplicates(),
        forall|i: int, import: HostImport|
            0 <= i < host_fns.len() && (legacy || !import.withdrawn()) ==> #[trigger] host_fns[i]
                != #[trigger] import.name_text(),
    ensures
        keys_differ(planned_links(imports, host_fns, legacy)),
{
    let table = import_table(legacy);
    let front = host_fn_links(imports, host_fns);
    let back = table_links(imports, table);
    lemma_host_fn_keys_differ(imports, host_fns);
    law_table_has_no_repeats(legacy);
    lemma_table_keys_differ(imports, table);
    assert forall|i: int, j: int|
        0 <= i < front.len() && 0 <= j < back.len() implies #[trigger] front[i].name
        != #[trigger] back[j].name by {
        assert(front.contains(front[i]));
        assert(back.contains(back[j]));
        lemma_host_fn_links(imports, host_fns, front[i]);
        lemma_table_links(imports, table, back[j]);
        law_table_is_complete(legacy, back[j].target->Import_0);
    }
    lemma_sum_keys_differ(front, back);
}

/// A function of the chain that takes the name of a table function which the guest imports
/// repeats a definition.
pub proof fn law_clashing_name_repeats_a_definition(
    imports: Map<Seq<char>, Seq<Seq<char>>>,
    host_fns: Seq<Seq<char>>,
    legacy: bool,
    place: usize,
    import: HostImport,
)
    requires
        host_fns.len() <= usize::MAX,
        place < host_fns.len(),
        host_fns[place as int] == import.name_text(),
        legacy || !import.withdrawn(),
        modules_of(imports, import.name_text()).len() > 0,
    ensures
        !keys_differ(planned_links(imports, host_fns, legacy)),
{
    let name = import.name_text();
    let module = modules_of(imports, name)[0];
    let first = LinkView { module, name, target: LinkTarget::HostFn(place) };
    let second = LinkView { module, name, target: LinkTarget::Import(import) };
    let front = host_fn_links(imports, host_fns);
    let back = table_links(imports, import_table(legacy));
    assert(modules_of(imports, name).contains(module));
    law_table_is_complete(legacy, import);
    lemma_host_fn_links(imports, host_fns, first);
    lemma_table_links(imports, import_table(legacy), second);
    let i = choose|i: int| 0 <= i < front.len() && front[i] == first;
    let j = choose|j: int| 0 <= j < back.len() && back[j] == second;
    let plan = planned_links(imports, host_fns, legacy);
    assert(plan[i] == first);
    assert(plan[front.len() + j] == second);
    assert(plan[i].key() == plan[front.len() + j].key());
}

/// Whatever the name is: a function of the table that the guest imports is linked under each
/// module from which it is imported. The two withdrawn functions are for legacy modules.
pub proof fn law_every_import_is_linked(
    imports: Map<Seq<char>, Seq<Seq<char>>>,
    host_fns: Seq<Seq<char>>,
    legacy: bool,
    import: HostImport,
    module: Seq<char>,
)
    requires
        host_fns.len() <= usize::MAX,
        imports.contains_key(import.name_text()),
        imports[import.name_text()].contains(module),
        legacy || (import != HostImport::ArweaveTransactionData && import
            != HostImport::BoxProfile),
    ensures
        planned_links(imports, host_fns, legacy).contains(
            (LinkView { module, name: import.name_text(), target: LinkTarget::Import(import) }),
        ),
{
    let link = LinkView { module, name: import.name_text(), target: LinkTarget::Import(import) };
    law_plan_links_what_is_due(imports, host_fns, legacy, link);
}

/// Whatever its name is: a host function of the chain that the guest imports is linked under each
/// module from which it is imported.
pub proof fn law_every_host_function_is_linked(
    imports: Map<Seq<char>, Seq<Seq<char>>>,
    host_fns: Seq<Seq<char>>,
    legacy: bool,
    place: usize,
    module: Seq<char>,
)
    requires
        host_fns.len() <= usize::MAX,
        place < host_fns.len(),
        imports.contains_key(host_fns[place as int]),
        imports[host_fns[place as int]].contains(module),
    ensures
        planned_links(imports, host_fns, legacy).contains(
            (LinkView {
                module,
                name: host_fns[place as int],
                target: LinkTarget::HostFn(place),
            }),
        ),
{
    let link = LinkView {
        module,
        name: host_fns[place as int],
        target: LinkTarget::HostFn(place),
    };
    law_plan_links_what_is_due(imports, host_fns, legacy, link);
}

/// Nothing else is linked: the guest imports the name of each link from its module, and the
/// target of the link goes by that name. A withdrawn function is never linked for a module that
/// is not legacy.
pub proof fn law_every_link_is_imported(
    imports: Map<Seq<char>, Seq<Seq<char>>>,
    host_fns: Seq<Seq<char>>,
    legacy: bool,
    i: int,
)
    requires
        host_fns.len() <= usize::MAX,
        0 <= i < planned_links(imports, host_fns, legacy).len(),
    ensures
        ({
            let link = planned_links(imports, host_fns, legacy)[i];
            &&& imports.contains_key(link.name) && imports[link.name].contains(link.module)
            &&& match link.target {
                LinkTarget::HostFn(place) => place < host_fns.len() && host_fns[place as int]
                    == link.name,
                LinkTarget::Import(import) => import.name_text() == link.name && (legacy || (
                import != HostImport::ArweaveTransactionData && import
                    != HostImport::BoxProfile)),
            }
        }),
{
    let plan = planned_links(imports, host_fns, legacy);
    assert(plan.contains(plan[i]));
    law_plan_links_what_is_due(imports, host_fns, legacy, plan[i]);
}

proof fn lemma_filter_sum(
    front: Seq<LinkView>,
    back: Seq<LinkView>,
    wanted: spec_fn(LinkView) -> bool,
)
    ensures
        (front + back).filter(wanted) == front.filter(wanted) + back.filter(wanted),
    decreases back.len(),
{
    reveal(Seq::filter);
    if back.len() == 0 {
        assert(front + back =~= front);
        assert(front.filter(wanted) + back.filter(wanted) =~= front.filter(wanted));
    } else {
        lemma_filter_sum(front, back.drop_last(), wanted);
        assert((front + back).drop_last() =~= front + back.drop_last());
        assert((front + back).filter(wanted) =~= front.filter(wanted) + back.filter(wanted));
    }
}

proof fn lemma_filter_alike(links: Seq<LinkView>, wanted: spec_fn(LinkView) -> bool, all: bool)
    requires
        forall|i: int| 0 <= i < links.len() ==> wanted(#[trigger] links[i]) == all,
    ensures
        links.filter(wanted) == if all {
            links
        } else {
            Seq::empty()
        },
    decreases links.len(),
{
    reveal(Seq::filter);
    if links.len() > 0 {
        assert forall|i: int| 0 <= i < links.drop_last().len() implies wanted(
            #[trigger] links.drop_last()[i],
        ) == all by {
            assert(wanted(links[i]) == all);
        }
        lemma_filter_alike(links.drop_last(), wanted, all);
        assert(wanted(links[links.len() - 1]) == all);
        assert(links.drop_last().push(links.last()) =~= links);
    } else {
        assert(links =~= Seq::empty());
    }
}

proof fn lemma_links_of_filtered(
    imports: Map<Seq<char>, Seq<Seq<char>>>,
    name: Seq<char>,
    target: LinkTarget,
    wanted: LinkTarget,
)
    ensures
        links_of(imports, name, target).filter(|link: LinkView| link.target == wanted) == if target
            == wanted {
            links_of(imports, name, target)
        } else {
            Seq::empty()
        },
{
    lemma_filter_alike(
        links_of(imports, name, target),
        |link: LinkView| link.target == wanted,
        target == wanted,
    );
}

proof fn lemma_host_fn_links_filtered(
    imports: Map<Seq<char>, Seq<Seq<char>>>,
    host_fns: Seq<Seq<char>>,
    place: usize,
)
    requires
        host_fns.len() <= usize::MAX,
    ensures
        host_fn_links(imports, host_fns).filter(
            |link: LinkView| link.target == LinkTarget::HostFn(place),
        ) == if place < host_fns.len() {
            links_of(imports, host_fns[place as int], LinkTarget::HostFn(place))
        } else {
            Seq::empty()
        },
    decreases host_fns.len(),
{
    let wanted = LinkTarget::HostFn(place);
    let is_wanted = |link: LinkView| link.target == wanted;
    if host_fns.len() == 0 {
        lemma_filter_alike(host_fn_links(imports, host_fns), is_wanted, false);
    } else {
        let last = (host_fns.len() - 1) as usize;
        let front = host_fn_links(imports, host_fns.drop_last());
        let back = links_of(imports, host_fns.last(), LinkTarget::HostFn(last));
        lemma_host_fn_links_filtered(imports, host_fns.drop_last(), place);
        lemma_links_of_filtered(imports, host_fns.last(), LinkTarget::HostFn(last), wanted);
        lemma_filter_sum(front, back, is_wanted);
        if place == last {
            assert(front.filter(is_wanted) + back =~= back);
        } else {
            assert(front.filter(is_wanted) + Seq::<LinkView>::empty() =~= front.filter(is_wanted));
        }
    }
}

proof fn lemma_host_fn_links_without_imports(
    imports: Map<Seq<char>, Seq<Seq<char>>>,
    host_fns: Seq<Seq<char>>,
    import: HostImport,
)
    requires
        host_fns.len() <= usize::MAX,
    ensures
        host_fn_links(imports, host_fns).filter(
            |link: LinkView| link.target == LinkTarget::Import(import),
        ) == Seq::<LinkView>::empty(),
{
    let links = host_fn_links(imports, host_fns);
    let is_wanted = |link: LinkView| link.target == LinkTarget::Import(import);
    lemma_host_fn_links_in_order(imports, host_fns);
    assert forall|i: int| 0 <= i < links.len() implies is_wanted(#[trigger] links[i]) == false by {
        assert(links[i].target is HostFn);
    }
    lemma_filter_alike(links, is_wanted, false);
}

proof fn lemma_front_contains(table: Seq<HostImport>, import: HostImport)
    requires
        table.len() > 0,
        table.no_duplicates(),
    ensures
        table.drop_last().no_duplicates(),
        table.drop_last().contains(import) <==> table.contains(import) && import != table.last(),
{
    let front = table.drop_last();
    assert(table[table.len() - 1] == table.last());
    if front.contains(import) {
        let i = choose|i: int| 0 <= i < front.len() && front[i] == import;
        assert(table[i] == import);
    }
    if table.contains(import) && import != table.last() {
        let i = choose|i: int| 0 <= i < table.len() && table[i] == import;
        assert(front[i] == import);
    }
}

proof fn lemma_table_links_filtered(
    imports: Map<Seq<char>, Seq<Seq<char>>>,
    table: Seq<HostImport>,
    import: HostImport,
)
    requires
        table.no_duplicates(),
    ensures
        table_links(imports, table).filter(
            |link: LinkView| link.target == LinkTarget::Import(import),
        ) == if table.contains(import) {
            links_of(imports, import.name_text(), LinkTarget::Import(import))
        } else {
            Seq::empty()
        },
    decreases table.len(),
{
    let wanted = LinkTarget::Import(import);
    let is_wanted = |link: LinkView| link.target == wanted;
    if table.len() == 0 {
        lemma_filter_alike(table_links(imports, table), is_wanted, false);
    } else {
        let last = table.last();
        let target = LinkTarget::Import(last);
        let name = last.name_text();
        let front = table_links(imports, table.drop_last());
        let back = links_of(imports, name, target);
        lemma_front_contains(table, import);
        lemma_table_links_filtered(imports, table.drop_last(), import);
        lemma_links_of_filtered(imports, name, target, wanted);
        lemma_filter_sum(front, back, is_wanted);
        if import == last {
            assert(table[table.len() - 1] == import);
            assert(front.filter(is_wanted) + back =~= back);
        } else {
            assert(front.filter(is_wanted) + Seq::<LinkView>::empty() =~= front.filter(is_wanted));
        }
    }
}

proof fn lemma_table_links_without_host_fns(
    imports: Map<Seq<char>, Seq<Seq<char>>>,
    table: Seq<HostImport>,
    place: usize,
)
    ensures
        table_links(imports, table).filter(
            |link: LinkView| link.target == LinkTarget::HostFn(place),
        ) == Seq::<LinkView>::empty(),
{
    let links = table_links(imports, table);
    let is_wanted = |link: LinkView| link.target == LinkTarget::HostFn(place);
    lemma_table_links_in_order(imports, table);
    assert forall|i: int| 0 <= i < links.len() implies is_wanted(#[trigger] links[i]) == false by {
        assert(links[i].target is Import);
    }
    lemma_filter_alike(links, is_wanted, false);
}

/// The links of a function of the table are one for each entry of the list of modules from which
/// the guest imports it, in the order of that list.
pub proof fn law_import_is_linked_module_by_module(
    imports: Map<Seq<char>, Seq<Seq<char>>>,
    host_fns: Seq<Seq<char>>,
    legacy: bool,
    import: HostImport,
)
    requires
        host_fns.len() <= usize::MAX,
        imports.contains_key(import.name_text()),
        legacy || (import != HostImport::ArweaveTransactionData && import
            != HostImport::BoxProfile),
    ensures
        ({
            let links = planned_links(imports, host_fns, legacy).filter(
                |link: LinkView| link.target == LinkTarget::Import(import),
            );
            let modules = imports[import.name_text()];
            &&& links.len() == modules.len()
            &&& forall|i: int|
                0 <= i < modules.len() ==> (#[trigger] links[i]).module == modules[i]
                    && links[i].name == import.name_text()
        }),
{
    let wanted = LinkTarget::Import(import);
    let table = import_table(legacy);
    law_table_has_no_repeats(legacy);
    law_table_is_complete(legacy, import);
    lemma_host_fn_links_without_imports(imports, host_fns, import);
    lemma_table_links_filtered(imports, table, import);
    lemma_filter_sum(
        host_fn_links(imports, host_fns),
        table_links(imports, table),
        |link: LinkView| link.target == wanted,
    );
    let links = links_of(imports, import.name_text(), wanted);
    assert(Seq::<LinkView>::empty() + links =~= links);
}

/// The links of a host function of the chain are one for each entry of the list of modules from
/// which the guest imports it, in the order of that list.
pub proof fn law_host_function_is_linked_module_by_module(
    imports: Map<Seq<char>, Seq<Seq<char>>>,
    host_fns: Seq<Seq<char>>,
    legacy: bool,
    place: usize,
)
    requires
        host_fns.len() <= usize::MAX,
        place < host_fns.len(),
        imports.contains_key(host_fns[place as int]),
    ensures
        ({
            let links = planned_links(imports, host_fns, legacy).filter(
                |link: LinkView| link.target == LinkTarget::HostFn(place),
            );
            let modules = imports[host_fns[place as int]];
            &&& links.len() == modules.len()
            &&& forall|i: int|
                0 <= i < modules.len() ==> (#[trigger] links[i]).module == modules[i]
                    && links[i].name == host_fns[place as int]
        }),
{
    let wanted = LinkTarget::HostFn(place);
    let table = import_table(legacy);
    lemma_host_fn_links_filtered(imports, host_fns, place);
    lemma_table_links_without_host_fns(imports, table, place);
    lemma_filter_sum(
        host_fn_links(imports, host_fns),
        table_links(imports, table),
        |link: LinkView| link.target == wanted,
    );
    let links = links_of(imports, host_fns[place as int], wanted);
    assert(links + Seq::<LinkView>::empty() =~= links);
}

proof fn lemma_host_fn_links_in_order(
    imports: Map<Seq<char>, Seq<Seq<char>>>,
    host_fns: Seq<Seq<char>>,
)
    requires
        host_fns.len() <= usize::MAX,
    ensures
        ({
            let links = host_fn_links(imports, host_fns);
            &&& forall|i: int|
                0 <= i < links.len() ==> (#[trigger] links[i]).target is HostFn
                    && links[i].target->HostFn_0 < host_fns.len()
            &&& forall|i: int, j: int|
                0 <= i < j < links.len() ==> (#[trigger] links[i]).target->HostFn_0 <= (
                #[trigger] links[j]).target->HostFn_0
        }),
    decreases host_fns.len(),
{
    if host_fns.len() > 0 {
        lemma_host_fn_links_in_order(imports, host_fns.drop_last());
    }
}

/// Whether `a` stands in `table` at the place of `b` or before it.
pub open spec fn not_behind(table: Seq<HostImport>, a: HostImport, b: HostImport) -> bool {
    exists|p: int, q: int|
        0 <= p <= q < table.len() && #[trigger] table[p] == a && #[trigger] table[q] == b
}

proof fn lemma_table_links_in_order(
    imports: Map<Seq<char>, Seq<Seq<char>>>,
    table: Seq<HostImport>,
)
    ensures
        ({
            let links = table_links(imports, table);
            &&& forall|i: int|
                0 <= i < links.len() ==> (#[trigger] links[i]).target is Import && table.contains(
                    links[i].target->Import_0,
                )
            &&& forall|i: int, j: int|
                0 <= i < j < links.len() ==> not_behind(
                    table,
                    (#[trigger] links[i]).target->Import_0,
                    (#[trigger] links[j]).target->Import_0,
                )
        }),
    decreases table.len(),
{
    if table.len() > 0 {
        let rest = table.drop_last();
        let front = table_links(imports, rest);
        let links = table_links(imports, table);
        lemma_table_links_in_order(imports, rest);
        assert(table[table.len() - 1] == table.last());
        assert forall|i: int| 0 <= i < links.len() implies (#[trigger] links[i]).target is Import
            && table.contains(links[i].target->Import_0) by {
            if i < front.len() {
                assert(front[i] == links[i]);
                let p = choose|p: int|
                    0 <= p < rest.len() && rest[p] == links[i].target->Import_0;
                assert(table[p] == links[i].target->Import_0);
            }
        }
        assert forall|i: int, j: int| 0 <= i < j < links.len() implies not_behind(
            table,
            (#[trigger] links[i]).target->Import_0,
            (#[trigger] links[j]).target->Import_0,
        ) by {
            let a = links[i].target->Import_0;
            let b = links[j].target->Import_0;
            if j < front.len() {
                assert(front[i] == links[i] && front[j] == links[j]);
                assert(not_behind(rest, a, b));
                let (p, q) = choose|p: int, q: int|
                    0 <= p <= q < rest.len() && #[trigger] rest[p] == a && #[trigger] rest[q] == b;
                assert(table[p] == a && table[q] == b);
            } else {
                assert(table[table.len() - 1] == b);
                assert(table.contains(a));
                let p = choose|p: int| 0 <= p < table.len() && table[p] == a;
                assert(table[p] == a);
            }
        }
    }
}

/// The host functions of the chain are linked first, in the order of their list, and then the
/// functions of the table, in the order of the table.
pub proof fn law_links_are_made_in_order(
    imports: Map<Seq<char>, Seq<Seq<char>>>,
    host_fns: Seq<Seq<char>>,
    legacy: bool,
    i: int,
    j: int,
)
    requires
        host_fns.len() <= usize::MAX,
        0 <= i < j < planned_links(imports, host_fns, legacy).len(),
    ensures
        match (
            planned_links(imports, host_fns, legacy)[i].target,
            planned_links(imports, host_fns, legacy)[j].target,
        ) {
            (LinkTarget::HostFn(one), LinkTarget::HostFn(other)) => one <= other,
            (LinkTarget::HostFn(_), LinkTarget::Import(_)) => true,
            (LinkTarget::Import(_), LinkTarget::HostFn(_)) => false,
            (LinkTarget::Import(one), LinkTarget::Import(other)) => exists|p: int, q: int|
                0 <= p <= q < import_table(legacy).len() && #[trigger] import_table(legacy)[p]
                    == one && #[trigger] import_table(legacy)[q] == other,
        },
{
    let table = import_table(legacy);
    let front = host_fn_links(imports, host_fns);
    let back = table_links(imports, table);
    let plan = planned_links(imports, host_fns, legacy);
    lemma_host_fn_links_in_order(imports, host_fns);
    lemma_table_links_in_order(imports, table);
    if i < front.len() {
        assert(plan[i] == front[i]);
    } else {
        assert(plan[i] == back[i - front.len()]);
    }
    if j < front.len() {
        assert(plan[j] == front[j]);
    } else {
        assert(plan[j] == back[j - front.len()]);
    }
    if i >= front.len() {
        assert(not_behind(table, plan[i].target->Import_0, plan[j].target->Import_0));
    }
}

/// A link says what it holds, and so does a list of links, link by link.
pub proof fn law_links_say_what_they_hold(links: Seq<Link>, i: int)
    requires
        0 <= i < links.len(),
    ensures
        link_views(links).len() == links.len(),
        link_views(links)[i].module == links[i].module@,
        link_views(links)[i].name == links[i].name@,
        link_views(links)[i].target == links[i].target,
{
}

} // verus!
