//! Making the planned definitions in a linker.
use crate::imports::HostImport;
use crate::plan::{
    keys_differ, law_clashing_name_repeats_a_definition, law_no_definition_is_repeated,
    law_plan_links_what_is_due, link_views, modules_of, planned_links, Link, LinkView,
};
use vstd::prelude::*;

verus! {

/// A linker of the WebAssembly engine.
#[verifier::external_type_specification]
#[verifier::external_body]
pub struct ExLinker(wasmtime::Linker);

/// A function of the WebAssembly engine.
#[verifier::external_type_specification]
#[verifier::external_body]
pub struct ExFunc(wasmtime::Func);

/// An error of the WebAssembly engine.
#[verifier::external_type_specification]
#[verifier::external_body]
pub struct ExError(anyhow::Error);

/// The functions that are defined in a linker, by module and import name.
pub uninterp spec fn linker_funcs(linker: wasmtime::Linker) -> Map<
    (Seq<char>, Seq<char>),
    wasmtime::Func,
>;

/// The pairs of module and import name under which a linker takes no function: those under
/// which it holds a definition and those of functions that its engine offers by itself. A linker
/// that lets definitions be shadowed refuses none.
pub uninterp spec fn linker_refuses(linker: wasmtime::Linker) -> Set<(Seq<char>, Seq<char>)>;

/// Whether a later definition of a linker may take the place of an earlier one.
pub uninterp spec fn linker_shadows(linker: wasmtime::Linker) -> bool;

/// Whether a function lives in the store of a linker.
pub uninterp spec fn linker_admits(linker: wasmtime::Linker, func: wasmtime::Func) -> bool;

/// Calls `wasmtime::Linker::define`. Claimed: it succeeds exactly if the function lives in the
/// linker's store and the linker does not refuse the pair; the pair then stands for the function,
/// and is refused from then on, unless definitions may be shadowed; and nothing else about the
/// linker changes.
#[verifier::external_body]
fn define_func(
    linker: &mut wasmtime::Linker,
    module: &str,
    name: &str,
    func: wasmtime::Func,
) -> (result: Result<(), anyhow::Error>)
    ensures
        (result is Ok) == (linker_admits(*old(linker), func) && !linker_refuses(
            *old(linker),
        ).contains((module@, name@))),
        linker_funcs(*final(linker)) == if result is Ok {
            linker_funcs(*old(linker)).insert((module@, name@), func)
        } else {
            linker_funcs(*old(linker))
        },
        linker_refuses(*final(linker)) == if result is Ok && !linker_shadows(*old(linker)) {
            linker_refuses(*old(linker)).insert((module@, name@))
        } else {
            linker_refuses(*old(linker))
        },
        linker_shadows(*final(linker)) == linker_shadows(*old(linker)),
        forall|other: wasmtime::Func|
            linker_admits(*final(linker), other) == linker_admits(*old(linker), other),
{
    linker.define(module, name, func).map(|_| ())
}

/// Whether `linker` refuses link `i` once the links before it are made.
pub open spec fn is_refused(
    linker: wasmtime::Linker,
    links: Seq<LinkView>,
    funcs: Seq<wasmtime::Func>,
    i: int,
) -> bool {
    ||| !linker_admits(linker, funcs[i])
    ||| linker_refuses(linker).contains(links[i].key())
    ||| !linker_shadows(linker) && exists|j: int|
        0 <= j < i && #[trigger] links[j].key() == links[i].key()
}

/// The pairs that `linker` refuses once `links` are made.
pub open spec fn refused_after(linker: wasmtime::Linker, links: Seq<LinkView>) -> Set<
    (Seq<char>, Seq<char>),
>
    decreases links.len(),
{
    if links.len() == 0 || linker_shadows(linker) {
        linker_refuses(linker)
    } else {
        refused_after(linker, links.drop_last()).insert(links.last().key())
    }
}

/// The functions that are defined in `linker` once `links` are made, link `i` answered by
/// function `i` of `funcs`.
pub open spec fn funcs_after(
    linker: wasmtime::Linker,
    links: Seq<LinkView>,
    funcs: Seq<wasmtime::Func>,
) -> Map<(Seq<char>, Seq<char>), wasmtime::Func>
    decreases links.len(),
{
    if links.len() == 0 {
        linker_funcs(linker)
    } else {
        funcs_after(linker, links.drop_last(), funcs.drop_last()).insert(
            links.last().key(),
            funcs.last(),
        )
    }
}

/// Whether linking has led from `before` to `after` in that all of `links` were made.
pub open spec fn has_linked(
    before: wasmtime::Linker,
    after: wasmtime::Linker,
    links: Seq<LinkView>,
    funcs: Seq<wasmtime::Func>,
) -> bool {
    &&& linker_funcs(after) == funcs_after(before, links, funcs)
    &&& linker_refuses(after) == refused_after(before, links)
}

/// Whether `linker` takes all of `links`.
pub open spec fn can_link(
    linker: wasmtime::Linker,
    links: Seq<LinkView>,
    funcs: Seq<wasmtime::Func>,
) -> bool {
    forall|i: int| 0 <= i < links.len() ==> !#[trigger] is_refused(linker, links, funcs, i)
}

/// Whether linking has led from `before` to `after` in that the links before `k` were made and
/// link `k` was refused.
pub open spec fn stops_at(
    before: wasmtime::Linker,
    after: wasmtime::Linker,
    links: Seq<LinkView>,
    funcs: Seq<wasmtime::Func>,
    k: int,
) -> bool {
    &&& 0 <= k < links.len()
    &&& can_link(before, links.take(k), funcs.take(k))
    &&& is_refused(before, links, funcs, k)
    &&& has_linked(before, after, links.take(k), funcs.take(k))
}

proof fn lemma_refused_after(
    linker: wasmtime::Linker,
    links: Seq<LinkView>,
    key: (Seq<char>, Seq<char>),
)
    requires
        !linker_shadows(linker),
    ensures
        refused_after(linker, links).contains(key) <==> linker_refuses(linker).contains(key) || (
        exists|j: int| 0 <= j < links.len() && #[trigger] links[j].key() == key),
    decreases links.len(),
{
    if links.len() > 0 {
        let front = links.drop_last();
        lemma_refused_after(linker, front, key);
        if exists|j: int| 0 <= j < front.len() && #[trigger] front[j].key() == key {
            let j = choose|j: int| 0 <= j < front.len() && #[trigger] front[j].key() == key;
            assert(links[j].key() == key);
        }
        if exists|j: int| 0 <= j < links.len() && #[trigger] links[j].key() == key {
            let j = choose|j: int| 0 <= j < links.len() && #[trigger] links[j].key() == key;
            if j < front.len() {
                assert(front[j].key() == key);
            }
        }
        assert(links[links.len() - 1].key() == links.last().key());
    }
}

/// What comes after a link makes no difference to whether it is refused.
proof fn lemma_refused_in_prefix(
    linker: wasmtime::Linker,
    links: Seq<LinkView>,
    funcs: Seq<wasmtime::Func>,
    k: int,
    i: int,
)
    requires
        links.len() == funcs.len(),
        0 <= i < k <= links.len(),
    ensures
        is_refused(linker, links.take(k), funcs.take(k), i) <==> is_refused(
            linker,
            links,
            funcs,
            i,
        ),
{
    let made = links.take(k);
    if exists|j: int| 0 <= j < i && #[trigger] links[j].key() == links[i].key() {
        let j = choose|j: int| 0 <= j < i && #[trigger] links[j].key() == links[i].key();
        assert(made[j].key() == made[i].key());
    }
    if exists|j: int| 0 <= j < i && #[trigger] made[j].key() == made[i].key() {
        let j = choose|j: int| 0 <= j < i && #[trigger] made[j].key() == made[i].key();
        assert(links[j].key() == links[i].key());
    }
}

/// Makes the definitions of `plan` in `linker`, in order, link `i` answered by function `i` of
/// `funcs`, up to the first that the linker refuses.
pub fn link_all(
    linker: &mut wasmtime::Linker,
    plan: &Vec<Link>,
    funcs: Vec<wasmtime::Func>,
) -> (result: Result<(), anyhow::Error>)
    requires
        plan@.len() == funcs@.len(),
    ensures
        result is Ok <==> can_link(*old(linker), link_views(plan@), funcs@),
        result is Ok ==> has_linked(*old(linker), *final(linker), link_views(plan@), funcs@),
        result is Err ==> exists|k: int| #[trigger]
            stops_at(*old(linker), *final(linker), link_views(plan@), funcs@, k),
        linker_shadows(*final(linker)) == linker_shadows(*old(linker)),
{
    let ghost start = *linker;
    let ghost links = link_views(plan@);
    let ghost all = funcs@;
    let mut rest: Vec<wasmtime::Func> = funcs;
    let mut i: usize = 0;
    assert(all.skip(0) =~= all);
    while i < plan.len()
        invariant
            i <= plan.len(),
            start == *old(linker),
            links == link_views(plan@),
            all == funcs@,
            all.len() == plan@.len(),
            rest@ == all.skip(i as int),
            forall|j: int| 0 <= j < i ==> !#[trigger] is_refused(start, links, all, j),
            has_linked(start, *linker, links.take(i as int), all.take(i as int)),
            linker_shadows(*linker) == linker_shadows(start),
            forall|other: wasmtime::Func|
                linker_admits(*linker, other) == linker_admits(start, other),
        decreases plan.len() - i,
    {
        let func: wasmtime::Func = rest.remove(0);
        let ghost before = *linker;
        proof {
            assert(func == all[i as int]);
            assert(rest@ =~= all.skip(i + 1));
            let made = links.take(i as int);
            let key = links[i as int].key();
            if linker_shadows(start) {
                assert(linker_refuses(before) == linker_refuses(start));
            } else {
                lemma_refused_after(start, made, key);
                if exists|j: int| 0 <= j < i && #[trigger] links[j].key() == key {
                    let j = choose|j: int| 0 <= j < i && #[trigger] links[j].key() == key;
                    assert(made[j].key() == key);
                }
                if exists|j: int| 0 <= j < made.len() && #[trigger] made[j].key() == key {
                    let j = choose|j: int| 0 <= j < made.len() && #[trigger] made[j].key() == key;
                    assert(links[j].key() == key);
                }
            }
            assert(is_refused(start, links, all, i as int) <==> !linker_admits(before, func)
                || linker_refuses(before).contains(key));
            assert(links.take(i + 1).drop_last() =~= made);
            assert(all.take(i + 1).drop_last() =~= all.take(i as int));
        }
        match define_func(linker, plan[i].module.as_str(), plan[i].name.as_str(), func) {
            Ok(_) => {},
            Err(error) => {
                proof {
                    let made = links.take(i as int);
                    let used = all.take(i as int);
                    assert forall|j: int| 0 <= j < made.len() implies !#[trigger] is_refused(
                        start,
                        made,
                        used,
                        j,
                    ) by {
                        lemma_refused_in_prefix(start, links, all, i as int, j);
                    }
                    assert(stops_at(start, *linker, links, all, i as int));
                }
                return Err(error);
            },
        }
        i += 1;
    }
    assert(links.take(i as int) =~= links);
    assert(all.take(i as int) =~= all);
    Ok(())
}

/// Definitions that differ from each other are all made, in a linker that refuses none of them
/// to begin with and with functions of its store.
pub proof fn law_differing_definitions_are_made(
    linker: wasmtime::Linker,
    links: Seq<LinkView>,
    funcs: Seq<wasmtime::Func>,
)
    requires
        links.len() == funcs.len(),
        keys_differ(links),
        forall|i: int|
            0 <= i < links.len() ==> !linker_refuses(linker).contains(#[trigger] links[i].key()),
        forall|i: int| 0 <= i < funcs.len() ==> linker_admits(linker, #[trigger] funcs[i]),
    ensures
        can_link(linker, links, funcs),
{
    assert forall|i: int| 0 <= i < links.len() implies !#[trigger] is_refused(
        linker,
        links,
        funcs,
        i,
    ) by {
        assert(!linker_refuses(linker).contains(links[i].key()));
        assert(linker_admits(linker, funcs[i]));
    }
}

/// Where definitions differ from each other, each stands for its own function once all are made.
pub proof fn law_each_definition_has_its_function(
    linker: wasmtime::Linker,
    links: Seq<LinkView>,
    funcs: Seq<wasmtime::Func>,
    i: int,
)
    requires
        links.len() == funcs.len(),
        keys_differ(links),
        0 <= i < links.len(),
    ensures
        funcs_after(linker, links, funcs).contains_key(links[i].key()),
        funcs_after(linker, links, funcs)[links[i].key()] == funcs[i],
    decreases links.len(),
{
    let front = links.drop_last();
    if i < front.len() {
        assert forall|a: int, b: int| 0 <= a < b < front.len() implies #[trigger] front[a].key()
            != #[trigger] front[b].key() by {
            assert(links[a].key() != links[b].key());
        }
        law_each_definition_has_its_function(linker, front, funcs.drop_last(), i);
        assert(links[i].key() != links[links.len() - 1].key());
    }
}

/// A linker without shadowing refuses a repeated definition.
pub proof fn law_repeated_definition_is_refused(
    linker: wasmtime::Linker,
    links: Seq<LinkView>,
    funcs: Seq<wasmtime::Func>,
)
    requires
        links.len() == funcs.len(),
        !linker_shadows(linker),
        !keys_differ(links),
    ensures
        !can_link(linker, links, funcs),
{
    let (j, i) = choose|j: int, i: int|
        0 <= j < i < links.len() && #[trigger] links[j].key() == #[trigger] links[i].key();
    assert(links[j].key() == links[i].key());
    assert(is_refused(linker, links, funcs, i));
}

/// A module that lists no import twice, in a chain whose functions have names of their own, can
/// be linked: a linker that refuses none of its imports takes its whole plan.
pub proof fn law_module_can_be_linked(
    imports: Map<Seq<char>, Seq<Seq<char>>>,
    host_fns: Seq<Seq<char>>,
    legacy: bool,
    linker: wasmtime::Linker,
    funcs: Seq<wasmtime::Func>,
)
    requires
        host_fns.len() <= usize::MAX,
        forall|name: Seq<char>| #[trigger] modules_of(imports, name).no_duplicates(),
        host_fns.no_duplicates(),
        forall|i: int, import: HostImport|
            0 <= i < host_fns.len() && (legacy || !import.withdrawn()) ==> #[trigger] host_fns[i]
                != #[trigger] import.name_text(),
        funcs.len() == planned_links(imports, host_fns, legacy).len(),
        forall|i: int| 0 <= i < funcs.len() ==> linker_admits(linker, #[trigger] funcs[i]),
        forall|module: Seq<char>, name: Seq<char>| #[trigger]
            modules_of(imports, name).contains(module) ==> !linker_refuses(linker).contains(
                (module, name),
            ),
    ensures
        can_link(linker, planned_links(imports, host_fns, legacy), funcs),
{
    let plan = planned_links(imports, host_fns, legacy);
    law_no_definition_is_repeated(imports, host_fns, legacy);
    assert forall|i: int| 0 <= i < plan.len() implies !linker_refuses(linker).contains(
        #[trigger] plan[i].key(),
    ) by {
        assert(plan.contains(plan[i]));
        law_plan_links_what_is_due(imports, host_fns, legacy, plan[i]);
        assert(modules_of(imports, plan[i].name).contains(plan[i].module));
    }
    law_differing_definitions_are_made(linker, plan, funcs);
}

/// A chain whose function takes the name of a table function that the guest imports makes the
/// module impossible to link.
pub proof fn law_clashing_name_cannot_be_linked(
    imports: Map<Seq<char>, Seq<Seq<char>>>,
    host_fns: Seq<Seq<char>>,
    legacy: bool,
    linker: wasmtime::Linker,
    funcs: Seq<wasmtime::Func>,
    place: usize,
    import: HostImport,
)
    requires
        host_fns.len() <= usize::MAX,
        place < host_fns.len(),
        host_fns[place as int] == import.name_text(),
        legacy || !import.withdrawn(),
        modules_of(imports, import.name_text()).len() > 0,
        funcs.len() == planned_links(imports, host_fns, legacy).len(),
        !linker_shadows(linker),
    ensures
        !can_link(linker, planned_links(imports, host_fns, legacy), funcs),
{
    law_clashing_name_repeats_a_definition(imports, host_fns, legacy, place, import);
    law_repeated_definition_is_refused(linker, planned_links(imports, host_fns, legacy), funcs);
}

/// All definitions can be made exactly if each function lives in the store of the linker, the
/// linker refuses none of the pairs to begin with, and, without shadowing, no pair comes twice.
pub proof fn law_linking_succeeds_exactly_if(
    linker: wasmtime::Linker,
    links: Seq<LinkView>,
    funcs: Seq<wasmtime::Func>,
)
    requires
        links.len() == funcs.len(),
    ensures
        can_link(linker, links, funcs) <==> {
            &&& forall|i: int| 0 <= i < funcs.len() ==> linker_admits(linker, #[trigger] funcs[i])
            &&& forall|i: int|
                0 <= i < links.len() ==> !linker_refuses(linker).contains(
                    ((#[trigger] links[i]).module, links[i].name),
                )
            &&& linker_shadows(linker) || forall|i: int, j: int|
                0 <= i < j < links.len() ==> (#[trigger] links[i]).module != (
                #[trigger] links[j]).module || links[i].name != links[j].name
        },
{
    let admitted = forall|i: int|
        0 <= i < funcs.len() ==> linker_admits(linker, #[trigger] funcs[i]);
    let unrefused = forall|i: int|
        0 <= i < links.len() ==> !linker_refuses(linker).contains(
            ((#[trigger] links[i]).module, links[i].name),
        );
    let differ = forall|i: int, j: int|
        0 <= i < j < links.len() ==> (#[trigger] links[i]).module != (#[trigger] links[j]).module
            || links[i].name != links[j].name;
    if can_link(linker, links, funcs) {
        assert forall|i: int| 0 <= i < funcs.len() implies linker_admits(
            linker,
            #[trigger] funcs[i],
        ) by {
            assert(!is_refused(linker, links, funcs, i));
        }
        assert forall|i: int| 0 <= i < links.len() implies !linker_refuses(linker).contains(
            ((#[trigger] links[i]).module, links[i].name),
        ) by {
            assert(!is_refused(linker, links, funcs, i));
        }
        if !linker_shadows(linker) {
            assert forall|i: int, j: int| 0 <= i < j < links.len() implies (
            #[trigger] links[i]).module != (#[trigger] links[j]).module || links[i].name
                != links[j].name by {
                assert(!is_refused(linker, links, funcs, j));
                assert(links[i].key() != links[j].key());
            }
        }
    }
    if admitted && unrefused && (linker_shadows(linker) || differ) {
        assert forall|i: int| 0 <= i < links.len() implies !#[trigger] is_refused(
            linker,
            links,
            funcs,
            i,
        ) by {
            assert(linker_admits(linker, funcs[i]));
            assert(!linker_refuses(linker).contains((links[i].module, links[i].name)));
            if !linker_shadows(linker) && exists|j: int|
                0 <= j < i && #[trigger] links[j].key() == links[i].key() {
                let j = choose|j: int| 0 <= j < i && #[trigger] links[j].key() == links[i].key();
                assert(links[j].module != links[i].module || links[j].name != links[i].name);
            }
        }
    }
}

proof fn lemma_funcs_after(
    linker: wasmtime::Linker,
    links: Seq<LinkView>,
    funcs: Seq<wasmtime::Func>,
    key: (Seq<char>, Seq<char>),
    i: int,
)
    requires
        links.len() == funcs.len(),
    ensures
        ({
            let made = exists|j: int|
                0 <= j < links.len() && (#[trigger] links[j]).module == key.0 && links[j].name
                    == key.1;
            let after = funcs_after(linker, links, funcs);
            &&& after.contains_key(key) <==> linker_funcs(linker).contains_key(key) || made
            &&& !made && linker_funcs(linker).contains_key(key) ==> after[key] == linker_funcs(
                linker,
            )[key]
            &&& 0 <= i < links.len() && (links[i].module, links[i].name) == key && (forall|j: int|
                i < j < links.len() ==> ((#[trigger] links[j]).module, links[j].name) != key)
                ==> after[key] == funcs[i]
        }),
    decreases links.len(),
{
    if links.len() > 0 {
        let front = links.drop_last();
        let last = links.len() - 1;
        lemma_funcs_after(linker, front, funcs.drop_last(), key, i);
        assert(links[last] == links.last());
        if exists|j: int|
            0 <= j < front.len() && (#[trigger] front[j]).module == key.0 && front[j].name
                == key.1 {
            let j = choose|j: int|
                0 <= j < front.len() && (#[trigger] front[j]).module == key.0 && front[j].name
                    == key.1;
            assert(links[j].module == key.0 && links[j].name == key.1);
        }
        if exists|j: int|
            0 <= j < links.len() && (#[trigger] links[j]).module == key.0 && links[j].name
                == key.1 {
            let j = choose|j: int|
                0 <= j < links.len() && (#[trigger] links[j]).module == key.0 && links[j].name
                    == key.1;
            if j < last {
                assert(front[j].module == key.0 && front[j].name == key.1);
            }
        }
        if 0 <= i < last && (links[i].module, links[i].name) == key && (forall|j: int|
            i < j < links.len() ==> ((#[trigger] links[j]).module, links[j].name) != key) {
            assert((links[last].module, links[last].name) != key);
            assert forall|j: int| i < j < front.len() implies (
                (#[trigger] front[j]).module,
                front[j].name,
            ) != key by {
                assert((links[j].module, links[j].name) != key);
            }
            assert(front[i] == links[i]);
        }
    }
}

/// Once definitions are made, a pair stands for the function of the last of them that names it;
/// a pair that none of them names stands for what it stood for before. Without shadowing, the
/// pairs of the definitions are refused from then on, and with it none becomes refused.
pub proof fn law_definitions_stand_for_their_functions(
    before: wasmtime::Linker,
    after: wasmtime::Linker,
    links: Seq<LinkView>,
    funcs: Seq<wasmtime::Func>,
    key: (Seq<char>, Seq<char>),
    i: int,
)
    requires
        links.len() == funcs.len(),
        has_linked(before, after, links, funcs),
    ensures
        ({
            let made = exists|j: int|
                0 <= j < links.len() && (#[trigger] links[j]).module == key.0 && links[j].name
                    == key.1;
            &&& linker_funcs(after).contains_key(key) <==> linker_funcs(before).contains_key(key)
                || made
            &&& !made && linker_funcs(before).contains_key(key) ==> linker_funcs(after)[key]
                == linker_funcs(before)[key]
            &&& 0 <= i < links.len() && (links[i].module, links[i].name) == key && (forall|j: int|
                i < j < links.len() ==> ((#[trigger] links[j]).module, links[j].name) != key)
                ==> linker_funcs(after)[key] == funcs[i]
            &&& linker_refuses(after).contains(key) <==> linker_refuses(before).contains(key) || (
            !linker_shadows(before) && made)
        }),
{
    lemma_funcs_after(before, links, funcs, key, i);
    if !linker_shadows(before) {
        lemma_refused_after(before, links, key);
        if exists|j: int|
            0 <= j < links.len() && (#[trigger] links[j]).module == key.0 && links[j].name
                == key.1 {
            let j = choose|j: int|
                0 <= j < links.len() && (#[trigger] links[j]).module == key.0 && links[j].name
                    == key.1;
            assert(links[j].key() == key);
        }
        if exists|j: int| 0 <= j < links.len() && #[trigger] links[j].key() == key {
            let j = choose|j: int| 0 <= j < links.len() && #[trigger] links[j].key() == key;
            assert(links[j].module == key.0 && links[j].name == key.1);
        }
    }
}

/// Linking stops at the first definition that cannot be made: its function is of another store,
/// or the linker refuses its pair to begin with, or, without shadowing, an earlier definition
/// names that pair. The definitions before it can all be made, and are.
pub proof fn law_linking_stops_at_the_first_refusal(
    before: wasmtime::Linker,
    after: wasmtime::Linker,
    links: Seq<LinkView>,
    funcs: Seq<wasmtime::Func>,
    k: int,
    i: int,
)
    requires
        links.len() == funcs.len(),
        stops_at(before, after, links, funcs, k),
        0 <= i < k,
    ensures
        k < links.len(),
        ({
            ||| !linker_admits(before, funcs[k])
            ||| linker_refuses(before).contains((links[k].module, links[k].name))
            ||| !linker_shadows(before) && exists|j: int|
                0 <= j < k && (#[trigger] links[j]).module == links[k].module && links[j].name
                    == links[k].name
        }),
        linker_admits(before, funcs[i]),
        !linker_refuses(before).contains((links[i].module, links[i].name)),
        linker_funcs(after).contains_key((links[i].module, links[i].name)),
        has_linked(before, after, links.take(k), funcs.take(k)),
{
    let made = links.take(k);
    let used = funcs.take(k);
    law_linking_succeeds_exactly_if(before, made, used);
    assert(made[i] == links[i] && used[i] == funcs[i]);
    law_definitions_stand_for_their_functions(
        before,
        after,
        made,
        used,
        (links[i].module, links[i].name),
        i,
    );
    if linker_admits(before, funcs[k]) && !linker_refuses(before).contains(
        (links[k].module, links[k].name),
    ) {
        let j = choose|j: int| 0 <= j < k && #[trigger] links[j].key() == links[k].key();
        assert(links[j].module == links[k].module && links[j].name == links[k].name);
    }
}

/// The first definition is refused for its own sake only: nothing was made before it.
pub proof fn law_first_definition_is_refused_for_its_own_sake(
    before: wasmtime::Linker,
    after: wasmtime::Linker,
    links: Seq<LinkView>,
    funcs: Seq<wasmtime::Func>,
)
    requires
        links.len() == funcs.len(),
        stops_at(before, after, links, funcs, 0),
    ensures
        !linker_admits(before, funcs[0]) || linker_refuses(before).contains(
            (links[0].module, links[0].name),
        ),
        linker_funcs(after) == linker_funcs(before),
        linker_refuses(after) == linker_refuses(before),
{
}

} // verus!
