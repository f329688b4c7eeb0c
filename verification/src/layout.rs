//! The lists in which a host finds a plugin's functions and types.
//!
//! A plugin describes itself as a tree of modules. The host wants flat
//! lists instead, with every function at the position given by its ID and
//! every type at the position given by its type ID. The lists are built by
//! walking the tree: each module's submodules first, in order, then the
//! module's own items; each item is listed under its qualified name and
//! placed at its ID, a later item taking the place of an earlier one with
//! the same ID, and positions that no item claims holding a default item.

use vstd::prelude::*;
use crate::items::{
    Function, Module, TraitFunction, TraitImplementation, Type, is_default_function,
    is_default_type,
};

verus! {

broadcast use vstd::std_specs::vec::group_vec_axioms;

// ---------------------------------------------------------------------------
// Placing entries by their slot
// ---------------------------------------------------------------------------

/// The entry listed last among those whose slot is `i`, if any.
pub open spec fn latest_at<E>(es: Seq<E>, slot: spec_fn(E) -> nat, i: nat) -> Option<E>
    decreases es.len(),
{
    if es.len() == 0 {
        None
    } else if slot(es.last()) == i {
        Some(es.last())
    } else {
        latest_at(es.drop_last(), slot, i)
    }
}

/// One more than the greatest slot of any entry; 0 when there is none.
pub open spec fn slot_span<E>(es: Seq<E>, slot: spec_fn(E) -> nat) -> nat
    decreases es.len(),
{
    if es.len() == 0 {
        0
    } else {
        let rest = slot_span(es.drop_last(), slot);
        if slot(es.last()) + 1 > rest {
            slot(es.last()) + 1
        } else {
            rest
        }
    }
}

/// Adding an entry at the end makes it the latest of its slot and leaves
/// the other slots as they were.
pub proof fn lemma_latest_push<E>(es: Seq<E>, e: E, slot: spec_fn(E) -> nat, i: nat)
    ensures
        latest_at(es.push(e), slot, i) == if slot(e) == i {
            Some(e)
        } else {
            latest_at(es, slot, i)
        },
        slot_span(es.push(e), slot) == if slot(e) + 1 > slot_span(es, slot) {
            slot(e) + 1
        } else {
            slot_span(es, slot)
        },
{
    assert(es.push(e).drop_last() =~= es);
}

/// No entry has a slot at or beyond the span.
pub proof fn lemma_latest_beyond_span<E>(es: Seq<E>, slot: spec_fn(E) -> nat, i: nat)
    requires
        i >= slot_span(es, slot),
    ensures
        latest_at(es, slot, i) is None,
    decreases es.len(),
{
    if es.len() > 0 {
        lemma_latest_beyond_span(es.drop_last(), slot, i);
    }
}

/// The latest entry of a slot has that slot.
pub proof fn lemma_latest_has_slot<E>(es: Seq<E>, slot: spec_fn(E) -> nat, i: nat)
    ensures
        latest_at(es, slot, i) matches Some(e) ==> slot(e) == i,
    decreases es.len(),
{
    if es.len() > 0 {
        lemma_latest_has_slot(es.drop_last(), slot, i);
    }
}

/// Every listed entry's slot lies within the span and is taken by some
/// entry.
pub proof fn lemma_listed_slot_taken<E>(es: Seq<E>, slot: spec_fn(E) -> nat, k: int)
    requires
        0 <= k < es.len(),
    ensures
        slot(es[k]) < slot_span(es, slot),
        latest_at(es, slot, slot(es[k])) is Some,
    decreases es.len(),
{
    if k < es.len() - 1 {
        lemma_listed_slot_taken(es.drop_last(), slot, k);
    }
}


/// An entry that no later entry shares its slot with is the latest of its
/// slot.
pub proof fn lemma_latest_is_last_of_slot<E>(es: Seq<E>, slot: spec_fn(E) -> nat, k: int)
    requires
        0 <= k < es.len(),
        forall|j: int| k < j < es.len() ==> slot(#[trigger] es[j]) != slot(es[k]),
    ensures
        latest_at(es, slot, slot(es[k])) == Some(es[k]),
    decreases es.len(),
{
    if k < es.len() - 1 {
        assert(slot(es[es.len() - 1]) != slot(es[k]));
        let rest = es.drop_last();
        assert forall|j: int| k < j < rest.len() implies slot(#[trigger] rest[j]) != slot(rest[k]) by {
            assert(rest[j] == es[j]);
        }
        lemma_latest_is_last_of_slot(rest, slot, k);
    }
}

// ---------------------------------------------------------------------------
// Functions
// ---------------------------------------------------------------------------

/// A function to be listed, with the name it is listed under.
pub type FunctionEntry<C, V> = (Seq<char>, Function<C, V>);

/// The slot of a function entry: the function's ID.
pub open spec fn function_slot<C, V>() -> spec_fn(FunctionEntry<C, V>) -> nat {
    |e: FunctionEntry<C, V>| e.1.fn_id as nat
}

/// `f` is the entry's function, renamed to the entry's name.
pub open spec fn lists_function<C, V>(f: Function<C, V>, e: FunctionEntry<C, V>) -> bool {
    &&& f.name@ == e.0
    &&& f.callable == e.1.callable
    &&& f.fn_id == e.1.fn_id
    &&& f.parameters == e.1.parameters
    &&& f.return_type == e.1.return_type
    &&& f.no_check_args == e.1.no_check_args
    &&& f.dependencies == e.1.dependencies
}

/// `list` holds the entries placed by their IDs: it is just long enough for
/// the greatest ID, each position holds the entry listed last with that ID,
/// and a position that no entry has holds a default function.
pub open spec fn functions_arranged<C: Default, V>(
    list: Seq<Function<C, V>>,
    es: Seq<FunctionEntry<C, V>>,
) -> bool {
    &&& list.len() == slot_span(es, function_slot())
    &&& forall|i: int|
        #![trigger list[i]]
        0 <= i < list.len() ==> match latest_at(es, function_slot(), i as nat) {
            Some(e) => lists_function(list[i], e),
            None => is_default_function(list[i]),
        }
}

/// The entries of functions listed under `prefix`, each named
/// `prefix::name`.
pub open spec fn named_functions<C, V>(fs: Seq<Function<C, V>>, prefix: Seq<char>) -> Seq<
    FunctionEntry<C, V>,
> {
    fs.map_values(|f: Function<C, V>| (prefix + "::"@ + f.name@, f))
}

/// Places `f` at its ID under the name `name`.
fn place_function<C: Default, V>(
    list: &mut Vec<Function<C, V>>,
    f: Function<C, V>,
    name: String,
    Ghost(es): Ghost<Seq<FunctionEntry<C, V>>>,
)
    requires
        functions_arranged(old(list)@, es),
    ensures
        functions_arranged(final(list)@, es.push((name@, f))),
{
    let ghost e: FunctionEntry<C, V> = (name@, f);
    let ghost old_list = list@;
    let id = f.fn_id;
    let mut g = f;
    g.name = name;
    assert(lists_function(g, e));
    if id < list.len() {
        list.set(id, g);
    } else {
        while list.len() < id
            invariant
                old_list.len() <= list@.len() <= id,
                forall|i: int| 0 <= i < old_list.len() ==> list@[i] == old_list[i],
                forall|i: int|
                    old_list.len() <= i < list@.len() ==> is_default_function(#[trigger] list@[i]),
            decreases id - list@.len(),
        {
            list.push(Function::default());
        }
        list.push(g);
    }
    proof {
        let slot = function_slot::<C, V>();
        let es2 = es.push(e);
        lemma_latest_push(es, e, slot, 0);
        assert(list@.len() == slot_span(es2, slot));
        assert(list@[id as int] == g);
        assert forall|i: int| 0 <= i < list@.len() implies match latest_at(
            es2,
            slot,
            i as nat,
        ) {
            Some(x) => lists_function(#[trigger] list@[i], x),
            None => is_default_function(list@[i]),
        } by {
            lemma_latest_push(es, e, slot, i as nat);
            if i != id {
                if i < old_list.len() {
                    assert(list@[i] == old_list[i]);
                    assert(match latest_at(es, slot, i as nat) {
                        Some(x) => lists_function(old_list[i], x),
                        None => is_default_function(old_list[i]),
                    });
                } else {
                    lemma_latest_beyond_span(es, slot, i as nat);
                }
            }
        }
    }
}

/// Places each of `fs`, in order, under the name `prefix::name`.
fn place_named_functions<C: Default, V>(
    list: &mut Vec<Function<C, V>>,
    fs: Vec<Function<C, V>>,
    prefix: &String,
    Ghost(es): Ghost<Seq<FunctionEntry<C, V>>>,
)
    requires
        functions_arranged(old(list)@, es),
    ensures
        functions_arranged(final(list)@, es + named_functions(fs@, prefix@)),
{
    let ghost all = fs@;
    let mut rest = fs;
    let n = rest.len();
    let mut k: usize = 0;
    assert(es + named_functions(all.take(0), prefix@) =~= es);
    while rest.len() > 0
        invariant
            k <= all.len(),
            all.len() == n,
            rest@ == all.skip(k as int),
            functions_arranged(list@, es + named_functions(all.take(k as int), prefix@)),
        decreases rest@.len(),
    {
        let f = rest.remove(0);
        let mut name = prefix.clone();
        name.append("::");
        name.append(f.name.as_str());
        proof {
            assert(f == all[k as int]);
        }
        place_function(list, f, name, Ghost(es + named_functions(all.take(k as int), prefix@)));
        proof {
            assert((es + named_functions(all.take(k as int), prefix@)).push((name@, f))
                =~= es + named_functions(all.take(k + 1), prefix@));
        }
        k = k + 1;
    }
    proof {
        assert(all.take(k as int) =~= all);
    }
}

/// The functions of a list of trait functions.
pub open spec fn trait_functions<C, V>(ms: Seq<TraitFunction<C, V>>) -> Seq<Function<C, V>> {
    ms.map_values(|m: TraitFunction<C, V>| m.function)
}

/// The entries of a type's trait implementations: each implementing
/// function is named `prefix::name`.
pub open spec fn implementation_entries<C, V>(
    impls: Seq<TraitImplementation<C, V>>,
    prefix: Seq<char>,
) -> Seq<FunctionEntry<C, V>>
    decreases impls.len(),
{
    if impls.len() == 0 {
        Seq::empty()
    } else {
        implementation_entries(impls.drop_last(), prefix) + named_functions(
            trait_functions(impls.last().methods@),
            prefix,
        )
    }
}

/// The entries of a type in the module named `q`: its methods as
/// `q::type::method`, its fields as `@q::type::field`, and the functions of
/// its trait implementations as `q::type::function`.
pub open spec fn type_function_entries<C, V>(t: Type<C, V>, q: Seq<char>) -> Seq<
    FunctionEntry<C, V>,
> {
    let p = q + "::"@ + t.name@;
    named_functions(t.methods@, p) + named_functions(t.fields@, "@"@ + p)
        + implementation_entries(t.trait_implementations@, p)
}

/// The entries of a list of types in the module named `q`, type by type.
pub open spec fn types_function_entries<C, V>(ts: Seq<Type<C, V>>, q: Seq<char>) -> Seq<
    FunctionEntry<C, V>,
>
    decreases ts.len(),
{
    if ts.len() == 0 {
        Seq::empty()
    } else {
        types_function_entries(ts.drop_last(), q) + type_function_entries(ts.last(), q)
    }
}

/// The entries of a module's own items, the module being named `q`: its
/// functions as `q::function`, its constants as `@q::constant`, then its
/// types.
pub open spec fn own_function_entries<C, V>(m: Module<C, V>, q: Seq<char>) -> Seq<
    FunctionEntry<C, V>,
> {
    named_functions(m.functions@, q) + named_functions(m.constants@, "@"@ + q)
        + types_function_entries(m.types@, q)
}

/// The entries of a module named `q` and of all modules below it: the
/// submodules' first, then the module's own.
pub open spec fn module_function_entries<C, V>(m: Module<C, V>, q: Seq<char>) -> Seq<
    FunctionEntry<C, V>,
>
    decreases m,
{
    proof {
        assert(decreases_to!(m => m.submodules));
    }
    submodule_function_entries(m.submodules@, q) + own_function_entries(m, q)
}

/// The entries of the submodules of a module named `q`, in order; a
/// submodule named `s` is named `q::s`.
pub open spec fn submodule_function_entries<C, V>(subs: Seq<Module<C, V>>, q: Seq<char>) -> Seq<
    FunctionEntry<C, V>,
>
    decreases subs,
{
    if subs.len() == 0 {
        Seq::empty()
    } else {
        proof {
            assert(decreases_to!(subs => subs[subs.len() - 1]));
            assert(decreases_to!(subs => subs.subrange(0, subs.len() - 1)));
        }
        submodule_function_entries(subs.drop_last(), q) + module_function_entries(
            subs.last(),
            q + "::"@ + subs.last().name@,
        )
    }
}

/// The entries of a list of top modules, each named by its own name.
pub open spec fn modules_function_entries<C, V>(ms: Seq<Module<C, V>>) -> Seq<FunctionEntry<C, V>>
    decreases ms.len(),
{
    if ms.len() == 0 {
        Seq::empty()
    } else {
        modules_function_entries(ms.drop_last()) + module_function_entries(
            ms.last(),
            ms.last().name@,
        )
    }
}

/// Everything a plugin lists as functions: the functions of its modules,
/// then its operator functions under their own names.
pub open spec fn function_entries<C, V>(
    modules: Seq<Module<C, V>>,
    operators: Seq<Function<C, V>>,
) -> Seq<FunctionEntry<C, V>> {
    modules_function_entries(modules) + operators.map_values(
        |f: Function<C, V>| (f.name@, f),
    )
}

/// Places the functions of the trait functions `ms`, in order, under the
/// name `prefix::name`.
fn place_trait_functions<C: Default, V>(
    list: &mut Vec<Function<C, V>>,
    ms: Vec<TraitFunction<C, V>>,
    prefix: &String,
    Ghost(es): Ghost<Seq<FunctionEntry<C, V>>>,
)
    requires
        functions_arranged(old(list)@, es),
    ensures
        functions_arranged(final(list)@, es + named_functions(trait_functions(ms@), prefix@)),
{
    let ghost all = ms@;
    let mut rest = ms;
    let mut fs: Vec<Function<C, V>> = Vec::new();
    let n = rest.len();
    let mut k: usize = 0;
    while rest.len() > 0
        invariant
            k <= all.len(),
            all.len() == n,
            rest@ == all.skip(k as int),
            fs@ == trait_functions(all.take(k as int)),
        decreases rest@.len(),
    {
        let m = rest.remove(0);
        proof {
            assert(m == all[k as int]);
        }
        fs.push(m.function);
        proof {
            assert(fs@ =~= trait_functions(all.take(k + 1)));
        }
        k = k + 1;
    }
    proof {
        assert(all.take(k as int) =~= all);
    }
    place_named_functions(list, fs, prefix, Ghost(es));
}

/// Places the functions of the trait implementations `impls`, in order.
fn place_implementations<C: Default, V>(
    list: &mut Vec<Function<C, V>>,
    impls: Vec<TraitImplementation<C, V>>,
    prefix: &String,
    Ghost(es): Ghost<Seq<FunctionEntry<C, V>>>,
)
    requires
        functions_arranged(old(list)@, es),
    ensures
        functions_arranged(final(list)@, es + implementation_entries(impls@, prefix@)),
{
    let ghost all = impls@;
    let mut rest = impls;
    let n = rest.len();
    let mut k: usize = 0;
    assert(es + implementation_entries(all.take(0), prefix@) =~= es);
    while rest.len() > 0
        invariant
            k <= all.len(),
            all.len() == n,
            rest@ == all.skip(k as int),
            functions_arranged(list@, es + implementation_entries(all.take(k as int), prefix@)),
        decreases rest@.len(),
    {
        let imp = rest.remove(0);
        proof {
            assert(imp == all[k as int]);
            assert(all.take(k + 1).drop_last() =~= all.take(k as int));
        }
        let ghost before = es + implementation_entries(all.take(k as int), prefix@);
        place_trait_functions(list, imp.methods, prefix, Ghost(before));
        proof {
            assert(before + named_functions(trait_functions(imp.methods@), prefix@)
                =~= es + implementation_entries(all.take(k + 1), prefix@));
        }
        k = k + 1;
    }
    proof {
        assert(all.take(k as int) =~= all);
    }
}

/// Places the functions of type `t` of the module named `q`.
fn place_type_functions<C: Default, V>(
    list: &mut Vec<Function<C, V>>,
    t: Type<C, V>,
    q: &String,
    Ghost(es): Ghost<Seq<FunctionEntry<C, V>>>,
)
    requires
        functions_arranged(old(list)@, es),
    ensures
        functions_arranged(final(list)@, es + type_function_entries(t, q@)),
{
    let ghost gt = t;
    let Type { name, tp_id: _, methods, fields, trait_implementations, native_id: _ } = t;
    let mut p = q.clone();
    p.append("::");
    p.append(name.as_str());
    let mut fp = "@".to_owned();
    fp.append(p.as_str());
    let ghost es1 = es + named_functions(gt.methods@, p@);
    let ghost es2 = es1 + named_functions(gt.fields@, fp@);
    place_named_functions(list, methods, &p, Ghost(es));
    place_named_functions(list, fields, &fp, Ghost(es1));
    place_implementations(list, trait_implementations, &p, Ghost(es2));
    proof {
        assert(es2 + implementation_entries(gt.trait_implementations@, p@)
            =~= es + type_function_entries(gt, q@));
    }
}

/// Places the functions of the types `ts` of the module named `q`, type by
/// type.
fn place_types_functions<C: Default, V>(
    list: &mut Vec<Function<C, V>>,
    ts: Vec<Type<C, V>>,
    q: &String,
    Ghost(es): Ghost<Seq<FunctionEntry<C, V>>>,
)
    requires
        functions_arranged(old(list)@, es),
    ensures
        functions_arranged(final(list)@, es + types_function_entries(ts@, q@)),
{
    let ghost all = ts@;
    let mut rest = ts;
    let n = rest.len();
    let mut k: usize = 0;
    assert(es + types_function_entries(all.take(0), q@) =~= es);
    while rest.len() > 0
        invariant
            k <= all.len(),
            all.len() == n,
            rest@ == all.skip(k as int),
            functions_arranged(list@, es + types_function_entries(all.take(k as int), q@)),
        decreases rest@.len(),
    {
        let t = rest.remove(0);
        proof {
            assert(t == all[k as int]);
            assert(all.take(k + 1).drop_last() =~= all.take(k as int));
        }
        let ghost before = es + types_function_entries(all.take(k as int), q@);
        place_type_functions(list, t, q, Ghost(before));
        proof {
            assert(before + type_function_entries(t, q@) =~= es + types_function_entries(
                all.take(k + 1),
                q@,
            ));
        }
        k = k + 1;
    }
    proof {
        assert(all.take(k as int) =~= all);
    }
}

/// Places the functions of module `m`, named `q`, and of all modules below
/// it: the submodules' first, in order, then the module's own.
#[verifier::loop_isolation(false)]
fn place_module_functions<C: Default, V>(
    list: &mut Vec<Function<C, V>>,
    m: Module<C, V>,
    q: &String,
    Ghost(es): Ghost<Seq<FunctionEntry<C, V>>>,
)
    requires
        functions_arranged(old(list)@, es),
    ensures
        functions_arranged(final(list)@, es + module_function_entries(m, q@)),
    decreases m,
{
    let ghost gm = m;
    let Module { name: _, types, functions, submodules, trait_definitions: _, constants } = m;
    let ghost all = submodules@;
    let mut rest = submodules;
    let n = rest.len();
    let mut k: usize = 0;
    assert(es + submodule_function_entries(all.take(0), q@) =~= es);
    while rest.len() > 0
        invariant
            k <= all.len(),
            all.len() == n,
            all == gm.submodules@,
            decreases_to!(gm => gm.submodules),
            rest@ == all.skip(k as int),
            functions_arranged(list@, es + submodule_function_entries(all.take(k as int), q@)),
        decreases rest@.len(),
    {
        let sub = rest.remove(0);
        let mut sq = q.clone();
        sq.append("::");
        sq.append(sub.name.as_str());
        proof {
            assert(sub == all[k as int]);
            assert(all.take(k + 1).drop_last() =~= all.take(k as int));
            assert(decreases_to!(gm.submodules@ => gm.submodules@[k as int]));
            assert(decreases_to!(gm => sub));
        }
        let ghost before = es + submodule_function_entries(all.take(k as int), q@);
        place_module_functions(list, sub, &sq, Ghost(before));
        proof {
            assert(before + module_function_entries(sub, sq@) =~= es
                + submodule_function_entries(all.take(k + 1), q@));
        }
        k = k + 1;
    }
    proof {
        assert(all.take(k as int) =~= all);
    }
    let ghost es1 = es + submodule_function_entries(gm.submodules@, q@);
    let ghost es2 = es1 + named_functions(gm.functions@, q@);
    let mut cq = "@".to_owned();
    cq.append(q.as_str());
    let ghost es3 = es2 + named_functions(gm.constants@, cq@);
    place_named_functions(list, functions, q, Ghost(es1));
    place_named_functions(list, constants, &cq, Ghost(es2));
    place_types_functions(list, types, q, Ghost(es3));
    proof {
        assert(es3 + types_function_entries(gm.types@, q@) =~= es + module_function_entries(
            gm,
            q@,
        ));
    }
}

/// Lays out every function of a plugin in one list, each at the position
/// given by its ID.
///
/// The functions are those of the modules `modules` and of all their
/// submodules (module functions, type methods, type fields, trait
/// implementation functions and constants), followed by the operator
/// functions `operators`. Each is listed under its qualified name: a module
/// function `f` of module `a::b` as `a::b::f`, a method `m` of type `T` as
/// `a::b::T::m`, a field or constant with a leading `@`. Where two
/// functions have the same ID, the later one stands; a position that no
/// function's ID names holds a default function.
pub fn get_function_list<C: Default, V>(
    modules: Vec<Module<C, V>>,
    operators: Vec<Function<C, V>>,
) -> (list: Vec<Function<C, V>>)
    ensures
        functions_arranged(list@, function_entries(modules@, operators@)),
{
    let mut list: Vec<Function<C, V>> = Vec::new();
    let ghost all = modules@;
    let mut rest = modules;
    let n = rest.len();
    let mut k: usize = 0;
    assert(functions_arranged(list@, Seq::<FunctionEntry<C, V>>::empty()));
    assert(modules_function_entries(all.take(0)) =~= Seq::<FunctionEntry<C, V>>::empty());
    while rest.len() > 0
        invariant
            k <= all.len(),
            all.len() == n,
            rest@ == all.skip(k as int),
            functions_arranged(list@, modules_function_entries(all.take(k as int))),
        decreases rest@.len(),
    {
        let m = rest.remove(0);
        let q = m.name.clone();
        proof {
            assert(m == all[k as int]);
            assert(all.take(k + 1).drop_last() =~= all.take(k as int));
        }
        let ghost before = modules_function_entries(all.take(k as int));
        place_module_functions(&mut list, m, &q, Ghost(before));
        k = k + 1;
    }
    proof {
        assert(all.take(k as int) =~= all);
    }
    let ghost es = modules_function_entries(all);
    let ghost ops = operators@;
    let mut rest_ops = operators;
    let n_ops = rest_ops.len();
    let mut j: usize = 0;
    let ghost op_entries = ops.map_values(|f: Function<C, V>| (f.name@, f));
    assert(es + op_entries.take(0) =~= es);
    while rest_ops.len() > 0
        invariant
            j <= ops.len(),
            ops.len() == n_ops,
            rest_ops@ == ops.skip(j as int),
            op_entries == ops.map_values(|f: Function<C, V>| (f.name@, f)),
            functions_arranged(list@, es + op_entries.take(j as int)),
        decreases rest_ops@.len(),
    {
        let f = rest_ops.remove(0);
        let name = f.name.clone();
        proof {
            assert(f == ops[j as int]);
        }
        place_function(&mut list, f, name, Ghost(es + op_entries.take(j as int)));
        proof {
            assert((es + op_entries.take(j as int)).push((name@, f)) =~= es + op_entries.take(
                j + 1,
            ));
        }
        j = j + 1;
    }
    proof {
        assert(op_entries.take(j as int) =~= op_entries);
    }
    list
}

// ---------------------------------------------------------------------------
// Types
// ---------------------------------------------------------------------------

/// A type to be listed, with the name it is listed under.
pub type TypeEntry<C, V> = (Seq<char>, Type<C, V>);

/// The slot of a type entry: the type's ID.
pub open spec fn type_slot<C, V>() -> spec_fn(TypeEntry<C, V>) -> nat {
    |e: TypeEntry<C, V>| e.1.tp_id as nat
}

/// `t` is the entry's type, renamed to the entry's name.
pub open spec fn lists_type<C, V>(t: Type<C, V>, e: TypeEntry<C, V>) -> bool {
    &&& t.name@ == e.0
    &&& t.tp_id == e.1.tp_id
    &&& t.methods == e.1.methods
    &&& t.fields == e.1.fields
    &&& t.trait_implementations == e.1.trait_implementations
    &&& t.native_id == e.1.native_id
}

/// `list` holds the entries placed by their type IDs: it is just long
/// enough for the greatest ID, each position holds the entry listed last
/// with that ID, and a position that no entry has holds a default type.
pub open spec fn types_arranged<C, V>(list: Seq<Type<C, V>>, es: Seq<TypeEntry<C, V>>) -> bool {
    &&& list.len() == slot_span(es, type_slot())
    &&& forall|i: int|
        #![trigger list[i]]
        0 <= i < list.len() ==> match latest_at(es, type_slot(), i as nat) {
            Some(e) => lists_type(list[i], e),
            None => is_default_type(list[i]),
        }
}

/// The entries of the types of the module named `q`, each named `q::name`.
pub open spec fn named_types<C, V>(ts: Seq<Type<C, V>>, q: Seq<char>) -> Seq<TypeEntry<C, V>> {
    ts.map_values(|t: Type<C, V>| (q + "::"@ + t.name@, t))
}

/// The type entries of a module named `q` and of all modules below it: the
/// submodules' first, then the module's own types.
pub open spec fn module_type_entries<C, V>(m: Module<C, V>, q: Seq<char>) -> Seq<TypeEntry<C, V>>
    decreases m,
{
    proof {
        assert(decreases_to!(m => m.submodules));
    }
    submodule_type_entries(m.submodules@, q) + named_types(m.types@, q)
}

/// The type entries of the submodules of a module named `q`, in order; a
/// submodule named `s` is named `q::s`.
pub open spec fn submodule_type_entries<C, V>(subs: Seq<Module<C, V>>, q: Seq<char>) -> Seq<
    TypeEntry<C, V>,
>
    decreases subs,
{
    if subs.len() == 0 {
        Seq::empty()
    } else {
        proof {
            assert(decreases_to!(subs => subs[subs.len() - 1]));
            assert(decreases_to!(subs => subs.subrange(0, subs.len() - 1)));
        }
        submodule_type_entries(subs.drop_last(), q) + module_type_entries(
            subs.last(),
            q + "::"@ + subs.last().name@,
        )
    }
}

/// Everything a plugin lists as types: the types of its top modules, each
/// module named by its own name, and of all modules below them.
pub open spec fn type_entries<C, V>(ms: Seq<Module<C, V>>) -> Seq<TypeEntry<C, V>>
    decreases ms.len(),
{
    if ms.len() == 0 {
        Seq::empty()
    } else {
        type_entries(ms.drop_last()) + module_type_entries(ms.last(), ms.last().name@)
    }
}

/// Places type `t` at its ID under the name `name`.
fn place_type<C, V>(
    list: &mut Vec<Type<C, V>>,
    t: Type<C, V>,
    name: String,
    Ghost(es): Ghost<Seq<TypeEntry<C, V>>>,
)
    requires
        types_arranged(old(list)@, es),
    ensures
        types_arranged(final(list)@, es.push((name@, t))),
{
    let ghost e: TypeEntry<C, V> = (name@, t);
    let ghost old_list = list@;
    let id = t.tp_id;
    let mut u = t;
    u.name = name;
    assert(lists_type(u, e));
    if id < list.len() {
        list.set(id, u);
    } else {
        while list.len() < id
            invariant
                old_list.len() <= list@.len() <= id,
                forall|i: int| 0 <= i < old_list.len() ==> list@[i] == old_list[i],
                forall|i: int|
                    old_list.len() <= i < list@.len() ==> is_default_type(#[trigger] list@[i]),
            decreases id - list@.len(),
        {
            list.push(Type::default());
        }
        list.push(u);
    }
    proof {
        let slot = type_slot::<C, V>();
        let es2 = es.push(e);
        lemma_latest_push(es, e, slot, 0);
        assert(list@.len() == slot_span(es2, slot));
        assert(list@[id as int] == u);
        assert forall|i: int| 0 <= i < list@.len() implies match latest_at(
            es2,
            slot,
            i as nat,
        ) {
            Some(x) => lists_type(#[trigger] list@[i], x),
            None => is_default_type(list@[i]),
        } by {
            lemma_latest_push(es, e, slot, i as nat);
            if i != id {
                if i < old_list.len() {
                    assert(list@[i] == old_list[i]);
                    assert(match latest_at(es, slot, i as nat) {
                        Some(x) => lists_type(old_list[i], x),
                        None => is_default_type(old_list[i]),
                    });
                } else {
                    lemma_latest_beyond_span(es, slot, i as nat);
                }
            }
        }
    }
}

/// Places each of the types `ts` of the module named `q`, in order, under
/// the name `q::name`.
fn place_named_types<C, V>(
    list: &mut Vec<Type<C, V>>,
    ts: Vec<Type<C, V>>,
    q: &String,
    Ghost(es): Ghost<Seq<TypeEntry<C, V>>>,
)
    requires
        types_arranged(old(list)@, es),
    ensures
        types_arranged(final(list)@, es + named_types(ts@, q@)),
{
    let ghost all = ts@;
    let mut rest = ts;
    let n = rest.len();
    let mut k: usize = 0;
    assert(es + named_types(all.take(0), q@) =~= es);
    while rest.len() > 0
        invariant
            k <= all.len(),
            all.len() == n,
            rest@ == all.skip(k as int),
            types_arranged(list@, es + named_types(all.take(k as int), q@)),
        decreases rest@.len(),
    {
        let t = rest.remove(0);
        let mut name = q.clone();
        name.append("::");
        name.append(t.name.as_str());
        proof {
            assert(t == all[k as int]);
        }
        place_type(list, t, name, Ghost(es + named_types(all.take(k as int), q@)));
        proof {
            assert((es + named_types(all.take(k as int), q@)).push((name@, t)) =~= es
                + named_types(all.take(k + 1), q@));
        }
        k = k + 1;
    }
    proof {
        assert(all.take(k as int) =~= all);
    }
}

/// Places the types of module `m`, named `q`, and of all modules below it:
/// the submodules' first, in order, then the module's own.
#[verifier::loop_isolation(false)]
fn place_module_types<C, V>(
    list: &mut Vec<Type<C, V>>,
    m: Module<C, V>,
    q: &String,
    Ghost(es): Ghost<Seq<TypeEntry<C, V>>>,
)
    requires
        types_arranged(old(list)@, es),
    ensures
        types_arranged(final(list)@, es + module_type_entries(m, q@)),
    decreases m,
{
    let ghost gm = m;
    let Module { name: _, types, functions: _, submodules, trait_definitions: _, constants: _ } =
        m;
    let ghost all = submodules@;
    let mut rest = submodules;
    let n = rest.len();
    let mut k: usize = 0;
    assert(es + submodule_type_entries(all.take(0), q@) =~= es);
    while rest.len() > 0
        invariant
            k <= all.len(),
            all.len() == n,
            all == gm.submodules@,
            rest@ == all.skip(k as int),
            types_arranged(list@, es + submodule_type_entries(all.take(k as int), q@)),
        decreases rest@.len(),
    {
        let sub = rest.remove(0);
        let mut sq = q.clone();
        sq.append("::");
        sq.append(sub.name.as_str());
        proof {
            assert(sub == all[k as int]);
            assert(all.take(k + 1).drop_last() =~= all.take(k as int));
            assert(decreases_to!(gm => gm.submodules));
            assert(decreases_to!(gm.submodules@ => gm.submodules@[k as int]));
            assert(decreases_to!(gm => sub));
        }
        let ghost before = es + submodule_type_entries(all.take(k as int), q@);
        place_module_types(list, sub, &sq, Ghost(before));
        proof {
            assert(before + module_type_entries(sub, sq@) =~= es + submodule_type_entries(
                all.take(k + 1),
                q@,
            ));
        }
        k = k + 1;
    }
    proof {
        assert(all.take(k as int) =~= all);
    }
    let ghost es1 = es + submodule_type_entries(gm.submodules@, q@);
    place_named_types(list, types, q, Ghost(es1));
    proof {
        assert(es1 + named_types(gm.types@, q@) =~= es + module_type_entries(gm, q@));
    }
}

/// Lays out every type of a plugin in one list, each at the position given
/// by its type ID.
///
/// The types are those of the modules `modules` and of all their
/// submodules, each listed under its qualified name: type `T` of module
/// `a::b` as `a::b::T`. Where two types have the same ID, the later one
/// stands; a position that no type's ID names holds a default type.
pub fn get_type_list<C, V>(modules: Vec<Module<C, V>>) -> (list: Vec<Type<C, V>>)
    ensures
        types_arranged(list@, type_entries(modules@)),
{
    let mut list: Vec<Type<C, V>> = Vec::new();
    let ghost all = modules@;
    let mut rest = modules;
    let n = rest.len();
    let mut k: usize = 0;
    assert(types_arranged(list@, Seq::<TypeEntry<C, V>>::empty()));
    assert(type_entries(all.take(0)) =~= Seq::<TypeEntry<C, V>>::empty());
    while rest.len() > 0
        invariant
            k <= all.len(),
            all.len() == n,
            rest@ == all.skip(k as int),
            types_arranged(list@, type_entries(all.take(k as int))),
        decreases rest@.len(),
    {
        let m = rest.remove(0);
        let q = m.name.clone();
        proof {
            assert(m == all[k as int]);
            assert(all.take(k + 1).drop_last() =~= all.take(k as int));
        }
        let ghost before = type_entries(all.take(k as int));
        place_module_types(&mut list, m, &q, Ghost(before));
        k = k + 1;
    }
    proof {
        assert(all.take(k as int) =~= all);
    }
    list
}

// ---------------------------------------------------------------------------
// What the lists promise
// ---------------------------------------------------------------------------

/// In a function list, every position holds either a function whose ID is
/// that position or, where no listed function has that ID, a default
/// function.
pub proof fn lemma_function_ids_are_positions<C: Default, V>(
    list: Seq<Function<C, V>>,
    es: Seq<FunctionEntry<C, V>>,
    i: int,
)
    requires
        functions_arranged(list, es),
        0 <= i < list.len(),
    ensures
        list[i].fn_id == i || (is_default_function(list[i]) && forall|k: int|
            0 <= k < es.len() ==> #[trigger] es[k].1.fn_id != i),
{
    lemma_latest_has_slot(es, function_slot(), i as nat);
    if latest_at(es, function_slot(), i as nat) is None {
        assert forall|k: int| 0 <= k < es.len() implies #[trigger] es[k].1.fn_id != i by {
            lemma_listed_slot_taken(es, function_slot(), k);
        }
    }
}

/// In a function list, every listed function has a place: the list reaches
/// its ID, and the function at that position has that ID. The function
/// listed last with a given ID is the one that stands there, under its
/// qualified name.
pub proof fn lemma_every_function_placed<C: Default, V>(
    list: Seq<Function<C, V>>,
    es: Seq<FunctionEntry<C, V>>,
    k: int,
)
    requires
        functions_arranged(list, es),
        0 <= k < es.len(),
    ensures
        es[k].1.fn_id < list.len(),
        list[es[k].1.fn_id as int].fn_id == es[k].1.fn_id,
        (forall|j: int| k < j < es.len() ==> #[trigger] es[j].1.fn_id != es[k].1.fn_id)
            ==> lists_function(list[es[k].1.fn_id as int], es[k]),
{
    let slot = function_slot::<C, V>();
    lemma_listed_slot_taken(es, slot, k);
    lemma_latest_has_slot(es, slot, slot(es[k]));
    if forall|j: int| k < j < es.len() ==> #[trigger] es[j].1.fn_id != es[k].1.fn_id {
        assert forall|j: int| k < j < es.len() implies slot(#[trigger] es[j]) != slot(es[k]) by {
            assert(es[j].1.fn_id != es[k].1.fn_id);
        }
        lemma_latest_is_last_of_slot(es, slot, k);
    }
}

/// In a type list, every position holds either a type whose ID is that
/// position or, where no listed type has that ID, a default type.
pub proof fn lemma_type_ids_are_positions<C, V>(
    list: Seq<Type<C, V>>,
    es: Seq<TypeEntry<C, V>>,
    i: int,
)
    requires
        types_arranged(list, es),
        0 <= i < list.len(),
    ensures
        list[i].tp_id == i || (is_default_type(list[i]) && forall|k: int|
            0 <= k < es.len() ==> #[trigger] es[k].1.tp_id != i),
{
    lemma_latest_has_slot(es, type_slot(), i as nat);
    if latest_at(es, type_slot(), i as nat) is None {
        assert forall|k: int| 0 <= k < es.len() implies #[trigger] es[k].1.tp_id != i by {
            lemma_listed_slot_taken(es, type_slot(), k);
        }
    }
}

/// In a type list, every listed type has a place: the list reaches its ID,
/// and the type at that position has that ID. The type listed last with a
/// given ID is the one that stands there, under its qualified name.
pub proof fn lemma_every_type_placed<C, V>(
    list: Seq<Type<C, V>>,
    es: Seq<TypeEntry<C, V>>,
    k: int,
)
    requires
        types_arranged(list, es),
        0 <= k < es.len(),
    ensures
        es[k].1.tp_id < list.len(),
        list[es[k].1.tp_id as int].tp_id == es[k].1.tp_id,
        (forall|j: int| k < j < es.len() ==> #[trigger] es[j].1.tp_id != es[k].1.tp_id)
            ==> lists_type(list[es[k].1.tp_id as int], es[k]),
{
    let slot = type_slot::<C, V>();
    lemma_listed_slot_taken(es, slot, k);
    lemma_latest_has_slot(es, slot, slot(es[k]));
    if forall|j: int| k < j < es.len() ==> #[trigger] es[j].1.tp_id != es[k].1.tp_id {
        assert forall|j: int| k < j < es.len() implies slot(#[trigger] es[j]) != slot(es[k]) by {
            assert(es[j].1.tp_id != es[k].1.tp_id);
        }
        lemma_latest_is_last_of_slot(es, slot, k);
    }
}

// ---------------------------------------------------------------------------
// What the lists hold
// ---------------------------------------------------------------------------

/// An entry of either part of a concatenation is an entry of the whole.
pub proof fn lemma_contains_concat<E>(a: Seq<E>, b: Seq<E>, e: E)
    requires
        a.contains(e) || b.contains(e),
    ensures
        (a + b).contains(e),
{
    if a.contains(e) {
        let k = choose|k: int| 0 <= k < a.len() && a[k] == e;
        assert((a + b)[k] == e);
    } else {
        let k = choose|k: int| 0 <= k < b.len() && b[k] == e;
        assert((a + b)[a.len() + k] == e);
    }
}

/// Every function of a list named under `prefix` is listed as
/// `prefix::name`.
pub proof fn lemma_named_function_listed<C, V>(
    fs: Seq<Function<C, V>>,
    prefix: Seq<char>,
    j: int,
)
    requires
        0 <= j < fs.len(),
    ensures
        named_functions(fs, prefix).contains((prefix + "::"@ + fs[j].name@, fs[j])),
{
    assert(named_functions(fs, prefix)[j] == (prefix + "::"@ + fs[j].name@, fs[j]));
}

/// The entries of each type of a list are entries of the list.
pub proof fn lemma_type_entries_included<C, V>(
    ts: Seq<Type<C, V>>,
    q: Seq<char>,
    i: int,
    e: FunctionEntry<C, V>,
)
    requires
        0 <= i < ts.len(),
        type_function_entries(ts[i], q).contains(e),
    ensures
        types_function_entries(ts, q).contains(e),
    decreases ts.len(),
{
    if i == ts.len() - 1 {
        lemma_contains_concat(types_function_entries(ts.drop_last(), q), type_function_entries(ts[i], q), e);
    } else {
        assert(ts.drop_last()[i] == ts[i]);
        lemma_type_entries_included(ts.drop_last(), q, i, e);
        lemma_contains_concat(
            types_function_entries(ts.drop_last(), q),
            type_function_entries(ts.last(), q),
            e,
        );
    }
}

/// The functions of each trait implementation of a list are entries of
/// the list.
pub proof fn lemma_implementation_entries_included<C, V>(
    impls: Seq<TraitImplementation<C, V>>,
    prefix: Seq<char>,
    a: int,
    e: FunctionEntry<C, V>,
)
    requires
        0 <= a < impls.len(),
        named_functions(trait_functions(impls[a].methods@), prefix).contains(e),
    ensures
        implementation_entries(impls, prefix).contains(e),
    decreases impls.len(),
{
    if a == impls.len() - 1 {
        lemma_contains_concat(
            implementation_entries(impls.drop_last(), prefix),
            named_functions(trait_functions(impls[a].methods@), prefix),
            e,
        );
    } else {
        assert(impls.drop_last()[a] == impls[a]);
        lemma_implementation_entries_included(impls.drop_last(), prefix, a, e);
        lemma_contains_concat(
            implementation_entries(impls.drop_last(), prefix),
            named_functions(trait_functions(impls.last().methods@), prefix),
            e,
        );
    }
}

/// The entries of each submodule of a list are entries of the list.
pub proof fn lemma_submodule_entries_included<C, V>(
    subs: Seq<Module<C, V>>,
    q: Seq<char>,
    j: int,
    e: FunctionEntry<C, V>,
)
    requires
        0 <= j < subs.len(),
        module_function_entries(subs[j], q + "::"@ + subs[j].name@).contains(e),
    ensures
        submodule_function_entries(subs, q).contains(e),
    decreases subs.len(),
{
    let last = subs.last();
    if j == subs.len() - 1 {
        lemma_contains_concat(
            submodule_function_entries(subs.drop_last(), q),
            module_function_entries(last, q + "::"@ + last.name@),
            e,
        );
    } else {
        assert(subs.drop_last()[j] == subs[j]);
        lemma_submodule_entries_included(subs.drop_last(), q, j, e);
        lemma_contains_concat(
            submodule_function_entries(subs.drop_last(), q),
            module_function_entries(last, q + "::"@ + last.name@),
            e,
        );
    }
}

/// The entries of each top module are entries of the plugin's list.
pub proof fn lemma_top_module_entries_included<C, V>(
    ms: Seq<Module<C, V>>,
    i: int,
    e: FunctionEntry<C, V>,
)
    requires
        0 <= i < ms.len(),
        module_function_entries(ms[i], ms[i].name@).contains(e),
    ensures
        modules_function_entries(ms).contains(e),
    decreases ms.len(),
{
    let last = ms.last();
    if i == ms.len() - 1 {
        lemma_contains_concat(
            modules_function_entries(ms.drop_last()),
            module_function_entries(last, last.name@),
            e,
        );
    } else {
        assert(ms.drop_last()[i] == ms[i]);
        lemma_top_module_entries_included(ms.drop_last(), i, e);
        lemma_contains_concat(
            modules_function_entries(ms.drop_last()),
            module_function_entries(last, last.name@),
            e,
        );
    }
}

/// A module named `q` lists all it holds: its functions as `q::name`, its
/// constants as `@q::name`, the methods of its types as `q::type::name`,
/// their fields as `@q::type::name`, the functions of their trait
/// implementations as `q::type::name`, and everything its submodules list,
/// a submodule `s` being named `q::s`.
pub proof fn lemma_module_lists_all<C, V>(m: Module<C, V>, q: Seq<char>)
    ensures
        forall|j: int|
            0 <= j < m.functions@.len() ==> module_function_entries(m, q).contains(
                (q + "::"@ + #[trigger] m.functions@[j].name@, m.functions@[j]),
            ),
        forall|j: int|
            0 <= j < m.constants@.len() ==> module_function_entries(m, q).contains(
                ("@"@ + q + "::"@ + #[trigger] m.constants@[j].name@, m.constants@[j]),
            ),
        forall|i: int, j: int|
            0 <= i < m.types@.len() && 0 <= j < m.types@[i].methods@.len()
                ==> module_function_entries(m, q).contains(
                (q + "::"@ + m.types@[i].name@ + "::"@ + #[trigger] m.types@[i].methods@[j].name@,
                m.types@[i].methods@[j]),
            ),
        forall|i: int, j: int|
            0 <= i < m.types@.len() && 0 <= j < m.types@[i].fields@.len()
                ==> module_function_entries(m, q).contains(
                ("@"@ + (q + "::"@ + m.types@[i].name@) + "::"@
                    + #[trigger] m.types@[i].fields@[j].name@, m.types@[i].fields@[j]),
            ),
        forall|i: int, a: int, j: int|
            0 <= i < m.types@.len() && 0 <= a < m.types@[i].trait_implementations@.len() && 0
                <= j < m.types@[i].trait_implementations@[a].methods@.len()
                ==> module_function_entries(m, q).contains(
                (q + "::"@ + m.types@[i].name@ + "::"@
                    + #[trigger] m.types@[i].trait_implementations@[a].methods@[j].function.name@,
                m.types@[i].trait_implementations@[a].methods@[j].function),
            ),
        forall|j: int, e: FunctionEntry<C, V>|
            0 <= j < m.submodules@.len() && #[trigger] module_function_entries(
                m.submodules@[j],
                q + "::"@ + m.submodules@[j].name@,
            ).contains(e) ==> module_function_entries(m, q).contains(e),
{
    let subs = submodule_function_entries(m.submodules@, q);
    let fns = named_functions(m.functions@, q);
    let cq = "@"@ + q;
    let consts = named_functions(m.constants@, cq);
    let tys = types_function_entries(m.types@, q);
    assert(module_function_entries(m, q) == subs + (fns + consts + tys)) by {
        assert(own_function_entries(m, q) == fns + consts + tys);
    }
    assert forall|j: int| 0 <= j < m.functions@.len() implies module_function_entries(
        m,
        q,
    ).contains((q + "::"@ + #[trigger] m.functions@[j].name@, m.functions@[j])) by {
        let e = (q + "::"@ + m.functions@[j].name@, m.functions@[j]);
        lemma_named_function_listed(m.functions@, q, j);
        lemma_contains_concat(fns, consts, e);
        lemma_contains_concat(fns + consts, tys, e);
        lemma_contains_concat(subs, fns + consts + tys, e);
    }
    assert forall|j: int| 0 <= j < m.constants@.len() implies module_function_entries(
        m,
        q,
    ).contains(("@"@ + q + "::"@ + #[trigger] m.constants@[j].name@, m.constants@[j])) by {
        let e = (cq + "::"@ + m.constants@[j].name@, m.constants@[j]);
        lemma_named_function_listed(m.constants@, cq, j);
        lemma_contains_concat(fns, consts, e);
        lemma_contains_concat(fns + consts, tys, e);
        lemma_contains_concat(subs, fns + consts + tys, e);
    }
    assert forall|i: int, j: int|
        0 <= i < m.types@.len() && 0 <= j < m.types@[i].methods@.len() implies module_function_entries(
        m,
        q,
    ).contains(
        (q + "::"@ + m.types@[i].name@ + "::"@ + #[trigger] m.types@[i].methods@[j].name@,
        m.types@[i].methods@[j]),
    ) by {
        let t = m.types@[i];
        let p = q + "::"@ + t.name@;
        let e = (p + "::"@ + t.methods@[j].name@, t.methods@[j]);
        let ms = named_functions(t.methods@, p);
        let fs = named_functions(t.fields@, "@"@ + p);
        let ims = implementation_entries(t.trait_implementations@, p);
        lemma_named_function_listed(t.methods@, p, j);
        lemma_contains_concat(ms, fs, e);
        lemma_contains_concat(ms + fs, ims, e);
        lemma_type_entries_included(m.types@, q, i, e);
        lemma_contains_concat(fns + consts, tys, e);
        lemma_contains_concat(subs, fns + consts + tys, e);
    }
    assert forall|i: int, j: int|
        0 <= i < m.types@.len() && 0 <= j < m.types@[i].fields@.len() implies module_function_entries(
        m,
        q,
    ).contains(
        ("@"@ + (q + "::"@ + m.types@[i].name@) + "::"@ + #[trigger] m.types@[i].fields@[j].name@,
        m.types@[i].fields@[j]),
    ) by {
        let t = m.types@[i];
        let p = q + "::"@ + t.name@;
        let e = ("@"@ + p + "::"@ + t.fields@[j].name@, t.fields@[j]);
        let ms = named_functions(t.methods@, p);
        let fs = named_functions(t.fields@, "@"@ + p);
        let ims = implementation_entries(t.trait_implementations@, p);
        lemma_named_function_listed(t.fields@, "@"@ + p, j);
        lemma_contains_concat(ms, fs, e);
        lemma_contains_concat(ms + fs, ims, e);
        lemma_type_entries_included(m.types@, q, i, e);
        lemma_contains_concat(fns + consts, tys, e);
        lemma_contains_concat(subs, fns + consts + tys, e);
    }
    assert forall|i: int, a: int, j: int|
        0 <= i < m.types@.len() && 0 <= a < m.types@[i].trait_implementations@.len() && 0 <= j
            < m.types@[i].trait_implementations@[a].methods@.len() implies module_function_entries(
        m,
        q,
    ).contains(
        (q + "::"@ + m.types@[i].name@ + "::"@
            + #[trigger] m.types@[i].trait_implementations@[a].methods@[j].function.name@,
        m.types@[i].trait_implementations@[a].methods@[j].function),
    ) by {
        let t = m.types@[i];
        let p = q + "::"@ + t.name@;
        let tfs = trait_functions(t.trait_implementations@[a].methods@);
        let f = t.trait_implementations@[a].methods@[j].function;
        assert(tfs[j] == f);
        let e = (p + "::"@ + f.name@, f);
        let ms = named_functions(t.methods@, p);
        let fs = named_functions(t.fields@, "@"@ + p);
        let ims = implementation_entries(t.trait_implementations@, p);
        lemma_named_function_listed(tfs, p, j);
        lemma_implementation_entries_included(t.trait_implementations@, p, a, e);
        lemma_contains_concat(ms + fs, ims, e);
        lemma_type_entries_included(m.types@, q, i, e);
        lemma_contains_concat(fns + consts, tys, e);
        lemma_contains_concat(subs, fns + consts + tys, e);
    }
    assert forall|j: int, e: FunctionEntry<C, V>|
        0 <= j < m.submodules@.len() && #[trigger] module_function_entries(
            m.submodules@[j],
            q + "::"@ + m.submodules@[j].name@,
        ).contains(e) implies module_function_entries(m, q).contains(e) by {
        lemma_submodule_entries_included(m.submodules@, q, j, e);
        lemma_contains_concat(subs, fns + consts + tys, e);
    }
}

/// A plugin lists everything its top modules list, each top module being
/// named by its own name, and its operator functions under their own
/// names.
pub proof fn lemma_plugin_lists_all<C, V>(
    modules: Seq<Module<C, V>>,
    operators: Seq<Function<C, V>>,
)
    ensures
        forall|i: int, e: FunctionEntry<C, V>|
            0 <= i < modules.len() && #[trigger] module_function_entries(
                modules[i],
                modules[i].name@,
            ).contains(e) ==> function_entries(modules, operators).contains(e),
        forall|j: int|
            0 <= j < operators.len() ==> function_entries(modules, operators).contains(
                (#[trigger] operators[j].name@, operators[j]),
            ),
{
    let ops = operators.map_values(|f: Function<C, V>| (f.name@, f));
    assert forall|i: int, e: FunctionEntry<C, V>|
        0 <= i < modules.len() && #[trigger] module_function_entries(
            modules[i],
            modules[i].name@,
        ).contains(e) implies function_entries(modules, operators).contains(e) by {
        lemma_top_module_entries_included(modules, i, e);
        lemma_contains_concat(modules_function_entries(modules), ops, e);
    }
    assert forall|j: int| 0 <= j < operators.len() implies function_entries(
        modules,
        operators,
    ).contains((#[trigger] operators[j].name@, operators[j])) by {
        let e = (operators[j].name@, operators[j]);
        assert(ops[j] == e);
        lemma_contains_concat(modules_function_entries(modules), ops, e);
    }
}

/// In a function list, every listed function has a place: the list reaches
/// its ID, and the function at that position has that ID.
pub proof fn lemma_listed_function_placed<C: Default, V>(
    list: Seq<Function<C, V>>,
    es: Seq<FunctionEntry<C, V>>,
    e: FunctionEntry<C, V>,
)
    requires
        functions_arranged(list, es),
        es.contains(e),
    ensures
        e.1.fn_id < list.len(),
        list[e.1.fn_id as int].fn_id == e.1.fn_id,
{
    let k = choose|k: int| 0 <= k < es.len() && es[k] == e;
    lemma_every_function_placed(list, es, k);
}

/// The type entries of each submodule of a list are entries of the list.
pub proof fn lemma_submodule_type_entries_included<C, V>(
    subs: Seq<Module<C, V>>,
    q: Seq<char>,
    j: int,
    e: TypeEntry<C, V>,
)
    requires
        0 <= j < subs.len(),
        module_type_entries(subs[j], q + "::"@ + subs[j].name@).contains(e),
    ensures
        submodule_type_entries(subs, q).contains(e),
    decreases subs.len(),
{
    let last = subs.last();
    if j < subs.len() - 1 {
        assert(subs.drop_last()[j] == subs[j]);
        lemma_submodule_type_entries_included(subs.drop_last(), q, j, e);
    }
    lemma_contains_concat(
        submodule_type_entries(subs.drop_last(), q),
        module_type_entries(last, q + "::"@ + last.name@),
        e,
    );
}

/// A module named `q` lists its types as `q::name`, and every type its
/// submodules list, a submodule `s` being named `q::s`.
pub proof fn lemma_module_lists_all_types<C, V>(m: Module<C, V>, q: Seq<char>)
    ensures
        forall|i: int|
            0 <= i < m.types@.len() ==> module_type_entries(m, q).contains(
                (q + "::"@ + #[trigger] m.types@[i].name@, m.types@[i]),
            ),
        forall|j: int, e: TypeEntry<C, V>|
            0 <= j < m.submodules@.len() && #[trigger] module_type_entries(
                m.submodules@[j],
                q + "::"@ + m.submodules@[j].name@,
            ).contains(e) ==> module_type_entries(m, q).contains(e),
{
    let subs = submodule_type_entries(m.submodules@, q);
    let own = named_types(m.types@, q);
    assert forall|i: int| 0 <= i < m.types@.len() implies module_type_entries(m, q).contains(
        (q + "::"@ + #[trigger] m.types@[i].name@, m.types@[i]),
    ) by {
        let e = (q + "::"@ + m.types@[i].name@, m.types@[i]);
        assert(own[i] == e);
        lemma_contains_concat(subs, own, e);
    }
    assert forall|j: int, e: TypeEntry<C, V>|
        0 <= j < m.submodules@.len() && #[trigger] module_type_entries(
            m.submodules@[j],
            q + "::"@ + m.submodules@[j].name@,
        ).contains(e) implies module_type_entries(m, q).contains(e) by {
        lemma_submodule_type_entries_included(m.submodules@, q, j, e);
        lemma_contains_concat(subs, own, e);
    }
}

/// A plugin lists every type its top modules list, each top module being
/// named by its own name.
pub proof fn lemma_plugin_lists_all_types<C, V>(
    modules: Seq<Module<C, V>>,
    i: int,
    e: TypeEntry<C, V>,
)
    requires
        0 <= i < modules.len(),
        module_type_entries(modules[i], modules[i].name@).contains(e),
    ensures
        type_entries(modules).contains(e),
    decreases modules.len(),
{
    let last = modules.last();
    if i < modules.len() - 1 {
        assert(modules.drop_last()[i] == modules[i]);
        lemma_plugin_lists_all_types(modules.drop_last(), i, e);
    }
    lemma_contains_concat(
        type_entries(modules.drop_last()),
        module_type_entries(last, last.name@),
        e,
    );
}

/// In a type list, every listed type has a place: the list reaches its ID,
/// and the type at that position has that ID.
pub proof fn lemma_listed_type_placed<C, V>(
    list: Seq<Type<C, V>>,
    es: Seq<TypeEntry<C, V>>,
    e: TypeEntry<C, V>,
)
    requires
        types_arranged(list, es),
        es.contains(e),
    ensures
        e.1.tp_id < list.len(),
        list[e.1.tp_id as int].tp_id == e.1.tp_id,
{
    let k = choose|k: int| 0 <= k < es.len() && es[k] == e;
    lemma_every_type_placed(list, es, k);
}

// ---------------------------------------------------------------------------
// How many items are listed
// ---------------------------------------------------------------------------

/// The number of functions of a list of trait implementations.
pub open spec fn implementation_function_count<C, V>(impls: Seq<TraitImplementation<C, V>>) -> nat
    decreases impls.len(),
{
    if impls.len() == 0 {
        0
    } else {
        implementation_function_count(impls.drop_last()) + impls.last().methods@.len()
    }
}

/// The number of functions a type holds: methods, fields and trait
/// implementation functions.
pub open spec fn type_function_count<C, V>(t: Type<C, V>) -> nat {
    t.methods@.len() + t.fields@.len() + implementation_function_count(t.trait_implementations@)
}

/// The number of functions a list of types holds.
pub open spec fn types_function_count<C, V>(ts: Seq<Type<C, V>>) -> nat
    decreases ts.len(),
{
    if ts.len() == 0 {
        0
    } else {
        types_function_count(ts.drop_last()) + type_function_count(ts.last())
    }
}

/// The number of functions a module and all modules below it hold:
/// functions, constants, and the functions of their types.
pub open spec fn module_function_count<C, V>(m: Module<C, V>) -> nat
    decreases m,
{
    proof {
        assert(decreases_to!(m => m.submodules));
    }
    submodule_function_count(m.submodules@) + m.functions@.len() + m.constants@.len()
        + types_function_count(m.types@)
}

/// The number of functions a list of modules and all modules below them
/// hold.
pub open spec fn submodule_function_count<C, V>(subs: Seq<Module<C, V>>) -> nat
    decreases subs,
{
    if subs.len() == 0 {
        0
    } else {
        proof {
            assert(decreases_to!(subs => subs[subs.len() - 1]));
            assert(decreases_to!(subs => subs.subrange(0, subs.len() - 1)));
        }
        submodule_function_count(subs.drop_last()) + module_function_count(subs.last())
    }
}

/// The number of types a module and all modules below it hold.
pub open spec fn module_type_count<C, V>(m: Module<C, V>) -> nat
    decreases m,
{
    proof {
        assert(decreases_to!(m => m.submodules));
    }
    submodule_type_count(m.submodules@) + m.types@.len()
}

/// The number of types a list of modules and all modules below them hold.
pub open spec fn submodule_type_count<C, V>(subs: Seq<Module<C, V>>) -> nat
    decreases subs,
{
    if subs.len() == 0 {
        0
    } else {
        proof {
            assert(decreases_to!(subs => subs[subs.len() - 1]));
            assert(decreases_to!(subs => subs.subrange(0, subs.len() - 1)));
        }
        submodule_type_count(subs.drop_last()) + module_type_count(subs.last())
    }
}

proof fn lemma_implementation_entry_count<C, V>(
    impls: Seq<TraitImplementation<C, V>>,
    p: Seq<char>,
)
    ensures
        implementation_entries(impls, p).len() == implementation_function_count(impls),
    decreases impls.len(),
{
    if impls.len() > 0 {
        lemma_implementation_entry_count(impls.drop_last(), p);
    }
}

proof fn lemma_types_entry_count<C, V>(ts: Seq<Type<C, V>>, q: Seq<char>)
    ensures
        types_function_entries(ts, q).len() == types_function_count(ts),
    decreases ts.len(),
{
    if ts.len() > 0 {
        lemma_types_entry_count(ts.drop_last(), q);
        let t = ts.last();
        lemma_implementation_entry_count(t.trait_implementations@, q + "::"@ + t.name@);
    }
}

proof fn lemma_module_entry_count<C, V>(m: Module<C, V>, q: Seq<char>)
    ensures
        module_function_entries(m, q).len() == module_function_count(m),
        module_type_entries(m, q).len() == module_type_count(m),
    decreases m,
{
    assert(decreases_to!(m => m.submodules));
    lemma_submodule_entry_count(m.submodules@, q);
    lemma_types_entry_count(m.types@, q);
}

proof fn lemma_submodule_entry_count<C, V>(subs: Seq<Module<C, V>>, q: Seq<char>)
    ensures
        submodule_function_entries(subs, q).len() == submodule_function_count(subs),
        submodule_type_entries(subs, q).len() == submodule_type_count(subs),
    decreases subs,
{
    if subs.len() > 0 {
        assert(decreases_to!(subs => subs[subs.len() - 1]));
        assert(decreases_to!(subs => subs.subrange(0, subs.len() - 1)));
        lemma_submodule_entry_count(subs.drop_last(), q);
        lemma_module_entry_count(subs.last(), q + "::"@ + subs.last().name@);
    }
}

/// A plugin lists each of its functions once, and each of its types once:
/// there are exactly as many function entries as its modules, submodules
/// and types hold functions, plus its operators, and exactly as many type
/// entries as its modules and submodules hold types.
pub proof fn lemma_each_item_listed_once<C, V>(
    modules: Seq<Module<C, V>>,
    operators: Seq<Function<C, V>>,
)
    ensures
        function_entries(modules, operators).len() == submodule_function_count(modules)
            + operators.len(),
        type_entries(modules).len() == submodule_type_count(modules),
    decreases modules.len(),
{
    if modules.len() > 0 {
        lemma_each_item_listed_once(modules.drop_last(), operators);
        lemma_module_entry_count(modules.last(), modules.last().name@);
    }
}

// ---------------------------------------------------------------------------
// A module of plain items
// ---------------------------------------------------------------------------

/// For a plugin of one module `m` that holds only functions, with distinct
/// IDs, each function `f` stands at its ID in the function list, named
/// `m::f` and otherwise unchanged.
pub proof fn lemma_flat_module_functions<C: Default, V>(
    m: Module<C, V>,
    list: Seq<Function<C, V>>,
)
    requires
        m.submodules@.len() == 0,
        m.types@.len() == 0,
        m.constants@.len() == 0,
        forall|j: int, k: int|
            0 <= j < k < m.functions@.len() ==> m.functions@[j].fn_id != m.functions@[k].fn_id,
        functions_arranged(list, function_entries(seq![m], Seq::empty())),
    ensures
        forall|j: int|
            0 <= j < m.functions@.len() ==> {
                let f = #[trigger] m.functions@[j];
                let g = list[f.fn_id as int];
                &&& f.fn_id < list.len()
                &&& g.name@ == m.name@ + "::"@ + f.name@
                &&& g.callable == f.callable
                &&& g.fn_id == f.fn_id
                &&& g.parameters == f.parameters
                &&& g.return_type == f.return_type
                &&& g.no_check_args == f.no_check_args
                &&& g.dependencies == f.dependencies
            },
{
    let q = m.name@;
    let fs = m.functions@;
    let es = function_entries(seq![m], Seq::empty());
    assert(seq![m].drop_last() =~= Seq::<Module<C, V>>::empty());
    assert(named_functions(m.constants@, "@"@ + q) =~= Seq::<FunctionEntry<C, V>>::empty());
    assert(submodule_function_entries(m.submodules@, q) =~= Seq::<FunctionEntry<C, V>>::empty());
    assert(types_function_entries(m.types@, q) =~= Seq::<FunctionEntry<C, V>>::empty());
    assert(seq![m].last() == m);
    assert(modules_function_entries(seq![m].drop_last()) =~= Seq::<FunctionEntry<C, V>>::empty());
    assert(modules_function_entries(seq![m]) == modules_function_entries(seq![m].drop_last())
        + module_function_entries(m, q));
    assert(own_function_entries(m, q) =~= named_functions(fs, q));
    assert(module_function_entries(m, q) =~= named_functions(fs, q));
    assert(Seq::<Function<C, V>>::empty().map_values(|f: Function<C, V>| (f.name@, f))
        =~= Seq::<FunctionEntry<C, V>>::empty());
    assert(es =~= named_functions(fs, q));
    assert forall|j: int| 0 <= j < fs.len() implies {
        let f = #[trigger] fs[j];
        let g = list[f.fn_id as int];
        &&& f.fn_id < list.len()
        &&& g.name@ == q + "::"@ + f.name@
        &&& g.callable == f.callable
        &&& g.fn_id == f.fn_id
        &&& g.parameters == f.parameters
        &&& g.return_type == f.return_type
        &&& g.no_check_args == f.no_check_args
        &&& g.dependencies == f.dependencies
    } by {
        assert(es[j] == (q + "::"@ + fs[j].name@, fs[j]));
        assert forall|k: int| j < k < es.len() implies #[trigger] es[k].1.fn_id != es[j].1.fn_id by {
            assert(es[k].1 == fs[k]);
        }
        lemma_every_function_placed(list, es, j);
    }
}

/// For a plugin of one module `m` without submodules whose types have
/// distinct IDs, each type `t` stands at its ID in the type list, named
/// `m::t` and otherwise unchanged.
pub proof fn lemma_flat_module_types<C, V>(m: Module<C, V>, list: Seq<Type<C, V>>)
    requires
        m.submodules@.len() == 0,
        forall|j: int, k: int|
            0 <= j < k < m.types@.len() ==> m.types@[j].tp_id != m.types@[k].tp_id,
        types_arranged(list, type_entries(seq![m])),
    ensures
        forall|j: int|
            0 <= j < m.types@.len() ==> {
                let t = #[trigger] m.types@[j];
                let u = list[t.tp_id as int];
                &&& t.tp_id < list.len()
                &&& u.name@ == m.name@ + "::"@ + t.name@
                &&& u.tp_id == t.tp_id
                &&& u.methods == t.methods
                &&& u.fields == t.fields
                &&& u.trait_implementations == t.trait_implementations
                &&& u.native_id == t.native_id
            },
{
    let q = m.name@;
    let ts = m.types@;
    let es = type_entries(seq![m]);
    assert(seq![m].drop_last() =~= Seq::<Module<C, V>>::empty());
    assert(submodule_type_entries(m.submodules@, q) =~= Seq::<TypeEntry<C, V>>::empty());
    assert(seq![m].last() == m);
    assert(type_entries(seq![m].drop_last()) =~= Seq::<TypeEntry<C, V>>::empty());
    assert(type_entries(seq![m]) == type_entries(seq![m].drop_last()) + module_type_entries(m, q));
    assert(module_type_entries(m, q) =~= named_types(ts, q));
    assert(es =~= named_types(ts, q));
    assert forall|j: int| 0 <= j < ts.len() implies {
        let t = #[trigger] ts[j];
        let u = list[t.tp_id as int];
        &&& t.tp_id < list.len()
        &&& u.name@ == q + "::"@ + t.name@
        &&& u.tp_id == t.tp_id
        &&& u.methods == t.methods
        &&& u.fields == t.fields
        &&& u.trait_implementations == t.trait_implementations
        &&& u.native_id == t.native_id
    } by {
        assert(es[j] == (q + "::"@ + ts[j].name@, ts[j]));
        assert forall|k: int| j < k < es.len() implies #[trigger] es[k].1.tp_id != es[j].1.tp_id by {
            assert(es[k].1 == ts[k]);
        }
        lemma_every_type_placed(list, es, j);
    }
}

} // verus!
