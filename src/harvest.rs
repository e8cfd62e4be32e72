//! The function, type and trait definition catalogs, harvested from the
//! module catalog: every entity under its full name, at the slot it
//! declares.

use vstd::prelude::*;
use vstd::string::StringExecFns;
use crate::catalog::{
    appended, declared_ids_distinct, entries_match, is_catalog_of_declared,
    lemma_appended_nothing, lemma_appended_trans, lemma_entries_match_append, place_declared,
    CatalogEntry,
};
use crate::error::DuskError;
use crate::flatten::qualify;
use crate::functions::Function;
use crate::modules::Module;
use crate::traits::{TraitDefinition, TraitFunction, TraitImplementation};
use crate::types::Type;

verus! {

/// `@` before the name of a constant or field accessor, nothing before
/// that of another function.
pub open spec fn accessor_mark(accessor: bool) -> Seq<char> {
    if accessor {
        seq!['@']
    } else {
        seq![]
    }
}

/// The functions `fs` declared inside `prefix`, each paired with its full
/// name `prefix::name` (`@prefix::name` for accessors).
pub open spec fn qualified_functions(prefix: Seq<char>, fs: Seq<Function>, accessor: bool) -> Seq<
    (Seq<char>, Function),
> {
    fs.map_values(|f: Function| (accessor_mark(accessor) + qualify(prefix, f.name@), f))
}

/// Appends the functions `fs` to `out` under their full names inside
/// `prefix`; an [`DuskError::ImportError`] when one has an empty name.
fn append_functions(out: &mut Vec<Function>, fs: Vec<Function>, prefix: &String, accessor: bool) -> (r:
    Result<(), DuskError>)
    ensures
        r is Ok <==> forall|i: int| 0 <= i < fs.len() ==> (#[trigger] fs@[i]).name@.len() > 0,
        r is Ok ==> appended(old(out)@, final(out)@, qualified_functions(prefix@, fs@, accessor)),
        r matches Err(e) ==> e is ImportError,
{
    let ghost start = out@;
    let ghost all = fs@;
    let ghost d = qualified_functions(prefix@, fs@, accessor);
    for f in it: fs.into_iter()
        invariant
            it.seq() == all,
            d == qualified_functions(prefix@, all, accessor),
            out@.len() == start.len() + it.index(),
            out@.subrange(0, start.len() as int) == start,
            forall|i: int| 0 <= i < it.index() ==> (#[trigger] all[i]).name@.len() > 0,
            entries_match(out@.subrange(start.len() as int, out@.len() as int), d.subrange(0, it.index() as int)),
    {
        let ghost k = it.index();
        let ghost declared = f;
        assert(declared == all[k]);
        if f.name.as_str().is_empty() {
            return Err(DuskError::ImportError("Functions can not have empty names".to_string()));
        }
        let ghost old_out = out@;
        let mut f = f;
        let name = if accessor {
            proof {
                reveal_strlit("@");
                reveal_strlit("::");
            }
            String::from_str("@").concat(prefix.as_str()).concat("::").concat(f.name.as_str())
        } else {
            proof {
                reveal_strlit("::");
            }
            prefix.clone().concat("::").concat(f.name.as_str())
        };
        f.name = name;
        assert(f.name@ =~= accessor_mark(accessor) + qualify(prefix@, declared.name@));
        assert(f.name@.len() > 0) by {
            assert(f.name@.len() >= declared.name@.len());
        }
        out.push(f);
        proof {
            assert(d[k] == (accessor_mark(accessor) + qualify(prefix@, declared.name@), declared));
            assert(entries_match(seq![f], seq![d[k]]));
            lemma_entries_match_append(
                old_out.subrange(start.len() as int, old_out.len() as int),
                d.subrange(0, k),
                seq![f],
                seq![d[k]],
            );
            assert(out@.subrange(start.len() as int, out@.len() as int) =~= old_out.subrange(
                start.len() as int,
                old_out.len() as int,
            ) + seq![f]);
            assert(d.subrange(0, k + 1) =~= d.subrange(0, k) + seq![d[k]]);
            assert(out@.subrange(0, start.len() as int) =~= old_out.subrange(0, start.len() as int));
        }
    }
    assert(d.subrange(0, all.len() as int) =~= d);
    Ok(())
}

/// The functions of the implemented trait functions `tfs` of a type whose
/// full name is `prefix`, each as `prefix::name`.
pub open spec fn trait_functions(prefix: Seq<char>, tfs: Seq<TraitFunction>) -> Seq<(Seq<char>, Function)> {
    tfs.map_values(|tf: TraitFunction| (qualify(prefix, tf.function.name@), tf.function))
}

/// The functions of the trait implementations `impls` of the type `prefix`.
pub open spec fn impl_functions(prefix: Seq<char>, impls: Seq<TraitImplementation>) -> Seq<
    (Seq<char>, Function),
>
    decreases impls.len(),
{
    if impls.len() == 0 {
        seq![]
    } else {
        impl_functions(prefix, impls.drop_last()) + trait_functions(prefix, impls.last().methods@)
    }
}

/// The functions of type `t` declared in module `module`: its methods,
/// its field accessors (`@`), and its trait implementations' functions,
/// all under `module::type`.
pub open spec fn type_functions(module: Seq<char>, t: Type) -> Seq<(Seq<char>, Function)> {
    let q = qualify(module, t.name@);
    qualified_functions(q, t.methods@, false) + qualified_functions(q, t.fields@, true) + impl_functions(
        q,
        t.trait_implementations@,
    )
}

/// The functions of the types `ts` of module `module`, in order.
pub open spec fn types_functions(module: Seq<char>, ts: Seq<Type>) -> Seq<(Seq<char>, Function)>
    decreases ts.len(),
{
    if ts.len() == 0 {
        seq![]
    } else {
        types_functions(module, ts.drop_last()) + type_functions(module, ts.last())
    }
}

/// The functions a module declares: its own, its constants (`@`), and
/// those of its types.
pub open spec fn module_functions(m: Module) -> Seq<(Seq<char>, Function)> {
    qualified_functions(m.name@, m.functions@, false) + qualified_functions(
        m.name@,
        m.constants@,
        true,
    ) + types_functions(m.name@, m.types@)
}

/// The functions of the modules `ms`, in order.
pub open spec fn modules_functions(ms: Seq<Module>) -> Seq<(Seq<char>, Function)>
    decreases ms.len(),
{
    if ms.len() == 0 {
        seq![]
    } else {
        modules_functions(ms.drop_last()) + module_functions(ms.last())
    }
}

/// Operator functions keep the names they declare.
pub open spec fn operator_functions(ops: Seq<Function>) -> Seq<(Seq<char>, Function)> {
    ops.map_values(|f: Function| (f.name@, f))
}

/// Every function of a plugin with operators `ops` and module catalog
/// `ms`, paired with its full name: the operators first, then module by
/// module its functions, constants, and its types' methods, field
/// accessors and trait functions.
pub open spec fn declared_functions(ops: Seq<Function>, ms: Seq<Module>) -> Seq<(Seq<char>, Function)> {
    operator_functions(ops) + modules_functions(ms)
}

/// The names that the function catalog requires to be non-empty are: those
/// of the functions themselves and of the types that hold functions.
pub open spec fn function_names_given(ops: Seq<Function>, ms: Seq<Module>) -> bool {
    &&& forall|i: int| 0 <= i < ops.len() ==> (#[trigger] ops[i]).name@.len() > 0
    &&& forall|i: int| 0 <= i < ms.len() ==> #[trigger] module_names_given(ms[i])
}

/// The functions and types of `m` have names.
pub open spec fn module_names_given(m: Module) -> bool {
    &&& forall|i: int| 0 <= i < m.functions.len() ==> (#[trigger] m.functions@[i]).name@.len() > 0
    &&& forall|i: int| 0 <= i < m.constants.len() ==> (#[trigger] m.constants@[i]).name@.len() > 0
    &&& forall|i: int| 0 <= i < m.types.len() ==> #[trigger] type_names_given(m.types@[i])
}

/// `t` and its functions have names.
pub open spec fn type_names_given(t: Type) -> bool {
    &&& t.name@.len() > 0
    &&& forall|i: int| 0 <= i < t.methods.len() ==> (#[trigger] t.methods@[i]).name@.len() > 0
    &&& forall|i: int| 0 <= i < t.fields.len() ==> (#[trigger] t.fields@[i]).name@.len() > 0
    &&& forall|i: int|
        0 <= i < t.trait_implementations.len() ==> #[trigger] impl_names_given(
            t.trait_implementations@[i],
        )
}

/// The functions of `imp` have names.
pub open spec fn impl_names_given(imp: TraitImplementation) -> bool {
    forall|i: int| 0 <= i < imp.methods.len() ==> (#[trigger] imp.methods@[i]).function.name@.len() > 0
}

/// Appends the functions of the implemented trait functions `tfs` to `out`
/// under their full names inside the type `prefix`; an
/// [`DuskError::ImportError`] when one has an empty name.
fn append_trait_functions(out: &mut Vec<Function>, tfs: Vec<TraitFunction>, prefix: &String) -> (r:
    Result<(), DuskError>)
    ensures
        r is Ok <==> forall|i: int| 0 <= i < tfs.len() ==> (#[trigger] tfs@[i]).function.name@.len() > 0,
        r is Ok ==> appended(old(out)@, final(out)@, trait_functions(prefix@, tfs@)),
        r matches Err(e) ==> e is ImportError,
{
    let ghost start = out@;
    let ghost all = tfs@;
    let ghost d = trait_functions(prefix@, tfs@);
    for tf in it: tfs.into_iter()
        invariant
            it.seq() == all,
            d == trait_functions(prefix@, all),
            out@.len() == start.len() + it.index(),
            out@.subrange(0, start.len() as int) == start,
            forall|i: int| 0 <= i < it.index() ==> (#[trigger] all[i]).function.name@.len() > 0,
            entries_match(out@.subrange(start.len() as int, out@.len() as int), d.subrange(0, it.index() as int)),
    {
        let ghost k = it.index();
        assert(tf == all[k]);
        let ghost declared = tf.function;
        if tf.function.name.as_str().is_empty() {
            return Err(DuskError::ImportError("Type methods can not have empty names".to_string()));
        }
        let ghost old_out = out@;
        let mut f = tf.function;
        proof {
            reveal_strlit("::");
        }
        let name = prefix.clone().concat("::").concat(f.name.as_str());
        f.name = name;
        assert(f.name@ =~= qualify(prefix@, declared.name@));
        assert(f.name@.len() > 0) by {
            assert(f.name@.len() >= declared.name@.len());
        }
        out.push(f);
        proof {
            assert(d[k] == (qualify(prefix@, declared.name@), declared));
            assert(entries_match(seq![f], seq![d[k]]));
            lemma_entries_match_append(
                old_out.subrange(start.len() as int, old_out.len() as int),
                d.subrange(0, k),
                seq![f],
                seq![d[k]],
            );
            assert(out@.subrange(start.len() as int, out@.len() as int) =~= old_out.subrange(
                start.len() as int,
                old_out.len() as int,
            ) + seq![f]);
            assert(d.subrange(0, k + 1) =~= d.subrange(0, k) + seq![d[k]]);
            assert(out@.subrange(0, start.len() as int) =~= old_out.subrange(0, start.len() as int));
        }
    }
    assert(d.subrange(0, all.len() as int) =~= d);
    Ok(())
}

/// Appends the functions of type `t` of module `module` to `out`, as
/// [`type_functions`] lists them; an [`DuskError::ImportError`] when the
/// type or one of them has an empty name.
fn append_type_functions(out: &mut Vec<Function>, t: Type, module: &String) -> (r: Result<(), DuskError>)
    ensures
        r is Ok <==> type_names_given(t),
        r is Ok ==> appended(old(out)@, final(out)@, type_functions(module@, t)),
        r matches Err(e) ==> e is ImportError,
{
    if t.name.as_str().is_empty() {
        return Err(DuskError::ImportError("Types can not have empty names".to_string()));
    }
    let ghost declared = t;
    let ghost start = out@;
    let Type { name, methods, fields, trait_implementations, .. } = t;
    proof {
        reveal_strlit("::");
    }
    let q = module.clone().concat("::").concat(name.as_str());
    assert(q@ =~= qualify(module@, declared.name@));
    append_functions(out, methods, &q, false)?;
    let ghost after_methods = out@;
    append_functions(out, fields, &q, true)?;
    let ghost after_fields = out@;
    proof {
        lemma_appended_trans(start, after_methods, after_fields,
            qualified_functions(q@, declared.methods@, false),
            qualified_functions(q@, declared.fields@, true));
        lemma_appended_nothing(after_fields);
    }
    let ghost all = trait_implementations@;
    for imp in it: trait_implementations.into_iter()
        invariant
            it.seq() == all,
            all == declared.trait_implementations@,
            declared == t,
            q@ == qualify(module@, declared.name@),
            appended(after_fields, out@, impl_functions(q@, all.subrange(0, it.index() as int))),
            forall|i: int| 0 <= i < it.index() ==> #[trigger] impl_names_given(all[i]),
    {
        let ghost k = it.index();
        assert(imp == all[k]);
        let ghost before = out@;
        let ghost methods = imp.methods;
        let res = append_trait_functions(out, imp.methods, &q);
        if let Err(e) = res {
            assert(!impl_names_given(declared.trait_implementations@[k])) by {
                assert(declared.trait_implementations@[k].methods == methods);
            }
            return Err(e);
        }
        proof {
            lemma_appended_trans(after_fields, before, out@,
                impl_functions(q@, all.subrange(0, k)),
                trait_functions(q@, all[k].methods@));
            assert(all.subrange(0, k + 1).drop_last() =~= all.subrange(0, k));
            assert(impl_functions(q@, all.subrange(0, k + 1)) == impl_functions(q@, all.subrange(0, k))
                + trait_functions(q@, all[k].methods@));
        }
    }
    proof {
        assert(all.subrange(0, all.len() as int) =~= all);
        lemma_appended_trans(start, after_fields, out@,
            qualified_functions(q@, declared.methods@, false) + qualified_functions(q@, declared.fields@, true),
            impl_functions(q@, all));
        assert(type_functions(module@, declared) == qualified_functions(q@, declared.methods@, false)
            + qualified_functions(q@, declared.fields@, true) + impl_functions(q@, all));
    }
    Ok(())
}

/// Appends the functions that module `m` declares to `out`, as
/// [`module_functions`] lists them; an [`DuskError::ImportError`] when one
/// of them or one of its types has an empty name.
fn append_module_functions(out: &mut Vec<Function>, m: Module) -> (r: Result<(), DuskError>)
    ensures
        r is Ok <==> module_names_given(m),
        r is Ok ==> appended(old(out)@, final(out)@, module_functions(m)),
        r matches Err(e) ==> e is ImportError,
{
    let ghost declared = m;
    let ghost start = out@;
    let Module { name, types, functions, constants, .. } = m;
    append_functions(out, functions, &name, false)?;
    let ghost after_functions = out@;
    append_functions(out, constants, &name, true)?;
    let ghost after_constants = out@;
    proof {
        lemma_appended_trans(start, after_functions, after_constants,
            qualified_functions(name@, declared.functions@, false),
            qualified_functions(name@, declared.constants@, true));
        lemma_appended_nothing(after_constants);
    }
    let ghost all = types@;
    for t in it: types.into_iter()
        invariant
            it.seq() == all,
            all == declared.types@,
            declared == m,
            name@ == declared.name@,
            appended(after_constants, out@, types_functions(name@, all.subrange(0, it.index() as int))),
            forall|i: int| 0 <= i < it.index() ==> #[trigger] type_names_given(all[i]),
    {
        let ghost k = it.index();
        assert(t == all[k]);
        let ghost before = out@;
        let res = append_type_functions(out, t, &name);
        if let Err(e) = res {
            assert(!type_names_given(declared.types@[k]));
            return Err(e);
        }
        proof {
            lemma_appended_trans(after_constants, before, out@,
                types_functions(name@, all.subrange(0, k)),
                type_functions(name@, all[k]));
            assert(all.subrange(0, k + 1).drop_last() =~= all.subrange(0, k));
            assert(types_functions(name@, all.subrange(0, k + 1)) == types_functions(name@, all.subrange(0, k))
                + type_functions(name@, all[k]));
        }
    }
    proof {
        assert(all.subrange(0, all.len() as int) =~= all);
        lemma_appended_trans(start, after_constants, out@,
            qualified_functions(name@, declared.functions@, false) + qualified_functions(name@, declared.constants@, true),
            types_functions(name@, all));
    }
    Ok(())
}

/// The function catalog of a plugin with operator functions `operators`
/// and module catalog `modules`: every function of [`declared_functions`]
/// under its full name and at the slot it declares; an
/// [`DuskError::ImportError`] when a function or a type holding functions
/// has an empty name, or two functions declare the same slot.
pub fn function_list(operators: Vec<Function>, modules: Vec<Module>) -> (r: Result<Vec<Function>, DuskError>)
    ensures
        r is Ok <==> function_names_given(operators@, modules@) && declared_ids_distinct(
            declared_functions(operators@, modules@),
        ),
        r matches Ok(c) ==> is_catalog_of_declared(c@, declared_functions(operators@, modules@)),
        r matches Err(e) ==> e is ImportError,
{
    let ghost ops = operators@;
    let ghost ms = modules@;
    let mut out: Vec<Function> = Vec::new();
    let ghost d_ops = operator_functions(ops);
    for f in it: operators.into_iter()
        invariant
            it.seq() == ops,
            d_ops == operator_functions(ops),
            out@.len() == it.index(),
            forall|i: int| 0 <= i < it.index() ==> (#[trigger] ops[i]).name@.len() > 0,
            entries_match(out@, d_ops.subrange(0, it.index() as int)),
    {
        let ghost k = it.index();
        assert(f == ops[k]);
        if f.name.as_str().is_empty() {
            return Err(DuskError::ImportError("Operators can not have empty names".to_string()));
        }
        let ghost old_out = out@;
        out.push(f);
        proof {
            assert(entries_match(seq![f], seq![d_ops[k]]));
            lemma_entries_match_append(old_out, d_ops.subrange(0, k), seq![f], seq![d_ops[k]]);
            assert(out@ =~= old_out + seq![f]);
            assert(d_ops.subrange(0, k + 1) =~= d_ops.subrange(0, k) + seq![d_ops[k]]);
        }
    }
    let ghost after_ops = out@;
    proof {
        assert(d_ops.subrange(0, ops.len() as int) =~= d_ops);
        lemma_appended_nothing(after_ops);
    }
    for m in it: modules.into_iter()
        invariant
            it.seq() == ms,
            entries_match(after_ops, d_ops),
            appended(after_ops, out@, modules_functions(ms.subrange(0, it.index() as int))),
            forall|i: int| 0 <= i < it.index() ==> #[trigger] module_names_given(ms[i]),
    {
        let ghost k = it.index();
        assert(m == ms[k]);
        let ghost before = out@;
        append_module_functions(&mut out, m)?;
        proof {
            lemma_appended_trans(after_ops, before, out@,
                modules_functions(ms.subrange(0, k)),
                module_functions(ms[k]));
            assert(ms.subrange(0, k + 1).drop_last() =~= ms.subrange(0, k));
            assert(modules_functions(ms.subrange(0, k + 1)) == modules_functions(ms.subrange(0, k))
                + module_functions(ms[k]));
        }
    }
    proof {
        assert(ms.subrange(0, ms.len() as int) =~= ms);
        lemma_appended_nothing(Seq::<Function>::empty());
        assert(after_ops.subrange(0, 0) =~= Seq::<Function>::empty());
        assert(after_ops.subrange(0, after_ops.len() as int) =~= after_ops);
        assert(appended(Seq::<Function>::empty(), after_ops, d_ops));
        lemma_appended_trans(Seq::<Function>::empty(), after_ops, out@, d_ops, modules_functions(ms));
        assert(out@.subrange(0, out@.len() as int) =~= out@);
    }
    place_declared(out, Ghost(declared_functions(ops, ms)))
}

/// The types of module `m`, each as `module::name`.
pub open spec fn module_types(m: Module) -> Seq<(Seq<char>, Type)> {
    m.types@.map_values(|x: Type| (qualify(m.name@, x.name@), x))
}

/// The types of the modules `ms`, in order.
pub open spec fn declared_types(ms: Seq<Module>) -> Seq<(Seq<char>, Type)>
    decreases ms.len(),
{
    if ms.len() == 0 {
        seq![]
    } else {
        declared_types(ms.drop_last()) + module_types(ms.last())
    }
}

/// Every one of the types of the modules `ms` has a name.
pub open spec fn types_named(ms: Seq<Module>) -> bool {
    forall|i: int, j: int|
        0 <= i < ms.len() && 0 <= j < ms[i].types.len() ==> (#[trigger] ms[i].types@[j]).name@.len() > 0
}

/// Appends the types of module `m` to `out` under their full names; an
/// [`DuskError::ImportError`] when one has an empty name.
fn append_module_types(out: &mut Vec<Type>, m: Module) -> (r: Result<(), DuskError>)
    ensures
        r is Ok <==> forall|j: int| 0 <= j < m.types.len() ==> (#[trigger] m.types@[j]).name@.len() > 0,
        r is Ok ==> appended(old(out)@, final(out)@, module_types(m)),
        r matches Err(e) ==> e is ImportError,
{
    let ghost start = out@;
    let ghost declared = m;
    let ghost d = module_types(m);
    let ghost all = m.types@;
    let Module { name, types, .. } = m;
    for x in it: types.into_iter()
        invariant
            it.seq() == all,
            all == declared.types@,
            name@ == declared.name@,
            d == module_types(declared),
            declared == m,
            out@.len() == start.len() + it.index(),
            out@.subrange(0, start.len() as int) == start,
            forall|i: int| 0 <= i < it.index() ==> (#[trigger] all[i]).name@.len() > 0,
            entries_match(out@.subrange(start.len() as int, out@.len() as int), d.subrange(0, it.index() as int)),
    {
        let ghost k = it.index();
        assert(x == all[k]);
        let ghost as_declared = x;
        if x.name.as_str().is_empty() {
            return Err(DuskError::ImportError("Types can not have empty names".to_string()));
        }
        let ghost old_out = out@;
        let mut x = x;
        proof {
            reveal_strlit("::");
        }
        let full = name.clone().concat("::").concat(x.name.as_str());
        x.name = full;
        assert(x.name@ =~= qualify(name@, as_declared.name@));
        assert(x.name@.len() > 0) by {
            assert(x.name@.len() >= as_declared.name@.len());
        }
        out.push(x);
        proof {
            assert(d[k] == (qualify(name@, as_declared.name@), as_declared));
            assert(entries_match(seq![x], seq![d[k]]));
            lemma_entries_match_append(
                old_out.subrange(start.len() as int, old_out.len() as int),
                d.subrange(0, k),
                seq![x],
                seq![d[k]],
            );
            assert(out@.subrange(start.len() as int, out@.len() as int) =~= old_out.subrange(
                start.len() as int,
                old_out.len() as int,
            ) + seq![x]);
            assert(d.subrange(0, k + 1) =~= d.subrange(0, k) + seq![d[k]]);
            assert(out@.subrange(0, start.len() as int) =~= old_out.subrange(0, start.len() as int));
        }
    }
    assert(d.subrange(0, all.len() as int) =~= d);
    Ok(())
}

/// The types catalog of a plugin with module catalog `modules`: each of
/// its types as `module::name` at the slot it declares; an
/// [`DuskError::ImportError`] when one has an empty name or two declare the
/// same slot.
pub fn type_list(modules: Vec<Module>) -> (r: Result<Vec<Type>, DuskError>)
    ensures
        r is Ok <==> types_named(modules@) && declared_ids_distinct(declared_types(modules@)),
        r matches Ok(c) ==> is_catalog_of_declared(c@, declared_types(modules@)),
        r matches Err(e) ==> e is ImportError,
{
    let ghost ms = modules@;
    let mut out: Vec<Type> = Vec::new();
    proof {
        lemma_appended_nothing(out@);
    }
    for m in it: modules.into_iter()
        invariant
            it.seq() == ms,
            appended(Seq::<Type>::empty(), out@, declared_types(ms.subrange(0, it.index() as int))),
            forall|i: int, j: int|
                0 <= i < it.index() && 0 <= j < ms[i].types.len() ==> (#[trigger] ms[i].types@[j]).name@.len() > 0,
    {
        let ghost k = it.index();
        assert(m == ms[k]);
        let ghost before = out@;
        let res = append_module_types(&mut out, m);
        if let Err(e) = res {
            assert(!types_named(ms)) by {
                let j = choose|j: int| 0 <= j < ms[k].types.len() && !((ms[k].types@[j]).name@.len() > 0);
                assert(ms[k].types@[j].name@.len() == 0);
            }
            return Err(e);
        }
        proof {
            lemma_appended_trans(Seq::<Type>::empty(), before, out@,
                declared_types(ms.subrange(0, k)),
                module_types(ms[k]));
            assert(ms.subrange(0, k + 1).drop_last() =~= ms.subrange(0, k));
            assert(declared_types(ms.subrange(0, k + 1)) == declared_types(ms.subrange(0, k))
                + module_types(ms[k]));
        }
    }
    proof {
        assert(ms.subrange(0, ms.len() as int) =~= ms);
        assert(out@.subrange(0, out@.len() as int) =~= out@);
    }
    place_declared(out, Ghost(declared_types(ms)))
}

/// The trait definitions of module `m`, each as `module::name`.
pub open spec fn module_traits(m: Module) -> Seq<(Seq<char>, TraitDefinition)> {
    m.trait_definitions@.map_values(|x: TraitDefinition| (qualify(m.name@, x.name@), x))
}

/// The trait definitions of the modules `ms`, in order.
pub open spec fn declared_traits(ms: Seq<Module>) -> Seq<(Seq<char>, TraitDefinition)>
    decreases ms.len(),
{
    if ms.len() == 0 {
        seq![]
    } else {
        declared_traits(ms.drop_last()) + module_traits(ms.last())
    }
}

/// Every one of the trait definitions of the modules `ms` has a name.
pub open spec fn traits_named(ms: Seq<Module>) -> bool {
    forall|i: int, j: int|
        0 <= i < ms.len() && 0 <= j < ms[i].trait_definitions.len() ==> (#[trigger] ms[i].trait_definitions@[j]).name@.len() > 0
}

/// Appends the trait definitions of module `m` to `out` under their full names; an
/// [`DuskError::ImportError`] when one has an empty name.
fn append_module_traits(out: &mut Vec<TraitDefinition>, m: Module) -> (r: Result<(), DuskError>)
    ensures
        r is Ok <==> forall|j: int| 0 <= j < m.trait_definitions.len() ==> (#[trigger] m.trait_definitions@[j]).name@.len() > 0,
        r is Ok ==> appended(old(out)@, final(out)@, module_traits(m)),
        r matches Err(e) ==> e is ImportError,
{
    let ghost start = out@;
    let ghost declared = m;
    let ghost d = module_traits(m);
    let ghost all = m.trait_definitions@;
    let Module { name, trait_definitions, .. } = m;
    for x in it: trait_definitions.into_iter()
        invariant
            it.seq() == all,
            all == declared.trait_definitions@,
            name@ == declared.name@,
            d == module_traits(declared),
            declared == m,
            out@.len() == start.len() + it.index(),
            out@.subrange(0, start.len() as int) == start,
            forall|i: int| 0 <= i < it.index() ==> (#[trigger] all[i]).name@.len() > 0,
            entries_match(out@.subrange(start.len() as int, out@.len() as int), d.subrange(0, it.index() as int)),
    {
        let ghost k = it.index();
        assert(x == all[k]);
        let ghost as_declared = x;
        if x.name.as_str().is_empty() {
            return Err(DuskError::ImportError("Traits can not have empty names".to_string()));
        }
        let ghost old_out = out@;
        let mut x = x;
        proof {
            reveal_strlit("::");
        }
        let full = name.clone().concat("::").concat(x.name.as_str());
        x.name = full;
        assert(x.name@ =~= qualify(name@, as_declared.name@));
        assert(x.name@.len() > 0) by {
            assert(x.name@.len() >= as_declared.name@.len());
        }
        out.push(x);
        proof {
            assert(d[k] == (qualify(name@, as_declared.name@), as_declared));
            assert(entries_match(seq![x], seq![d[k]]));
            lemma_entries_match_append(
                old_out.subrange(start.len() as int, old_out.len() as int),
                d.subrange(0, k),
                seq![x],
                seq![d[k]],
            );
            assert(out@.subrange(start.len() as int, out@.len() as int) =~= old_out.subrange(
                start.len() as int,
                old_out.len() as int,
            ) + seq![x]);
            assert(d.subrange(0, k + 1) =~= d.subrange(0, k) + seq![d[k]]);
            assert(out@.subrange(0, start.len() as int) =~= old_out.subrange(0, start.len() as int));
        }
    }
    assert(d.subrange(0, all.len() as int) =~= d);
    Ok(())
}

/// The trait definitions catalog of a plugin with module catalog `modules`: each of
/// its trait definitions as `module::name` at the slot it declares; an
/// [`DuskError::ImportError`] when one has an empty name or two declare the
/// same slot.
pub fn trait_definition_list(modules: Vec<Module>) -> (r: Result<Vec<TraitDefinition>, DuskError>)
    ensures
        r is Ok <==> traits_named(modules@) && declared_ids_distinct(declared_traits(modules@)),
        r matches Ok(c) ==> is_catalog_of_declared(c@, declared_traits(modules@)),
        r matches Err(e) ==> e is ImportError,
{
    let ghost ms = modules@;
    let mut out: Vec<TraitDefinition> = Vec::new();
    proof {
        lemma_appended_nothing(out@);
    }
    for m in it: modules.into_iter()
        invariant
            it.seq() == ms,
            appended(Seq::<TraitDefinition>::empty(), out@, declared_traits(ms.subrange(0, it.index() as int))),
            forall|i: int, j: int|
                0 <= i < it.index() && 0 <= j < ms[i].trait_definitions.len() ==> (#[trigger] ms[i].trait_definitions@[j]).name@.len() > 0,
    {
        let ghost k = it.index();
        assert(m == ms[k]);
        let ghost before = out@;
        let res = append_module_traits(&mut out, m);
        if let Err(e) = res {
            assert(!traits_named(ms)) by {
                let j = choose|j: int| 0 <= j < ms[k].trait_definitions.len() && !((ms[k].trait_definitions@[j]).name@.len() > 0);
                assert(ms[k].trait_definitions@[j].name@.len() == 0);
            }
            return Err(e);
        }
        proof {
            lemma_appended_trans(Seq::<TraitDefinition>::empty(), before, out@,
                declared_traits(ms.subrange(0, k)),
                module_traits(ms[k]));
            assert(ms.subrange(0, k + 1).drop_last() =~= ms.subrange(0, k));
            assert(declared_traits(ms.subrange(0, k + 1)) == declared_traits(ms.subrange(0, k))
                + module_traits(ms[k]));
        }
    }
    proof {
        assert(ms.subrange(0, ms.len() as int) =~= ms);
        assert(out@.subrange(0, out@.len() as int) =~= out@);
    }
    place_declared(out, Ghost(declared_traits(ms)))
}

} // verus!
