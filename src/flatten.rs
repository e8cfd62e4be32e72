//! Flattening of the module trees a plugin declares into the module
//! catalog, with an explicit stack rather than recursion.

use vstd::prelude::*;
use vstd::string::StringExecFns;
use crate::catalog::{
    all_named, declared_ids_distinct, is_catalog_of_declared, place_declared, CatalogEntry,
};
use crate::error::DuskError;
use crate::modules::Module;

verus! {

/// `prefix::name`, the name of an entity declared inside `prefix`.
pub open spec fn qualify(prefix: Seq<char>, name: Seq<char>) -> Seq<char> {
    prefix + seq![':', ':'] + name
}

/// The full name of a module named `name` under `parent`; a top module
/// keeps its own name.
pub open spec fn full_module_name(parent: Option<Seq<char>>, name: Seq<char>) -> Seq<char> {
    match parent {
        Some(p) => qualify(p, name),
        None => name,
    }
}

/// The modules of the tree rooted at `m` under `parent`, each with its full
/// name, the root first and then the trees of its submodules in order.
pub open spec fn module_tree(parent: Option<Seq<char>>, m: Module) -> Seq<(Seq<char>, Module)>
    decreases m,
{
    let full = full_module_name(parent, m.name@);
    seq![(full, m)] + module_forest(Some(full), m.submodules@)
}

/// The modules of the trees rooted at `ms`, in order.
pub open spec fn module_forest(parent: Option<Seq<char>>, ms: Seq<Module>) -> Seq<(Seq<char>, Module)>
    decreases ms,
{
    if ms.len() == 0 {
        seq![]
    } else {
        module_forest(parent, ms.drop_last()) + module_tree(parent, ms.last())
    }
}

/// `out` is the declared module `m` as its catalog holds it: under its full
/// name, with its own declarations and without its submodules, which the
/// catalog holds in slots of their own.
pub open spec fn module_entry(out: Module, full: Seq<char>, m: Module) -> bool {
    &&& out.name@ == full
    &&& out.md_id == m.md_id
    &&& out.types == m.types
    &&& out.functions == m.functions
    &&& out.submodules@.len() == 0
    &&& out.trait_definitions == m.trait_definitions
    &&& out.constants == m.constants
}

/// A module still to visit, with the full name of its parent.
struct Frame {
    parent: Option<String>,
    module: Module,
}

/// The view of an optional name.
pub open spec fn name_view(n: Option<String>) -> Option<Seq<char>> {
    match n {
        Some(p) => Some(p@),
        None => None,
    }
}

spec fn frame_parent(f: Frame) -> Option<Seq<char>> {
    name_view(f.parent)
}

/// The modules that the frames of `stack` still hold, the top frame's first.
spec fn pending_modules(stack: Seq<Frame>) -> Seq<(Seq<char>, Module)>
    decreases stack.len(),
{
    if stack.len() == 0 {
        seq![]
    } else {
        module_tree(frame_parent(stack.last()), stack.last().module) + pending_modules(
            stack.drop_last(),
        )
    }
}

/// Pushes one frame per module of `children`, the first module on top.
fn push_frames(stack: &mut Vec<Frame>, children: Vec<Module>, parent: Option<String>)
    ensures
        pending_modules(final(stack)@) == module_forest(name_view(parent), children@)
            + pending_modules(old(stack)@),
{
    let ghost p = name_view(parent);
    let ghost all = children@;
    let ghost base = pending_modules(stack@);
    let mut children = children;
    while children.len() > 0
        invariant
            children.len() <= all.len(),
            children@ == all.subrange(0, children.len() as int),
            module_forest(p, children@) + pending_modules(stack@) == module_forest(p, all) + base,
            p == name_view(parent),
        decreases children.len(),
    {
        let ghost before = children@;
        let c = children.pop().unwrap();
        assert(before.drop_last() =~= children@);
        assert(children@ =~= all.subrange(0, children.len() as int));
        let frame_parent_name = match &parent {
            Some(q) => Some(q.clone()),
            None => None,
        };
        let ghost old_stack = stack@;
        stack.push(Frame { parent: frame_parent_name, module: c });
        assert(stack@.drop_last() =~= old_stack);
        assert(module_forest(p, before) == module_forest(p, children@) + module_tree(p, c));
        assert(pending_modules(stack@) == module_tree(p, c) + pending_modules(old_stack));
        assert(module_forest(p, children@) + pending_modules(stack@) =~= module_forest(p, before)
            + pending_modules(old_stack));
    }
    assert(module_forest(p, children@) =~= seq![]);
    assert(seq![] + pending_modules(stack@) =~= pending_modules(stack@));
}

/// Flattens the module trees `top` into a list of every module, each under
/// its full name and without its submodules, in the order of
/// [`module_forest`]; an [`DuskError::ImportError`] at the first module
/// with an empty name.
fn collect_modules(top: Vec<Module>) -> (r: Result<Vec<Module>, DuskError>)
    ensures
        r is Ok <==> (forall|i: int|
            0 <= i < module_forest(None, top@).len() ==> (#[trigger] module_forest(None, top@)[i]).1.name@.len() > 0),
        r matches Ok(out) ==> out.len() == module_forest(None, top@).len() && forall|i: int|
            0 <= i < out.len() ==> module_entry(
                #[trigger] out@[i],
                module_forest(None, top@)[i].0,
                module_forest(None, top@)[i].1,
            ) && out@[i].name@.len() > 0,
        r matches Err(e) ==> e is ImportError,
{
    let ghost all = module_forest(None, top@);
    let mut stack: Vec<Frame> = Vec::new();
    push_frames(&mut stack, top, None);
    assert(pending_modules(Seq::<Frame>::empty()) =~= seq![]);
    assert(all + seq![] =~= all);
    let mut out: Vec<Module> = Vec::new();
    let ghost mut done: Seq<(Seq<char>, Module)> = seq![];
    while stack.len() > 0
        invariant
            done + pending_modules(stack@) == all,
            out.len() == done.len(),
            forall|i: int| 0 <= i < done.len() ==> (#[trigger] done[i]).1.name@.len() > 0,
            forall|i: int| 0 <= i < out.len() ==> module_entry(#[trigger] out@[i], done[i].0, done[i].1),
            forall|i: int| 0 <= i < out.len() ==> (#[trigger] out@[i]).name@.len() > 0,
            all == module_forest(None, top@),
        decreases pending_modules(stack@).len(),
    {
        let ghost before = stack@;
        let frame = stack.pop().unwrap();
        assert(before.drop_last() =~= stack@);
        let Frame { parent, module } = frame;
        let ghost declared = module;
        let ghost full_spec = full_module_name(name_view(parent), module.name@);
        assert(pending_modules(before) == seq![(full_spec, declared)] + module_forest(Some(full_spec), declared.submodules@) + pending_modules(stack@));
        assert(all[done.len() as int] == (full_spec, declared));
        if module.name.as_str().is_empty() {
            return Err(DuskError::ImportError("Modules can not have empty names".to_string()));
        }
        let Module { name, md_id, types, functions, submodules, trait_definitions, constants } =
            module;
        let full = match parent {
            Some(q) => {
                proof {
                    reveal_strlit("::");
                }
                q.concat("::").concat(name.as_str())
            },
            None => name,
        };
        assert(full@ =~= full_spec);
        assert(full@.len() > 0) by {
            assert(full@.len() >= name@.len());
        }
        let entry = Module {
            name: full.clone(),
            md_id,
            types,
            functions,
            submodules: Vec::new(),
            trait_definitions,
            constants,
        };
        out.push(entry);
        proof {
            done = done.push((full_spec, declared));
        }
        push_frames(&mut stack, submodules, Some(full));
        assert(done + pending_modules(stack@) =~= all);
    }
    assert(done =~= all);
    Ok(out)
}

/// The module catalog of the declared module trees `top`: every module,
/// nested ones included, under its full name (`parent::child`) and at the
/// slot it declares, without its submodules (which have slots of their
/// own); an [`DuskError::ImportError`] when a module has an empty name or
/// two declare the same slot.
pub fn module_list(top: Vec<Module>) -> (r: Result<Vec<Module>, DuskError>)
    ensures
        r is Ok <==> all_named(module_forest(None, top@)) && declared_ids_distinct(
            module_forest(None, top@),
        ),
        r matches Ok(c) ==> is_catalog_of_declared(c@, module_forest(None, top@)),
        r matches Err(e) ==> e is ImportError,
{
    let ghost d = module_forest(None, top@);
    let out = collect_modules(top)?;
    assert(all_named(d));
    assert forall|i: int| 0 <= i < out@.len() implies #[trigger] out@[i].declared_as(d[i].0, d[i].1)
        && out@[i].entry_id() == d[i].1.entry_id() && out@[i].entry_name().len() > 0 by {
        assert(module_entry(out@[i], d[i].0, d[i].1));
        assert(d[i].1.name@.len() > 0);
    }
    place_declared(out, Ghost(d))
}

} // verus!
