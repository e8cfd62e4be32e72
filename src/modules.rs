//! Modules, the nodes of the tree a plugin declares.

use vstd::prelude::*;
use crate::copies::{all_copies, copy_all, DeepCopy};
use crate::functions::Function;
use crate::traits::TraitDefinition;
use crate::types::Type;

verus! {

/// A module: its name, its catalog id, and the types, functions,
/// submodules, trait definitions and constants declared in it.
pub struct Module {
    /// Name of the module
    pub name: String,
    /// Slot of the module in the module catalog
    pub md_id: usize,
    /// Types declared in the module
    pub types: Vec<Type>,
    /// Functions declared in the module (not field accessors or constants)
    pub functions: Vec<Function>,
    /// Nested modules
    pub submodules: Vec<Module>,
    /// Traits defined in the module
    pub trait_definitions: Vec<TraitDefinition>,
    /// Functions that give the module's constants
    pub constants: Vec<Function>,
}

/// `c` is a copy of the module `m`: its own declarations copied, and each
/// submodule a copy in turn.
pub open spec fn module_copy(c: Module, m: Module) -> bool
    decreases m,
{
    &&& c.name == m.name
    &&& c.md_id == m.md_id
    &&& all_copies(c.types@, m.types@)
    &&& all_copies(c.functions@, m.functions@)
    &&& modules_copy(c.submodules@, m.submodules@)
    &&& all_copies(c.trait_definitions@, m.trait_definitions@)
    &&& all_copies(c.constants@, m.constants@)
}

/// `c` holds, in order, copies of the modules of `m`.
pub open spec fn modules_copy(c: Seq<Module>, m: Seq<Module>) -> bool
    decreases m,
{
    c.len() == m.len() && (m.len() > 0 ==> modules_copy(c.drop_last(), m.drop_last()) && module_copy(
        c.last(),
        m.last(),
    ))
}

/// Copies a module and, one by one, its submodules.
fn clone_module(m: &Module) -> (c: Module)
    ensures
        module_copy(c, *m),
    decreases m,
{
    Module {
        name: m.name.clone(),
        md_id: m.md_id,
        types: copy_all(&m.types),
        functions: copy_all(&m.functions),
        submodules: clone_modules(&m.submodules),
        trait_definitions: copy_all(&m.trait_definitions),
        constants: copy_all(&m.constants),
    }
}

/// Copies a list of modules, in order.
fn clone_modules(v: &Vec<Module>) -> (c: Vec<Module>)
    ensures
        modules_copy(c@, v@),
    decreases v,
{
    broadcast use vstd::std_specs::vec::axiom_vec_index_decreases;

    let mut c: Vec<Module> = Vec::new();
    let mut i: usize = 0;
    while i < v.len()
        invariant
            i <= v.len(),
            modules_copy(c@, v@.subrange(0, i as int)),
        decreases v.len() - i,
    {
        let ghost before = c@;
        c.push(clone_module(&v[i]));
        assert(c@.drop_last() =~= before);
        assert(v@.subrange(0, i + 1).drop_last() =~= v@.subrange(0, i as int));
        i += 1;
    }
    assert(v@.subrange(0, v.len() as int) =~= v@);
    c
}

impl DeepCopy for Module {
    open spec fn is_copy_of(&self, source: Module) -> bool {
        module_copy(*self, source)
    }

    fn deep_copy(&self) -> (r: Module) {
        clone_module(self)
    }
}

impl Clone for Module {
    fn clone(&self) -> (r: Module)
        ensures
            r.is_copy_of(*self),
    {
        clone_module(self)
    }
}

impl Default for Module {
    fn default() -> (r: Module)
        ensures
            r.name@.len() == 0,
            r.md_id == 0,
            r.types@.len() == 0,
            r.functions@.len() == 0,
            r.submodules@.len() == 0,
            r.trait_definitions@.len() == 0,
            r.constants@.len() == 0,
    {
        Module {
            name: String::new(),
            md_id: 0,
            types: Vec::new(),
            functions: Vec::new(),
            submodules: Vec::new(),
            trait_definitions: Vec::new(),
            constants: Vec::new(),
        }
    }
}

} // verus!
