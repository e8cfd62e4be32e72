//! The capability set a plugin implements, and the catalog queries every
//! plugin answers from the module tree it declares.

use vstd::prelude::*;
use std::any::TypeId;
use std::sync::Arc;
use crate::callables::DuskCallable;
use crate::catalog::{
    callables_of, copies_named, copy_by_id, declared_ids_distinct, declares_native_id, entry_by_id,
    has_native_id, is_catalog_of_declared, lists_slots_named, type_by_native_id, CatalogEntry,
};
use crate::flatten::{module_forest, module_list};
use crate::harvest::{
    declared_functions, declared_traits, declared_types, function_list, trait_definition_list,
    type_list,
};
use crate::error::DuskError;
use crate::functions::Function;
use crate::interplugin::{InterplugRequest, Limitation};
use crate::modules::Module;
use crate::traits::TraitDefinition;
use crate::types::Type;

verus! {

/// `c` is the module catalog of some declared module trees.
pub open spec fn is_module_catalog(c: Seq<Module>) -> bool {
    exists|top: Seq<Module>|
        #[trigger] is_catalog_of_declared(c, module_forest(None, top)) && declared_ids_distinct(
            module_forest(None, top),
        )
}

/// `c` is the function catalog of some operators and module catalog.
pub open spec fn is_function_catalog(c: Seq<Function>) -> bool {
    exists|ops: Seq<Function>, ms: Seq<Module>|
        is_module_catalog(ms) && #[trigger] is_catalog_of_declared(c, declared_functions(ops, ms))
            && declared_ids_distinct(declared_functions(ops, ms))
}

/// `c` is the type catalog of some module catalog.
pub open spec fn is_type_catalog(c: Seq<Type>) -> bool {
    exists|ms: Seq<Module>|
        is_module_catalog(ms) && #[trigger] is_catalog_of_declared(c, declared_types(ms))
            && declared_ids_distinct(declared_types(ms))
}

/// `c` is the trait definition catalog of some module catalog.
pub open spec fn is_trait_catalog(c: Seq<TraitDefinition>) -> bool {
    exists|ms: Seq<Module>|
        is_module_catalog(ms) && #[trigger] is_catalog_of_declared(c, declared_traits(ms))
            && declared_ids_distinct(declared_traits(ms))
}

/// Slot `id` of the catalog `c` holds a declared entity, not a placeholder.
pub open spec fn holds_entry<E: CatalogEntry>(c: Seq<E>, id: int) -> bool {
    0 <= id < c.len() && c[id].entry_name().len() > 0
}

/// `x` is a copy of the declared entity at slot `id` of the catalog `c`.
pub open spec fn copy_of_slot<E: CatalogEntry>(c: Seq<E>, id: int, x: E) -> bool {
    holds_entry(c, id) && x.entry_name() == c[id].entry_name() && x.entry_id() == c[id].entry_id()
        && x.same_content(c[id])
}

/// `v` holds, in slot order, copies of exactly the entities of the catalog
/// `c` named `name`.
pub open spec fn copies_of_named<E: CatalogEntry>(c: Seq<E>, name: Seq<char>, v: Seq<E>) -> bool {
    exists|ids: Seq<usize>|
        lists_slots_named(ids, c, name, c.len() as int) && #[trigger] ids.len() == v.len() && forall|j: int|
            0 <= j < v.len() ==> (#[trigger] v[j]).entry_name() == c[ids[j] as int].entry_name()
                && v[j].entry_id() == c[ids[j] as int].entry_id() && v[j].same_content(c[ids[j] as int])
}

/// `l` holds, slot by slot, the callables of the function catalog `c`.
pub open spec fn callables_match(l: Seq<Arc<Box<dyn DuskCallable>>>, c: Seq<Function>) -> bool {
    l.len() == c.len() && forall|i: int| 0 <= i < l.len() ==> #[trigger] l[i] == c[i].callable
}

/// `v` holds copies of exactly the entities named `name` of some function
/// catalog, in slot order.
pub open spec fn named_function_copies(name: Seq<char>, v: Seq<Function>) -> bool {
    exists|c: Seq<Function>| is_function_catalog(c) && #[trigger] copies_of_named(c, name, v)
}

/// `v` holds copies of exactly the entities named `name` of some type
/// catalog, in slot order.
pub open spec fn named_type_copies(name: Seq<char>, v: Seq<Type>) -> bool {
    exists|c: Seq<Type>| is_type_catalog(c) && #[trigger] copies_of_named(c, name, v)
}

/// `v` holds copies of exactly the entities named `name` of some trait definition
/// catalog, in slot order.
pub open spec fn named_trait_definition_copies(name: Seq<char>, v: Seq<TraitDefinition>) -> bool {
    exists|c: Seq<TraitDefinition>| is_trait_catalog(c) && #[trigger] copies_of_named(c, name, v)
}

/// `v` holds copies of exactly the entities named `name` of some module
/// catalog, in slot order.
pub open spec fn named_module_copies(name: Seq<char>, v: Seq<Module>) -> bool {
    exists|c: Seq<Module>| is_module_catalog(c) && #[trigger] copies_of_named(c, name, v)
}

/// `l` holds, slot by slot, the callables of some function catalog.
pub open spec fn catalog_callables(l: Seq<Arc<Box<dyn DuskCallable>>>) -> bool {
    exists|c: Seq<Function>| is_function_catalog(c) && #[trigger] callables_match(l, c)
}

/// What a plugin implements: setup, dependency negotiation, and the module
/// tree it declares. The catalog queries are derived from that tree; a
/// plugin should not replace them.
pub trait Freight {
    /// Runs when the plugin is imported, with the system limitations; returns
    /// the plugin's own requests for other plugins.
    fn init(&mut self, limitations: &Option<Vec<Limitation>>) -> (r: Vec<InterplugRequest>) {
        Vec::new()
    }

    /// Takes new system limitations.
    fn update_limitations(&mut self, limitations: &Vec<Limitation>) {
    }

    /// Answers a request by telling the plugin it was denied.
    fn interplug_deny(&mut self, request: InterplugRequest) {
    }

    /// The top modules the plugin declares; every function, constant, type
    /// and trait lives inside them.
    fn top_modules(&mut self) -> (r: Vec<Module>);

    /// The functions implementing the binary operators the plugin provides.
    fn get_operator_list(&mut self) -> (r: Vec<Function>) {
        Vec::new()
    }

    /// The module catalog of the declared module trees.
    fn get_module_list(&mut self) -> (r: Result<Vec<Module>, DuskError>)
        ensures
            r matches Ok(c) ==> is_module_catalog(c@),
            r matches Err(e) ==> e is ImportError,
    {
        let top = self.top_modules();
        let ghost t = top@;
        let r = module_list(top);
        if let Ok(c) = &r {
            assert(is_catalog_of_declared(c@, module_forest(None, t)));
        }
        r
    }

    /// The function catalog: the operators and the functions of the module
    /// catalog.
    fn get_function_list(&mut self) -> (r: Result<Vec<Function>, DuskError>)
        ensures
            r matches Ok(c) ==> is_function_catalog(c@),
            r matches Err(e) ==> e is ImportError,
    {
        let modules = self.get_module_list()?;
        let ops = self.get_operator_list();
        let ghost o = ops@;
        let ghost m = modules@;
        let r = function_list(ops, modules);
        if let Ok(c) = &r {
            assert(is_catalog_of_declared(c@, declared_functions(o, m)));
        }
        r
    }

    /// The type catalog of the module catalog.
    fn get_type_list(&mut self) -> (r: Result<Vec<Type>, DuskError>)
        ensures
            r matches Ok(c) ==> is_type_catalog(c@),
            r matches Err(e) ==> e is ImportError,
    {
        let modules = self.get_module_list()?;
        let ghost m = modules@;
        let r = type_list(modules);
        if let Ok(c) = &r {
            assert(is_catalog_of_declared(c@, declared_types(m)));
        }
        r
    }

    /// The trait definition catalog of the module catalog.
    fn get_trait_definition_list(&mut self) -> (r: Result<Vec<TraitDefinition>, DuskError>)
        ensures
            r matches Ok(c) ==> is_trait_catalog(c@),
            r matches Err(e) ==> e is ImportError,
    {
        let modules = self.get_module_list()?;
        let ghost m = modules@;
        let r = trait_definition_list(modules);
        if let Ok(c) = &r {
            assert(is_catalog_of_declared(c@, declared_traits(m)));
        }
        r
    }

    /// The callables of the function catalog, slot by slot.
    fn get_callable_list(&mut self) -> (r: Result<Vec<Arc<Box<dyn DuskCallable>>>, DuskError>)
        ensures
            r matches Ok(l) ==> catalog_callables(l@),
            r matches Err(e) ==> e is ImportError,
    {
        let list = self.get_function_list()?;
        let l = callables_of(&list);
        assert(callables_match(l@, list@));
        assert(catalog_callables(l@));
        Ok(l)
    }

    /// The callable of the function at slot `id` of the function catalog; an
    /// [`DuskError::IndexError`] when that slot is beyond it or a
    /// placeholder.
    fn get_callable_by_id(&mut self, id: usize) -> (r: Result<Arc<Box<dyn DuskCallable>>, DuskError>)
        ensures
            r matches Ok(f) ==> exists|c: Seq<Function>|
                is_function_catalog(c) && #[trigger] holds_entry(c, id as int) && f == c[id as int].callable,
            r matches Err(e) ==> e is ImportError || (e is IndexError && exists|c: Seq<Function>|
                is_function_catalog(c) && !#[trigger] holds_entry(c, id as int)),
    {
        let list = self.get_function_list()?;
        let r = entry_by_id(&list, id);
        assert(r is Ok <==> holds_entry(list@, id as int));
        let f = r?;
        Ok(f.callable.clone())
    }

    /// A copy of the function at slot `id` of the function catalog.
    fn get_function_by_id(&mut self, id: usize) -> (r: Result<Function, DuskError>)
        ensures
            r matches Ok(x) ==> exists|c: Seq<Function>|
                is_function_catalog(c) && #[trigger] copy_of_slot(c, id as int, x),
            r matches Err(e) ==> e is ImportError || (e is IndexError && exists|c: Seq<Function>|
                is_function_catalog(c) && !#[trigger] holds_entry(c, id as int)),
    {
        let list = self.get_function_list()?;
        let r = copy_by_id(&list, id);
        assert(r is Ok <==> holds_entry(list@, id as int));
        if let Ok(x) = &r {
            assert(copy_of_slot(list@, id as int, *x));
        }
        r
    }

    /// Copies of the functions of the function catalog named `name`, by slot.
    fn get_functions_by_name(&mut self, name: &String) -> (r: Result<Vec<Function>, DuskError>)
        ensures
            r matches Ok(v) ==> named_function_copies(name@, v@),
            r matches Err(e) ==> e is ImportError,
    {
        let list = self.get_function_list()?;
        let v = copies_named(&list, name);
        assert(copies_of_named(list@, name@, v@));
        assert(named_function_copies(name@, v@));
        Ok(v)
    }

    /// A copy of the type at slot `id` of the type catalog.
    fn get_type_by_id(&mut self, id: usize) -> (r: Result<Type, DuskError>)
        ensures
            r matches Ok(x) ==> exists|c: Seq<Type>|
                is_type_catalog(c) && #[trigger] copy_of_slot(c, id as int, x),
            r matches Err(e) ==> e is ImportError || (e is IndexError && exists|c: Seq<Type>|
                is_type_catalog(c) && !#[trigger] holds_entry(c, id as int)),
    {
        let list = self.get_type_list()?;
        let r = copy_by_id(&list, id);
        assert(r is Ok <==> holds_entry(list@, id as int));
        if let Ok(x) = &r {
            assert(copy_of_slot(list@, id as int, *x));
        }
        r
    }

    /// Copies of the types of the type catalog named `name`, by slot.
    fn get_types_by_name(&mut self, name: &String) -> (r: Result<Vec<Type>, DuskError>)
        ensures
            r matches Ok(v) ==> named_type_copies(name@, v@),
            r matches Err(e) ==> e is ImportError,
    {
        let list = self.get_type_list()?;
        let v = copies_named(&list, name);
        assert(copies_of_named(list@, name@, v@));
        assert(named_type_copies(name@, v@));
        Ok(v)
    }

    /// A copy of the first declared type of the type catalog whose native
    /// identity is `native_id`; an [`DuskError::IndexError`] when there is
    /// none.
    fn get_type_by_native_id(&mut self, native_id: TypeId) -> (r: Result<Type, DuskError>)
        ensures
            r matches Ok(t) ==> exists|c: Seq<Type>, i: int|
                is_type_catalog(c) && #[trigger] declares_native_id(c, i, native_id) && t.same_content(
                    c[i],
                ),
            r matches Err(e) ==> e is ImportError || (e is IndexError && exists|c: Seq<Type>|
                is_type_catalog(c) && !#[trigger] has_native_id(c, native_id)),
    {
        let list = self.get_type_list()?;
        let r = type_by_native_id(&list, &native_id);
        match r {
            Ok(t) => {
                let copy = t.clone();
                proof {
                    let i = choose|i: int|
                        #[trigger] declares_native_id(list@, i, native_id) && *t == list@[i] && forall|j: int|
                            0 <= j < i ==> !declares_native_id(list@, j, native_id);
                    assert(copy.same_content(list@[i]));
                }
                Ok(copy)
            },
            Err(e) => Err(e),
        }
    }

    /// A copy of the trait definition at slot `id` of its catalog.
    fn get_trait_definition_by_id(&mut self, id: usize) -> (r: Result<TraitDefinition, DuskError>)
        ensures
            r matches Ok(x) ==> exists|c: Seq<TraitDefinition>|
                is_trait_catalog(c) && #[trigger] copy_of_slot(c, id as int, x),
            r matches Err(e) ==> e is ImportError || (e is IndexError && exists|c: Seq<TraitDefinition>|
                is_trait_catalog(c) && !#[trigger] holds_entry(c, id as int)),
    {
        let list = self.get_trait_definition_list()?;
        let r = copy_by_id(&list, id);
        assert(r is Ok <==> holds_entry(list@, id as int));
        if let Ok(x) = &r {
            assert(copy_of_slot(list@, id as int, *x));
        }
        r
    }

    /// Copies of the trait definitions named `name`, by slot.
    fn get_trait_definitions_by_name(&mut self, name: &String) -> (r: Result<Vec<TraitDefinition>, DuskError>)
        ensures
            r matches Ok(v) ==> named_trait_definition_copies(name@, v@),
            r matches Err(e) ==> e is ImportError,
    {
        let list = self.get_trait_definition_list()?;
        let v = copies_named(&list, name);
        assert(copies_of_named(list@, name@, v@));
        assert(named_trait_definition_copies(name@, v@));
        Ok(v)
    }

    /// A copy of the module at slot `id` of the module catalog.
    fn get_module_by_id(&mut self, id: usize) -> (r: Result<Module, DuskError>)
        ensures
            r matches Ok(x) ==> exists|c: Seq<Module>|
                is_module_catalog(c) && #[trigger] copy_of_slot(c, id as int, x),
            r matches Err(e) ==> e is ImportError || (e is IndexError && exists|c: Seq<Module>|
                is_module_catalog(c) && !#[trigger] holds_entry(c, id as int)),
    {
        let list = self.get_module_list()?;
        let r = copy_by_id(&list, id);
        assert(r is Ok <==> holds_entry(list@, id as int));
        if let Ok(x) = &r {
            assert(copy_of_slot(list@, id as int, *x));
        }
        r
    }

    /// Copies of the modules of the module catalog named `name`, by slot.
    fn get_modules_by_name(&mut self, name: &String) -> (r: Result<Vec<Module>, DuskError>)
        ensures
            r matches Ok(v) ==> named_module_copies(name@, v@),
            r matches Err(e) ==> e is ImportError,
    {
        let list = self.get_module_list()?;
        let v = copies_named(&list, name);
        assert(copies_of_named(list@, name@, v@));
        assert(named_module_copies(name@, v@));
        Ok(v)
    }
}

/// A plugin that declares nothing: all its catalogs are empty.
#[derive(Clone, Copy, Debug)]
pub struct EmptyFreight;

impl Freight for EmptyFreight {
    fn top_modules(&mut self) -> (r: Vec<Module>) {
        Vec::new()
    }
}

} // verus!
