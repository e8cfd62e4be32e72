//! Trait definitions and implementations that plugins export.

use vstd::prelude::*;
use std::any::TypeId;
use std::rc::Rc;
use crate::copies::{all_copies, copy_all, DeepCopy};
use crate::functions::{Function, Parameter};
use crate::registration::FreightProxy;

verus! {

/// The signature of one function of a trait.
pub struct TraitFunctionDefinition {
    /// Name of the function
    pub name: String,
    /// Position of the function inside the trait
    pub fn_trait_id: u64,
    /// Parameters of the function
    pub parameters: Vec<Parameter>,
    /// Native identity of the returned type
    pub return_type: TypeId,
    /// Hand the arguments over unchecked
    pub no_check_args: bool,
}

impl DeepCopy for TraitFunctionDefinition {
    open spec fn is_copy_of(&self, source: TraitFunctionDefinition) -> bool {
        &&& self.name == source.name
        &&& self.fn_trait_id == source.fn_trait_id
        &&& all_copies(self.parameters@, source.parameters@)
        &&& self.return_type == source.return_type
        &&& self.no_check_args == source.no_check_args
    }

    fn deep_copy(&self) -> (r: TraitFunctionDefinition) {
        TraitFunctionDefinition {
            name: self.name.clone(),
            fn_trait_id: self.fn_trait_id,
            parameters: copy_all(&self.parameters),
            return_type: self.return_type,
            no_check_args: self.no_check_args,
        }
    }
}

impl Clone for TraitFunctionDefinition {
    fn clone(&self) -> (r: TraitFunctionDefinition)
        ensures
            r.is_copy_of(*self),
    {
        self.deep_copy()
    }
}

impl Default for TraitFunctionDefinition {
    fn default() -> (r: TraitFunctionDefinition)
        ensures
            r.name@.len() == 0,
            r.fn_trait_id == 0,
            r.parameters@.len() == 0,
            !r.no_check_args,
    {
        TraitFunctionDefinition {
            name: String::new(),
            fn_trait_id: 0,
            parameters: Vec::new(),
            return_type: TypeId::of::<u8>(),
            no_check_args: false,
        }
    }
}

/// One implemented function of a trait.
pub struct TraitFunction {
    /// Position of the function inside the trait
    pub fn_trait_id: u64,
    /// The function itself
    pub function: Function,
}

impl DeepCopy for TraitFunction {
    open spec fn is_copy_of(&self, source: TraitFunction) -> bool {
        self.fn_trait_id == source.fn_trait_id && self.function.is_copy_of(source.function)
    }

    fn deep_copy(&self) -> (r: TraitFunction) {
        TraitFunction { fn_trait_id: self.fn_trait_id, function: self.function.deep_copy() }
    }
}

impl Clone for TraitFunction {
    fn clone(&self) -> (r: TraitFunction)
        ensures
            r.is_copy_of(*self),
    {
        self.deep_copy()
    }
}

impl Default for TraitFunction {
    fn default() -> (r: TraitFunction)
        ensures
            r.fn_trait_id == 0,
            r.function.name@.len() == 0,
            r.function.fn_id == 0,
    {
        TraitFunction { fn_trait_id: 0, function: Function::default() }
    }
}

/// A trait that a plugin defines: its name, its catalog id and the
/// signatures of its functions.
pub struct TraitDefinition {
    /// Name of the trait
    pub name: String,
    /// Slot of the trait in the trait definition catalog
    pub td_id: usize,
    /// Signatures of the trait's functions
    pub methods: Vec<TraitFunctionDefinition>,
}

impl DeepCopy for TraitDefinition {
    open spec fn is_copy_of(&self, source: TraitDefinition) -> bool {
        &&& self.name == source.name
        &&& self.td_id == source.td_id
        &&& all_copies(self.methods@, source.methods@)
    }

    fn deep_copy(&self) -> (r: TraitDefinition) {
        TraitDefinition { name: self.name.clone(), td_id: self.td_id, methods: copy_all(&self.methods) }
    }
}

impl Clone for TraitDefinition {
    fn clone(&self) -> (r: TraitDefinition)
        ensures
            r.is_copy_of(*self),
    {
        self.deep_copy()
    }
}

impl Default for TraitDefinition {
    fn default() -> (r: TraitDefinition)
        ensures
            r.name@.len() == 0,
            r.td_id == 0,
            r.methods@.len() == 0,
    {
        TraitDefinition { name: String::new(), td_id: 0, methods: Vec::new() }
    }
}

/// An implementation of a trait by a type.
pub struct TraitImplementation {
    /// Full name of the implemented trait
    pub name: String,
    /// The implemented functions
    pub methods: Vec<TraitFunction>,
}

impl DeepCopy for TraitImplementation {
    open spec fn is_copy_of(&self, source: TraitImplementation) -> bool {
        self.name == source.name && all_copies(self.methods@, source.methods@)
    }

    fn deep_copy(&self) -> (r: TraitImplementation) {
        TraitImplementation { name: self.name.clone(), methods: copy_all(&self.methods) }
    }
}

impl Clone for TraitImplementation {
    fn clone(&self) -> (r: TraitImplementation)
        ensures
            r.is_copy_of(*self),
    {
        self.deep_copy()
    }
}

/// A trait as implemented by a loaded plugin: the trait's name, the plugin,
/// and for each of the trait's functions the slot of the implementing
/// function in the plugin's function catalog.
pub struct TraitProxy {
    /// Name of the trait
    pub trait_name: String,
    /// The plugin the implementation comes from
    pub freight_proxy: Rc<FreightProxy>,
    /// Function catalog slot of each of the trait's functions
    pub function_links: Vec<usize>,
}

} // verus!
