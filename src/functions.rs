//! Descriptions of exported functions and of their parameters.

use vstd::prelude::*;
use std::any::TypeId;
use std::sync::Arc;
use crate::callables::{DuskCallable, EmptyCallable};
use crate::copies::{all_copies, copy_all, DeepCopy};
use crate::interplugin::{clone_requests, request_copy, requests_copy, InterplugRequest};
use crate::objects::Object;

verus! {

/// What a caller needs to know of one parameter of a function.
pub struct Parameter {
    /// Native identity of the argument's type
    pub arg_type: TypeId,
    /// Accept an argument of any type
    pub any_type: bool,
    /// The parameter only answers an interplugin request and carries no value
    pub trait_only: bool,
    /// Traits the argument's type must implement
    pub implements: Option<InterplugRequest>,
    /// The argument may be changed
    pub mutable: bool,
    /// The argument can only be given by keyword
    pub keyword_only: bool,
    /// Keyword of the parameter
    pub keyword: Option<String>,
    /// Value used when the argument is left out
    pub default_value: Option<Object>,
    /// Several arguments may be grouped into this parameter
    pub allow_multiple: bool,
    /// Most arguments grouped into it; `0` for no limit
    pub max_amount: usize,
}

impl DeepCopy for Parameter {
    open spec fn is_copy_of(&self, source: Parameter) -> bool {
        &&& self.arg_type == source.arg_type
        &&& self.any_type == source.any_type
        &&& self.trait_only == source.trait_only
        &&& match (self.implements, source.implements) {
            (Some(a), Some(b)) => request_copy(a, b),
            (None, None) => true,
            _ => false,
        }
        &&& self.mutable == source.mutable
        &&& self.keyword_only == source.keyword_only
        &&& self.keyword == source.keyword
        &&& self.default_value == source.default_value
        &&& self.allow_multiple == source.allow_multiple
        &&& self.max_amount == source.max_amount
    }

    fn deep_copy(&self) -> (r: Parameter) {
        Parameter {
            arg_type: self.arg_type,
            any_type: self.any_type,
            trait_only: self.trait_only,
            implements: match &self.implements {
                Some(request) => Some(request.clone()),
                None => None,
            },
            mutable: self.mutable,
            keyword_only: self.keyword_only,
            keyword: match &self.keyword {
                Some(k) => Some(k.clone()),
                None => None,
            },
            default_value: match &self.default_value {
                Some(v) => Some(v.clone()),
                None => None,
            },
            allow_multiple: self.allow_multiple,
            max_amount: self.max_amount,
        }
    }
}

impl Clone for Parameter {
    fn clone(&self) -> (r: Parameter)
        ensures
            r.is_copy_of(*self),
    {
        self.deep_copy()
    }
}

impl Default for Parameter {
    fn default() -> (r: Parameter)
        ensures
            !r.any_type,
            !r.trait_only,
            r.implements is None,
            !r.mutable,
            !r.keyword_only,
            r.keyword is None,
            r.default_value is None,
            !r.allow_multiple,
            r.max_amount == 0,
    {
        Parameter {
            arg_type: TypeId::of::<u8>(),
            any_type: false,
            trait_only: false,
            implements: None,
            mutable: false,
            keyword_only: false,
            keyword: None,
            default_value: None,
            allow_multiple: false,
            max_amount: 0,
        }
    }
}

/// A keyword argument handed over to a function that checks no arguments.
pub struct Kwarg {
    /// The keyword
    pub keyword: String,
    /// The argument
    pub value: Object,
}

/// An exported function: its name, the callable that runs it, its catalog
/// id, its parameters, its result type, and what it depends on.
pub struct Function {
    /// Name of the function
    pub name: String,
    /// The callable to use when calling the function
    pub callable: Arc<Box<dyn DuskCallable>>,
    /// Slot of the function in the function catalog; stable across releases
    pub fn_id: usize,
    /// Parameters of the function
    pub parameters: Vec<Parameter>,
    /// Native identity of the returned type
    pub return_type: TypeId,
    /// Hand the arguments over unchecked
    pub no_check_args: bool,
    /// Interplugin requests that must be met for the function to be usable
    pub dependencies: Vec<InterplugRequest>,
}

impl DeepCopy for Function {
    open spec fn is_copy_of(&self, source: Function) -> bool {
        &&& self.name == source.name
        &&& self.callable == source.callable
        &&& self.fn_id == source.fn_id
        &&& all_copies(self.parameters@, source.parameters@)
        &&& self.return_type == source.return_type
        &&& self.no_check_args == source.no_check_args
        &&& requests_copy(self.dependencies@, source.dependencies@)
    }

    fn deep_copy(&self) -> (r: Function) {
        Function {
            name: self.name.clone(),
            callable: self.callable.clone(),
            fn_id: self.fn_id,
            parameters: copy_all(&self.parameters),
            return_type: self.return_type,
            no_check_args: self.no_check_args,
            dependencies: clone_requests(&self.dependencies),
        }
    }
}

impl Clone for Function {
    /// A copy that shares the callable.
    fn clone(&self) -> (r: Function)
        ensures
            r.is_copy_of(*self),
    {
        self.deep_copy()
    }
}

impl Default for Function {
    fn default() -> (r: Function)
        ensures
            r.name@.len() == 0,
            r.fn_id == 0,
            r.parameters@.len() == 0,
            !r.no_check_args,
            r.dependencies@.len() == 0,
    {
        Function {
            name: String::new(),
            callable: Arc::new(Box::new(EmptyCallable)),
            fn_id: 0,
            parameters: Vec::new(),
            return_type: TypeId::of::<u8>(),
            no_check_args: false,
            dependencies: Vec::new(),
        }
    }
}

} // verus!
