//! Wrappers through which a plugin's functions are called.

use vstd::prelude::*;
use crate::error::DuskError;
use crate::objects::Object;

verus! {

/// A function wrapper: takes the arguments, combines them with whatever
/// the implementor holds, and calls the underlying function.
pub trait DuskCallable {
    /// Calls the underlying function with `args`.
    fn call(&self, args: Vec<Object>) -> (r: Result<Object, DuskError>);
}

/// The placeholder callable: calls nothing and always reports
/// [`DuskError::NotImplementedError`].
#[derive(Clone, Copy, Debug)]
pub struct EmptyCallable;

impl DuskCallable for EmptyCallable {
    fn call(&self, args: Vec<Object>) -> (r: Result<Object, DuskError>)
        ensures
            r matches Err(DuskError::NotImplementedError(_)),
    {
        Err(DuskError::NotImplementedError("Called function is not implemented".to_string()))
    }
}

} // verus!
