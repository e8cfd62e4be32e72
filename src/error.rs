//! The errors that crossing the plugin boundary can produce.

use vstd::prelude::*;
use crate::interplugin::InterplugRequest;

verus! {

/// What went wrong, returned in place of a value; each variant carries
/// a human-readable message or the request that was not met.
#[derive(Clone, Debug)]
pub enum DuskError {
    /// The plugin library could not be opened or its declaration found
    LoadingError(String),
    /// A dependency crucial for the action was not provided
    DependencyError(InterplugRequest),
    /// The plugin's declaration is malformed or incompatible
    ImportError(String),
    /// A value of the wrong type was given
    TypeError(String),
    /// A value outside what the operation accepts was given
    ValueError(String),
    /// The operating system reported an error
    OsError(String),
    /// A value check failed
    AssertionError(String),
    /// An id or name lookup found nothing
    IndexError(String),
    /// Division by zero
    ZeroDivisionError(String),
    /// A counter would leave its range
    OverflowError(String),
    /// A placeholder was called in place of a real implementation
    NotImplementedError(String),
    /// Any other failure at run time, such as an invalid lock transition
    RuntimeError(String),
}

} // verus!
