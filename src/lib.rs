//! ABI and runtime substrate for loading natively compiled plugins
//! ("freights"), discovering what they export and exchanging values
//! with them.

pub mod version;
pub mod copies;
pub mod interplugin;
pub mod error;
pub mod objects;
pub mod callables;
pub mod functions;
pub mod types;
pub mod traits;
pub mod modules;
pub mod catalog;
pub mod flatten;
pub mod harvest;
pub mod freights;
pub mod registration;
pub mod stdtypes;

pub use version::Version;
pub use interplugin::{InterplugRequest, Limitation};
pub use error::DuskError;
pub use objects::{
    DkAny, DkDump, DkGet, DkLoad, DkRWLock, DkRefCount, DkSet, LockOp, ObjCore, Object,
};
pub use callables::{DuskCallable, EmptyCallable};
pub use functions::{Function, Kwarg, Parameter};
pub use types::Type;
pub use traits::{TraitDefinition, TraitFunction, TraitFunctionDefinition, TraitImplementation, TraitProxy};
pub use modules::Module;
pub use freights::{EmptyFreight, Freight};
pub use registration::{FreightDeclaration, FreightProxy, FreightRegister, FreightRegistrar, Registration};
pub use stdtypes::U8;
