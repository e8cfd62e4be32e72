//! Descriptions of the types a plugin exports.

use vstd::prelude::*;
use std::any::TypeId;
use crate::copies::{all_copies, copy_all, DeepCopy};
use crate::functions::Function;
use crate::traits::TraitImplementation;

verus! {

/// Relies on `std::any::TypeId` as an opaque value: the native identity
/// of a type, compared only through [`same_type_id`].
#[verifier::external_type_specification]
#[verifier::external_body]
pub struct ExTypeId(std::any::TypeId);

/// Relies on `TypeId::of`: the identity of a `'static` type.
pub assume_specification<T: ?Sized + 'static>[ std::any::TypeId::of::<T> ]() -> TypeId;

/// Relies on `TypeId`'s `Clone`, which copies the id.
pub assume_specification[ <std::any::TypeId as std::clone::Clone>::clone ](t: &TypeId) -> (r: TypeId)
    ensures
        r == *t,
;

/// Relies on `TypeId`'s `==`: two type ids compare equal exactly when they
/// are the same id.
#[verifier::external_body]
pub(crate) fn same_type_id(a: &TypeId, b: &TypeId) -> (r: bool)
    ensures
        r == (*a == *b),
{
    *a == *b
}

/// An exported type: its name, its catalog id, the functions that are its
/// methods and field accessors, the traits it implements, and the native
/// identity of the Rust type behind it.
pub struct Type {
    /// Name of the type
    pub name: String,
    /// Slot of the type in the type catalog (not the native id)
    pub tp_id: usize,
    /// Methods; their ids are unique among all functions of the plugin
    pub methods: Vec<Function>,
    /// Field accessors; their ids are unique among all functions too
    pub fields: Vec<Function>,
    /// Trait implementations of the type
    pub trait_implementations: Vec<TraitImplementation>,
    /// Native identity of the Rust type
    pub native_id: TypeId,
}

impl DeepCopy for Type {
    open spec fn is_copy_of(&self, source: Type) -> bool {
        &&& self.name == source.name
        &&& self.tp_id == source.tp_id
        &&& all_copies(self.methods@, source.methods@)
        &&& all_copies(self.fields@, source.fields@)
        &&& all_copies(self.trait_implementations@, source.trait_implementations@)
        &&& self.native_id == source.native_id
    }

    fn deep_copy(&self) -> (r: Type) {
        Type {
            name: self.name.clone(),
            tp_id: self.tp_id,
            methods: copy_all(&self.methods),
            fields: copy_all(&self.fields),
            trait_implementations: copy_all(&self.trait_implementations),
            native_id: self.native_id,
        }
    }
}

impl Clone for Type {
    fn clone(&self) -> (r: Type)
        ensures
            r.is_copy_of(*self),
    {
        self.deep_copy()
    }
}

impl Default for Type {
    /// The byte type's description.
    fn default() -> (r: Type)
        ensures
            r.name@ == seq!['u', '8'],
            r.tp_id == 0,
            r.methods@.len() == 0,
            r.fields@.len() == 0,
            r.trait_implementations@.len() == 0,
    {
        crate::stdtypes::U8::init()
    }
}

impl Type {
    /// An unnamed type that fills an unclaimed slot of the type catalog.
    pub fn placeholder() -> (r: Type)
        ensures
            r.name@.len() == 0,
            r.tp_id == 0,
            r.methods@.len() == 0,
            r.fields@.len() == 0,
            r.trait_implementations@.len() == 0,
    {
        Type {
            name: String::new(),
            tp_id: 0,
            methods: Vec::new(),
            fields: Vec::new(),
            trait_implementations: Vec::new(),
            native_id: TypeId::of::<u8>(),
        }
    }
}

} // verus!
