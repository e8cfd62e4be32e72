//! The byte, a standard value type that any plugin can exchange.

use vstd::prelude::*;
use std::any::TypeId;
use crate::error::DuskError;
use crate::objects::{
    DkAny, DkGet, DkSet, ObjCore, Object, SIZE_SHIFT,
};
use crate::types::Type;

verus! {

/// Catalog id of the byte type.
pub const U8_TYPE_ID: usize = 0;

/// The byte form of a byte value: the byte itself.
pub open spec fn u8_bytes(value: u8) -> Seq<u8> {
    seq![value]
}

/// What reading a byte value from `bytes` at `cursor` gives: the byte there
/// and the cursor past it, or `None` when the cursor is at or past the end.
pub open spec fn u8_read(bytes: Seq<u8>, cursor: nat) -> Option<(u8, nat)> {
    if cursor < bytes.len() {
        Some((bytes[cursor as int], cursor + 1))
    } else {
        None
    }
}

/// Reading back the byte form of a value, from its start, gives the value
/// and a cursor at its end.
pub proof fn lemma_u8_round_trip(value: u8)
    ensures
        u8_read(u8_bytes(value), 0) == Some((value, u8_bytes(value).len())),
{
}

/// A byte that can cross the plugin boundary, with its control block.
pub struct U8 {
    dk_obj_core: ObjCore,
    data: u8,
}

impl U8 {
    /// The byte held.
    pub closed spec fn value(&self) -> u8 {
        self.data
    }

    /// A new byte value `data`, with one owner and unlocked.
    pub fn new(data: u8) -> (r: U8)
        ensures
            r.value() == data,
    {
        U8 { dk_obj_core: ObjCore::new(), data }
    }

    /// The byte held.
    pub fn get(&self) -> (r: u8)
        ensures
            r == self.value(),
    {
        self.data
    }

    /// The byte type's description.
    pub fn init() -> (r: Type)
        ensures
            r.name@ == seq!['u', '8'],
            r.tp_id == U8_TYPE_ID,
            r.methods@.len() == 0,
            r.fields@.len() == 0,
            r.trait_implementations@.len() == 0,
    {
        proof {
            reveal_strlit("u8");
        }
        Type {
            name: "u8".to_string(),
            tp_id: U8_TYPE_ID,
            methods: Vec::new(),
            fields: Vec::new(),
            trait_implementations: Vec::new(),
            native_id: TypeId::of::<U8>(),
        }
    }

    /// A new zero byte, boxed as a boundary value.
    pub fn dk_new() -> (r: Result<Box<dyn DkAny>, DuskError>)
        ensures
            r is Ok,
    {
        Ok(Box::new(U8::new(0)))
    }

    /// Replaces the byte with that of `new_data`.
    pub fn set_from(&mut self, new_data: &U8) -> (r: Result<(), DuskError>)
        ensures
            r is Ok,
            final(self).value() == new_data.value(),
    {
        self.data = new_data.data;
        Ok(())
    }

    /// The byte form of the value.
    pub fn dump(&self) -> (r: Vec<u8>)
        ensures
            r@ == u8_bytes(self.value()),
    {
        let mut result: Vec<u8> = Vec::new();
        result.push(self.data);
        result
    }

    /// Reads the value from `new_data` at `*cursor` and moves the cursor past
    /// it; an [`DuskError::IndexError`], with nothing changed, when the cursor
    /// is at or past the end.
    pub fn load(&mut self, new_data: &Vec<u8>, cursor: &mut usize) -> (r: Result<(), DuskError>)
        ensures
            r is Ok <==> u8_read(new_data@, *old(cursor) as nat) is Some,
            r is Ok ==> u8_read(new_data@, *old(cursor) as nat) == Some(
                (final(self).value(), *final(cursor) as nat),
            ),
            r is Err ==> *final(cursor) == *old(cursor) && final(self).value() == old(self).value(),
            r matches Err(e) ==> e is IndexError,
    {
        if *cursor >= new_data.len() {
            return Err(DuskError::IndexError("Not enough data to read a byte".to_string()));
        }
        self.data = new_data[*cursor];
        *cursor = *cursor + 1;
        Ok(())
    }
}

impl Clone for U8 {
    /// A separate byte with the same value, its own owner and unlocked.
    fn clone(&self) -> (r: U8)
        ensures
            r.value() == self.value(),
    {
        U8::new(self.data)
    }
}

impl DkGet for U8 {
    fn dk_get(&self) -> (r: Result<U8, DuskError>)
        ensures
            r matches Ok(v) && v.value() == self.value(),
    {
        Ok(self.clone())
    }
}

impl DkSet for U8 {
    fn dk_set(&mut self, new_data: &U8) -> (r: Result<(), DuskError>)
        ensures
            r is Ok,
            final(self).value() == new_data.value(),
    {
        self.set_from(new_data)
    }
}

impl DkAny for U8 {
    fn dk_incref(&self) -> (r: Result<usize, DuskError>) {
        self.dk_obj_core.incref()
    }

    fn dk_decref(&self) -> (r: Result<usize, DuskError>) {
        self.dk_obj_core.decref()
    }

    fn dk_try_lock_ex(&self) -> (r: Result<bool, DuskError>) {
        self.dk_obj_core.try_lock_ex()
    }

    fn dk_try_lock(&self) -> (r: Result<bool, DuskError>) {
        self.dk_obj_core.try_lock()
    }

    fn dk_unlock(&self) -> (r: Result<(), DuskError>) {
        self.dk_obj_core.unlock()
    }

    fn dk_dump(&self) -> (r: Result<Vec<u8>, DuskError>)
        ensures
            r matches Ok(b) && b@ == u8_bytes(self.value()),
    {
        Ok(self.dump())
    }

    fn dk_load(&mut self, new_data: Vec<u8>, cursor: &mut usize) -> (r: Result<(), DuskError>)
        ensures
            r is Ok <==> u8_read(new_data@, *old(cursor) as nat) is Some,
            r is Ok ==> u8_read(new_data@, *old(cursor) as nat) == Some(
                (final(self).value(), *final(cursor) as nat),
            ),
            r is Err ==> *final(cursor) == *old(cursor) && final(self).value() == old(self).value(),
            r matches Err(e) ==> e is IndexError,
    {
        self.load(&new_data, cursor)
    }
}

/// The byte `value` as a boundary value.
pub fn u8_to_dk(value: u8) -> (r: Box<dyn DkAny>) {
    Box::new(U8::new(value))
}

/// The byte `value` as an object of the byte type, whose size bits say
/// three.
pub fn u8_to_dk_object(value: u8) -> (r: Object)
    ensures
        r.flags() == 3u32 << SIZE_SHIFT,
{
    Object::new(Box::new(U8::new(value)), U8_TYPE_ID, 3u32 << SIZE_SHIFT)
}

} // verus!
