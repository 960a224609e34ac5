//! Open enums: a transparent wrapper over a raw `i32` in which every raw value
//! is valid, with named constants for the known ones.

use vstd::prelude::*;
use crate::constants::ConstantSet;

verus! {

/// A value of an open FMOD enum, held as its raw `i32`.
#[derive(Clone, Copy, Debug, PartialEq, Eq, Hash, Structural)]
pub struct TypedefEnum {
    raw: i32,
}

impl View for TypedefEnum {
    type V = i32;

    closed spec fn view(&self) -> i32 {
        self.raw
    }
}

impl TypedefEnum {
    /// The value with raw zero.
    pub fn zeroed() -> (r: TypedefEnum)
        ensures
            r@ == 0,
    {
        TypedefEnum { raw: 0 }
    }

    /// The value with raw `raw`; every raw value is accepted.
    pub fn from_raw(raw: i32) -> (r: TypedefEnum)
        ensures
            r@ == raw,
    {
        TypedefEnum { raw }
    }

    /// The raw value.
    pub fn into_raw(self) -> (r: i32)
        ensures
            r == self@,
    {
        self.raw
    }

    /// A shared view of the raw value.
    pub fn as_raw(&self) -> (r: &i32)
        ensures
            *r == self@,
    {
        &self.raw
    }

    /// A mutable view of the raw value: what is written through it becomes the
    /// value.
    pub fn as_raw_mut(&mut self) -> (r: &mut i32)
        ensures
            *r == old(self)@,
            final(self)@ == *final(r),
    {
        &mut self.raw
    }

    /// What `Debug` prints, given the type's named constants: the name of the
    /// first constant equal to this value, else the type name and raw value.
    pub fn debug_string(self, constants: &ConstantSet) -> (r: String)
        ensures
            r@ == constants.spec_debug(self@ as int),
    {
        constants.debug_string(self.raw as i64)
    }

    /// The value `Default` gives: the constant marked `#[default]`, when there
    /// is one and its value is an `i32`.
    pub fn default_in(constants: &ConstantSet) -> (r: Option<TypedefEnum>)
        ensures
            match constants.spec_default() {
                Some(v) => if i32::MIN <= v <= i32::MAX {
                    r matches Some(e) && e@ == v
                } else {
                    r is None
                },
                None => r is None,
            },
    {
        match constants.default_value() {
            Some(v) => {
                if i32::MIN as i64 <= v && v <= i32::MAX as i64 {
                    Some(TypedefEnum { raw: v as i32 })
                } else {
                    None
                }
            },
            None => None,
        }
    }
}

} // verus!
