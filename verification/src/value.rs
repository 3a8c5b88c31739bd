//! The dynamic value type: a fixed-size tagged union of a type tag byte and a
//! 32-bit payload, exactly as the host lays it out on the wire.
//!
//! The tag decides what the payload means: nothing (null), IEEE-754 number
//! bits, an interned string identifier, or a handle naming a host-owned
//! object, list or pointer cell. A value never changes variant except through
//! an explicit in-place set operation.

use crate::bits32::{eq_bits, ieee_eq_bits};
use vstd::prelude::*;

pub mod builtins;
pub mod constructors;
pub mod functions;
pub mod list;
pub mod pointer;
pub mod refcounted;

verus! {

/// Tag of the null value; its payload is always zero.
pub const NULL_TAG: u8 = 0x00;

/// Tag of a turf reference; the payload indexes the host's turf grid.
pub const TURF_TAG: u8 = 0x01;

/// Tag of an interned string; the payload is the string identifier.
pub const STRING_TAG: u8 = 0x06;

/// Tag of the world singleton reference.
pub const WORLD_TAG: u8 = 0x0e;

/// Tag of a list; the payload is a host list handle.
pub const LIST_TAG: u8 = 0x0f;

/// Tag of a plain host object; the payload is a host object handle.
pub const DATUM_TAG: u8 = 0x21;

/// Tag of a number; the payload holds IEEE-754 single-precision bits.
pub const NUMBER_TAG: u8 = 0x2a;

/// Tag of a dereferenceable pointer; the payload is a host cell handle.
pub const POINTER_TAG: u8 = 0x3c;

/// A host value: type tag plus 32-bit payload.
///
/// A reference-tagged value obtained from the host as an argument is a
/// transient handle, only guaranteed valid for the current invocation; to
/// retain one across calls, promote it to a
/// [`refcounted::RcByondValue`].
#[derive(Clone, Copy, Debug)]
pub struct ByondValue {
    /// The type tag byte.
    pub tag: u8,
    /// The payload: number bits, string id or host handle.
    pub data: u32,
}

/// The null value.
pub open spec fn null_value() -> ByondValue {
    ByondValue { tag: NULL_TAG, data: 0 }
}

/// A number value with the given payload bits.
pub open spec fn num_value(bits: u32) -> ByondValue {
    ByondValue { tag: NUMBER_TAG, data: bits }
}

/// A string value with the given interned identifier.
pub open spec fn str_value(id: u32) -> ByondValue {
    ByondValue { tag: STRING_TAG, data: id }
}

/// A list value with the given host handle.
pub open spec fn list_value(h: u32) -> ByondValue {
    ByondValue { tag: LIST_TAG, data: h }
}

/// A turf reference with the given grid handle.
pub open spec fn turf_value(h: u32) -> ByondValue {
    ByondValue { tag: TURF_TAG, data: h }
}

/// A plain object reference with the given host handle.
pub open spec fn datum_value(h: u32) -> ByondValue {
    ByondValue { tag: DATUM_TAG, data: h }
}

/// The host's equality rule over values: numbers compare by IEEE-754
/// equality of their payload bits, everything else compares by tag and
/// payload identity. Interned string identifiers make the latter a content
/// comparison for strings.
pub open spec fn spec_byond_eq(a: ByondValue, b: ByondValue) -> bool {
    if a.tag == NUMBER_TAG && b.tag == NUMBER_TAG {
        ieee_eq_bits(a.data, b.data)
    } else {
        a.tag == b.tag && a.data == b.data
    }
}

impl ByondValue {
    /// The actual type tag of this value.
    pub fn get_type(&self) -> (r: u8)
        ensures
            r == self.tag,
    {
        self.tag
    }

    /// True when this value is null.
    pub fn is_null(&self) -> (r: bool)
        ensures
            r == (self.tag == NULL_TAG),
    {
        self.tag == NULL_TAG
    }

    /// True when this value is a number.
    pub fn is_num(&self) -> (r: bool)
        ensures
            r == (self.tag == NUMBER_TAG),
    {
        self.tag == NUMBER_TAG
    }

    /// True when this value is an interned string.
    pub fn is_str(&self) -> (r: bool)
        ensures
            r == (self.tag == STRING_TAG),
    {
        self.tag == STRING_TAG
    }

    /// True when this value is a list handle.
    pub fn is_list(&self) -> (r: bool)
        ensures
            r == (self.tag == LIST_TAG),
    {
        self.tag == LIST_TAG
    }

    /// True when this value is a dereferenceable pointer.
    pub fn is_ptr(&self) -> (r: bool)
        ensures
            r == (self.tag == POINTER_TAG),
    {
        self.tag == POINTER_TAG
    }

    /// Equality by the host's rule; same as `==`.
    pub fn byond_eq(&self, other: &ByondValue) -> (r: bool)
        ensures
            r == spec_byond_eq(*self, *other),
    {
        if self.tag == NUMBER_TAG && other.tag == NUMBER_TAG {
            eq_bits(self.data, other.data)
        } else {
            self.tag == other.tag && self.data == other.data
        }
    }
}

impl PartialEq for ByondValue {
    /// Equality follows the host's rule, not bit identity: two number values
    /// holding NaN bits are unequal even when the bits agree.
    fn eq(&self, other: &Self) -> (r: bool) {
        self.byond_eq(other)
    }
}

impl vstd::std_specs::cmp::PartialEqSpecImpl for ByondValue {
    open spec fn obeys_eq_spec() -> bool {
        true
    }

    open spec fn eq_spec(&self, other: &ByondValue) -> bool {
        spec_byond_eq(*self, *other)
    }
}

impl From<bool> for ByondValue {
    /// A truth value as the host writes one: the number one for true, the
    /// number zero for false.
    fn from(value: bool) -> (r: ByondValue) {
        if value {
            ByondValue { tag: NUMBER_TAG, data: 0x3f80_0000 }
        } else {
            ByondValue { tag: NUMBER_TAG, data: 0 }
        }
    }
}

impl vstd::std_specs::convert::FromSpecImpl<bool> for ByondValue {
    open spec fn obeys_from_spec() -> bool {
        true
    }

    open spec fn from_spec(value: bool) -> ByondValue {
        if value {
            num_value(0x3f80_0000)
        } else {
            num_value(0)
        }
    }
}

} // verus!
