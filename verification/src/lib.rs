//! A verified model of a host/plugin value-marshaling layer.
//!
//! Native plugin code exchanges dynamically typed values, lists and object
//! references with a host runtime through a small C ABI. This crate verifies
//! the value-marshaling core of such a layer: the tagged value representation,
//! its conversion and equality rules, the variable-length list marshaling
//! protocol, string-identifier interning, and the entry-point bridge that
//! turns a host invocation into a typed call and converts failures back into
//! the host's crash signal.
//!
//! The host itself is represented by an explicit state value, [`host::Host`]:
//! a model of the string table, list storage, object storage and error/crash
//! channels that the real host exposes through its function table. Every
//! operation of the layer is an ordinary executable function over that state,
//! verified against its contract. The raw ABI edge (symbol resolution,
//! pointer handling) lives outside the verified library.

use vstd::prelude::*;

pub mod binds;
pub mod bits32;
pub mod bridge;
pub mod buffer;
pub mod byond_string;
pub mod error;
pub mod global_call;
pub mod host;
pub mod laws;
pub mod map;
pub mod runtime;
pub mod text;
pub mod value;

use crate::value::ByondValue;

verus! {

/// Builds the argument vector an entry point works on from what the host
/// hands over. The host passes an argument count together with an argument
/// array that may legitimately be absent when the count is zero; an absent
/// array behaves exactly like an empty one.
pub fn parse_args(argc: u32, argv: Option<Vec<ByondValue>>) -> (r: Vec<ByondValue>)
    requires
        argv matches Some(v) ==> v@.len() == argc as int,
    ensures
        r@ == match argv {
            Some(v) => v@,
            None => Seq::<ByondValue>::empty(),
        },
{
    match argv {
        Some(v) => v,
        None => Vec::new(),
    }
}

} // verus!
