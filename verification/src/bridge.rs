//! The entry-point bridge: from a raw host invocation to a typed call, and
//! from a native failure back to the host's crash signal.
//!
//! The host invokes an entry point with an argument count and an argument
//! array; [`crate::parse_args`] turns that into an argument vector, with an
//! absent array behaving exactly like an empty one. Positional unpacking
//! defaults missing trailing arguments to null. On success the native
//! result goes straight back to the host; on failure the error is formatted
//! to text, consumed, and reported through the crash facility exactly once —
//! a one-way transfer, so everything the entry point acquired must already
//! be released when its result reaches the bridge.

use crate::error::{describe_spec, Error};
use crate::host::Host;
use crate::value::{null_value, ByondValue};
use vstd::prelude::*;

verus! {

/// The positional argument at the given index, or null when the host
/// passed fewer arguments.
pub fn arg_or_null(args: &Vec<ByondValue>, index: usize) -> (r: ByondValue)
    ensures
        r == if (index as int) < args@.len() {
            args@[index as int]
        } else {
            null_value()
        },
{
    if index < args.len() {
        args[index]
    } else {
        ByondValue::null()
    }
}

/// Hands an entry point's outcome to the host: a success value is returned
/// unchanged and the host is untouched; a failure is formatted, consumed,
/// and reported through the host's crash channel exactly once, after which
/// the null value stands in for the result the host will never use.
pub fn bridge_result(host: &mut Host, result: Result<ByondValue, Error>) -> (r: ByondValue)
    ensures
        old(host).same_strings(*final(host)),
        old(host).same_lists(*final(host)),
        old(host).same_objects(*final(host)),
        old(host).same_cells(*final(host)),
        old(host).same_world(*final(host)),
        final(host).err_model() == old(host).err_model(),
        final(host).buffer_calls@ == old(host).buffer_calls@,
        final(host).wf() == old(host).wf(),
        result matches Ok(v) ==> r == v && old(host).same_crash(*final(host)),
        result matches Err(e) ==> r == null_value() && final(host).crash_model() == Some(
            describe_spec(e),
        ) && final(host).crashes@ == old(host).crashes@ + 1,
{
    match result {
        Ok(v) => v,
        Err(e) => {
            let text = e.describe();
            host.crash(text.as_str());
            ByondValue::null()
        },
    }
}

} // verus!
