//! Calling global procs: no receiver, name resolved first.

use crate::error::Error;
use crate::host::{Host, STR_ID_NONE};
use crate::value::ByondValue;
use vstd::prelude::*;

verus! {

/// Calls a global proc by name: the name is resolved to its interned
/// identifier (failing with the invalid-proc error, carrying the name, when
/// the host never interned it), then invoked with no receiver. This model
/// host runs built-in procs only on list receivers, so a resolved global
/// call surfaces its refusal. The call is synchronous and never waits on
/// host scheduling.
pub fn call_global(host: &mut Host, name: &Vec<u8>, args: &Vec<ByondValue>) -> (r: Result<
    ByondValue,
    Error,
>)
    requires
        old(host).wf(),
    ensures
        final(host).wf(),
        old(host).same_strings(*final(host)),
        old(host).same_lists(*final(host)),
        old(host).same_objects(*final(host)),
        old(host).same_cells(*final(host)),
        old(host).same_world(*final(host)),
        old(host).same_crash(*final(host)),
        final(host).buffer_calls@ == old(host).buffer_calls@,
        !old(host).has_str(name@) ==> (r matches Err(e) && e matches Error::InvalidProc(b) && b@
            == name@ && final(host).err_model() == old(host).err_model()),
        old(host).has_str(name@) ==> (r matches Err(e) && (e is ByondError
            || e is UnknownByondError)),
{
    let id = host.get_str_id(name);
    if id == STR_ID_NONE {
        return Err(Error::InvalidProc(name.clone()));
    }
    call_global_id(host, id, args)
}

/// Calls a global proc by its pre-resolved identifier; in this model host
/// the refusal to run it comes back as the host's error.
pub fn call_global_id(host: &mut Host, name: u32, args: &Vec<ByondValue>) -> (r: Result<
    ByondValue,
    Error,
>)
    requires
        old(host).wf(),
    ensures
        final(host).wf(),
        old(host).same_strings(*final(host)),
        old(host).same_lists(*final(host)),
        old(host).same_objects(*final(host)),
        old(host).same_cells(*final(host)),
        old(host).same_world(*final(host)),
        old(host).same_crash(*final(host)),
        final(host).buffer_calls@ == old(host).buffer_calls@,
        r matches Err(e) && (e is ByondError || e is UnknownByondError),
{
    let recv = ByondValue::null();
    match host.call_proc(recv, name, args) {
        Some(v) => Ok(v),
        None => Err(Error::get_last_byond_error(host)),
    }
}

} // verus!
