//! Raising a host runtime error from native code.

use crate::host::Host;
use vstd::prelude::*;

verus! {

/// Raises a runtime error in the host with the given message: the one-way
/// crash signal. On the host side this transfers control away and no
/// further native cleanup runs, so every owned resource must already have
/// been released before calling it.
pub fn byond_runtime(host: &mut Host, message: &str)
    ensures
        final(host).crash_model() == Some(message@),
        final(host).crashes@ == old(host).crashes@ + 1,
        old(host).same_strings(*final(host)),
        old(host).same_lists(*final(host)),
        old(host).same_objects(*final(host)),
        old(host).same_cells(*final(host)),
        old(host).same_world(*final(host)),
        final(host).err_model() == old(host).err_model(),
        final(host).buffer_calls@ == old(host).buffer_calls@,
        final(host).wf() == old(host).wf(),
{
    host.crash(message);
}

} // verus!
