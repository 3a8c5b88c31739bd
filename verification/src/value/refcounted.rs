//! The reference-counted wrapper: the one legitimate way to keep a host
//! reference alive past the current invocation.
//!
//! A reference obtained from the host as an argument is transient. Promoting
//! it takes one host-tracked strong reference; releasing the wrapper gives
//! it back. Construction and release are the only places the layer touches
//! the count: the raw increment and decrement primitives exist but nothing
//! else calls them. Because the host's state is threaded explicitly, release
//! is an explicit operation rather than an implicit destructor; dropping the
//! wrapper without releasing it leaks one strong reference, exactly as
//! forgetting such a guard would.

use crate::host::Host;
use crate::value::{ByondValue, DATUM_TAG, LIST_TAG};
use vstd::prelude::*;

verus! {

/// A value holding one host-tracked strong reference, taken at
/// construction and given back on release.
pub struct RcByondValue(ByondValue);

impl RcByondValue {
    /// The wrapped value, for contracts.
    pub closed spec fn spec_value(self) -> ByondValue {
        self.0
    }

    /// Promotes a transient value, taking one strong reference on it.
    pub fn new(host: &mut Host, value: ByondValue) -> (r: RcByondValue)
        requires
            old(host).wf(),
        ensures
            final(host).wf(),
            r.spec_value() == value,
            old(host).same_strings(*final(host)),
            old(host).same_cells(*final(host)),
            old(host).same_world(*final(host)),
            old(host).same_crash(*final(host)),
            final(host).err_model() == old(host).err_model(),
            final(host).buffer_calls@ == old(host).buffer_calls@,
            old(host).untouched_list_entries(*final(host)),
            old(host).untouched_obj_data(*final(host)),
            old(host).rc_frame(*final(host), value),
            value.tag == LIST_TAG && old(host).valid_list(value.data) && old(host).list_rc(
                value.data,
            ) < 0xffff_ffff ==> final(host).list_rc(value.data) == old(host).list_rc(value.data)
                + 1,
            value.tag == DATUM_TAG && old(host).valid_obj(value.data) && old(host).obj_rc(
                value.data,
            ) < 0xffff_ffff ==> final(host).obj_rc(value.data) == old(host).obj_rc(value.data) + 1,
    {
        value.increment_ref(host);
        RcByondValue(value)
    }

    /// The wrapped value, still guarded.
    pub fn value(&self) -> (r: ByondValue)
        ensures
            r == self.spec_value(),
    {
        self.0
    }

    /// Gives the strong reference back and hands out the bare value, which
    /// is transient again from this point on.
    pub fn release(self, host: &mut Host) -> (r: ByondValue)
        requires
            old(host).wf(),
        ensures
            final(host).wf(),
            r == self.spec_value(),
            old(host).same_strings(*final(host)),
            old(host).same_cells(*final(host)),
            old(host).same_world(*final(host)),
            old(host).same_crash(*final(host)),
            final(host).err_model() == old(host).err_model(),
            final(host).buffer_calls@ == old(host).buffer_calls@,
            old(host).untouched_list_entries(*final(host)),
            old(host).untouched_obj_data(*final(host)),
            old(host).rc_frame(*final(host), self.spec_value()),
            self.spec_value().tag == LIST_TAG && old(host).valid_list(self.spec_value().data)
                && old(host).list_rc(self.spec_value().data) > 0 ==> final(host).list_rc(
                self.spec_value().data,
            ) == old(host).list_rc(self.spec_value().data) - 1,
            self.spec_value().tag == DATUM_TAG && old(host).valid_obj(self.spec_value().data)
                && old(host).obj_rc(self.spec_value().data) > 0 ==> final(host).obj_rc(
                self.spec_value().data,
            ) == old(host).obj_rc(self.spec_value().data) - 1,
    {
        self.0.decrement_ref(host);
        self.0
    }
}

} // verus!
