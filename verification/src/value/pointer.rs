//! The dereferenceable pointer wrapper.
//!
//! A pointer is a value whose tag is the fixed pointer sentinel; its payload
//! names a host cell. Wrapping checks the tag once, so reads and writes
//! through the wrapper only ever fail when the host no longer backs the
//! cell.

use crate::error::Error;
use crate::host::Host;
use crate::value::{ByondValue, POINTER_TAG};
use vstd::prelude::*;

verus! {

/// A value known to carry the pointer tag.
pub struct ByondValuePointer(pub ByondValue);

impl ByondValuePointer {
    /// Wraps a value that is actually a pointer; fails with the
    /// pointer-expected error, carrying the offending value, otherwise.
    pub fn new(value: ByondValue) -> (r: Result<Self, Error>)
        ensures
            value.tag == POINTER_TAG ==> (r matches Ok(p) && p.0 == value),
            value.tag != POINTER_TAG ==> r == Err::<ByondValuePointer, Error>(
                Error::NotAPtr(value),
            ),
    {
        if value.is_ptr() {
            Ok(ByondValuePointer(value))
        } else {
            Err(Error::NotAPtr(value))
        }
    }

    /// Asks the host to dereference the pointer, yielding a fresh value
    /// owned by the caller; surfaces the host's error when the cell is not
    /// live.
    pub fn read(&self, host: &mut Host) -> (r: Result<ByondValue, Error>)
        requires
            old(host).wf(),
        ensures
            final(host).wf(),
            old(host).same_but_err(*final(host)),
            final(host).buffer_calls@ == old(host).buffer_calls@,
            self.0.tag == POINTER_TAG && old(host).valid_cell(self.0.data) ==> r == Ok::<
                ByondValue,
                Error,
            >(old(host).cell_at(self.0.data)),
            !(self.0.tag == POINTER_TAG && old(host).valid_cell(self.0.data)) ==> (r matches Err(e)
                && e is ByondError),
    {
        match host.cell_read(self.0) {
            Some(v) => Ok(v),
            None => Err(Error::get_last_byond_error(host)),
        }
    }

    /// Asks the host to store a value behind the pointer; surfaces the
    /// host's error when the cell is not live.
    pub fn write(&self, host: &mut Host, value: &ByondValue) -> (r: Result<(), Error>)
        requires
            old(host).wf(),
        ensures
            final(host).wf(),
            old(host).same_strings(*final(host)),
            old(host).same_lists(*final(host)),
            old(host).same_objects(*final(host)),
            old(host).same_world(*final(host)),
            old(host).same_crash(*final(host)),
            final(host).buffer_calls@ == old(host).buffer_calls@,
            final(host).n_cells() == old(host).n_cells(),
            forall|g: u32|
                old(host).valid_cell(g) && g != self.0.data ==> #[trigger] final(host).cell_at(g)
                    == old(host).cell_at(g),
            r is Ok <==> (self.0.tag == POINTER_TAG && old(host).valid_cell(self.0.data)),
            r is Ok ==> final(host).cell_at(self.0.data) == *value,
            r is Err ==> (r matches Err(e) && e is ByondError && old(host).same_cells(
                *final(host),
            )),
    {
        if host.cell_write(self.0, *value) {
            Ok(())
        } else {
            Err(Error::get_last_byond_error(host))
        }
    }
}

} // verus!
