//! Direct constructors: values built without asking the host anything.

use crate::error::Error;
use crate::host::Host;
use crate::value::{ByondValue, LIST_TAG, NULL_TAG, NUMBER_TAG, STRING_TAG, WORLD_TAG};
use vstd::prelude::*;

verus! {

impl Default for ByondValue {
    /// The default value is null.
    fn default() -> (r: Self)
        ensures
            r.tag == NULL_TAG && r.data == 0,
    {
        ByondValue::null()
    }
}

impl ByondValue {
    /// A fresh value; same as [`ByondValue::null`].
    pub fn new() -> (r: Self)
        ensures
            r.tag == NULL_TAG && r.data == 0,
    {
        ByondValue::null()
    }

    /// The zero-initialized null value.
    pub fn null() -> (r: Self)
        ensures
            r.tag == NULL_TAG && r.data == 0,
    {
        ByondValue { tag: NULL_TAG, data: 0 }
    }

    /// A reference-typed value built directly from a tag and a handle, with
    /// no host validation; the caller answers for their consistency, exactly
    /// as the host does for the values it supplies.
    pub fn new_ref(typ: u8, ptr: u32) -> (r: Self)
        ensures
            r.tag == typ && r.data == ptr,
    {
        ByondValue { tag: typ, data: ptr }
    }

    /// A number value holding the given IEEE-754 single-precision bits.
    pub fn new_num(bits: u32) -> (r: Self)
        ensures
            r.tag == NUMBER_TAG && r.data == bits,
    {
        ByondValue { tag: NUMBER_TAG, data: bits }
    }

    /// The reference to the world singleton.
    pub fn new_global_ref() -> (r: Self)
        ensures
            r.tag == WORLD_TAG && r.data == 1,
    {
        ByondValue { tag: WORLD_TAG, data: 1 }
    }

    /// A string value holding the identifier the host interned for the
    /// given bytes; fails with the unable-to-create error, carrying the
    /// rejected bytes, when the host refuses to intern them (an embedded
    /// NUL byte, or table exhaustion).
    pub fn new_str(host: &mut Host, s: &Vec<u8>) -> (r: Result<Self, Error>)
        requires
            old(host).wf(),
        ensures
            final(host).wf(),
            old(host).same_lists(*final(host)),
            old(host).same_objects(*final(host)),
            old(host).same_cells(*final(host)),
            old(host).same_world(*final(host)),
            old(host).same_crash(*final(host)),
            final(host).err_model() == old(host).err_model(),
            final(host).buffer_calls@ == old(host).buffer_calls@,
            r matches Ok(v) ==> v.tag == STRING_TAG && final(host).valid_str(v.data) && final(host).str_at(v.data) == s@,
            r is Err ==> (r matches Err(e) && e matches Error::UnableToCreateString(b) && b@ == s@
                && old(host).same_strings(*final(host))),
            crate::host::no_nul(s@) && s@.len() <= crate::host::MAX_STR_LEN as int && (old(host).has_str(s@) || old(host).table().len() < crate::host::STR_ID_NONE as int) ==> r
                is Ok,
    {
        let id = host.add_get_str_id(s);
        if id == crate::host::STR_ADD_FAILED {
            Err(Error::UnableToCreateString(s.clone()))
        } else {
            Ok(ByondValue { tag: STRING_TAG, data: id })
        }
    }

    /// A fresh, empty host list; fails when the host is out of list
    /// storage.
    pub fn new_list(host: &mut Host) -> (r: Result<Self, Error>)
        requires
            old(host).wf(),
        ensures
            final(host).wf(),
            old(host).same_strings(*final(host)),
            old(host).same_objects(*final(host)),
            old(host).same_cells(*final(host)),
            old(host).same_world(*final(host)),
            old(host).same_crash(*final(host)),
            final(host).buffer_calls@ == old(host).buffer_calls@,
            final(host).n_lists() >= old(host).n_lists(),
            forall|g: u32|
                old(host).valid_list(g) ==> #[trigger] final(host).list_at(g) == old(host).list_at(g) && final(host).list_rc(g) == old(host).list_rc(g),
            old(host).n_lists() < 0xffff_fffe ==> (r matches Ok(v) && v.tag == LIST_TAG && v.data
                as int == old(host).n_lists() && final(host).n_lists() == old(host).n_lists() + 1
                && final(host).list_at(v.data) == Seq::<crate::host::ListEntry>::empty() && final(host).list_rc(v.data) == 1 && final(host).err_model() == old(host).err_model()),
            old(host).n_lists() >= 0xffff_fffe ==> (r matches Err(e) && e is ByondError && old(host).same_lists(*final(host))),
    {
        match host.create_list() {
            Some(h) => Ok(ByondValue { tag: LIST_TAG, data: h }),
            None => Err(Error::get_last_byond_error(host)),
        }
    }
}

} // verus!
