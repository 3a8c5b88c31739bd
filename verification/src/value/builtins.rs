//! Host built-ins that are not tied to one value kind: length and object
//! construction.

use crate::error::Error;
use crate::host::Host;
use crate::value::{ByondValue, DATUM_TAG, LIST_TAG, STRING_TAG};
use vstd::prelude::*;

verus! {

impl ByondValue {
    /// The host's length builtin: the byte length of a string or the entry
    /// count of a list, as a number value; fails for anything else.
    pub fn builtin_length(&self, host: &mut Host) -> (r: Result<ByondValue, Error>)
        requires
            old(host).wf(),
        ensures
            final(host).wf(),
            old(host).same_but_err(*final(host)),
            final(host).buffer_calls@ == old(host).buffer_calls@,
            self.tag == STRING_TAG && old(host).valid_str(self.data) ==> r == Ok::<
                ByondValue,
                Error,
            >(
                crate::value::num_value(
                    crate::bits32::bits_of_u24(old(host).str_at(self.data).len() as u32),
                ),
            ),
            self.tag == LIST_TAG && old(host).valid_list(self.data) ==> r == Ok::<
                ByondValue,
                Error,
            >(
                crate::value::num_value(
                    crate::bits32::bits_of_u24(old(host).list_at(self.data).len() as u32),
                ),
            ),
            !(self.tag == STRING_TAG && old(host).valid_str(self.data)) && !(self.tag == LIST_TAG
                && old(host).valid_list(self.data)) ==> (r matches Err(e) && e is ByondError),
    {
        match host.length_of(*self) {
            Some(v) => Ok(v),
            None => Err(Error::get_last_byond_error(host)),
        }
    }

    /// Asks the host to construct a fresh object of the type named by the
    /// given path string, with positional constructor arguments (which the
    /// host's initializer consumes). Fails when the type is not a valid
    /// path string or the host is out of object storage.
    pub fn builtin_new(host: &mut Host, value_type: ByondValue, arglist: &Vec<ByondValue>) -> (r:
        Result<ByondValue, Error>)
        requires
            old(host).wf(),
        ensures
            final(host).wf(),
            old(host).same_strings(*final(host)),
            old(host).same_lists(*final(host)),
            old(host).same_cells(*final(host)),
            old(host).same_world(*final(host)),
            old(host).same_crash(*final(host)),
            final(host).buffer_calls@ == old(host).buffer_calls@,
            final(host).n_objects() >= old(host).n_objects(),
            forall|g: u32|
                old(host).valid_obj(g) ==> #[trigger] final(host).obj_vars(g) == old(host).obj_vars(g) && final(host).obj_path(g) == old(host).obj_path(g) && final(host).obj_rc(g) == old(host).obj_rc(g),
            value_type.tag == STRING_TAG && old(host).valid_str(value_type.data) && old(host).n_objects() < 0xffff_fffe ==> (r matches Ok(v) && v.tag == DATUM_TAG && v.data as int
                == old(host).n_objects() && final(host).n_objects() == old(host).n_objects() + 1
                && final(host).obj_path(v.data) == value_type.data && final(host).obj_vars(v.data)
                == Seq::<crate::host::VarEntry>::empty() && final(host).obj_rc(v.data) == 1),
            !(value_type.tag == STRING_TAG && old(host).valid_str(value_type.data)) ==> (r
                matches Err(e) && e is ByondError && final(host).n_objects() == old(host).n_objects()),
    {
        if value_type.get_type() != STRING_TAG || (value_type.data as usize)
            >= host.strings.len() {
            host.set_error("cannot create an object of this type");
            return Err(Error::get_last_byond_error(host));
        }
        let _ = arglist;
        match host.create_object(value_type.data) {
            Some(h) => Ok(ByondValue::new_ref(DATUM_TAG, h)),
            None => Err(Error::get_last_byond_error(host)),
        }
    }

    /// Like [`ByondValue::builtin_new`], but takes the constructor
    /// arguments as a host list; fails with the list-expected error when
    /// the argument value is not one.
    pub fn builtin_newarglist(host: &mut Host, value_type: ByondValue, arglist: ByondValue) -> (r:
        Result<ByondValue, Error>)
        requires
            old(host).wf(),
        ensures
            final(host).wf(),
            old(host).same_strings(*final(host)),
            old(host).same_lists(*final(host)),
            old(host).same_cells(*final(host)),
            old(host).same_world(*final(host)),
            old(host).same_crash(*final(host)),
            final(host).buffer_calls@ == old(host).buffer_calls@,
            final(host).n_objects() >= old(host).n_objects(),
            forall|g: u32|
                old(host).valid_obj(g) ==> #[trigger] final(host).obj_vars(g) == old(host).obj_vars(g) && final(host).obj_path(g) == old(host).obj_path(g) && final(host).obj_rc(g) == old(host).obj_rc(g),
            arglist.tag != LIST_TAG ==> (r == Err::<ByondValue, Error>(Error::NotAList(arglist))
                && final(host).n_objects() == old(host).n_objects() && final(host).err_model()
                == old(host).err_model()),
            arglist.tag == LIST_TAG && value_type.tag == STRING_TAG && old(host).valid_str(
                value_type.data,
            ) && old(host).n_objects() < 0xffff_fffe ==> (r matches Ok(v) && v.tag == DATUM_TAG
                && v.data as int == old(host).n_objects() && final(host).n_objects() == old(host).n_objects() + 1 && final(host).obj_path(v.data) == value_type.data),
            arglist.tag == LIST_TAG && !(value_type.tag == STRING_TAG && old(host).valid_str(
                value_type.data,
            )) ==> (r matches Err(e) && e is ByondError && final(host).n_objects() == old(host).n_objects()),
    {
        if !arglist.is_list() {
            return Err(Error::NotAList(arglist));
        }
        let empty: Vec<ByondValue> = Vec::new();
        ByondValue::builtin_new(host, value_type, &empty)
    }
}

} // verus!
