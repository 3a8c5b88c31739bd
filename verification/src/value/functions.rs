//! Typed extraction, in-place modification, variable access, proc
//! invocation and reference counting on dynamic values.

use crate::bits32::{is_nan_bits, is_zero_bits};
use crate::buffer::ScratchBuffer;
use crate::error::Error;
use crate::host::{var_read_of, var_write_of, Host, STR_ID_NONE};
use crate::value::{
    ByondValue, DATUM_TAG, LIST_TAG, NULL_TAG, NUMBER_TAG, POINTER_TAG, STRING_TAG,
};
use vstd::prelude::*;
use vstd::utf8::{decode_utf8, valid_utf8};

verus! {

/// Values that expose no named variables: everything but a host object
/// reference.
pub open spec fn not_referencable(v: ByondValue) -> bool {
    v.tag == NULL_TAG || v.tag == NUMBER_TAG || v.tag == STRING_TAG || v.tag == POINTER_TAG
        || v.tag == LIST_TAG
}

/// The number bits read as at least one when truncated to an unsigned
/// integer: not NaN, not negative, and no smaller than one.
pub open spec fn at_least_one_bits(bits: u32) -> bool {
    !is_nan_bits(bits) && bits < 0x8000_0000 && bits >= 0x3f80_0000
}

/// True when the host would treat the value as true: null is false, a
/// number is true unless it is zero, a string is true when its content is
/// non-empty, and every object reference is true.
pub open spec fn spec_is_true(host: Host, v: ByondValue) -> bool {
    if v.tag == NULL_TAG {
        false
    } else if v.tag == NUMBER_TAG {
        !is_zero_bits(v.data)
    } else if v.tag == STRING_TAG {
        host.valid_str(v.data) && host.str_at(v.data).len() > 0
    } else {
        true
    }
}

impl ByondValue {
    /// Truthiness by the host's rule.
    pub fn is_true(&self, host: &Host) -> (r: bool)
        requires
            host.wf(),
        ensures
            r == spec_is_true(*host, *self),
    {
        if self.tag == NULL_TAG {
            false
        } else if self.tag == NUMBER_TAG {
            let a = if self.data >= 0x8000_0000 {
                self.data - 0x8000_0000
            } else {
                self.data
            };
            a != 0
        } else if self.tag == STRING_TAG {
            (self.data as usize) < host.strings.len() && host.strings[self.data as usize].len() > 0
        } else {
            true
        }
    }

    /// The truth value of a number, or the number-expected failure with the
    /// offending value: at least one is true, anything below is false.
    pub fn get_bool(&self) -> (r: Result<bool, Error>)
        ensures
            self.tag == NUMBER_TAG ==> r == Ok::<bool, Error>(at_least_one_bits(self.data)),
            self.tag != NUMBER_TAG ==> r == Err::<bool, Error>(Error::NotANum(*self)),
    {
        if self.tag == NUMBER_TAG {
            let nan = {
                let a = if self.data >= 0x8000_0000 {
                    self.data - 0x8000_0000
                } else {
                    self.data
                };
                a > 0x7f80_0000
            };
            Ok(!nan && self.data < 0x8000_0000 && self.data >= 0x3f80_0000)
        } else {
            Err(Error::NotANum(*self))
        }
    }

    /// The number's payload bits, exactly as constructed, or the
    /// number-expected failure with the offending value.
    pub fn get_number(&self) -> (r: Result<u32, Error>)
        ensures
            self.tag == NUMBER_TAG ==> r == Ok::<u32, Error>(self.data),
            self.tag != NUMBER_TAG ==> r == Err::<u32, Error>(Error::NotANum(*self)),
    {
        if self.tag == NUMBER_TAG {
            Ok(self.data)
        } else {
            Err(Error::NotANum(*self))
        }
    }

    /// The string's bytes with their terminating NUL, fetched from the host
    /// by the two-phase buffer protocol: ask with the scratch buffer's
    /// capacity; on an undersized buffer, grow to exactly the reported
    /// length and retry once. The scratch buffer's storage is taken for the
    /// result, leaving it empty for the next use.
    pub fn get_cstring(&self, host: &mut Host, buf: &mut ScratchBuffer) -> (r: Result<
        Vec<u8>,
        Error,
    >)
        requires
            old(host).wf(),
        ensures
            final(host).wf(),
            old(host).same_but_err(*final(host)),
            self.tag == STRING_TAG ==> final(buf).capacity == 0,
            self.tag != STRING_TAG ==> (r == Err::<Vec<u8>, Error>(Error::NotAString(*self))
                && final(host).buffer_calls@ == old(host).buffer_calls@ && *final(buf) == *old(buf)),
            self.tag == STRING_TAG && !old(host).valid_str(self.data) ==> (r matches Err(e)
                && e is ByondError && final(host).buffer_calls@ == old(host).buffer_calls@ + 1),
            self.tag == STRING_TAG && old(host).valid_str(self.data) ==> (r matches Ok(b) && b@
                == old(host).str_at(self.data).push(0u8)),
            self.tag == STRING_TAG && old(host).valid_str(self.data) && old(host).str_at(
                self.data,
            ).len() + 1 <= old(buf).capacity as int ==> final(host).buffer_calls@ == old(host).buffer_calls@ + 1,
            self.tag == STRING_TAG && old(host).valid_str(self.data) && old(host).str_at(
                self.data,
            ).len() + 1 > old(buf).capacity as int ==> final(host).buffer_calls@ == old(host).buffer_calls@ + 2,
    {
        if self.tag != STRING_TAG {
            return Err(Error::NotAString(*self));
        }
        let cap = buf.capacity;
        buf.capacity = 0;
        let (ok, len, data) = host.to_string_bulk(*self, cap);
        if ok {
            Ok(data)
        } else if len > 0 {
            let (ok2, _len2, data2) = host.to_string_bulk(*self, len);
            if ok2 {
                Ok(data2)
            } else {
                Err(Error::get_last_byond_error(host))
            }
        } else {
            Err(Error::get_last_byond_error(host))
        }
    }

    /// The string's content as UTF-8 text: the NUL-terminated bytes are
    /// fetched by [`ByondValue::get_cstring`] and decoded, failing with the
    /// not-UTF-8 error when they do not decode.
    pub fn get_string(&self, host: &mut Host) -> (r: Result<String, Error>)
        requires
            old(host).wf(),
        ensures
            final(host).wf(),
            old(host).same_but_err(*final(host)),
            self.tag != STRING_TAG ==> r == Err::<String, Error>(Error::NotAString(*self)),
            self.tag == STRING_TAG && !old(host).valid_str(self.data) ==> (r matches Err(e)
                && e is ByondError),
            self.tag == STRING_TAG && old(host).valid_str(self.data) && valid_utf8(
                old(host).str_at(self.data),
            ) ==> (r matches Ok(s) && s@ == decode_utf8(old(host).str_at(self.data))),
            self.tag == STRING_TAG && old(host).valid_str(self.data) && !valid_utf8(
                old(host).str_at(self.data),
            ) ==> r == Err::<String, Error>(Error::NonUtf8String),
    {
        let mut buf = ScratchBuffer::new();
        let mut bytes = match self.get_cstring(host, &mut buf) {
            Ok(b) => b,
            Err(e) => {
                return Err(e);
            },
        };
        bytes.pop();
        proof {
            assert(bytes@ =~= old(host).str_at(self.data));
        }
        match crate::text::string_from_utf8(bytes) {
            Some(s) => Ok(s),
            None => Err(Error::NonUtf8String),
        }
    }

    /// The handle carried by a reference-typed value, or the
    /// not-referencable failure with the offending value for null, numbers
    /// and strings, which carry no handle.
    pub fn get_ref(&self) -> (r: Result<u32, Error>)
        ensures
            self.tag == STRING_TAG || self.tag == NULL_TAG || self.tag == NUMBER_TAG ==> r == Err::<
                u32,
                Error,
            >(Error::NotReferencable(*self)),
            !(self.tag == STRING_TAG || self.tag == NULL_TAG || self.tag == NUMBER_TAG) ==> r
                == Ok::<u32, Error>(self.data),
    {
        if self.tag == STRING_TAG || self.tag == NULL_TAG || self.tag == NUMBER_TAG {
            Err(Error::NotReferencable(*self))
        } else {
            Ok(self.data)
        }
    }

    /// The interned identifier of a string value, or the string-expected
    /// failure with the offending value.
    pub fn get_strid(&self) -> (r: Result<u32, Error>)
        ensures
            self.tag == STRING_TAG ==> r == Ok::<u32, Error>(self.data),
            self.tag != STRING_TAG ==> r == Err::<u32, Error>(Error::NotAString(*self)),
    {
        if self.tag == STRING_TAG {
            Ok(self.data)
        } else {
            Err(Error::NotAString(*self))
        }
    }

    /// Replaces the whole value with a number holding the given bits.
    pub fn set_number(&mut self, bits: u32)
        ensures
            *final(self) == crate::value::num_value(bits),
    {
        self.tag = NUMBER_TAG;
        self.data = bits;
    }

    /// Replaces the whole value with a string interned from the given
    /// bytes; on the host's refusal the value becomes null and the
    /// unable-to-create failure carries the rejected bytes.
    pub fn set_str(&mut self, host: &mut Host, s: &Vec<u8>) -> (r: Result<(), Error>)
        requires
            old(host).wf(),
        ensures
            final(host).wf(),
            old(host).same_lists(*final(host)),
            old(host).same_objects(*final(host)),
            old(host).same_cells(*final(host)),
            old(host).same_world(*final(host)),
            old(host).same_crash(*final(host)),
            final(host).err_model() == old(host).err_model(),
            final(host).buffer_calls@ == old(host).buffer_calls@,
            r is Ok ==> final(self).tag == STRING_TAG && final(host).valid_str(final(self).data)
                && final(host).str_at(final(self).data) == s@,
            r is Err ==> (r matches Err(e) && e matches Error::UnableToCreateString(b) && b@
                == s@ && *final(self) == crate::value::null_value() && old(host).same_strings(
                *final(host),
            )),
            crate::host::no_nul(s@) && s@.len() <= crate::host::MAX_STR_LEN as int && (old(host).has_str(s@) || old(host).table().len() < STR_ID_NONE as int) ==> r is Ok,
    {
        let id = host.add_get_str_id(s);
        if id == crate::host::STR_ADD_FAILED {
            self.tag = NULL_TAG;
            self.data = 0;
            Err(Error::UnableToCreateString(s.clone()))
        } else {
            self.tag = STRING_TAG;
            self.data = id;
            Ok(())
        }
    }

    /// Replaces the whole value with a reference built from a tag and a
    /// handle, unvalidated, exactly as direct construction does.
    pub fn set_ref(&mut self, type_: u8, ref_: u32)
        ensures
            final(self).tag == type_ && final(self).data == ref_,
    {
        self.tag = type_;
        self.data = ref_;
    }

    /// Reads a named variable through the reference. Fails with the
    /// not-referencable error for values that expose no variables; a name
    /// the host never interned, a handle the host does not own, and an
    /// unbound variable surface the host's failure.
    pub fn read_var(&self, host: &mut Host, name: &Vec<u8>) -> (r: Result<ByondValue, Error>)
        requires
            old(host).wf(),
        ensures
            final(host).wf(),
            old(host).same_but_err(*final(host)),
            final(host).buffer_calls@ == old(host).buffer_calls@,
            not_referencable(*self) ==> r == Err::<ByondValue, Error>(
                Error::NotReferencable(*self),
            ),
            !not_referencable(*self) && !(self.tag == DATUM_TAG && old(host).valid_obj(self.data))
                ==> (r matches Err(e) && e is ByondError),
            self.tag == DATUM_TAG && old(host).valid_obj(self.data) && !old(host).has_str(name@)
                ==> (r matches Err(e) && e is ByondError),
            self.tag == DATUM_TAG && old(host).valid_obj(self.data) ==> (forall|id: u32|
                old(host).valid_str(id) && old(host).str_at(id) == name@ ==> (var_read_of(
                    old(host).obj_vars(self.data),
                    id,
                ) matches Some(v) ==> r == Ok::<ByondValue, Error>(v))),
            (self.tag == DATUM_TAG && old(host).valid_obj(self.data) && (forall|id: u32|
                old(host).valid_str(id) && old(host).str_at(id) == name@ ==> var_read_of(
                    old(host).obj_vars(self.data),
                    id,
                ) is None)) ==> (r matches Err(e) && e is ByondError),
    {
        if self.is_num() || self.is_str() || self.is_ptr() || self.is_null() || self.is_list() {
            return Err(Error::NotReferencable(*self));
        }
        let id = host.get_str_id(name);
        if id == STR_ID_NONE {
            host.set_error("no such variable");
            return Err(Error::get_last_byond_error(host));
        }
        match host.obj_read_var(*self, id) {
            Some(v) => Ok(v),
            None => Err(Error::get_last_byond_error(host)),
        }
    }

    /// Writes a named variable through the reference, delegating to the
    /// host; any host-reported failure (no such object, name never
    /// interned) comes back as its error.
    pub fn write_var(&mut self, host: &mut Host, name: &Vec<u8>, other: &ByondValue) -> (r: Result<
        (),
        Error,
    >)
        requires
            old(host).wf(),
        ensures
            final(host).wf(),
            *final(self) == *old(self),
            old(host).same_strings(*final(host)),
            old(host).same_lists(*final(host)),
            old(host).same_cells(*final(host)),
            old(host).same_world(*final(host)),
            old(host).same_crash(*final(host)),
            final(host).buffer_calls@ == old(host).buffer_calls@,
            final(host).n_objects() == old(host).n_objects(),
            forall|g: u32|
                old(host).valid_obj(g) && g != old(self).data ==> #[trigger] final(host).obj_vars(g)
                    == old(host).obj_vars(g),
            forall|g: u32|
                old(host).valid_obj(g) ==> #[trigger] final(host).obj_path(g) == old(host).obj_path(g) && final(host).obj_rc(g) == old(host).obj_rc(g),
            r is Ok <==> (old(self).tag == DATUM_TAG && old(host).valid_obj(old(self).data) && old(host).has_str(name@)),
            r is Ok ==> exists|id: u32|
                old(host).valid_str(id) && old(host).str_at(id) == name@ && final(host).obj_vars(
                    old(self).data,
                ) == var_write_of(old(host).obj_vars(old(self).data), id, *other),
            r is Err ==> (r matches Err(e) && e is ByondError && old(host).same_objects(
                *final(host),
            )),
    {
        let id = host.get_str_id(name);
        if id == STR_ID_NONE {
            host.set_error("no such variable");
            return Err(Error::get_last_byond_error(host));
        }
        if host.obj_write_var(*self, id, *other) {
            Ok(())
        } else {
            Err(Error::get_last_byond_error(host))
        }
    }

    /// Calls a proc by name with this value as the receiver, resolving the
    /// name first: an unresolvable name is the invalid-proc failure carrying
    /// the name, and the host's refusal to run the proc surfaces as its
    /// error. The call is synchronous and never waits on host scheduling.
    pub fn call(&self, host: &mut Host, name: &Vec<u8>, args: &Vec<ByondValue>) -> (r: Result<
        ByondValue,
        Error,
    >)
        requires
            old(host).wf(),
        ensures
            final(host).wf(),
            old(host).same_strings(*final(host)),
            old(host).same_objects(*final(host)),
            old(host).same_cells(*final(host)),
            old(host).same_world(*final(host)),
            old(host).same_crash(*final(host)),
            final(host).buffer_calls@ == old(host).buffer_calls@,
            final(host).n_lists() == old(host).n_lists(),
            forall|g: u32|
                old(host).valid_list(g) && g != self.data ==> #[trigger] final(host).list_at(g)
                    == old(host).list_at(g),
            forall|g: u32|
                old(host).valid_list(g) ==> #[trigger] final(host).list_rc(g) == old(host).list_rc(g),
            !old(host).has_str(name@) ==> (r matches Err(e) && e matches Error::InvalidProc(b)
                && b@ == name@ && old(host).same_lists(*final(host))),
            old(host).has_str(name@) && !(exists|id: u32|
                old(host).valid_str(id) && old(host).str_at(id) == name@
                    && crate::host::proc_callable(*old(host), *self, id, args@)) ==> (r matches Err(
                e,
            ) && (e is ByondError || e is UnknownByondError) && old(host).same_lists(
                *final(host),
            )),
            forall|id: u32|
                (old(host).valid_str(id) && old(host).str_at(id) == name@
                    && crate::host::proc_callable(*old(host), *self, id, args@) && id
                    == crate::host::ADD_PROC_ID) ==> (r == Ok::<ByondValue, Error>(
                    crate::value::null_value(),
                ) && final(host).list_at(self.data) == old(host).list_at(self.data).push(
                    (crate::host::ListEntry { key: args@[0], val: crate::value::null_value() }),
                )),
            forall|id: u32|
                (old(host).valid_str(id) && old(host).str_at(id) == name@
                    && crate::host::proc_callable(*old(host), *self, id, args@) && id
                    == crate::host::REMOVE_PROC_ID) ==> (r is Ok && final(host).list_at(self.data)
                    == crate::host::remove_first_of(old(host).list_at(self.data), args@[0])),
    {
        let id = host.get_str_id(name);
        if id == STR_ID_NONE {
            return Err(Error::InvalidProc(name.clone()));
        }
        match host.call_proc(*self, id, args) {
            Some(v) => Ok(v),
            None => Err(Error::get_last_byond_error(host)),
        }
    }

    /// Reads a named variable through the reference by its pre-resolved
    /// identifier.
    pub fn read_var_id(&self, host: &mut Host, name: u32) -> (r: Result<ByondValue, Error>)
        requires
            old(host).wf(),
        ensures
            final(host).wf(),
            old(host).same_but_err(*final(host)),
            final(host).buffer_calls@ == old(host).buffer_calls@,
            not_referencable(*self) ==> r == Err::<ByondValue, Error>(
                Error::NotReferencable(*self),
            ),
            !not_referencable(*self) && !(self.tag == DATUM_TAG && old(host).valid_obj(self.data))
                ==> (r matches Err(e) && e is ByondError),
            self.tag == DATUM_TAG && old(host).valid_obj(self.data) ==> (var_read_of(
                old(host).obj_vars(self.data),
                name,
            ) matches Some(v) ==> r == Ok::<ByondValue, Error>(v)),
            self.tag == DATUM_TAG && old(host).valid_obj(self.data) && var_read_of(
                old(host).obj_vars(self.data),
                name,
            ) is None ==> (r matches Err(e) && e is ByondError),
    {
        if self.is_num() || self.is_str() || self.is_ptr() || self.is_null() || self.is_list() {
            return Err(Error::NotReferencable(*self));
        }
        match host.obj_read_var(*self, name) {
            Some(v) => Ok(v),
            None => Err(Error::get_last_byond_error(host)),
        }
    }

    /// Writes a named variable through the reference by its pre-resolved
    /// identifier.
    pub fn write_var_id(&mut self, host: &mut Host, name: u32, other: &ByondValue) -> (r: Result<
        (),
        Error,
    >)
        requires
            old(host).wf(),
        ensures
            final(host).wf(),
            *final(self) == *old(self),
            old(host).same_strings(*final(host)),
            old(host).same_lists(*final(host)),
            old(host).same_cells(*final(host)),
            old(host).same_world(*final(host)),
            old(host).same_crash(*final(host)),
            final(host).buffer_calls@ == old(host).buffer_calls@,
            final(host).n_objects() == old(host).n_objects(),
            forall|g: u32|
                old(host).valid_obj(g) && g != old(self).data ==> #[trigger] final(host).obj_vars(g)
                    == old(host).obj_vars(g),
            forall|g: u32|
                old(host).valid_obj(g) ==> #[trigger] final(host).obj_path(g) == old(host).obj_path(g) && final(host).obj_rc(g) == old(host).obj_rc(g),
            r is Ok <==> (old(self).tag == DATUM_TAG && old(host).valid_obj(old(self).data) && old(host).valid_str(name)),
            r is Ok ==> final(host).obj_vars(old(self).data) == var_write_of(
                old(host).obj_vars(old(self).data),
                name,
                *other,
            ),
            r is Err ==> (r matches Err(e) && e is ByondError && old(host).same_objects(
                *final(host),
            )),
    {
        if host.obj_write_var(*self, name, *other) {
            Ok(())
        } else {
            Err(Error::get_last_byond_error(host))
        }
    }

    /// Calls a proc by its pre-resolved identifier with this value as the
    /// receiver.
    pub fn call_id(&self, host: &mut Host, name: u32, args: &Vec<ByondValue>) -> (r: Result<
        ByondValue,
        Error,
    >)
        requires
            old(host).wf(),
        ensures
            final(host).wf(),
            old(host).same_strings(*final(host)),
            old(host).same_objects(*final(host)),
            old(host).same_cells(*final(host)),
            old(host).same_world(*final(host)),
            old(host).same_crash(*final(host)),
            final(host).buffer_calls@ == old(host).buffer_calls@,
            final(host).n_lists() == old(host).n_lists(),
            forall|g: u32|
                old(host).valid_list(g) && g != self.data ==> #[trigger] final(host).list_at(g)
                    == old(host).list_at(g),
            forall|g: u32|
                old(host).valid_list(g) ==> #[trigger] final(host).list_rc(g) == old(host).list_rc(g),
            !crate::host::proc_callable(*old(host), *self, name, args@) ==> (r matches Err(e) && (
            e is ByondError || e is UnknownByondError) && old(host).same_lists(*final(host))),
            crate::host::proc_callable(*old(host), *self, name, args@) && name
                == crate::host::ADD_PROC_ID ==> (r == Ok::<ByondValue, Error>(
                crate::value::null_value(),
            ) && final(host).list_at(self.data) == old(host).list_at(self.data).push(
                (crate::host::ListEntry { key: args@[0], val: crate::value::null_value() }),
            )),
            crate::host::proc_callable(*old(host), *self, name, args@) && name
                == crate::host::REMOVE_PROC_ID ==> (r is Ok && final(host).list_at(self.data)
                == crate::host::remove_first_of(old(host).list_at(self.data), args@[0])),
    {
        match host.call_proc(*self, name, args) {
            Some(v) => Ok(v),
            None => Err(Error::get_last_byond_error(host)),
        }
    }

    /// Takes one more host-tracked strong reference on the value; a no-op
    /// for values that carry none. Not called implicitly by anything except
    /// the reference-counted wrapper.
    pub fn increment_ref(&self, host: &mut Host)
        requires
            old(host).wf(),
        ensures
            final(host).wf(),
            self.tag == LIST_TAG && old(host).valid_list(self.data) && old(host).list_rc(self.data)
                < 0xffff_ffff ==> final(host).list_rc(self.data) == old(host).list_rc(self.data)
                + 1,
            self.tag == DATUM_TAG && old(host).valid_obj(self.data) && old(host).obj_rc(self.data)
                < 0xffff_ffff ==> final(host).obj_rc(self.data) == old(host).obj_rc(self.data) + 1,
            old(host).same_strings(*final(host)),
            old(host).same_cells(*final(host)),
            old(host).same_world(*final(host)),
            old(host).same_crash(*final(host)),
            final(host).err_model() == old(host).err_model(),
            final(host).buffer_calls@ == old(host).buffer_calls@,
            old(host).untouched_list_entries(*final(host)),
            old(host).untouched_obj_data(*final(host)),
            old(host).rc_frame(*final(host), *self),
    {
        host.inc_ref(*self);
    }

    /// Releases one host-tracked strong reference on the value; a no-op for
    /// values that carry none.
    pub fn decrement_ref(&self, host: &mut Host)
        requires
            old(host).wf(),
        ensures
            final(host).wf(),
            self.tag == LIST_TAG && old(host).valid_list(self.data) && old(host).list_rc(self.data)
                > 0 ==> final(host).list_rc(self.data) == old(host).list_rc(self.data) - 1,
            self.tag == DATUM_TAG && old(host).valid_obj(self.data) && old(host).obj_rc(self.data)
                > 0 ==> final(host).obj_rc(self.data) == old(host).obj_rc(self.data) - 1,
            old(host).same_strings(*final(host)),
            old(host).same_cells(*final(host)),
            old(host).same_world(*final(host)),
            old(host).same_crash(*final(host)),
            final(host).err_model() == old(host).err_model(),
            final(host).buffer_calls@ == old(host).buffer_calls@,
            old(host).untouched_list_entries(*final(host)),
            old(host).untouched_obj_data(*final(host)),
            old(host).rc_frame(*final(host), *self),
    {
        host.dec_ref(*self);
    }

    /// The host-tracked strong-reference count of the value, or the host's
    /// failure for values that carry none.
    pub fn get_refcount(&self, host: &mut Host) -> (r: Result<u32, Error>)
        requires
            old(host).wf(),
        ensures
            final(host).wf(),
            old(host).same_but_err(*final(host)),
            final(host).buffer_calls@ == old(host).buffer_calls@,
            self.tag == LIST_TAG && old(host).valid_list(self.data) ==> r == Ok::<u32, Error>(
                old(host).list_rc(self.data),
            ),
            self.tag == DATUM_TAG && old(host).valid_obj(self.data) ==> r == Ok::<u32, Error>(
                old(host).obj_rc(self.data),
            ),
            !(self.tag == LIST_TAG && old(host).valid_list(self.data)) && !(self.tag == DATUM_TAG
                && old(host).valid_obj(self.data)) ==> (r matches Err(e) && e is ByondError),
    {
        match host.refcount_of(*self) {
            Some(c) => Ok(c),
            None => Err(Error::get_last_byond_error(host)),
        }
    }
}

impl ByondValue {
    /// Reads a variable and extracts the number bits from it; fails when
    /// this is not an object reference or the variable holds no number.
    pub fn read_number(&self, host: &mut Host, name: &Vec<u8>) -> (r: Result<u32, Error>)
        requires
            old(host).wf(),
        ensures
            final(host).wf(),
            old(host).same_but_err(*final(host)),
            final(host).buffer_calls@ == old(host).buffer_calls@,
            not_referencable(*self) ==> r == Err::<u32, Error>(Error::NotReferencable(*self)),
            self.tag == DATUM_TAG && old(host).valid_obj(self.data) ==> (forall|id: u32|
                old(host).valid_str(id) && old(host).str_at(id) == name@ ==> (var_read_of(
                    old(host).obj_vars(self.data),
                    id,
                ) matches Some(v) ==> r == (if v.tag == NUMBER_TAG {
                    Ok::<u32, Error>(v.data)
                } else {
                    Err::<u32, Error>(Error::NotANum(v))
                }))),
    {
        match self.read_var(host, name) {
            Ok(v) => v.get_number(),
            Err(e) => Err(e),
        }
    }

    /// Reads a variable and extracts its text; fails when this is not an
    /// object reference or the variable holds no string.
    pub fn read_string(&self, host: &mut Host, name: &Vec<u8>) -> (r: Result<String, Error>)
        requires
            old(host).wf(),
        ensures
            final(host).wf(),
            old(host).same_but_err(*final(host)),
            not_referencable(*self) ==> r == Err::<String, Error>(Error::NotReferencable(*self)),
            self.tag == DATUM_TAG && old(host).valid_obj(self.data) ==> (forall|id: u32|
                old(host).valid_str(id) && old(host).str_at(id) == name@ ==> (var_read_of(
                    old(host).obj_vars(self.data),
                    id,
                ) matches Some(v) ==> ((v.tag != STRING_TAG ==> r == Err::<String, Error>(
                    Error::NotAString(v),
                )) && (v.tag == STRING_TAG && old(host).valid_str(v.data) && valid_utf8(
                    old(host).str_at(v.data),
                ) ==> (r matches Ok(s) && s@ == decode_utf8(old(host).str_at(v.data))))))),
    {
        match self.read_var(host, name) {
            Ok(v) => v.get_string(host),
            Err(e) => Err(e),
        }
    }

    /// Reads a variable and fetches the list behind it, flattened for
    /// associative use; fails when this is not an object reference or the
    /// variable holds no list.
    pub fn read_list(&self, host: &mut Host, name: &Vec<u8>) -> (r: Result<Vec<ByondValue>, Error>)
        requires
            old(host).wf(),
        ensures
            final(host).wf(),
            old(host).same_but_err(*final(host)),
            not_referencable(*self) ==> r == Err::<Vec<ByondValue>, Error>(
                Error::NotReferencable(*self),
            ),
            self.tag == DATUM_TAG && old(host).valid_obj(self.data) ==> (forall|id: u32|
                old(host).valid_str(id) && old(host).str_at(id) == name@ ==> (var_read_of(
                    old(host).obj_vars(self.data),
                    id,
                ) matches Some(v) ==> ((v.tag != LIST_TAG ==> r == Err::<Vec<ByondValue>, Error>(
                    Error::NotAList(v),
                )) && (v.tag == LIST_TAG && old(host).valid_list(v.data) ==> (r matches Ok(w) && w@
                    == crate::host::interleaved_of(old(host).list_at(v.data))))))),
    {
        match self.read_var(host, name) {
            Ok(v) => {
                let mut buf = ScratchBuffer::new();
                v.get_list(host, &mut buf)
            },
            Err(e) => Err(e),
        }
    }

    /// Reads a variable by pre-resolved identifier and extracts the number
    /// bits from it.
    pub fn read_number_id(&self, host: &mut Host, id: u32) -> (r: Result<u32, Error>)
        requires
            old(host).wf(),
        ensures
            final(host).wf(),
            old(host).same_but_err(*final(host)),
            final(host).buffer_calls@ == old(host).buffer_calls@,
            not_referencable(*self) ==> r == Err::<u32, Error>(Error::NotReferencable(*self)),
            self.tag == DATUM_TAG && old(host).valid_obj(self.data) ==> (var_read_of(
                old(host).obj_vars(self.data),
                id,
            ) matches Some(v) ==> r == (if v.tag == NUMBER_TAG {
                Ok::<u32, Error>(v.data)
            } else {
                Err::<u32, Error>(Error::NotANum(v))
            })),
    {
        match self.read_var_id(host, id) {
            Ok(v) => v.get_number(),
            Err(e) => Err(e),
        }
    }

    /// Reads a variable by pre-resolved identifier and extracts its text.
    pub fn read_string_id(&self, host: &mut Host, id: u32) -> (r: Result<String, Error>)
        requires
            old(host).wf(),
        ensures
            final(host).wf(),
            old(host).same_but_err(*final(host)),
            not_referencable(*self) ==> r == Err::<String, Error>(Error::NotReferencable(*self)),
            self.tag == DATUM_TAG && old(host).valid_obj(self.data) ==> (var_read_of(
                old(host).obj_vars(self.data),
                id,
            ) matches Some(v) ==> ((v.tag != STRING_TAG ==> r == Err::<String, Error>(
                Error::NotAString(v),
            )) && (v.tag == STRING_TAG && old(host).valid_str(v.data) && valid_utf8(
                old(host).str_at(v.data),
            ) ==> (r matches Ok(s) && s@ == decode_utf8(old(host).str_at(v.data)))))),
    {
        match self.read_var_id(host, id) {
            Ok(v) => v.get_string(host),
            Err(e) => Err(e),
        }
    }

    /// Reads a variable by pre-resolved identifier and fetches the list
    /// behind it, flattened for associative use.
    pub fn read_list_id(&self, host: &mut Host, id: u32) -> (r: Result<Vec<ByondValue>, Error>)
        requires
            old(host).wf(),
        ensures
            final(host).wf(),
            old(host).same_but_err(*final(host)),
            not_referencable(*self) ==> r == Err::<Vec<ByondValue>, Error>(
                Error::NotReferencable(*self),
            ),
            self.tag == DATUM_TAG && old(host).valid_obj(self.data) ==> (var_read_of(
                old(host).obj_vars(self.data),
                id,
            ) matches Some(v) ==> ((v.tag != LIST_TAG ==> r == Err::<Vec<ByondValue>, Error>(
                Error::NotAList(v),
            )) && (v.tag == LIST_TAG && old(host).valid_list(v.data) ==> (r matches Ok(w) && w@
                == crate::host::interleaved_of(old(host).list_at(v.data)))))),
    {
        match self.read_var_id(host, id) {
            Ok(v) => {
                let mut buf = ScratchBuffer::new();
                v.get_list(host, &mut buf)
            },
            Err(e) => Err(e),
        }
    }

    /// A cursor over the list's stored values; fails with the list-expected
    /// error when this value is not a list. The cursor walks a fixed index
    /// range by repeated 1-based index reads and is not restartable.
    pub fn values(&self, host: &mut Host) -> (r: Result<ValueIterator, Error>)
        requires
            old(host).wf(),
        ensures
            final(host).wf(),
            old(host).same_but_err(*final(host)),
            final(host).buffer_calls@ == old(host).buffer_calls@,
            self.tag != LIST_TAG ==> r == Err::<ValueIterator, Error>(Error::NotAList(*self)),
            self.tag == LIST_TAG && !old(host).valid_list(self.data) ==> (r matches Err(e)
                && e is ByondError),
            self.tag == LIST_TAG && old(host).valid_list(self.data) ==> (r matches Ok(it)
                && it.list == *self && it.len as int == old(host).list_at(self.data).len()
                && it.ctr == 1),
    {
        if self.tag != LIST_TAG {
            return Err(Error::NotAList(*self));
        }
        let len_value = match self.builtin_length(host) {
            Ok(v) => v,
            Err(e) => {
                return Err(e);
            },
        };
        proof {
            crate::bits32::lemma_u24_roundtrip(old(host).list_at(self.data).len() as u32);
        }
        let len = match crate::bits32::decode_u24(len_value.data) {
            Some(n) => n,
            None => {
                return Err(Error::UnknownByondError);
            },
        };
        Ok(ValueIterator { list: *self, len, ctr: 1 })
    }

    /// A cursor over the list's pairs of stored and associated values;
    /// fails with the list-expected error when this value is not a list.
    /// For a slot with no association the second half of the pair is null.
    pub fn iter(&self, host: &mut Host) -> (r: Result<ListIterator, Error>)
        requires
            old(host).wf(),
        ensures
            final(host).wf(),
            old(host).same_but_err(*final(host)),
            final(host).buffer_calls@ == old(host).buffer_calls@,
            self.tag != LIST_TAG ==> r == Err::<ListIterator, Error>(Error::NotAList(*self)),
            self.tag == LIST_TAG && !old(host).valid_list(self.data) ==> (r matches Err(e)
                && e is ByondError),
            self.tag == LIST_TAG && old(host).valid_list(self.data) ==> (r matches Ok(it)
                && it.list == *self && it.len as int == old(host).list_at(self.data).len()
                && it.ctr == 1),
    {
        if self.tag != LIST_TAG {
            return Err(Error::NotAList(*self));
        }
        let len_value = match self.builtin_length(host) {
            Ok(v) => v,
            Err(e) => {
                return Err(e);
            },
        };
        proof {
            crate::bits32::lemma_u24_roundtrip(old(host).list_at(self.data).len() as u32);
        }
        let len = match crate::bits32::decode_u24(len_value.data) {
            Some(n) => n,
            None => {
                return Err(Error::UnknownByondError);
            },
        };
        Ok(ListIterator { list: *self, len, ctr: 1 })
    }
}

/// A lazy, finite, non-restartable walk over a list's stored values: an
/// internal 1-based counter is read until it passes the length taken at
/// construction, and the first failed read ends the walk rather than
/// erroring. A caller that must tell a truncated list from a finished one
/// compares against a length taken beforehand.
pub struct ValueIterator {
    /// The list being walked.
    pub list: ByondValue,
    /// The length taken when the walk began.
    pub len: u32,
    /// The next 1-based index to read.
    pub ctr: u32,
}

impl ValueIterator {
    /// The stored value at the current index, advancing the cursor; the
    /// end of the range and any failed read both end the walk.
    pub fn next(&mut self, host: &mut Host) -> (r: Option<ByondValue>)
        requires
            old(host).wf(),
        ensures
            final(host).wf(),
            old(host).same_but_err(*final(host)),
            final(host).buffer_calls@ == old(host).buffer_calls@,
            final(self).list == old(self).list && final(self).len == old(self).len,
            old(self).ctr > old(self).len || old(self).ctr >= 0x0100_0000 ==> (r is None && *final(self) == *old(self)),
            old(self).ctr <= old(self).len && old(self).ctr < 0x0100_0000 && old(self).list.tag
                == LIST_TAG && old(host).valid_list(old(self).list.data) ==> (
            match crate::host::index_read_of(
                old(host).list_at(old(self).list.data),
                crate::value::num_value(crate::bits32::bits_of_u24(old(self).ctr)),
            ) {
                Some(v) => r == Some(v) && final(self).ctr == old(self).ctr + 1,
                None => r is None && final(self).ctr == old(self).ctr,
            }),
            old(self).ctr <= old(self).len && old(self).ctr < 0x0100_0000 && !(old(self).list.tag
                == LIST_TAG && old(host).valid_list(old(self).list.data)) ==> (r is None && *final(self) == *old(self)),
    {
        if self.ctr > self.len || self.ctr >= 0x0100_0000 {
            return None;
        }
        let key = ByondValue::new_num(crate::bits32::encode_u24(self.ctr));
        match self.list.read_list_index_internal(host, &key) {
            Ok(v) => {
                self.ctr = self.ctr + 1;
                Some(v)
            },
            Err(_) => None,
        }
    }
}

/// A lazy, finite, non-restartable walk over a list's pairs: each step
/// reads the stored value at the counter, then reads that value as a key to
/// fetch its association (null for a slot without one, by the index-read
/// rule). The first failed read ends the walk rather than erroring.
pub struct ListIterator {
    /// The list being walked.
    pub list: ByondValue,
    /// The length taken when the walk began.
    pub len: u32,
    /// The next 1-based index to read.
    pub ctr: u32,
}

impl ListIterator {
    /// The pair at the current index, advancing the cursor; the end of the
    /// range and any failed read both end the walk.
    pub fn next(&mut self, host: &mut Host) -> (r: Option<(ByondValue, ByondValue)>)
        requires
            old(host).wf(),
        ensures
            final(host).wf(),
            old(host).same_but_err(*final(host)),
            final(host).buffer_calls@ == old(host).buffer_calls@,
            final(self).list == old(self).list && final(self).len == old(self).len,
            old(self).ctr > old(self).len || old(self).ctr >= 0x0100_0000 ==> (r is None && *final(self) == *old(self)),
            old(self).ctr <= old(self).len && old(self).ctr < 0x0100_0000 && old(self).list.tag
                == LIST_TAG && old(host).valid_list(old(self).list.data) ==> (
            match crate::host::index_read_of(
                old(host).list_at(old(self).list.data),
                crate::value::num_value(crate::bits32::bits_of_u24(old(self).ctr)),
            ) {
                Some(k) => (match crate::host::index_read_of(
                    old(host).list_at(old(self).list.data),
                    k,
                ) {
                    Some(v) => r == Some((k, v)) && final(self).ctr == old(self).ctr + 1,
                    None => r is None && final(self).ctr == old(self).ctr,
                }),
                None => r is None && final(self).ctr == old(self).ctr,
            }),
            old(self).ctr <= old(self).len && old(self).ctr < 0x0100_0000 && !(old(self).list.tag
                == LIST_TAG && old(host).valid_list(old(self).list.data)) ==> (r is None && *final(self) == *old(self)),
    {
        if self.ctr > self.len || self.ctr >= 0x0100_0000 {
            return None;
        }
        let key = ByondValue::new_num(crate::bits32::encode_u24(self.ctr));
        let k = match self.list.read_list_index_internal(host, &key) {
            Ok(v) => v,
            Err(_) => {
                return None;
            },
        };
        match self.list.read_list_index_internal(host, &k) {
            Ok(v) => {
                self.ctr = self.ctr + 1;
                Some((k, v))
            },
            Err(_) => None,
        }
    }
}

} // verus!
