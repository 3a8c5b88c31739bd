//! List marshaling: bulk reads by the two-phase buffer protocol, key and
//! index access, and push/pop built on the host's built-in procs.
//!
//! Indices are 1-based at the host boundary. Bulk reads use the two-phase
//! protocol: ask once with the scratch buffer's capacity; when the host
//! reports failure with a nonzero length, the buffer was undersized — an
//! expected, recoverable condition — so grow to exactly that length and
//! retry once. A retry that still fails, or a failure reporting length
//! zero, surfaces the host's error.

use crate::bits32::lemma_u24_roundtrip;
use crate::buffer::ScratchBuffer;
use crate::error::Error;
use crate::host::{
    find_first, index_read_of, index_write_of, interleaved_of, keys_of, remove_first_of,
    entries_of_values, Host, ListEntry, ADD_PROC_ID, MAX_LIST_LEN, REMOVE_PROC_ID,
};
use crate::value::{spec_byond_eq, ByondValue, LIST_TAG};
use vstd::prelude::*;

verus! {

impl ByondValue {
    /// All stored values of the list, in list order, by the two-phase
    /// protocol. The scratch buffer's storage is taken for the result,
    /// leaving it empty for the next use.
    pub fn get_list_values(&self, host: &mut Host, buf: &mut ScratchBuffer) -> (r: Result<
        Vec<ByondValue>,
        Error,
    >)
        requires
            old(host).wf(),
        ensures
            final(host).wf(),
            old(host).same_but_err(*final(host)),
            self.tag == LIST_TAG ==> final(buf).capacity == 0,
            self.tag != LIST_TAG ==> (r == Err::<Vec<ByondValue>, Error>(Error::NotAList(*self))
                && final(host).buffer_calls@ == old(host).buffer_calls@ && *final(buf) == *old(
                buf,
            )),
            self.tag == LIST_TAG && !old(host).valid_list(self.data) ==> (r matches Err(e)
                && e is ByondError && final(host).buffer_calls@ == old(host).buffer_calls@ + 1),
            self.tag == LIST_TAG && old(host).valid_list(self.data) ==> (r matches Ok(v) && v@
                == keys_of(old(host).list_at(self.data))),
            self.tag == LIST_TAG && old(host).valid_list(self.data) && old(host).list_at(
                self.data,
            ).len() <= old(buf).capacity as int ==> final(host).buffer_calls@ == old(host).buffer_calls@ + 1,
            self.tag == LIST_TAG && old(host).valid_list(self.data) && old(host).list_at(
                self.data,
            ).len() > old(buf).capacity as int ==> final(host).buffer_calls@ == old(host).buffer_calls@ + 2,
    {
        if self.tag != LIST_TAG {
            return Err(Error::NotAList(*self));
        }
        let cap = buf.capacity;
        buf.capacity = 0;
        let (ok, len, data) = host.list_read_bulk(self.data, cap);
        if ok {
            Ok(data)
        } else if len > 0 {
            let (ok2, _len2, data2) = host.list_read_bulk(self.data, len);
            if ok2 {
                Ok(data2)
            } else {
                Err(Error::get_last_byond_error(host))
            }
        } else {
            Err(Error::get_last_byond_error(host))
        }
    }

    /// The whole list flattened for associative use — stored value and
    /// associated value alternating — by the two-phase protocol. The
    /// scratch buffer's storage is taken for the result, leaving it empty
    /// for the next use.
    pub fn get_list(&self, host: &mut Host, buf: &mut ScratchBuffer) -> (r: Result<
        Vec<ByondValue>,
        Error,
    >)
        requires
            old(host).wf(),
        ensures
            final(host).wf(),
            old(host).same_but_err(*final(host)),
            self.tag == LIST_TAG ==> final(buf).capacity == 0,
            self.tag != LIST_TAG ==> (r == Err::<Vec<ByondValue>, Error>(Error::NotAList(*self))
                && final(host).buffer_calls@ == old(host).buffer_calls@ && *final(buf) == *old(
                buf,
            )),
            self.tag == LIST_TAG && !old(host).valid_list(self.data) ==> (r matches Err(e)
                && e is ByondError && final(host).buffer_calls@ == old(host).buffer_calls@ + 1),
            self.tag == LIST_TAG && old(host).valid_list(self.data) ==> (r matches Ok(v) && v@
                == interleaved_of(old(host).list_at(self.data))),
            self.tag == LIST_TAG && old(host).valid_list(self.data) && 2 * old(host).list_at(
                self.data,
            ).len() <= old(buf).capacity as int ==> final(host).buffer_calls@ == old(host).buffer_calls@ + 1,
            self.tag == LIST_TAG && old(host).valid_list(self.data) && 2 * old(host).list_at(
                self.data,
            ).len() > old(buf).capacity as int ==> final(host).buffer_calls@ == old(host).buffer_calls@ + 2,
    {
        if self.tag != LIST_TAG {
            return Err(Error::NotAList(*self));
        }
        let cap = buf.capacity;
        buf.capacity = 0;
        let (ok, len, data) = host.list_read_assoc_bulk(self.data, cap);
        if ok {
            Ok(data)
        } else if len > 0 {
            let (ok2, _len2, data2) = host.list_read_assoc_bulk(self.data, len);
            if ok2 {
                Ok(data2)
            } else {
                Err(Error::get_last_byond_error(host))
            }
        } else {
            Err(Error::get_last_byond_error(host))
        }
    }

    /// Replaces the list's contents with the given values, none of them
    /// associated.
    pub fn write_list(&self, host: &mut Host, list: &Vec<ByondValue>) -> (r: Result<(), Error>)
        requires
            old(host).wf(),
        ensures
            final(host).wf(),
            old(host).same_strings(*final(host)),
            old(host).same_objects(*final(host)),
            old(host).same_cells(*final(host)),
            old(host).same_world(*final(host)),
            old(host).same_crash(*final(host)),
            final(host).buffer_calls@ == old(host).buffer_calls@,
            final(host).n_lists() == old(host).n_lists(),
            forall|g: u32|
                old(host).valid_list(g) && g != self.data ==> #[trigger] final(host).list_at(g)
                    == old(host).list_at(g),
            forall|g: u32|
                old(host).valid_list(g) ==> #[trigger] final(host).list_rc(g) == old(host).list_rc(g),
            r is Ok <==> (self.tag == LIST_TAG && old(host).valid_list(self.data) && list@.len()
                <= MAX_LIST_LEN as int),
            r is Ok ==> final(host).list_at(self.data) == entries_of_values(list@),
            r is Err ==> (r matches Err(e) && e is ByondError && old(host).same_lists(
                *final(host),
            )),
    {
        if self.tag != LIST_TAG {
            host.set_error("this value is not a list");
            return Err(Error::get_last_byond_error(host));
        }
        if host.list_write_bulk(self.data, list) {
            Ok(())
        } else {
            Err(Error::get_last_byond_error(host))
        }
    }

    /// Reads a value by key through the list handle; fails with the
    /// list-expected error when this value is not a list, and surfaces the
    /// host's error when the key is absent.
    pub fn read_list_index(&self, host: &mut Host, index: ByondValue) -> (r: Result<
        ByondValue,
        Error,
    >)
        requires
            old(host).wf(),
        ensures
            final(host).wf(),
            old(host).same_but_err(*final(host)),
            final(host).buffer_calls@ == old(host).buffer_calls@,
            self.tag != LIST_TAG ==> r == Err::<ByondValue, Error>(Error::NotAList(*self)),
            self.tag == LIST_TAG && !old(host).valid_list(self.data) ==> (r matches Err(e)
                && e is ByondError),
            self.tag == LIST_TAG && old(host).valid_list(self.data) ==> (index_read_of(
                old(host).list_at(self.data),
                index,
            ) matches Some(v) ==> r == Ok::<ByondValue, Error>(v)),
            self.tag == LIST_TAG && old(host).valid_list(self.data) && index_read_of(
                old(host).list_at(self.data),
                index,
            ) is None ==> (r matches Err(e) && e is ByondError),
    {
        if self.tag != LIST_TAG {
            return Err(Error::NotAList(*self));
        }
        self.read_list_index_internal(host, &index)
    }

    /// Writes a value by key through the list handle; fails with the
    /// list-expected error when this value is not a list, and surfaces the
    /// host's error when it rejects the key.
    pub fn write_list_index(&mut self, host: &mut Host, index: ByondValue, value: ByondValue) -> (r:
        Result<(), Error>)
        requires
            old(host).wf(),
        ensures
            final(host).wf(),
            *final(self) == *old(self),
            old(host).same_strings(*final(host)),
            old(host).same_objects(*final(host)),
            old(host).same_cells(*final(host)),
            old(host).same_world(*final(host)),
            old(host).same_crash(*final(host)),
            final(host).buffer_calls@ == old(host).buffer_calls@,
            final(host).n_lists() == old(host).n_lists(),
            forall|g: u32|
                old(host).valid_list(g) && g != old(self).data ==> #[trigger] final(host).list_at(g)
                    == old(host).list_at(g),
            forall|g: u32|
                old(host).valid_list(g) ==> #[trigger] final(host).list_rc(g) == old(host).list_rc(g),
            old(self).tag != LIST_TAG ==> (r == Err::<(), Error>(Error::NotAList(*old(self)))
                && old(host).same_lists(*final(host))),
            old(self).tag == LIST_TAG ==> (r is Ok <==> (old(host).valid_list(old(self).data)
                && index_write_of(old(host).list_at(old(self).data), index, value) is Some)),
            old(self).tag == LIST_TAG && r is Ok ==> Some(final(host).list_at(old(self).data))
                == index_write_of(old(host).list_at(old(self).data), index, value),
            old(self).tag == LIST_TAG && r is Err ==> (r matches Err(e) && e is ByondError && old(host).same_lists(*final(host))),
    {
        if self.tag != LIST_TAG {
            return Err(Error::NotAList(*self));
        }
        self.write_list_index_internal(host, &index, &value)
    }

    /// Reads a value by key through the list handle without the type check,
    /// as the raw host call does; fails when the key does not resolve.
    pub fn read_list_index_internal(&self, host: &mut Host, index: &ByondValue) -> (r: Result<
        ByondValue,
        Error,
    >)
        requires
            old(host).wf(),
        ensures
            final(host).wf(),
            old(host).same_but_err(*final(host)),
            final(host).buffer_calls@ == old(host).buffer_calls@,
            !old(host).valid_list(self.data) || self.tag != LIST_TAG ==> (r matches Err(e)
                && e is ByondError),
            self.tag == LIST_TAG && old(host).valid_list(self.data) ==> (index_read_of(
                old(host).list_at(self.data),
                *index,
            ) matches Some(v) ==> r == Ok::<ByondValue, Error>(v)),
            self.tag == LIST_TAG && old(host).valid_list(self.data) && index_read_of(
                old(host).list_at(self.data),
                *index,
            ) is None ==> (r matches Err(e) && e is ByondError),
    {
        if self.tag != LIST_TAG {
            host.set_error("this value is not a list");
            return Err(Error::get_last_byond_error(host));
        }
        match host.list_read_index(self.data, *index) {
            Some(v) => Ok(v),
            None => Err(Error::get_last_byond_error(host)),
        }
    }

    /// Writes a value by key through the list handle without the type
    /// check, as the raw host call does; fails when the host rejects the
    /// key.
    pub fn write_list_index_internal(
        &mut self,
        host: &mut Host,
        index: &ByondValue,
        value: &ByondValue,
    ) -> (r: Result<(), Error>)
        requires
            old(host).wf(),
        ensures
            final(host).wf(),
            *final(self) == *old(self),
            old(host).same_strings(*final(host)),
            old(host).same_objects(*final(host)),
            old(host).same_cells(*final(host)),
            old(host).same_world(*final(host)),
            old(host).same_crash(*final(host)),
            final(host).buffer_calls@ == old(host).buffer_calls@,
            final(host).n_lists() == old(host).n_lists(),
            forall|g: u32|
                old(host).valid_list(g) && g != old(self).data ==> #[trigger] final(host).list_at(g)
                    == old(host).list_at(g),
            forall|g: u32|
                old(host).valid_list(g) ==> #[trigger] final(host).list_rc(g) == old(host).list_rc(g),
            r is Ok <==> (old(self).tag == LIST_TAG && old(host).valid_list(old(self).data)
                && index_write_of(old(host).list_at(old(self).data), *index, *value) is Some),
            r is Ok ==> Some(final(host).list_at(old(self).data)) == index_write_of(
                old(host).list_at(old(self).data),
                *index,
                *value,
            ),
            r is Err ==> (r matches Err(e) && e is ByondError && old(host).same_lists(
                *final(host),
            )),
    {
        if self.tag != LIST_TAG {
            host.set_error("this value is not a list");
            return Err(Error::get_last_byond_error(host));
        }
        if host.list_write_index(self.data, *index, *value) {
            Ok(())
        } else {
            Err(Error::get_last_byond_error(host))
        }
    }

    /// Appends a value to the end of the list through the host's built-in
    /// append proc; fails with the list-expected error when this value is
    /// not a list, and surfaces the host's error when the list is not live
    /// or full.
    pub fn push_list(&mut self, host: &mut Host, value: ByondValue) -> (r: Result<(), Error>)
        requires
            old(host).wf(),
        ensures
            final(host).wf(),
            *final(self) == *old(self),
            old(host).same_strings(*final(host)),
            old(host).same_objects(*final(host)),
            old(host).same_cells(*final(host)),
            old(host).same_world(*final(host)),
            old(host).same_crash(*final(host)),
            final(host).buffer_calls@ == old(host).buffer_calls@,
            final(host).n_lists() == old(host).n_lists(),
            forall|g: u32|
                old(host).valid_list(g) && g != old(self).data ==> #[trigger] final(host).list_at(g)
                    == old(host).list_at(g),
            forall|g: u32|
                old(host).valid_list(g) ==> #[trigger] final(host).list_rc(g) == old(host).list_rc(g),
            old(self).tag != LIST_TAG ==> (r == Err::<(), Error>(Error::NotAList(*old(self)))
                && old(host).same_lists(*final(host))),
            old(self).tag == LIST_TAG ==> (r is Ok <==> (old(host).valid_list(old(self).data)
                && old(host).list_at(old(self).data).len() < MAX_LIST_LEN as int)),
            r is Ok ==> final(host).list_at(old(self).data) == old(host).list_at(
                old(self).data,
            ).push((ListEntry { key: value, val: crate::value::null_value() })),
            old(self).tag == LIST_TAG && r is Err ==> (r matches Err(e) && (e is ByondError
                || e is UnknownByondError) && old(host).same_lists(*final(host))),
    {
        if self.tag != LIST_TAG {
            return Err(Error::NotAList(*self));
        }
        let mut args: Vec<ByondValue> = Vec::new();
        args.push(value);
        match self.call_id(host, ADD_PROC_ID, &args) {
            Ok(_) => Ok(()),
            Err(e) => Err(e),
        }
    }

    /// Removes and returns the value at the last 1-based index through the
    /// host's built-in remove proc: pop on a list of length N returns the
    /// value at index N and leaves the list at length N−1 (the host removes
    /// the first slot equal to it); pop on an empty list returns no value
    /// without error. A removal the host cannot carry out — the popped
    /// value is equal to nothing, as a NaN number is — is detected by
    /// re-checking the length and reported as a failure.
    pub fn pop_list(&mut self, host: &mut Host) -> (r: Result<Option<ByondValue>, Error>)
        requires
            old(host).wf(),
        ensures
            final(host).wf(),
            *final(self) == *old(self),
            old(host).same_strings(*final(host)),
            old(host).same_objects(*final(host)),
            old(host).same_cells(*final(host)),
            old(host).same_world(*final(host)),
            old(host).same_crash(*final(host)),
            final(host).buffer_calls@ == old(host).buffer_calls@,
            final(host).n_lists() == old(host).n_lists(),
            forall|g: u32|
                old(host).valid_list(g) && g != old(self).data ==> #[trigger] final(host).list_at(g)
                    == old(host).list_at(g),
            forall|g: u32|
                old(host).valid_list(g) ==> #[trigger] final(host).list_rc(g) == old(host).list_rc(g),
            old(self).tag != LIST_TAG ==> (r == Err::<Option<ByondValue>, Error>(
                Error::NotAList(*old(self)),
            ) && old(host).same_lists(*final(host))),
            old(self).tag == LIST_TAG && !old(host).valid_list(old(self).data) ==> (r matches Err(e)
                && e is ByondError && old(host).same_lists(*final(host))),
            old(self).tag == LIST_TAG && old(host).valid_list(old(self).data) && old(host).list_at(
                old(self).data,
            ).len() == 0 ==> (r == Ok::<Option<ByondValue>, Error>(None) && old(host).same_lists(
                *final(host),
            )),
            old(self).tag == LIST_TAG && old(host).valid_list(old(self).data) && old(host).list_at(
                old(self).data,
            ).len() > 0 ==> {
                let entries = old(host).list_at(old(self).data);
                let last = entries[entries.len() - 1].key;
                if find_first(entries, |e: ListEntry| spec_byond_eq(e.key, last)) >= 0 {
                    r == Ok::<Option<ByondValue>, Error>(Some(last)) && final(host).list_at(
                        old(self).data,
                    ) == remove_first_of(entries, last) && final(host).list_at(
                        old(self).data,
                    ).len() == entries.len() - 1
                } else {
                    r == Err::<Option<ByondValue>, Error>(Error::UnknownByondError)
                }
            },
    {
        if self.tag != LIST_TAG {
            return Err(Error::NotAList(*self));
        }
        let len_value = match self.builtin_length(host) {
            Ok(v) => v,
            Err(e) => {
                return Err(e);
            },
        };
        let len_bits = match len_value.get_number() {
            Ok(b) => b,
            Err(_) => {
                return Err(Error::UnknownByondError);
            },
        };
        proof {
            lemma_u24_roundtrip(old(host).list_at(self.data).len() as u32);
        }
        let len = match crate::bits32::decode_u24(len_bits) {
            Some(n) => n,
            None => {
                return Err(Error::UnknownByondError);
            },
        };
        if len == 0 {
            return Ok(None);
        }
        let index = ByondValue::new_num(crate::bits32::encode_u24(len));
        proof {
            lemma_u24_roundtrip(len);
        }
        let value = match self.read_list_index(host, index) {
            Ok(v) => v,
            Err(_) => {
                return Err(Error::UnknownByondError);
            },
        };
        let ghost entries = old(host).list_at(self.data);
        proof {
            assert(value == entries[entries.len() - 1].key);
            crate::host::lemma_find_first_props(
                entries,
                |e: ListEntry| spec_byond_eq(e.key, value),
            );
        }
        let mut args: Vec<ByondValue> = Vec::new();
        args.push(value);
        match self.call_id(host, REMOVE_PROC_ID, &args) {
            Ok(_) => {},
            Err(_) => {
                return Err(Error::UnknownByondError);
            },
        };
        proof {
            assert(host.list_at(self.data) == remove_first_of(entries, value));
        }
        let new_len_value = match self.builtin_length(host) {
            Ok(v) => v,
            Err(_) => {
                return Err(Error::UnknownByondError);
            },
        };
        proof {
            lemma_u24_roundtrip(host.list_at(self.data).len() as u32);
        }
        let new_len = match new_len_value.get_number() {
            Ok(b) => crate::bits32::decode_u24(b),
            Err(_) => None,
        };
        match new_len {
            Some(n) if n + 1 == len => Ok(Some(value)),
            _ => Err(Error::UnknownByondError),
        }
    }
}

} // verus!
