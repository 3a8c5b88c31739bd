//! The laws of the value and list model, stated once and proved for every
//! input: what the per-function contracts promise jointly.

use crate::bits32::is_nan_bits;
use crate::host::{
    entries_of_values, find_first, index_read_of, index_write_of, keys_of, lemma_find_first_at,
    lemma_find_first_pointwise, lemma_find_first_props, ListEntry,
};
use crate::value::{
    list_value, null_value, num_value, spec_byond_eq, str_value, ByondValue, LIST_TAG, NULL_TAG,
    NUMBER_TAG, STRING_TAG,
};
use vstd::prelude::*;

verus! {

/// A constructed number value holds its payload bits untouched, so reading
/// the number back yields them bit for bit; and a number holding NaN bits
/// is never equal to any number holding NaN bits, itself included, while
/// every other number equals itself.
pub proof fn lemma_number_roundtrip(bits: u32, other: u32)
    ensures
        num_value(bits).tag == NUMBER_TAG,
        num_value(bits).data == bits,
        is_nan_bits(bits) || is_nan_bits(other) ==> !spec_byond_eq(num_value(bits), num_value(other)),
        !is_nan_bits(bits) ==> spec_byond_eq(num_value(bits), num_value(bits)),
{
}

/// The four kind predicates split values into disjoint kinds: the null
/// value is null and nothing else, and each constructed number, string and
/// list value satisfies exactly its own predicate of the four.
pub proof fn lemma_kind_predicates(bits: u32, id: u32, h: u32)
    ensures
        null_value().tag == NULL_TAG && null_value().tag != NUMBER_TAG && null_value().tag
            != STRING_TAG && null_value().tag != LIST_TAG,
        num_value(bits).tag == NUMBER_TAG && num_value(bits).tag != NULL_TAG && num_value(bits).tag
            != STRING_TAG && num_value(bits).tag != LIST_TAG,
        str_value(id).tag == STRING_TAG && str_value(id).tag != NULL_TAG && str_value(id).tag
            != NUMBER_TAG && str_value(id).tag != LIST_TAG,
        list_value(h).tag == LIST_TAG && list_value(h).tag != NULL_TAG && list_value(h).tag
            != NUMBER_TAG && list_value(h).tag != STRING_TAG,
{
}

/// Round trip between construction and the values-only read: appending a
/// value extends the read result by exactly that value, and a list whose
/// slots came from a sequence of pushes reads back as the pushed values in
/// insertion order.
pub proof fn lemma_push_round_trip(vs: Seq<ByondValue>, v: ByondValue)
    ensures
        entries_of_values(vs.push(v)) == entries_of_values(vs).push(
            (ListEntry { key: v, val: null_value() }),
        ),
        keys_of(entries_of_values(vs)) == vs,
        keys_of(entries_of_values(vs).push((ListEntry { key: v, val: null_value() }))) == keys_of(
            entries_of_values(vs),
        ).push(v),
{
    assert(entries_of_values(vs.push(v)) =~= entries_of_values(vs).push(
        (ListEntry { key: v, val: null_value() }),
    ));
    assert(keys_of(entries_of_values(vs)) =~= vs);
    assert(keys_of(entries_of_values(vs).push((ListEntry { key: v, val: null_value() })))
        =~= keys_of(entries_of_values(vs)).push(v));
}

/// Writing a key and then reading the same key yields the written value,
/// for every key the write accepts.
pub proof fn lemma_index_write_then_read(entries: Seq<ListEntry>, key: ByondValue, val: ByondValue)
    requires
        index_write_of(entries, key, val) is Some,
    ensures
        index_write_of(entries, key, val) matches Some(after) ==> index_read_of(after, key)
            == Some(val),
{
    let after = choose|a: Seq<ListEntry>| index_write_of(entries, key, val) == Some(a);
    assert(index_write_of(entries, key, val) == Some(after));
    if key.tag == NUMBER_TAG {
        let n = choose|n: u32| crate::bits32::u24_of_bits(key.data) == Some(n);
        assert(crate::bits32::u24_of_bits(key.data) == Some(n));
        assert(after == entries.update(n as int - 1, ListEntry { key: val, val: null_value() }));
        assert(after[n as int - 1].key == val);
    } else {
        let p = |e: ListEntry| spec_byond_eq(e.key, key);
        let i = find_first(entries, p);
        lemma_find_first_props(entries, p);
        if i >= 0 {
            assert(after == entries.update(i, ListEntry { key: entries[i].key, val }));
            assert forall|j: int| 0 <= j < entries.len() implies p(entries[j]) == p(after[j]) by {
                if j != i {
                    assert(after[j] == entries[j]);
                } else {
                    assert(after[j].key == entries[j].key);
                }
            }
            lemma_find_first_pointwise(after, entries, p);
            assert(index_read_of(after, key) == Some(after[i].val));
        } else {
            assert(after == entries.push(ListEntry { key, val }));
            assert forall|j: int| 0 <= j < entries.len() implies !p(after[j]) by {
                assert(after[j] == entries[j]);
            }
            assert(p(after[entries.len() as int]));
            lemma_find_first_at(after, p, entries.len() as int);
            assert(index_read_of(after, key) == Some(after[entries.len() as int].val));
        }
    }
}

} // verus!
