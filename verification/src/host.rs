//! An explicit model of the host runtime's observable state.
//!
//! The real host exposes its state only through a versioned C function
//! table: a string-identifier table, list storage, object storage, pointer
//! cells, a turf grid, a pending-error slot and a crash channel. This module
//! represents that state as a value, [`Host`], and each table operation the
//! marshaling layer relies on as a verified function over it. The layer's
//! own operations (the [`crate::value::ByondValue`] methods) are verified
//! against these, so their contracts state exactly what each call does to
//! host state.

use crate::value::ByondValue;
use vstd::prelude::*;

verus! {

/// Lookup sentinel: the identifier the host returns when a string is not
/// interned.
pub const STR_ID_NONE: u32 = 0xffff;

/// Creation sentinel: the identifier the host returns when it refuses to
/// intern a string.
pub const STR_ADD_FAILED: u32 = 0xffff_ffff;

/// The identifier of the built-in list append proc.
pub const ADD_PROC_ID: u32 = 0;

/// The identifier of the built-in list remove proc.
pub const REMOVE_PROC_ID: u32 = 1;

/// Largest number of entries a list may hold: every length must remain
/// exactly representable as a host number.
pub const MAX_LIST_LEN: usize = 0xff_ffff;

/// Largest byte length of an interned string, for the same reason.
pub const MAX_STR_LEN: usize = 0xff_ffff;

/// One list slot: the stored value, and the value associated with it when
/// the list is used associatively (null otherwise).
#[derive(Clone, Copy, Debug)]
pub struct ListEntry {
    /// The stored value; for an associative slot, the key.
    pub key: ByondValue,
    /// The associated value, null when the slot has none.
    pub val: ByondValue,
}

/// A host-owned list: its entries and its strong-reference count.
#[derive(Debug)]
pub struct ListData {
    /// The slots, in list order.
    pub entries: Vec<ListEntry>,
    /// Strong references the host tracks for this list.
    pub refcount: u32,
}

/// One named variable of a host object.
#[derive(Clone, Copy, Debug)]
pub struct VarEntry {
    /// The interned identifier of the variable's name.
    pub name_id: u32,
    /// The variable's value.
    pub val: ByondValue,
}

/// A host-owned object: its type path, variables and strong-reference count.
#[derive(Debug)]
pub struct ObjData {
    /// The interned identifier of the object's type path.
    pub path_id: u32,
    /// The object's named variables.
    pub vars: Vec<VarEntry>,
    /// Strong references the host tracks for this object.
    pub refcount: u32,
}

/// The observable state of the host runtime.
pub struct Host {
    /// The interned string table; identifiers index it. Append-only: once
    /// issued, an identifier never changes meaning.
    pub strings: Vec<Vec<u8>>,
    /// Host-owned lists; list handles index them.
    pub lists: Vec<ListData>,
    /// Host-owned objects; object handles index them.
    pub objects: Vec<ObjData>,
    /// Pointer cells; pointer payloads index them.
    pub cells: Vec<ByondValue>,
    /// World width in turfs.
    pub world_w: u16,
    /// World height in turfs.
    pub world_h: u16,
    /// World depth in levels.
    pub world_d: u16,
    /// The message of the most recent failed operation, if any.
    pub last_error: Option<String>,
    /// The message of the crash signal, once one has been raised.
    pub crash_message: Option<String>,
    /// How many times the crash channel has been used.
    pub crashes: Ghost<nat>,
    /// How many bulk buffer reads the host has served; instruments the
    /// two-phase buffer protocol.
    pub buffer_calls: Ghost<nat>,
}

/// True when the bytes carry no NUL, so the host can take them as a
/// C string.
pub open spec fn no_nul(s: Seq<u8>) -> bool {
    forall|i: int| 0 <= i < s.len() ==> s[i] != 0
}

/// The byte content of the built-in list append proc's name.
pub open spec fn add_name() -> Seq<u8> {
    seq![65u8, 100u8, 100u8]
}

/// The byte content of the built-in list remove proc's name.
pub open spec fn remove_name() -> Seq<u8> {
    seq![82u8, 101u8, 109u8, 111u8, 118u8, 101u8]
}

impl Host {
    /// The string table as a sequence of byte strings.
    pub open spec fn table(self) -> Seq<Seq<u8>> {
        Seq::new(self.strings@.len() as nat, |i: int| self.strings@[i]@)
    }

    /// The table holds this byte string.
    pub open spec fn has_str(self, s: Seq<u8>) -> bool {
        exists|i: int| 0 <= i < self.table().len() && self.table()[i] == s
    }

    /// The content of an interned identifier.
    pub open spec fn str_at(self, id: u32) -> Seq<u8> {
        self.table()[id as int]
    }

    /// The identifier is one the table has issued.
    pub open spec fn valid_str(self, id: u32) -> bool {
        (id as int) < self.table().len()
    }

    /// How many lists the host owns.
    pub open spec fn n_lists(self) -> int {
        self.lists@.len() as int
    }

    /// The handle names a host-owned list.
    pub open spec fn valid_list(self, h: u32) -> bool {
        (h as int) < self.n_lists()
    }

    /// The entries of a list, in list order.
    pub open spec fn list_at(self, h: u32) -> Seq<ListEntry> {
        self.lists@[h as int].entries@
    }

    /// The strong-reference count of a list.
    pub open spec fn list_rc(self, h: u32) -> u32 {
        self.lists@[h as int].refcount
    }

    /// How many objects the host owns.
    pub open spec fn n_objects(self) -> int {
        self.objects@.len() as int
    }

    /// The handle names a host-owned object.
    pub open spec fn valid_obj(self, h: u32) -> bool {
        (h as int) < self.n_objects()
    }

    /// The variables of an object.
    pub open spec fn obj_vars(self, h: u32) -> Seq<VarEntry> {
        self.objects@[h as int].vars@
    }

    /// The interned identifier of an object's type path.
    pub open spec fn obj_path(self, h: u32) -> u32 {
        self.objects@[h as int].path_id
    }

    /// The strong-reference count of an object.
    pub open spec fn obj_rc(self, h: u32) -> u32 {
        self.objects@[h as int].refcount
    }

    /// How many pointer cells exist.
    pub open spec fn n_cells(self) -> int {
        self.cells@.len() as int
    }

    /// The handle names a pointer cell.
    pub open spec fn valid_cell(self, h: u32) -> bool {
        (h as int) < self.n_cells()
    }

    /// The value behind a pointer cell.
    pub open spec fn cell_at(self, h: u32) -> ByondValue {
        self.cells@[h as int]
    }

    /// The host's pending error message, if any, as a character sequence.
    pub open spec fn err_model(self) -> Option<Seq<char>> {
        match self.last_error {
            Some(m) => Some(m@),
            None => None,
        }
    }

    /// The crash message, if the crash channel has been used, as a character
    /// sequence.
    pub open spec fn crash_model(self) -> Option<Seq<char>> {
        match self.crash_message {
            Some(m) => Some(m@),
            None => None,
        }
    }

    /// Well-formedness of the host state: the built-in proc names sit at
    /// their fixed identifiers, interned strings are distinct, NUL-free and
    /// of representable length, the table has room for the lookup sentinels,
    /// every list length stays representable as a host number, and handle
    /// counts leave room for one more handle.
    pub open spec fn wf(self) -> bool {
        &&& self.table().len() <= STR_ID_NONE as int
        &&& self.table().len() >= 2
        &&& self.table()[ADD_PROC_ID as int] == add_name()
        &&& self.table()[REMOVE_PROC_ID as int] == remove_name()
        &&& forall|i: int|
            0 <= i < self.table().len() ==> no_nul(#[trigger] self.table()[i])
                && self.table()[i].len() <= MAX_STR_LEN as int
        &&& forall|i: int, j: int|
            0 <= i < j < self.table().len() ==> #[trigger] self.table()[i] != #[trigger] self.table()[j]
        &&& forall|h: int|
            0 <= h < self.n_lists() ==> (#[trigger] self.lists@[h]).entries@.len()
                <= MAX_LIST_LEN as int
        &&& self.n_lists() < 0xffff_ffff
        &&& self.n_objects() < 0xffff_ffff
        &&& self.n_cells() < 0xffff_ffff
        &&& 1 <= self.world_w <= 0x7fff
        &&& 1 <= self.world_h <= 0x7fff
        &&& 1 <= self.world_d <= 0x7fff
        &&& (self.world_w as int) * (self.world_h as int) * (self.world_d as int) <= MAX_LIST_LEN as int
    }

    /// The string table is unchanged between two states.
    pub open spec fn same_strings(self, b: Host) -> bool {
        b.table() == self.table()
    }

    /// All lists are unchanged between two states.
    pub open spec fn same_lists(self, b: Host) -> bool {
        &&& b.n_lists() == self.n_lists()
        &&& forall|h: u32|
            #![trigger b.list_at(h)]
            #![trigger b.list_rc(h)]
            self.valid_list(h) ==> b.list_at(h) == self.list_at(h) && b.list_rc(h)
                == self.list_rc(h)
    }

    /// All objects are unchanged between two states.
    pub open spec fn same_objects(self, b: Host) -> bool {
        &&& b.n_objects() == self.n_objects()
        &&& forall|h: u32|
            #![trigger b.obj_vars(h)]
            #![trigger b.obj_path(h)]
            #![trigger b.obj_rc(h)]
            self.valid_obj(h) ==> b.obj_vars(h) == self.obj_vars(h) && b.obj_path(h)
                == self.obj_path(h) && b.obj_rc(h) == self.obj_rc(h)
    }

    /// All pointer cells are unchanged between two states.
    pub open spec fn same_cells(self, b: Host) -> bool {
        &&& b.n_cells() == self.n_cells()
        &&& forall|h: u32| self.valid_cell(h) ==> #[trigger] b.cell_at(h) == self.cell_at(h)
    }

    /// The world dimensions are unchanged between two states.
    pub open spec fn same_world(self, b: Host) -> bool {
        b.world_w == self.world_w && b.world_h == self.world_h && b.world_d == self.world_d
    }

    /// The crash channel is unchanged between two states.
    pub open spec fn same_crash(self, b: Host) -> bool {
        b.crash_model() == self.crash_model() && b.crashes@ == self.crashes@
    }

    /// Every list keeps its entries between two states (reference counts
    /// aside).
    pub open spec fn untouched_list_entries(self, b: Host) -> bool {
        &&& b.n_lists() == self.n_lists()
        &&& forall|g: u32|
            self.valid_list(g) ==> #[trigger] b.list_at(g) == self.list_at(g)
    }

    /// Every object keeps its variables and type path between two states
    /// (reference counts aside).
    pub open spec fn untouched_obj_data(self, b: Host) -> bool {
        &&& b.n_objects() == self.n_objects()
        &&& forall|g: u32|
            self.valid_obj(g) ==> #[trigger] b.obj_vars(g) == self.obj_vars(g) && b.obj_path(g)
                == self.obj_path(g)
    }

    /// Every reference count except possibly the one the given value names
    /// is kept between two states.
    pub open spec fn rc_frame(self, b: Host, v: ByondValue) -> bool {
        &&& forall|g: u32|
            self.valid_list(g) && !(v.tag == crate::value::LIST_TAG && g == v.data)
                ==> #[trigger] b.list_rc(g) == self.list_rc(g)
        &&& forall|g: u32|
            self.valid_obj(g) && !(v.tag == crate::value::DATUM_TAG && g == v.data)
                ==> #[trigger] b.obj_rc(g) == self.obj_rc(g)
    }

    /// Everything except the pending-error slot and the bulk-read counter is
    /// unchanged between two states: the frame of a read-only host call.
    pub open spec fn same_but_err(self, b: Host) -> bool {
        &&& self.same_strings(b)
        &&& self.same_lists(b)
        &&& self.same_objects(b)
        &&& self.same_cells(b)
        &&& self.same_world(b)
        &&& self.same_crash(b)
    }

    /// A fresh host with the given world dimensions: the string table holds
    /// only the built-in proc names, and the host owns nothing else yet.
    pub fn new(world_w: u16, world_h: u16, world_d: u16) -> (r: Host)
        requires
            1 <= world_w <= 0x7fff,
            1 <= world_h <= 0x7fff,
            1 <= world_d <= 0x7fff,
            (world_w as int) * (world_h as int) * (world_d as int) <= MAX_LIST_LEN as int,
        ensures
            r.wf(),
            r.table() =~= seq![add_name(), remove_name()],
            r.n_lists() == 0,
            r.n_objects() == 0,
            r.n_cells() == 0,
            r.world_w == world_w && r.world_h == world_h && r.world_d == world_d,
            r.err_model() is None,
            r.crash_model() is None,
            r.crashes@ == 0,
            r.buffer_calls@ == 0,
    {
        let mut add: Vec<u8> = Vec::new();
        add.push(65);
        add.push(100);
        add.push(100);
        let mut remove: Vec<u8> = Vec::new();
        remove.push(82);
        remove.push(101);
        remove.push(109);
        remove.push(111);
        remove.push(118);
        remove.push(101);
        proof {
            assert(add@ =~= add_name());
            assert(remove@ =~= remove_name());
        }
        let mut strings: Vec<Vec<u8>> = Vec::new();
        strings.push(add);
        strings.push(remove);
        let r = Host {
            strings,
            lists: Vec::new(),
            objects: Vec::new(),
            cells: Vec::new(),
            world_w,
            world_h,
            world_d,
            last_error: None,
            crash_message: None,
            crashes: Ghost(0),
            buffer_calls: Ghost(0),
        };
        proof {
            assert(r.table() =~= seq![add_name(), remove_name()]);
        }
        r
    }

    /// Interns a byte string, or returns its identifier if it is already
    /// interned. Returns [`STR_ADD_FAILED`] when the host refuses: the bytes
    /// hold a NUL, or the table is exhausted.
    #[verifier::loop_isolation(false)]
    pub fn add_get_str_id(&mut self, s: &Vec<u8>) -> (r: u32)
        requires
            old(self).wf(),
        ensures
            final(self).wf(),
            old(self).same_lists(*final(self)),
            old(self).same_objects(*final(self)),
            old(self).same_cells(*final(self)),
            old(self).same_world(*final(self)),
            old(self).same_crash(*final(self)),
            final(self).err_model() == old(self).err_model(),
            final(self).buffer_calls@ == old(self).buffer_calls@,
            (!no_nul(s@) || s@.len() > MAX_STR_LEN as int) ==> (r == STR_ADD_FAILED
                && final(self).same_strings(*old(self))),
            (no_nul(s@) && s@.len() <= MAX_STR_LEN as int && old(self).has_str(s@))
                ==> (final(self).same_strings(*old(self)) && final(self).valid_str(r)
                && final(self).str_at(r) == s@),
            (no_nul(s@) && s@.len() <= MAX_STR_LEN as int && !old(self).has_str(s@)
                && old(self).table().len() < STR_ID_NONE as int)
                ==> (r as int == old(self).table().len()
                && final(self).table() == old(self).table().push(s@)),
            (no_nul(s@) && s@.len() <= MAX_STR_LEN as int && !old(self).has_str(s@)
                && old(self).table().len() == STR_ID_NONE as int)
                ==> (r == STR_ADD_FAILED && final(self).same_strings(*old(self))),
    {
        if s.len() > MAX_STR_LEN {
            return STR_ADD_FAILED;
        }
        let mut i: usize = 0;
        while i < s.len()
            invariant
                *self == *old(self),
                i <= s@.len(),
                forall|j: int| 0 <= j < i ==> s@[j] != 0,
            decreases s@.len() - i,
        {
            if s[i] == 0 {
                return STR_ADD_FAILED;
            }
            i = i + 1;
        }
        let found = self.get_str_id(s);
        if found != STR_ID_NONE {
            return found;
        }
        if self.strings.len() >= STR_ID_NONE as usize {
            return STR_ADD_FAILED;
        }
        let id = self.strings.len() as u32;
        self.strings.push(s.clone());
        proof {
            assert(final(self).table() =~= old(self).table().push(s@));
        }
        id
    }

    /// Looks up the identifier of an interned byte string, or
    /// [`STR_ID_NONE`] when the content is not in the table. Leaves the host
    /// unchanged.
    #[verifier::loop_isolation(false)]
    pub fn get_str_id(&self, s: &Vec<u8>) -> (r: u32)
        requires
            self.wf(),
        ensures
            r == STR_ID_NONE ==> !self.has_str(s@),
            r != STR_ID_NONE ==> self.valid_str(r) && self.str_at(r) == s@,
    {
        let mut i: usize = 0;
        while i < self.strings.len()
            invariant
                self.wf(),
                i <= self.table().len(),
                forall|j: int| 0 <= j < i ==> self.table()[j] != s@,
            decreases self.table().len() - i,
        {
            if vec_u8_eq(&self.strings[i], s) {
                return i as u32;
            }
            i = i + 1;
        }
        STR_ID_NONE
    }

    /// Records a host-side failure message, as every failing table operation
    /// does just before it reports failure.
    pub fn set_error(&mut self, msg: &str)
        ensures
            final(self).err_model() == Some(msg@),
            old(self).same_but_err(*final(self)),
            final(self).buffer_calls@ == old(self).buffer_calls@,
            final(self).wf() == old(self).wf(),
            final(self).strings == old(self).strings,
            final(self).lists == old(self).lists,
            final(self).objects == old(self).objects,
            final(self).cells == old(self).cells,
    {
        self.last_error = Some(msg.to_owned());
    }

    /// Raises the host's crash signal: a one-way transfer that records the
    /// message and ends the current invocation on the host side. Nothing
    /// else about the host changes.
    pub fn crash(&mut self, msg: &str)
        ensures
            final(self).crash_model() == Some(msg@),
            final(self).crashes@ == old(self).crashes@ + 1,
            old(self).same_strings(*final(self)),
            old(self).same_lists(*final(self)),
            old(self).same_objects(*final(self)),
            old(self).same_cells(*final(self)),
            old(self).same_world(*final(self)),
            final(self).err_model() == old(self).err_model(),
            final(self).buffer_calls@ == old(self).buffer_calls@,
            final(self).wf() == old(self).wf(),
    {
        self.crash_message = Some(msg.to_owned());
        self.crashes = Ghost(self.crashes@ + 1);
    }
}

/// Index of the first element satisfying the predicate, or -1 when none
/// does.
pub open spec fn find_first<T>(s: Seq<T>, p: spec_fn(T) -> bool) -> int
    decreases s.len(),
{
    if s.len() == 0 {
        -1
    } else if p(s[0]) {
        0
    } else {
        let r = find_first(s.drop_first(), p);
        if r < 0 {
            -1
        } else {
            r + 1
        }
    }
}

/// Pins down [`find_first`] from a scan: when nothing before position i
/// satisfies the predicate and position i does (or i is the length), the
/// first match is at i (or there is none).
pub proof fn lemma_find_first_at<T>(s: Seq<T>, p: spec_fn(T) -> bool, i: int)
    requires
        0 <= i <= s.len(),
        forall|j: int| 0 <= j < i ==> !p(s[j]),
        i < s.len() ==> p(s[i]),
    ensures
        find_first(s, p) == if i == s.len() {
            -1int
        } else {
            i
        },
    decreases i,
{
    if i == 0 {
        if s.len() != 0 && !p(s[0]) {
            assert(false);
        }
    } else {
        assert(!p(s[0]));
        let d = s.drop_first();
        assert forall|j: int| 0 <= j < i - 1 implies !p(d[j]) by {
            assert(d[j] == s[j + 1]);
        }
        if i - 1 < d.len() {
            assert(d[i - 1] == s[i]);
        }
        lemma_find_first_at(d, p, i - 1);
    }
}

/// Everything [`find_first`] guarantees about its result: -1 means no
/// element matches; otherwise it is the position of the first match.
pub proof fn lemma_find_first_props<T>(s: Seq<T>, p: spec_fn(T) -> bool)
    ensures
        find_first(s, p) == -1 ==> forall|j: int| 0 <= j < s.len() ==> !p(s[j]),
        find_first(s, p) >= 0 ==> find_first(s, p) < s.len() && p(s[find_first(s, p)]) && forall|
            j: int,
        | 0 <= j < find_first(s, p) ==> !p(s[j]),
    decreases s.len(),
{
    if s.len() != 0 && !p(s[0]) {
        let d = s.drop_first();
        lemma_find_first_props(d, p);
        let r = find_first(s, p);
        let rd = find_first(d, p);
        if rd == -1 {
            assert forall|j: int| 0 <= j < s.len() implies !p(s[j]) by {
                if j > 0 {
                    assert(d[j - 1] == s[j]);
                }
            }
        } else {
            assert(r == rd + 1);
            assert(s[r] == d[rd]);
            assert forall|j: int| 0 <= j < r implies !p(s[j]) by {
                if j > 0 {
                    assert(d[j - 1] == s[j]);
                }
            }
        }
    }
}

/// Two sequences on which a predicate agrees pointwise have their first
/// match at the same position.
pub proof fn lemma_find_first_pointwise<T>(s1: Seq<T>, s2: Seq<T>, p: spec_fn(T) -> bool)
    requires
        s1.len() == s2.len(),
        forall|j: int| 0 <= j < s1.len() ==> p(s1[j]) == p(s2[j]),
    ensures
        find_first(s1, p) == find_first(s2, p),
    decreases s1.len(),
{
    if s1.len() != 0 {
        assert(p(s1[0]) == p(s2[0]));
        if !p(s1[0]) {
            let d1 = s1.drop_first();
            let d2 = s2.drop_first();
            assert forall|j: int| 0 <= j < d1.len() implies p(d1[j]) == p(d2[j]) by {
                assert(d1[j] == s1[j + 1] && d2[j] == s2[j + 1]);
            }
            lemma_find_first_pointwise(d1, d2, p);
        }
    }
}

/// The stored values of a list, in order: what a values-only bulk read
/// returns.
pub open spec fn keys_of(s: Seq<ListEntry>) -> Seq<ByondValue> {
    Seq::new(s.len(), |i: int| s[i].key)
}

/// A list flattened for an associative bulk read: stored value and
/// associated value alternating.
pub open spec fn interleaved_of(s: Seq<ListEntry>) -> Seq<ByondValue> {
    Seq::new(2 * s.len(), |i: int| if i % 2 == 0 { s[i / 2].key } else { s[i / 2].val })
}

/// The entries a bulk write builds from plain values: each value stored
/// with no associated value.
pub open spec fn entries_of_values(vs: Seq<ByondValue>) -> Seq<ListEntry> {
    Seq::new(vs.len(), |i: int| ListEntry { key: vs[i], val: crate::value::null_value() })
}

impl Host {
    /// Creates a fresh, empty list and hands out its handle, or reports
    /// failure when the host's list storage is exhausted.
    pub fn create_list(&mut self) -> (r: Option<u32>)
        requires
            old(self).wf(),
        ensures
            final(self).wf(),
            old(self).same_strings(*final(self)),
            old(self).same_objects(*final(self)),
            old(self).same_cells(*final(self)),
            old(self).same_world(*final(self)),
            old(self).same_crash(*final(self)),
            final(self).buffer_calls@ == old(self).buffer_calls@,
            old(self).n_lists() < 0xffff_fffe ==> (r matches Some(h) && h as int == old(self).n_lists() && final(self).n_lists() == old(self).n_lists() + 1 && final(self).list_at(
                h,
            ) == Seq::<ListEntry>::empty() && final(self).list_rc(h) == 1 && final(self).err_model()
                == old(self).err_model()),
            old(self).n_lists() >= 0xffff_fffe ==> (r is None && old(self).same_lists(
                *final(self),
            ) && final(self).err_model() is Some),
            forall|g: u32|
                old(self).valid_list(g) ==> #[trigger] final(self).list_at(g) == old(self).list_at(
                    g,
                ) && final(self).list_rc(g) == old(self).list_rc(g),
            final(self).n_lists() >= old(self).n_lists(),
    {
        if self.lists.len() >= 0xffff_fffe {
            self.set_error("out of list storage");
            return None;
        }
        let h = self.lists.len() as u32;
        self.lists.push(ListData { entries: Vec::new(), refcount: 1 });
        Some(h)
    }

    /// Serves a values-only bulk read against a caller buffer of the given
    /// capacity, reporting the true element count either way: the host-side
    /// half of the two-phase buffer protocol.
    #[verifier::loop_isolation(false)]
    pub fn list_read_bulk(&mut self, h: u32, cap: u32) -> (r: (bool, u32, Vec<ByondValue>))
        requires
            old(self).wf(),
        ensures
            final(self).wf(),
            old(self).same_but_err(*final(self)),
            final(self).buffer_calls@ == old(self).buffer_calls@ + 1,
            !old(self).valid_list(h) ==> !r.0 && r.1 == 0 && final(self).err_model() is Some,
            old(self).valid_list(h) && old(self).list_at(h).len() <= cap as int ==> (r.0 && r.1
                as int == old(self).list_at(h).len() && r.2@ == keys_of(old(self).list_at(h))
                && final(self).err_model() == old(self).err_model()),
            old(self).valid_list(h) && old(self).list_at(h).len() > cap as int ==> (!r.0 && r.1
                as int == old(self).list_at(h).len() && final(self).err_model() is Some),
    {
        self.buffer_calls = Ghost(self.buffer_calls@ + 1);
        if (h as usize) >= self.lists.len() {
            self.set_error("bad list handle");
            return (false, 0, Vec::new());
        }
        let n = self.lists[h as usize].entries.len();
        if n > cap as usize {
            self.set_error("buffer too small");
            return (false, n as u32, Vec::new());
        }
        let mut out: Vec<ByondValue> = Vec::new();
        let mut i: usize = 0;
        while i < n
            invariant
                i <= n,
                out@.len() == i as int,
                forall|j: int| 0 <= j < i ==> out@[j] == self.lists@[h as int].entries@[j].key,
            decreases n - i,
        {
            out.push(self.lists[h as usize].entries[i].key);
            i = i + 1;
        }
        proof {
            assert(out@ =~= keys_of(self.list_at(h)));
        }
        (true, n as u32, out)
    }
}

/// What an index read returns for a given key on given entries, if
/// anything. A number key is a 1-based position and yields the stored value
/// there; any other key is compared by the host's equality rule against the
/// stored values, and the first match yields its associated value.
pub open spec fn index_read_of(entries: Seq<ListEntry>, key: ByondValue) -> Option<ByondValue> {
    if key.tag == crate::value::NUMBER_TAG {
        match crate::bits32::u24_of_bits(key.data) {
            Some(n) => if 1 <= n as int && n as int <= entries.len() {
                Some(entries[n as int - 1].key)
            } else {
                None
            },
            None => None,
        }
    } else {
        let i = find_first(entries, |e: ListEntry| crate::value::spec_byond_eq(e.key, key));
        if i >= 0 {
            Some(entries[i].val)
        } else {
            None
        }
    }
}

/// What an index write leaves behind for a given key on given entries, if
/// it is accepted. A number key replaces the stored value at that 1-based
/// position and clears its association; any other key updates the
/// association of its first match, or appends a fresh slot when absent and
/// the list has room.
pub open spec fn index_write_of(entries: Seq<ListEntry>, key: ByondValue, val: ByondValue) -> Option<
    Seq<ListEntry>,
> {
    if key.tag == crate::value::NUMBER_TAG {
        match crate::bits32::u24_of_bits(key.data) {
            Some(n) => if 1 <= n as int && n as int <= entries.len() {
                Some(entries.update(n as int - 1, ListEntry { key: val, val: crate::value::null_value() }))
            } else {
                None
            },
            None => None,
        }
    } else {
        let i = find_first(entries, |e: ListEntry| crate::value::spec_byond_eq(e.key, key));
        if i >= 0 {
            Some(entries.update(i, ListEntry { key: entries[i].key, val }))
        } else if entries.len() < MAX_LIST_LEN as int {
            Some(entries.push(ListEntry { key, val }))
        } else {
            None
        }
    }
}

impl Host {
    /// Serves an associative bulk read: stored and associated values
    /// alternating, with the needed element count reported either way.
    #[verifier::loop_isolation(false)]
    pub fn list_read_assoc_bulk(&mut self, h: u32, cap: u32) -> (r: (bool, u32, Vec<ByondValue>))
        requires
            old(self).wf(),
        ensures
            final(self).wf(),
            old(self).same_but_err(*final(self)),
            final(self).buffer_calls@ == old(self).buffer_calls@ + 1,
            !old(self).valid_list(h) ==> !r.0 && r.1 == 0 && final(self).err_model() is Some,
            old(self).valid_list(h) && 2 * old(self).list_at(h).len() <= cap as int ==> (r.0 && r.1
                as int == 2 * old(self).list_at(h).len() && r.2@ == interleaved_of(
                old(self).list_at(h),
            ) && final(self).err_model() == old(self).err_model()),
            old(self).valid_list(h) && 2 * old(self).list_at(h).len() > cap as int ==> (!r.0 && r.1
                as int == 2 * old(self).list_at(h).len() && final(self).err_model() is Some),
    {
        self.buffer_calls = Ghost(self.buffer_calls@ + 1);
        if (h as usize) >= self.lists.len() {
            self.set_error("bad list handle");
            return (false, 0, Vec::new());
        }
        let n = self.lists[h as usize].entries.len();
        if 2 * n > cap as usize {
            self.set_error("buffer too small");
            return (false, (2 * n) as u32, Vec::new());
        }
        let mut out: Vec<ByondValue> = Vec::new();
        let mut i: usize = 0;
        while i < n
            invariant
                i <= n,
                out@.len() == 2 * i as int,
                forall|j: int|
                    0 <= j < 2 * i ==> out@[j] == (if j % 2 == 0 {
                        self.lists@[h as int].entries@[j / 2].key
                    } else {
                        self.lists@[h as int].entries@[j / 2].val
                    }),
            decreases n - i,
        {
            out.push(self.lists[h as usize].entries[i].key);
            out.push(self.lists[h as usize].entries[i].val);
            i = i + 1;
        }
        proof {
            assert(out@ =~= interleaved_of(self.list_at(h)));
        }
        (true, (2 * n) as u32, out)
    }

    /// Replaces a list's contents with the given values, none of them
    /// associated: a bulk write.
    #[verifier::loop_isolation(false)]
    pub fn list_write_bulk(&mut self, h: u32, items: &Vec<ByondValue>) -> (ok: bool)
        requires
            old(self).wf(),
        ensures
            final(self).wf(),
            old(self).same_strings(*final(self)),
            old(self).same_objects(*final(self)),
            old(self).same_cells(*final(self)),
            old(self).same_world(*final(self)),
            old(self).same_crash(*final(self)),
            final(self).buffer_calls@ == old(self).buffer_calls@,
            final(self).n_lists() == old(self).n_lists(),
            forall|g: u32|
                old(self).valid_list(g) && g != h ==> #[trigger] final(self).list_at(g) == old(self).list_at(g),
            forall|g: u32|
                old(self).valid_list(g) ==> #[trigger] final(self).list_rc(g) == old(self).list_rc(
                    g,
                ),
            ok <==> (old(self).valid_list(h) && items@.len() <= MAX_LIST_LEN as int),
            ok ==> final(self).list_at(h) == entries_of_values(items@) && final(self).err_model()
                == old(self).err_model(),
            !ok ==> old(self).same_lists(*final(self)) && final(self).err_model() is Some,
    {
        if (h as usize) >= self.lists.len() {
            self.set_error("bad list handle");
            return false;
        }
        if items.len() > MAX_LIST_LEN {
            self.set_error("list too long");
            return false;
        }
        let mut es: Vec<ListEntry> = Vec::new();
        let mut i: usize = 0;
        while i < items.len()
            invariant
                i <= items@.len(),
                es@.len() == i as int,
                forall|j: int|
                    0 <= j < i ==> es@[j] == (ListEntry {
                        key: items@[j],
                        val: crate::value::null_value(),
                    }),
            decreases items@.len() - i,
        {
            es.push(ListEntry { key: items[i], val: ByondValue::null() });
            i = i + 1;
        }
        proof {
            assert(es@ =~= entries_of_values(items@));
        }
        self.lists[h as usize].entries = es;
        true
    }

    /// Reads one slot of a list by key, as the host's index-read call does.
    /// Reports failure (with a pending message) when the handle is bad, a
    /// numeric key is not a position inside the list, or a non-numeric key
    /// is absent.
    #[verifier::loop_isolation(false)]
    pub fn list_read_index(&mut self, h: u32, key: ByondValue) -> (r: Option<ByondValue>)
        requires
            old(self).wf(),
        ensures
            final(self).wf(),
            old(self).same_but_err(*final(self)),
            final(self).buffer_calls@ == old(self).buffer_calls@,
            !old(self).valid_list(h) ==> r is None && final(self).err_model() is Some,
            old(self).valid_list(h) ==> r == index_read_of(old(self).list_at(h), key),
            old(self).valid_list(h) && r is None ==> final(self).err_model() is Some,
            old(self).valid_list(h) && r is Some ==> final(self).err_model() == old(self).err_model(),
    {
        if (h as usize) >= self.lists.len() {
            self.set_error("bad list handle");
            return None;
        }
        let n = self.lists[h as usize].entries.len();
        if key.is_num() {
            match crate::bits32::decode_u24(key.data) {
                Some(ix) => {
                    if 1 <= ix && (ix as usize) <= n {
                        Some(self.lists[h as usize].entries[(ix - 1) as usize].key)
                    } else {
                        self.set_error("list index out of bounds");
                        None
                    }
                },
                None => {
                    self.set_error("list index not a valid position");
                    None
                },
            }
        } else {
            let ghost entries = self.list_at(h);
            let ghost p = |e: ListEntry| crate::value::spec_byond_eq(e.key, key);
            let mut i: usize = 0;
            while i < n
                invariant
                    i <= n,
                    forall|j: int| 0 <= j < i ==> !p(entries[j]),
                decreases n - i,
            {
                let e = self.lists[h as usize].entries[i];
                if e.key.byond_eq(&key) {
                    proof {
                        lemma_find_first_at(entries, p, i as int);
                    }
                    return Some(e.val);
                }
                i = i + 1;
            }
            proof {
                lemma_find_first_at(entries, p, n as int);
            }
            self.set_error("key not found in list");
            None
        }
    }

    /// Writes one slot of a list by key, as the host's index-write call
    /// does. Reports failure (with a pending message) when the handle is
    /// bad, a numeric key is not a position inside the list, or a fresh
    /// association would overflow the list.
    #[verifier::loop_isolation(false)]
    pub fn list_write_index(&mut self, h: u32, key: ByondValue, val: ByondValue) -> (ok: bool)
        requires
            old(self).wf(),
        ensures
            final(self).wf(),
            old(self).same_strings(*final(self)),
            old(self).same_objects(*final(self)),
            old(self).same_cells(*final(self)),
            old(self).same_world(*final(self)),
            old(self).same_crash(*final(self)),
            final(self).buffer_calls@ == old(self).buffer_calls@,
            final(self).n_lists() == old(self).n_lists(),
            forall|g: u32|
                old(self).valid_list(g) && g != h ==> #[trigger] final(self).list_at(g) == old(self).list_at(g),
            forall|g: u32|
                old(self).valid_list(g) ==> #[trigger] final(self).list_rc(g) == old(self).list_rc(
                    g,
                ),
            ok <==> (old(self).valid_list(h) && index_write_of(old(self).list_at(h), key, val)
                is Some),
            ok ==> Some(final(self).list_at(h)) == index_write_of(old(self).list_at(h), key, val)
                && final(self).err_model() == old(self).err_model(),
            !ok ==> old(self).same_lists(*final(self)) && final(self).err_model() is Some,
    {
        if (h as usize) >= self.lists.len() {
            self.set_error("bad list handle");
            return false;
        }
        let n = self.lists[h as usize].entries.len();
        if key.is_num() {
            match crate::bits32::decode_u24(key.data) {
                Some(ix) => {
                    if 1 <= ix && (ix as usize) <= n {
                        self.lists[h as usize].entries[(ix - 1) as usize] = ListEntry {
                            key: val,
                            val: ByondValue::null(),
                        };
                        true
                    } else {
                        self.set_error("list index out of bounds");
                        false
                    }
                },
                None => {
                    self.set_error("list index not a valid position");
                    false
                },
            }
        } else {
            let ghost entries = self.list_at(h);
            let ghost p = |e: ListEntry| crate::value::spec_byond_eq(e.key, key);
            let mut i: usize = 0;
            while i < n
                invariant
                    *self == *old(self),
                    i <= n,
                    forall|j: int| 0 <= j < i ==> !p(entries[j]),
                decreases n - i,
            {
                let e = self.lists[h as usize].entries[i];
                if e.key.byond_eq(&key) {
                    proof {
                        lemma_find_first_at(entries, p, i as int);
                    }
                    self.lists[h as usize].entries[i] = ListEntry { key: e.key, val };
                    return true;
                }
                i = i + 1;
            }
            proof {
                lemma_find_first_at(entries, p, n as int);
            }
            if n < MAX_LIST_LEN {
                self.lists[h as usize].entries.push(ListEntry { key, val });
                true
            } else {
                self.set_error("list too long");
                false
            }
        }
    }
}

/// Entries after removing the first slot whose stored value equals the
/// given one by the host's rule; unchanged when none does.
pub open spec fn remove_first_of(entries: Seq<ListEntry>, v: ByondValue) -> Seq<ListEntry> {
    let i = find_first(entries, |e: ListEntry| crate::value::spec_byond_eq(e.key, v));
    if i >= 0 {
        entries.remove(i)
    } else {
        entries
    }
}

/// The model host can run a proc exactly when the receiver is a live list
/// and the proc is one of the two built-ins the layer relies on, called
/// with a single argument (append needs room for one more entry).
pub open spec fn proc_callable(h: Host, recv: ByondValue, proc_id: u32, args: Seq<ByondValue>) -> bool {
    &&& recv.tag == crate::value::LIST_TAG
    &&& h.valid_list(recv.data)
    &&& args.len() == 1
    &&& (proc_id == ADD_PROC_ID && h.list_at(recv.data).len() < MAX_LIST_LEN as int || proc_id
        == REMOVE_PROC_ID)
}

/// What a var read returns on given variables, if the name is bound.
pub open spec fn var_read_of(vars: Seq<VarEntry>, name_id: u32) -> Option<ByondValue> {
    let i = find_first(vars, |e: VarEntry| e.name_id == name_id);
    if i >= 0 {
        Some(vars[i].val)
    } else {
        None
    }
}

/// Variables after binding a name to a value: the first existing binding is
/// updated, or a fresh one appended.
pub open spec fn var_write_of(vars: Seq<VarEntry>, name_id: u32, val: ByondValue) -> Seq<VarEntry> {
    let i = find_first(vars, |e: VarEntry| e.name_id == name_id);
    if i >= 0 {
        vars.update(i, VarEntry { name_id, val })
    } else {
        vars.push(VarEntry { name_id, val })
    }
}

impl Host {
    /// Runs a proc with the given receiver: in this model, the two list
    /// built-ins. Append stores the argument at the end of the list and
    /// yields null; remove drops the first slot equal to the argument by
    /// the host's rule and yields how many slots it dropped. Anything else
    /// fails with a pending message.
    #[verifier::loop_isolation(false)]
    pub fn call_proc(&mut self, recv: ByondValue, proc_id: u32, args: &Vec<ByondValue>) -> (r:
        Option<ByondValue>)
        requires
            old(self).wf(),
        ensures
            final(self).wf(),
            old(self).same_strings(*final(self)),
            old(self).same_objects(*final(self)),
            old(self).same_cells(*final(self)),
            old(self).same_world(*final(self)),
            old(self).same_crash(*final(self)),
            final(self).buffer_calls@ == old(self).buffer_calls@,
            final(self).n_lists() == old(self).n_lists(),
            forall|g: u32|
                old(self).valid_list(g) && g != recv.data ==> #[trigger] final(self).list_at(g)
                    == old(self).list_at(g),
            forall|g: u32|
                old(self).valid_list(g) ==> #[trigger] final(self).list_rc(g) == old(self).list_rc(
                    g,
                ),
            !proc_callable(*old(self), recv, proc_id, args@) ==> (r is None && old(self).same_lists(*final(self)) && final(self).err_model() is Some),
            proc_callable(*old(self), recv, proc_id, args@) ==> final(self).err_model() == old(self).err_model(),
            proc_callable(*old(self), recv, proc_id, args@) && proc_id == ADD_PROC_ID ==> (r
                == Some(crate::value::null_value()) && final(self).list_at(recv.data) == old(self).list_at(recv.data).push((ListEntry { key: args@[0], val: crate::value::null_value() }))),
            proc_callable(*old(self), recv, proc_id, args@) && proc_id == REMOVE_PROC_ID ==> (final(self).list_at(recv.data) == remove_first_of(old(self).list_at(recv.data), args@[0]) && r
                == Some(crate::value::num_value(crate::bits32::bits_of_u24(
                if find_first(
                    old(self).list_at(recv.data),
                    |e: ListEntry| crate::value::spec_byond_eq(e.key, args@[0]),
                ) >= 0 {
                    1u32
                } else {
                    0u32
                },
            )))),
    {
        if !recv.is_list() || (recv.data as usize) >= self.lists.len() || args.len() != 1 {
            self.set_error("cannot call this proc on this receiver");
            return None;
        }
        let h = recv.data;
        let n = self.lists[h as usize].entries.len();
        if proc_id == ADD_PROC_ID {
            if n >= MAX_LIST_LEN {
                self.set_error("cannot call this proc on this receiver");
                return None;
            }
            self.lists[h as usize].entries.push(ListEntry { key: args[0], val: ByondValue::null() });
            Some(ByondValue::null())
        } else if proc_id == REMOVE_PROC_ID {
            let target = args[0];
            let ghost entries = self.list_at(h);
            let ghost p = |e: ListEntry| crate::value::spec_byond_eq(e.key, target);
            let mut i: usize = 0;
            while i < n
                invariant
                    *self == *old(self),
                    i <= n,
                    forall|j: int| 0 <= j < i ==> !p(entries[j]),
                decreases n - i,
            {
                let e = self.lists[h as usize].entries[i];
                if e.key.byond_eq(&target) {
                    proof {
                        lemma_find_first_at(entries, p, i as int);
                    }
                    self.lists[h as usize].entries.remove(i);
                    proof {
                        crate::bits32::lemma_u24_bits_plain(1);
                    }
                    return Some(ByondValue::new_num(crate::bits32::encode_u24(1)));
                }
                i = i + 1;
            }
            proof {
                lemma_find_first_at(entries, p, n as int);
            }
            Some(ByondValue::new_num(crate::bits32::encode_u24(0)))
        } else {
            self.set_error("cannot call this proc on this receiver");
            None
        }
    }

    /// The host's length builtin: byte length of a string, entry count of a
    /// list, both as a number value; anything else fails with a pending
    /// message.
    pub fn length_of(&mut self, v: ByondValue) -> (r: Option<ByondValue>)
        requires
            old(self).wf(),
        ensures
            final(self).wf(),
            old(self).same_but_err(*final(self)),
            final(self).buffer_calls@ == old(self).buffer_calls@,
            v.tag == crate::value::STRING_TAG && old(self).valid_str(v.data) ==> (r == Some(
                crate::value::num_value(
                    crate::bits32::bits_of_u24(old(self).str_at(v.data).len() as u32),
                ),
            ) && final(self).err_model() == old(self).err_model()),
            v.tag == crate::value::LIST_TAG && old(self).valid_list(v.data) ==> (r == Some(
                crate::value::num_value(
                    crate::bits32::bits_of_u24(old(self).list_at(v.data).len() as u32),
                ),
            ) && final(self).err_model() == old(self).err_model()),
            !(v.tag == crate::value::STRING_TAG && old(self).valid_str(v.data)) && !(v.tag
                == crate::value::LIST_TAG && old(self).valid_list(v.data)) ==> (r is None && final(self).err_model() is Some),
    {
        if v.is_str() && (v.data as usize) < self.strings.len() {
            let n = self.strings[v.data as usize].len();
            proof {
                assert(self.table()[v.data as int].len() <= MAX_STR_LEN as int);
            }
            return Some(ByondValue::new_num(crate::bits32::encode_u24(n as u32)));
        }
        if v.is_list() && (v.data as usize) < self.lists.len() {
            let n = self.lists[v.data as usize].entries.len();
            return Some(ByondValue::new_num(crate::bits32::encode_u24(n as u32)));
        }
        self.set_error("this value has no length");
        None
    }

    /// Serves a stringification bulk read against a caller buffer of the
    /// given capacity: the string's bytes plus a terminating NUL, with the
    /// needed byte count reported either way. Only string values stringify
    /// in this model.
    #[verifier::loop_isolation(false)]
    pub fn to_string_bulk(&mut self, v: ByondValue, cap: u32) -> (r: (bool, u32, Vec<u8>))
        requires
            old(self).wf(),
        ensures
            final(self).wf(),
            old(self).same_but_err(*final(self)),
            final(self).buffer_calls@ == old(self).buffer_calls@ + 1,
            !(v.tag == crate::value::STRING_TAG && old(self).valid_str(v.data)) ==> (!r.0 && r.1
                == 0 && final(self).err_model() is Some),
            v.tag == crate::value::STRING_TAG && old(self).valid_str(v.data) && old(self).str_at(
                v.data,
            ).len() + 1 <= cap as int ==> (r.0 && r.1 as int == old(self).str_at(v.data).len() + 1
                && r.2@ == old(self).str_at(v.data).push(0u8) && final(self).err_model() == old(self).err_model()),
            v.tag == crate::value::STRING_TAG && old(self).valid_str(v.data) && old(self).str_at(
                v.data,
            ).len() + 1 > cap as int ==> (!r.0 && r.1 as int == old(self).str_at(v.data).len() + 1
                && final(self).err_model() is Some),
    {
        self.buffer_calls = Ghost(self.buffer_calls@ + 1);
        if !v.is_str() || (v.data as usize) >= self.strings.len() {
            self.set_error("this value cannot be read as a string");
            return (false, 0, Vec::new());
        }
        let n = self.strings[v.data as usize].len();
        proof {
            assert(self.table()[v.data as int].len() <= MAX_STR_LEN as int);
        }
        if n + 1 > cap as usize {
            self.set_error("buffer too small");
            return (false, (n + 1) as u32, Vec::new());
        }
        let mut out: Vec<u8> = Vec::new();
        let mut i: usize = 0;
        while i < n
            invariant
                i <= n,
                out@.len() == i as int,
                forall|j: int| 0 <= j < i ==> out@[j] == self.strings@[v.data as int]@[j],
            decreases n - i,
        {
            out.push(self.strings[v.data as usize][i]);
            i = i + 1;
        }
        out.push(0);
        proof {
            assert(out@ =~= self.str_at(v.data).push(0u8));
        }
        (true, (n + 1) as u32, out)
    }

    /// Creates a fresh object of the given type path and hands out its
    /// handle, or reports failure when the host's object storage is
    /// exhausted.
    pub fn create_object(&mut self, path_id: u32) -> (r: Option<u32>)
        requires
            old(self).wf(),
        ensures
            final(self).wf(),
            old(self).same_strings(*final(self)),
            old(self).same_lists(*final(self)),
            old(self).same_cells(*final(self)),
            old(self).same_world(*final(self)),
            old(self).same_crash(*final(self)),
            final(self).buffer_calls@ == old(self).buffer_calls@,
            old(self).n_objects() < 0xffff_fffe ==> (r matches Some(h) && h as int == old(self).n_objects() && final(self).n_objects() == old(self).n_objects() + 1 && final(self).obj_vars(h) == Seq::<VarEntry>::empty() && final(self).obj_path(h) == path_id
                && final(self).obj_rc(h) == 1 && final(self).err_model() == old(self).err_model()),
            old(self).n_objects() >= 0xffff_fffe ==> (r is None && old(self).same_objects(
                *final(self),
            ) && final(self).err_model() is Some),
            forall|g: u32|
                old(self).valid_obj(g) ==> #[trigger] final(self).obj_vars(g) == old(self).obj_vars(
                    g,
                ) && final(self).obj_path(g) == old(self).obj_path(g) && final(self).obj_rc(g)
                    == old(self).obj_rc(g),
            final(self).n_objects() >= old(self).n_objects(),
    {
        if self.objects.len() >= 0xffff_fffe {
            self.set_error("out of object storage");
            return None;
        }
        let h = self.objects.len() as u32;
        self.objects.push(ObjData { path_id, vars: Vec::new(), refcount: 1 });
        Some(h)
    }

    /// Reads a named variable of an object, or fails with a pending message
    /// when the receiver is not a live object or the name is not bound.
    #[verifier::loop_isolation(false)]
    pub fn obj_read_var(&mut self, recv: ByondValue, name_id: u32) -> (r: Option<ByondValue>)
        requires
            old(self).wf(),
        ensures
            final(self).wf(),
            old(self).same_but_err(*final(self)),
            final(self).buffer_calls@ == old(self).buffer_calls@,
            !(recv.tag == crate::value::DATUM_TAG && old(self).valid_obj(recv.data)) ==> (r is None
                && final(self).err_model() is Some),
            recv.tag == crate::value::DATUM_TAG && old(self).valid_obj(recv.data) ==> r
                == var_read_of(old(self).obj_vars(recv.data), name_id),
            recv.tag == crate::value::DATUM_TAG && old(self).valid_obj(recv.data) && r is None
                ==> final(self).err_model() is Some,
            recv.tag == crate::value::DATUM_TAG && old(self).valid_obj(recv.data) && r is Some
                ==> final(self).err_model() == old(self).err_model(),
    {
        if recv.get_type() != crate::value::DATUM_TAG || (recv.data as usize)
            >= self.objects.len() {
            self.set_error("this value has no variables");
            return None;
        }
        let n = self.objects[recv.data as usize].vars.len();
        let ghost vars = self.obj_vars(recv.data);
        let ghost p = |e: VarEntry| e.name_id == name_id;
        let mut i: usize = 0;
        while i < n
            invariant
                i <= n,
                forall|j: int| 0 <= j < i ==> !p(vars[j]),
            decreases n - i,
        {
            let e = self.objects[recv.data as usize].vars[i];
            if e.name_id == name_id {
                proof {
                    lemma_find_first_at(vars, p, i as int);
                }
                return Some(e.val);
            }
            i = i + 1;
        }
        proof {
            lemma_find_first_at(vars, p, n as int);
        }
        self.set_error("no such variable");
        None
    }

    /// Writes a named variable of an object, binding the name if it was
    /// unbound; fails with a pending message when the receiver is not a
    /// live object or the name identifier was never issued.
    #[verifier::loop_isolation(false)]
    pub fn obj_write_var(&mut self, recv: ByondValue, name_id: u32, val: ByondValue) -> (ok: bool)
        requires
            old(self).wf(),
        ensures
            final(self).wf(),
            old(self).same_strings(*final(self)),
            old(self).same_lists(*final(self)),
            old(self).same_cells(*final(self)),
            old(self).same_world(*final(self)),
            old(self).same_crash(*final(self)),
            final(self).buffer_calls@ == old(self).buffer_calls@,
            final(self).n_objects() == old(self).n_objects(),
            forall|g: u32|
                old(self).valid_obj(g) && g != recv.data ==> #[trigger] final(self).obj_vars(g)
                    == old(self).obj_vars(g),
            forall|g: u32|
                old(self).valid_obj(g) ==> #[trigger] final(self).obj_path(g) == old(self).obj_path(
                    g,
                ) && final(self).obj_rc(g) == old(self).obj_rc(g),
            ok <==> (recv.tag == crate::value::DATUM_TAG && old(self).valid_obj(recv.data) && old(self).valid_str(name_id)),
            ok ==> final(self).obj_vars(recv.data) == var_write_of(
                old(self).obj_vars(recv.data),
                name_id,
                val,
            ) && final(self).err_model() == old(self).err_model(),
            !ok ==> old(self).same_objects(*final(self)) && final(self).err_model() is Some,
    {
        if recv.get_type() != crate::value::DATUM_TAG || (recv.data as usize)
            >= self.objects.len() || (name_id as usize) >= self.strings.len() {
            self.set_error("cannot write this variable");
            return false;
        }
        let n = self.objects[recv.data as usize].vars.len();
        let ghost vars = self.obj_vars(recv.data);
        let ghost p = |e: VarEntry| e.name_id == name_id;
        let mut i: usize = 0;
        while i < n
            invariant
                *self == *old(self),
                i <= n,
                forall|j: int| 0 <= j < i ==> !p(vars[j]),
            decreases n - i,
        {
            let e = self.objects[recv.data as usize].vars[i];
            if e.name_id == name_id {
                proof {
                    lemma_find_first_at(vars, p, i as int);
                }
                self.objects[recv.data as usize].vars[i] = VarEntry { name_id, val };
                return true;
            }
            i = i + 1;
        }
        proof {
            lemma_find_first_at(vars, p, n as int);
        }
        self.objects[recv.data as usize].vars.push(VarEntry { name_id, val });
        true
    }

    /// Creates a fresh pointer cell holding the given value and hands out
    /// its handle, or reports failure when cell storage is exhausted. Real
    /// pointers arrive from the host; this is how a test rig fabricates
    /// one.
    pub fn new_cell(&mut self, init: ByondValue) -> (r: Option<u32>)
        requires
            old(self).wf(),
        ensures
            final(self).wf(),
            old(self).same_strings(*final(self)),
            old(self).same_lists(*final(self)),
            old(self).same_objects(*final(self)),
            old(self).same_world(*final(self)),
            old(self).same_crash(*final(self)),
            final(self).buffer_calls@ == old(self).buffer_calls@,
            old(self).n_cells() < 0xffff_fffe ==> (r matches Some(h) && h as int == old(self).n_cells() && final(self).n_cells() == old(self).n_cells() + 1 && final(self).cell_at(
                h,
            ) == init && final(self).err_model() == old(self).err_model()),
            old(self).n_cells() >= 0xffff_fffe ==> (r is None && old(self).same_cells(
                *final(self),
            ) && final(self).err_model() is Some),
            forall|g: u32|
                old(self).valid_cell(g) ==> #[trigger] final(self).cell_at(g) == old(self).cell_at(
                    g,
                ),
            final(self).n_cells() >= old(self).n_cells(),
    {
        if self.cells.len() >= 0xffff_fffe {
            self.set_error("out of pointer cells");
            return None;
        }
        let h = self.cells.len() as u32;
        self.cells.push(init);
        Some(h)
    }

    /// Dereferences a pointer value, or fails with a pending message when
    /// it is not a live pointer.
    pub fn cell_read(&mut self, v: ByondValue) -> (r: Option<ByondValue>)
        requires
            old(self).wf(),
        ensures
            final(self).wf(),
            old(self).same_but_err(*final(self)),
            final(self).buffer_calls@ == old(self).buffer_calls@,
            v.tag == crate::value::POINTER_TAG && old(self).valid_cell(v.data) ==> (r == Some(
                old(self).cell_at(v.data),
            ) && final(self).err_model() == old(self).err_model()),
            !(v.tag == crate::value::POINTER_TAG && old(self).valid_cell(v.data)) ==> (r is None
                && final(self).err_model() is Some),
    {
        if v.is_ptr() && (v.data as usize) < self.cells.len() {
            Some(self.cells[v.data as usize])
        } else {
            self.set_error("cannot read through this pointer");
            None
        }
    }

    /// Stores a value behind a pointer, or fails with a pending message
    /// when it is not a live pointer.
    pub fn cell_write(&mut self, v: ByondValue, w: ByondValue) -> (ok: bool)
        requires
            old(self).wf(),
        ensures
            final(self).wf(),
            old(self).same_strings(*final(self)),
            old(self).same_lists(*final(self)),
            old(self).same_objects(*final(self)),
            old(self).same_world(*final(self)),
            old(self).same_crash(*final(self)),
            final(self).buffer_calls@ == old(self).buffer_calls@,
            final(self).n_cells() == old(self).n_cells(),
            forall|g: u32|
                old(self).valid_cell(g) && g != v.data ==> #[trigger] final(self).cell_at(g) == old(self).cell_at(g),
            ok <==> (v.tag == crate::value::POINTER_TAG && old(self).valid_cell(v.data)),
            ok ==> final(self).cell_at(v.data) == w && final(self).err_model() == old(self).err_model(),
            !ok ==> old(self).same_cells(*final(self)) && final(self).err_model() is Some,
    {
        if v.is_ptr() && (v.data as usize) < self.cells.len() {
            self.cells[v.data as usize] = w;
            true
        } else {
            self.set_error("cannot write through this pointer");
            false
        }
    }

    /// Takes one more strong reference on a list or object; anything else
    /// is left alone, as the host ignores reference operations on
    /// non-reference values. Saturates at the counter's maximum.
    pub fn inc_ref(&mut self, v: ByondValue)
        requires
            old(self).wf(),
        ensures
            final(self).wf(),
            old(self).same_strings(*final(self)),
            old(self).same_cells(*final(self)),
            old(self).same_world(*final(self)),
            old(self).same_crash(*final(self)),
            final(self).err_model() == old(self).err_model(),
            final(self).buffer_calls@ == old(self).buffer_calls@,
            old(self).untouched_list_entries(*final(self)),
            old(self).untouched_obj_data(*final(self)),
            old(self).rc_frame(*final(self), v),
            v.tag == crate::value::LIST_TAG && old(self).valid_list(v.data) ==> final(self).list_rc(
                v.data,
            ) == (if old(self).list_rc(v.data) < 0xffff_ffff {
                old(self).list_rc(v.data) + 1
            } else {
                old(self).list_rc(v.data) as int
            }),
            v.tag == crate::value::DATUM_TAG && old(self).valid_obj(v.data) ==> final(self).obj_rc(
                v.data,
            ) == (if old(self).obj_rc(v.data) < 0xffff_ffff {
                old(self).obj_rc(v.data) + 1
            } else {
                old(self).obj_rc(v.data) as int
            }),
    {
        if v.is_list() && (v.data as usize) < self.lists.len() {
            let rc = self.lists[v.data as usize].refcount;
            if rc < 0xffff_ffff {
                self.lists[v.data as usize].refcount = rc + 1;
            }
        } else if v.get_type() == crate::value::DATUM_TAG && (v.data as usize)
            < self.objects.len() {
            let rc = self.objects[v.data as usize].refcount;
            if rc < 0xffff_ffff {
                self.objects[v.data as usize].refcount = rc + 1;
            }
        }
    }

    /// Releases one strong reference on a list or object; anything else is
    /// left alone. Saturates at zero.
    pub fn dec_ref(&mut self, v: ByondValue)
        requires
            old(self).wf(),
        ensures
            final(self).wf(),
            old(self).same_strings(*final(self)),
            old(self).same_cells(*final(self)),
            old(self).same_world(*final(self)),
            old(self).same_crash(*final(self)),
            final(self).err_model() == old(self).err_model(),
            final(self).buffer_calls@ == old(self).buffer_calls@,
            old(self).untouched_list_entries(*final(self)),
            old(self).untouched_obj_data(*final(self)),
            old(self).rc_frame(*final(self), v),
            v.tag == crate::value::LIST_TAG && old(self).valid_list(v.data) ==> final(self).list_rc(
                v.data,
            ) == (if old(self).list_rc(v.data) > 0 {
                old(self).list_rc(v.data) - 1
            } else {
                0int
            }),
            v.tag == crate::value::DATUM_TAG && old(self).valid_obj(v.data) ==> final(self).obj_rc(
                v.data,
            ) == (if old(self).obj_rc(v.data) > 0 {
                old(self).obj_rc(v.data) - 1
            } else {
                0int
            }),
    {
        if v.is_list() && (v.data as usize) < self.lists.len() {
            let rc = self.lists[v.data as usize].refcount;
            if rc > 0 {
                self.lists[v.data as usize].refcount = rc - 1;
            }
        } else if v.get_type() == crate::value::DATUM_TAG && (v.data as usize)
            < self.objects.len() {
            let rc = self.objects[v.data as usize].refcount;
            if rc > 0 {
                self.objects[v.data as usize].refcount = rc - 1;
            }
        }
    }

    /// The strong-reference count of a list or object, or a pending failure
    /// for anything the host tracks no count for.
    pub fn refcount_of(&mut self, v: ByondValue) -> (r: Option<u32>)
        requires
            old(self).wf(),
        ensures
            final(self).wf(),
            old(self).same_but_err(*final(self)),
            final(self).buffer_calls@ == old(self).buffer_calls@,
            v.tag == crate::value::LIST_TAG && old(self).valid_list(v.data) ==> (r == Some(
                old(self).list_rc(v.data),
            ) && final(self).err_model() == old(self).err_model()),
            v.tag == crate::value::DATUM_TAG && old(self).valid_obj(v.data) ==> (r == Some(
                old(self).obj_rc(v.data),
            ) && final(self).err_model() == old(self).err_model()),
            !(v.tag == crate::value::LIST_TAG && old(self).valid_list(v.data)) && !(v.tag
                == crate::value::DATUM_TAG && old(self).valid_obj(v.data)) ==> (r is None && final(self).err_model() is Some),
    {
        if v.is_list() && (v.data as usize) < self.lists.len() {
            Some(self.lists[v.data as usize].refcount)
        } else if v.get_type() == crate::value::DATUM_TAG && (v.data as usize)
            < self.objects.len() {
            Some(self.objects[v.data as usize].refcount)
        } else {
            self.set_error("this value has no reference count");
            None
        }
    }
}

/// The linear turf-grid handle of 1-based world coordinates.
pub open spec fn turf_handle_of(w: int, h: int, x: int, y: int, z: int) -> int {
    (x - 1) + (y - 1) * w + (z - 1) * w * h
}

/// The turfs of the rectangular block between two corners, clamped to the
/// world, enumerated x first, then y, then z: what the host's block call
/// returns.
pub open spec fn block_seq(
    host: Host,
    x1: i16,
    y1: i16,
    z1: i16,
    x2: i16,
    y2: i16,
    z2: i16,
) -> Seq<ByondValue> {
    let w = host.world_w as int;
    let h = host.world_h as int;
    let lox = if vstd::math::min(x1 as int, x2 as int) > 1 { vstd::math::min(x1 as int, x2 as int) } else { 1int };
    let loy = if vstd::math::min(y1 as int, y2 as int) > 1 { vstd::math::min(y1 as int, y2 as int) } else { 1int };
    let loz = if vstd::math::min(z1 as int, z2 as int) > 1 { vstd::math::min(z1 as int, z2 as int) } else { 1int };
    let hix = if vstd::math::max(x1 as int, x2 as int) < w { vstd::math::max(x1 as int, x2 as int) } else { w };
    let hiy = if vstd::math::max(y1 as int, y2 as int) < h { vstd::math::max(y1 as int, y2 as int) } else { h };
    let hiz = if vstd::math::max(z1 as int, z2 as int) < host.world_d as int { vstd::math::max(z1 as int, z2 as int) } else { host.world_d as int };
    if lox > hix || loy > hiy || loz > hiz {
        Seq::empty()
    } else {
        let nx = hix - lox + 1;
        let ny = hiy - loy + 1;
        let nz = hiz - loz + 1;
        Seq::new(
            (nx * ny * nz) as nat,
            |i: int|
                crate::value::turf_value(
                    turf_handle_of(
                        w,
                        h,
                        lox + i % nx,
                        loy + (i / nx) % ny,
                        loz + i / (nx * ny),
                    ) as u32,
                ),
        )
    }
}

impl Host {
    /// Serves a block bulk read: the turfs between the two corners, clamped
    /// to the world, against a caller buffer of the given capacity, with the
    /// true turf count reported either way.
    #[verifier::loop_isolation(false)]
    #[verifier::rlimit(100)]
    #[verifier::spinoff_prover]
    pub fn block_bulk(
        &mut self,
        x1: i16,
        y1: i16,
        z1: i16,
        x2: i16,
        y2: i16,
        z2: i16,
        cap: u32,
    ) -> (r: (bool, u32, Vec<ByondValue>))
        requires
            old(self).wf(),
        ensures
            final(self).wf(),
            old(self).same_but_err(*final(self)),
            final(self).buffer_calls@ == old(self).buffer_calls@ + 1,
            block_seq(*old(self), x1, y1, z1, x2, y2, z2).len() <= cap as int ==> (r.0 && r.1
                as int == block_seq(*old(self), x1, y1, z1, x2, y2, z2).len() && r.2@ == block_seq(
                *old(self),
                x1,
                y1,
                z1,
                x2,
                y2,
                z2,
            ) && final(self).err_model() == old(self).err_model()),
            block_seq(*old(self), x1, y1, z1, x2, y2, z2).len() > cap as int ==> (!r.0 && r.1
                as int == block_seq(*old(self), x1, y1, z1, x2, y2, z2).len() && final(self).err_model() is Some),
    {
        self.buffer_calls = Ghost(self.buffer_calls@ + 1);
        let w = self.world_w as i32;
        let h = self.world_h as i32;
        let d = self.world_d as i32;
        let mut lox: i32 = if (x1 as i32) < (x2 as i32) { x1 as i32 } else { x2 as i32 };
        let mut loy: i32 = if (y1 as i32) < (y2 as i32) { y1 as i32 } else { y2 as i32 };
        let mut loz: i32 = if (z1 as i32) < (z2 as i32) { z1 as i32 } else { z2 as i32 };
        let mut hix: i32 = if (x1 as i32) > (x2 as i32) { x1 as i32 } else { x2 as i32 };
        let mut hiy: i32 = if (y1 as i32) > (y2 as i32) { y1 as i32 } else { y2 as i32 };
        let mut hiz: i32 = if (z1 as i32) > (z2 as i32) { z1 as i32 } else { z2 as i32 };
        if lox < 1 {
            lox = 1;
        }
        if loy < 1 {
            loy = 1;
        }
        if loz < 1 {
            loz = 1;
        }
        if hix > w {
            hix = w;
        }
        if hiy > h {
            hiy = h;
        }
        if hiz > d {
            hiz = d;
        }
        let ghost b = block_seq(*old(self), x1, y1, z1, x2, y2, z2);
        if lox > hix || loy > hiy || loz > hiz {
            proof {
                assert(b.len() == 0);
            }
            return (true, 0, Vec::new());
        }
        let nx = (hix - lox + 1) as u64;
        let ny = (hiy - loy + 1) as u64;
        let nz = (hiz - loz + 1) as u64;
        proof {
            assert(nx * ny * nz <= (w as u64) * (h as u64) * (d as u64)) by (nonlinear_arith)
                requires
                    1 <= nx <= w as u64,
                    1 <= ny <= h as u64,
                    1 <= nz <= d as u64,
            ;
            assert((w as u64) * (h as u64) * (d as u64) <= MAX_LIST_LEN as u64);
            assert(b.len() == nx * ny * nz);
            assert(nx * ny <= 0x4000_0000 && nx * ny * nz <= 0x2000_0000_0000) by (nonlinear_arith)
                requires
                    1 <= nx <= 0x8000,
                    1 <= ny <= 0x8000,
                    1 <= nz <= 0x8000,
            ;
        }
        let count = nx * ny * nz;
        if count > cap as u64 {
            self.set_error("buffer too small");
            return (false, count as u32, Vec::new());
        }
        let mut out: Vec<ByondValue> = Vec::new();
        let mut i: u64 = 0;
        while i < count
            invariant
                i <= count,
                out@.len() == i as int,
                forall|j: int| 0 <= j < i ==> out@[j] == b[j],
            decreases count - i,
        {
            proof {
                assert(1 <= nx * ny) by (nonlinear_arith)
                    requires
                        1 <= nx,
                        1 <= ny,
                ;
            }
            let ox = i % nx;
            let oy = (i / nx) % ny;
            let oz = i / (nx * ny);
            proof {
                vstd::arithmetic::div_mod::lemma_mod_bound(i as int, nx as int);
                vstd::arithmetic::div_mod::lemma_mod_bound((i / nx) as int, ny as int);
                vstd::arithmetic::div_mod::lemma_multiply_divide_lt(i as int, (nx * ny) as int, nz as int);
                assert((i as int) / ((nx * ny) as int) < (nz as int)) by {
                    assert(i < nx * ny * nz);
                    assert((nx * ny) * nz == nx * ny * nz) by (nonlinear_arith);
                }
                assert((lox - 1 + ox) + (loy - 1 + oy) * w + (loz - 1 + oz) * w * h < w * h * d)
                    by (nonlinear_arith)
                    requires
                        0 <= lox - 1 + ox < w,
                        0 <= loy - 1 + oy < h,
                        0 <= loz - 1 + oz < d,
                        1 <= w,
                        1 <= h,
                        1 <= d,
                ;
            }
            let tx = (lox as u64) - 1 + ox;
            let ty = (loy as u64) - 1 + oy;
            let tz = (loz as u64) - 1 + oz;
            proof {
                assert(ty * (w as u64) <= 0x4000_0000 && tz * (w as u64) <= 0x4000_0000 && tz * (
                w as u64) * (h as u64) <= 0x2000_0000_0000) by (nonlinear_arith)
                    requires
                        0 <= ty <= 0x8000,
                        0 <= tz <= 0x8000,
                        1 <= (w as u64) <= 0x8000,
                        1 <= (h as u64) <= 0x8000,
                ;
            }
            let handle = tx + ty * (w as u64) + tz * (w as u64) * (h as u64);
            out.push(ByondValue::new_ref(crate::value::TURF_TAG, handle as u32));
            i = i + 1;
        }
        proof {
            assert(out@ =~= b);
        }
        (true, count as u32, out)
    }

    /// The turf at the given 1-based coordinates, or null when they lie
    /// outside the world. Never fails.
    pub fn turf_at_xyz(&self, x: i16, y: i16, z: i16) -> (r: ByondValue)
        requires
            self.wf(),
        ensures
            1 <= x as int <= self.world_w as int && 1 <= y as int <= self.world_h as int && 1 <= z
                as int <= self.world_d as int ==> r == crate::value::turf_value(
                turf_handle_of(
                    self.world_w as int,
                    self.world_h as int,
                    x as int,
                    y as int,
                    z as int,
                ) as u32,
            ),
            !(1 <= x as int <= self.world_w as int && 1 <= y as int <= self.world_h as int && 1 <= z
                as int <= self.world_d as int) ==> r == crate::value::null_value(),
    {
        if 1 <= x && (x as u16) <= self.world_w && 1 <= y && (y as u16) <= self.world_h && 1 <= z
            && (z as u16) <= self.world_d {
            let w = self.world_w as u64;
            let h = self.world_h as u64;
            proof {
                assert(((x - 1) as int) + ((y - 1) as int) * (w as int) + ((z - 1) as int) * (
                w as int) * (h as int) < (w as int) * (h as int) * (self.world_d as int))
                    by (nonlinear_arith)
                    requires
                        0 <= ((x - 1) as int) < (w as int),
                        0 <= ((y - 1) as int) < (h as int),
                        0 <= ((z - 1) as int) < (self.world_d as int),
                        1 <= (w as int),
                        1 <= (h as int),
                        1 <= (self.world_d as int),
                ;
            }
            proof {
                assert(((y - 1) as u64) * w <= 0x4000_0000 && ((z - 1) as u64) * w
                    <= 0x4000_0000 && ((z - 1) as u64) * w * h <= 0x2000_0000_0000)
                    by (nonlinear_arith)
                    requires
                        0 <= ((y - 1) as u64) <= 0x8000,
                        0 <= ((z - 1) as u64) <= 0x8000,
                        1 <= w <= 0x8000,
                        1 <= h <= 0x8000,
                ;
            }
            let handle = ((x - 1) as u64) + ((y - 1) as u64) * w + ((z - 1) as u64) * w * h;
            ByondValue::new_ref(crate::value::TURF_TAG, handle as u32)
        } else {
            ByondValue::null()
        }
    }

    /// The 1-based coordinates of a turf; anything else that is alive on
    /// the host sits on no turf and reports the zero coordinates, and a
    /// value the host does not own fails with a pending message.
    pub fn xyz_of(&mut self, v: ByondValue) -> (r: Option<(i16, i16, i16)>)
        requires
            old(self).wf(),
        ensures
            final(self).wf(),
            old(self).same_but_err(*final(self)),
            final(self).buffer_calls@ == old(self).buffer_calls@,
            v.tag == crate::value::TURF_TAG && (v.data as int) < (old(self).world_w as int) * (old(self).world_h as int) * (old(self).world_d as int) ==> (r matches Some(c) && c.0 as int == v.data as int % (
                old(self).world_w as int) + 1 && c.1 as int == (v.data as int / (old(self).world_w
                as int)) % (old(self).world_h as int) + 1 && c.2 as int == v.data as int / ((old(self).world_w as int) * (old(self).world_h as int)) + 1 && final(self).err_model() == old(self).err_model()),
            v.tag == crate::value::DATUM_TAG && old(self).valid_obj(v.data) ==> (r == Some(
                (0i16, 0i16, 0i16),
            ) && final(self).err_model() == old(self).err_model()),
            v.tag == crate::value::LIST_TAG && old(self).valid_list(v.data) ==> (r == Some(
                (0i16, 0i16, 0i16),
            ) && final(self).err_model() == old(self).err_model()),
            !(v.tag == crate::value::TURF_TAG && (v.data as int) < (old(self).world_w as int) * (
            old(self).world_h as int) * (old(self).world_d as int)) && !(v.tag
                == crate::value::DATUM_TAG && old(self).valid_obj(v.data)) && !(v.tag
                == crate::value::LIST_TAG && old(self).valid_list(v.data)) ==> (r is None && final(self).err_model() is Some),
    {
        let w = self.world_w as u64;
        let h = self.world_h as u64;
        let d = self.world_d as u64;
        proof {
            assert(w * h <= 0x4000_0000 && w * h * d <= 0x2000_0000_0000) by (nonlinear_arith)
                requires
                    1 <= w <= 0x8000,
                    1 <= h <= 0x8000,
                    1 <= d <= 0x8000,
            ;
        }
        if v.get_type() == crate::value::TURF_TAG && (v.data as u64) < w * h * d {
            let t = v.data as u64;
            let x = t % w;
            let y = (t / w) % h;
            let z = t / (w * h);
            proof {
                vstd::arithmetic::div_mod::lemma_mod_bound(t as int, w as int);
                vstd::arithmetic::div_mod::lemma_mod_bound((t / w) as int, h as int);
                vstd::arithmetic::div_mod::lemma_multiply_divide_lt(t as int, (w * h) as int, d as int);
                assert((t as int) / ((w * h) as int) < (d as int)) by {
                    assert(t < w * h * d);
                    assert((w * h) * d == w * h * d) by (nonlinear_arith);
                }
            }
            Some(((x + 1) as i16, (y + 1) as i16, (z + 1) as i16))
        } else if v.get_type() == crate::value::DATUM_TAG && (v.data as usize)
            < self.objects.len() {
            Some((0, 0, 0))
        } else if v.is_list() && (v.data as usize) < self.lists.len() {
            Some((0, 0, 0))
        } else {
            self.set_error("this value has no location");
            None
        }
    }

    /// Finds the first stored value of a list that is an object of the
    /// given type path, as the host's contained-locate call does: the
    /// needle is an interned path string, the haystack a list; a miss
    /// yields null, not an error.
    #[verifier::loop_isolation(false)]
    pub fn locate_in(&mut self, needle: ByondValue, haystack: ByondValue) -> (r: Option<
        ByondValue,
    >)
        requires
            old(self).wf(),
        ensures
            final(self).wf(),
            old(self).same_but_err(*final(self)),
            final(self).buffer_calls@ == old(self).buffer_calls@,
            !(needle.tag == crate::value::STRING_TAG && haystack.tag == crate::value::LIST_TAG
                && old(self).valid_list(haystack.data)) ==> (r is None && final(self).err_model()
                is Some),
            needle.tag == crate::value::STRING_TAG && haystack.tag == crate::value::LIST_TAG && old(self).valid_list(haystack.data) ==> (final(self).err_model() == old(self).err_model() && r
                == Some(
                {
                    let entries = old(self).list_at(haystack.data);
                    let i = find_first(
                        entries,
                        |e: ListEntry|
                            e.key.tag == crate::value::DATUM_TAG && old(self).valid_obj(e.key.data)
                                && old(self).obj_path(e.key.data) == needle.data,
                    );
                    if i >= 0 {
                        entries[i].key
                    } else {
                        crate::value::null_value()
                    }
                },
            )),
    {
        if needle.get_type() != crate::value::STRING_TAG || haystack.get_type()
            != crate::value::LIST_TAG || (haystack.data as usize) >= self.lists.len() {
            self.set_error("cannot locate in this value");
            return None;
        }
        let h = haystack.data;
        let n = self.lists[h as usize].entries.len();
        let ghost entries = self.list_at(h);
        let ghost p = |e: ListEntry|
            e.key.tag == crate::value::DATUM_TAG && self.valid_obj(e.key.data) && self.obj_path(
                e.key.data,
            ) == needle.data;
        let mut i: usize = 0;
        while i < n
            invariant
                i <= n,
                forall|j: int| 0 <= j < i ==> !p(entries[j]),
            decreases n - i,
        {
            let e = self.lists[h as usize].entries[i];
            if e.key.get_type() == crate::value::DATUM_TAG && (e.key.data as usize)
                < self.objects.len() && self.objects[e.key.data as usize].path_id == needle.data {
                proof {
                    lemma_find_first_at(entries, p, i as int);
                }
                return Some(e.key);
            }
            i = i + 1;
        }
        proof {
            lemma_find_first_at(entries, p, n as int);
        }
        Some(ByondValue::null())
    }

    /// Finds the first host-owned object of the given type path anywhere in
    /// the world, as the host's global locate call does; a miss yields
    /// null, not an error.
    #[verifier::loop_isolation(false)]
    pub fn locate_by(&mut self, needle: ByondValue) -> (r: Option<ByondValue>)
        requires
            old(self).wf(),
        ensures
            final(self).wf(),
            old(self).same_but_err(*final(self)),
            final(self).buffer_calls@ == old(self).buffer_calls@,
            needle.tag != crate::value::STRING_TAG ==> (r is None && final(self).err_model()
                is Some),
            needle.tag == crate::value::STRING_TAG ==> (final(self).err_model() == old(self).err_model() && r == Some(
                {
                    let i = find_first(
                        old(self).objects@,
                        |o: ObjData| o.path_id == needle.data,
                    );
                    if i >= 0 {
                        crate::value::datum_value(i as u32)
                    } else {
                        crate::value::null_value()
                    }
                },
            )),
    {
        if needle.get_type() != crate::value::STRING_TAG {
            self.set_error("cannot locate by this value");
            return None;
        }
        let n = self.objects.len();
        let ghost objs = self.objects@;
        let ghost p = |o: ObjData| o.path_id == needle.data;
        let mut i: usize = 0;
        while i < n
            invariant
                i <= n,
                forall|j: int| 0 <= j < i ==> !p(objs[j]),
            decreases n - i,
        {
            if self.objects[i].path_id == needle.data {
                proof {
                    lemma_find_first_at(objs, p, i as int);
                }
                return Some(ByondValue::new_ref(crate::value::DATUM_TAG, i as u32));
            }
            i = i + 1;
        }
        proof {
            lemma_find_first_at(objs, p, n as int);
        }
        Some(ByondValue::null())
    }
}

/// Byte-for-byte comparison of two byte vectors.
#[verifier::loop_isolation(false)]
pub fn vec_u8_eq(a: &Vec<u8>, b: &Vec<u8>) -> (r: bool)
    ensures
        r == (a@ == b@),
{
    if a.len() != b.len() {
        proof {
            assert(a@ != b@);
        }
        return false;
    }
    let mut i: usize = 0;
    while i < a.len()
        invariant
            a@.len() == b@.len(),
            i <= a@.len(),
            forall|j: int| 0 <= j < i ==> a@[j] == b@[j],
        decreases a@.len() - i,
    {
        if a[i] != b[i] {
            return false;
        }
        i = i + 1;
    }
    proof {
        assert(a@ =~= b@);
    }
    true
}

} // verus!
