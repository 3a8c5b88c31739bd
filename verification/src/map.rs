//! World-map helpers: coordinates, rectangular turf blocks, and locate
//! queries.

use crate::buffer::ScratchBuffer;
use crate::error::Error;
use crate::host::{block_seq, find_first, Host, ListEntry, ObjData};
use crate::value::{ByondValue, DATUM_TAG, LIST_TAG, STRING_TAG, TURF_TAG};
use vstd::prelude::*;

verus! {

/// A triple of 1-based world coordinates, as the host exchanges them.
#[derive(Debug, Clone, Copy)]
pub struct ByondXYZ {
    /// West-to-east coordinate.
    pub x: i16,
    /// South-to-north coordinate.
    pub y: i16,
    /// Depth level.
    pub z: i16,
}

impl ByondXYZ {
    /// The origin triple.
    pub fn new() -> (r: Self)
        ensures
            r.x == 0 && r.y == 0 && r.z == 0,
    {
        ByondXYZ { x: 0, y: 0, z: 0 }
    }

    /// A triple from its three coordinates.
    pub fn with_coords(coords: (i16, i16, i16)) -> (r: Self)
        ensures
            r.x == coords.0 && r.y == coords.1 && r.z == coords.2,
    {
        ByondXYZ { x: coords.0, y: coords.1, z: coords.2 }
    }

    /// The three coordinates back.
    pub fn coordinates(&self) -> (r: (i16, i16, i16))
        ensures
            r.0 == self.x && r.1 == self.y && r.2 == self.z,
    {
        (self.x, self.y, self.z)
    }
}

impl Default for ByondXYZ {
    /// The default triple is the origin.
    fn default() -> (r: Self)
        ensures
            r.x == 0 && r.y == 0 && r.z == 0,
    {
        ByondXYZ::new()
    }
}

/// The turfs in the rectangular zone between the two corners, clamped to
/// the world, fetched by the two-phase buffer protocol. The scratch
/// buffer's storage is taken for the result, leaving it empty for the next
/// use.
pub fn byond_block(
    host: &mut Host,
    buf: &mut ScratchBuffer,
    corner1: ByondXYZ,
    corner2: ByondXYZ,
) -> (r: Result<Vec<ByondValue>, Error>)
    requires
        old(host).wf(),
    ensures
        final(host).wf(),
        old(host).same_but_err(*final(host)),
        final(buf).capacity == 0,
        r matches Ok(v) && v@ == block_seq(
            *old(host),
            corner1.x,
            corner1.y,
            corner1.z,
            corner2.x,
            corner2.y,
            corner2.z,
        ),
        block_seq(
            *old(host),
            corner1.x,
            corner1.y,
            corner1.z,
            corner2.x,
            corner2.y,
            corner2.z,
        ).len() <= old(buf).capacity as int ==> final(host).buffer_calls@ == old(
            host,
        ).buffer_calls@ + 1,
        block_seq(
            *old(host),
            corner1.x,
            corner1.y,
            corner1.z,
            corner2.x,
            corner2.y,
            corner2.z,
        ).len() > old(buf).capacity as int ==> final(host).buffer_calls@ == old(
            host,
        ).buffer_calls@ + 2,
{
    let cap = buf.capacity;
    buf.capacity = 0;
    let (ok, len, data) = host.block_bulk(
        corner1.x,
        corner1.y,
        corner1.z,
        corner2.x,
        corner2.y,
        corner2.z,
        cap,
    );
    if ok {
        Ok(data)
    } else {
        let (_ok2, _len2, data2) = host.block_bulk(
            corner1.x,
            corner1.y,
            corner1.z,
            corner2.x,
            corner2.y,
            corner2.z,
            len,
        );
        Ok(data2)
    }
}

/// The first value in the haystack list that is an object of the type path
/// the needle names; null when none is. Fails when the needle is not a path
/// string or the haystack is not a live list.
pub fn byond_locatein(host: &mut Host, needle: &ByondValue, haystack: &ByondValue) -> (r: Result<
    ByondValue,
    Error,
>)
    requires
        old(host).wf(),
    ensures
        final(host).wf(),
        old(host).same_but_err(*final(host)),
        final(host).buffer_calls@ == old(host).buffer_calls@,
        !(needle.tag == STRING_TAG && haystack.tag == LIST_TAG && old(host).valid_list(
            haystack.data,
        )) ==> (r matches Err(e) && e is ByondError),
        needle.tag == STRING_TAG && haystack.tag == LIST_TAG && old(host).valid_list(haystack.data)
            ==> r == Ok::<ByondValue, Error>(
            {
                let entries = old(host).list_at(haystack.data);
                let i = find_first(
                    entries,
                    |e: ListEntry|
                        e.key.tag == DATUM_TAG && old(host).valid_obj(e.key.data) && old(
                            host,
                        ).obj_path(e.key.data) == needle.data,
                );
                if i >= 0 {
                    entries[i].key
                } else {
                    crate::value::null_value()
                }
            },
        ),
{
    match host.locate_in(*needle, *haystack) {
        Some(v) => Ok(v),
        None => Err(Error::get_last_byond_error(host)),
    }
}

/// The first host-owned object of the type path the target names, anywhere
/// in the world; null when none is. Fails when the target is not a path
/// string.
pub fn byond_locateby(host: &mut Host, target: &ByondValue) -> (r: Result<ByondValue, Error>)
    requires
        old(host).wf(),
    ensures
        final(host).wf(),
        old(host).same_but_err(*final(host)),
        final(host).buffer_calls@ == old(host).buffer_calls@,
        target.tag != STRING_TAG ==> (r matches Err(e) && e is ByondError),
        target.tag == STRING_TAG ==> r == Ok::<ByondValue, Error>(
            {
                let i = find_first(old(host).objects@, |o: ObjData| o.path_id == target.data);
                if i >= 0 {
                    crate::value::datum_value(i as u32)
                } else {
                    crate::value::null_value()
                }
            },
        ),
{
    match host.locate_by(*target) {
        Some(v) => Ok(v),
        None => Err(Error::get_last_byond_error(host)),
    }
}

/// The turf at the given coordinates, or null when they lie outside the
/// world.
pub fn byond_locatexyz(host: &Host, coords: ByondXYZ) -> (r: Result<ByondValue, Error>)
    requires
        host.wf(),
    ensures
        1 <= coords.x as int <= host.world_w as int && 1 <= coords.y as int <= host.world_h as int
            && 1 <= coords.z as int <= host.world_d as int ==> r == Ok::<ByondValue, Error>(
            crate::value::turf_value(
                crate::host::turf_handle_of(
                    host.world_w as int,
                    host.world_h as int,
                    coords.x as int,
                    coords.y as int,
                    coords.z as int,
                ) as u32,
            ),
        ),
        !(1 <= coords.x as int <= host.world_w as int && 1 <= coords.y as int <= host.world_h as int
            && 1 <= coords.z as int <= host.world_d as int) ==> r == Ok::<ByondValue, Error>(
            crate::value::null_value(),
        ),
{
    Ok(host.turf_at_xyz(coords.x, coords.y, coords.z))
}

/// The location of the target: its own coordinates for a turf, the zero
/// triple for anything live that does not sit directly on a turf, and the
/// host's failure for a value it does not own.
pub fn byond_xyz(host: &mut Host, target: &ByondValue) -> (r: Result<ByondXYZ, Error>)
    requires
        old(host).wf(),
    ensures
        final(host).wf(),
        old(host).same_but_err(*final(host)),
        final(host).buffer_calls@ == old(host).buffer_calls@,
        target.tag == TURF_TAG && (target.data as int) < (old(host).world_w as int) * (old(
            host,
        ).world_h as int) * (old(host).world_d as int) ==> (r matches Ok(c) && c.x as int
            == target.data as int % (old(host).world_w as int) + 1 && c.y as int == (target.data
            as int / (old(host).world_w as int)) % (old(host).world_h as int) + 1 && c.z as int
            == target.data as int / ((old(host).world_w as int) * (old(host).world_h as int)) + 1),
        target.tag == DATUM_TAG && old(host).valid_obj(target.data) ==> (r matches Ok(c) && c.x
            == 0 && c.y == 0 && c.z == 0),
        target.tag == LIST_TAG && old(host).valid_list(target.data) ==> (r matches Ok(c) && c.x
            == 0 && c.y == 0 && c.z == 0),
        !(target.tag == TURF_TAG && (target.data as int) < (old(host).world_w as int) * (old(
            host,
        ).world_h as int) * (old(host).world_d as int)) && !(target.tag == DATUM_TAG && old(
            host,
        ).valid_obj(target.data)) && !(target.tag == LIST_TAG && old(host).valid_list(target.data))
            ==> (r matches Err(e) && e is ByondError),
{
    match host.xyz_of(*target) {
        Some((x, y, z)) => Ok(ByondXYZ { x, y, z }),
        None => Err(Error::get_last_byond_error(host)),
    }
}

} // verus!
