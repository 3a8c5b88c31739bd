//! String-identifier interning: content in, small stable identifier out.
//!
//! The host assigns each distinct byte string a small identifier, stable for
//! the process lifetime; its table is append-only, so an identifier once
//! issued never changes meaning. A native-side cache therefore turns
//! repeated lookups of the same content into one host round-trip.

use crate::error::Error;
use crate::host::{vec_u8_eq, Host, STR_ID_NONE};
use vstd::prelude::*;

verus! {

/// Looks up the identifier the host assigned to the given bytes, failing
/// with the non-existent-string error (carrying the bytes) when the host's
/// lookup reports its not-found sentinel. Never creates an identifier.
pub fn str_id_of(host: &Host, string: &Vec<u8>) -> (r: Result<u32, Error>)
    requires
        host.wf(),
    ensures
        r matches Ok(id) ==> host.valid_str(id) && host.str_at(id) == string@,
        r is Err ==> (r matches Err(e) && e matches Error::NonExistentString(b) && b@ == string@
            && !host.has_str(string@)),
        r is Ok <==> host.has_str(string@),
{
    let id = host.get_str_id(string);
    if id == STR_ID_NONE {
        Err(Error::NonExistentString(string.clone()))
    } else {
        proof {
            assert(host.has_str(string@));
        }
        Ok(id)
    }
}

/// Interning is idempotent: on a well-formed host the identifier of given
/// content is unique, so every lookup of the same bytes yields the same
/// identifier.
pub proof fn lemma_intern_idempotent(host: Host, s: Seq<u8>, id1: u32, id2: u32)
    requires
        host.wf(),
        host.valid_str(id1),
        host.str_at(id1) == s,
        host.valid_str(id2),
        host.str_at(id2) == s,
    ensures
        id1 == id2,
{
    if id1 != id2 {
        if id1 < id2 {
            assert(host.table()[id1 as int] != host.table()[id2 as int]);
        } else {
            assert(host.table()[id2 as int] != host.table()[id1 as int]);
        }
    }
}

/// One memoized name-to-identifier binding.
pub struct CachedId {
    /// The interned content.
    pub name: Vec<u8>,
    /// The identifier the host assigned to it.
    pub id: u32,
}

/// A native-side memo of identifier lookups, sound because the host's
/// table is append-only for the process lifetime.
pub struct StrIdCache {
    /// The bindings learned so far.
    pub entries: Vec<CachedId>,
}

impl StrIdCache {
    /// Every cached binding agrees with the host's table.
    pub open spec fn wf(self, host: Host) -> bool {
        forall|i: int|
            0 <= i < self.entries@.len() ==> host.valid_str(#[trigger] self.entries@[i].id)
                && host.str_at(self.entries@[i].id) == self.entries@[i].name@
    }

    /// An empty cache, valid for any host.
    pub fn new() -> (r: StrIdCache)
        ensures
            forall|host: Host| r.wf(host),
    {
        StrIdCache { entries: Vec::new() }
    }

    /// The identifier of the given bytes, answered from the cache when the
    /// content was looked up before and from the host otherwise; a fresh
    /// answer is remembered. Same contract as [`str_id_of`], and idempotent:
    /// any two lookups of equal bytes against the same host yield the same
    /// identifier.
    #[verifier::loop_isolation(false)]
    pub fn str_id_cached(&mut self, host: &Host, string: &Vec<u8>) -> (r: Result<u32, Error>)
        requires
            host.wf(),
            old(self).wf(*host),
        ensures
            final(self).wf(*host),
            r matches Ok(id) ==> host.valid_str(id) && host.str_at(id) == string@,
            r is Err ==> (r matches Err(e) && e matches Error::NonExistentString(b) && b@
                == string@ && !host.has_str(string@)),
            r is Ok <==> host.has_str(string@),
    {
        let mut i: usize = 0;
        while i < self.entries.len()
            invariant
                *self == *old(self),
                i <= self.entries@.len(),
            decreases self.entries@.len() - i,
        {
            if vec_u8_eq(&self.entries[i].name, string) {
                proof {
                    let id = self.entries@[i as int].id;
                    assert(host.table()[id as int] == string@);
                }
                return Ok(self.entries[i].id);
            }
            i = i + 1;
        }
        match str_id_of(host, string) {
            Ok(id) => {
                self.entries.push(CachedId { name: string.clone(), id });
                Ok(id)
            },
            Err(e) => Err(e),
        }
    }
}

} // verus!
