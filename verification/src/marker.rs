//! The upload status marker: a filesystem entry whose presence tells outside
//! observers that an upload for an artifact is in flight. This module only
//! derives the marker's name; placing and clearing the entry is an action the
//! task processor hands to the caller.

use vstd::prelude::*;

verus! {

/// Width of the store-root prefix that every conforming artifact path
/// carries; the marker is named by the path with this prefix stripped.
pub const STORE_PREFIX_LEN: usize = 11;

/// The marker name for an artifact path, or `None` for a path shorter than
/// the store-root prefix: such a path does not follow the store layout, and
/// marker bookkeeping is skipped for it rather than inventing a name.
pub open spec fn spec_marker_name(path: Seq<u8>) -> Option<Seq<u8>> {
    if path.len() >= STORE_PREFIX_LEN {
        Some(path.skip(STORE_PREFIX_LEN as int))
    } else {
        None
    }
}

pub fn marker_name(path: &Vec<u8>) -> (r: Option<Vec<u8>>)
    ensures
        r is Some <==> path@.len() >= STORE_PREFIX_LEN,
        r matches Some(name) ==> spec_marker_name(path@) == Some(name@),
{
    if path.len() < STORE_PREFIX_LEN {
        return None;
    }
    let mut name: Vec<u8> = Vec::new();
    let mut i: usize = STORE_PREFIX_LEN;
    while i < path.len()
        invariant
            STORE_PREFIX_LEN <= i <= path@.len(),
            name@ == path@.subrange(STORE_PREFIX_LEN as int, i as int),
        decreases path@.len() - i,
    {
        let b: u8 = path[i];
        name.push(b);
        i = i + 1;
        proof {
            assert(name@ =~= path@.subrange(STORE_PREFIX_LEN as int, i as int));
        }
    }
    proof {
        assert(name@ =~= path@.skip(STORE_PREFIX_LEN as int));
    }
    Some(name)
}

} // verus!
