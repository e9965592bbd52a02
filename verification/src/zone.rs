//! The static layout of a zone as the session logic reads it: the zone id
//! and its named placement anchors ("pop ranges") used as warp and
//! teleport destinations.

use vstd::prelude::*;

use crate::common::Position;

verus! {

/// A named placement anchor inside a zone's static layout.
#[derive(Debug, Clone, Copy, PartialEq, Eq, Structural)]
pub struct PopRange {
    pub id: u32,
    pub position: Position,
}

/// A zone's static layout, resolved from reference data.
#[derive(Debug, PartialEq, Eq)]
pub struct Zone {
    pub id: u16,
    pub pop_ranges: Vec<PopRange>,
}

/// Spec-level value of a [`Zone`].
#[verifier::ext_equal]
pub struct ZoneModel {
    pub id: u16,
    pub pop_ranges: Seq<PopRange>,
}

impl View for Zone {
    type V = ZoneModel;

    open spec fn view(&self) -> ZoneModel {
        ZoneModel { id: self.id, pop_ranges: self.pop_ranges@ }
    }
}

/// The first pop range with the given id, if any.
pub open spec fn find_pop_range_in(ranges: Seq<PopRange>, id: u32) -> Option<PopRange>
    decreases ranges.len(),
{
    if ranges.len() == 0 {
        None
    } else if ranges[0].id == id {
        Some(ranges[0])
    } else {
        find_pop_range_in(ranges.subrange(1, ranges.len() as int), id)
    }
}

impl Zone {
    /// Finds the placement anchor with the given id in this zone's layout.
    pub fn find_pop_range(&self, id: u32) -> (r: Option<PopRange>)
        ensures
            r == find_pop_range_in(self.pop_ranges@, id),
    {
        let n = self.pop_ranges.len();
        let mut i: usize = 0;
        assert(self.pop_ranges@.subrange(0, n as int) =~= self.pop_ranges@);
        while i < n
            invariant
                i <= n,
                n == self.pop_ranges@.len(),
                find_pop_range_in(self.pop_ranges@.subrange(i as int, n as int), id)
                    == find_pop_range_in(self.pop_ranges@, id),
            decreases n - i,
        {
            let ghost t = self.pop_ranges@.subrange(i as int, n as int);
            proof {
                assert(t[0] == self.pop_ranges@[i as int]);
                assert(t.subrange(1, t.len() as int) =~= self.pop_ranges@.subrange(
                    i as int + 1,
                    n as int,
                ));
            }
            if self.pop_ranges[i].id == id {
                return Some(self.pop_ranges[i]);
            }
            i = i + 1;
        }
        proof {
            assert(self.pop_ranges@.subrange(n as int, n as int) =~= Seq::<PopRange>::empty());
        }
        None
    }
}

impl Clone for Zone {
    fn clone(&self) -> (r: Self)
        ensures
            r@ == self@,
    {
        let n = self.pop_ranges.len();
        let mut pop_ranges: Vec<PopRange> = Vec::new();
        let mut i: usize = 0;
        while i < n
            invariant
                i <= n,
                n == self.pop_ranges@.len(),
                pop_ranges@ == self.pop_ranges@.subrange(0, i as int),
            decreases n - i,
        {
            pop_ranges.push(self.pop_ranges[i]);
            assert(pop_ranges@ =~= self.pop_ranges@.subrange(0, i as int + 1));
            i = i + 1;
        }
        proof {
            assert(self.pop_ranges@.subrange(0, n as int) =~= self.pop_ranges@);
            assert(pop_ranges@ == self.pop_ranges@);
        }
        let r = Zone { id: self.id, pop_ranges };
        proof {
            assert(r@ =~= self@);
        }
        r
    }
}

} // verus!
