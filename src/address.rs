use vstd::prelude::*;

verus! {

/// A segmented address: a segment index and an offset inside that segment.
#[derive(Clone, Copy, Debug, PartialEq, Eq, Structural)]
pub struct Relocatable {
    pub segment_index: usize,
    pub offset: usize,
}

/// A field element, held as its low and high 128-bit halves.
#[derive(Clone, Copy, Debug, PartialEq, Eq, Structural)]
pub struct Felt {
    pub lo: u128,
    pub hi: u128,
}

/// The content of one memory cell: a field element or an address.
#[derive(Clone, Copy, Debug, PartialEq, Eq, Structural)]
pub enum Cell {
    Int(Felt),
    Addr(Relocatable),
}

impl Felt {
    pub open spec fn spec_is_zero(self) -> bool {
        self.lo == 0 && self.hi == 0
    }

    pub fn from_u128(v: u128) -> (r: Felt)
        ensures
            r.lo == v,
            r.hi == 0,
    {
        Felt { lo: v, hi: 0 }
    }

    pub fn is_zero(&self) -> (r: bool)
        ensures
            r == self.spec_is_zero(),
    {
        self.lo == 0 && self.hi == 0
    }
}

impl Relocatable {
    pub fn new(segment_index: usize, offset: usize) -> (r: Relocatable)
        ensures
            r.segment_index == segment_index,
            r.offset == offset,
    {
        Relocatable { segment_index, offset }
    }
}

} // verus!
