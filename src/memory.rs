use vstd::prelude::*;

use crate::address::{Cell, Relocatable};

verus! {

/// Append-only, segment-indexed memory: each segment is a sequence of cells,
/// a cell being unwritten (`None`) or holding a value.
#[derive(Clone, Debug)]
pub struct SegmentSpace {
    pub segments: Vec<Vec<Option<Cell>>>,
}

impl View for SegmentSpace {
    type V = Seq<Seq<Option<Cell>>>;

    open spec fn view(&self) -> Seq<Seq<Option<Cell>>> {
        self.segments@.map_values(|s: Vec<Option<Cell>>| s@)
    }
}

/// The value at an address, if that cell exists and was written.
pub open spec fn cell_at(mem: Seq<Seq<Option<Cell>>>, a: Relocatable) -> Option<Cell> {
    if a.segment_index < mem.len() && a.offset < mem[a.segment_index as int].len() {
        mem[a.segment_index as int][a.offset as int]
    } else {
        None
    }
}

/// The number of cells of each segment, in order of creation.
pub open spec fn sizes_of(mem: Seq<Seq<Option<Cell>>>) -> Seq<usize> {
    Seq::new(mem.len(), |i: int| mem[i].len() as usize)
}

impl SegmentSpace {
    pub fn new() -> (r: SegmentSpace)
        ensures
            r@ == Seq::<Seq<Option<Cell>>>::empty(),
    {
        SegmentSpace { segments: Vec::new() }
    }

    pub fn num_segments(&self) -> (r: usize)
        ensures
            r == self@.len(),
    {
        self.segments.len()
    }

    /// Allocates a new, empty segment and returns its index.
    pub fn add_segment(&mut self) -> (r: usize)
        requires
            old(self)@.len() < usize::MAX,
        ensures
            r == old(self)@.len(),
            final(self)@ == old(self)@.push(Seq::<Option<Cell>>::empty()),
    {
        let r = self.segments.len();
        self.segments.push(Vec::new());
        proof {
            assert(self@ =~= old(self)@.push(Seq::<Option<Cell>>::empty()));
        }
        r
    }

    /// Reads a cell; `None` where the cell does not exist or was never written.
    pub fn get(&self, a: Relocatable) -> (r: Option<Cell>)
        ensures
            r == cell_at(self@, a),
    {
        if a.segment_index < self.segments.len() && a.offset < self.segments[a.segment_index].len() {
            self.segments[a.segment_index][a.offset]
        } else {
            None
        }
    }

    /// The number of cells of each segment, in order of creation.
    pub fn segment_sizes(&self) -> (r: Vec<usize>)
        ensures
            r@ == sizes_of(self@),
    {
        let mut r: Vec<usize> = Vec::new();
        let mut i: usize = 0;
        while i < self.segments.len()
            invariant
                i <= self.segments@.len(),
                r@.len() == i,
                forall|j: int| 0 <= j < i ==> r@[j] == self@[j].len(),
            decreases self.segments@.len() - i,
        {
            r.push(self.segments[i].len());
            i = i + 1;
        }
        proof {
            assert(r@ =~= sizes_of(self@));
        }
        r
    }
}

} // verus!
