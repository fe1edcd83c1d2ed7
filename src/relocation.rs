use vstd::prelude::*;

use crate::address::Relocatable;
use crate::error::RunnerError;

verus! {

/// One step of the execution trace: the three registers as segmented addresses.
#[derive(Clone, Copy, Debug, PartialEq, Eq, Structural)]
pub struct TraceEntry {
    pub pc: Relocatable,
    pub ap: Relocatable,
    pub fp: Relocatable,
}

/// One step of the trace after relocation onto the flat address line.
#[derive(Clone, Copy, Debug, PartialEq, Eq, Structural)]
pub struct RelocatedTraceEntry {
    pub pc: usize,
    pub ap: usize,
    pub fp: usize,
}

/// The flat address where segment `i` starts: segments are laid out one after
/// another in order of creation, from address 1.
pub open spec fn base_of(sizes: Seq<usize>, i: int) -> int
    decreases i,
{
    if i <= 0 || i > sizes.len() {
        1
    } else {
        base_of(sizes, i - 1) + sizes[i - 1]
    }
}

/// The relocation table of a list of segment sizes.
pub open spec fn is_relocation_table(sizes: Seq<usize>, t: Seq<usize>) -> bool {
    t.len() == sizes.len() && forall|i: int| 0 <= i < t.len() ==> t[i] == base_of(sizes, i)
}

/// The flat address of a segmented address, if its segment has a base.
pub open spec fn flat(t: Seq<usize>, a: Relocatable) -> Option<int> {
    if a.segment_index < t.len() {
        Some(t[a.segment_index as int] + a.offset)
    } else {
        None
    }
}

/// An address has a flat image that fits in `usize`.
pub open spec fn fits(t: Seq<usize>, a: Relocatable) -> bool {
    flat(t, a) is Some && flat(t, a).unwrap() <= usize::MAX
}

/// All three registers of a trace entry can be relocated.
pub open spec fn entry_fits(t: Seq<usize>, e: TraceEntry) -> bool {
    fits(t, e.pc) && fits(t, e.ap) && fits(t, e.fp)
}

/// A relocated trace entry is the flat image of a segmented one.
pub open spec fn relocated_entry(t: Seq<usize>, e: TraceEntry, r: RelocatedTraceEntry) -> bool {
    flat(t, e.pc) == Some(r.pc as int) && flat(t, e.ap) == Some(r.ap as int) && flat(t, e.fp) == Some(r.fp as int)
}

/// Relies on cairo_vm's `MemorySegmentManager::relocate_segments`: with the
/// used sizes set and no explicit sizes, it returns one base per segment, the
/// first being 1 and each next one the previous plus the previous size. It
/// adds every size, the last included, so the total must fit in `usize`.
#[verifier::external_body]
fn engine_relocation_table(sizes: &Vec<usize>) -> (r: Result<Vec<usize>, ()>)
    requires
        base_of(sizes@, sizes@.len() as int) <= usize::MAX,
    ensures
        r is Ok,
        r matches Ok(t) ==> is_relocation_table(sizes@, t@),
{
    let mut manager = cairo_vm::vm::vm_memory::memory_segments::MemorySegmentManager::new();
    manager.segment_used_sizes = Some(sizes.clone());
    manager.relocate_segments().map_err(|_| ())
}

/// Computes the relocation table of a list of segment sizes, failing when the
/// segments do not fit on the flat address line.
pub fn relocation_table(sizes: &Vec<usize>) -> (r: Result<Vec<usize>, RunnerError>)
    ensures
        r is Ok <==> base_of(sizes@, sizes@.len() as int) <= usize::MAX,
        r is Err ==> r == Err::<Vec<usize>, RunnerError>(RunnerError::RelocationOverflow),
        r matches Ok(t) ==> is_relocation_table(sizes@, t@),
{
    let mut total: usize = 1;
    let mut i: usize = 0;
    while i < sizes.len()
        invariant
            i <= sizes@.len(),
            total == base_of(sizes@, i as int),
        decreases sizes@.len() - i,
    {
        if total > usize::MAX - sizes[i] {
            proof {
                lemma_base_monotonic(sizes@, i as int + 1, sizes@.len() as int);
            }
            return Err(RunnerError::RelocationOverflow);
        }
        total = total + sizes[i];
        i = i + 1;
    }
    match engine_relocation_table(sizes) {
        Ok(t) => Ok(t),
        Err(_) => Err(RunnerError::RelocationOverflow),
    }
}

/// Bases never decrease along the segments.
proof fn lemma_base_monotonic(sizes: Seq<usize>, i: int, j: int)
    requires
        0 <= i <= j <= sizes.len(),
    ensures
        base_of(sizes, i) <= base_of(sizes, j),
    decreases j - i,
{
    if i < j {
        lemma_base_monotonic(sizes, i, j - 1);
    }
}

/// The flat address of a segmented address, computed from the segment sizes.
pub open spec fn flat_by_sizes(sizes: Seq<usize>, a: Relocatable) -> Option<int> {
    if a.segment_index < sizes.len() {
        Some(base_of(sizes, a.segment_index as int) + a.offset)
    } else {
        None
    }
}

/// A trace entry relocated with the layout of the given segment sizes.
pub open spec fn relocated_by_sizes(sizes: Seq<usize>, e: TraceEntry, r: RelocatedTraceEntry) -> bool {
    flat_by_sizes(sizes, e.pc) == Some(r.pc as int) && flat_by_sizes(sizes, e.ap) == Some(r.ap as int)
        && flat_by_sizes(sizes, e.fp) == Some(r.fp as int)
}

/// All three registers of an entry have a flat image, within `usize`.
pub open spec fn entry_fits_sizes(sizes: Seq<usize>, e: TraceEntry) -> bool {
    let f = |a: Relocatable| flat_by_sizes(sizes, a) is Some && flat_by_sizes(sizes, a).unwrap() <= usize::MAX;
    f(e.pc) && f(e.ap) && f(e.fp)
}

/// Relocates a trace with the layout of the given segment sizes. Fails when
/// the segments do not fit on the flat line or an address cannot be relocated.
pub fn relocate_with_sizes(sizes: &Vec<usize>, trace: &Vec<TraceEntry>) -> (r: Result<Vec<RelocatedTraceEntry>, RunnerError>)
    ensures
        r is Ok <==> base_of(sizes@, sizes@.len() as int) <= usize::MAX
            && forall|i: int| 0 <= i < trace@.len() ==> entry_fits_sizes(sizes@, #[trigger] trace@[i]),
        r matches Ok(rt) ==> rt@.len() == trace@.len()
            && forall|i: int| 0 <= i < trace@.len() ==> relocated_by_sizes(sizes@, trace@[i], #[trigger] rt@[i]),
{
    let t = match relocation_table(sizes) {
        Ok(t) => t,
        Err(e) => return Err(e),
    };
    let r = relocate_trace(&t, trace);
    proof {
        assert forall|a: Relocatable| flat(t@, a) == flat_by_sizes(sizes@, a) by {}
        if r is Ok {
            assert forall|i: int| 0 <= i < trace@.len() implies entry_fits_sizes(sizes@, #[trigger] trace@[i]) by {
                assert(entry_fits(t@, trace@[i]));
            }
        } else {
            let i = choose|i: int| 0 <= i < trace@.len() && !entry_fits(t@, #[trigger] trace@[i]);
            assert(!entry_fits_sizes(sizes@, trace@[i]));
        }
    }
    r
}

/// Relocates one address with a relocation table.
pub fn relocate_address(t: &Vec<usize>, a: Relocatable) -> (r: Result<usize, RunnerError>)
    ensures
        r matches Ok(x) ==> flat(t@, a) == Some(x as int),
        r is Err <==> !fits(t@, a),
        a.segment_index >= t@.len() ==> r == Err::<usize, RunnerError>(RunnerError::UnknownSegment { address: a }),
{
    if a.segment_index >= t.len() {
        return Err(RunnerError::UnknownSegment { address: a });
    }
    let base = t[a.segment_index];
    if base > usize::MAX - a.offset {
        return Err(RunnerError::RelocationOverflow);
    }
    Ok(base + a.offset)
}

/// Relocates every entry of a trace, keeping the order of execution.
pub fn relocate_trace(t: &Vec<usize>, trace: &Vec<TraceEntry>) -> (r: Result<Vec<RelocatedTraceEntry>, RunnerError>)
    ensures
        r matches Ok(rt) ==> rt@.len() == trace@.len()
            && forall|i: int| 0 <= i < trace@.len() ==> relocated_entry(t@, trace@[i], #[trigger] rt@[i]),
        r is Err <==> exists|i: int| 0 <= i < trace@.len() && !entry_fits(t@, #[trigger] trace@[i]),
{
    let mut out: Vec<RelocatedTraceEntry> = Vec::new();
    let mut i: usize = 0;
    while i < trace.len()
        invariant
            i <= trace@.len(),
            out@.len() == i,
            forall|j: int| 0 <= j < i ==> relocated_entry(t@, trace@[j], #[trigger] out@[j]),
            forall|j: int| 0 <= j < i ==> entry_fits(t@, #[trigger] trace@[j]),
        decreases trace@.len() - i,
    {
        let e = trace[i];
        let pc = match relocate_address(t, e.pc) {
            Ok(x) => x,
            Err(err) => return Err(err),
        };
        let ap = match relocate_address(t, e.ap) {
            Ok(x) => x,
            Err(err) => return Err(err),
        };
        let fp = match relocate_address(t, e.fp) {
            Ok(x) => x,
            Err(err) => return Err(err),
        };
        out.push(RelocatedTraceEntry { pc, ap, fp });
        i = i + 1;
    }
    Ok(out)
}

/// The relocated trace as three integer columns, one row per step.
#[derive(Clone, Debug)]
pub struct TraceTable {
    pub pc: Vec<u64>,
    pub ap: Vec<u64>,
    pub fp: Vec<u64>,
}

/// The columns of a table are those of a relocated trace, row for row.
pub open spec fn columns_match(t: TraceTable, rt: Seq<RelocatedTraceEntry>) -> bool {
    t.pc@.len() == rt.len() && t.ap@.len() == rt.len() && t.fp@.len() == rt.len()
        && forall|i: int| 0 <= i < rt.len() ==> t.pc@[i] == (#[trigger] rt[i]).pc as u64
            && t.ap@[i] == rt[i].ap as u64 && t.fp@[i] == rt[i].fp as u64
}

/// A relocated trace, or nothing before relocation.
pub open spec fn trace_or_empty(rt: Option<Vec<RelocatedTraceEntry>>) -> Seq<RelocatedTraceEntry> {
    match rt {
        Some(v) => v@,
        None => Seq::empty(),
    }
}

/// Splits a relocated trace into its pc, ap and fp columns, row for row.
pub fn trace_columns(rt: &Vec<RelocatedTraceEntry>) -> (r: TraceTable)
    ensures
        columns_match(r, rt@),
{
    let mut pc: Vec<u64> = Vec::new();
    let mut ap: Vec<u64> = Vec::new();
    let mut fp: Vec<u64> = Vec::new();
    let mut i: usize = 0;
    while i < rt.len()
        invariant
            i <= rt@.len(),
            pc@.len() == i,
            ap@.len() == i,
            fp@.len() == i,
            forall|j: int| 0 <= j < i ==> pc@[j] == (#[trigger] rt@[j]).pc as u64
                && ap@[j] == rt@[j].ap as u64 && fp@[j] == rt@[j].fp as u64,
        decreases rt@.len() - i,
    {
        pc.push(rt[i].pc as u64);
        ap.push(rt[i].ap as u64);
        fp.push(rt[i].fp as u64);
        i = i + 1;
    }
    TraceTable { pc, ap, fp }
}

} // verus!
