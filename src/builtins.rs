use vstd::prelude::*;

use crate::address::{Cell, Felt, Relocatable};
use crate::error::RunnerError;
use crate::memory::{cell_at, SegmentSpace};

verus! {

/// The kind of a builtin, by its code in the execution engine's list of builtins.
#[derive(Clone, Copy, Debug, PartialEq, Eq, Structural)]
pub struct BuiltinId {
    pub code: u8,
}

/// A builtin region: a builtin kind, the segment it owns, whether the layout
/// includes it (an excluded builtin pushes nothing and pops nothing), and the
/// layout rule of its kind: the cells of one instance, and whether the segment
/// starts with one instance already in place.
#[derive(Clone, Copy, Debug, PartialEq, Eq, Structural)]
pub struct BuiltinRegion {
    pub name: BuiltinId,
    pub base: usize,
    pub included: bool,
    pub cells_per_instance: usize,
    pub preloaded: bool,
}

/// The first region registered under a name.
pub open spec fn lookup(regions: Seq<BuiltinRegion>, id: BuiltinId) -> Option<BuiltinRegion>
    decreases regions.len(),
{
    if regions.len() == 0 {
        None
    } else if regions[0].name == id {
        Some(regions[0])
    } else {
        lookup(regions.drop_first(), id)
    }
}

/// What a region contributes to the initial call stack.
pub open spec fn initial_of(r: BuiltinRegion) -> Seq<Cell> {
    if r.included {
        seq![Cell::Addr(Relocatable { segment_index: r.base, offset: 0 })]
    } else {
        Seq::empty()
    }
}

/// Every name of the ordering has a region.
pub open spec fn all_registered(regions: Seq<BuiltinRegion>, order: Seq<BuiltinId>) -> bool {
    forall|i: int| 0 <= i < order.len() ==> lookup(regions, order[i]) is Some
}

/// The builtin part of the initial stack: the initial values of the ordering's
/// regions, concatenated in order (an unregistered name contributes nothing).
pub open spec fn pushed(regions: Seq<BuiltinRegion>, order: Seq<BuiltinId>) -> Seq<Cell>
    decreases order.len(),
{
    if order.len() == 0 {
        Seq::empty()
    } else {
        let prev = pushed(regions, order.drop_last());
        match lookup(regions, order.last()) {
            Some(r) => prev + initial_of(r),
            None => prev,
        }
    }
}

/// The first position of the ordering whose name has no region.
pub open spec fn first_unregistered(regions: Seq<BuiltinRegion>, order: Seq<BuiltinId>, k: int) -> bool {
    0 <= k < order.len() && lookup(regions, order[k]) is None && all_registered(regions, order.take(k))
}

/// The number of cells used in a segment (zero for a segment that does not exist).
pub open spec fn used_cells(mem: Seq<Seq<Option<Cell>>>, seg: usize) -> nat {
    if seg < mem.len() { mem[seg as int].len() } else { 0 }
}

/// The cells of one instance of a region; a kind without instances counts
/// each cell on its own.
pub open spec fn instance_cells(r: BuiltinRegion) -> nat {
    if r.cells_per_instance == 0 { 1 } else { r.cells_per_instance as nat }
}

/// Where a region's stop pointer must point after `used` cells were written:
/// past every instance begun, counting a partly written one as whole, plus
/// the preloaded instance.
pub open spec fn stop_offset(r: BuiltinRegion, used: nat) -> nat {
    let c = instance_cells(r);
    let instances = used / c + (if used % c == 0 { 0nat } else { 1nat }) + (if r.preloaded { 1nat } else { 0nat });
    instances * c
}

/// The address one cell below a pointer in the same segment.
pub open spec fn below(p: Relocatable) -> Relocatable {
    Relocatable { segment_index: p.segment_index, offset: (p.offset - 1) as usize }
}

/// A region's final-stack rule: an included region reads its stop pointer in
/// the cell below `p`, which must point into its own segment at
/// `stop_offset`, and returns the address of that cell; an excluded region
/// consumes nothing.
pub open spec fn final_stack_spec(r: BuiltinRegion, mem: Seq<Seq<Option<Cell>>>, p: Relocatable) -> Result<Relocatable, RunnerError> {
    if !r.included {
        Ok(p)
    } else if p.offset == 0 {
        Err(RunnerError::NoStopPointer { name: r.name })
    } else {
        match cell_at(mem, below(p)) {
            Some(Cell::Addr(sp)) => {
                if sp.segment_index == r.base && sp.offset == stop_offset(r, used_cells(mem, r.base)) {
                    Ok(below(p))
                } else {
                    Err(RunnerError::InvalidStopPointer { name: r.name })
                }
            },
            _ => Err(RunnerError::NoStopPointer { name: r.name }),
        }
    }
}

/// One step of the return walk, for the builtin named `id` at pointer `p`.
pub open spec fn return_step_spec(regions: Seq<BuiltinRegion>, id: BuiltinId, mem: Seq<Seq<Option<Cell>>>, p: Relocatable, allow_missing: bool) -> Result<Relocatable, RunnerError> {
    match lookup(regions, id) {
        Some(r) => final_stack_spec(r, mem, p),
        None => {
            if !allow_missing {
                Err(RunnerError::MissingBuiltin { name: id })
            } else {
                if p.offset == 0 {
                    Err(RunnerError::NoStopPointer { name: id })
                } else {
                    let q = below(p);
                    match cell_at(mem, q) {
                        None => Err(RunnerError::UnknownCell { address: q }),
                        Some(Cell::Addr(_)) => Err(RunnerError::ExpectedInteger { address: q }),
                        Some(Cell::Int(v)) => if v.spec_is_zero() {
                            Ok(q)
                        } else {
                            Err(RunnerError::BuiltinMismatch { name: id })
                        },
                    }
                }
            }
        },
    }
}

/// The return walk: the ordering taken in reverse, each step starting where the
/// previous one ended; the first failing step ends the walk.
pub open spec fn walk(regions: Seq<BuiltinRegion>, order: Seq<BuiltinId>, mem: Seq<Seq<Option<Cell>>>, p: Relocatable, allow_missing: bool) -> Result<Relocatable, RunnerError>
    decreases order.len(),
{
    if order.len() == 0 {
        Ok(p)
    } else {
        match return_step_spec(regions, order.last(), mem, p, allow_missing) {
            Ok(q) => walk(regions, order.drop_last(), mem, q, allow_missing),
            Err(e) => Err(e),
        }
    }
}

/// Finds the first region registered under a name.
pub fn find_region(regions: &Vec<BuiltinRegion>, id: BuiltinId) -> (r: Option<BuiltinRegion>)
    ensures
        r == lookup(regions@, id),
{
    let mut i: usize = 0;
    proof {
        assert(regions@.subrange(0, regions@.len() as int) =~= regions@);
    }
    while i < regions.len()
        invariant
            i <= regions@.len(),
            lookup(regions@, id) == lookup(regions@.subrange(i as int, regions@.len() as int), id),
        decreases regions@.len() - i,
    {
        proof {
            assert(regions@.subrange(i as int, regions@.len() as int).drop_first() =~= regions@.subrange(i + 1, regions@.len() as int));
        }
        if regions[i].name == id {
            return Some(regions[i]);
        }
        i = i + 1;
    }
    None
}

/// The initial-stack values of one region.
pub fn initial_stack(r: &BuiltinRegion) -> (s: Vec<Cell>)
    ensures
        s@ == initial_of(*r),
{
    let mut s: Vec<Cell> = Vec::new();
    if r.included {
        s.push(Cell::Addr(Relocatable { segment_index: r.base, offset: 0 }));
    }
    proof {
        assert(s@ =~= initial_of(*r));
    }
    s
}

/// Builds the builtin part of the initial call stack from an ordering of names.
/// Succeeds exactly when every name has a region; otherwise names the first
/// name without one.
pub fn builtins_stack(regions: &Vec<BuiltinRegion>, order: &Vec<BuiltinId>) -> (r: Result<Vec<Cell>, RunnerError>)
    ensures
        r is Ok <==> all_registered(regions@, order@),
        r matches Ok(s) ==> s@ == pushed(regions@, order@),
        r matches Err(e) ==> exists|k: int| first_unregistered(regions@, order@, k)
            && e == (RunnerError::BuiltinNotFound { name: order@[k] }),
{
    let mut stack: Vec<Cell> = Vec::new();
    let mut i: usize = 0;
    while i < order.len()
        invariant
            i <= order@.len(),
            all_registered(regions@, order@.take(i as int)),
            stack@ == pushed(regions@, order@.take(i as int)),
        decreases order@.len() - i,
    {
        let id = order[i];
        proof {
            assert(order@.take(i + 1).drop_last() =~= order@.take(i as int));
        }
        match find_region(regions, id) {
            Some(region) => {
                let mut more = initial_stack(&region);
                stack.append(&mut more);
                proof {
                    assert(order@.take(i + 1).last() == id);
                    assert forall|j: int| 0 <= j < i + 1 implies #[trigger] lookup(regions@, order@.take(i + 1)[j]) is Some by {
                        if j < i {
                            assert(order@.take(i + 1)[j] == order@.take(i as int)[j]);
                        }
                    }
                }
            },
            None => {
                proof {
                    assert(first_unregistered(regions@, order@, i as int));
                }
                return Err(RunnerError::BuiltinNotFound { name: id });
            },
        }
        i = i + 1;
    }
    proof {
        assert(order@.take(order@.len() as int) =~= order@);
    }
    Ok(stack)
}

/// Applies a region's final-stack rule at pointer `p`.
pub fn final_stack(r: &BuiltinRegion, mem: &SegmentSpace, p: Relocatable) -> (res: Result<Relocatable, RunnerError>)
    ensures
        res == final_stack_spec(*r, mem@, p),
{
    if !r.included {
        return Ok(p);
    }
    if p.offset == 0 {
        return Err(RunnerError::NoStopPointer { name: r.name });
    }
    let q = Relocatable { segment_index: p.segment_index, offset: p.offset - 1 };
    match mem.get(q) {
        Some(Cell::Addr(sp)) => {
            let used: usize = if r.base < mem.num_segments() {
                mem.segments[r.base].len()
            } else {
                0
            };
            let c: usize = if r.cells_per_instance == 0 { 1 } else { r.cells_per_instance };
            let whole: usize = used / c;
            let extra: usize = (if used % c == 0 { 0usize } else { 1usize }) + (if r.preloaded { 1usize } else { 0usize });
            match whole.checked_add(extra) {
                None => {
                    proof {
                        let n = whole as int + extra as int;
                        assert(n * c >= n) by (nonlinear_arith)
                            requires n >= 0, c >= 1;
                    }
                    Err(RunnerError::InvalidStopPointer { name: r.name })
                },
                Some(instances) => match instances.checked_mul(c) {
                    None => Err(RunnerError::InvalidStopPointer { name: r.name }),
                    Some(stop) => {
                        if sp.segment_index == r.base && sp.offset == stop {
                            Ok(q)
                        } else {
                            Err(RunnerError::InvalidStopPointer { name: r.name })
                        }
                    },
                },
            }
        },
        _ => Err(RunnerError::NoStopPointer { name: r.name }),
    }
}

/// One step of the return walk for the builtin named `id`: a registered
/// builtin applies its final-stack rule; an unregistered one is refused unless
/// missing builtins are tolerated, in which case there must be a cell below
/// the pointer, it must hold zero, and the pointer moves down onto it.
pub fn return_step(regions: &Vec<BuiltinRegion>, id: BuiltinId, mem: &SegmentSpace, p: Relocatable, allow_missing: bool) -> (res: Result<Relocatable, RunnerError>)
    ensures
        res == return_step_spec(regions@, id, mem@, p, allow_missing),
{
    match find_region(regions, id) {
        Some(region) => final_stack(&region, mem, p),
        None => {
            if !allow_missing {
                return Err(RunnerError::MissingBuiltin { name: id });
            }
            if p.offset == 0 {
                return Err(RunnerError::NoStopPointer { name: id });
            }
            let q = Relocatable { segment_index: p.segment_index, offset: p.offset - 1 };
            match mem.get(q) {
                None => Err(RunnerError::UnknownCell { address: q }),
                Some(Cell::Addr(_)) => Err(RunnerError::ExpectedInteger { address: q }),
                Some(Cell::Int(v)) => {
                    if v.is_zero() {
                        Ok(q)
                    } else {
                        Err(RunnerError::BuiltinMismatch { name: id })
                    }
                },
            }
        },
    }
}

/// Reads the builtins' return values: starting `offset` cells below `ap`, walks
/// the ordering in reverse, each builtin consuming its stop pointer, and returns
/// the pointer where the walk ended.
pub fn read_return_values(regions: &Vec<BuiltinRegion>, order: &Vec<BuiltinId>, mem: &SegmentSpace, ap: Relocatable, offset: usize, allow_missing: bool) -> (res: Result<Relocatable, RunnerError>)
    ensures
        offset > ap.offset ==> res == Err::<Relocatable, RunnerError>(RunnerError::ReturnOffsetOutOfRange),
        offset <= ap.offset ==> res == walk(regions@, order@, mem@,
            Relocatable { segment_index: ap.segment_index, offset: (ap.offset - offset) as usize }, allow_missing),
{
    if offset > ap.offset {
        return Err(RunnerError::ReturnOffsetOutOfRange);
    }
    let mut pointer = Relocatable { segment_index: ap.segment_index, offset: ap.offset - offset };
    let mut i: usize = order.len();
    proof {
        assert(order@.take(order@.len() as int) =~= order@);
    }
    while i > 0
        invariant
            i <= order@.len(),
            offset <= ap.offset,
            walk(regions@, order@, mem@, Relocatable { segment_index: ap.segment_index, offset: (ap.offset - offset) as usize }, allow_missing)
                == walk(regions@, order@.take(i as int), mem@, pointer, allow_missing),
        decreases i,
    {
        proof {
            assert(order@.take(i as int).drop_last() =~= order@.take(i - 1));
            assert(order@.take(i as int).last() == order@[i - 1]);
        }
        match return_step(regions, order[i - 1], mem, pointer, allow_missing) {
            Ok(q) => {
                pointer = q;
            },
            Err(e) => {
                return Err(e);
            },
        }
        i = i - 1;
    }
    Ok(pointer)
}

/// The builtin named by a suffixed name, by its position in the engine's list
/// of builtins; nothing for any other string.
pub open spec fn builtin_code_of(s: Seq<char>) -> Option<u8> {
    if s == "output_builtin"@ { Some(0) }
    else if s == "range_check_builtin"@ { Some(1) }
    else if s == "pedersen_builtin"@ { Some(2) }
    else if s == "ecdsa_builtin"@ { Some(3) }
    else if s == "keccak_builtin"@ { Some(4) }
    else if s == "bitwise_builtin"@ { Some(5) }
    else if s == "ec_op_builtin"@ { Some(6) }
    else if s == "poseidon_builtin"@ { Some(7) }
    else if s == "segment_arena_builtin"@ { Some(8) }
    else if s == "range_check96_builtin"@ { Some(9) }
    else if s == "add_mod_builtin"@ { Some(10) }
    else if s == "mul_mod_builtin"@ { Some(11) }
    else { None }
}

/// Relies on cairo_vm's `BuiltinName::from_str_with_suffix`: it maps each of
/// the twelve `<name>_builtin` strings to its builtin, and every other string
/// to `None`; the code is the builtin's position in the `BuiltinName` enum.
#[verifier::external_body]
fn parse_builtin_name(s: &str) -> (r: Option<u8>)
    ensures
        r == builtin_code_of(s@),
{
    cairo_vm::types::builtin_name::BuiltinName::from_str_with_suffix(s).map(|b| b as u8)
}

/// The parsed form of an ordering of builtin names, where every name parses.
pub open spec fn parsed_order(names: Seq<String>, ids: Seq<BuiltinId>) -> bool {
    ids.len() == names.len() && forall|i: int| 0 <= i < names.len() ==>
        builtin_code_of(#[trigger] names[i]@) == Some(ids[i].code)
}

/// The builtins named by an ordering whose names all parse.
pub open spec fn ids_of(names: Seq<String>) -> Seq<BuiltinId> {
    names.map_values(|n: String| BuiltinId { code: builtin_code_of(n@).unwrap() })
}

/// Every name of an ordering is a known builtin.
pub open spec fn all_parse(names: Seq<String>) -> bool {
    forall|i: int| 0 <= i < names.len() ==> (#[trigger] builtin_code_of(names[i]@)) is Some
}

/// The first name of an ordering that is not a known builtin.
pub open spec fn first_bad_name(names: Seq<String>, k: int) -> bool {
    0 <= k < names.len() && builtin_code_of(names[k]@) is None
        && forall|j: int| 0 <= j < k ==> (#[trigger] builtin_code_of(names[j]@)) is Some
}

/// Parses an explicit ordering of suffixed builtin names (`"output_builtin"`).
/// Fails at the first name that is not a known builtin.
pub fn parse_builtin_order(names: &Vec<String>) -> (r: Result<Vec<BuiltinId>, RunnerError>)
    ensures
        r matches Ok(ids) ==> parsed_order(names@, ids@) && ids@ == ids_of(names@),
        r is Ok <==> all_parse(names@),
        r is Err ==> exists|k: int| first_bad_name(names@, k)
            && r == Err::<Vec<BuiltinId>, RunnerError>(RunnerError::InvalidBuiltinName { index: k as usize }),
{
    let mut ids: Vec<BuiltinId> = Vec::new();
    let mut i: usize = 0;
    while i < names.len()
        invariant
            i <= names@.len(),
            ids@.len() == i,
            forall|j: int| 0 <= j < i ==> builtin_code_of(#[trigger] names@[j]@) == Some(ids@[j].code),
        decreases names@.len() - i,
    {
        match parse_builtin_name(names[i].as_str()) {
            Some(c) => {
                ids.push(BuiltinId { code: c });
            },
            None => {
                proof {
                    assert(first_bad_name(names@, i as int));
                }
                return Err(RunnerError::InvalidBuiltinName { index: i });
            },
        }
        i = i + 1;
    }
    proof {
        assert(ids@ =~= ids_of(names@));
    }
    Ok(ids)
}

/// A cell agrees with a deduced value when it is unwritten or holds that value.
pub open spec fn agrees(mem: Seq<Seq<Option<Cell>>>, a: Relocatable, d: Option<Cell>) -> bool {
    match d {
        None => true,
        Some(v) => cell_at(mem, a) is None || cell_at(mem, a) == Some(v),
    }
}

/// There is one row of deduced values per region, and every cell of every
/// region agrees with what its builtin's rule deduces; `deduced[k][j]` is the
/// rule's value for cell `j` of region `k`, if any.
pub open spec fn deductions_hold(regions: Seq<BuiltinRegion>, mem: Seq<Seq<Option<Cell>>>, deduced: Seq<Seq<Option<Cell>>>) -> bool {
    deduced.len() == regions.len() && forall|k: int, j: int| 0 <= k < regions.len() && 0 <= j < deduced[k].len() ==>
        agrees(mem, Relocatable { segment_index: regions[k].base, offset: j as usize }, #[trigger] deduced[k][j])
}

/// Checks every builtin-owned cell against the value its rule deduces.
/// Fails when the table does not have one row per region, and otherwise
/// exactly when some written cell disagrees, naming such a cell.
pub fn verify_auto_deductions(regions: &Vec<BuiltinRegion>, mem: &SegmentSpace, deduced: &Vec<Vec<Option<Cell>>>) -> (r: Result<(), RunnerError>)
    ensures
        r is Ok <==> deductions_hold(regions@, mem@, deduced@.map_values(|v: Vec<Option<Cell>>| v@)),
        deduced@.len() != regions@.len() ==> r == Err::<(), RunnerError>(RunnerError::DeductionRowsMismatch {
            regions: regions@.len() as usize, rows: deduced@.len() as usize }),
        deduced@.len() == regions@.len() && r is Err ==> exists|k: int, j: int| 0 <= k < regions@.len() && 0 <= j < deduced@[k]@.len()
            && !agrees(mem@, Relocatable { segment_index: regions@[k].base, offset: j as usize }, #[trigger] deduced@[k]@[j])
            && r == Err::<(), RunnerError>(RunnerError::InconsistentDeduction { address: Relocatable { segment_index: regions@[k].base, offset: j as usize } }),
{
    if deduced.len() != regions.len() {
        return Err(RunnerError::DeductionRowsMismatch { regions: regions.len(), rows: deduced.len() });
    }
    let ghost dv = deduced@.map_values(|v: Vec<Option<Cell>>| v@);
    let mut k: usize = 0;
    while k < regions.len()
        invariant
            k <= regions@.len(),
            deduced@.len() == regions@.len(),
            dv == deduced@.map_values(|v: Vec<Option<Cell>>| v@),
            forall|k2: int, j: int| 0 <= k2 < k && 0 <= j < dv[k2].len() ==>
                agrees(mem@, Relocatable { segment_index: regions@[k2].base, offset: j as usize }, #[trigger] dv[k2][j]),
        decreases regions@.len() - k,
    {
        let base = regions[k].base;
        let row = &deduced[k];
        let mut j: usize = 0;
        while j < row.len()
            invariant
                k < regions@.len(),
                deduced@.len() == regions@.len(),
                j <= row@.len(),
                row@ == dv[k as int],
                dv == deduced@.map_values(|v: Vec<Option<Cell>>| v@),
                base == regions@[k as int].base,
                forall|k2: int, j2: int| 0 <= k2 < k && 0 <= j2 < dv[k2].len() ==>
                    agrees(mem@, Relocatable { segment_index: regions@[k2].base, offset: j2 as usize }, #[trigger] dv[k2][j2]),
                forall|j2: int| 0 <= j2 < j ==>
                    agrees(mem@, Relocatable { segment_index: base, offset: j2 as usize }, #[trigger] dv[k as int][j2]),
            decreases row@.len() - j,
        {
            let a = Relocatable { segment_index: base, offset: j };
            match row[j] {
                Some(d) => {
                    match mem.get(a) {
                        None => {},
                        Some(c) => {
                            if c != d {
                                proof {
                                    assert(!agrees(mem@, a, deduced@[k as int]@[j as int]));
                                }
                                return Err(RunnerError::InconsistentDeduction { address: a });
                            }
                        },
                    }
                },
                None => {},
            }
            j = j + 1;
        }
        k = k + 1;
    }
    Ok(())
}

/// The stop pointer a region leaves on the return block: its `stop_offset`
/// in its own segment for an included region, nothing for an excluded one.
pub open spec fn stop_of(r: BuiltinRegion, mem: Seq<Seq<Option<Cell>>>) -> Seq<Cell> {
    if r.included {
        seq![Cell::Addr(Relocatable { segment_index: r.base, offset: stop_offset(r, used_cells(mem, r.base)) as usize })]
    } else {
        Seq::empty()
    }
}

/// The return block of an ordering, in push order: each region's stop pointer.
pub open spec fn stop_values(regions: Seq<BuiltinRegion>, order: Seq<BuiltinId>, mem: Seq<Seq<Option<Cell>>>) -> Seq<Cell>
    decreases order.len(),
{
    if order.len() == 0 {
        Seq::empty()
    } else {
        let prev = stop_values(regions, order.drop_last(), mem);
        match lookup(regions, order.last()) {
            Some(r) => prev + stop_of(r, mem),
            None => prev,
        }
    }
}

/// A pushed value and a consumed cell belong to the same region: the value is
/// the start of a segment and the cell points into that same segment.
pub open spec fn pairs_with(pushed_cell: Cell, stop_cell: Cell) -> bool {
    match (pushed_cell, stop_cell) {
        (Cell::Addr(a), Cell::Addr(b)) => a.offset == 0 && a.segment_index == b.segment_index,
        _ => false,
    }
}

/// The stop pointer of every region fits in `usize`.
pub open spec fn stops_fit(regions: Seq<BuiltinRegion>, mem: Seq<Seq<Option<Cell>>>) -> bool {
    forall|i: int| 0 <= i < regions.len() ==> stop_offset(#[trigger] regions[i], used_cells(mem, regions[i].base)) <= usize::MAX
}

/// A region found by name is one of the registered regions.
proof fn lemma_lookup_found(regions: Seq<BuiltinRegion>, id: BuiltinId)
    ensures
        lookup(regions, id) matches Some(r) ==> exists|i: int| 0 <= i < regions.len() && regions[i] == r,
    decreases regions.len(),
{
    if regions.len() > 0 && regions[0].name != id {
        lemma_lookup_found(regions.drop_first(), id);
        if lookup(regions, id) is Some {
            let i = choose|i: int| 0 <= i < regions.drop_first().len() && regions.drop_first()[i] == lookup(regions, id).unwrap();
            assert(regions[i + 1] == lookup(regions, id).unwrap());
        }
    }
}

/// The `n` cells just below `p` hold `block`, lowest address first.
pub open spec fn block_below(mem: Seq<Seq<Option<Cell>>>, p: Relocatable, block: Seq<Cell>) -> bool {
    block.len() <= p.offset && forall|k: int| 0 <= k < block.len() ==> cell_at(mem,
        Relocatable { segment_index: p.segment_index, offset: (p.offset - block.len() + k) as usize }) == Some(#[trigger] block[k])
}

/// Push and pop order pair up (LIFO): when every name of an ordering has a
/// region and the cells below `p` hold the regions' stop pointers in push
/// order, the reverse walk succeeds, consumes exactly as many cells as the
/// builtins pushed, and ends just below that block; the cell at block position
/// `k` points into the segment of the value pushed at stack position `k`.
pub proof fn lemma_return_walk_round_trip(regions: Seq<BuiltinRegion>, order: Seq<BuiltinId>, mem: Seq<Seq<Option<Cell>>>, p: Relocatable, allow_missing: bool)
    requires
        all_registered(regions, order),
        stops_fit(regions, mem),
        block_below(mem, p, stop_values(regions, order, mem)),
    ensures
        stop_values(regions, order, mem).len() == pushed(regions, order).len(),
        forall|k: int| 0 <= k < pushed(regions, order).len() ==>
            pairs_with(#[trigger] pushed(regions, order)[k], stop_values(regions, order, mem)[k]),
        walk(regions, order, mem, p, allow_missing) == Ok::<Relocatable, RunnerError>(Relocatable {
            segment_index: p.segment_index, offset: (p.offset - pushed(regions, order).len()) as usize }),
    decreases order.len(),
{
    let n = stop_values(regions, order, mem).len();
    if order.len() == 0 {
        return;
    }
    let prev = order.drop_last();
    assert forall|i: int| 0 <= i < prev.len() implies #[trigger] lookup(regions, prev[i]) is Some by {
        assert(prev[i] == order[i]);
    }
    assert(lookup(regions, order[order.len() - 1]) is Some);
    let r = lookup(regions, order.last()).unwrap();
    lemma_lookup_found(regions, order.last());
    let sv = stop_values(regions, prev, mem);
    if r.included {
        assert(stop_values(regions, order, mem) == sv + stop_of(r, mem));
        let q = below(p);
        assert(cell_at(mem, Relocatable { segment_index: p.segment_index, offset: (p.offset - n + (n - 1)) as usize })
            == Some(stop_values(regions, order, mem)[n - 1]));
        assert(Relocatable { segment_index: p.segment_index, offset: (p.offset - n + (n - 1)) as usize } == q);
        assert(final_stack_spec(r, mem, p) == Ok::<Relocatable, RunnerError>(q));
        assert forall|k: int| 0 <= k < sv.len() implies cell_at(mem,
            Relocatable { segment_index: q.segment_index, offset: (q.offset - sv.len() + k) as usize }) == Some(#[trigger] sv[k]) by {
            assert(stop_values(regions, order, mem)[k] == sv[k]);
            assert(cell_at(mem, Relocatable { segment_index: p.segment_index, offset: (p.offset - n + k) as usize })
                == Some(stop_values(regions, order, mem)[k]));
        }
        lemma_return_walk_round_trip(regions, prev, mem, q, allow_missing);
        assert(pushed(regions, order) == pushed(regions, prev) + initial_of(r));
        assert forall|k: int| 0 <= k < pushed(regions, order).len() implies
            pairs_with(#[trigger] pushed(regions, order)[k], stop_values(regions, order, mem)[k]) by {
            if k < pushed(regions, prev).len() {
                assert(pushed(regions, order)[k] == pushed(regions, prev)[k]);
                assert(stop_values(regions, order, mem)[k] == sv[k]);
            }
        }
    } else {
        assert(stop_values(regions, order, mem) == sv);
        assert(pushed(regions, order) == pushed(regions, prev));
        lemma_return_walk_round_trip(regions, prev, mem, p, allow_missing);
    }
}

/// With missing builtins tolerated, an unregistered builtin's placeholder cell
/// below the pointer decides the step: a nonzero integer is a mismatch, and
/// zero moves the pointer down by exactly one cell; with no cell below the
/// pointer the step fails.
pub proof fn lemma_missing_builtin_placeholder(regions: Seq<BuiltinRegion>, id: BuiltinId, mem: Seq<Seq<Option<Cell>>>, p: Relocatable, v: Felt)
    requires
        lookup(regions, id) is None,
        p.offset > 0 ==> cell_at(mem, below(p)) == Some(Cell::Int(v)),
    ensures
        p.offset == 0 ==> return_step_spec(regions, id, mem, p, true)
            == Err::<Relocatable, RunnerError>(RunnerError::NoStopPointer { name: id }),
        p.offset > 0 && !v.spec_is_zero() ==> return_step_spec(regions, id, mem, p, true)
            == Err::<Relocatable, RunnerError>(RunnerError::BuiltinMismatch { name: id }),
        p.offset > 0 && v.spec_is_zero() ==> return_step_spec(regions, id, mem, p, true) == Ok::<Relocatable, RunnerError>(below(p))
            && below(p).segment_index == p.segment_index && below(p).offset + 1 == p.offset,
{
}

} // verus!
