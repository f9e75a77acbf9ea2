//! Finding room in the shared-memory address window, by next fit from a
//! rotating cursor. The memory map is learned one region at a time from the
//! query-memory call: `GapSearch` says which address to query next and
//! decides on each answer.
use vstd::prelude::*;

use crate::handle::{BorrowedHandle, OwnedHandle};
use crate::mem::{MemoryPermission, MemoryState, QueryResult};
use crate::result::{CommonDescription, ErrorCode, Level, Module, Summary, pack_result};
use crate::svc::{decode_unit, map_memory_block, unmap_memory_block, SvcCall};

verus! {

/// Lower bound of the shared-memory window.
pub const SHAREDMEM_START: usize = 0x1000_0000;

/// Upper bound of the shared-memory window.
pub const SHAREDMEM_END: usize = 0x1400_0000;

/// Size of a page.
pub const PAGE_SIZE: usize = 0x1000;

/// `size` rounded up to a whole number of pages.
pub open spec fn page_aligned(size: int) -> int {
    ((size + PAGE_SIZE - 1) / PAGE_SIZE as int) * PAGE_SIZE
}

/// Rounds `size` up to whole pages; `None` where that does not fit a usize.
pub fn page_align(size: usize) -> (r: Option<usize>)
    ensures
        r matches Some(s) ==> s == page_aligned(size as int),
        r is None <==> page_aligned(size as int) > usize::MAX,
{
    let pages = size / PAGE_SIZE + if size % PAGE_SIZE == 0 { 0 } else { 1 };
    assert(pages == (size + PAGE_SIZE - 1) / PAGE_SIZE as int) by (nonlinear_arith)
        requires
            pages == size / 0x1000 + if size % 0x1000 == 0 { 0int } else { 1int },
    ;
    if pages > usize::MAX / PAGE_SIZE {
        assert(pages * PAGE_SIZE > usize::MAX) by (nonlinear_arith)
            requires pages > usize::MAX / 0x1000;
        None
    } else {
        assert(pages * PAGE_SIZE <= usize::MAX) by (nonlinear_arith)
            requires pages <= usize::MAX / 0x1000;
        Some(pages * PAGE_SIZE)
    }
}

/// How much of `region` lies at or after `address`, if `address` lies in it.
pub open spec fn spec_remaining_free(base: usize, size: usize, address: usize) -> Option<int> {
    if address < base || size < address - base {
        None
    } else {
        Some(size - (address - base))
    }
}

/// Bytes of `block` from `address` to its end; `None` if `address` is
/// outside it.
pub fn remaining_free(block: &QueryResult, address: usize) -> (r: Option<usize>)
    ensures
        r matches Some(v) ==> Some(v as int) == spec_remaining_free(
            block.base_process_virtual_address,
            block.size,
            address,
        ),
        r is None <==> spec_remaining_free(block.base_process_virtual_address, block.size, address) is None,
{
    let offset = address.checked_sub(block.base_process_virtual_address)?;
    block.size.checked_sub(offset)
}

/// Whether a region can hold `size` bytes from `address`.
pub open spec fn fits(region: QueryResult, address: usize, size: usize) -> bool {
    region.state == MemoryState::Free && match spec_remaining_free(
        region.base_process_virtual_address,
        region.size,
        address,
    ) {
        Some(free) => free >= size,
        None => false,
    }
}

/// What the search wants next.
#[derive(Debug, Clone, Copy, PartialEq, Eq, Structural)]
pub enum SearchStep {
    /// Query the region that holds this address, and hand the answer to
    /// `GapSearch::on_region`.
    Query(usize),
    /// A gap starts at this address.
    Found(usize),
    /// The whole window was scanned without finding a gap.
    NoGap,
}

/// A search for `size` free bytes: first from the cursor to the window's
/// end, then once from the window's start up to the cursor.
#[derive(Debug, Clone, Copy)]
pub struct GapSearch {
    pub probe: usize,
    pub end: usize,
    pub size: usize,
    pub cursor: usize,
    pub wrapped: bool,
}

/// Whether a probe at `probe` lies before `end` with room for `size` bytes
/// up to it.
pub open spec fn in_pass(probe: usize, size: usize, end: usize) -> bool {
    probe < end && probe + size <= end
}

/// The state after `next_step` from `s`: unchanged while the probe leaves
/// room in the current pass; at the end of the first pass, wrapped round to
/// search from the window's start up to the cursor.
pub open spec fn next_state(s: GapSearch) -> GapSearch {
    if in_pass(s.probe, s.size, s.end) || s.wrapped {
        s
    } else {
        GapSearch { probe: SHAREDMEM_START, end: s.cursor, wrapped: true, ..s }
    }
}

/// What `next_step` from `s` asks for.
pub open spec fn next_result(s: GapSearch) -> SearchStep {
    if in_pass(s.probe, s.size, s.end) {
        SearchStep::Query(s.probe)
    } else if s.wrapped {
        SearchStep::NoGap
    } else if in_pass(SHAREDMEM_START, s.size, s.cursor) {
        SearchStep::Query(SHAREDMEM_START)
    } else {
        SearchStep::NoGap
    }
}

/// The end of a region: its base plus its size.
pub open spec fn region_end(region: QueryResult) -> int {
    region.base_process_virtual_address + region.size
}

/// Where the probe goes after `region` did not fit: to the region's end,
/// or to the end of the pass where the region's end is not past the probe
/// (no progress is possible) or does not fit a usize.
pub open spec fn advanced(s: GapSearch, region: QueryResult) -> usize {
    if region_end(region) <= s.probe || region_end(region) > usize::MAX {
        s.end
    } else {
        region_end(region) as usize
    }
}

impl GapSearch {
    pub open spec fn wf(&self) -> bool {
        &&& self.end <= SHAREDMEM_END
        &&& self.cursor <= SHAREDMEM_END
        &&& self.wrapped ==> self.end == self.cursor
        &&& !self.wrapped ==> self.end == SHAREDMEM_END
    }

    /// A search that starts at `cursor`.
    pub fn new(cursor: usize, size: usize) -> (r: GapSearch)
        requires
            cursor <= SHAREDMEM_END,
        ensures
            r.wf(),
            r == (GapSearch { probe: cursor, end: SHAREDMEM_END, size, cursor, wrapped: false }),
    {
        GapSearch { probe: cursor, end: SHAREDMEM_END, size, cursor, wrapped: false }
    }

    /// The next step from the current probe: query it while it leaves room
    /// in the current pass; at the end of the first pass wrap to the
    /// window's start; at the end of the second pass, give up.
    pub fn next_step(&mut self) -> (r: SearchStep)
        requires
            old(self).wf(),
        ensures
            final(self).wf(),
            *final(self) == next_state(*old(self)),
            r == next_result(*old(self)),
    {
        if self.probe < self.end && self.probe as u128 + (self.size as u128) <= self.end as u128 {
            return SearchStep::Query(self.probe);
        }
        if self.wrapped {
            return SearchStep::NoGap;
        }
        self.wrapped = true;
        self.probe = SHAREDMEM_START;
        self.end = self.cursor;
        if SHAREDMEM_START < self.cursor && (SHAREDMEM_START as u128) + (self.size as u128)
            <= self.cursor as u128 {
            SearchStep::Query(SHAREDMEM_START)
        } else {
            SearchStep::NoGap
        }
    }

    /// Decides on the region that holds the probe, which `next_step` asked
    /// to query: a gap if it is free and holds `size` bytes from the probe;
    /// otherwise the probe moves to the end of the region and the search
    /// goes on.
    pub fn on_region(&mut self, region: &QueryResult) -> (r: SearchStep)
        requires
            old(self).wf(),
            in_pass(old(self).probe, old(self).size, old(self).end),
        ensures
            final(self).wf(),
            fits(*region, old(self).probe, old(self).size) ==> r == SearchStep::Found(
                old(self).probe,
            ) && *final(self) == *old(self),
            !fits(*region, old(self).probe, old(self).size) ==> ({
                let s = GapSearch { probe: advanced(*old(self), *region), ..*old(self) };
                *final(self) == next_state(s) && r == next_result(s)
            }),
    {
        let free = match region.state {
            MemoryState::Free => remaining_free(region, self.probe),
            _ => None,
        };
        if let Some(free) = free {
            if free >= self.size {
                return SearchStep::Found(self.probe);
            }
        }
        match region.base_process_virtual_address.checked_add(region.size) {
            Some(next) => {
                if next > self.probe {
                    self.probe = next;
                } else {
                    self.probe = self.end;
                }
            },
            None => self.probe = self.end,
        }
        self.next_step()
    }
}

/// The first address from `probe` on, where `size` bytes fit before `end`,
/// going region by region of the memory map `m`: each probe that does not
/// fit is followed by the end of the region that holds it.
pub open spec fn pass_result(
    m: spec_fn(usize) -> QueryResult,
    probe: usize,
    end: usize,
    size: usize,
) -> Option<usize>
    decreases end - probe,
{
    if !in_pass(probe, size, end) {
        None
    } else if fits(m(probe), probe, size) {
        Some(probe)
    } else if region_end(m(probe)) <= probe || region_end(m(probe)) > usize::MAX || !in_pass(
        region_end(m(probe)) as usize,
        size,
        end,
    ) {
        None
    } else {
        pass_result(m, region_end(m(probe)) as usize, end, size)
    }
}

/// The first reachable gap of `size` bytes in the memory map `m`: scanning
/// from `cursor` to the window's end, then once from the window's start up
/// to `cursor`.
pub open spec fn first_fit(m: spec_fn(usize) -> QueryResult, cursor: usize, size: usize) -> Option<
    usize,
> {
    match pass_result(m, cursor, SHAREDMEM_END, size) {
        Some(a) => Some(a),
        None => pass_result(m, SHAREDMEM_START, cursor, size),
    }
}

/// The answer still to come from a search in state `s` over `m`.
pub open spec fn search_outcome(m: spec_fn(usize) -> QueryResult, s: GapSearch) -> Option<usize> {
    if s.wrapped {
        pass_result(m, s.probe, s.end, s.size)
    } else {
        match pass_result(m, s.probe, s.end, s.size) {
            Some(a) => Some(a),
            None => pass_result(m, SHAREDMEM_START, s.cursor, s.size),
        }
    }
}

/// Ranks search states: the first pass before the second, and within a
/// pass by the distance left to its end.
pub open spec fn search_rank(s: GapSearch) -> nat {
    (if s.wrapped { 0nat } else { SHAREDMEM_END as nat + 1 }) + if s.end >= s.probe {
        (s.end - s.probe) as nat
    } else {
        0nat
    }
}

/// What a search in state `s`, about to call `next_step`, ends with when
/// each query at address `a` is answered with `m(a)`.
pub open spec fn machine(m: spec_fn(usize) -> QueryResult, s: GapSearch) -> Option<usize>
    decreases search_rank(s),
{
    let s1 = next_state(s);
    match next_result(s) {
        SearchStep::Query(p) => if fits(m(p), p, s1.size) {
            Some(p)
        } else if s.wf() && search_rank(GapSearch { probe: advanced(s1, m(p)), ..s1 }) < search_rank(s) {
            machine(m, GapSearch { probe: advanced(s1, m(p)), ..s1 })
        } else {
            None
        },
        _ => None,
    }
}

proof fn lemma_advance(m: spec_fn(usize) -> QueryResult, s: GapSearch)
    requires
        s.wf(),
        in_pass(s.probe, s.size, s.end),
        !fits(m(s.probe), s.probe, s.size),
    ensures
        pass_result(m, s.probe, s.end, s.size) == pass_result(m, advanced(s, m(s.probe)), s.end, s.size),
        search_rank(GapSearch { probe: advanced(s, m(s.probe)), ..s }) < search_rank(s),
{
}

proof fn lemma_machine_outcome(m: spec_fn(usize) -> QueryResult, s: GapSearch)
    requires
        s.wf(),
    ensures
        machine(m, s) == search_outcome(m, s),
    decreases search_rank(s),
{
    let s1 = next_state(s);
    if in_pass(s.probe, s.size, s.end) {
        if !fits(m(s.probe), s.probe, s.size) {
            lemma_advance(m, s);
            lemma_machine_outcome(m, GapSearch { probe: advanced(s1, m(s.probe)), ..s1 });
        }
    } else if !s.wrapped {
        assert(search_outcome(m, s) == search_outcome(m, s1));
        if in_pass(s1.probe, s1.size, s1.end) && !fits(m(s1.probe), s1.probe, s1.size) {
            lemma_advance(m, s1);
            lemma_machine_outcome(m, GapSearch { probe: advanced(s1, m(s1.probe)), ..s1 });
        }
    }
}

/// A search started at the mapper's cursor and driven by the step
/// functions, with each query answered from the memory map `m`, finds
/// exactly the first reachable gap: the first region from the cursor to the
/// window's end, and then from the window's start back to the cursor, that
/// is free and holds the request; or no gap, when there is none.
pub proof fn lemma_search_finds_first_fit(
    m: spec_fn(usize) -> QueryResult,
    cursor: usize,
    size: usize,
)
    requires
        cursor <= SHAREDMEM_END,
    ensures
        machine(
            m,
            GapSearch { probe: cursor, end: SHAREDMEM_END, size, cursor, wrapped: false },
        ) == first_fit(m, cursor, size),
{
    lemma_machine_outcome(
        m,
        GapSearch { probe: cursor, end: SHAREDMEM_END, size, cursor, wrapped: false },
    );
}

/// The error for an exhausted window.
pub fn error_out_of_memory() -> (r: ErrorCode)
    ensures
        r.spec_value() == pack_result(
            Level::Fatal.spec_value(),
            Summary::OutOfResource.spec_value(),
            Module::Application.spec_value() as u32,
            CommonDescription::OutOfMemory.spec_value(),
        ),
{
    let v: u32 = (31u32 << 27u32) | (3u32 << 21u32) | (254u32 << 10u32) | (1011u32 & 0x3ffu32);
    assert(v != 0) by (bit_vector)
        requires
            v == (31u32 << 27u32) | (3u32 << 21u32) | (254u32 << 10u32) | (1011u32 & 0x3ffu32),
    ;
    ErrorCode::from_raw(v)
}

/// A shared-memory block mapped into this process. Dropping it without
/// unmapping leaks its memory handle.
#[must_use]
#[derive(Debug)]
pub struct MappedBlock {
    start: usize,
    size: usize,
    handle: OwnedHandle,
}

impl MappedBlock {
    pub closed spec fn start_spec(&self) -> usize {
        self.start
    }

    pub closed spec fn size_spec(&self) -> usize {
        self.size
    }

    pub closed spec fn handle_spec(&self) -> u32 {
        self.handle@
    }

    pub fn size(&self) -> (r: usize)
        ensures
            r == self.size_spec(),
    {
        self.size
    }

    /// The address the block is mapped at.
    pub fn as_ptr(&self) -> (r: usize)
        ensures
            r == self.start_spec(),
    {
        self.start
    }

    /// The address the block is mapped at, for writing.
    pub fn as_mut_ptr(&mut self) -> (r: usize)
        ensures
            r == old(self).start_spec(),
            *final(self) == *old(self),
    {
        self.start
    }
}

/// The cursor of next-fit allocation in the shared-memory window.
#[derive(Debug)]
pub struct SharedMemoryMapper {
    next_candidate: usize,
}

impl SharedMemoryMapper {
    pub closed spec fn cursor_spec(&self) -> usize {
        self.next_candidate
    }

    pub open spec fn wf(&self) -> bool {
        SHAREDMEM_START <= self.cursor_spec() <= SHAREDMEM_END
    }

    /// A mapper whose cursor is at the window's start.
    pub fn new() -> (r: SharedMemoryMapper)
        ensures
            r.wf(),
            r.cursor_spec() == SHAREDMEM_START,
    {
        SharedMemoryMapper { next_candidate: SHAREDMEM_START }
    }

    pub fn cursor(&self) -> (r: usize)
        ensures
            r == self.cursor_spec(),
    {
        self.next_candidate
    }

    /// Starts the search for a block of `size` bytes, rounded up to pages.
    /// `None` where the rounded size does not fit a usize.
    pub fn find_gap(&self, size: usize) -> (r: Option<GapSearch>)
        requires
            self.wf(),
        ensures
            page_aligned(size as int) <= usize::MAX <==> r is Some,
            r matches Some(s) ==> s.wf() && s.probe == self.cursor_spec() && s.cursor
                == self.cursor_spec() && s.size == page_aligned(size as int) && !s.wrapped,
    {
        match page_align(size) {
            Some(s) => Some(GapSearch::new(self.next_candidate, s)),
            None => None,
        }
    }

    /// Prepares to map `memory_handle` at the gap at `address`: the block
    /// that would result, and the map call to make. The cursor does not
    /// move until `map` sees the call succeed.
    pub fn map_request(
        &self,
        memory_handle: OwnedHandle,
        address: usize,
        size: usize,
        my_permissions: MemoryPermission,
        other_permissions: MemoryPermission,
    ) -> (r: (MappedBlock, SvcCall))
        requires
            SHAREDMEM_START <= address,
            address + size <= SHAREDMEM_END,
        ensures
            r.0.start_spec() == address,
            r.0.size_spec() == size,
            r.0.handle_spec() == memory_handle@,
            r.1.number == 0x1f,
            r.1.inputs@ == seq![
                Some(memory_handle@),
                Some(address as u32),
                Some(my_permissions.spec_value()),
                Some(other_permissions.spec_value()),
            ],
    {
        let call = map_memory_block(
            memory_handle.handle(),
            address as u32,
            my_permissions,
            other_permissions,
        );
        (MappedBlock { start: address, size, handle: memory_handle }, call)
    }

    /// Takes the outcome of the map call for `block`. On success the cursor
    /// moves to the block's end and the block is given back; on failure the
    /// cursor stays and the block's memory handle is given back with the
    /// failure, still open.
    pub fn map(&mut self, block: MappedBlock, outputs: &[u32]) -> (r: Result<
        MappedBlock,
        (ErrorCode, OwnedHandle),
    >)
        requires
            old(self).wf(),
            outputs@.len() >= 1,
            SHAREDMEM_START <= block.start_spec(),
            block.start_spec() + block.size_spec() <= SHAREDMEM_END,
        ensures
            final(self).wf(),
            outputs@[0] == 0 <==> r is Ok,
            r matches Ok(b) ==> b == block && final(self).cursor_spec() == block.start_spec()
                + block.size_spec(),
            r matches Err((e, h)) ==> e.spec_value() == outputs@[0] && h@ == block.handle_spec()
                && final(self).cursor_spec() == old(self).cursor_spec(),
    {
        match decode_unit(outputs) {
            Ok(()) => {
                self.next_candidate = block.start + block.size;
                Ok(block)
            },
            Err(e) => Err((e, block.handle)),
        }
    }

    /// The unmap call for `block`.
    pub fn unmap_request(&self, block: &MappedBlock) -> (r: SvcCall)
        ensures
            r.number == 0x20,
            r.inputs@ == seq![Some(block.handle_spec()), Some(block.start_spec() as u32)],
    {
        unmap_memory_block(block.handle.handle(), block.start as u32)
    }

    /// Takes the outcome of the unmap call for `block`. On success the
    /// cursor moves back to the block's start and its memory handle is
    /// given back, still open; on failure the block stays mapped and is
    /// given back with the failure.
    pub fn unmap(&mut self, block: MappedBlock, outputs: &[u32]) -> (r: Result<
        OwnedHandle,
        (ErrorCode, MappedBlock),
    >)
        requires
            old(self).wf(),
            outputs@.len() >= 1,
            SHAREDMEM_START <= block.start_spec() <= SHAREDMEM_END,
        ensures
            final(self).wf(),
            outputs@[0] == 0 <==> r is Ok,
            r matches Ok(h) ==> h@ == block.handle_spec() && final(self).cursor_spec()
                == block.start_spec(),
            r matches Err((e, b)) ==> e.spec_value() == outputs@[0] && b == block
                && final(self).cursor_spec() == old(self).cursor_spec(),
    {
        match decode_unit(outputs) {
            Ok(()) => {
                self.next_candidate = block.start;
                Ok(block.handle)
            },
            Err(e) => Err((e, block)),
        }
    }
}

} // verus!
