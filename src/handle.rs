//! Kernel-object handles: owning and borrowed forms, and the cell that
//! creates a handle lazily on first use.
use vstd::prelude::*;

use core::sync::atomic::{AtomicU32, Ordering};

use crate::svc::{duplicate_handle, SvcCall};

verus! {

/// The reserved raw value of a closed handle.
pub const CLOSED_HANDLE: u32 = 0;

/// Pseudo-handle naming the calling thread.
pub const ACTIVE_THREAD_HANDLE: u32 = 0xFFFF_8000;

/// Pseudo-handle naming the calling process.
pub const ACTIVE_PROCESS_HANDLE: u32 = 0xFFFF_8001;

/// A non-owning view of a raw handle. It is never closed through this view.
#[derive(Debug, Copy, Clone, PartialEq, Eq, Structural)]
pub struct BorrowedHandle {
    raw: u32,
}

impl View for BorrowedHandle {
    type V = u32;

    closed spec fn view(&self) -> u32 {
        self.raw
    }
}

impl BorrowedHandle {
    /// Views a raw handle value.
    pub fn new(raw_handle: u32) -> (r: BorrowedHandle)
        ensures
            r@ == raw_handle,
    {
        BorrowedHandle { raw: raw_handle }
    }

    /// The calling thread.
    pub fn active_thread() -> (r: BorrowedHandle)
        ensures
            r@ == ACTIVE_THREAD_HANDLE,
    {
        BorrowedHandle::new(ACTIVE_THREAD_HANDLE)
    }

    /// The calling process.
    pub fn active_process() -> (r: BorrowedHandle)
        ensures
            r@ == ACTIVE_PROCESS_HANDLE,
    {
        BorrowedHandle::new(ACTIVE_PROCESS_HANDLE)
    }

    /// The raw value, as placed in a register or a command buffer.
    pub fn as_raw(&self) -> (r: u32)
        ensures
            r == self@,
    {
        self.raw
    }

    /// The raw value, consuming the view.
    pub fn into_raw(self) -> (r: u32)
        ensures
            r == self@,
    {
        self.raw
    }

    /// The view of the closed handle.
    pub fn invalid() -> (r: BorrowedHandle)
        ensures
            r@ == CLOSED_HANDLE,
    {
        BorrowedHandle::new(CLOSED_HANDLE)
    }
}

/// A handle that owns its kernel object: it is closed exactly once, unless
/// its ownership is handed elsewhere with `leak`. Dropping one that is not
/// closed leaks its kernel object: close it with `close`.
#[must_use]
#[derive(Debug)]
pub struct OwnedHandle {
    raw: u32,
}

impl View for OwnedHandle {
    type V = u32;

    closed spec fn view(&self) -> u32 {
        self.raw
    }
}

impl OwnedHandle {
    /// Takes ownership of a raw value returned by the kernel. The value 0
    /// gives a closed handle.
    pub fn new(raw_handle: u32) -> (r: OwnedHandle)
        ensures
            r@ == raw_handle,
    {
        OwnedHandle { raw: raw_handle }
    }

    /// A handle that owns nothing.
    pub fn new_closed() -> (r: OwnedHandle)
        ensures
            r@ == CLOSED_HANDLE,
    {
        OwnedHandle { raw: CLOSED_HANDLE }
    }

    /// Whether this handle owns nothing.
    pub fn is_closed(&self) -> (r: bool)
        ensures
            r == (self@ == CLOSED_HANDLE),
    {
        self.raw == CLOSED_HANDLE
    }

    /// Moves the ownership out, leaving this handle closed.
    pub fn take(&mut self) -> (r: OwnedHandle)
        ensures
            r@ == old(self)@,
            final(self)@ == CLOSED_HANDLE,
    {
        let raw = self.raw;
        self.raw = CLOSED_HANDLE;
        OwnedHandle { raw }
    }

    /// Marks the handle closed and gives the raw value that the kernel's
    /// close call must now receive. That value is given once: a handle that
    /// is already closed gives `None`.
    pub fn close(&mut self) -> (r: Option<u32>)
        ensures
            final(self)@ == CLOSED_HANDLE,
            old(self)@ == CLOSED_HANDLE ==> r is None,
            old(self)@ != CLOSED_HANDLE ==> r == Some(old(self)@),
    {
        if self.raw == CLOSED_HANDLE {
            None
        } else {
            let raw = self.raw;
            self.raw = CLOSED_HANDLE;
            Some(raw)
        }
    }

    /// A borrowed view of the same object.
    pub fn handle(&self) -> (r: BorrowedHandle)
        ensures
            r@ == self@,
    {
        BorrowedHandle::new(self.raw)
    }

    /// The call that duplicates this handle; its output is a new owning
    /// handle to the same object.
    pub fn try_duplicate(&self) -> (r: SvcCall)
        ensures
            r.number == 0x27,
            r.inputs@ == seq![None, Some(self@)],
    {
        duplicate_handle(self.handle())
    }

    /// Gives the raw value up without closing it: its ownership now lies
    /// with whoever receives the value.
    pub fn leak(self) -> (r: u32)
        ensures
            r == self@,
    {
        self.raw
    }
}

/// Types that hold a handle and can lend it.
pub trait BorrowHandle {
    spec fn borrowed_raw(&self) -> u32;

    fn borrow_handle(&self) -> (r: BorrowedHandle)
        ensures
            r@ == self.borrowed_raw(),
    ;
}

impl BorrowHandle for OwnedHandle {
    open spec fn borrowed_raw(&self) -> u32 {
        self@
    }

    fn borrow_handle(&self) -> (r: BorrowedHandle) {
        self.handle()
    }
}

/// The contents of a lazily initialised handle cell after one racer's
/// compare-and-swap from the closed value to `candidate`.
pub open spec fn installed(cell: u32, candidate: u32) -> u32 {
    if cell == CLOSED_HANDLE {
        candidate
    } else {
        cell
    }
}

/// The cell's contents after every racer of `candidates`, in that order,
/// has made its compare-and-swap.
pub open spec fn installed_all(cell: u32, candidates: Seq<u32>) -> u32
    decreases candidates.len(),
{
    if candidates.len() == 0 {
        cell
    } else {
        installed_all(installed(cell, candidates[0]), candidates.drop_first())
    }
}

/// Whether the racer at index `i` loses, that is finds the cell already
/// holding a handle when its compare-and-swap runs.
pub open spec fn loses(cell: u32, candidates: Seq<u32>, i: int) -> bool {
    installed_all(cell, candidates.take(i)) != CLOSED_HANDLE
}

/// When racers with freshly created (nonzero) handles race on an empty cell,
/// the first one's handle is the one that stays, every racer observes it, and
/// every other racer loses and must close its own handle.
pub proof fn lemma_first_install_wins(candidates: Seq<u32>)
    requires
        candidates.len() > 0,
        forall|i: int| 0 <= i < candidates.len() ==> candidates[i] != CLOSED_HANDLE,
    ensures
        installed_all(CLOSED_HANDLE, candidates) == candidates[0],
        forall|i: int|
            0 <= i < candidates.len() ==> installed(
                installed_all(CLOSED_HANDLE, candidates.take(i)),
                candidates[i],
            ) == candidates[0],
        !loses(CLOSED_HANDLE, candidates, 0),
        forall|i: int| 1 <= i < candidates.len() ==> loses(CLOSED_HANDLE, candidates, i),
{
    assert(candidates.take(0) =~= Seq::<u32>::empty());
    assert forall|i: int| 1 <= i <= candidates.len() implies installed_all(
        CLOSED_HANDLE,
        candidates.take(i),
    ) == candidates[0] by {
        lemma_installed_keeps(candidates[0], candidates.take(i).drop_first());
        assert(candidates.take(i).drop_first() =~= candidates.take(i).drop_first());
    }
    assert(candidates.take(candidates.len() as int) =~= candidates);
}

/// Once the cell holds a handle, no later racer changes it.
pub proof fn lemma_installed_keeps(cell: u32, candidates: Seq<u32>)
    requires
        cell != CLOSED_HANDLE,
    ensures
        installed_all(cell, candidates) == cell,
    decreases candidates.len(),
{
    if candidates.len() > 0 {
        lemma_installed_keeps(installed(cell, candidates[0]), candidates.drop_first());
    }
}

/// The handle a load of a lazily initialised cell found, if it was filled.
pub fn present_handle(loaded: u32) -> (r: Option<BorrowedHandle>)
    ensures
        loaded == CLOSED_HANDLE ==> r is None,
        loaded != CLOSED_HANDLE ==> (r matches Some(h) && h@ == loaded),
{
    if loaded == CLOSED_HANDLE {
        None
    } else {
        Some(BorrowedHandle::new(loaded))
    }
}

/// Decides one racer's compare-and-swap of `candidate` into a cell in
/// which the swap found `observed`: an empty cell takes the candidate,
/// whose ownership passes to the cell; otherwise the handle already there
/// stays and the candidate is handed back to be closed. Gives the handle the
/// cell holds afterwards.
pub fn decide_install(observed: u32, candidate: OwnedHandle) -> (r: (BorrowedHandle, Option<OwnedHandle>))
    ensures
        r.0@ == installed(observed, candidate@),
        observed == CLOSED_HANDLE ==> r.1 is None,
        observed != CLOSED_HANDLE ==> (r.1 matches Some(l) && l@ == candidate@),
{
    if observed == CLOSED_HANDLE {
        (BorrowedHandle::new(candidate.leak()), None)
    } else {
        (BorrowedHandle::new(observed), Some(candidate))
    }
}

/// A handle cell under exclusive access: one step of the first-use race,
/// with the same outcome that the shared cell's compare-and-swap has.
#[derive(Debug)]
pub struct HandleCell {
    raw: u32,
}

impl View for HandleCell {
    type V = u32;

    closed spec fn view(&self) -> u32 {
        self.raw
    }
}

impl HandleCell {
    /// An empty cell.
    pub fn new_closed() -> (r: HandleCell)
        ensures
            r@ == CLOSED_HANDLE,
    {
        HandleCell { raw: CLOSED_HANDLE }
    }

    /// Installs `candidate` if the cell is empty. Gives the handle that the
    /// cell now holds, and the candidate back when it lost, to be closed.
    pub fn install(&mut self, candidate: OwnedHandle) -> (r: (BorrowedHandle, Option<OwnedHandle>))
        ensures
            final(self)@ == installed(old(self)@, candidate@),
            r.0@ == final(self)@,
            old(self)@ == CLOSED_HANDLE ==> r.1 is None,
            old(self)@ != CLOSED_HANDLE ==> (r.1 matches Some(l) && l@ == candidate@),
    {
        let (h, lost) = decide_install(self.raw, candidate);
        self.raw = h.as_raw();
        (h, lost)
    }

    /// The handle the cell holds, if any.
    pub fn get(&self) -> (r: Option<BorrowedHandle>)
        ensures
            self@ == CLOSED_HANDLE ==> r is None,
            self@ != CLOSED_HANDLE ==> (r matches Some(h) && h@ == self@),
    {
        if self.raw == CLOSED_HANDLE {
            None
        } else {
            Some(BorrowedHandle::new(self.raw))
        }
    }
}

/// A handle cell shared between threads, created empty before any system
/// call is possible, and filled on first use.
#[derive(Debug)]
pub struct AtomicHandle {
    cell: AtomicU32,
}

/// What one call of `AtomicHandle::get_or_init` found.
#[derive(Debug)]
pub enum LazyOutcome {
    /// The cell already held this handle; nothing was created.
    Present(BorrowedHandle),
    /// The freshly created handle was installed and is now shared.
    Installed(BorrowedHandle),
    /// Another racer installed its handle first. The freshly created handle
    /// is handed back and must be closed.
    Lost(BorrowedHandle, OwnedHandle),
}

impl AtomicHandle {
    /// An empty cell.
    pub fn new_closed() -> (r: AtomicHandle) {
        AtomicHandle { cell: AtomicU32::new(CLOSED_HANDLE) }
    }

    /// A cell that owns `handle` from the start.
    pub fn from_handle(handle: OwnedHandle) -> (r: AtomicHandle) {
        AtomicHandle { cell: AtomicU32::new(handle.leak()) }
    }

    /// The handle the cell holds, or creates it with `init` and races to
    /// install it; `init` runs only when the cell was found empty. The race
    /// is decided by `decide_install` on the value the compare-and-swap
    /// found: the previous value, which is the closed value when the swap
    /// succeeded and the other racer's handle when it failed.
    pub fn get_or_init<F: FnOnce() -> OwnedHandle>(&self, init: F) -> (r: LazyOutcome)
        requires
            init.requires(()),
        ensures
            r matches LazyOutcome::Present(h) ==> h@ != CLOSED_HANDLE,
            r matches LazyOutcome::Installed(h) ==> exists|c: OwnedHandle|
                #[trigger] init.ensures((), c) && h@ == installed(CLOSED_HANDLE, c@),
            r matches LazyOutcome::Lost(h, l) ==> init.ensures((), l) && h@ != CLOSED_HANDLE
                && h@ == installed(h@, l@),
    {
        let current = self.cell.load(Ordering::Acquire);
        if let Some(h) = present_handle(current) {
            return LazyOutcome::Present(h);
        }
        let candidate = init();
        let raw = candidate.handle().into_raw();
        let observed = match self.cell.compare_exchange(
            CLOSED_HANDLE,
            raw,
            Ordering::AcqRel,
            Ordering::Acquire,
        ) {
            Ok(previous) => previous,
            Err(actual) => actual,
        };
        let ghost c = candidate;
        let (h, lost) = decide_install(observed, candidate);
        match lost {
            None => {
                assert(init.ensures((), c) && h@ == installed(CLOSED_HANDLE, c@));
                LazyOutcome::Installed(h)
            },
            Some(l) => LazyOutcome::Lost(h, l),
        }
    }

    /// Empties the cell and gives the raw value it held, whose ownership
    /// passes to the caller.
    pub fn take_raw(&self) -> (r: u32) {
        self.cell.swap(CLOSED_HANDLE, Ordering::AcqRel)
    }

    /// The handle the cell holds now (closed if it was never filled).
    pub fn borrow_raw(&self) -> (r: BorrowedHandle) {
        BorrowedHandle::new(self.cell.load(Ordering::SeqCst))
    }
}

} // verus!
