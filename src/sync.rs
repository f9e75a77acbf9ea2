//! Kernel-backed synchronization: events, a lazily created mutex, an
//! address arbiter, and a sticky event. Each operation gives the system call
//! that carries it out.
use vstd::prelude::*;

use core::sync::atomic::{AtomicU32, Ordering};

use crate::handle::{CLOSED_HANDLE, AtomicHandle, BorrowHandle, BorrowedHandle, LazyOutcome, OwnedHandle};
use crate::svc::{
    arbitrate_address, clear_event, close_handle, create_address_arbiter, create_event,
    create_mutex, decode_tick_count, duplicate_handle, high_word, low_word, release_mutex, signal_event,
    wait_synchronization, wait_synchronization_many, ArbitrationType, ResetType, SvcCall, Timeout,
};

verus! {

/// A monotonic tick count.
#[derive(Debug, Clone, Copy, PartialEq, Eq, Structural)]
pub struct SystemTick(pub u64);

impl SystemTick {
    pub fn new(ticks: u64) -> (r: SystemTick)
        ensures
            r.0 == ticks,
    {
        SystemTick(ticks)
    }

    /// The tick count in the outputs of the get-system-tick-count call.
    pub fn now(outputs: &[u32]) -> (r: SystemTick)
        requires
            outputs@.len() >= 2,
        ensures
            r.0 == outputs@[0] as u64 * 0x1_0000_0000 + outputs@[1] as u64,
    {
        SystemTick(decode_tick_count(outputs))
    }

    pub fn count(&self) -> (r: u64)
        ensures
            r == self.0,
    {
        self.0
    }
}

impl PartialOrd for SystemTick {
    fn partial_cmp(&self, other: &SystemTick) -> (r: Option<core::cmp::Ordering>) {
        if self.0 < other.0 {
            Some(core::cmp::Ordering::Less)
        } else if self.0 > other.0 {
            Some(core::cmp::Ordering::Greater)
        } else {
            Some(core::cmp::Ordering::Equal)
        }
    }
}

impl vstd::std_specs::cmp::PartialOrdSpecImpl for SystemTick {
    open spec fn obeys_partial_cmp_spec() -> bool {
        true
    }

    /// Ticks are ordered by their count.
    open spec fn partial_cmp_spec(&self, other: &SystemTick) -> Option<core::cmp::Ordering> {
        if self.0 < other.0 {
            Some(core::cmp::Ordering::Less)
        } else if self.0 > other.0 {
            Some(core::cmp::Ordering::Greater)
        } else {
            Some(core::cmp::Ordering::Equal)
        }
    }
}

/// The relative timeout left until `deadline`, seen at `now`: zero once the
/// deadline has passed, and at most the largest timeout.
pub open spec fn spec_timeout_until(deadline: u64, now: u64) -> i64 {
    if deadline <= now {
        0
    } else if deadline - now > i64::MAX {
        i64::MAX
    } else {
        (deadline - now) as i64
    }
}

pub fn timeout_until(deadline: SystemTick, now: SystemTick) -> (r: Timeout)
    ensures
        r.0 == spec_timeout_until(deadline.0, now.0),
{
    if deadline.0 <= now.0 {
        Timeout::none()
    } else {
        let d = deadline.0 - now.0;
        if d > i64::MAX as u64 {
            Timeout::forever()
        } else {
            Timeout::from_nanoseconds(d as i64)
        }
    }
}

/// A kernel event.
#[derive(Debug)]
pub struct Event {
    handle: OwnedHandle,
}

impl Event {
    /// The call that creates an event with `reset_type`; its handle is then
    /// taken with `from_handle`.
    pub fn new(reset_type: ResetType) -> (r: SvcCall)
        ensures
            r.number == 0x17,
            r.inputs@ == seq![Some(reset_type.spec_value())],
    {
        create_event(reset_type)
    }

    pub fn from_handle(handle: OwnedHandle) -> (r: Event)
        ensures
            r.borrowed_raw() == handle@,
    {
        Event { handle }
    }

    /// Waits until signaled, or until `timeout` runs out.
    pub fn wait(&self, timeout: Timeout) -> (r: SvcCall)
        ensures
            r.number == 0x24,
            r.inputs@ == seq![
                Some(self.borrowed_raw()),
                None,
                Some(high_word(timeout.0)),
                Some(low_word(timeout.0)),
            ],
    {
        wait_synchronization(self.borrow_handle(), timeout)
    }

    /// Waits until every one of the `count` events in the handle array at
    /// `handles_address` is signaled.
    pub fn wait_all(handles_address: u32, count: u32, timeout: Timeout) -> (r: SvcCall)
        ensures
            r.number == 0x25,
            r.inputs@ == seq![
                Some(low_word(timeout.0)),
                Some(handles_address),
                Some(count),
                Some(1u32),
                Some(high_word(timeout.0)),
            ],
    {
        wait_synchronization_many(handles_address, count, true, timeout)
    }

    /// Waits until one of the `count` events in the handle array at
    /// `handles_address` is signaled; `decode_wait_many` gives its index.
    pub fn wait_any(handles_address: u32, count: u32, timeout: Timeout) -> (r: SvcCall)
        ensures
            r.number == 0x25,
            r.inputs@ == seq![
                Some(low_word(timeout.0)),
                Some(handles_address),
                Some(count),
                Some(0u32),
                Some(high_word(timeout.0)),
            ],
    {
        wait_synchronization_many(handles_address, count, false, timeout)
    }

    pub fn clear(&self) -> (r: SvcCall)
        ensures
            r.number == 0x19,
            r.inputs@ == seq![Some(self.borrowed_raw())],
    {
        clear_event(self.borrow_handle())
    }

    pub fn signal(&self) -> (r: SvcCall)
        ensures
            r.number == 0x18,
            r.inputs@ == seq![Some(self.borrowed_raw())],
    {
        signal_event(self.borrow_handle())
    }

    /// The call that duplicates this event's handle.
    pub fn duplicate(&self) -> (r: SvcCall)
        ensures
            r.number == 0x27,
            r.inputs@ == seq![None, Some(self.borrowed_raw())],
    {
        duplicate_handle(self.borrow_handle())
    }

    /// Gives up the event; the close call to make is given, if any.
    pub fn close(self) -> (r: Option<SvcCall>)
        ensures
            self.borrowed_raw() == 0 <==> r is None,
            r matches Some(c) ==> c.number == 0x23 && c.inputs@ == seq![Some(self.borrowed_raw())],
    {
        let mut h = self.handle;
        match h.close() {
            Some(raw) => Some(close_handle(BorrowedHandle::new(raw))),
            None => None,
        }
    }
}

impl BorrowHandle for Event {
    closed spec fn borrowed_raw(&self) -> u32 {
        self.handle@
    }

    fn borrow_handle(&self) -> (r: BorrowedHandle) {
        self.handle.handle()
    }
}

/// A kernel mutex whose handle is created on first use, so that a mutex
/// can exist before any system call is possible.
#[derive(Debug)]
pub struct OsMutex {
    handle: AtomicHandle,
}

/// What locking a lazily created mutex needs first.
#[derive(Debug)]
pub enum MutexHandle {
    /// The mutex handle is known.
    Ready(BorrowedHandle),
    /// Another thread installed the handle first; the given handle, created
    /// here, must be closed.
    Race(BorrowedHandle, OwnedHandle),
}

impl OsMutex {
    /// The call that creates an unlocked mutex; its handle is then taken
    /// with `from_handle`.
    pub fn new() -> (r: SvcCall)
        ensures
            r.number == 0x13,
            r.inputs@ == seq![Some(0u32)],
    {
        create_mutex(false)
    }

    /// A mutex whose handle is not created yet.
    pub fn new_lazy() -> (r: OsMutex) {
        OsMutex { handle: AtomicHandle::new_closed() }
    }

    pub fn from_handle(handle: OwnedHandle) -> (r: OsMutex) {
        OsMutex { handle: AtomicHandle::from_handle(handle) }
    }

    /// The mutex handle. When none exists yet, `create` makes one (locked
    /// by the caller) and it is raced into place.
    pub fn get<F: FnOnce() -> OwnedHandle>(&self, create: F) -> (r: MutexHandle)
        requires
            create.requires(()),
            forall|c: OwnedHandle| #[trigger] create.ensures((), c) ==> c@ != CLOSED_HANDLE,
        ensures
            r matches MutexHandle::Ready(h) ==> h@ != CLOSED_HANDLE,
            r matches MutexHandle::Race(h, l) ==> create.ensures((), l) && h@ != CLOSED_HANDLE,
    {
        match self.handle.get_or_init(create) {
            LazyOutcome::Present(h) => MutexHandle::Ready(h),
            LazyOutcome::Installed(h) => MutexHandle::Ready(h),
            LazyOutcome::Lost(h, l) => MutexHandle::Race(h, l),
        }
    }

    /// Waits for the mutex `handle` until `timeout` runs out.
    pub fn lock(handle: BorrowedHandle, timeout: Timeout) -> (r: SvcCall)
        ensures
            r.number == 0x24,
            r.inputs@ == seq![
                Some(handle@),
                None,
                Some(high_word(timeout.0)),
                Some(low_word(timeout.0)),
            ],
    {
        wait_synchronization(handle, timeout)
    }

    /// Tries the mutex `handle` without blocking.
    pub fn try_lock(handle: BorrowedHandle) -> (r: SvcCall)
        ensures
            r.number == 0x24,
            r.inputs@ == seq![Some(handle@), None, Some(0u32), Some(0u32)],
    {
        let c = wait_synchronization(handle, Timeout::none());
        assert(high_word(0) == 0u32 && low_word(0) == 0u32) by (bit_vector);
        c
    }

    /// Tries the mutex `handle` until `deadline`, seen at `now`.
    pub fn try_lock_until(handle: BorrowedHandle, deadline: SystemTick, now: SystemTick) -> (r:
        SvcCall)
        ensures
            r.number == 0x24,
            r.inputs@ == seq![
                Some(handle@),
                None,
                Some(high_word(spec_timeout_until(deadline.0, now.0))),
                Some(low_word(spec_timeout_until(deadline.0, now.0))),
            ],
    {
        wait_synchronization(handle, timeout_until(deadline, now))
    }

    /// Releases the mutex `handle`.
    pub fn unlock(handle: BorrowedHandle) -> (r: SvcCall)
        ensures
            r.number == 0x14,
            r.inputs@ == seq![Some(handle@)],
    {
        release_mutex(handle)
    }

    /// Empties the mutex; the close call for its handle is given, if it had
    /// one.
    /// The value taken out of the cell is decided on by `close_call`.
    pub fn destroy(&mut self) -> (r: Option<SvcCall>)
        ensures
            r matches Some(c) ==> c.number == 0x23 && c.inputs@.len() == 1 && (c.inputs@[0] matches Some(
                raw,
            ) && raw != CLOSED_HANDLE),
    {
        close_call(self.handle.take_raw())
    }
}

/// The close call for a raw value taken out of a handle cell: none for the
/// closed value, else the close of exactly that handle.
pub fn close_call(raw: u32) -> (r: Option<SvcCall>)
    ensures
        raw == CLOSED_HANDLE <==> r is None,
        r matches Some(c) ==> c.number == 0x23 && c.inputs@ == seq![Some(raw)],
{
    if raw == CLOSED_HANDLE {
        None
    } else {
        Some(close_handle(BorrowedHandle::new(raw)))
    }
}

/// Wait and signal on a memory address's value, through one kernel arbiter.
#[derive(Debug)]
pub struct AddressArbiter {
    arbiter: OwnedHandle,
}

impl AddressArbiter {
    /// The call that creates an arbiter; its handle is then taken with
    /// `from_handle`.
    pub fn new() -> (r: SvcCall)
        ensures
            r.number == 0x21,
            r.inputs@.len() == 0,
    {
        create_address_arbiter()
    }

    pub fn from_handle(arbiter: OwnedHandle) -> (r: AddressArbiter)
        ensures
            r.handle_spec() == arbiter@,
    {
        AddressArbiter { arbiter }
    }

    pub closed spec fn handle_spec(&self) -> u32 {
        self.arbiter@
    }

    pub fn arbitrate(
        &self,
        address: u32,
        arbitration_type: ArbitrationType,
        value: i32,
        timeout: Timeout,
    ) -> (r: SvcCall)
        ensures
            r.number == 0x22,
            r.inputs@ == seq![
                Some(self.handle_spec()),
                Some(address),
                Some(arbitration_type.spec_value()),
                Some(value as u32),
                Some(low_word(timeout.0)),
                Some(high_word(timeout.0)),
            ],
    {
        arbitrate_address(self.arbiter.handle(), address, arbitration_type, value, timeout)
    }

    /// Wakes up to `num_waiters` threads waiting on `address`.
    pub fn wake_up(&self, address: u32, num_waiters: i32, timeout: Timeout) -> (r: SvcCall)
        ensures
            r.number == 0x22,
            r.inputs@ == seq![
                Some(self.handle_spec()),
                Some(address),
                Some(0u32),
                Some(num_waiters as u32),
                Some(low_word(timeout.0)),
                Some(high_word(timeout.0)),
            ],
    {
        self.arbitrate(address, ArbitrationType::Signal, num_waiters, timeout)
    }

    /// Wakes every thread waiting on `address`.
    pub fn wake_up_all(&self, address: u32, timeout: Timeout) -> (r: SvcCall)
        ensures
            r.number == 0x22,
            r.inputs@ == seq![
                Some(self.handle_spec()),
                Some(address),
                Some(0u32),
                Some(0xFFFF_FFFFu32),
                Some(low_word(timeout.0)),
                Some(high_word(timeout.0)),
            ],
    {
        assert((-1i32) as u32 == 0xFFFF_FFFFu32) by (bit_vector);
        self.arbitrate(address, ArbitrationType::Signal, -1, timeout)
    }

    /// Waits while the value at `address` is less than `value`.
    pub fn wait_if_less_than(&self, address: u32, value: i32) -> (r: SvcCall)
        ensures
            r.number == 0x22,
            r.inputs@ == seq![
                Some(self.handle_spec()),
                Some(address),
                Some(1u32),
                Some(value as u32),
                Some(0u32),
                Some(0u32),
            ],
    {
        let c = self.arbitrate(address, ArbitrationType::WaitIfLessThan, value, Timeout::none());
        assert(high_word(0) == 0u32 && low_word(0) == 0u32) by (bit_vector);
        c
    }
}

/// The error of `StickyEvent::try_wait` on a cleared event.
#[derive(Debug, Clone, Copy, PartialEq, Eq, Structural)]
pub struct StickyEventClearedError;

/// What `StickyEvent::wait` asks of its caller.
#[derive(Debug, Clone, Copy, PartialEq, Eq, Structural)]
pub enum StickyWait {
    /// The event is signaled: go on.
    Proceed,
    /// The event is cleared: wait on its state word while it is below the
    /// signaled value.
    Block,
}

/// The state word of a cleared sticky event.
pub const STICKY_CLEARED: u32 = 0;

/// The state word of a signaled sticky event.
pub const STICKY_SIGNALED: u32 = 1;

/// Whether signaling, having swapped out the state word `previous`, must
/// wake the waiters: exactly when the event was cleared before.
pub fn sticky_signal_decision(previous: u32) -> (r: bool)
    ensures
        r == (previous == STICKY_CLEARED),
{
    previous == STICKY_CLEARED
}

/// What a waiter does on seeing the state word `state`.
pub fn sticky_wait_decision(state: u32) -> (r: StickyWait)
    ensures
        state == STICKY_CLEARED ==> r == StickyWait::Block,
        state != STICKY_CLEARED ==> r == StickyWait::Proceed,
{
    if state == STICKY_CLEARED {
        StickyWait::Block
    } else {
        StickyWait::Proceed
    }
}

/// What a non-blocking wait gives on seeing the state word `state`.
pub fn sticky_try_wait_decision(state: u32) -> (r: Result<(), StickyEventClearedError>)
    ensures
        state == STICKY_CLEARED <==> r is Err,
{
    if state == STICKY_CLEARED {
        Err(StickyEventClearedError)
    } else {
        Ok(())
    }
}

/// An event that stays signaled until cleared. It is one shared state word
/// that an address arbiter waits on, so it needs no handle of its own and
/// can be shared by every thread of the process from the start.
#[derive(Debug)]
pub struct StickyEvent {
    state: AtomicU32,
}

impl StickyEvent {
    /// A cleared event.
    pub fn new() -> (r: StickyEvent) {
        StickyEvent { state: AtomicU32::new(STICKY_CLEARED) }
    }

    /// The state word, whose address the arbiter calls take.
    pub fn state(&self) -> (r: &AtomicU32) {
        &self.state
    }

    /// Signals the event: the state word becomes signaled, and the word it
    /// held is decided on by `sticky_signal_decision`: true when the event
    /// was cleared before, in which case the waiters on its state word must
    /// be woken (`wake_up_all`).
    pub fn signal(&self) -> (r: bool) {
        sticky_signal_decision(self.state.swap(STICKY_SIGNALED, Ordering::AcqRel))
    }

    pub fn clear(&self) {
        self.state.store(STICKY_CLEARED, Ordering::Release);
    }

    /// Whether to go on or to wait on the state word while it is below
    /// the signaled value (`wait_if_less_than`).
    pub fn wait(&self) -> (r: StickyWait) {
        sticky_wait_decision(self.state.load(Ordering::Acquire))
    }

    pub fn try_wait(&self) -> (r: Result<(), StickyEventClearedError>) {
        sticky_try_wait_decision(self.state.load(Ordering::Acquire))
    }
}

} // verus!
