//! Thread creation parameters, and the calls that start and poll a thread.
use vstd::prelude::*;

use crate::handle::OwnedHandle;
use crate::svc::{create_thread, wait_synchronization, SvcCall, Timeout};

verus! {

/// `value` rounded up to a multiple of `alignment`, a power of two.
pub open spec fn aligned_up(value: int, alignment: int) -> int {
    ((value + alignment - 1) / alignment) * alignment
}

/// Rounds `value` up to a multiple of `alignment`.
pub fn align_to(value: usize, alignment: usize) -> (r: usize)
    requires
        alignment > 0,
        value + alignment - 1 <= usize::MAX,
    ensures
        r == aligned_up(value as int, alignment as int),
        r >= value,
        r % alignment == 0,
{
    let q = (value + (alignment - 1)) / alignment;
    let ghost v = value as int;
    let ghost a = alignment as int;
    let ghost qi = q as int;
    assert(qi == (v + a - 1) / a);
    assert(qi * a <= v + a - 1 && qi * a >= v && (qi * a) % a == 0) by (nonlinear_arith)
        requires
            qi == (v + a - 1) / a,
            a > 0,
            v >= 0,
    ;
    q * alignment
}

/// How a new thread is set up.
#[derive(Debug, Clone, Copy, PartialEq, Eq, Structural)]
pub struct ThreadBuilder {
    pub priority: i32,
    pub stack_size: usize,
    pub processor_id: i32,
}

impl Default for ThreadBuilder {
    fn default() -> (r: ThreadBuilder)
        ensures
            r == (ThreadBuilder { priority: 0x30, stack_size: 0x1000, processor_id: -2i32 }),
    {
        ThreadBuilder { priority: 0x30, stack_size: 0x1000, processor_id: -2 }
    }
}

impl ThreadBuilder {
    pub fn with_priority(self, priority: i32) -> (r: ThreadBuilder)
        ensures
            r == (ThreadBuilder { priority, ..self }),
    {
        ThreadBuilder { priority, ..self }
    }

    pub fn with_stack_size(self, stack_size: usize) -> (r: ThreadBuilder)
        ensures
            r == (ThreadBuilder { stack_size, ..self }),
    {
        ThreadBuilder { stack_size, ..self }
    }

    pub fn with_processor_id(self, processor_id: i32) -> (r: ThreadBuilder)
        ensures
            r == (ThreadBuilder { processor_id, ..self }),
    {
        ThreadBuilder { processor_id, ..self }
    }

    /// The stack size rounded up to 8 bytes, as the stack top must be
    /// aligned; `None` where that does not fit a usize.
    pub fn aligned_stack_size(&self) -> (r: Option<usize>)
        ensures
            self.stack_size + 7 <= usize::MAX ==> r == Some(
                aligned_up(self.stack_size as int, 8) as usize,
            ),
            self.stack_size + 7 > usize::MAX ==> r is None,
    {
        if self.stack_size > usize::MAX - 7 {
            None
        } else {
            Some(align_to(self.stack_size, 8))
        }
    }

    /// The call that starts a thread at `entry_point` with `argument`, on
    /// the stack whose top is `stack_top` (8-byte aligned).
    pub fn spawn(&self, entry_point: u32, argument: u32, stack_top: u32) -> (r: SvcCall)
        requires
            stack_top % 8 == 0,
        ensures
            r.number == 0x08,
            r.inputs@ == seq![
                Some(self.priority as u32),
                Some(entry_point),
                Some(argument),
                Some(stack_top),
                Some(self.processor_id as u32),
            ],
    {
        create_thread(self.priority, entry_point, argument, stack_top, self.processor_id)
    }
}

/// A started thread.
#[derive(Debug)]
pub struct JoinHandle {
    handle: OwnedHandle,
}

impl JoinHandle {
    pub closed spec fn handle_spec(&self) -> u32 {
        self.handle@
    }

    /// The thread whose handle the create-thread call gave.
    pub fn new(handle: OwnedHandle) -> (r: JoinHandle)
        ensures
            r.handle_spec() == handle@,
    {
        JoinHandle { handle }
    }

    /// Polls the thread without blocking: the wait fails while it runs.
    pub fn is_running(&self) -> (r: SvcCall)
        ensures
            r.number == 0x24,
            r.inputs@ == seq![Some(self.handle_spec()), None, Some(0u32), Some(0u32)],
    {
        let c = wait_synchronization(self.handle.handle(), Timeout::none());
        assert(crate::svc::high_word(0) == 0u32 && crate::svc::low_word(0) == 0u32) by (bit_vector);
        c
    }

    /// Waits for the thread to end.
    pub fn join(&self) -> (r: SvcCall)
        ensures
            r.number == 0x24,
            r.inputs@ == seq![
                Some(self.handle_spec()),
                None,
                Some(crate::svc::high_word(i64::MAX)),
                Some(crate::svc::low_word(i64::MAX)),
            ],
    {
        wait_synchronization(self.handle.handle(), Timeout::forever())
    }
}

} // verus!
