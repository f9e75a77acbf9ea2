//! The system-call register convention. A call is described by its number
//! and its input registers r0, r1, ... in declaration order, where a slot the
//! call does not use is left unset; its outputs come back as r0 (always the
//! result code) followed by r1, ... . Each binding here states its exact
//! register layout, including the per-call order of the two halves of a
//! 64-bit value.
use vstd::prelude::*;
use vstd::string::StringSliceAdditionalSpecFns;

use crate::handle::{BorrowedHandle, OwnedHandle};
use crate::mem::{MemoryOperation, MemoryPermission, MemoryState, QueryResult};
use crate::result::{ErrorCode, ResultCode};

verus! {

/// A relative timeout in nanoseconds.
#[derive(Debug, Clone, Copy, PartialEq, Eq, Structural)]
pub struct Timeout(pub i64);

/// Low 32 bits of a 64-bit register pair.
pub open spec fn low_word(v: i64) -> u32 {
    (v as u64) as u32
}

/// High 32 bits of a 64-bit register pair.
pub open spec fn high_word(v: i64) -> u32 {
    ((v as u64) >> 32u64) as u32
}

impl Timeout {
    pub fn from_nanoseconds(nanoseconds: i64) -> (r: Timeout)
        ensures
            r.0 == nanoseconds,
    {
        Timeout(nanoseconds)
    }

    pub fn from_seconds(seconds: i64) -> (r: Timeout)
        requires
            -9_223_372_036 <= seconds <= 9_223_372_036,
        ensures
            r.0 == seconds * 1_000_000_000,
    {
        Timeout(seconds * 1_000_000_000)
    }

    /// Blocks without end.
    pub fn forever() -> (r: Timeout)
        ensures
            r.0 == i64::MAX,
    {
        Timeout(i64::MAX)
    }

    /// Does not block: a zero timeout.
    pub fn none() -> (r: Timeout)
        ensures
            r.0 == 0,
    {
        Timeout(0)
    }

    pub fn reg_high(self) -> (r: u32)
        ensures
            r == high_word(self.0),
    {
        ((self.0 as u64) >> 32u64) as u32
    }

    pub fn reg_low(self) -> (r: u32)
        ensures
            r == low_word(self.0),
    {
        self.0 as u64 as u32
    }
}

/// A system call ready to trap: its number and its input registers from r0.
/// `None` marks a register the call leaves unset.
#[derive(Debug)]
pub struct SvcCall {
    pub number: u8,
    pub inputs: Vec<Option<u32>>,
}

fn call(number: u8, inputs: Vec<Option<u32>>) -> (r: SvcCall)
    ensures
        r.number == number,
        r.inputs@ == inputs@,
{
    SvcCall { number, inputs }
}

fn regs0() -> (r: Vec<Option<u32>>)
    ensures
        r@ == Seq::<Option<u32>>::empty(),
{
    Vec::new()
}

fn regs1(a: Option<u32>) -> (r: Vec<Option<u32>>)
    ensures
        r@ == seq![a],
{
    let mut v = Vec::new();
    v.push(a);
    assert(v@ =~= seq![a]);
    v
}

fn regs2(a: Option<u32>, b: Option<u32>) -> (r: Vec<Option<u32>>)
    ensures
        r@ == seq![a, b],
{
    let mut v = regs1(a);
    v.push(b);
    assert(v@ =~= seq![a, b]);
    v
}

fn regs3(a: Option<u32>, b: Option<u32>, c: Option<u32>) -> (r: Vec<Option<u32>>)
    ensures
        r@ == seq![a, b, c],
{
    let mut v = regs2(a, b);
    v.push(c);
    assert(v@ =~= seq![a, b, c]);
    v
}

fn regs4(a: Option<u32>, b: Option<u32>, c: Option<u32>, d: Option<u32>) -> (r: Vec<
    Option<u32>,
>)
    ensures
        r@ == seq![a, b, c, d],
{
    let mut v = regs3(a, b, c);
    v.push(d);
    assert(v@ =~= seq![a, b, c, d]);
    v
}

fn regs5(a: Option<u32>, b: Option<u32>, c: Option<u32>, d: Option<u32>, e: Option<u32>) -> (r:
    Vec<Option<u32>>)
    ensures
        r@ == seq![a, b, c, d, e],
{
    let mut v = regs4(a, b, c, d);
    v.push(e);
    assert(v@ =~= seq![a, b, c, d, e]);
    v
}

fn regs6(
    a: Option<u32>,
    b: Option<u32>,
    c: Option<u32>,
    d: Option<u32>,
    e: Option<u32>,
    f: Option<u32>,
) -> (r: Vec<Option<u32>>)
    ensures
        r@ == seq![a, b, c, d, e, f],
{
    let mut v = regs5(a, b, c, d, e);
    v.push(f);
    assert(v@ =~= seq![a, b, c, d, e, f]);
    v
}

pub fn control_memory(
    op: MemoryOperation,
    addr0: u32,
    addr1: u32,
    size: u32,
    permission: MemoryPermission,
) -> (r: SvcCall)
    ensures
        r.number == 0x01,
        r.inputs@ == seq![Some(op.0), Some(addr0), Some(addr1), Some(size), Some(permission.spec_value())],
{
    call(0x01, regs5(Some(op.0), Some(addr0), Some(addr1), Some(size), Some(permission.to_value())))
}

pub fn query_memory(addr: u32) -> (r: SvcCall)
    ensures
        r.number == 0x02,
        r.inputs@ == seq![None, None, Some(addr)],
{
    call(0x02, regs3(None, None, Some(addr)))
}

pub fn exit_process() -> (r: SvcCall)
    ensures
        r.number == 0x03,
        r.inputs@.len() == 0,
{
    call(0x03, regs0())
}

pub fn create_thread(
    priority: i32,
    entry_point: u32,
    argument: u32,
    stacktop: u32,
    processor_id: i32,
) -> (r: SvcCall)
    ensures
        r.number == 0x08,
        r.inputs@ == seq![
            Some(priority as u32),
            Some(entry_point),
            Some(argument),
            Some(stacktop),
            Some(processor_id as u32),
        ],
{
    call(
        0x08,
        regs5(
            Some(priority as u32),
            Some(entry_point),
            Some(argument),
            Some(stacktop),
            Some(processor_id as u32),
        ),
    )
}

pub fn exit_thread() -> (r: SvcCall)
    ensures
        r.number == 0x09,
        r.inputs@.len() == 0,
{
    call(0x09, regs0())
}

/// Sleep: the duration goes low half first.
pub fn sleep_thread(duration: Timeout) -> (r: SvcCall)
    ensures
        r.number == 0x0a,
        r.inputs@ == seq![Some(low_word(duration.0)), Some(high_word(duration.0))],
{
    call(0x0a, regs2(Some(duration.reg_low()), Some(duration.reg_high())))
}

pub fn get_thread_priority(handle: BorrowedHandle) -> (r: SvcCall)
    ensures
        r.number == 0x0b,
        r.inputs@ == seq![None, Some(handle@)],
{
    call(0x0b, regs2(None, Some(handle.as_raw())))
}

pub fn create_mutex(initially_locked: bool) -> (r: SvcCall)
    ensures
        r.number == 0x13,
        r.inputs@ == seq![Some(if initially_locked { 1u32 } else { 0u32 })],
{
    call(0x13, regs1(Some(if initially_locked { 1u32 } else { 0u32 })))
}

pub fn release_mutex(handle: BorrowedHandle) -> (r: SvcCall)
    ensures
        r.number == 0x14,
        r.inputs@ == seq![Some(handle@)],
{
    call(0x14, regs1(Some(handle.as_raw())))
}

pub fn create_event(reset_type: ResetType) -> (r: SvcCall)
    ensures
        r.number == 0x17,
        r.inputs@ == seq![Some(reset_type.spec_value())],
{
    call(0x17, regs1(Some(reset_type.to_value())))
}

pub fn signal_event(handle: BorrowedHandle) -> (r: SvcCall)
    ensures
        r.number == 0x18,
        r.inputs@ == seq![Some(handle@)],
{
    call(0x18, regs1(Some(handle.as_raw())))
}

pub fn clear_event(handle: BorrowedHandle) -> (r: SvcCall)
    ensures
        r.number == 0x19,
        r.inputs@ == seq![Some(handle@)],
{
    call(0x19, regs1(Some(handle.as_raw())))
}

/// Creates a shared-memory block: the other side's permissions go first.
pub fn create_memory_block(
    address: u32,
    size: u32,
    my_permissions: MemoryPermission,
    other_permissions: MemoryPermission,
) -> (r: SvcCall)
    ensures
        r.number == 0x1e,
        r.inputs@ == seq![
            Some(other_permissions.spec_value()),
            Some(address),
            Some(size),
            Some(my_permissions.spec_value()),
        ],
{
    call(
        0x1e,
        regs4(
            Some(other_permissions.to_value()),
            Some(address),
            Some(size),
            Some(my_permissions.to_value()),
        ),
    )
}

pub fn map_memory_block(
    handle: BorrowedHandle,
    address: u32,
    my_permissions: MemoryPermission,
    other_permissions: MemoryPermission,
) -> (r: SvcCall)
    ensures
        r.number == 0x1f,
        r.inputs@ == seq![
            Some(handle@),
            Some(address),
            Some(my_permissions.spec_value()),
            Some(other_permissions.spec_value()),
        ],
{
    call(
        0x1f,
        regs4(
            Some(handle.as_raw()),
            Some(address),
            Some(my_permissions.to_value()),
            Some(other_permissions.to_value()),
        ),
    )
}

pub fn unmap_memory_block(handle: BorrowedHandle, addr: u32) -> (r: SvcCall)
    ensures
        r.number == 0x20,
        r.inputs@ == seq![Some(handle@), Some(addr)],
{
    call(0x20, regs2(Some(handle.as_raw()), Some(addr)))
}

pub fn create_address_arbiter() -> (r: SvcCall)
    ensures
        r.number == 0x21,
        r.inputs@.len() == 0,
{
    call(0x21, regs0())
}

/// Address arbitration: the timeout goes low half first, after the value.
pub fn arbitrate_address(
    handle: BorrowedHandle,
    address: u32,
    arbitration_type: ArbitrationType,
    value: i32,
    timeout: Timeout,
) -> (r: SvcCall)
    ensures
        r.number == 0x22,
        r.inputs@ == seq![
            Some(handle@),
            Some(address),
            Some(arbitration_type.spec_value()),
            Some(value as u32),
            Some(low_word(timeout.0)),
            Some(high_word(timeout.0)),
        ],
{
    call(
        0x22,
        regs6(
            Some(handle.as_raw()),
            Some(address),
            Some(arbitration_type.to_value()),
            Some(value as u32),
            Some(timeout.reg_low()),
            Some(timeout.reg_high()),
        ),
    )
}

pub fn close_handle(handle: BorrowedHandle) -> (r: SvcCall)
    ensures
        r.number == 0x23,
        r.inputs@ == seq![Some(handle@)],
{
    call(0x23, regs1(Some(handle.as_raw())))
}

/// Waits on one handle: r1 is unset and the timeout goes high half first.
pub fn wait_synchronization(handle: BorrowedHandle, timeout: Timeout) -> (r: SvcCall)
    ensures
        r.number == 0x24,
        r.inputs@ == seq![
            Some(handle@),
            None,
            Some(high_word(timeout.0)),
            Some(low_word(timeout.0)),
        ],
{
    call(0x24, regs4(Some(handle.as_raw()), None, Some(timeout.reg_high()), Some(timeout.reg_low())))
}

/// Waits on several handles: the low half of the timeout comes first and its
/// high half last.
pub fn wait_synchronization_many(
    handles_address: u32,
    num_handles: u32,
    wait_all: bool,
    timeout: Timeout,
) -> (r: SvcCall)
    ensures
        r.number == 0x25,
        r.inputs@ == seq![
            Some(low_word(timeout.0)),
            Some(handles_address),
            Some(num_handles),
            Some(if wait_all { 1u32 } else { 0u32 }),
            Some(high_word(timeout.0)),
        ],
{
    call(
        0x25,
        regs5(
            Some(timeout.reg_low()),
            Some(handles_address),
            Some(num_handles),
            Some(if wait_all { 1u32 } else { 0u32 }),
            Some(timeout.reg_high()),
        ),
    )
}

pub fn duplicate_handle(handle: BorrowedHandle) -> (r: SvcCall)
    ensures
        r.number == 0x27,
        r.inputs@ == seq![None, Some(handle@)],
{
    call(0x27, regs2(None, Some(handle.as_raw())))
}

pub fn get_system_tick_count() -> (r: SvcCall)
    ensures
        r.number == 0x28,
        r.inputs@.len() == 0,
{
    call(0x28, regs0())
}

pub fn get_system_info(sysinfo_type: u32, param: i32) -> (r: SvcCall)
    ensures
        r.number == 0x2a,
        r.inputs@ == seq![None, Some(sysinfo_type), Some(param as u32)],
{
    call(0x2a, regs3(None, Some(sysinfo_type), Some(param as u32)))
}

pub fn connect_to_port(port_name_address: u32) -> (r: SvcCall)
    ensures
        r.number == 0x2d,
        r.inputs@ == seq![None, Some(port_name_address)],
{
    call(0x2d, regs2(None, Some(port_name_address)))
}

pub fn send_sync_request(handle: BorrowedHandle) -> (r: SvcCall)
    ensures
        r.number == 0x32,
        r.inputs@ == seq![Some(handle@)],
{
    call(0x32, regs1(Some(handle.as_raw())))
}

pub fn get_process_id(process_handle: BorrowedHandle) -> (r: SvcCall)
    ensures
        r.number == 0x35,
        r.inputs@ == seq![None, Some(process_handle@)],
{
    call(0x35, regs2(None, Some(process_handle.as_raw())))
}

pub fn get_resource_limit(out_address: u32, process_handle: BorrowedHandle) -> (r: SvcCall)
    ensures
        r.number == 0x38,
        r.inputs@ == seq![Some(out_address), Some(process_handle@)],
{
    call(0x38, regs2(Some(out_address), Some(process_handle.as_raw())))
}

pub fn get_resource_limit_values(
    values_address: u32,
    limits_handle: BorrowedHandle,
    limit_types_address: u32,
    count: u32,
) -> (r: SvcCall)
    ensures
        r.number == 0x39,
        r.inputs@ == seq![
            Some(values_address),
            Some(limits_handle@),
            Some(limit_types_address),
            Some(count),
        ],
{
    call(
        0x39,
        regs4(Some(values_address), Some(limits_handle.as_raw()), Some(limit_types_address), Some(count)),
    )
}

pub fn get_resource_limit_current_values(
    values_address: u32,
    limits_handle: BorrowedHandle,
    limit_types_address: u32,
    count: u32,
) -> (r: SvcCall)
    ensures
        r.number == 0x3a,
        r.inputs@ == seq![
            Some(values_address),
            Some(limits_handle@),
            Some(limit_types_address),
            Some(count),
        ],
{
    call(
        0x3a,
        regs4(Some(values_address), Some(limits_handle.as_raw()), Some(limit_types_address), Some(count)),
    )
}

pub fn user_break(reason: UserBreakReason) -> (r: SvcCall)
    ensures
        r.number == 0x3c,
        r.inputs@ == seq![Some(reason.spec_value())],
{
    call(0x3c, regs1(Some(reason.to_value())))
}

pub fn output_debug_bytes(address: u32, len: u32) -> (r: SvcCall)
    ensures
        r.number == 0x3d,
        r.inputs@ == seq![Some(address), Some(len)],
{
    call(0x3d, regs2(Some(address), Some(len)))
}

pub fn stop_point() -> (r: SvcCall)
    ensures
        r.number == 0xff,
        r.inputs@.len() == 0,
{
    call(0xff, regs0())
}

/// A value the kernel hands back in one register.
pub trait FromRegister: Sized {
    spec fn from_register_spec(reg: u32) -> Self;

    fn from_register(reg: u32) -> (r: Self)
        ensures
            r == Self::from_register_spec(reg),
    ;
}

impl FromRegister for u32 {
    open spec fn from_register_spec(reg: u32) -> u32 {
        reg
    }

    fn from_register(reg: u32) -> (r: u32) {
        reg
    }
}

impl FromRegister for i32 {
    open spec fn from_register_spec(reg: u32) -> i32 {
        reg as i32
    }

    fn from_register(reg: u32) -> (r: i32) {
        reg as i32
    }
}

impl FromRegister for usize {
    open spec fn from_register_spec(reg: u32) -> usize {
        reg as usize
    }

    fn from_register(reg: u32) -> (r: usize) {
        reg as usize
    }
}

/// A value passed to the kernel in one register.
pub trait IntoRegister: Sized {
    spec fn register_spec(&self) -> u32;

    fn into_register(self) -> (r: u32)
        ensures
            r == self.register_spec(),
    ;
}

impl IntoRegister for u32 {
    open spec fn register_spec(&self) -> u32 {
        *self
    }

    fn into_register(self) -> (r: u32) {
        self
    }
}

impl IntoRegister for i32 {
    open spec fn register_spec(&self) -> u32 {
        *self as u32
    }

    fn into_register(self) -> (r: u32) {
        self as u32
    }
}

impl IntoRegister for bool {
    open spec fn register_spec(&self) -> u32 {
        if *self {
            1
        } else {
            0
        }
    }

    fn into_register(self) -> (r: u32) {
        if self {
            1
        } else {
            0
        }
    }
}

impl IntoRegister for MemoryPermission {
    open spec fn register_spec(&self) -> u32 {
        self.spec_value()
    }

    fn into_register(self) -> (r: u32) {
        self.to_value()
    }
}

impl IntoRegister for BorrowedHandle {
    open spec fn register_spec(&self) -> u32 {
        self@
    }

    fn into_register(self) -> (r: u32) {
        self.into_raw()
    }
}

impl IntoRegister for OwnedHandle {
    /// Passing an owning handle hands its ownership to the kernel.
    open spec fn register_spec(&self) -> u32 {
        self@
    }

    fn into_register(self) -> (r: u32) {
        self.leak()
    }
}

/// Writes `message`, stored at `address`, to the debug output.
pub fn output_debug_string(address: u32, message: &str) -> (r: SvcCall)
    requires
        message.spec_bytes().len() <= u32::MAX,
    ensures
        r.number == 0x3d,
        r.inputs@ == seq![Some(address), Some(message.spec_bytes().len() as u32)],
{
    output_debug_bytes(address, message.as_bytes().len() as u32)
}

/// The outcome of a call with no outputs besides its result code.
pub fn decode_unit(outputs: &[u32]) -> (r: Result<(), ErrorCode>)
    requires
        outputs@.len() >= 1,
    ensures
        outputs@[0] == 0 <==> r is Ok,
        r matches Err(e) ==> e.spec_value() == outputs@[0],
{
    ResultCode(outputs[0]).into_result()
}

/// The word in r1 of a successful call; on failure r1 is not read.
pub fn decode_word(outputs: &[u32]) -> (r: Result<u32, ErrorCode>)
    requires
        outputs@.len() >= 2,
    ensures
        outputs@[0] == 0 <==> r is Ok,
        r matches Ok(v) ==> v == outputs@[1],
        r matches Err(e) ==> e.spec_value() == outputs@[0],
{
    match ResultCode(outputs[0]).into_result() {
        Ok(()) => Ok(outputs[1]),
        Err(e) => Err(e),
    }
}

/// The new handle in r1 of a successful call.
pub fn decode_handle(outputs: &[u32]) -> (r: Result<OwnedHandle, ErrorCode>)
    requires
        outputs@.len() >= 2,
    ensures
        outputs@[0] == 0 <==> r is Ok,
        r matches Ok(h) ==> h@ == outputs@[1],
        r matches Err(e) ==> e.spec_value() == outputs@[0],
{
    match ResultCode(outputs[0]).into_result() {
        Ok(()) => Ok(OwnedHandle::new(outputs[1])),
        Err(e) => Err(e),
    }
}

/// Which handle a wait on several handles ended on: r1 holds the address
/// of the signaled entry of the handle array at `handles_address`, or 0
/// when none is; the index is -1 then.
pub fn decode_wait_many(outputs: &[u32], handles_address: u32) -> (r: Result<i64, ErrorCode>)
    requires
        outputs@.len() >= 2,
    ensures
        outputs@[0] == 0 <==> r is Ok,
        r matches Err(e) ==> e.spec_value() == outputs@[0],
        r matches Ok(i) ==> (if outputs@[1] == 0 {
            i == -1
        } else if outputs@[1] >= handles_address {
            i == (outputs@[1] - handles_address) / 4
        } else {
            i == -((handles_address - outputs@[1]) / 4)
        }),
{
    match ResultCode(outputs[0]).into_result() {
        Ok(()) => {
            if outputs[1] == 0 {
                Ok(-1)
            } else if outputs[1] >= handles_address {
                Ok(((outputs[1] - handles_address) / 4) as i64)
            } else {
                Ok(-(((handles_address - outputs[1]) / 4) as i64))
            }
        },
        Err(e) => Err(e),
    }
}

/// The tick counter: this call has no result code, and gives the high half
/// in r0 and the low half in r1.
pub fn decode_tick_count(outputs: &[u32]) -> (r: u64)
    requires
        outputs@.len() >= 2,
    ensures
        r == outputs@[0] as u64 * 0x1_0000_0000 + outputs@[1] as u64,
{
    let high = outputs[0] as u64;
    let low = outputs[1] as u64;
    assert((high << 32u64) | low == high * 0x1_0000_0000 + low) by (bit_vector)
        requires
            high < 0x1_0000_0000,
            low < 0x1_0000_0000,
    ;
    (high << 32u64) | low
}

/// A system-information value: low half in r1, high half in r2.
pub fn decode_system_info(outputs: &[u32]) -> (r: Result<i64, ErrorCode>)
    requires
        outputs@.len() >= 3,
    ensures
        outputs@[0] == 0 <==> r is Ok,
        r matches Ok(v) ==> v == (outputs@[2] as u64 * 0x1_0000_0000 + outputs@[1] as u64) as i64,
        r matches Err(e) ==> e.spec_value() == outputs@[0],
{
    match ResultCode(outputs[0]).into_result() {
        Ok(()) => {
            let low = outputs[1] as u64;
            let high = outputs[2] as u64;
            assert((high << 32u64) | low == high * 0x1_0000_0000 + low) by (bit_vector)
                requires
                    high < 0x1_0000_0000,
                    low < 0x1_0000_0000,
            ;
            Ok(((high << 32u64) | low) as i64)
        },
        Err(e) => Err(e),
    }
}

/// The region report of a successful query-memory call: base, size,
/// permission, state and page flags in r1 to r5. `Ok(None)` when the kernel
/// reports a permission or state this library does not know.
pub fn decode_query_memory(outputs: &[u32]) -> (r: Result<Option<QueryResult>, ErrorCode>)
    requires
        outputs@.len() >= 6,
    ensures
        outputs@[0] == 0 <==> r is Ok,
        r matches Err(e) ==> e.spec_value() == outputs@[0],
        r matches Ok(q) ==> (q is Some <==> (MemoryPermission::spec_from_value(outputs@[3]) is Some
            && MemoryState::spec_from_value(outputs@[4]) is Some)),
        r matches Ok(Some(q)) ==> q.base_process_virtual_address == outputs@[1] as usize && q.size
            == outputs@[2] as usize && Some(q.permission) == MemoryPermission::spec_from_value(
            outputs@[3],
        ) && Some(q.state) == MemoryState::spec_from_value(outputs@[4]) && q.page_flags
            == outputs@[5],
{
    match ResultCode(outputs[0]).into_result() {
        Ok(()) => {
            match (MemoryPermission::from_value(outputs[3]), MemoryState::from_value(outputs[4])) {
                (Some(permission), Some(state)) => Ok(
                    Some(
                        QueryResult {
                            base_process_virtual_address: outputs[1] as usize,
                            size: outputs[2] as usize,
                            permission,
                            state,
                            page_flags: outputs[5],
                        },
                    ),
                ),
                _ => Ok(None),
            }
        },
        Err(e) => Err(e),
    }
}

/// How an event resets after it has been signaled.
#[derive(Debug, Copy, Clone, PartialEq, Eq, Structural)]
pub enum ResetType {
    OneShot,
    Sticky,
    Pulse,
}

impl ResetType {
    /// The wire value of this variant.
    pub open spec fn spec_value(self) -> u32 {
        match self {
            ResetType::OneShot => 0,
            ResetType::Sticky => 1,
            ResetType::Pulse => 2,
        }
    }

    /// The variant whose wire value is `v`, if any.
    pub open spec fn spec_from_value(v: u32) -> Option<ResetType> {
        if v == 0 {
            Some(ResetType::OneShot)
        } else if v == 1 {
            Some(ResetType::Sticky)
        } else if v == 2 {
            Some(ResetType::Pulse)
        } else {
            None
        }
    }

    pub fn to_value(&self) -> (r: u32)
        ensures
            r == self.spec_value(),
    {
        match self {
            ResetType::OneShot => 0,
            ResetType::Sticky => 1,
            ResetType::Pulse => 2,
        }
    }

    pub fn from_value(v: u32) -> (r: Option<ResetType>)
        ensures
            r == ResetType::spec_from_value(v),
    {
        match v {
            0 => Some(ResetType::OneShot),
            1 => Some(ResetType::Sticky),
            2 => Some(ResetType::Pulse),
            _ => None,
        }
    }
}

/// What an address-arbiter call does.
#[derive(Debug, Copy, Clone, PartialEq, Eq, Structural)]
pub enum ArbitrationType {
    Signal,
    WaitIfLessThan,
    DecrementAndWaitIfLessThan,
    WaitIfLessThanTimeout,
    DecrementAndWaitIfLessThanTimeout,
}

impl ArbitrationType {
    /// The wire value of this variant.
    pub open spec fn spec_value(self) -> u32 {
        match self {
            ArbitrationType::Signal => 0,
            ArbitrationType::WaitIfLessThan => 1,
            ArbitrationType::DecrementAndWaitIfLessThan => 2,
            ArbitrationType::WaitIfLessThanTimeout => 3,
            ArbitrationType::DecrementAndWaitIfLessThanTimeout => 4,
        }
    }

    /// The variant whose wire value is `v`, if any.
    pub open spec fn spec_from_value(v: u32) -> Option<ArbitrationType> {
        if v == 0 {
            Some(ArbitrationType::Signal)
        } else if v == 1 {
            Some(ArbitrationType::WaitIfLessThan)
        } else if v == 2 {
            Some(ArbitrationType::DecrementAndWaitIfLessThan)
        } else if v == 3 {
            Some(ArbitrationType::WaitIfLessThanTimeout)
        } else if v == 4 {
            Some(ArbitrationType::DecrementAndWaitIfLessThanTimeout)
        } else {
            None
        }
    }

    pub fn to_value(&self) -> (r: u32)
        ensures
            r == self.spec_value(),
    {
        match self {
            ArbitrationType::Signal => 0,
            ArbitrationType::WaitIfLessThan => 1,
            ArbitrationType::DecrementAndWaitIfLessThan => 2,
            ArbitrationType::WaitIfLessThanTimeout => 3,
            ArbitrationType::DecrementAndWaitIfLessThanTimeout => 4,
        }
    }

    pub fn from_value(v: u32) -> (r: Option<ArbitrationType>)
        ensures
            r == ArbitrationType::spec_from_value(v),
    {
        match v {
            0 => Some(ArbitrationType::Signal),
            1 => Some(ArbitrationType::WaitIfLessThan),
            2 => Some(ArbitrationType::DecrementAndWaitIfLessThan),
            3 => Some(ArbitrationType::WaitIfLessThanTimeout),
            4 => Some(ArbitrationType::DecrementAndWaitIfLessThanTimeout),
            _ => None,
        }
    }
}

/// Why a process stops itself.
#[derive(Debug, Copy, Clone, PartialEq, Eq, Structural)]
pub enum UserBreakReason {
    Panic,
    Assert,
    User,
    LoadRo,
    UnloadRo,
}

impl UserBreakReason {
    /// The wire value of this variant.
    pub open spec fn spec_value(self) -> u32 {
        match self {
            UserBreakReason::Panic => 0,
            UserBreakReason::Assert => 1,
            UserBreakReason::User => 2,
            UserBreakReason::LoadRo => 3,
            UserBreakReason::UnloadRo => 4,
        }
    }

    /// The variant whose wire value is `v`, if any.
    pub open spec fn spec_from_value(v: u32) -> Option<UserBreakReason> {
        if v == 0 {
            Some(UserBreakReason::Panic)
        } else if v == 1 {
            Some(UserBreakReason::Assert)
        } else if v == 2 {
            Some(UserBreakReason::User)
        } else if v == 3 {
            Some(UserBreakReason::LoadRo)
        } else if v == 4 {
            Some(UserBreakReason::UnloadRo)
        } else {
            None
        }
    }

    pub fn to_value(&self) -> (r: u32)
        ensures
            r == self.spec_value(),
    {
        match self {
            UserBreakReason::Panic => 0,
            UserBreakReason::Assert => 1,
            UserBreakReason::User => 2,
            UserBreakReason::LoadRo => 3,
            UserBreakReason::UnloadRo => 4,
        }
    }

    pub fn from_value(v: u32) -> (r: Option<UserBreakReason>)
        ensures
            r == UserBreakReason::spec_from_value(v),
    {
        match v {
            0 => Some(UserBreakReason::Panic),
            1 => Some(UserBreakReason::Assert),
            2 => Some(UserBreakReason::User),
            3 => Some(UserBreakReason::LoadRo),
            4 => Some(UserBreakReason::UnloadRo),
            _ => None,
        }
    }
}

/// A kind of per-process resource limit.
#[derive(Debug, Copy, Clone, PartialEq, Eq, Structural)]
pub enum LimitType {
    Priority,
    MemoryAllocatable,
    Threads,
    Events,
    Mutexes,
    Semaphores,
    Timers,
    SharedMemoryHandles,
    AddressArbiters,
    CpuTime,
}

impl LimitType {
    /// The wire value of this variant.
    pub open spec fn spec_value(self) -> u32 {
        match self {
            LimitType::Priority => 0,
            LimitType::MemoryAllocatable => 1,
            LimitType::Threads => 2,
            LimitType::Events => 3,
            LimitType::Mutexes => 4,
            LimitType::Semaphores => 5,
            LimitType::Timers => 6,
            LimitType::SharedMemoryHandles => 7,
            LimitType::AddressArbiters => 8,
            LimitType::CpuTime => 9,
        }
    }

    /// The variant whose wire value is `v`, if any.
    pub open spec fn spec_from_value(v: u32) -> Option<LimitType> {
        if v == 0 {
            Some(LimitType::Priority)
        } else if v == 1 {
            Some(LimitType::MemoryAllocatable)
        } else if v == 2 {
            Some(LimitType::Threads)
        } else if v == 3 {
            Some(LimitType::Events)
        } else if v == 4 {
            Some(LimitType::Mutexes)
        } else if v == 5 {
            Some(LimitType::Semaphores)
        } else if v == 6 {
            Some(LimitType::Timers)
        } else if v == 7 {
            Some(LimitType::SharedMemoryHandles)
        } else if v == 8 {
            Some(LimitType::AddressArbiters)
        } else if v == 9 {
            Some(LimitType::CpuTime)
        } else {
            None
        }
    }

    pub fn to_value(&self) -> (r: u32)
        ensures
            r == self.spec_value(),
    {
        match self {
            LimitType::Priority => 0,
            LimitType::MemoryAllocatable => 1,
            LimitType::Threads => 2,
            LimitType::Events => 3,
            LimitType::Mutexes => 4,
            LimitType::Semaphores => 5,
            LimitType::Timers => 6,
            LimitType::SharedMemoryHandles => 7,
            LimitType::AddressArbiters => 8,
            LimitType::CpuTime => 9,
        }
    }

    pub fn from_value(v: u32) -> (r: Option<LimitType>)
        ensures
            r == LimitType::spec_from_value(v),
    {
        match v {
            0 => Some(LimitType::Priority),
            1 => Some(LimitType::MemoryAllocatable),
            2 => Some(LimitType::Threads),
            3 => Some(LimitType::Events),
            4 => Some(LimitType::Mutexes),
            5 => Some(LimitType::Semaphores),
            6 => Some(LimitType::Timers),
            7 => Some(LimitType::SharedMemoryHandles),
            8 => Some(LimitType::AddressArbiters),
            9 => Some(LimitType::CpuTime),
            _ => None,
        }
    }
}

} // verus!
