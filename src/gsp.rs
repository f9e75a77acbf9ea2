//! The boundary of the GPU service: its requests, the interrupt queue it
//! shares with this process, and the result code that asks for hardware
//! initialisation.
use vstd::prelude::*;

use crate::handle::{BorrowedHandle, OwnedHandle};
use crate::ipc::{StaticBuffer, TYPE_HANDLE};
use crate::ipc::CommandBuffer;
use crate::reply::{reply_extent, IpcReply};
use crate::request::{IpcRequest, SyncRequest};
use crate::result::{ErrorCode, ResultCode};

verus! {

/// One of the two screens.
#[derive(Debug, Clone, Copy, PartialEq, Eq, Structural)]
pub enum Screen {
    Top,
    Bottom,
}

/// Width and height of a screen, in pixels.
#[derive(Debug, Clone, Copy, PartialEq, Eq, Structural)]
pub struct ScreenDimensions {
    pub width: u16,
    pub height: u16,
}

impl Screen {
    pub fn dimensions(&self) -> (r: ScreenDimensions)
        ensures
            *self == Screen::Top ==> r == (ScreenDimensions { width: 240, height: 400 }),
            *self == Screen::Bottom ==> r == (ScreenDimensions { width: 240, height: 320 }),
    {
        match self {
            Screen::Top => ScreenDimensions { width: 240, height: 400 },
            Screen::Bottom => ScreenDimensions { width: 240, height: 320 },
        }
    }

    /// The dimensions as the display register takes them: height in the
    /// high half, width in the low half.
    pub fn dimensions_register(&self) -> (r: u32)
        ensures
            *self == Screen::Top ==> r == 400 * 0x1_0000 + 240,
            *self == Screen::Bottom ==> r == 320 * 0x1_0000 + 240,
    {
        let d = self.dimensions();
        d.height as u32 * 0x1_0000 + d.width as u32
    }
}

/// A graphics interrupt that the GPU service relays.
#[derive(Debug, Copy, Clone, PartialEq, Eq, Structural)]
pub enum InterruptEvent {
    PSC0,
    PSC1,
    VBlank0,
    VBlank1,
    PPF,
    P3D,
    DMA,
}

impl InterruptEvent {
    /// The wire value of this variant.
    pub open spec fn spec_value(self) -> u8 {
        match self {
            InterruptEvent::PSC0 => 0,
            InterruptEvent::PSC1 => 1,
            InterruptEvent::VBlank0 => 2,
            InterruptEvent::VBlank1 => 3,
            InterruptEvent::PPF => 4,
            InterruptEvent::P3D => 5,
            InterruptEvent::DMA => 6,
        }
    }

    /// The variant whose wire value is `v`, if any.
    pub open spec fn spec_from_value(v: u8) -> Option<InterruptEvent> {
        if v == 0 {
            Some(InterruptEvent::PSC0)
        } else if v == 1 {
            Some(InterruptEvent::PSC1)
        } else if v == 2 {
            Some(InterruptEvent::VBlank0)
        } else if v == 3 {
            Some(InterruptEvent::VBlank1)
        } else if v == 4 {
            Some(InterruptEvent::PPF)
        } else if v == 5 {
            Some(InterruptEvent::P3D)
        } else if v == 6 {
            Some(InterruptEvent::DMA)
        } else {
            None
        }
    }

    pub fn to_value(&self) -> (r: u8)
        ensures
            r == self.spec_value(),
    {
        match self {
            InterruptEvent::PSC0 => 0,
            InterruptEvent::PSC1 => 1,
            InterruptEvent::VBlank0 => 2,
            InterruptEvent::VBlank1 => 3,
            InterruptEvent::PPF => 4,
            InterruptEvent::P3D => 5,
            InterruptEvent::DMA => 6,
        }
    }

    pub fn from_value(v: u8) -> (r: Option<InterruptEvent>)
        ensures
            r == InterruptEvent::spec_from_value(v),
    {
        match v {
            0 => Some(InterruptEvent::PSC0),
            1 => Some(InterruptEvent::PSC1),
            2 => Some(InterruptEvent::VBlank0),
            3 => Some(InterruptEvent::VBlank1),
            4 => Some(InterruptEvent::PPF),
            5 => Some(InterruptEvent::P3D),
            6 => Some(InterruptEvent::DMA),
            _ => None,
        }
    }
}

/// A set of interrupt events, one bit per event.
#[derive(Debug, Clone, Copy, PartialEq, Eq, Structural)]
pub struct InterruptEventSet(pub u32);

/// The bit of `event` in an event set.
pub open spec fn event_bit(event: InterruptEvent) -> u32 {
    (1u32 << event.spec_value() as u32) as u32
}

impl InterruptEventSet {
    pub fn empty() -> (r: InterruptEventSet)
        ensures
            r.0 == 0,
    {
        InterruptEventSet(0)
    }

    pub fn add(&mut self, event: InterruptEvent)
        ensures
            final(self).0 == old(self).0 | event_bit(event),
    {
        let v = event.to_value() as u32;
        assert(v < 7);
        self.0 = self.0 | (1u32 << v);
    }

    pub fn contains(&self, event: InterruptEvent) -> (r: bool)
        ensures
            r == (self.0 & event_bit(event) != 0),
    {
        let v = event.to_value() as u32;
        assert(v < 7);
        self.0 & (1u32 << v) != 0
    }
}

/// Which of a screen's two framebuffers is shown.
#[derive(Debug, Clone, Copy, PartialEq, Eq, Structural)]
pub enum FramebufferIndex {
    First,
    Second,
}

impl FramebufferIndex {
    pub open spec fn spec_value(self) -> u8 {
        match self {
            FramebufferIndex::First => 0,
            FramebufferIndex::Second => 1,
        }
    }

    pub fn to_value(&self) -> (r: u8)
        ensures
            r == self.spec_value(),
    {
        match self {
            FramebufferIndex::First => 0,
            FramebufferIndex::Second => 1,
        }
    }

    pub fn from_value(v: u8) -> (r: Option<FramebufferIndex>)
        ensures
            v == 0 ==> r == Some(FramebufferIndex::First),
            v == 1 ==> r == Some(FramebufferIndex::Second),
            v > 1 ==> r is None,
    {
        match v {
            0 => Some(FramebufferIndex::First),
            1 => Some(FramebufferIndex::Second),
            _ => None,
        }
    }

    /// The other framebuffer.
    pub fn swap(self) -> (r: FramebufferIndex)
        ensures
            r != self,
    {
        match self {
            FramebufferIndex::First => FramebufferIndex::Second,
            FramebufferIndex::Second => FramebufferIndex::First,
        }
    }
}

/// The header word of a framebuffer-info block, with its index byte set to
/// `index` and its update byte set to 1; the two high bytes are kept.
pub fn update_framebuffer_header(header: u32, index: FramebufferIndex) -> (r: u32)
    ensures
        r == (header / 0x1_0000) * 0x1_0000 + 0x100 + index.spec_value() as u32,
{
    (header / 0x1_0000) * 0x1_0000 + 0x100 + index.to_value() as u32
}

/// What presenting a framebuffer writes into the shared framebuffer-info
/// block of a screen.
#[derive(Debug)]
pub struct FramebufferUpdate {
    /// The info slot to fill: the one not in use now.
    pub slot: FramebufferIndex,
    /// The slot's seven words: active buffer, the two buffer addresses,
    /// stride, format, display select (the active buffer) and a zero.
    pub info: Vec<u32>,
}

/// The update that presents framebuffer `active_fb`, given the block's
/// header word `header`; `None` when the header's index byte names no slot.
pub fn framebuffer_update(
    header: u32,
    active_fb: FramebufferIndex,
    fb0: u32,
    fb1: u32,
    stride: u32,
    format: u32,
) -> (r: Option<FramebufferUpdate>)
    ensures
        header % 0x100 > 1 <==> r is None,
        r matches Some(u) ==> u.slot.spec_value() == 1 - header % 0x100 && u.info@ == seq![
            active_fb.spec_value() as u32,
            fb0,
            fb1,
            stride,
            format,
            active_fb.spec_value() as u32,
            0u32,
        ],
{
    match FramebufferIndex::from_value((header % 0x100) as u8) {
        None => None,
        Some(current) => {
            let active = active_fb.to_value() as u32;
            let mut info: Vec<u32> = Vec::new();
            info.push(active);
            info.push(fb0);
            info.push(fb1);
            info.push(stride);
            info.push(format);
            info.push(active);
            info.push(0);
            assert(info@ =~= seq![active, fb0, fb1, stride, format, active, 0u32]);
            Some(FramebufferUpdate { slot: current.swap(), info })
        },
    }
}

/// The last index of the interrupt ring; the index after it is 0.
pub const INTERRUPT_RING_LAST: u8 = 0x34;

/// The header word of the interrupt queue: current index, number of
/// pending events, error flag, and a byte kept as it is.
#[derive(Debug, Clone, Copy, PartialEq, Eq, Structural)]
pub struct InterruptHeader {
    pub current_index: u8,
    pub events_total: u8,
    pub error: u8,
    pub unused: u8,
}

/// The header word of a header: its bytes, lowest first.
pub open spec fn header_to_word(h: InterruptHeader) -> u32 {
    (h.current_index as int + h.events_total as int * 0x100 + h.error as int * 0x1_0000
        + h.unused as int * 0x100_0000) as u32
}

impl InterruptHeader {
    pub fn from_word(header: u32) -> (r: InterruptHeader)
        ensures
            header_to_word(r) == header,
    {
        let r = InterruptHeader {
            current_index: (header % 0x100) as u8,
            events_total: ((header / 0x100) % 0x100) as u8,
            error: ((header / 0x1_0000) % 0x100) as u8,
            unused: (header / 0x100_0000) as u8,
        };
        r
    }

    pub fn to_word(&self) -> (r: u32)
        ensures
            r == header_to_word(*self),
    {
        self.current_index as u32 + self.events_total as u32 * 0x100 + self.error as u32
            * 0x1_0000 + self.unused as u32 * 0x100_0000
    }

    /// The header after the current event is taken: the index moves on
    /// round the ring, one event fewer is pending, and the error clears.
    pub fn acknowledged(&self) -> (r: InterruptHeader)
        requires
            self.events_total > 0,
        ensures
            r.current_index == if self.current_index >= INTERRUPT_RING_LAST {
                0
            } else {
                self.current_index + 1
            },
            r.events_total == self.events_total - 1,
            r.error == 0,
            r.unused == self.unused,
    {
        InterruptHeader {
            current_index: if self.current_index >= INTERRUPT_RING_LAST {
                0
            } else {
                self.current_index + 1
            },
            events_total: self.events_total - 1,
            error: 0,
            unused: self.unused,
        }
    }

    /// The word of the event ring that holds the current event, counted
    /// from the queue's header word.
    pub fn event_word_index(&self) -> (r: usize)
        ensures
            r == 3 + self.current_index as int / 4,
    {
        3 + self.current_index as usize / 4
    }

    /// The current event, out of the ring word that holds it: events are
    /// packed four to a word, the first in the highest byte. `None` for a
    /// byte that names no event.
    pub fn event_in(&self, packed: u32) -> (r: Option<InterruptEvent>)
        ensures
            r == InterruptEvent::spec_from_value(
                ((packed / shift_of(3 - self.current_index as int % 4)) % 0x100) as u8,
            ),
    {
        let part = (self.current_index % 4) as u32;
        let shift: u32 = if part == 0 {
            0x100_0000
        } else if part == 1 {
            0x1_0000
        } else if part == 2 {
            0x100
        } else {
            1
        };
        InterruptEvent::from_value(((packed / shift) % 0x100) as u8)
    }
}

/// The weight of byte `k` of a little-endian word.
pub open spec fn shift_of(k: int) -> u32 {
    if k == 0 {
        1
    } else if k == 1 {
        0x100
    } else if k == 2 {
        0x1_0000
    } else {
        0x100_0000
    }
}

/// The description of the GPU service's "needs hardware initialisation"
/// result.
pub const NEED_HW_INIT_DESCRIPTION: u32 = 519;

/// The raw result code by which the GPU service asks for hardware
/// initialisation: level and summary success, module GSP.
pub const RESULT_NEED_HW_INIT: u32 = 0x2A07;

/// How registering the interrupt relay queue came out.
#[derive(Debug, Clone, Copy, PartialEq, Eq, Structural)]
pub enum RelayQueueOutcome {
    /// Registered; the hardware is initialised.
    Registered,
    /// Registered; the hardware must be initialised first.
    NeedsHardwareInit,
    /// The service refused.
    Failed(ErrorCode),
}

/// Sorts the result of the relay-queue registration.
pub fn relay_queue_outcome(code: ResultCode) -> (r: RelayQueueOutcome)
    ensures
        code.0 == 0 ==> r == RelayQueueOutcome::Registered,
        code.0 == RESULT_NEED_HW_INIT ==> r == RelayQueueOutcome::NeedsHardwareInit,
        code.0 != 0 && code.0 != RESULT_NEED_HW_INIT ==> (r matches RelayQueueOutcome::Failed(e)
            && e.spec_value() == code.0),
{
    match code.into_result() {
        Ok(()) => RelayQueueOutcome::Registered,
        Err(e) => {
            if e.raw() == RESULT_NEED_HW_INIT {
                RelayQueueOutcome::NeedsHardwareInit
            } else {
                RelayQueueOutcome::Failed(e)
            }
        },
    }
}

/// Reads the reply to the relay-queue registration, whatever its result:
/// the result code, the thread index (low byte of the next word), and the
/// handle of the queue's shared memory.
pub fn read_relay_queue_reply(buf: CommandBuffer) -> (r: (ResultCode, u8, OwnedHandle))
    requires
        buf.wf(),
        reply_extent(buf@[0]) >= 5,
    ensures
        r.0.0 == buf@[1],
        r.1 == (buf@[2] % 0x100) as u8,
        r.2@ == buf@[4],
{
    let mut reply = IpcReply::new(buf);
    let code: ResultCode = reply.read_result();
    let index = (reply.read_word() % 0x100) as u8;
    let mut reply = reply.finish_results();
    let handle = reply.read_handle();
    (code, index, handle)
}

/// A session with the GPU service, with access rights held.
#[derive(Debug)]
pub struct Gpu {
    service_handle: OwnedHandle,
}

impl Gpu {
    pub closed spec fn handle_spec(&self) -> u32 {
        self.service_handle@
    }

    /// A session over the `gsp::Gpu` handle.
    pub fn init(service_handle: OwnedHandle) -> (r: Gpu)
        ensures
            r.handle_spec() == service_handle@,
    {
        Gpu { service_handle }
    }

    /// Asks for access rights on behalf of `owner_process`.
    pub fn aquire_access(&self, owner_process: BorrowedHandle, flags: u8) -> (r: SyncRequest)
        ensures
            r.carries(
                self.handle_spec(),
                0x16,
                seq![flags as u32],
                seq![TYPE_HANDLE, owner_process@],
            ),
    {
        let req = IpcRequest::command(0x16).parameter(flags as u32).translate_parameter(
            owner_process,
        );
        assert(req.normal() =~= seq![flags as u32]);
        assert(req.translate() =~= seq![TYPE_HANDLE, owner_process@]);
        req.dispatch(self.service_handle.handle())
    }

    /// Registers `events` to be signaled on interrupts; read the reply with
    /// `read_relay_queue_reply`.
    pub fn register_interrupt_relay_queue(&self, events: BorrowedHandle, flags: u8) -> (r:
        SyncRequest)
        ensures
            r.carries(self.handle_spec(), 0x13, seq![flags as u32], seq![TYPE_HANDLE, events@]),
    {
        let req = IpcRequest::command(0x13).parameter(flags as u32).translate_parameter(events);
        assert(req.normal() =~= seq![flags as u32]);
        assert(req.translate() =~= seq![TYPE_HANDLE, events@]);
        req.dispatch(self.service_handle.handle())
    }

    pub fn set_lcd_force_blank(&self, flags: u8) -> (r: SyncRequest)
        ensures
            r.carries(self.handle_spec(), 0x0b, seq![flags as u32], seq![]),
    {
        IpcRequest::command(0x0b).parameter(flags as u32).dispatch(self.service_handle.handle())
    }

    /// Gives the access rights back.
    pub fn release(&self) -> (r: SyncRequest)
        ensures
            r.carries(self.handle_spec(), 0x17, seq![], seq![]),
    {
        IpcRequest::command(0x17).dispatch(self.service_handle.handle())
    }

    /// Writes the one word at `value_address` to GPU register
    /// `register_offset`.
    pub fn write_graphics_register(&self, register_offset: u32, value_address: u32) -> (r:
        SyncRequest)
        ensures
            r.carries(
                self.handle_spec(),
                0x01,
                seq![register_offset, 4u32],
                seq![(1u32 << 14u32) | 2u32, value_address],
            ),
    {
        let sb = StaticBuffer::new(value_address, 1, 0);
        let req = IpcRequest::command(0x01).parameter(register_offset).parameter(4u32).translate_parameter(sb);
        assert(((1u16 as u32) << 14u32) | ((0u8 as u32) << 10u32) | 2u32 == (1u32 << 14u32) | 2u32) by (bit_vector);
        assert(req.normal() =~= seq![register_offset, 4u32]);
        assert(req.translate() =~= seq![(1u32 << 14u32) | 2u32, value_address]);
        req.dispatch(self.service_handle.handle())
    }
}

} // verus!
