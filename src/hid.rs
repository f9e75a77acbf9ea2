//! The human-interface-device service: its handles, and the pad state in
//! the memory it shares.
use vstd::prelude::*;

use crate::handle::OwnedHandle;
use crate::request::{IpcRequest, SyncRequest};

verus! {

/// Whether bit `i` of `bits` is set.
pub open spec fn bit_set(bits: u32, i: u32) -> bool {
    (bits >> i) & 1u32 == 1u32
}

/// The state of the buttons and the circle pad, one bit per key.
#[derive(Debug, Clone, Copy, PartialEq, Eq, Structural)]
pub struct KeyPad(pub u32);

impl KeyPad {
    pub fn new(bits: u32) -> (r: KeyPad)
        ensures
            r.0 == bits,
    {
        KeyPad(bits)
    }

    fn key(&self, index: u32) -> (r: bool)
        requires
            index < 32,
        ensures
            r == bit_set(self.0, index),
    {
        (self.0 >> index) & 1u32 == 1u32
    }

    pub fn a(&self) -> (r: bool)
        ensures
            r == bit_set(self.0, 0),
    {
        self.key(0)
    }

    pub fn b(&self) -> (r: bool)
        ensures
            r == bit_set(self.0, 1),
    {
        self.key(1)
    }

    pub fn select(&self) -> (r: bool)
        ensures
            r == bit_set(self.0, 2),
    {
        self.key(2)
    }

    pub fn start(&self) -> (r: bool)
        ensures
            r == bit_set(self.0, 3),
    {
        self.key(3)
    }

    pub fn right(&self) -> (r: bool)
        ensures
            r == bit_set(self.0, 4),
    {
        self.key(4)
    }

    pub fn left(&self) -> (r: bool)
        ensures
            r == bit_set(self.0, 5),
    {
        self.key(5)
    }

    pub fn up(&self) -> (r: bool)
        ensures
            r == bit_set(self.0, 6),
    {
        self.key(6)
    }

    pub fn down(&self) -> (r: bool)
        ensures
            r == bit_set(self.0, 7),
    {
        self.key(7)
    }

    pub fn r(&self) -> (r: bool)
        ensures
            r == bit_set(self.0, 8),
    {
        self.key(8)
    }

    pub fn l(&self) -> (r: bool)
        ensures
            r == bit_set(self.0, 9),
    {
        self.key(9)
    }

    pub fn x(&self) -> (r: bool)
        ensures
            r == bit_set(self.0, 10),
    {
        self.key(10)
    }

    pub fn y(&self) -> (r: bool)
        ensures
            r == bit_set(self.0, 11),
    {
        self.key(11)
    }

    pub fn cpad_right(&self) -> (r: bool)
        ensures
            r == bit_set(self.0, 28),
    {
        self.key(28)
    }

    pub fn cpad_left(&self) -> (r: bool)
        ensures
            r == bit_set(self.0, 29),
    {
        self.key(29)
    }

    pub fn cpad_up(&self) -> (r: bool)
        ensures
            r == bit_set(self.0, 30),
    {
        self.key(30)
    }

    pub fn cpad_down(&self) -> (r: bool)
        ensures
            r == bit_set(self.0, 31),
    {
        self.key(31)
    }
}

/// Words of the pad area of the shared memory that `last_keypad` reads.
pub const PAD_AREA_WORDS: usize = 42;

/// A session with the HID service.
#[derive(Debug)]
pub struct Hid {
    service_handle: OwnedHandle,
}

impl Hid {
    pub closed spec fn handle_spec(&self) -> u32 {
        self.service_handle@
    }

    /// A session over the handle that looking up `hid:USER` (or, failing
    /// that, `hid:SPVR`) gave.
    pub fn init(service_handle: OwnedHandle) -> (r: Hid)
        ensures
            r.handle_spec() == service_handle@,
    {
        Hid { service_handle }
    }

    /// Asks for the six handles: shared memory, two pad events,
    /// accelerometer, gyroscope and debug pad, moved in one group.
    pub fn handles(&self) -> (r: SyncRequest)
        ensures
            r.carries(self.handle_spec(), 0xa, seq![], seq![]),
    {
        IpcRequest::command(0xa).dispatch(self.service_handle.handle())
    }

    /// The latest pad state in a snapshot of the shared memory's pad area:
    /// word 4 holds the ring index (low three bits), and entry `i` of the
    /// ring starts at word `10 + 4 * i`.
    pub fn last_keypad(shared: &[u32]) -> (r: KeyPad)
        requires
            shared@.len() >= PAD_AREA_WORDS,
        ensures
            r.0 == shared@[10 + 4 * (shared@[4] % 8)],
    {
        let index = (shared[4] % 8) as usize;
        KeyPad::new(shared[10 + 4 * index])
    }
}

} // verus!
