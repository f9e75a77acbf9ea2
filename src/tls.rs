//! The layout of a thread's local storage: where the command buffer and the
//! static-buffer descriptors lie, and how a descriptor is filled.
use vstd::prelude::*;

use crate::ipc::TYPE_STATIC_BUFFER;

verus! {

/// Byte offset of the command buffer in thread-local storage.
pub const COMMAND_BUFFER_OFFSET: usize = 0x80;

/// Byte offset of the static-buffer descriptors in thread-local storage.
pub const STATIC_BUFFER_DESCRIPTORS_OFFSET: usize = 0x180;

/// Number of static-buffer descriptor slots.
pub const STATIC_BUFFER_SLOTS: usize = 16;

/// A thread's local storage, by the address it starts at.
#[derive(Debug, Clone, Copy, PartialEq, Eq, Structural)]
pub struct ThreadLocalStorage(pub usize);

impl ThreadLocalStorage {
    /// The address of the command buffer.
    pub fn command_buffer(&self) -> (r: usize)
        requires
            self.0 + COMMAND_BUFFER_OFFSET <= usize::MAX,
        ensures
            r == self.0 + COMMAND_BUFFER_OFFSET,
    {
        self.0 + COMMAND_BUFFER_OFFSET
    }

    /// The address of the static-buffer descriptors.
    pub fn static_buffer_descriptors(&self) -> (r: usize)
        requires
            self.0 + STATIC_BUFFER_DESCRIPTORS_OFFSET <= usize::MAX,
        ensures
            r == self.0 + STATIC_BUFFER_DESCRIPTORS_OFFSET,
    {
        self.0 + STATIC_BUFFER_DESCRIPTORS_OFFSET
    }
}

/// The flags word of a static-buffer descriptor for `byte_len` bytes in
/// slot `index`.
pub open spec fn descriptor_flags(index: u32, byte_len: u32) -> u32 {
    ((byte_len << 14u32) | (index << 10u32) | TYPE_STATIC_BUFFER) as u32
}

/// The sixteen descriptors, two words each: flags, then address.
#[derive(Debug)]
pub struct StaticBufferDescriptors {
    words: Vec<u32>,
}

impl View for StaticBufferDescriptors {
    type V = Seq<u32>;

    closed spec fn view(&self) -> Seq<u32> {
        self.words@
    }
}

impl StaticBufferDescriptors {
    /// Cleared descriptors.
    pub fn new() -> (r: StaticBufferDescriptors)
        ensures
            r@.len() == 2 * STATIC_BUFFER_SLOTS,
            forall|i: int| 0 <= i < 2 * STATIC_BUFFER_SLOTS ==> r@[i] == 0,
    {
        let mut words: Vec<u32> = Vec::new();
        while words.len() < 2 * STATIC_BUFFER_SLOTS
            invariant
                words@.len() <= 2 * STATIC_BUFFER_SLOTS,
                forall|i: int| 0 <= i < words@.len() ==> words@[i] == 0,
            decreases 2 * STATIC_BUFFER_SLOTS - words@.len(),
        {
            words.push(0);
        }
        StaticBufferDescriptors { words }
    }

    /// Points slot `index` (taken modulo 16) at `byte_len` bytes at
    /// `address`.
    pub fn set(&mut self, index: usize, address: u32, byte_len: u32)
        requires
            old(self)@.len() == 2 * STATIC_BUFFER_SLOTS,
        ensures
            final(self)@ == old(self)@.update(
                2 * (index % 16) as int,
                descriptor_flags((index % 16) as u32, byte_len),
            ).update(2 * (index % 16) as int + 1, address),
    {
        let slot = index % 16;
        let flags = (byte_len << 14u32) | ((slot as u32) << 10u32) | TYPE_STATIC_BUFFER;
        self.words.set(2 * slot, flags);
        self.words.set(2 * slot + 1, address);
    }

    /// The words, to be written to thread-local storage.
    pub fn words(&self) -> (r: Vec<u32>)
        ensures
            r@ == self@,
    {
        self.words.clone()
    }
}

} // verus!
