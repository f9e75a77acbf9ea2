//! The IPC command-buffer protocol: header and descriptor words, the fixed
//! 0x80-word buffer, and the bounds-checked cursor that writes it.
use vstd::prelude::*;

use crate::handle::{BorrowedHandle, OwnedHandle};
use crate::result::ResultCode;

verus! {

/// Number of 32-bit words in a thread's command buffer.
pub const COMMAND_BUFFER_LENGTH: usize = 0x80;

/// The most translate words a header can announce.
pub const MAX_TRANSLATE_WORDS: usize = 63;

/// Descriptor tag of a handle group.
pub const TYPE_HANDLE: u32 = 0;

/// Descriptor tag of a static buffer.
pub const TYPE_STATIC_BUFFER: u32 = 2;

/// Handle-group flag: ownership of the handles moves to the receiver.
pub const FLAG_MOVE_HANDLE: u32 = 0x10;

/// Handle-group flag: the kernel replaces the payload with the sender's
/// process id.
pub const FLAG_REPLACE_PID: u32 = 0x20;

/// The header word: `command_id:16 | normal_words:6 | translate_words:6`.
pub open spec fn header_word(command_id: u16, normal_words: u32, translate_words: u32) -> u32 {
    ((command_id as u32) << 16u32) | ((normal_words & 0x3fu32) << 6u32) | (translate_words
        & 0x3fu32)
}

/// The command id held by a header word.
pub open spec fn header_command_id(w: u32) -> u16 {
    (w >> 16u32) as u16
}

/// The normal-parameter word count held by a header word.
pub open spec fn header_normal_words(w: u32) -> u32 {
    (w >> 6u32) & 0x3fu32
}

/// The translate-parameter word count held by a header word.
pub open spec fn header_translate_words(w: u32) -> u32 {
    w & 0x3fu32
}

/// Encoding a header and reading its three fields back gives the fields.
pub proof fn lemma_header_round_trip(command_id: u16, normal_words: u32, translate_words: u32)
    requires
        normal_words < 64,
        translate_words < 64,
    ensures
        header_command_id(header_word(command_id, normal_words, translate_words)) == command_id,
        header_normal_words(header_word(command_id, normal_words, translate_words))
            == normal_words,
        header_translate_words(header_word(command_id, normal_words, translate_words))
            == translate_words,
{
    let id = command_id as u32;
    assert(id < 0x10000);
    assert((((id << 16u32) | ((normal_words & 0x3fu32) << 6u32) | (translate_words & 0x3fu32))
        >> 16u32) == id) by (bit_vector)
        requires
            id < 0x10000,
            normal_words < 64,
            translate_words < 64,
    ;
    assert(((((id << 16u32) | ((normal_words & 0x3fu32) << 6u32) | (translate_words & 0x3fu32))
        >> 6u32) & 0x3fu32) == normal_words) by (bit_vector)
        requires
            id < 0x10000,
            normal_words < 64,
            translate_words < 64,
    ;
    assert((((id << 16u32) | ((normal_words & 0x3fu32) << 6u32) | (translate_words & 0x3fu32))
        & 0x3fu32) == translate_words) by (bit_vector)
        requires
            id < 0x10000,
            normal_words < 64,
            translate_words < 64,
    ;
}

/// The descriptor word of a group of `count` handles.
pub open spec fn handle_descriptor(count: u32, moved: bool) -> u32 {
    (((count - 1) as u32) << 26u32) | (if moved {
        FLAG_MOVE_HANDLE
    } else {
        0u32
    }) | TYPE_HANDLE
}

/// The number of handles that a handle-group descriptor announces.
pub open spec fn descriptor_handle_count(d: u32) -> u32 {
    ((d >> 26u32) + 1) as u32
}

/// Whether a handle-group descriptor moves its handles.
pub open spec fn descriptor_moves(d: u32) -> bool {
    d & FLAG_MOVE_HANDLE != 0
}

/// Encoding a handle-group descriptor and decoding it gives back the count
/// and the move flag.
pub proof fn lemma_handle_descriptor_round_trip(count: u32, moved: bool)
    requires
        1 <= count <= 64,
    ensures
        descriptor_handle_count(handle_descriptor(count, moved)) == count,
        descriptor_moves(handle_descriptor(count, moved)) == moved,
        handle_descriptor(count, moved) & 0xfu32 == TYPE_HANDLE,
{
    let c = (count - 1) as u32;
    let f: u32 = if moved {
        0x10
    } else {
        0
    };
    assert(((c << 26u32) | f | 0u32) >> 26u32 == c) by (bit_vector)
        requires
            c < 64,
            f == 0 || f == 0x10,
    ;
    assert((((c << 26u32) | f | 0u32) & 0x10u32 != 0) == (f == 0x10)) by (bit_vector)
        requires
            c < 64,
            f == 0 || f == 0x10,
    ;
    assert(((c << 26u32) | f | 0u32) & 0xfu32 == 0) by (bit_vector)
        requires
            c < 64,
            f == 0 || f == 0x10,
    ;
}

/// Encodes the descriptor of a group of `count` handles, moved or copied.
pub fn encode_handle_descriptor(count: u32, moved: bool) -> (r: u32)
    requires
        1 <= count <= 64,
    ensures
        r == handle_descriptor(count, moved),
{
    ((count - 1) << 26u32) | (if moved {
        FLAG_MOVE_HANDLE
    } else {
        0u32
    }) | TYPE_HANDLE
}

/// Decodes a handle-group descriptor into its handle count and move flag.
pub fn decode_handle_descriptor(d: u32) -> (r: (u32, bool))
    ensures
        r.0 == descriptor_handle_count(d),
        r.1 == descriptor_moves(d),
        1 <= r.0 <= 64,
{
    assert(d >> 26u32 < 64) by (bit_vector);
    ((d >> 26u32) + 1, d & FLAG_MOVE_HANDLE != 0)
}

/// The descriptor word of a static buffer of `size` in target slot
/// `buffer_id`.
pub open spec fn static_buffer_descriptor(size: u16, buffer_id: u8) -> u32 {
    ((size as u32) << 14u32) | ((buffer_id as u32) << 10u32) | TYPE_STATIC_BUFFER
}

/// The header word of an IPC message.
#[derive(Debug, Copy, Clone, PartialEq, Eq, Structural)]
pub struct IpcHeader(pub u32);

impl IpcHeader {
    /// Encodes a header. Word counts keep their low six bits.
    pub fn new(command_id: u16, normal_param_words: usize, translate_param_words: usize) -> (r:
        IpcHeader)
        ensures
            r.0 == header_word(
                command_id,
                (normal_param_words % 64) as u32,
                (translate_param_words % 64) as u32,
            ),
    {
        let n = (normal_param_words % 64) as u32;
        let t = (translate_param_words % 64) as u32;
        IpcHeader(((command_id as u32) << 16u32) | ((n & 0x3fu32) << 6u32) | (t & 0x3fu32))
    }

    pub fn command_id(&self) -> (r: u16)
        ensures
            r == header_command_id(self.0),
    {
        (self.0 >> 16u32) as u16
    }

    pub fn normal_param_words(&self) -> (r: usize)
        ensures
            r == header_normal_words(self.0),
            r < 64,
    {
        let w = self.0;
        assert((w >> 6u32) & 0x3fu32 < 64) by (bit_vector);
        ((self.0 >> 6u32) & 0x3fu32) as usize
    }

    pub fn translate_param_words(&self) -> (r: usize)
        ensures
            r == header_translate_words(self.0),
            r < 64,
    {
        let w = self.0;
        assert(w & 0x3fu32 < 64) by (bit_vector);
        (self.0 & 0x3fu32) as usize
    }
}

/// A thread's command buffer: exactly 0x80 words.
#[derive(Debug)]
pub struct CommandBuffer {
    words: Vec<u32>,
}

impl View for CommandBuffer {
    type V = Seq<u32>;

    closed spec fn view(&self) -> Seq<u32> {
        self.words@
    }
}

impl CommandBuffer {
    /// The buffer holds exactly 0x80 words.
    pub open spec fn wf(&self) -> bool {
        self@.len() == COMMAND_BUFFER_LENGTH
    }

    /// A zeroed buffer.
    pub fn new() -> (r: CommandBuffer)
        ensures
            r.wf(),
            forall|i: int| 0 <= i < COMMAND_BUFFER_LENGTH ==> r@[i] == 0,
    {
        let mut words: Vec<u32> = Vec::new();
        while words.len() < COMMAND_BUFFER_LENGTH
            invariant
                words.len() <= COMMAND_BUFFER_LENGTH,
                forall|i: int| 0 <= i < words.len() ==> words@[i] == 0,
            decreases COMMAND_BUFFER_LENGTH - words.len(),
        {
            words.push(0);
        }
        CommandBuffer { words }
    }

    /// Takes the words the kernel left in the buffer; `None` unless there
    /// are exactly 0x80 of them.
    pub fn from_words(words: Vec<u32>) -> (r: Option<CommandBuffer>)
        ensures
            words@.len() == COMMAND_BUFFER_LENGTH <==> r is Some,
            r matches Some(b) ==> b@ == words@ && b.wf(),
    {
        if words.len() == COMMAND_BUFFER_LENGTH {
            Some(CommandBuffer { words })
        } else {
            None
        }
    }

    /// The word at `index`.
    pub fn word(&self, index: usize) -> (r: u32)
        requires
            self.wf(),
            index < COMMAND_BUFFER_LENGTH,
        ensures
            r == self@[index as int],
    {
        self.words[index]
    }

    /// Overwrites the word at `index`.
    pub fn set_word(&mut self, index: usize, value: u32)
        requires
            old(self).wf(),
            index < COMMAND_BUFFER_LENGTH,
        ensures
            final(self)@ == old(self)@.update(index as int, value),
            final(self).wf(),
    {
        self.words.set(index, value);
    }

    /// The words, to be handed to the kernel.
    pub fn into_inner(self) -> (r: Vec<u32>)
        ensures
            r@ == self@,
    {
        self.words
    }
}

/// A cursor that appends words to a command buffer from its start, and never
/// past its end.
#[derive(Debug)]
pub struct CommandBufferWriter {
    buf: CommandBuffer,
    pos: usize,
}

impl CommandBufferWriter {
    /// The words written so far, from the start of the buffer.
    pub closed spec fn written(&self) -> Seq<u32> {
        self.buf@.subrange(0, self.pos as int)
    }

    /// The whole underlying buffer.
    pub closed spec fn buffer(&self) -> Seq<u32> {
        self.buf@
    }

    pub closed spec fn wf(&self) -> bool {
        self.buf.wf() && self.pos <= COMMAND_BUFFER_LENGTH
    }

    /// A writer at the start of `buf`.
    pub fn new(buf: CommandBuffer) -> (r: CommandBufferWriter)
        requires
            buf.wf(),
        ensures
            r.wf(),
            r.written().len() == 0,
            r.buffer() == buf@,
    {
        CommandBufferWriter { buf, pos: 0 }
    }

    /// Appends one word. The buffer must have room for it: a write at word
    /// 0x80 or beyond would reach past the thread's window.
    pub fn write(&mut self, arg: u32)
        requires
            old(self).wf(),
            old(self).written().len() < COMMAND_BUFFER_LENGTH,
        ensures
            final(self).wf(),
            final(self).written() == old(self).written().push(arg),
    {
        self.buf.set_word(self.pos, arg);
        self.pos = self.pos + 1;
        assert(self.buf@.subrange(0, self.pos as int) =~= old(self).buf@.subrange(
            0,
            old(self).pos as int,
        ).push(arg));
    }

    /// Number of words written so far.
    pub fn pos(&self) -> (r: usize)
        requires
            self.wf(),
        ensures
            r == self.written().len(),
    {
        self.pos
    }

    /// Number of words that can still be written.
    pub fn remaining(&self) -> (r: usize)
        requires
            self.wf(),
        ensures
            r == COMMAND_BUFFER_LENGTH - self.written().len(),
    {
        COMMAND_BUFFER_LENGTH - self.pos
    }

    /// Gives the buffer back.
    pub fn finish(self) -> (r: CommandBuffer)
        requires
            self.wf(),
        ensures
            r.wf(),
            self.written().len() <= COMMAND_BUFFER_LENGTH,
            r@.subrange(0, self.written().len() as int) == self.written(),
    {
        self.buf
    }
}

/// A value sent as one normal parameter word.
pub trait IpcParameter {
    spec fn encoded(&self) -> u32;

    fn encode(&self) -> (r: u32)
        ensures
            r == self.encoded(),
    ;
}

impl IpcParameter for u32 {
    open spec fn encoded(&self) -> u32 {
        *self
    }

    fn encode(&self) -> (r: u32) {
        *self
    }
}

impl IpcParameter for usize {
    open spec fn encoded(&self) -> u32 {
        *self as u32
    }

    fn encode(&self) -> (r: u32) {
        *self as u32
    }
}

impl IpcParameter for ResultCode {
    open spec fn encoded(&self) -> u32 {
        self.0
    }

    fn encode(&self) -> (r: u32) {
        self.0
    }
}

/// A value read back from one normal reply word.
pub trait IpcResult: Sized {
    spec fn decoded(w: u32) -> Self;

    fn decode(result: u32) -> (r: Self)
        ensures
            r == Self::decoded(result),
    ;
}

impl IpcResult for u32 {
    open spec fn decoded(w: u32) -> u32 {
        w
    }

    fn decode(result: u32) -> (r: u32) {
        result
    }
}

impl IpcResult for ResultCode {
    open spec fn decoded(w: u32) -> ResultCode {
        ResultCode(w)
    }

    fn decode(result: u32) -> (r: ResultCode) {
        ResultCode(result)
    }
}

/// A translate parameter: a descriptor word followed by its payload.
pub trait TranslateParameter: Sized {
    /// The words this parameter occupies in the buffer.
    spec fn encoded(&self) -> Seq<u32>;

    fn encode(self, cmdbuf: &mut CommandBufferWriter)
        requires
            old(cmdbuf).wf(),
            old(cmdbuf).written().len() + self.encoded().len() <= COMMAND_BUFFER_LENGTH,
            self.encoded().len() <= MAX_TRANSLATE_WORDS,
        ensures
            final(cmdbuf).wf(),
            final(cmdbuf).written() == old(cmdbuf).written() + self.encoded(),
    ;
}

/// The raw values of a list of handles.
pub open spec fn owned_raws(handles: Seq<OwnedHandle>) -> Seq<u32> {
    handles.map_values(|h: OwnedHandle| h@)
}

/// The raw values of a list of borrowed handles.
pub open spec fn borrowed_raws(handles: Seq<BorrowedHandle>) -> Seq<u32> {
    handles.map_values(|h: BorrowedHandle| h@)
}

impl TranslateParameter for OwnedHandle {
    open spec fn encoded(&self) -> Seq<u32> {
        seq![handle_descriptor(1, true), self@]
    }

    fn encode(self, cmdbuf: &mut CommandBufferWriter) {
        let d: u32 = FLAG_MOVE_HANDLE | TYPE_HANDLE;
        assert(d == handle_descriptor(1, true)) by (bit_vector)
            requires
                d == 0x10u32 | 0u32,
        ;
        cmdbuf.write(d);
        cmdbuf.write(self.leak());
        assert(cmdbuf.written() =~= old(cmdbuf).written() + self.encoded());
    }
}

impl TranslateParameter for BorrowedHandle {
    open spec fn encoded(&self) -> Seq<u32> {
        seq![TYPE_HANDLE, self@]
    }

    fn encode(self, cmdbuf: &mut CommandBufferWriter) {
        cmdbuf.write(TYPE_HANDLE);
        cmdbuf.write(self.as_raw());
        assert(cmdbuf.written() =~= old(cmdbuf).written() + self.encoded());
    }
}

/// Writes the raw values of `handles` after a descriptor.
fn write_owned_handles(cmdbuf: &mut CommandBufferWriter, handles: Vec<OwnedHandle>)
    requires
        old(cmdbuf).wf(),
        old(cmdbuf).written().len() + handles@.len() <= COMMAND_BUFFER_LENGTH,
    ensures
        final(cmdbuf).wf(),
        final(cmdbuf).written() == old(cmdbuf).written() + owned_raws(handles@),
{
    let mut handles = handles;
    let ghost all = handles@;
    let ghost start = cmdbuf.written();
    let mut i: usize = 0;
    while handles.len() > 0
        invariant
            cmdbuf.wf(),
            i + handles@.len() == all.len(),
            start.len() + all.len() <= COMMAND_BUFFER_LENGTH,
            cmdbuf.written() == start + owned_raws(all.take(i as int)),
            handles@ == all.skip(i as int),
        decreases handles@.len(),
    {
        let h = handles.remove(0);
        assert(h == all[i as int]);
        cmdbuf.write(h.leak());
        assert(all.take(i + 1) =~= all.take(i as int).push(all[i as int]));
        assert(owned_raws(all.take(i + 1)) =~= owned_raws(all.take(i as int)).push(all[i as int]@));
        assert(handles@ =~= all.skip(i + 1));
        i = i + 1;
    }
    assert(all.take(i as int) =~= all);
}

impl TranslateParameter for Vec<OwnedHandle> {
    open spec fn encoded(&self) -> Seq<u32> {
        if self@.len() == 0 {
            Seq::empty()
        } else {
            seq![handle_descriptor(self@.len() as u32, true)] + owned_raws(self@)
        }
    }

    fn encode(self, cmdbuf: &mut CommandBufferWriter) {
        let n = self.len();
        if n == 0 {
            assert(cmdbuf.written() =~= old(cmdbuf).written() + self.encoded());
            return;
        }
        let d = encode_handle_descriptor(n as u32, true);
        cmdbuf.write(d);
        let ghost hs = self@;
        write_owned_handles(cmdbuf, self);
        assert(cmdbuf.written() =~= old(cmdbuf).written() + (seq![
            handle_descriptor(hs.len() as u32, true),
        ] + owned_raws(hs)));
    }
}

impl TranslateParameter for Vec<BorrowedHandle> {
    open spec fn encoded(&self) -> Seq<u32> {
        if self@.len() == 0 {
            Seq::empty()
        } else {
            seq![handle_descriptor(self@.len() as u32, false)] + borrowed_raws(self@)
        }
    }

    fn encode(self, cmdbuf: &mut CommandBufferWriter) {
        let n = self.len();
        if n == 0 {
            assert(cmdbuf.written() =~= old(cmdbuf).written() + self.encoded());
            return;
        }
        let d = encode_handle_descriptor(n as u32, false);
        cmdbuf.write(d);
        let ghost start = cmdbuf.written();
        let mut i: usize = 0;
        while i < n
            invariant
                cmdbuf.wf(),
                n == self@.len(),
                i <= n,
                start.len() + n <= COMMAND_BUFFER_LENGTH,
                cmdbuf.written() == start + borrowed_raws(self@.take(i as int)),
            decreases n - i,
        {
            cmdbuf.write(self[i].as_raw());
            assert(self@.take(i + 1) =~= self@.take(i as int).push(self@[i as int]));
            assert(borrowed_raws(self@.take(i + 1)) =~= borrowed_raws(self@.take(i as int)).push(
                self@[i as int]@,
            ));
            i = i + 1;
        }
        assert(self@.take(n as int) =~= self@);
        assert(cmdbuf.written() =~= old(cmdbuf).written() + self.encoded());
    }
}

/// Asks the kernel to put the sender's process id into the message.
#[derive(Debug, Copy, Clone)]
pub struct ThisProcessId;

impl TranslateParameter for ThisProcessId {
    open spec fn encoded(&self) -> Seq<u32> {
        seq![FLAG_REPLACE_PID | TYPE_HANDLE, 0u32]
    }

    fn encode(self, cmdbuf: &mut CommandBufferWriter) {
        cmdbuf.write(FLAG_REPLACE_PID | TYPE_HANDLE);
        cmdbuf.write(0);
        assert(cmdbuf.written() =~= old(cmdbuf).written() + self.encoded());
    }
}

/// A buffer that the kernel copies into the receiver's static-buffer slot
/// `target_id`.
#[derive(Debug, Copy, Clone)]
pub struct StaticBuffer {
    address: u32,
    size: u16,
    target_id: u8,
}

impl StaticBuffer {
    /// The buffer at `address` of `size`, for slot `target_id` (one of 16).
    pub fn new(address: u32, size: u16, target_id: u8) -> (r: StaticBuffer)
        requires
            target_id < 16,
        ensures
            r.address_spec() == address,
            r.size_spec() == size,
            r.target_spec() == target_id,
    {
        StaticBuffer { address, size, target_id }
    }

    pub closed spec fn address_spec(&self) -> u32 {
        self.address
    }

    pub closed spec fn size_spec(&self) -> u16 {
        self.size
    }

    pub closed spec fn target_spec(&self) -> u8 {
        self.target_id
    }

    /// The descriptor word of this buffer.
    pub fn descriptor(&self) -> (r: u32)
        ensures
            r == static_buffer_descriptor(self.size_spec(), self.target_spec()),
    {
        ((self.size as u32) << 14u32) | ((self.target_id as u32) << 10u32) | TYPE_STATIC_BUFFER
    }
}

impl TranslateParameter for StaticBuffer {
    open spec fn encoded(&self) -> Seq<u32> {
        seq![static_buffer_descriptor(self.size_spec(), self.target_spec()), self.address_spec()]
    }

    fn encode(self, cmdbuf: &mut CommandBufferWriter) {
        let d = self.descriptor();
        cmdbuf.write(d);
        cmdbuf.write(self.address);
        assert(cmdbuf.written() =~= old(cmdbuf).written() + self.encoded());
    }
}

} // verus!
