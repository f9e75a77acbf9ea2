//! Building an IPC request: normal parameters, then translate parameters,
//! then the header written last into word 0.
use vstd::prelude::*;

use crate::handle::BorrowedHandle;
use crate::ipc::{
    header_word, CommandBuffer, CommandBufferWriter, IpcHeader, IpcParameter, TranslateParameter,
    COMMAND_BUFFER_LENGTH,
};

verus! {

/// The most words a header can announce for either kind of parameter.
pub const MAX_PARAM_WORDS: usize = 63;

/// A request under construction in a command buffer.
#[derive(Debug)]
pub struct IpcRequest {
    cmdbuf: CommandBufferWriter,
    param_words: usize,
    translate_param_words: usize,
    id: u16,
    translating: bool,
}

/// A finished request: the buffer to hand to the kernel's send-sync-request
/// call, and the handle of the service that receives it.
#[derive(Debug)]
pub struct SyncRequest {
    pub receiver: BorrowedHandle,
    pub buffer: CommandBuffer,
}

impl SyncRequest {
    /// The request goes to `receiver` and holds command `id` with these
    /// normal and translate words after its header.
    pub open spec fn carries(
        &self,
        receiver: u32,
        id: u16,
        normal: Seq<u32>,
        translate: Seq<u32>,
    ) -> bool {
        &&& self.receiver@ == receiver
        &&& self.buffer.wf()
        &&& normal.len() <= MAX_PARAM_WORDS
        &&& translate.len() <= MAX_PARAM_WORDS
        &&& self.buffer@[0] == header_word(id, normal.len() as u32, translate.len() as u32)
        &&& self.buffer@.subrange(1, 1 + normal.len() + translate.len() as int) == normal
            + translate
    }
}

impl IpcRequest {
    /// The command id.
    pub closed spec fn command_spec(&self) -> u16 {
        self.id
    }

    /// The normal parameter words written so far.
    pub closed spec fn normal(&self) -> Seq<u32> {
        self.cmdbuf.written().subrange(1, 1 + self.param_words as int)
    }

    /// The translate parameter words written so far.
    pub closed spec fn translate(&self) -> Seq<u32> {
        self.cmdbuf.written().subrange(1 + self.param_words as int, self.cmdbuf.written().len() as int)
    }

    /// Whether a translate parameter has been written; no normal parameter
    /// may follow one.
    pub closed spec fn translating(&self) -> bool {
        self.translating
    }

    pub closed spec fn wf(&self) -> bool {
        &&& self.cmdbuf.wf()
        &&& self.cmdbuf.written().len() == 1 + self.param_words + self.translate_param_words
        &&& !self.translating ==> self.translate_param_words == 0
        &&& self.param_words <= MAX_PARAM_WORDS
        &&& self.translate_param_words <= MAX_PARAM_WORDS
    }

    /// Number of normal words that may still be appended.
    pub open spec fn normal_room(&self) -> int {
        MAX_PARAM_WORDS - self.normal().len()
    }

    /// Number of translate words that may still be appended.
    pub open spec fn translate_room(&self) -> int {
        MAX_PARAM_WORDS - self.translate().len()
    }

    /// Starts request `id` in a fresh buffer; word 0 is kept for the header.
    pub fn command(id: u16) -> (r: IpcRequest)
        ensures
            r.wf(),
            r.command_spec() == id,
            r.normal() =~= Seq::<u32>::empty(),
            r.translate() =~= Seq::<u32>::empty(),
            !r.translating(),
    {
        let mut cmdbuf = CommandBufferWriter::new(CommandBuffer::new());
        cmdbuf.write(0);
        IpcRequest { cmdbuf, param_words: 0, translate_param_words: 0, id, translating: false }
    }

    /// Appends one normal parameter.
    pub fn parameter<P: IpcParameter>(self, parameter: P) -> (r: IpcRequest)
        requires
            self.wf(),
            !self.translating(),
            self.normal_room() >= 1,
        ensures
            r.wf(),
            r.command_spec() == self.command_spec(),
            r.normal() == self.normal().push(parameter.encoded()),
            r.translate().len() == 0,
            !r.translating(),
    {
        let mut s = self;
        let w = parameter.encode();
        s.cmdbuf.write(w);
        s.param_words = s.param_words + 1;
        assert(s.normal() =~= self.normal().push(w));
        s
    }

    /// Appends normal parameters, in order.
    pub fn parameters<P: IpcParameter>(self, parameters: &[P]) -> (r: IpcRequest)
        requires
            self.wf(),
            !self.translating(),
            self.normal_room() >= parameters@.len(),
        ensures
            r.wf(),
            r.command_spec() == self.command_spec(),
            r.normal() == self.normal() + parameters@.map_values(|p: P| p.encoded()),
            r.translate().len() == 0,
            !r.translating(),
    {
        let mut s = self;
        let mut i: usize = 0;
        while i < parameters.len()
            invariant
                s.wf(),
                !s.translating(),
                i <= parameters@.len(),
                s.normal_room() == self.normal_room() - i,
                self.normal_room() >= parameters@.len(),
                s.command_spec() == self.command_spec(),
                s.normal() == self.normal() + parameters@.take(i as int).map_values(
                    |p: P| p.encoded(),
                ),
            decreases parameters@.len() - i,
        {
            s = s.parameter(parameters[i].encode());
            assert(parameters@.take(i + 1) =~= parameters@.take(i as int).push(parameters@[i as int]));
            assert(parameters@.take(i + 1).map_values(|p: P| p.encoded()) =~= parameters@.take(
                i as int,
            ).map_values(|p: P| p.encoded()).push(parameters@[i as int].encoded()));
            i = i + 1;
        }
        assert(parameters@.take(i as int) =~= parameters@);
        s
    }

    /// Appends a translate parameter: its descriptor and payload.
    pub fn translate_parameter<P: TranslateParameter>(self, parameter: P) -> (r: IpcRequest)
        requires
            self.wf(),
            self.translate_room() >= parameter.encoded().len(),
        ensures
            r.wf(),
            r.command_spec() == self.command_spec(),
            r.normal() == self.normal(),
            r.translate() == self.translate() + parameter.encoded(),
            r.translating(),
    {
        let mut s = self;
        let before = s.cmdbuf.pos();
        parameter.encode(&mut s.cmdbuf);
        let after = s.cmdbuf.pos();
        s.translate_param_words = s.translate_param_words + (after - before);
        s.translating = true;
        assert(s.normal() =~= self.normal());
        assert(s.translate() =~= self.translate() + parameter.encoded());
        s
    }

    /// Writes the header into word 0 and gives the finished buffer.
    pub fn finish(self) -> (r: CommandBuffer)
        requires
            self.wf(),
        ensures
            r.wf(),
            r@[0] == header_word(
                self.command_spec(),
                self.normal().len() as u32,
                self.translate().len() as u32,
            ),
            r@.subrange(1, 1 + self.normal().len() + self.translate().len() as int) == self.normal()
                + self.translate(),
    {
        let header = IpcHeader::new(self.id, self.param_words, self.translate_param_words);
        let ghost written = self.cmdbuf.written();
        let mut buf = self.cmdbuf.finish();
        buf.set_word(0, header.0);
        assert(buf@.subrange(1, written.len() as int) =~= written.subrange(1, written.len() as int));
        assert(self.normal() + self.translate() =~= written.subrange(1, written.len() as int));
        buf
    }

    /// Finishes the request for sending to `receiver`.
    pub fn dispatch(self, receiver: BorrowedHandle) -> (r: SyncRequest)
        requires
            self.wf(),
        ensures
            r.carries(receiver@, self.command_spec(), self.normal(), self.translate()),
            r.receiver == receiver,
            r.buffer.wf(),
            r.buffer@[0] == header_word(
                self.command_spec(),
                self.normal().len() as u32,
                self.translate().len() as u32,
            ),
            r.buffer@.subrange(1, 1 + self.normal().len() + self.translate().len() as int)
                == self.normal() + self.translate(),
    {
        SyncRequest { receiver, buffer: self.finish() }
    }
}

} // verus!
