//! Reading an IPC reply: the header, the result code, the normal words and
//! the translate results, never past the extent the header declares.
use vstd::prelude::*;

use crate::handle::{BorrowedHandle, OwnedHandle};
use crate::ipc::{
    borrowed_raws, decode_handle_descriptor, descriptor_handle_count, descriptor_moves,
    header_normal_words, header_translate_words, owned_raws, CommandBuffer, IpcResult, COMMAND_BUFFER_LENGTH,
};
use crate::result::{ErrorCode, ResultCode};

verus! {

/// A reply in a command buffer, read from the front.
#[derive(Debug)]
pub struct IpcReply {
    cmdbuf: CommandBuffer,
    pos: usize,
    extent: usize,
    translating: bool,
}

/// A handle group read from a reply.
#[derive(Debug)]
pub enum HandleGroup {
    /// Handles whose ownership moved to this process.
    Moved(Vec<OwnedHandle>),
    /// Duplicated handles, lent for as long as the reply buffer is valid.
    Copied(Vec<BorrowedHandle>),
}

impl HandleGroup {
    pub open spec fn moved(&self) -> bool {
        self is Moved
    }

    /// The raw handle values, in order.
    pub open spec fn raws(&self) -> Seq<u32> {
        match self {
            HandleGroup::Moved(v) => owned_raws(v@),
            HandleGroup::Copied(v) => borrowed_raws(v@),
        }
    }
}

/// The number of words, header included, that a reply with header word `h`
/// occupies.
pub open spec fn reply_extent(h: u32) -> int {
    1 + header_normal_words(h) + header_translate_words(h)
}

impl IpcReply {
    /// The whole buffer.
    pub closed spec fn words(&self) -> Seq<u32> {
        self.cmdbuf@
    }

    /// Index of the next word to read.
    pub closed spec fn position(&self) -> int {
        self.pos as int
    }

    /// Whether the normal results are done with.
    pub closed spec fn translating(&self) -> bool {
        self.translating
    }

    pub closed spec fn wf(&self) -> bool {
        &&& self.cmdbuf.wf()
        &&& self.extent == reply_extent(self.cmdbuf@[0])
        &&& 1 <= self.pos <= self.extent
        &&& self.extent < COMMAND_BUFFER_LENGTH
    }

    /// A well-formed reader lies within the buffer, and the extent the header
    /// declares ends before the buffer does.
    pub proof fn lemma_bounds(&self)
        requires
            self.wf(),
        ensures
            self.words().len() == COMMAND_BUFFER_LENGTH,
            self.extent() < COMMAND_BUFFER_LENGTH,
            1 <= self.position() <= self.extent(),
    {
    }

    /// Index one past the last word the header declares.
    pub open spec fn extent(&self) -> int {
        reply_extent(self.words()[0])
    }

    /// Starts reading the reply in `buf`, after its header.
    pub fn new(buf: CommandBuffer) -> (r: IpcReply)
        requires
            buf.wf(),
        ensures
            r.wf(),
            r.words() == buf@,
            r.position() == 1,
            !r.translating(),
    {
        let h = buf.word(0);
        let n = (h >> 6u32) & 0x3fu32;
        let t = h & 0x3fu32;
        assert(n < 64 && t < 64) by (bit_vector)
            requires
                n == (h >> 6u32) & 0x3fu32,
                t == h & 0x3fu32,
        ;
        let extent = 1 + n as usize + t as usize;
        IpcReply { cmdbuf: buf, pos: 1, extent, translating: false }
    }

    /// Takes a reply whose header announces at least one normal word, and
    /// checks the result code in word 1. On success the reply is positioned
    /// at word 2; a failure code is given as it is, and nothing more is read.
    pub fn check(buf: CommandBuffer) -> (r: Result<IpcReply, ErrorCode>)
        requires
            buf.wf(),
            header_normal_words(buf@[0]) >= 1,
        ensures
            buf@[1] == 0 <==> r is Ok,
            r matches Err(e) ==> e.spec_value() == buf@[1],
            r matches Ok(rep) ==> rep.wf() && rep.words() == buf@ && rep.position() == 2
                && !rep.translating(),
    {
        let mut reply = IpcReply::new(buf);
        let code: ResultCode = reply.read_result();
        match code.into_result() {
            Ok(()) => Ok(reply),
            Err(e) => Err(e),
        }
    }

    /// Takes a reply whose header announces at least one normal word, and
    /// reads its result code whatever it is; the reply is then positioned
    /// at word 2. The caller decides what a failure code means.
    pub fn with_result(buf: CommandBuffer) -> (r: (ResultCode, IpcReply))
        requires
            buf.wf(),
            header_normal_words(buf@[0]) >= 1,
        ensures
            r.0.0 == buf@[1],
            r.1.wf(),
            r.1.words() == buf@,
            r.1.position() == 2,
            !r.1.translating(),
    {
        let mut reply = IpcReply::new(buf);
        let code: ResultCode = reply.read_result();
        (code, reply)
    }

    /// Words left before the extent the header declares.
    pub fn remaining(&self) -> (r: usize)
        requires
            self.wf(),
        ensures
            r == self.extent() - self.position(),
    {
        self.extent - self.pos
    }

    /// The word at the current position, without reading past it; `None`
    /// at the declared extent.
    pub fn peek(&self) -> (r: Option<u32>)
        requires
            self.wf(),
        ensures
            self.position() < self.extent() ==> r == Some(self.words()[self.position()]),
            self.position() >= self.extent() ==> r is None,
    {
        if self.pos < self.extent {
            Some(self.cmdbuf.word(self.pos))
        } else {
            None
        }
    }

    /// Reads the next normal word as `R`.
    pub fn read_result<R: IpcResult>(&mut self) -> (r: R)
        requires
            old(self).wf(),
            !old(self).translating(),
            old(self).position() < old(self).extent(),
        ensures
            final(self).wf(),
            final(self).words() == old(self).words(),
            final(self).position() == old(self).position() + 1,
            !final(self).translating(),
            r == R::decoded(old(self).words()[old(self).position()]),
    {
        let w = self.read();
        R::decode(w)
    }

    /// Reads the next normal word.
    pub fn read_word(&mut self) -> (r: u32)
        requires
            old(self).wf(),
            !old(self).translating(),
            old(self).position() < old(self).extent(),
        ensures
            final(self).wf(),
            final(self).words() == old(self).words(),
            final(self).position() == old(self).position() + 1,
            !final(self).translating(),
            r == old(self).words()[old(self).position()],
    {
        self.read()
    }

    fn read(&mut self) -> (r: u32)
        requires
            old(self).wf(),
            old(self).position() < old(self).extent(),
        ensures
            final(self).wf(),
            final(self).words() == old(self).words(),
            final(self).position() == old(self).position() + 1,
            final(self).translating() == old(self).translating(),
            r == old(self).words()[old(self).position()],
    {
        let w = self.cmdbuf.word(self.pos);
        self.pos = self.pos + 1;
        w
    }

    /// Ends the normal results; translate results may be read next.
    pub fn finish_results(self) -> (r: IpcReply)
        requires
            self.wf(),
        ensures
            r.wf(),
            r.words() == self.words(),
            r.position() == self.position(),
            r.translating(),
    {
        IpcReply { translating: true, ..self }
    }

    /// Reads a handle-group descriptor and the handles it announces.
    pub fn read_handles(&mut self) -> (r: Vec<OwnedHandle>)
        requires
            old(self).wf(),
            old(self).translating(),
            old(self).position() < old(self).extent(),
            old(self).position() + 1 + descriptor_handle_count(
                old(self).words()[old(self).position()],
            ) <= old(self).extent(),
        ensures
            final(self).wf(),
            final(self).translating(),
            final(self).words() == old(self).words(),
            final(self).position() == old(self).position() + 1 + descriptor_handle_count(
                old(self).words()[old(self).position()],
            ),
            owned_raws(r@) == old(self).words().subrange(
                old(self).position() + 1,
                final(self).position(),
            ),
    {
        let d = self.read();
        let (count, _moved) = decode_handle_descriptor(d);
        let mut handles: Vec<OwnedHandle> = Vec::new();
        let mut i: u32 = 0;
        let ghost first = self.pos as int;
        assert(owned_raws(handles@) =~= self.words().subrange(first, first));
        while i < count
            invariant
                self.wf(),
                self.translating(),
                self.words() == old(self).words(),
                self.position() == first + i,
                1 <= first,
                first + count <= self.extent(),
                self.extent() < COMMAND_BUFFER_LENGTH,
                self.words().len() == COMMAND_BUFFER_LENGTH,
                i <= count,
                owned_raws(handles@) == self.words().subrange(first, first + i),
            decreases count - i,
        {
            let ghost pre = self.words().subrange(first, first + i);
            let h = self.read();
            assert(h == self.words()[first + i]);
            assert(self.words().subrange(first, first + i + 1) =~= pre.push(h));
            let ghost before = handles@;
            let oh = OwnedHandle::new(h);
            handles.push(oh);
            assert(handles@ =~= before.push(oh));
            assert(owned_raws(handles@) =~= owned_raws(before).push(h));
            assert(owned_raws(handles@) =~= self.words().subrange(first, first + i + 1));
            i = i + 1;
        }
        handles
    }

    /// Reads a handle group as its descriptor says: moved handles come back
    /// owning, duplicated ones as borrowed views that are valid only as long
    /// as the reply buffer is.
    pub fn decode(&mut self) -> (r: HandleGroup)
        requires
            old(self).wf(),
            old(self).translating(),
            old(self).position() < old(self).extent(),
            old(self).position() + 1 + descriptor_handle_count(
                old(self).words()[old(self).position()],
            ) <= old(self).extent(),
        ensures
            final(self).wf(),
            final(self).translating(),
            final(self).words() == old(self).words(),
            final(self).position() == old(self).position() + 1 + descriptor_handle_count(
                old(self).words()[old(self).position()],
            ),
            r.moved() == descriptor_moves(old(self).words()[old(self).position()]),
            r.raws() == old(self).words().subrange(
                old(self).position() + 1,
                final(self).position(),
            ),
    {
        let d = self.cmdbuf.word(self.pos);
        let (_count, moved) = decode_handle_descriptor(d);
        let owned = self.read_handles();
        if moved {
            HandleGroup::Moved(owned)
        } else {
            let mut owned = owned;
            let ghost all = owned@;
            let mut copied: Vec<BorrowedHandle> = Vec::new();
            while owned.len() > 0
                invariant
                    copied@.len() + owned@.len() == all.len(),
                    owned@ == all.skip(copied@.len() as int),
                    borrowed_raws(copied@) == owned_raws(all.take(copied@.len() as int)),
                decreases owned@.len(),
            {
                let ghost k = copied@.len() as int;
                let h = owned.remove(0);
                let b = BorrowedHandle::new(h.leak());
                copied.push(b);
                assert(all.take(k + 1) =~= all.take(k).push(all[k]));
                assert(owned_raws(all.take(k + 1)) =~= owned_raws(all.take(k)).push(all[k]@));
                assert(borrowed_raws(copied@) =~= owned_raws(all.take(k + 1)));
                assert(owned@ =~= all.skip(k + 1));
            }
            assert(all.take(all.len() as int) =~= all);
            HandleGroup::Copied(copied)
        }
    }

    /// Reads a descriptor of one moved handle and that handle.
    pub fn read_handle(&mut self) -> (r: OwnedHandle)
        requires
            old(self).wf(),
            old(self).translating(),
            old(self).position() + 2 <= old(self).extent(),
        ensures
            final(self).wf(),
            final(self).translating(),
            final(self).words() == old(self).words(),
            final(self).position() == old(self).position() + 2,
            r@ == old(self).words()[old(self).position() + 1],
    {
        let _descriptor = self.read();
        OwnedHandle::new(self.read())
    }
}

} // verus!

verus! {

/// Whether the reply in `words` keeps within what its header declares: it
/// holds a result code, and a handle group, where there is one, holds no
/// more handles than the translate words announce.
pub open spec fn reply_well_formed(words: Seq<u32>) -> bool {
    let n = header_normal_words(words[0]) as int;
    let t = header_translate_words(words[0]) as int;
    &&& n >= 1
    &&& t >= 2 ==> 1 + descriptor_handle_count(words[1 + n]) <= t
}

/// The parts of a successful reply.
#[derive(Debug)]
pub struct ParsedReply {
    /// The normal words after the result code.
    pub results: Vec<u32>,
    /// The handles of the first translate group; an empty moved group when
    /// the reply has fewer than two translate words.
    pub handles: HandleGroup,
}

/// Tests `reply_well_formed` on a buffer.
pub fn is_reply_well_formed(buf: &CommandBuffer) -> (r: bool)
    requires
        buf.wf(),
    ensures
        r == reply_well_formed(buf@),
{
    let h = buf.word(0);
    let n = (h >> 6u32) & 0x3fu32;
    let t = h & 0x3fu32;
    assert(n < 64 && t < 64) by (bit_vector)
        requires
            n == (h >> 6u32) & 0x3fu32,
            t == h & 0x3fu32,
    ;
    if n < 1 {
        return false;
    }
    if t < 2 {
        return true;
    }
    let d = buf.word(1 + n as usize);
    assert(d >> 26u32 < 64) by (bit_vector);
    1 + (d >> 26u32) + 1 <= t
}

/// Parses a reply: its result code first; on success the remaining normal
/// words, then the handle group that the first translate word describes.
/// On failure nothing past the result code is read.
pub fn parse_reply(buf: CommandBuffer) -> (r: Result<ParsedReply, ErrorCode>)
    requires
        buf.wf(),
        reply_well_formed(buf@),
    ensures
        buf@[1] == 0 <==> r is Ok,
        r matches Err(e) ==> e.spec_value() == buf@[1],
        r matches Ok(p) ==> p.results@ == buf@.subrange(2, 1 + header_normal_words(buf@[0]) as int),
        r matches Ok(p) ==> (if header_translate_words(buf@[0]) >= 2 {
            p.handles.raws() == buf@.subrange(
                2 + header_normal_words(buf@[0]) as int,
                2 + header_normal_words(buf@[0]) as int + descriptor_handle_count(
                    buf@[1 + header_normal_words(buf@[0]) as int],
                ),
            ) && p.handles.moved() == descriptor_moves(buf@[1 + header_normal_words(buf@[0]) as int])
        } else {
            p.handles.raws().len() == 0
        }),
{
    let ghost words = buf@;
    let h = buf.word(0);
    let n = (h >> 6u32) & 0x3fu32;
    let t = h & 0x3fu32;
    assert(n < 64 && t < 64) by (bit_vector)
        requires
            n == (h >> 6u32) & 0x3fu32,
            t == h & 0x3fu32,
    ;
    let mut reply = match IpcReply::check(buf) {
        Ok(reply) => reply,
        Err(e) => return Err(e),
    };
    let mut results: Vec<u32> = Vec::new();
    let mut i: u32 = 1;
    while i < n
        invariant
            reply.wf(),
            !reply.translating(),
            reply.words() == words,
            words.len() == COMMAND_BUFFER_LENGTH,
            1 <= i <= n,
            n == header_normal_words(words[0]),
            t == header_translate_words(words[0]),
            reply.position() == 1 + i,
            results@ == words.subrange(2, 1 + i as int),
        decreases n - i,
    {
        let w = reply.read_word();
        results.push(w);
        assert(results@ =~= words.subrange(2, 2 + i as int));
        i = i + 1;
    }
    let mut reply = reply.finish_results();
    let handles = if t >= 2 {
        reply.decode()
    } else {
        HandleGroup::Moved(Vec::new())
    };
    Ok(ParsedReply { results, handles })
}

} // verus!
