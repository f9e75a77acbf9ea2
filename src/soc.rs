//! Requests to the socket service, and its POSIX-style return values.
use vstd::prelude::*;

use crate::handle::{BorrowedHandle, OwnedHandle};
use crate::ipc::{IpcParameter, IpcResult, ThisProcessId};
use crate::request::{IpcRequest, SyncRequest};
use crate::result::ErrorCode;

verus! {

/// Address family of a socket.
#[derive(Debug, Copy, Clone, PartialEq, Eq, Structural)]
pub enum Domain {
    AfInet,
}

impl Domain {
    /// The wire value of this variant.
    pub open spec fn spec_value(self) -> u32 {
        match self {
            Domain::AfInet => 2,
        }
    }

    /// The variant whose wire value is `v`, if any.
    pub open spec fn spec_from_value(v: u32) -> Option<Domain> {
        if v == 2 {
            Some(Domain::AfInet)
        } else {
            None
        }
    }

    pub fn to_value(&self) -> (r: u32)
        ensures
            r == self.spec_value(),
    {
        match self {
            Domain::AfInet => 2,
        }
    }

    pub fn from_value(v: u32) -> (r: Option<Domain>)
        ensures
            r == Domain::spec_from_value(v),
    {
        match v {
            2 => Some(Domain::AfInet),
            _ => None,
        }
    }
}

/// Kind of socket.
#[derive(Debug, Copy, Clone, PartialEq, Eq, Structural)]
pub enum Type {
    Stream,
    Datagram,
}

impl Type {
    /// The wire value of this variant.
    pub open spec fn spec_value(self) -> u32 {
        match self {
            Type::Stream => 1,
            Type::Datagram => 2,
        }
    }

    /// The variant whose wire value is `v`, if any.
    pub open spec fn spec_from_value(v: u32) -> Option<Type> {
        if v == 1 {
            Some(Type::Stream)
        } else if v == 2 {
            Some(Type::Datagram)
        } else {
            None
        }
    }

    pub fn to_value(&self) -> (r: u32)
        ensures
            r == self.spec_value(),
    {
        match self {
            Type::Stream => 1,
            Type::Datagram => 2,
        }
    }

    pub fn from_value(v: u32) -> (r: Option<Type>)
        ensures
            r == Type::spec_from_value(v),
    {
        match v {
            1 => Some(Type::Stream),
            2 => Some(Type::Datagram),
            _ => None,
        }
    }
}

/// Protocol of a socket.
#[derive(Debug, Copy, Clone, PartialEq, Eq, Structural)]
pub enum Protocol {
    Default,
}

impl Protocol {
    /// The wire value of this variant.
    pub open spec fn spec_value(self) -> u32 {
        match self {
            Protocol::Default => 0,
        }
    }

    /// The variant whose wire value is `v`, if any.
    pub open spec fn spec_from_value(v: u32) -> Option<Protocol> {
        if v == 0 {
            Some(Protocol::Default)
        } else {
            None
        }
    }

    pub fn to_value(&self) -> (r: u32)
        ensures
            r == self.spec_value(),
    {
        match self {
            Protocol::Default => 0,
        }
    }

    pub fn from_value(v: u32) -> (r: Option<Protocol>)
        ensures
            r == Protocol::spec_from_value(v),
    {
        match v {
            0 => Some(Protocol::Default),
            _ => None,
        }
    }
}

/// The return word of a socket call: 0 on success, else an error number.
#[derive(Debug, Clone, Copy, PartialEq, Eq, Structural)]
pub struct PosixReturnValue(pub u32);

impl IpcResult for PosixReturnValue {
    open spec fn decoded(w: u32) -> PosixReturnValue {
        PosixReturnValue(w)
    }

    fn decode(result: u32) -> (r: PosixReturnValue) {
        PosixReturnValue(result)
    }
}

/// A failure of a socket call.
#[derive(Debug, Clone, Copy, PartialEq, Eq, Structural)]
pub enum SocketError {
    /// The request itself failed.
    SystemErr(ErrorCode),
    /// The service reported an error number.
    SocketErr(PosixReturnValue),
}

impl PosixReturnValue {
    /// `Ok` for a return word of 0, the error number otherwise.
    pub fn check(ret: u32) -> (r: Result<(), SocketError>)
        ensures
            ret == 0 <==> r is Ok,
            ret != 0 ==> r == Err::<(), SocketError>(SocketError::SocketErr(PosixReturnValue(ret))),
    {
        if ret == 0 {
            Ok(())
        } else {
            Err(SocketError::SocketErr(PosixReturnValue(ret)))
        }
    }
}

/// A nonzero error number.
#[derive(Debug, Clone, Copy, PartialEq, Eq, Structural)]
pub struct PosixErrorCode(pub u32);

/// A socket descriptor, as the service numbers it.
#[derive(Debug, Clone, Copy, PartialEq, Eq, Structural)]
pub struct SocketFd(pub u32);

impl IpcParameter for SocketFd {
    open spec fn encoded(&self) -> u32 {
        self.0
    }

    fn encode(&self) -> (r: u32) {
        self.0
    }
}

impl IpcResult for SocketFd {
    open spec fn decoded(w: u32) -> SocketFd {
        SocketFd(w)
    }

    fn decode(result: u32) -> (r: SocketFd) {
        SocketFd(result)
    }
}

/// A socket address: its family and its bytes.
#[derive(Debug, Clone, Copy)]
pub struct SocketAddress {
    pub family: u32,
    pub data: [u8; 0x1a],
}

/// The four bytes of a host id word, lowest byte first.
pub fn host_id_bytes(w: u32) -> (r: [u8; 4])
    ensures
        r@ == seq![
            (w % 0x100) as u8,
            ((w / 0x100) % 0x100) as u8,
            ((w / 0x1_0000) % 0x100) as u8,
            (w / 0x100_0000) as u8,
        ],
{
    let r = [
        (w % 0x100) as u8,
        ((w / 0x100) % 0x100) as u8,
        ((w / 0x1_0000) % 0x100) as u8,
        (w / 0x100_0000) as u8,
    ];
    assert(r@ =~= seq![
        (w % 0x100) as u8,
        ((w / 0x100) % 0x100) as u8,
        ((w / 0x1_0000) % 0x100) as u8,
        (w / 0x100_0000) as u8,
    ]);
    r
}

/// A session with the socket service, over a shared buffer that the
/// service works in.
#[derive(Debug)]
pub struct Soc {
    handle: OwnedHandle,
    buffer_size: u32,
    buffer_handle: OwnedHandle,
}

impl Soc {
    pub closed spec fn handle_spec(&self) -> u32 {
        self.handle@
    }

    pub closed spec fn buffer_size_spec(&self) -> u32 {
        self.buffer_size
    }

    pub closed spec fn buffer_handle_spec(&self) -> u32 {
        self.buffer_handle@
    }

    /// A session over the `soc:U` handle, with the memory block of
    /// `buffer_size` bytes that `buffer_handle` names.
    pub fn new(handle: OwnedHandle, buffer_size: u32, buffer_handle: OwnedHandle) -> (r: Soc)
        ensures
            r.handle_spec() == handle@,
            r.buffer_size_spec() == buffer_size,
            r.buffer_handle_spec() == buffer_handle@,
    {
        Soc { handle, buffer_size, buffer_handle }
    }

    /// Hands the buffer to the service.
    pub fn initialize(&self) -> (r: SyncRequest)
        ensures
            r.carries(
                self.handle_spec(),
                0x1,
                seq![self.buffer_size_spec()],
                seq![0x20u32, 0u32, 0u32, self.buffer_handle_spec()],
            ),
    {
        let b: BorrowedHandle = self.buffer_handle.handle();
        let req = IpcRequest::command(0x1).parameter(self.buffer_size).translate_parameter(
            ThisProcessId,
        ).translate_parameter(b);
        assert(0x20u32 | 0u32 == 0x20u32) by (bit_vector);
        assert(req.normal() =~= seq![self.buffer_size]);
        assert(req.translate() =~= seq![0x20u32, 0u32, 0u32, self.buffer_handle@]);
        req.dispatch(self.handle.handle())
    }

    /// Creates a socket; the reply's first word is its descriptor.
    pub fn socket(&self, domain: Domain, socket_type: Type, protocol: Protocol) -> (r: SyncRequest)
        ensures
            r.carries(
                self.handle_spec(),
                0x2,
                seq![domain.spec_value(), socket_type.spec_value(), protocol.spec_value()],
                seq![0x20u32, 0u32],
            ),
    {
        let req = IpcRequest::command(0x2).parameter(domain.to_value()).parameter(
            socket_type.to_value(),
        ).parameter(protocol.to_value()).translate_parameter(ThisProcessId);
        assert(0x20u32 | 0u32 == 0x20u32) by (bit_vector);
        assert(req.normal() =~= seq![
            domain.spec_value(),
            socket_type.spec_value(),
            protocol.spec_value(),
        ]);
        assert(req.translate() =~= seq![0x20u32, 0u32]);
        req.dispatch(self.handle.handle())
    }

    /// Listens on `fd`; the reply's first word is a POSIX return value.
    pub fn listen(&self, fd: &SocketFd, backlog: i32) -> (r: SyncRequest)
        ensures
            r.carries(self.handle_spec(), 0x3, seq![fd.0, backlog as u32], seq![0x20u32, 0u32]),
    {
        let req = IpcRequest::command(0x3).parameter(*fd).parameter(backlog as u32).translate_parameter(
            ThisProcessId,
        );
        assert(0x20u32 | 0u32 == 0x20u32) by (bit_vector);
        assert(req.normal() =~= seq![fd.0, backlog as u32]);
        assert(req.translate() =~= seq![0x20u32, 0u32]);
        req.dispatch(self.handle.handle())
    }

    /// Accepts a connection on `fd`; the peer address arrives in static
    /// buffer 0, of 0x1c bytes.
    pub fn accept(&self, fd: &SocketFd) -> (r: SyncRequest)
        ensures
            r.carries(self.handle_spec(), 0x4, seq![fd.0, 0x1cu32], seq![0x20u32, 0u32]),
    {
        let req = IpcRequest::command(0x4).parameter(*fd).parameter(0x1cu32).translate_parameter(
            ThisProcessId,
        );
        assert(0x20u32 | 0u32 == 0x20u32) by (bit_vector);
        assert(req.normal() =~= seq![fd.0, 0x1cu32]);
        assert(req.translate() =~= seq![0x20u32, 0u32]);
        req.dispatch(self.handle.handle())
    }

    /// The reply's first word is the host id (see `host_id_bytes`).
    pub fn gethostid(&self) -> (r: SyncRequest)
        ensures
            r.carries(self.handle_spec(), 0x16, seq![], seq![]),
    {
        IpcRequest::command(0x16).dispatch(self.handle.handle())
    }

    /// Ends the session: the shutdown request, and the buffer's memory
    /// handle and size, which are the caller's again once it succeeds.
    pub fn reclaim(self) -> (r: (SyncRequest, OwnedHandle, u32))
        ensures
            r.0.carries(self.handle_spec(), 0x19, seq![], seq![]),
            r.1@ == self.buffer_handle_spec(),
            r.2 == self.buffer_size_spec(),
    {
        let req = self.shutdown();
        (req, self.buffer_handle, self.buffer_size)
    }

    /// Asks the service to give the buffer back.
    pub fn shutdown(&self) -> (r: SyncRequest)
        ensures
            r.carries(self.handle_spec(), 0x19, seq![], seq![]),
    {
        IpcRequest::command(0x19).dispatch(self.handle.handle())
    }
}

} // verus!
