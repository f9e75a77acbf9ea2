//! Requests to the service manager: registering as a client, looking up
//! and registering services, and notifications.
use vstd::prelude::*;
use vstd::string::StringSliceAdditionalSpecFns;

use crate::handle::OwnedHandle;
use crate::ipc::ThisProcessId;
use crate::reply::IpcReply;
use crate::request::{IpcRequest, SyncRequest};

verus! {

/// Whether a service lookup waits for the service to be registered.
#[derive(Debug, Copy, Clone, PartialEq, Eq, Structural)]
pub enum BlockingPolicy {
    Blocking,
    NonBlocking,
}

impl BlockingPolicy {
    pub open spec fn spec_value(self) -> u32 {
        match self {
            BlockingPolicy::Blocking => 0,
            BlockingPolicy::NonBlocking => 1,
        }
    }

    pub fn to_value(&self) -> (r: u32)
        ensures
            r == self.spec_value(),
    {
        match self {
            BlockingPolicy::Blocking => 0,
            BlockingPolicy::NonBlocking => 1,
        }
    }
}

/// Byte `i` of a service name as sent: only the first eight bytes are
/// sent, and missing bytes are zero.
pub open spec fn name_byte(name: Seq<u8>, i: int) -> u32 {
    if i < name.len() && i < 8 {
        name[i] as u32
    } else {
        0
    }
}

/// Word `k` (0 or 1) of a service name: four bytes, little-endian.
pub open spec fn name_word(name: Seq<u8>, k: int) -> u32 {
    (name_byte(name, 4 * k) + name_byte(name, 4 * k + 1) * 0x100 + name_byte(name, 4 * k + 2)
        * 0x1_0000 + name_byte(name, 4 * k + 3) * 0x100_0000) as u32
}

/// The sent length of a service name: at most eight.
pub open spec fn name_len(name: Seq<u8>) -> u32 {
    if name.len() < 8 {
        name.len() as u32
    } else {
        8
    }
}

fn byte_at(bytes: &[u8], i: usize) -> (r: u32)
    requires
        i < 8,
    ensures
        r == name_byte(bytes@, i as int),
        r < 0x100,
{
    if i < bytes.len() {
        bytes[i] as u32
    } else {
        0
    }
}

fn word_at(bytes: &[u8], k: usize) -> (r: u32)
    requires
        k < 2,
    ensures
        r == name_word(bytes@, k as int),
{
    let b0 = byte_at(bytes, 4 * k);
    let b1 = byte_at(bytes, 4 * k + 1);
    let b2 = byte_at(bytes, 4 * k + 2);
    let b3 = byte_at(bytes, 4 * k + 3);
    b0 + b1 * 0x100 + b2 * 0x1_0000 + b3 * 0x100_0000
}

/// A service name packed into the two words and the length that requests
/// carry.
pub fn write_str_param(service_name: &str) -> (r: ((u32, u32), u32))
    ensures
        r.0.0 == name_word(service_name.spec_bytes(), 0),
        r.0.1 == name_word(service_name.spec_bytes(), 1),
        r.1 == name_len(service_name.spec_bytes()),
{
    let bytes = service_name.as_bytes();
    let n: u32 = if bytes.len() < 8 { bytes.len() as u32 } else { 8 };
    ((word_at(bytes, 0), word_at(bytes, 1)), n)
}

/// The flags word of a notification publication.
pub open spec fn spec_publish_flags(coalesce_pending: bool, ignore_overflow: bool) -> u32 {
    ((if coalesce_pending { 1u32 } else { 0u32 }) + (if ignore_overflow { 2u32 } else { 0u32 })) as u32
}

pub fn publish_flags(coalesce_pending: bool, ignore_overflow: bool) -> (r: u32)
    ensures
        r == spec_publish_flags(coalesce_pending, ignore_overflow),
{
    (if coalesce_pending { 1u32 } else { 0u32 }) + (if ignore_overflow { 2u32 } else { 0u32 })
}

/// A session with the service manager.
#[derive(Debug)]
pub struct Srv {
    handle: OwnedHandle,
    blocking_policy: BlockingPolicy,
}

impl Srv {
    pub closed spec fn handle_spec(&self) -> u32 {
        self.handle@
    }

    pub closed spec fn policy_spec(&self) -> BlockingPolicy {
        self.blocking_policy
    }

    /// A session over the port handle that connecting to `srv:` gave; it
    /// blocks on lookups until told otherwise. The session must then be
    /// registered with `register_client`.
    pub fn init(handle: OwnedHandle) -> (r: Srv)
        ensures
            r.handle_spec() == handle@,
            r.policy_spec() == BlockingPolicy::Blocking,
    {
        Srv { handle, blocking_policy: BlockingPolicy::Blocking }
    }

    pub fn blocking_policy(&self) -> (r: BlockingPolicy)
        ensures
            r == self.policy_spec(),
    {
        self.blocking_policy
    }

    pub fn set_blocking_policy(&mut self, blocking_policy: BlockingPolicy)
        ensures
            final(self).policy_spec() == blocking_policy,
            final(self).handle_spec() == old(self).handle_spec(),
    {
        self.blocking_policy = blocking_policy;
    }

    /// Registers this process as a client.
    pub fn register_client(&self) -> (r: SyncRequest)
        ensures
            r.carries(self.handle_spec(), 0x1, seq![], seq![0x20u32, 0u32]),
    {
        let req = IpcRequest::command(0x1).translate_parameter(ThisProcessId);
        assert(0x20u32 | 0u32 == 0x20u32) by (bit_vector);
        assert(req.translate() =~= seq![0x20u32, 0u32]);
        req.dispatch(self.handle.handle())
    }

    /// Asks for the notification semaphore; the reply carries its handle.
    pub fn enable_notifications(&self) -> (r: SyncRequest)
        ensures
            r.carries(self.handle_spec(), 0x2, seq![], seq![]),
    {
        IpcRequest::command(0x2).dispatch(self.handle.handle())
    }

    /// Registers a service under `service_name`.
    pub fn register_service(&self, service_name: &str, max_sessions: u32) -> (r: SyncRequest)
        ensures
            r.carries(
                self.handle_spec(),
                0x3,
                seq![
                    name_word(service_name.spec_bytes(), 0),
                    name_word(service_name.spec_bytes(), 1),
                    name_len(service_name.spec_bytes()),
                    max_sessions,
                ],
                seq![],
            ),
    {
        let ((n0, n1), len) = write_str_param(service_name);
        let req = IpcRequest::command(0x3).parameter(n0).parameter(n1).parameter(len).parameter(
            max_sessions,
        );
        assert(req.normal() =~= seq![n0, n1, len, max_sessions]);
        req.dispatch(self.handle.handle())
    }

    pub fn unregister_service(&self, service_name: &str) -> (r: SyncRequest)
        ensures
            r.carries(
                self.handle_spec(),
                0x4,
                seq![
                    name_word(service_name.spec_bytes(), 0),
                    name_word(service_name.spec_bytes(), 1),
                    name_len(service_name.spec_bytes()),
                ],
                seq![],
            ),
    {
        let ((n0, n1), len) = write_str_param(service_name);
        let req = IpcRequest::command(0x4).parameter(n0).parameter(n1).parameter(len);
        assert(req.normal() =~= seq![n0, n1, len]);
        req.dispatch(
            self.handle.handle(),
        )
    }

    /// Looks up `service_name` under the session's blocking policy; the
    /// reply carries the service's handle.
    pub fn get_service_handle(&self, service_name: &str) -> (r: SyncRequest)
        ensures
            r.carries(
                self.handle_spec(),
                0x5,
                seq![
                    name_word(service_name.spec_bytes(), 0),
                    name_word(service_name.spec_bytes(), 1),
                    name_len(service_name.spec_bytes()),
                    self.policy_spec().spec_value(),
                ],
                seq![],
            ),
    {
        let ((n0, n1), len) = write_str_param(service_name);
        let req = IpcRequest::command(0x5).parameter(n0).parameter(n1).parameter(len).parameter(
            self.blocking_policy.to_value(),
        );
        assert(req.normal() =~= seq![n0, n1, len, self.blocking_policy.spec_value()]);
        req.dispatch(self.handle.handle())
    }

    pub fn subscribe(&self, notification_id: u32) -> (r: SyncRequest)
        ensures
            r.carries(self.handle_spec(), 0x9, seq![notification_id], seq![]),
    {
        IpcRequest::command(0x9).parameter(notification_id).dispatch(self.handle.handle())
    }

    pub fn unsubscribe(&self, notification_id: u32) -> (r: SyncRequest)
        ensures
            r.carries(self.handle_spec(), 0xa, seq![notification_id], seq![]),
    {
        IpcRequest::command(0xa).parameter(notification_id).dispatch(self.handle.handle())
    }

    /// The reply's first word is the notification id.
    pub fn receive_notification(&self) -> (r: SyncRequest)
        ensures
            r.carries(self.handle_spec(), 0xb, seq![], seq![]),
    {
        IpcRequest::command(0xb).dispatch(self.handle.handle())
    }

    pub fn publish_notification(
        &self,
        notification_id: u32,
        coalesce_pending: bool,
        ignore_overflow: bool,
    ) -> (r: SyncRequest)
        ensures
            r.carries(
                self.handle_spec(),
                0xc,
                seq![notification_id, spec_publish_flags(coalesce_pending, ignore_overflow)],
                seq![],
            ),
    {
        let req = IpcRequest::command(0xc).parameter(notification_id).parameter(
            publish_flags(coalesce_pending, ignore_overflow),
        );
        assert(req.normal() =~= seq![notification_id, spec_publish_flags(coalesce_pending, ignore_overflow)]);
        req.dispatch(self.handle.handle())
    }

    /// The reply gives the number of subscribers, then their process ids.
    pub fn publish_notification_get_subscribers(
        &self,
        notification_id: u32,
        coalesce_pending: bool,
        ignore_overflow: bool,
    ) -> (r: SyncRequest)
        ensures
            r.carries(
                self.handle_spec(),
                0xd,
                seq![notification_id, spec_publish_flags(coalesce_pending, ignore_overflow)],
                seq![],
            ),
    {
        let req = IpcRequest::command(0xd).parameter(notification_id).parameter(
            publish_flags(coalesce_pending, ignore_overflow),
        );
        assert(req.normal() =~= seq![notification_id, spec_publish_flags(coalesce_pending, ignore_overflow)]);
        req.dispatch(self.handle.handle())
    }

    /// Reads the notification id from a successful reply to
    /// `receive_notification`, positioned after its result code. The reply
    /// must declare that word.
    pub fn read_notification(reply: &mut IpcReply) -> (r: u32)
        requires
            old(reply).wf(),
            !old(reply).translating(),
            old(reply).position() < old(reply).extent(),
        ensures
            final(reply).wf(),
            final(reply).words() == old(reply).words(),
            final(reply).position() == old(reply).position() + 1,
            r == old(reply).words()[old(reply).position()],
    {
        reply.read_word()
    }

    /// Reads the subscriber list from a successful reply to
    /// `publish_notification_get_subscribers`, positioned after its result
    /// code: a count `n`, then `n` process ids. The ids fill the first `n`
    /// entries of `subscribers`, which must have room for them, and the rest
    /// stay as they were; `n` is returned.
    pub fn read_subscribers(reply: &mut IpcReply, subscribers: &mut Vec<u32>) -> (r: usize)
        requires
            old(reply).wf(),
            !old(reply).translating(),
            old(reply).position() < old(reply).extent(),
            old(reply).words()[old(reply).position()] <= old(subscribers)@.len(),
            old(reply).position() + 1 + old(reply).words()[old(reply).position()]
                <= old(reply).extent(),
        ensures
            final(reply).wf(),
            final(reply).words() == old(reply).words(),
            r == old(reply).words()[old(reply).position()],
            final(reply).position() == old(reply).position() + 1 + r,
            final(subscribers)@.len() == old(subscribers)@.len(),
            final(subscribers)@.subrange(0, r as int) == old(reply).words().subrange(
                old(reply).position() + 1,
                old(reply).position() + 1 + r,
            ),
            final(subscribers)@.subrange(r as int, old(subscribers)@.len() as int) == old(
                subscribers,
            )@.subrange(r as int, old(subscribers)@.len() as int),
    {
        let n = reply.read_word() as usize;
        let ghost first = reply.position();
        let ghost words = reply.words();
        proof {
            reply.lemma_bounds();
        }
        let mut i: usize = 0;
        while i < n
            invariant
                reply.wf(),
                !reply.translating(),
                reply.words() == words,
                words == old(reply).words(),
                first == old(reply).position() + 1,
                n == words[first - 1],
                n <= subscribers@.len(),
                first + n <= reply.extent(),
                words.len() == 0x80,
                reply.extent() < 0x80,
                reply.position() == first + i,
                i <= n,
                subscribers@.len() == old(subscribers)@.len(),
                forall|k: int| 0 <= k < i ==> subscribers@[k] == words[first + k],
                forall|k: int| i <= k < subscribers@.len() ==> subscribers@[k] == old(subscribers)@[k],
            decreases n - i,
        {
            let w = reply.read_word();
            subscribers.set(i, w);
            i = i + 1;
        }
        assert(subscribers@.subrange(0, n as int) =~= words.subrange(first, first + n));
        assert(subscribers@.subrange(n as int, subscribers@.len() as int) =~= old(subscribers)@.subrange(
            n as int,
            old(subscribers)@.len() as int,
        ));
        n
    }

    /// The reply's first word is nonzero when the service is registered.
    pub fn is_service_registered(&self, service_name: &str) -> (r: SyncRequest)
        ensures
            r.carries(
                self.handle_spec(),
                0xe,
                seq![
                    name_word(service_name.spec_bytes(), 0),
                    name_word(service_name.spec_bytes(), 1),
                    name_len(service_name.spec_bytes()),
                ],
                seq![],
            ),
    {
        let ((n0, n1), len) = write_str_param(service_name);
        let req = IpcRequest::command(0xe).parameter(n0).parameter(n1).parameter(len);
        assert(req.normal() =~= seq![n0, n1, len]);
        req.dispatch(
            self.handle.handle(),
        )
    }
}

} // verus!
