//! Fatal error reports to the error port: the report's wire layout and the
//! request that sends it.
use vstd::prelude::*;
use vstd::string::StringSliceAdditionalSpecFns;

use crate::handle::OwnedHandle;
use crate::ipc::IpcParameter;
use crate::request::{IpcRequest, SyncRequest};
use crate::result::ResultCode;

verus! {

/// The kind of a fatal error report.
#[derive(Debug, Copy, Clone, PartialEq, Eq, Structural)]
pub enum ErrorType {
    Generic,
    SystemMemoryDamaged,
    CardRemoved,
    Exception,
    Failure,
    Logged,
}

impl ErrorType {
    /// The wire value of this variant.
    pub open spec fn spec_value(self) -> u8 {
        match self {
            ErrorType::Generic => 0,
            ErrorType::SystemMemoryDamaged => 1,
            ErrorType::CardRemoved => 2,
            ErrorType::Exception => 3,
            ErrorType::Failure => 4,
            ErrorType::Logged => 5,
        }
    }

    /// The variant whose wire value is `v`, if any.
    pub open spec fn spec_from_value(v: u8) -> Option<ErrorType> {
        if v == 0 {
            Some(ErrorType::Generic)
        } else if v == 1 {
            Some(ErrorType::SystemMemoryDamaged)
        } else if v == 2 {
            Some(ErrorType::CardRemoved)
        } else if v == 3 {
            Some(ErrorType::Exception)
        } else if v == 4 {
            Some(ErrorType::Failure)
        } else if v == 5 {
            Some(ErrorType::Logged)
        } else {
            None
        }
    }

    pub fn to_value(&self) -> (r: u8)
        ensures
            r == self.spec_value(),
    {
        match self {
            ErrorType::Generic => 0,
            ErrorType::SystemMemoryDamaged => 1,
            ErrorType::CardRemoved => 2,
            ErrorType::Exception => 3,
            ErrorType::Failure => 4,
            ErrorType::Logged => 5,
        }
    }

    pub fn from_value(v: u8) -> (r: Option<ErrorType>)
        ensures
            r == ErrorType::spec_from_value(v),
    {
        match v {
            0 => Some(ErrorType::Generic),
            1 => Some(ErrorType::SystemMemoryDamaged),
            2 => Some(ErrorType::CardRemoved),
            3 => Some(ErrorType::Exception),
            4 => Some(ErrorType::Failure),
            5 => Some(ErrorType::Logged),
            _ => None,
        }
    }
}

/// The processor exception behind an exception report.
#[derive(Debug, Copy, Clone, PartialEq, Eq, Structural)]
pub enum ExceptionType {
    PrefetchAbort,
    DataAbort,
    Undefined,
    Vfp,
}

impl ExceptionType {
    /// The wire value of this variant.
    pub open spec fn spec_value(self) -> u8 {
        match self {
            ExceptionType::PrefetchAbort => 0,
            ExceptionType::DataAbort => 1,
            ExceptionType::Undefined => 2,
            ExceptionType::Vfp => 3,
        }
    }

    /// The variant whose wire value is `v`, if any.
    pub open spec fn spec_from_value(v: u8) -> Option<ExceptionType> {
        if v == 0 {
            Some(ExceptionType::PrefetchAbort)
        } else if v == 1 {
            Some(ExceptionType::DataAbort)
        } else if v == 2 {
            Some(ExceptionType::Undefined)
        } else if v == 3 {
            Some(ExceptionType::Vfp)
        } else {
            None
        }
    }

    pub fn to_value(&self) -> (r: u8)
        ensures
            r == self.spec_value(),
    {
        match self {
            ExceptionType::PrefetchAbort => 0,
            ExceptionType::DataAbort => 1,
            ExceptionType::Undefined => 2,
            ExceptionType::Vfp => 3,
        }
    }

    pub fn from_value(v: u8) -> (r: Option<ExceptionType>)
        ensures
            r == ExceptionType::spec_from_value(v),
    {
        match v {
            0 => Some(ExceptionType::PrefetchAbort),
            1 => Some(ExceptionType::DataAbort),
            2 => Some(ExceptionType::Undefined),
            3 => Some(ExceptionType::Vfp),
            _ => None,
        }
    }
}

/// Bytes of the failure message field.
pub const MESSAGE_SIZE: usize = 0x60;

/// Words of a report on the wire.
pub const REPORT_WORDS: usize = 32;

/// Word `k` of a byte sequence, little-endian.
pub open spec fn le_word(b: Seq<u8>, k: int) -> u32 {
    (b[4 * k] as int + b[4 * k + 1] as int * 0x100 + b[4 * k + 2] as int * 0x1_0000 + b[4 * k + 3] as int
        * 0x100_0000) as u32
}

/// The message field for `message`: its bytes, cut to leave at least one
/// terminating zero, then zeros.
pub open spec fn message_field(message: Seq<u8>) -> Seq<u8> {
    Seq::new(
        MESSAGE_SIZE as nat,
        |i: int|
            if i < message.len() && i < MESSAGE_SIZE - 1 {
                message[i]
            } else {
                0u8
            },
    )
}

/// A fatal error report.
#[derive(Debug)]
pub struct ErrorInfo {
    type_: ErrorType,
    revision_high: u8,
    revision_low: u8,
    result_code: ResultCode,
    pc_addr: u32,
    process_id: u32,
    title_id: u64,
    application_title_id: u64,
    failure_message: Vec<u8>,
}

impl ErrorInfo {
    pub closed spec fn type_spec(&self) -> ErrorType {
        self.type_
    }

    pub closed spec fn revision_spec(&self) -> (u8, u8) {
        (self.revision_high, self.revision_low)
    }

    pub closed spec fn result_spec(&self) -> u32 {
        self.result_code.0
    }

    pub closed spec fn pc_spec(&self) -> u32 {
        self.pc_addr
    }

    pub closed spec fn process_spec(&self) -> u32 {
        self.process_id
    }

    pub closed spec fn title_spec(&self) -> (u64, u64) {
        (self.title_id, self.application_title_id)
    }

    pub closed spec fn message_spec(&self) -> Seq<u8> {
        self.failure_message@
    }

    pub open spec fn wf(&self) -> bool {
        self.message_spec().len() == MESSAGE_SIZE
    }

    /// Word `i` of the report on the wire: type and revision bytes, result
    /// code, address, process id, the two title ids low word first, then
    /// the message.
    pub open spec fn wire_word(&self, i: int) -> u32 {
        if i == 0 {
            (self.type_spec().spec_value() as int + self.revision_spec().0 as int * 0x100
                + self.revision_spec().1 as int * 0x1_0000) as u32
        } else if i == 1 {
            self.result_spec()
        } else if i == 2 {
            self.pc_spec()
        } else if i == 3 {
            self.process_spec()
        } else if i == 4 {
            (self.title_spec().0 % 0x1_0000_0000) as u32
        } else if i == 5 {
            (self.title_spec().0 / 0x1_0000_0000) as u32
        } else if i == 6 {
            (self.title_spec().1 % 0x1_0000_0000) as u32
        } else if i == 7 {
            (self.title_spec().1 / 0x1_0000_0000) as u32
        } else {
            le_word(self.message_spec(), i - 8)
        }
    }

    pub open spec fn wire_words(&self) -> Seq<u32> {
        Seq::new(REPORT_WORDS as nat, |i: int| self.wire_word(i))
    }

    /// A generic report of `result_code`, raised at `pc_addr` in process
    /// `process_id`.
    pub fn from_result_code(result_code: ResultCode, pc_addr: u32, process_id: u32) -> (r:
        ErrorInfo)
        ensures
            r.wf(),
            r.type_spec() == ErrorType::Generic,
            r.revision_spec() == (0u8, 0u8),
            r.result_spec() == result_code.0,
            r.pc_spec() == pc_addr,
            r.process_spec() == process_id,
            r.title_spec() == (0u64, 0u64),
            r.message_spec() == message_field(Seq::empty()),
    {
        ErrorInfo {
            type_: ErrorType::Generic,
            revision_high: 0,
            revision_low: 0,
            result_code,
            pc_addr,
            process_id,
            title_id: 0,
            application_title_id: 0,
            failure_message: message_from_bytes(Vec::<u8>::new().as_slice()),
        }
    }

    /// A failure report of `result_code` with `message`.
    pub fn from_result_code_with_message(
        result_code: ResultCode,
        message: &str,
        pc_addr: u32,
        process_id: u32,
    ) -> (r: ErrorInfo)
        ensures
            r.wf(),
            r.type_spec() == ErrorType::Failure,
            r.revision_spec() == (0u8, 0u8),
            r.result_spec() == result_code.0,
            r.pc_spec() == pc_addr,
            r.process_spec() == process_id,
            r.title_spec() == (0u64, 0u64),
            r.message_spec() == message_field(message.spec_bytes()),
    {
        ErrorInfo {
            type_: ErrorType::Failure,
            revision_high: 0,
            revision_low: 0,
            result_code,
            pc_addr,
            process_id,
            title_id: 0,
            application_title_id: 0,
            failure_message: message_from(message),
        }
    }

    /// The report as the words a request carries.
    pub fn as_words(&self) -> (r: Vec<u32>)
        requires
            self.wf(),
        ensures
            r@ == self.wire_words(),
    {
        let mut words: Vec<u32> = Vec::new();
        let t = self.type_.to_value() as u32;
        words.push(t + self.revision_high as u32 * 0x100 + self.revision_low as u32 * 0x1_0000);
        words.push(self.result_code.0);
        words.push(self.pc_addr);
        words.push(self.process_id);
        words.push((self.title_id % 0x1_0000_0000) as u32);
        words.push((self.title_id / 0x1_0000_0000) as u32);
        words.push((self.application_title_id % 0x1_0000_0000) as u32);
        words.push((self.application_title_id / 0x1_0000_0000) as u32);
        let mut k: usize = 0;
        while k < 24
            invariant
                self.wf(),
                k <= 24,
                words@.len() == 8 + k,
                forall|i: int| 0 <= i < 8 + k ==> words@[i] == self.wire_word(i),
            decreases 24 - k,
        {
            let m = &self.failure_message;
            let w = m[4 * k] as u32 + m[4 * k + 1] as u32 * 0x100 + m[4 * k + 2] as u32 * 0x1_0000
                + m[4 * k + 3] as u32 * 0x100_0000;
            words.push(w);
            k = k + 1;
        }
        assert(words@ =~= self.wire_words());
        words
    }
}

/// The message field for `message`.
pub fn message_from(message: &str) -> (r: Vec<u8>)
    ensures
        r@ == message_field(message.spec_bytes()),
{
    message_from_bytes(message.as_bytes())
}

fn message_from_bytes(bytes: &[u8]) -> (r: Vec<u8>)
    ensures
        r@ == message_field(bytes@),
{
    let mut dest: Vec<u8> = Vec::new();
    let mut i: usize = 0;
    while i < MESSAGE_SIZE
        invariant
            i <= MESSAGE_SIZE,
            dest@.len() == i,
            forall|j: int| 0 <= j < i ==> dest@[j] == message_field(bytes@)[j],
        decreases MESSAGE_SIZE - i,
    {
        if i < bytes.len() && i < MESSAGE_SIZE - 1 {
            dest.push(bytes[i]);
        } else {
            dest.push(0);
        }
        i = i + 1;
    }
    assert(dest@ =~= message_field(bytes@));
    dest
}

/// A session with the error port.
#[derive(Debug)]
pub struct ErrF {
    port: OwnedHandle,
}

impl ErrF {
    pub closed spec fn port_spec(&self) -> u32 {
        self.port@
    }

    /// A session over the handle that connecting to `err:f` gave.
    pub fn init(port: OwnedHandle) -> (r: ErrF)
        ensures
            r.port_spec() == port@,
    {
        ErrF { port }
    }

    /// Sends `error` as the normal words of command 1.
    pub fn throw(&self, error: &ErrorInfo) -> (r: SyncRequest)
        requires
            error.wf(),
        ensures
            r.carries(self.port_spec(), 0x1, error.wire_words(), seq![]),
    {
        let words = error.as_words();
        let req = IpcRequest::command(0x1).parameters(words.as_slice());
        assert(words@.map_values(|p: u32| p.encoded()) =~= words@);
        req.dispatch(self.port.handle())
    }
}

} // verus!
