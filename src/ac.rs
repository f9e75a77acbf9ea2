//! Requests to the network-connection service.
use vstd::prelude::*;

use crate::handle::OwnedHandle;
use crate::request::{IpcRequest, SyncRequest};
use crate::result::{pack_result, CommonDescription, ErrorCode, Level, Module, Summary};

verus! {

/// The state of the wireless connection.
#[derive(Debug, Copy, Clone, PartialEq, Eq, Structural)]
pub enum WifiStatus {
    NoConnection,
    Old3dsConnection,
    New3dsConnection,
}

/// The failure for a status word the service should never give.
pub open spec fn invalid_status_code() -> u32 {
    pack_result(
        Level::Fatal.spec_value(),
        Summary::InvalidResultValue.spec_value(),
        Module::Ac.spec_value() as u32,
        CommonDescription::InvalidResultValue.spec_value(),
    )
}

impl WifiStatus {
    pub fn is_connected(&self) -> (r: bool)
        ensures
            r == (*self != WifiStatus::NoConnection),
    {
        !matches!(self, WifiStatus::NoConnection)
    }

    /// The status that the reply word `w` reports: 0, 1 and 2 are known,
    /// any other word is an invalid result.
    pub fn from_reply_word(w: u32) -> (r: Result<WifiStatus, ErrorCode>)
        ensures
            w == 0 ==> r == Ok::<WifiStatus, ErrorCode>(WifiStatus::NoConnection),
            w == 1 ==> r == Ok::<WifiStatus, ErrorCode>(WifiStatus::Old3dsConnection),
            w == 2 ==> r == Ok::<WifiStatus, ErrorCode>(WifiStatus::New3dsConnection),
            w > 2 ==> (r matches Err(e) && e.spec_value() == invalid_status_code()),
    {
        match w {
            0 => Ok(WifiStatus::NoConnection),
            1 => Ok(WifiStatus::Old3dsConnection),
            2 => Ok(WifiStatus::New3dsConnection),
            _ => Err(
                ErrorCode::with_fields(
                    Level::Fatal,
                    Summary::InvalidResultValue,
                    Module::Ac,
                    CommonDescription::InvalidResultValue.to_value(),
                ),
            ),
        }
    }
}

/// A session with the network-connection service.
#[derive(Debug)]
pub struct Ac {
    handle: OwnedHandle,
}

impl Ac {
    pub closed spec fn handle_spec(&self) -> u32 {
        self.handle@
    }

    /// A session over the service handle that looking up `ac:i` (or, failing
    /// that, `ac:u`) gave.
    pub fn init(handle: OwnedHandle) -> (r: Ac)
        ensures
            r.handle_spec() == handle@,
    {
        Ac { handle }
    }

    /// Asks for the wireless status; the reply's first word is read with
    /// `WifiStatus::from_reply_word`.
    pub fn wifi_status(&self) -> (r: SyncRequest)
        ensures
            r.carries(self.handle_spec(), 0xd, seq![], seq![]),
    {
        IpcRequest::command(0xd).dispatch(self.handle.handle())
    }
}

} // verus!
