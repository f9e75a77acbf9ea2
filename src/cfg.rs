//! Requests to the configuration service.
use vstd::prelude::*;

use crate::handle::OwnedHandle;
use crate::request::{IpcRequest, SyncRequest};

verus! {

/// The region a console was sold for.
#[derive(Debug, Copy, Clone, PartialEq, Eq, Structural)]
pub enum Region {
    Japan,
    America,
    Europe,
    Australia,
    China,
    Korea,
    Taiwan,
}

impl Region {
    /// The wire value of this variant.
    pub open spec fn spec_value(self) -> u32 {
        match self {
            Region::Japan => 0,
            Region::America => 1,
            Region::Europe => 2,
            Region::Australia => 3,
            Region::China => 4,
            Region::Korea => 5,
            Region::Taiwan => 6,
        }
    }

    /// The variant whose wire value is `v`, if any.
    pub open spec fn spec_from_value(v: u32) -> Option<Region> {
        if v == 0 {
            Some(Region::Japan)
        } else if v == 1 {
            Some(Region::America)
        } else if v == 2 {
            Some(Region::Europe)
        } else if v == 3 {
            Some(Region::Australia)
        } else if v == 4 {
            Some(Region::China)
        } else if v == 5 {
            Some(Region::Korea)
        } else if v == 6 {
            Some(Region::Taiwan)
        } else {
            None
        }
    }

    pub fn to_value(&self) -> (r: u32)
        ensures
            r == self.spec_value(),
    {
        match self {
            Region::Japan => 0,
            Region::America => 1,
            Region::Europe => 2,
            Region::Australia => 3,
            Region::China => 4,
            Region::Korea => 5,
            Region::Taiwan => 6,
        }
    }

    pub fn from_value(v: u32) -> (r: Option<Region>)
        ensures
            r == Region::spec_from_value(v),
    {
        match v {
            0 => Some(Region::Japan),
            1 => Some(Region::America),
            2 => Some(Region::Europe),
            3 => Some(Region::Australia),
            4 => Some(Region::China),
            5 => Some(Region::Korea),
            6 => Some(Region::Taiwan),
            _ => None,
        }
    }
}

/// The hardware model of a console.
#[derive(Debug, Copy, Clone, PartialEq, Eq, Structural)]
pub enum SystemModel {
    Ctr,
    Spr,
    Ktr,
    Ftr,
    Red,
    Jan,
}

impl SystemModel {
    /// The wire value of this variant.
    pub open spec fn spec_value(self) -> u32 {
        match self {
            SystemModel::Ctr => 0,
            SystemModel::Spr => 1,
            SystemModel::Ktr => 2,
            SystemModel::Ftr => 3,
            SystemModel::Red => 4,
            SystemModel::Jan => 5,
        }
    }

    /// The variant whose wire value is `v`, if any.
    pub open spec fn spec_from_value(v: u32) -> Option<SystemModel> {
        if v == 0 {
            Some(SystemModel::Ctr)
        } else if v == 1 {
            Some(SystemModel::Spr)
        } else if v == 2 {
            Some(SystemModel::Ktr)
        } else if v == 3 {
            Some(SystemModel::Ftr)
        } else if v == 4 {
            Some(SystemModel::Red)
        } else if v == 5 {
            Some(SystemModel::Jan)
        } else {
            None
        }
    }

    pub fn to_value(&self) -> (r: u32)
        ensures
            r == self.spec_value(),
    {
        match self {
            SystemModel::Ctr => 0,
            SystemModel::Spr => 1,
            SystemModel::Ktr => 2,
            SystemModel::Ftr => 3,
            SystemModel::Red => 4,
            SystemModel::Jan => 5,
        }
    }

    pub fn from_value(v: u32) -> (r: Option<SystemModel>)
        ensures
            r == SystemModel::spec_from_value(v),
    {
        match v {
            0 => Some(SystemModel::Ctr),
            1 => Some(SystemModel::Spr),
            2 => Some(SystemModel::Ktr),
            3 => Some(SystemModel::Ftr),
            4 => Some(SystemModel::Red),
            5 => Some(SystemModel::Jan),
            _ => None,
        }
    }
}

/// The console-unique hash from its two reply words, low word first.
pub fn console_unique_hash(hash_low: u32, hash_high: u32) -> (r: u64)
    ensures
        r == hash_high as u64 * 0x1_0000_0000 + hash_low as u64,
{
    let high = hash_high as u64;
    let low = hash_low as u64;
    assert((high << 32u64) | low == high * 0x1_0000_0000 + low) by (bit_vector)
        requires
            high < 0x1_0000_0000,
            low < 0x1_0000_0000,
    ;
    (high << 32u64) | low
}

/// A session with the configuration service.
#[derive(Debug)]
pub struct Cfg {
    service_handle: OwnedHandle,
}

impl Cfg {
    pub closed spec fn handle_spec(&self) -> u32 {
        self.service_handle@
    }

    /// A session over the handle that looking up one of `cfg:i`, `cfg:s`
    /// or `cfg:u` gave.
    pub fn init(service_handle: OwnedHandle) -> (r: Cfg)
        ensures
            r.handle_spec() == service_handle@,
    {
        Cfg { service_handle }
    }

    /// The reply's first word is a `Region` value.
    pub fn secure_info_region(&self) -> (r: SyncRequest)
        ensures
            r.carries(self.handle_spec(), 0x2, seq![], seq![]),
    {
        IpcRequest::command(0x2).dispatch(self.service_handle.handle())
    }

    /// The reply's first two words are the hash, low word first (see
    /// `console_unique_hash`).
    pub fn generate_console_unique_hash(&self, salt: u32) -> (r: SyncRequest)
        ensures
            r.carries(self.handle_spec(), 0x3, seq![salt], seq![]),
    {
        IpcRequest::command(0x3).parameter(salt).dispatch(self.service_handle.handle())
    }

    /// The reply's first word is nonzero for Canada or the USA.
    pub fn is_subregion_canada_or_usa(&self) -> (r: SyncRequest)
        ensures
            r.carries(self.handle_spec(), 0x4, seq![], seq![]),
    {
        IpcRequest::command(0x4).dispatch(self.service_handle.handle())
    }

    /// The reply's first word is a `SystemModel` value.
    pub fn system_model(&self) -> (r: SyncRequest)
        ensures
            r.carries(self.handle_spec(), 0x5, seq![], seq![]),
    {
        IpcRequest::command(0x5).dispatch(self.service_handle.handle())
    }

    /// The reply's first word is nonzero on a 2DS.
    pub fn is_system_model_2ds(&self) -> (r: SyncRequest)
        ensures
            r.carries(self.handle_spec(), 0x6, seq![], seq![]),
    {
        IpcRequest::command(0x6).dispatch(self.service_handle.handle())
    }
}

} // verus!
