//! Memory regions, permissions and states, and the operation word of the
//! control-memory call.
use vstd::prelude::*;

verus! {

/// A memory region of the system.
#[derive(Debug, Copy, Clone, PartialEq, Eq, Structural)]
pub enum MemoryRegion {
    All,
    Application,
    System,
    Base,
}

impl MemoryRegion {
    /// The wire value of this variant.
    pub open spec fn spec_value(self) -> u32 {
        match self {
            MemoryRegion::All => 0,
            MemoryRegion::Application => 1,
            MemoryRegion::System => 2,
            MemoryRegion::Base => 3,
        }
    }

    /// The variant whose wire value is `v`, if any.
    pub open spec fn spec_from_value(v: u32) -> Option<MemoryRegion> {
        if v == 0 {
            Some(MemoryRegion::All)
        } else if v == 1 {
            Some(MemoryRegion::Application)
        } else if v == 2 {
            Some(MemoryRegion::System)
        } else if v == 3 {
            Some(MemoryRegion::Base)
        } else {
            None
        }
    }

    pub fn to_value(&self) -> (r: u32)
        ensures
            r == self.spec_value(),
    {
        match self {
            MemoryRegion::All => 0,
            MemoryRegion::Application => 1,
            MemoryRegion::System => 2,
            MemoryRegion::Base => 3,
        }
    }

    pub fn from_value(v: u32) -> (r: Option<MemoryRegion>)
        ensures
            r == MemoryRegion::spec_from_value(v),
    {
        match v {
            0 => Some(MemoryRegion::All),
            1 => Some(MemoryRegion::Application),
            2 => Some(MemoryRegion::System),
            3 => Some(MemoryRegion::Base),
            _ => None,
        }
    }
}

/// Where a memory operation takes its pages from.
#[derive(Debug, Copy, Clone, PartialEq, Eq, Structural)]
pub enum MemoryOperationTarget {
    Heap,
    Linear,
}

impl MemoryOperationTarget {
    /// The wire value of this variant.
    pub open spec fn spec_value(self) -> u32 {
        match self {
            MemoryOperationTarget::Heap => 0,
            MemoryOperationTarget::Linear => 65536,
        }
    }

    /// The variant whose wire value is `v`, if any.
    pub open spec fn spec_from_value(v: u32) -> Option<MemoryOperationTarget> {
        if v == 0 {
            Some(MemoryOperationTarget::Heap)
        } else if v == 65536 {
            Some(MemoryOperationTarget::Linear)
        } else {
            None
        }
    }

    pub fn to_value(&self) -> (r: u32)
        ensures
            r == self.spec_value(),
    {
        match self {
            MemoryOperationTarget::Heap => 0,
            MemoryOperationTarget::Linear => 65536,
        }
    }

    pub fn from_value(v: u32) -> (r: Option<MemoryOperationTarget>)
        ensures
            r == MemoryOperationTarget::spec_from_value(v),
    {
        match v {
            0 => Some(MemoryOperationTarget::Heap),
            65536 => Some(MemoryOperationTarget::Linear),
            _ => None,
        }
    }
}

/// The region a memory operation applies to.
#[derive(Debug, Copy, Clone, PartialEq, Eq, Structural)]
pub enum MemoryOperationRegion {
    App,
    System,
    Base,
}

impl MemoryOperationRegion {
    /// The wire value of this variant.
    pub open spec fn spec_value(self) -> u32 {
        match self {
            MemoryOperationRegion::App => 65536,
            MemoryOperationRegion::System => 131072,
            MemoryOperationRegion::Base => 196608,
        }
    }

    /// The variant whose wire value is `v`, if any.
    pub open spec fn spec_from_value(v: u32) -> Option<MemoryOperationRegion> {
        if v == 65536 {
            Some(MemoryOperationRegion::App)
        } else if v == 131072 {
            Some(MemoryOperationRegion::System)
        } else if v == 196608 {
            Some(MemoryOperationRegion::Base)
        } else {
            None
        }
    }

    pub fn to_value(&self) -> (r: u32)
        ensures
            r == self.spec_value(),
    {
        match self {
            MemoryOperationRegion::App => 65536,
            MemoryOperationRegion::System => 131072,
            MemoryOperationRegion::Base => 196608,
        }
    }

    pub fn from_value(v: u32) -> (r: Option<MemoryOperationRegion>)
        ensures
            r == MemoryOperationRegion::spec_from_value(v),
    {
        match v {
            65536 => Some(MemoryOperationRegion::App),
            131072 => Some(MemoryOperationRegion::System),
            196608 => Some(MemoryOperationRegion::Base),
            _ => None,
        }
    }
}

/// What a memory operation does.
#[derive(Debug, Copy, Clone, PartialEq, Eq, Structural)]
pub enum MemoryOperationAction {
    Free,
    Reserve,
    Allocate,
    MapPages,
    Unmap,
    ChangeProtection,
}

impl MemoryOperationAction {
    /// The wire value of this variant.
    pub open spec fn spec_value(self) -> u32 {
        match self {
            MemoryOperationAction::Free => 1,
            MemoryOperationAction::Reserve => 2,
            MemoryOperationAction::Allocate => 3,
            MemoryOperationAction::MapPages => 4,
            MemoryOperationAction::Unmap => 5,
            MemoryOperationAction::ChangeProtection => 6,
        }
    }

    /// The variant whose wire value is `v`, if any.
    pub open spec fn spec_from_value(v: u32) -> Option<MemoryOperationAction> {
        if v == 1 {
            Some(MemoryOperationAction::Free)
        } else if v == 2 {
            Some(MemoryOperationAction::Reserve)
        } else if v == 3 {
            Some(MemoryOperationAction::Allocate)
        } else if v == 4 {
            Some(MemoryOperationAction::MapPages)
        } else if v == 5 {
            Some(MemoryOperationAction::Unmap)
        } else if v == 6 {
            Some(MemoryOperationAction::ChangeProtection)
        } else {
            None
        }
    }

    pub fn to_value(&self) -> (r: u32)
        ensures
            r == self.spec_value(),
    {
        match self {
            MemoryOperationAction::Free => 1,
            MemoryOperationAction::Reserve => 2,
            MemoryOperationAction::Allocate => 3,
            MemoryOperationAction::MapPages => 4,
            MemoryOperationAction::Unmap => 5,
            MemoryOperationAction::ChangeProtection => 6,
        }
    }

    pub fn from_value(v: u32) -> (r: Option<MemoryOperationAction>)
        ensures
            r == MemoryOperationAction::spec_from_value(v),
    {
        match v {
            1 => Some(MemoryOperationAction::Free),
            2 => Some(MemoryOperationAction::Reserve),
            3 => Some(MemoryOperationAction::Allocate),
            4 => Some(MemoryOperationAction::MapPages),
            5 => Some(MemoryOperationAction::Unmap),
            6 => Some(MemoryOperationAction::ChangeProtection),
            _ => None,
        }
    }
}

/// Access rights of a memory mapping.
#[derive(Debug, Copy, Clone, PartialEq, Eq, Structural)]
pub enum MemoryPermission {
    NoAccess,
    R,
    W,
    Rw,
    X,
    Rx,
    Wx,
    Rwx,
    DontCare,
}

impl MemoryPermission {
    /// The wire value of this variant.
    pub open spec fn spec_value(self) -> u32 {
        match self {
            MemoryPermission::NoAccess => 0,
            MemoryPermission::R => 1,
            MemoryPermission::W => 2,
            MemoryPermission::Rw => 3,
            MemoryPermission::X => 4,
            MemoryPermission::Rx => 5,
            MemoryPermission::Wx => 6,
            MemoryPermission::Rwx => 7,
            MemoryPermission::DontCare => 268435456,
        }
    }

    /// The variant whose wire value is `v`, if any.
    pub open spec fn spec_from_value(v: u32) -> Option<MemoryPermission> {
        if v == 0 {
            Some(MemoryPermission::NoAccess)
        } else if v == 1 {
            Some(MemoryPermission::R)
        } else if v == 2 {
            Some(MemoryPermission::W)
        } else if v == 3 {
            Some(MemoryPermission::Rw)
        } else if v == 4 {
            Some(MemoryPermission::X)
        } else if v == 5 {
            Some(MemoryPermission::Rx)
        } else if v == 6 {
            Some(MemoryPermission::Wx)
        } else if v == 7 {
            Some(MemoryPermission::Rwx)
        } else if v == 268435456 {
            Some(MemoryPermission::DontCare)
        } else {
            None
        }
    }

    pub fn to_value(&self) -> (r: u32)
        ensures
            r == self.spec_value(),
    {
        match self {
            MemoryPermission::NoAccess => 0,
            MemoryPermission::R => 1,
            MemoryPermission::W => 2,
            MemoryPermission::Rw => 3,
            MemoryPermission::X => 4,
            MemoryPermission::Rx => 5,
            MemoryPermission::Wx => 6,
            MemoryPermission::Rwx => 7,
            MemoryPermission::DontCare => 268435456,
        }
    }

    pub fn from_value(v: u32) -> (r: Option<MemoryPermission>)
        ensures
            r == MemoryPermission::spec_from_value(v),
    {
        match v {
            0 => Some(MemoryPermission::NoAccess),
            1 => Some(MemoryPermission::R),
            2 => Some(MemoryPermission::W),
            3 => Some(MemoryPermission::Rw),
            4 => Some(MemoryPermission::X),
            5 => Some(MemoryPermission::Rx),
            6 => Some(MemoryPermission::Wx),
            7 => Some(MemoryPermission::Rwx),
            268435456 => Some(MemoryPermission::DontCare),
            _ => None,
        }
    }
}

/// The state of a range of the address space.
#[derive(Debug, Copy, Clone, PartialEq, Eq, Structural)]
pub enum MemoryState {
    Free,
    Reserved,
    Io,
    Static,
    Code,
    Private,
    Shared,
    Continuous,
    Aliased,
    Alias,
    AliasCode,
    Locked,
}

impl MemoryState {
    /// The wire value of this variant.
    pub open spec fn spec_value(self) -> u32 {
        match self {
            MemoryState::Free => 0,
            MemoryState::Reserved => 1,
            MemoryState::Io => 2,
            MemoryState::Static => 3,
            MemoryState::Code => 4,
            MemoryState::Private => 5,
            MemoryState::Shared => 6,
            MemoryState::Continuous => 7,
            MemoryState::Aliased => 8,
            MemoryState::Alias => 9,
            MemoryState::AliasCode => 10,
            MemoryState::Locked => 11,
        }
    }

    /// The variant whose wire value is `v`, if any.
    pub open spec fn spec_from_value(v: u32) -> Option<MemoryState> {
        if v == 0 {
            Some(MemoryState::Free)
        } else if v == 1 {
            Some(MemoryState::Reserved)
        } else if v == 2 {
            Some(MemoryState::Io)
        } else if v == 3 {
            Some(MemoryState::Static)
        } else if v == 4 {
            Some(MemoryState::Code)
        } else if v == 5 {
            Some(MemoryState::Private)
        } else if v == 6 {
            Some(MemoryState::Shared)
        } else if v == 7 {
            Some(MemoryState::Continuous)
        } else if v == 8 {
            Some(MemoryState::Aliased)
        } else if v == 9 {
            Some(MemoryState::Alias)
        } else if v == 10 {
            Some(MemoryState::AliasCode)
        } else if v == 11 {
            Some(MemoryState::Locked)
        } else {
            None
        }
    }

    pub fn to_value(&self) -> (r: u32)
        ensures
            r == self.spec_value(),
    {
        match self {
            MemoryState::Free => 0,
            MemoryState::Reserved => 1,
            MemoryState::Io => 2,
            MemoryState::Static => 3,
            MemoryState::Code => 4,
            MemoryState::Private => 5,
            MemoryState::Shared => 6,
            MemoryState::Continuous => 7,
            MemoryState::Aliased => 8,
            MemoryState::Alias => 9,
            MemoryState::AliasCode => 10,
            MemoryState::Locked => 11,
        }
    }

    pub fn from_value(v: u32) -> (r: Option<MemoryState>)
        ensures
            r == MemoryState::spec_from_value(v),
    {
        match v {
            0 => Some(MemoryState::Free),
            1 => Some(MemoryState::Reserved),
            2 => Some(MemoryState::Io),
            3 => Some(MemoryState::Static),
            4 => Some(MemoryState::Code),
            5 => Some(MemoryState::Private),
            6 => Some(MemoryState::Shared),
            7 => Some(MemoryState::Continuous),
            8 => Some(MemoryState::Aliased),
            9 => Some(MemoryState::Alias),
            10 => Some(MemoryState::AliasCode),
            11 => Some(MemoryState::Locked),
            _ => None,
        }
    }
}

/// The operation word of the control-memory call: action, region and
/// target combined.
#[derive(Debug, Clone, Copy, PartialEq, Eq, Structural)]
pub struct MemoryOperation(pub u32);

impl MemoryOperation {
    pub fn new(
        action: MemoryOperationAction,
        region: MemoryOperationRegion,
        target: MemoryOperationTarget,
    ) -> (r: MemoryOperation)
        ensures
            r.0 == action.spec_value() | region.spec_value() | target.spec_value(),
    {
        MemoryOperation(action.to_value() | region.to_value() | target.to_value())
    }

    /// Allocation from the heap of the calling process's region.
    pub fn allocate() -> (r: MemoryOperation)
        ensures
            r.0 == MemoryOperationAction::Allocate.spec_value(),
    {
        MemoryOperation(MemoryOperationAction::Allocate.to_value())
    }

    /// The same operation on linear (physically contiguous) memory.
    pub fn linear(self) -> (r: MemoryOperation)
        ensures
            r.0 == self.0 | MemoryOperationTarget::Linear.spec_value(),
    {
        MemoryOperation(self.0 | MemoryOperationTarget::Linear.to_value())
    }
}

/// What the query-memory call reports of the region that holds an address.
#[derive(Debug, Clone, Copy)]
pub struct QueryResult {
    pub base_process_virtual_address: usize,
    pub size: usize,
    pub permission: MemoryPermission,
    pub state: MemoryState,
    pub page_flags: u32,
}

} // verus!
