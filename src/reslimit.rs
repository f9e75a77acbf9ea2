//! Per-process resource limits.
use vstd::prelude::*;

use crate::handle::{BorrowedHandle, OwnedHandle};
use crate::svc::{
    get_resource_limit, get_resource_limit_current_values, get_resource_limit_values,
    LimitType, SvcCall,
};

verus! {

/// One kind of limit of a process's limit set.
#[derive(Debug, Clone, Copy)]
pub struct Limit {
    type_: LimitType,
    limits_handle: BorrowedHandle,
}

impl Limit {
    pub closed spec fn type_spec(&self) -> LimitType {
        self.type_
    }

    pub closed spec fn handle_spec(&self) -> u32 {
        self.limits_handle@
    }

    pub fn limit_type(&self) -> (r: LimitType)
        ensures
            r == self.type_spec(),
    {
        self.type_
    }

    /// Reads the limit's maximum into the one-entry array at
    /// `values_address`, given the one-entry type array at `types_address`
    /// (which holds this limit's type).
    pub fn limit(&self, values_address: u32, types_address: u32) -> (r: SvcCall)
        ensures
            r.number == 0x39,
            r.inputs@ == seq![
                Some(values_address),
                Some(self.handle_spec()),
                Some(types_address),
                Some(1u32),
            ],
    {
        get_resource_limit_values(values_address, self.limits_handle, types_address, 1)
    }

    /// Reads the limit's current use, as `limit` does its maximum.
    pub fn current(&self, values_address: u32, types_address: u32) -> (r: SvcCall)
        ensures
            r.number == 0x3a,
            r.inputs@ == seq![
                Some(values_address),
                Some(self.handle_spec()),
                Some(types_address),
                Some(1u32),
            ],
    {
        get_resource_limit_current_values(values_address, self.limits_handle, types_address, 1)
    }

    /// What is left of the limit: its maximum less its current use, where
    /// that fits an i64.
    pub fn remaining(limit: i64, current: i64) -> (r: Option<i64>)
        ensures
            i64::MIN <= limit - current <= i64::MAX <==> r is Some,
            r matches Some(v) ==> v == limit - current,
    {
        let d = limit as i128 - current as i128;
        if d < i64::MIN as i128 || d > i64::MAX as i128 {
            None
        } else {
            Some(d as i64)
        }
    }
}

/// The resource-limit set of a process.
#[derive(Debug)]
pub struct ProcessLimits {
    handle: OwnedHandle,
}

impl ProcessLimits {
    pub closed spec fn handle_spec(&self) -> u32 {
        self.handle@
    }

    /// The set whose handle the get-resource-limit call gave.
    pub fn from_handle(handle: OwnedHandle) -> (r: ProcessLimits)
        ensures
            r.handle_spec() == handle@,
    {
        ProcessLimits { handle }
    }

    pub fn get(&self, type_: LimitType) -> (r: Limit)
        ensures
            r.type_spec() == type_,
            r.handle_spec() == self.handle_spec(),
    {
        Limit { type_, limits_handle: self.handle.handle() }
    }

    pub fn memory_allocatable(&self) -> (r: Limit)
        ensures
            r.type_spec() == LimitType::MemoryAllocatable,
            r.handle_spec() == self.handle_spec(),
    {
        self.get(LimitType::MemoryAllocatable)
    }
}

/// The call that gives the limit set of `process_handle`'s process.
pub fn process_limits(out_address: u32, process_handle: BorrowedHandle) -> (r: SvcCall)
    ensures
        r.number == 0x38,
        r.inputs@ == seq![Some(out_address), Some(process_handle@)],
{
    get_resource_limit(out_address, process_handle)
}

} // verus!
