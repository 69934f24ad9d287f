//! Register writes shared by the FM chips.

use vstd::prelude::*;

verus! {

/// One register write: bank (port), address and value.
#[derive(Debug, Clone, Copy, PartialEq, Eq, Structural)]
pub struct RegWrite {
    pub port: u8,
    pub addr: u8,
    pub data: u8,
}

/// A register write.
pub open spec fn w(port: u8, addr: int, data: int) -> RegWrite {
    RegWrite { port, addr: addr as u8, data: data as u8 }
}

/// The id of parameter `offset` of operator `op`: 100 + op × 100 + offset.
pub open spec fn spec_op_param(op: u32, offset: u32) -> int {
    100 + op * 100 + offset
}

/// The id of parameter `offset` of operator `op`.
pub fn op_param(op: u32, offset: u32) -> (r: u32)
    requires
        100 + op * 100 + offset <= u32::MAX,
    ensures
        r == spec_op_param(op, offset),
{
    100 + op * 100 + offset
}

/// An operator parameter id split into operator and offset, for ids 100
/// up to (not including) `limit`.
pub open spec fn split_op_param(id: u32, limit: u32) -> Option<(int, int)> {
    if 100 <= id < limit {
        Some(((id - 100) / 100, (id - 100) % 100))
    } else {
        None
    }
}

/// The smaller of `v` and `cap`.
pub open spec fn cap(v: u8, limit: u8) -> u8 {
    if v < limit {
        v
    } else {
        limit
    }
}

pub fn min_u8(v: u8, limit: u8) -> (r: u8)
    ensures
        r == cap(v, limit),
{
    if v < limit {
        v
    } else {
        limit
    }
}

} // verus!
