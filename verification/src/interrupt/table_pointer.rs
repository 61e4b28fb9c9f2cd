//! The record that names a descriptor table to the CPU.

use crate::layout::{le_bytes_u16, le_bytes_u64, le_u16, le_u64};
use vstd::prelude::*;

verus! {

/// What the `lidt` instruction reads: where a descriptor table lies and how
/// long it is.
#[derive(Debug, Clone, Copy, PartialEq, Eq, Structural)]
pub struct TablePointer {
    /// Size of the table in bytes, less one.
    pub limit: u16,
    /// Address of the table's first byte.
    pub base: u64,
}

impl TablePointer {
    /// The ten bytes of the record in memory: the limit, then the base, each
    /// with its low byte first and nothing between them.
    pub open spec fn spec_to_bytes(&self) -> Seq<u8> {
        le_bytes_u16(self.limit) + le_bytes_u64(self.base)
    }

    /// The ten bytes of the record in memory.
    pub fn to_bytes(&self) -> (bytes: [u8; 10])
        ensures
            bytes@ == self.spec_to_bytes(),
    {
        let limit = le_u16(self.limit);
        let base = le_u64(self.base);
        let bytes = [
            limit[0],
            limit[1],
            base[0],
            base[1],
            base[2],
            base[3],
            base[4],
            base[5],
            base[6],
            base[7],
        ];
        assert(bytes@ =~= self.spec_to_bytes());
        bytes
    }
}

} // verus!
