//! The interrupt descriptor table of this kernel: how it is built, what
//! loads it, and what its one handler shows.

pub mod interrupt_table;
pub mod table_pointer;

use crate::interrupt::interrupt_table::{
    lemma_handler_addr_round_trip, lemma_missing_is_absent, Gate, HandlerFunc, InterruptTable,
    ENTRY_COUNT, TABLE_SIZE,
};
use crate::interrupt::table_pointer::TablePointer;
use crate::vga::Writer;
use vstd::prelude::*;
use vstd::string::StringSliceAdditionalSpecFns;

verus! {

/// Vector of the breakpoint exception, which the `int3` instruction raises.
pub const BREAKPOINT_VECTOR: u8 = 3;

/// What the breakpoint handler shows: one line, and an empty one after it.
pub const BREAKPOINT_MESSAGE: &'static str = "EXCEPTION: BREAKPOINT .......\n\n";

/// Builds the kernel's table: the breakpoint exception goes to `breakpoint`,
/// run in the code segment `selector`, and no other vector has a handler.
///
/// The kernel builds the table once, when it is first asked for, and never
/// changes it afterwards.
pub fn build_idt(breakpoint: HandlerFunc, selector: u16) -> (idt: InterruptTable)
    ensures
        idt@ == InterruptTable::all_missing().update(
            BREAKPOINT_VECTOR as int,
            Gate::missing().with_handler(breakpoint.0, selector),
        ),
        idt@[BREAKPOINT_VECTOR as int].present(),
        idt@[BREAKPOINT_VECTOR as int].handler_addr() == breakpoint.0,
        idt@[BREAKPOINT_VECTOR as int].selector == selector,
        forall|vector: int|
            0 <= vector < ENTRY_COUNT && vector != BREAKPOINT_VECTOR
                ==> !(#[trigger] idt@[vector]).present(),
{
    let mut idt = InterruptTable::new();
    let ghost empty = idt;
    assert(idt.breakpoint@ == idt@[BREAKPOINT_VECTOR as int]);
    idt.breakpoint.set_handler_fn(breakpoint, selector);
    proof {
        lemma_handler_addr_round_trip(Gate::missing(), breakpoint.0, selector);
        lemma_missing_is_absent();
        assert(idt.breakpoint@ == Gate::missing().with_handler(breakpoint.0, selector));
        assert forall|vector: int|
            0 <= vector < ENTRY_COUNT && vector != BREAKPOINT_VECTOR implies idt@[vector]
            == empty@[vector] by {}
        assert(idt@ =~= InterruptTable::all_missing().update(
            BREAKPOINT_VECTOR as int,
            Gate::missing().with_handler(breakpoint.0, selector),
        ));
    }
    idt
}

/// Prepares the load of the kernel's table: gives the record for the `lidt`
/// instruction, once the table's bytes lie at `base`.
///
/// The CPU wants the table aligned to 16 bytes, and in place for as long as a
/// trap can come.
pub fn init_idt(idt: &InterruptTable, base: u64) -> (pointer: TablePointer)
    requires
        base % 16 == 0,
    ensures
        pointer.base == base,
        pointer.limit == TABLE_SIZE - 1,
{
    idt.load(base)
}

/// What the breakpoint handler does: it shows its message, and nothing else.
pub fn breakpoint_handler(writer: &mut Writer)
    ensures
        final(writer)@ == old(writer)@.put_all(BREAKPOINT_MESSAGE.spec_bytes()),
        final(writer)@.wf(),
{
    writer.write_string(BREAKPOINT_MESSAGE);
}

} // verus!
