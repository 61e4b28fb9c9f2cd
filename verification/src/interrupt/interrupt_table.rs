//! Gate descriptors, their options word, and the 256-slot table they form.

use crate::bits::{
    lemma_with_bit_15, lemma_with_bit_8, lemma_with_low_three_bits, set_bit, set_bits, with_bit,
    with_bits,
};
use crate::interrupt::table_pointer::TablePointer;
use crate::layout::{le_bytes_u16, le_bytes_u32, le_u16, le_u32};
use core::marker::PhantomData;
use vstd::prelude::*;

verus! {

/// Number of descriptors in the table.
pub const ENTRY_COUNT: usize = 256;

/// Size of one descriptor in bytes.
pub const ENTRY_SIZE: usize = 16;

/// Size of the table in bytes.
pub const TABLE_SIZE: usize = ENTRY_COUNT * ENTRY_SIZE;

/// Bit of the options word that marks a gate as present.
pub const PRESENT_BIT: usize = 15;

/// Bit of the options word that, when set, leaves interrupts enabled on
/// entry.
pub const TRAP_BIT: usize = 8;

/// The options word of a gate that has never been touched: not present,
/// interrupts masked on entry, no stack switch, and ones in bits 9 to 11.
pub const DEFAULT_OPTIONS: u16 = 0x0e00;

/// The bits of an options word that no operation changes.
pub const FIXED_BITS: u16 = 0x7ef8;

/// The fault came from a protection violation, not from a page that is not
/// present.
pub const PROTECTION_VIOLATION: u64 = 1;

/// The access that faulted was a write.
pub const CAUSED_BY_WRITE: u64 = 2;

/// The access that faulted came from user mode.
pub const USER_MODE: u64 = 4;

/// The CPU read a one in a reserved field of a page-table entry.
pub const MALFORMED_TABLE: u64 = 8;

/// The access that faulted was an instruction fetch.
pub const INSTRUCTION_FETCH: u64 = 16;

/// Every flag of a page-fault error code.
pub const ALL_PAGE_FAULT_FLAGS: u64 = 31;

/// The error code that the CPU pushes for a page fault.
#[derive(Debug, Clone, Copy, PartialEq, Eq, Structural)]
pub struct PageFaultErrorCode {
    bits: u64,
}

impl PageFaultErrorCode {
    /// The flags as one word.
    pub closed spec fn spec_bits(&self) -> u64 {
        self.bits
    }

    /// Whether every flag of `flags` is set.
    pub open spec fn spec_contains(&self, flags: u64) -> bool {
        self.bits() & flags == flags
    }

    /// Decodes the pushed value, dropping the bits that name no flag.
    pub fn from_bits_truncate(raw: u64) -> (code: Self)
        ensures
            code.bits() == raw & ALL_PAGE_FAULT_FLAGS,
    {
        PageFaultErrorCode { bits: raw & ALL_PAGE_FAULT_FLAGS }
    }

    /// Decodes the pushed value if it holds nothing but flags.
    pub fn from_bits(raw: u64) -> (code: Option<Self>)
        ensures
            code is Some <==> raw & !ALL_PAGE_FAULT_FLAGS == 0,
            code is Some ==> code->0.bits() == raw,
    {
        if raw & !ALL_PAGE_FAULT_FLAGS == 0 {
            Some(PageFaultErrorCode { bits: raw })
        } else {
            None
        }
    }

    #[verifier::when_used_as_spec(spec_bits)]
    pub fn bits(&self) -> (raw: u64)
        ensures
            raw == self.bits(),
    {
        self.bits
    }

    #[verifier::when_used_as_spec(spec_contains)]
    pub fn contains(&self, flags: u64) -> (all: bool)
        ensures
            all == self.contains(flags),
    {
        self.bits & flags == flags
    }
}

/// The frame that the CPU pushes before it enters a handler. A handler gets
/// it by reference; nothing here reads it.
pub struct InterruptStackFrame(u64);

/// Entry address of a handler for a vector without error code.
#[derive(Debug, Clone, Copy, PartialEq, Eq, Structural)]
pub struct HandlerFunc(pub u64);

/// Entry address of a handler for a vector that pushes an error code.
#[derive(Debug, Clone, Copy, PartialEq, Eq, Structural)]
pub struct HandlerFuncWithErrCode(pub u64);

/// Entry address of a page-fault handler, whose error code is a
/// [`PageFaultErrorCode`].
#[derive(Debug, Clone, Copy, PartialEq, Eq, Structural)]
pub struct PageFaultHandlerFunc(pub u64);

/// What an options word says, field by field.
pub struct GateOptions {
    /// The CPU may use the descriptor.
    pub present: bool,
    /// The CPU masks interrupts when it enters the handler.
    pub disable_interrupts: bool,
    /// The slot of the interrupt stack table to switch to, if any.
    pub stack_index: Option<u16>,
}

impl GateOptions {
    /// Reads the fields out of an options word.
    pub open spec fn of_word(word: u16) -> GateOptions {
        GateOptions {
            present: word & 0x8000 != 0,
            disable_interrupts: word & 0x0100 == 0,
            stack_index: if word & 7 == 0 {
                None
            } else {
                Some(((word & 7) - 1) as u16)
            },
        }
    }

    /// The options word that says this and holds the fixed pattern.
    pub open spec fn word(self) -> u16 {
        let present: u16 = if self.present {
            0x8000
        } else {
            0
        };
        let trap: u16 = if self.disable_interrupts {
            0
        } else {
            0x0100
        };
        let stack: u16 = match self.stack_index {
            None => 0,
            Some(index) => (index + 1) as u16,
        };
        DEFAULT_OPTIONS | present | trap | stack
    }
}

/// The 16-bit options word of a gate descriptor.
#[derive(Debug, Clone, Copy, PartialEq)]
pub struct EntryOption(u16);

impl EntryOption {
    /// The word as the CPU reads it.
    pub closed spec fn spec_bits(&self) -> u16 {
        self.0
    }

    /// The fixed bits hold their pattern.
    pub open spec fn wf(self) -> bool {
        self.bits() & FIXED_BITS == DEFAULT_OPTIONS
    }

    #[verifier::type_invariant]
    spec fn inv(self) -> bool {
        self.wf()
    }

    pub open spec fn view(&self) -> GateOptions {
        GateOptions::of_word(self.bits())
    }

    /// Options of a gate that is not present.
    pub fn new() -> (opts: Self)
        ensures
            opts.bits() == DEFAULT_OPTIONS,
            opts@ == (GateOptions { present: false, disable_interrupts: true, stack_index: None }),
    {
        proof {
            lemma_default_options();
        }
        EntryOption(DEFAULT_OPTIONS)
    }

    #[verifier::when_used_as_spec(spec_bits)]
    pub fn bits(&self) -> (word: u16)
        ensures
            word == self.bits(),
            self.wf(),
    {
        proof {
            use_type_invariant(self);
        }
        self.0
    }

    /// Marks the descriptor as present or not.
    pub fn set_present(&mut self, present: bool) -> (ret: &mut Self)
        ensures
            ret.bits() == with_bit(old(self).bits(), PRESENT_BIT, present),
            ret@ == (GateOptions { present, ..old(self)@ }),
            *final(self) == *final(ret),
    {
        proof {
            use_type_invariant(&*self);
            lemma_with_bit_15(self.0, present);
        }
        let mut word = self.0;
        set_bit(&mut word, PRESENT_BIT, present);
        self.0 = word;
        self
    }

    /// Chooses whether the CPU masks interrupts when it enters the handler.
    pub fn disable_interrupts(&mut self, disable: bool) -> (ret: &mut Self)
        ensures
            ret.bits() == with_bit(old(self).bits(), TRAP_BIT, !disable),
            ret@ == (GateOptions { disable_interrupts: disable, ..old(self)@ }),
            *final(self) == *final(ret),
    {
        proof {
            use_type_invariant(&*self);
            lemma_with_bit_8(self.0, !disable);
        }
        let mut word = self.0;
        set_bit(&mut word, TRAP_BIT, !disable);
        self.0 = word;
        self
    }

    /// Makes the CPU switch to slot `index` of the interrupt stack table
    /// when it enters the handler. The word holds `index + 1`, since zero
    /// stands for no switch.
    ///
    /// The table has seven slots. The caller answers for the slot: it must
    /// hold a stack, and one large enough.
    pub fn set_stack_index(&mut self, index: u16) -> (ret: &mut Self)
        requires
            index < 7,
        ensures
            ret.bits() == with_bits(old(self).bits(), 0, 3, (index + 1) as u16),
            ret@ == (GateOptions { stack_index: Some(index), ..old(self)@ }),
            *final(self) == *final(ret),
    {
        proof {
            use_type_invariant(&*self);
            lemma_with_low_three_bits(self.0, (index + 1) as u16);
        }
        let mut word = self.0;
        set_bits(&mut word, 0, 3, index + 1);
        self.0 = word;
        self
    }
}

/// The default word holds the fixed pattern and nothing else.
proof fn lemma_default_options()
    ensures
        DEFAULT_OPTIONS & FIXED_BITS == DEFAULT_OPTIONS,
        DEFAULT_OPTIONS & 0x8000 == 0,
        DEFAULT_OPTIONS & 0x0100 == 0,
        DEFAULT_OPTIONS & 7 == 0,
{
    assert(0x0e00u16 & 0x7ef8 == 0x0e00 && 0x0e00u16 & 0x8000 == 0 && 0x0e00u16 & 0x0100 == 0
        && 0x0e00u16 & 7 == 0) by (bit_vector);
}

/// An options word with the fixed pattern is the word of what it says: the
/// three fields fix all sixteen bits.
pub proof fn lemma_options_word(opts: EntryOption)
    requires
        opts.wf(),
    ensures
        opts.bits() == opts@.word(),
{
    let w = opts.bits();
    let present: u16 = if w & 0x8000 != 0 {
        0x8000
    } else {
        0
    };
    let trap: u16 = if w & 0x0100 == 0 {
        0
    } else {
        0x0100
    };
    let stack: u16 = w & 7;
    assert(w & 0x8000 == 0 || w & 0x8000 == 0x8000) by (bit_vector);
    assert(w & 0x0100 == 0 || w & 0x0100 == 0x0100) by (bit_vector);
    assert(w & 7 <= 7) by (bit_vector);
    assert(w == 0x0e00 | (w & 0x8000) | (w & 0x0100) | (w & 7)) by (bit_vector)
        requires
            w & 0x7ef8 == 0x0e00,
    ;
    assert(present == w & 0x8000);
    assert(trap == w & 0x0100);
    assert(opts@.word() == DEFAULT_OPTIONS | present | trap | stack);
}

/// One descriptor as the CPU reads it: the handler's address in three
/// pieces, the code segment to run it in, and the options word.
#[derive(Debug, Clone, Copy, PartialEq, Eq, Structural)]
pub struct Gate {
    /// Bits 0 to 15 of the handler's address.
    pub addr_low: u16,
    /// Selector of the handler's code segment.
    pub selector: u16,
    /// The options word.
    pub options: u16,
    /// Bits 16 to 31 of the handler's address.
    pub addr_mid: u16,
    /// Bits 32 to 63 of the handler's address.
    pub addr_high: u32,
    /// Reserved by the architecture. It is zero in every slot of a table.
    pub reserved: u32,
}

/// Bits 0 to 15 of an address.
pub open spec fn addr_low(addr: u64) -> u16 {
    (addr & 0xffff) as u16
}

/// Bits 16 to 31 of an address.
pub open spec fn addr_mid(addr: u64) -> u16 {
    ((addr >> 16) & 0xffff) as u16
}

/// Bits 32 to 63 of an address.
pub open spec fn addr_high(addr: u64) -> u32 {
    (addr >> 32) as u32
}

impl Gate {
    /// The descriptor of a slot without handler.
    pub open spec fn missing() -> Gate {
        Gate {
            addr_low: 0,
            selector: 0,
            options: DEFAULT_OPTIONS,
            addr_mid: 0,
            addr_high: 0,
            reserved: 0,
        }
    }

    /// This descriptor once it points at the handler at `addr`, to be run in
    /// the code segment `selector`.
    pub open spec fn with_handler(self, addr: u64, selector: u16) -> Gate {
        Gate {
            addr_low: addr_low(addr),
            selector,
            options: with_bit(self.options, PRESENT_BIT, true),
            addr_mid: addr_mid(addr),
            addr_high: addr_high(addr),
            reserved: self.reserved,
        }
    }

    /// The handler's address, put together from its three pieces.
    pub open spec fn spec_handler_addr(&self) -> u64 {
        (self.addr_low as u64) | ((self.addr_mid as u64) << 16) | ((self.addr_high as u64) << 32)
    }

    /// Whether the CPU may use the descriptor.
    pub open spec fn spec_present(&self) -> bool {
        self.options & 0x8000 != 0
    }

    #[verifier::when_used_as_spec(spec_handler_addr)]
    pub fn handler_addr(&self) -> (addr: u64)
        ensures
            addr == self.handler_addr(),
    {
        (self.addr_low as u64) | ((self.addr_mid as u64) << 16) | ((self.addr_high as u64) << 32)
    }

    #[verifier::when_used_as_spec(spec_present)]
    pub fn present(&self) -> (present: bool)
        ensures
            present == self.present(),
    {
        self.options & 0x8000 != 0
    }

    /// The sixteen bytes of the descriptor in memory: the fields in their
    /// order, each with its low byte first.
    pub open spec fn spec_to_bytes(&self) -> Seq<u8> {
        le_bytes_u16(self.addr_low) + le_bytes_u16(self.selector) + le_bytes_u16(self.options)
            + le_bytes_u16(self.addr_mid) + le_bytes_u32(self.addr_high) + le_bytes_u32(
            self.reserved,
        )
    }

    /// The sixteen bytes of the descriptor in memory.
    pub fn to_bytes(&self) -> (bytes: [u8; 16])
        ensures
            bytes@ == self.spec_to_bytes(),
    {
        let low = le_u16(self.addr_low);
        let selector = le_u16(self.selector);
        let options = le_u16(self.options);
        let mid = le_u16(self.addr_mid);
        let high = le_u32(self.addr_high);
        let reserved = le_u32(self.reserved);
        let bytes = [
            low[0],
            low[1],
            selector[0],
            selector[1],
            options[0],
            options[1],
            mid[0],
            mid[1],
            high[0],
            high[1],
            high[2],
            high[3],
            reserved[0],
            reserved[1],
            reserved[2],
            reserved[3],
        ];
        assert(bytes@ =~= self.spec_to_bytes());
        bytes
    }
}

/// Splitting an address into the three pieces of a descriptor and putting
/// them together again gives the address back, whatever the address, the
/// selector and the descriptor were. The descriptor then is present and
/// holds the selector.
pub proof fn lemma_handler_addr_round_trip(gate: Gate, addr: u64, selector: u16)
    ensures
        gate.with_handler(addr, selector).handler_addr() == addr,
        gate.with_handler(addr, selector).selector == selector,
        gate.with_handler(addr, selector).present(),
{
    let low = (addr & 0xffff) as u16;
    let mid = ((addr >> 16) & 0xffff) as u16;
    let high = (addr >> 32) as u32;
    assert((low as u64) | ((mid as u64) << 16) | ((high as u64) << 32) == addr) by (bit_vector)
        requires
            low == (addr & 0xffff) as u16,
            mid == ((addr >> 16) & 0xffff) as u16,
            high == (addr >> 32) as u32,
    ;
    lemma_with_bit_15(gate.options, true);
}

/// A slot without handler is not present.
pub proof fn lemma_missing_is_absent()
    ensures
        !Gate::missing().present(),
        Gate::missing().handler_addr() == 0,
{
    lemma_default_options();
    assert((0u16 as u64) | ((0u16 as u64) << 16) | ((0u32 as u64) << 32) == 0) by (bit_vector);
}

/// One slot of the table. `F` is the kind of handler that the slot's vector
/// calls, so that a handler of another kind is refused when the caller is
/// compiled.
#[derive(Debug, PartialEq)]
pub struct Entry<F> {
    p_low: u16,
    gdt_selector: u16,
    option: EntryOption,
    p_mid: u16,
    p_high: u32,
    phantom: PhantomData<F>,
}

impl<F> Clone for Entry<F> {
    fn clone(&self) -> (copy: Self)
        ensures
            copy == *self,
    {
        *self
    }
}

impl<F> Copy for Entry<F> {

}

impl<F> Entry<F> {
    /// The descriptor that the slot holds.
    pub closed spec fn view(&self) -> Gate {
        Gate {
            addr_low: self.p_low,
            selector: self.gdt_selector,
            options: self.option.bits(),
            addr_mid: self.p_mid,
            addr_high: self.p_high,
            reserved: 0,
        }
    }

    /// A slot without handler.
    pub fn missing() -> (entry: Self)
        ensures
            entry@ == Gate::missing(),
            !entry@.present(),
    {
        proof {
            lemma_missing_is_absent();
        }
        Entry {
            gdt_selector: 0,
            p_low: 0,
            p_mid: 0,
            p_high: 0,
            option: EntryOption::new(),
            phantom: PhantomData,
        }
    }

    /// The descriptor that the slot holds.
    pub fn gate(&self) -> (gate: Gate)
        ensures
            gate == self@,
            gate.reserved == 0,
    {
        Gate {
            addr_low: self.p_low,
            selector: self.gdt_selector,
            options: self.option.bits(),
            addr_mid: self.p_mid,
            addr_high: self.p_high,
            reserved: 0,
        }
    }

    /// Points the slot at the handler at `addr`, to be run in the code
    /// segment `selector`, and marks it present. The options come back for
    /// further changes.
    fn set_handler_addr(&mut self, addr: u64, selector: u16) -> (ret: &mut EntryOption)
        ensures
            ret.bits() == old(self)@.with_handler(addr, selector).options,
            final(self)@ == (Gate {
                options: final(ret).bits(),
                ..old(self)@.with_handler(addr, selector)
            }),
            final(self)@.handler_addr() == addr,
            final(self)@.selector == selector,
            *final(ret) == *ret ==> final(self)@.present(),
    {
        proof {
            lemma_handler_addr_round_trip(self@, addr, selector);
            assert(addr & 0xffff <= 0xffff && (addr >> 16) & 0xffff <= 0xffff && addr >> 32
                <= 0xffff_ffff) by (bit_vector);
        }
        self.p_low = (addr & 0xffff) as u16;
        self.p_mid = ((addr >> 16) & 0xffff) as u16;
        self.p_high = (addr >> 32) as u32;
        self.gdt_selector = selector;
        self.option.set_present(true);
        &mut self.option
    }
}

impl Entry<HandlerFunc> {
    /// Registers `handler` for the slot's vector. `selector` is the code
    /// segment that the handler runs in: the value of the `cs` register at
    /// the time of the call.
    pub fn set_handler_fn(&mut self, handler: HandlerFunc, selector: u16) -> (ret: &mut EntryOption)
        ensures
            ret.bits() == old(self)@.with_handler(handler.0, selector).options,
            final(self)@ == (Gate {
                options: final(ret).bits(),
                ..old(self)@.with_handler(handler.0, selector)
            }),
            final(self)@.handler_addr() == handler.0,
            final(self)@.selector == selector,
            ret@.present,
            *final(ret) == *ret ==> final(self)@.present(),
    {
        proof {
            lemma_handler_addr_round_trip(self@, handler.0, selector);
        }
        self.set_handler_addr(handler.0, selector)
    }
}

impl Entry<HandlerFuncWithErrCode> {
    /// Registers `handler` for the slot's vector. `selector` is the code
    /// segment that the handler runs in: the value of the `cs` register at
    /// the time of the call.
    pub fn set_handler_fn(&mut self, handler: HandlerFuncWithErrCode, selector: u16) -> (ret:
        &mut EntryOption)
        ensures
            ret.bits() == old(self)@.with_handler(handler.0, selector).options,
            final(self)@ == (Gate {
                options: final(ret).bits(),
                ..old(self)@.with_handler(handler.0, selector)
            }),
            final(self)@.handler_addr() == handler.0,
            final(self)@.selector == selector,
            ret@.present,
            *final(ret) == *ret ==> final(self)@.present(),
    {
        proof {
            lemma_handler_addr_round_trip(self@, handler.0, selector);
        }
        self.set_handler_addr(handler.0, selector)
    }
}

impl Entry<PageFaultHandlerFunc> {
    /// Registers `handler` for the slot's vector. `selector` is the code
    /// segment that the handler runs in: the value of the `cs` register at
    /// the time of the call.
    pub fn set_handler_fn(&mut self, handler: PageFaultHandlerFunc, selector: u16) -> (ret:
        &mut EntryOption)
        ensures
            ret.bits() == old(self)@.with_handler(handler.0, selector).options,
            final(self)@ == (Gate {
                options: final(ret).bits(),
                ..old(self)@.with_handler(handler.0, selector)
            }),
            final(self)@.handler_addr() == handler.0,
            final(self)@.selector == selector,
            ret@.present,
            *final(ret) == *ret ==> final(self)@.present(),
    {
        proof {
            lemma_handler_addr_round_trip(self@, handler.0, selector);
        }
        self.set_handler_addr(handler.0, selector)
    }
}

/// The table of the 256 gates, by vector: 32 exceptions that the
/// architecture fixes, then 224 interrupts for general use.
pub struct InterruptTable {
    pub divide_by_zero: Entry<HandlerFunc>,
    pub debug: Entry<HandlerFunc>,
    pub non_maskable_interrupt: Entry<HandlerFunc>,
    pub breakpoint: Entry<HandlerFunc>,
    pub overflow: Entry<HandlerFunc>,
    pub bound_range_exceeded: Entry<HandlerFunc>,
    pub invalid_opcode: Entry<HandlerFunc>,
    pub device_not_available: Entry<HandlerFunc>,
    pub double_fault: Entry<HandlerFuncWithErrCode>,
    pub(crate) coprocessor_segment_overrun: Entry<HandlerFunc>,
    pub invalid_tss: Entry<HandlerFuncWithErrCode>,
    pub segment_not_present: Entry<HandlerFuncWithErrCode>,
    pub stack_segment_fault: Entry<HandlerFuncWithErrCode>,
    pub general_protection_fault: Entry<HandlerFuncWithErrCode>,
    pub page_fault: Entry<PageFaultHandlerFunc>,
    pub(crate) reserved_1: Entry<HandlerFunc>,
    pub x87_floating_point: Entry<HandlerFunc>,
    pub alignment_check: Entry<HandlerFuncWithErrCode>,
    pub machine_check: Entry<HandlerFunc>,
    pub simd_floating_point: Entry<HandlerFunc>,
    pub virtualization: Entry<HandlerFunc>,
    pub(crate) reserved_2: [Entry<HandlerFunc>; 9],
    pub security_exception: Entry<HandlerFuncWithErrCode>,
    pub(crate) reserved_3: Entry<HandlerFunc>,
    pub(crate) interrupts: [Entry<HandlerFunc>; 224],
}

impl Clone for InterruptTable {
    fn clone(&self) -> (copy: Self)
        ensures
            copy@ == self@,
    {
        let copy = InterruptTable {
            divide_by_zero: self.divide_by_zero,
            debug: self.debug,
            non_maskable_interrupt: self.non_maskable_interrupt,
            breakpoint: self.breakpoint,
            overflow: self.overflow,
            bound_range_exceeded: self.bound_range_exceeded,
            invalid_opcode: self.invalid_opcode,
            device_not_available: self.device_not_available,
            double_fault: self.double_fault,
            coprocessor_segment_overrun: self.coprocessor_segment_overrun,
            invalid_tss: self.invalid_tss,
            segment_not_present: self.segment_not_present,
            stack_segment_fault: self.stack_segment_fault,
            general_protection_fault: self.general_protection_fault,
            page_fault: self.page_fault,
            reserved_1: self.reserved_1,
            x87_floating_point: self.x87_floating_point,
            alignment_check: self.alignment_check,
            machine_check: self.machine_check,
            simd_floating_point: self.simd_floating_point,
            virtualization: self.virtualization,
            reserved_2: self.reserved_2,
            security_exception: self.security_exception,
            reserved_3: self.reserved_3,
            interrupts: self.interrupts,
        };
        assert(copy@ =~= self@);
        copy
    }
}

impl InterruptTable {
    /// The descriptor of vector `vector`.
    pub open(crate) spec fn slot(&self, vector: int) -> Gate {
        if vector == 0 {
            self.divide_by_zero@
        } else if vector == 1 {
            self.debug@
        } else if vector == 2 {
            self.non_maskable_interrupt@
        } else if vector == 3 {
            self.breakpoint@
        } else if vector == 4 {
            self.overflow@
        } else if vector == 5 {
            self.bound_range_exceeded@
        } else if vector == 6 {
            self.invalid_opcode@
        } else if vector == 7 {
            self.device_not_available@
        } else if vector == 8 {
            self.double_fault@
        } else if vector == 9 {
            self.coprocessor_segment_overrun@
        } else if vector == 10 {
            self.invalid_tss@
        } else if vector == 11 {
            self.segment_not_present@
        } else if vector == 12 {
            self.stack_segment_fault@
        } else if vector == 13 {
            self.general_protection_fault@
        } else if vector == 14 {
            self.page_fault@
        } else if vector == 15 {
            self.reserved_1@
        } else if vector == 16 {
            self.x87_floating_point@
        } else if vector == 17 {
            self.alignment_check@
        } else if vector == 18 {
            self.machine_check@
        } else if vector == 19 {
            self.simd_floating_point@
        } else if vector == 20 {
            self.virtualization@
        } else if vector < 30 {
            self.reserved_2[vector - 21]@
        } else if vector == 30 {
            self.security_exception@
        } else if vector == 31 {
            self.reserved_3@
        } else {
            self.interrupts[vector - 32]@
        }
    }

    /// The 256 descriptors in the order of their vectors.
    pub open(crate) spec fn view(&self) -> Seq<Gate> {
        Seq::new(ENTRY_COUNT as nat, |vector: int| self.slot(vector))
    }

    /// The descriptors of a table without handlers.
    pub open spec fn all_missing() -> Seq<Gate> {
        Seq::new(ENTRY_COUNT as nat, |vector: int| Gate::missing())
    }

    /// A table in which no vector has a handler.
    pub fn new() -> (table: InterruptTable)
        ensures
            table@ == Self::all_missing(),
            table@.len() == ENTRY_COUNT,
            forall|vector: int|
                0 <= vector < ENTRY_COUNT ==> !(#[trigger] table@[vector]).present(),
    {
        proof {
            lemma_missing_is_absent();
        }
        InterruptTable {
            divide_by_zero: Entry::missing(),
            debug: Entry::missing(),
            non_maskable_interrupt: Entry::missing(),
            breakpoint: Entry::missing(),
            overflow: Entry::missing(),
            bound_range_exceeded: Entry::missing(),
            invalid_opcode: Entry::missing(),
            device_not_available: Entry::missing(),
            double_fault: Entry::missing(),
            coprocessor_segment_overrun: Entry::missing(),
            invalid_tss: Entry::missing(),
            segment_not_present: Entry::missing(),
            stack_segment_fault: Entry::missing(),
            general_protection_fault: Entry::missing(),
            page_fault: Entry::missing(),
            reserved_1: Entry::missing(),
            x87_floating_point: Entry::missing(),
            alignment_check: Entry::missing(),
            machine_check: Entry::missing(),
            simd_floating_point: Entry::missing(),
            virtualization: Entry::missing(),
            reserved_2: [Entry::missing();9],
            security_exception: Entry::missing(),
            reserved_3: Entry::missing(),
            interrupts: [Entry::missing();224],
        }
    }

    /// Takes every handler out of the table.
    pub fn reset(&mut self)
        ensures
            final(self)@ == Self::all_missing(),
            final(self)@.len() == ENTRY_COUNT,
            forall|vector: int|
                0 <= vector < ENTRY_COUNT ==> !(#[trigger] final(self)@[vector]).present(),
    {
        proof {
            lemma_missing_is_absent();
        }
        self.divide_by_zero = Entry::missing();
        self.debug = Entry::missing();
        self.non_maskable_interrupt = Entry::missing();
        self.breakpoint = Entry::missing();
        self.overflow = Entry::missing();
        self.bound_range_exceeded = Entry::missing();
        self.invalid_opcode = Entry::missing();
        self.device_not_available = Entry::missing();
        self.double_fault = Entry::missing();
        self.coprocessor_segment_overrun = Entry::missing();
        self.invalid_tss = Entry::missing();
        self.segment_not_present = Entry::missing();
        self.stack_segment_fault = Entry::missing();
        self.general_protection_fault = Entry::missing();
        self.page_fault = Entry::missing();
        self.reserved_1 = Entry::missing();
        self.x87_floating_point = Entry::missing();
        self.alignment_check = Entry::missing();
        self.machine_check = Entry::missing();
        self.simd_floating_point = Entry::missing();
        self.virtualization = Entry::missing();
        self.reserved_2 = [Entry::missing();9];
        self.security_exception = Entry::missing();
        self.reserved_3 = Entry::missing();
        self.interrupts = [Entry::missing();224];
    }

    /// The slot of an interrupt for general use, to register its handler.
    /// The vectors below 32 belong to the exceptions and have their fields.
    pub fn interrupt(&mut self, vector: u8) -> (entry: &mut Entry<HandlerFunc>)
        requires
            vector >= 32,
        ensures
            entry@ == old(self)@[vector as int],
            final(self)@ == old(self)@.update(vector as int, final(entry)@),
    {
        &mut self.interrupts[(vector - 32) as usize]
    }

    /// The descriptor of vector `vector`.
    pub fn gate(&self, vector: u8) -> (gate: Gate)
        ensures
            gate == self@[vector as int],
            gate.reserved == 0,
    {
        match vector {
            0 => self.divide_by_zero.gate(),
            1 => self.debug.gate(),
            2 => self.non_maskable_interrupt.gate(),
            3 => self.breakpoint.gate(),
            4 => self.overflow.gate(),
            5 => self.bound_range_exceeded.gate(),
            6 => self.invalid_opcode.gate(),
            7 => self.device_not_available.gate(),
            8 => self.double_fault.gate(),
            9 => self.coprocessor_segment_overrun.gate(),
            10 => self.invalid_tss.gate(),
            11 => self.segment_not_present.gate(),
            12 => self.stack_segment_fault.gate(),
            13 => self.general_protection_fault.gate(),
            14 => self.page_fault.gate(),
            15 => self.reserved_1.gate(),
            16 => self.x87_floating_point.gate(),
            17 => self.alignment_check.gate(),
            18 => self.machine_check.gate(),
            19 => self.simd_floating_point.gate(),
            20 => self.virtualization.gate(),
            21..=29 => self.reserved_2[(vector - 21) as usize].gate(),
            30 => self.security_exception.gate(),
            31 => self.reserved_3.gate(),
            _ => self.interrupts[(vector - 32) as usize].gate(),
        }
    }

    /// The table as it lies in memory: the sixteen bytes of each descriptor,
    /// in the order of the vectors.
    pub fn to_bytes(&self) -> (bytes: [u8; TABLE_SIZE])
        ensures
            bytes@.len() == ENTRY_COUNT * ENTRY_SIZE,
            forall|i: int|
                0 <= i < TABLE_SIZE ==> #[trigger] bytes@[i] == self@[i / 16].spec_to_bytes()[i
                    % 16],
    {
        let mut bytes = [0u8;TABLE_SIZE];
        let mut vector: usize = 0;
        while vector < ENTRY_COUNT
            invariant
                vector <= ENTRY_COUNT,
                forall|i: int|
                    0 <= i < ENTRY_SIZE * vector ==> #[trigger] bytes@[i] == self@[i
                        / 16].spec_to_bytes()[i % 16],
            decreases ENTRY_COUNT - vector,
        {
            let gate = self.gate(vector as u8).to_bytes();
            let mut k: usize = 0;
            while k < ENTRY_SIZE
                invariant
                    vector < ENTRY_COUNT,
                    k <= ENTRY_SIZE,
                    gate@ == self@[vector as int].spec_to_bytes(),
                    forall|i: int|
                        0 <= i < ENTRY_SIZE * vector + k ==> #[trigger] bytes@[i] == self@[i
                            / 16].spec_to_bytes()[i % 16],
                decreases ENTRY_SIZE - k,
            {
                bytes[ENTRY_SIZE * vector + k] = gate[k];
                k += 1;
            }
            vector += 1;
        }
        bytes
    }

    /// The record to load the table with, once its descriptors lie at
    /// `base` in the order of their vectors.
    ///
    /// The CPU wants the table aligned to 16 bytes, and in place for as long
    /// as a trap can come. Loading it is the caller's part.
    pub fn load(&self, base: u64) -> (pointer: TablePointer)
        requires
            base % 16 == 0,
        ensures
            pointer.base == base,
            pointer.limit == ENTRY_COUNT * ENTRY_SIZE - 1,
    {
        TablePointer { limit: (TABLE_SIZE - 1) as u16, base }
    }
}

} // verus!
