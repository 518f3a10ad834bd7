//! The interrupt table and the routines it dispatches to.

use vstd::prelude::*;
use crate::apic::{
    kernel_vectors, ApicInterruptIndex, IrqVector, IOAPIC_IRQ_OFFSET, PIC_PRIMARY_OFFSET,
    PIC_SECONDARY_OFFSET,
};
use crate::effect::{Effect, Fatal};
use crate::gdt::{kernel_stacks, Selectors, DOUBLE_FAULT_IST_INDEX};

pub mod handlers;

verus! {

/// Number of vectors that the processor can raise.
pub const VECTOR_COUNT: usize = 256;

/// Vector of the breakpoint exception.
pub const BREAKPOINT_VECTOR: u8 = 3;

/// Vector of the double-fault exception.
pub const DOUBLE_FAULT_VECTOR: u8 = 8;

/// Vector of the general-protection exception.
pub const GENERAL_PROTECTION_VECTOR: u8 = 13;

/// Vector of the page-fault exception.
pub const PAGE_FAULT_VECTOR: u8 = 14;

/// The registers that the processor saves before it enters a handler.
#[derive(Clone, Copy, Debug, PartialEq, Eq, Structural)]
pub struct StackFrame {
    /// Where execution goes on when the handler returns.
    pub instruction_pointer: u64,
    /// The code segment selector, padded with zeros.
    pub code_segment: u64,
    /// The flags register as it was before the handler was entered.
    pub cpu_flags: u64,
    /// The stack pointer as it was before the handler was entered.
    pub stack_pointer: u64,
    /// The stack segment selector, padded with zeros.
    pub stack_segment: u64,
}

/// The table that a segment selector refers to.
#[derive(Clone, Copy, Debug, PartialEq, Eq, Structural)]
pub enum DescriptorTable {
    /// The global descriptor table.
    Gdt,
    /// The interrupt descriptor table.
    Idt,
    /// The local descriptor table.
    Ldt,
}

/// The parts of an error code that refers to a segment selector.
#[derive(Clone, Copy, Debug, PartialEq, Eq, Structural)]
pub struct SelectorError {
    /// Whether the fault came while an event external to the program was
    /// delivered: bit 0 of the code.
    pub external: bool,
    /// The table that the selector refers to: bits 1 and 2 of the code.
    pub table: DescriptorTable,
    /// The index of the selector in that table: bits 3 to 12 of the code.
    pub index: u64,
}

/// The table that the two-bit field `field` of an error code stands for. The
/// interrupt table has two encodings, 1 and 3.
pub open spec fn table_of(field: int) -> DescriptorTable {
    if field == 0 {
        DescriptorTable::Gdt
    } else if field == 2 {
        DescriptorTable::Ldt
    } else {
        DescriptorTable::Idt
    }
}

/// The parts of `error_code`; none for the code zero, which refers to no
/// selector.
pub open spec fn selector_error(error_code: u64) -> Option<SelectorError> {
    if error_code == 0 {
        None
    } else {
        Some(
            SelectorError {
                external: error_code % 2 == 1,
                table: table_of(((error_code / 2) % 4) as int),
                index: ((error_code / 8) % 1024) as u64,
            },
        )
    }
}

/// Takes an error code that refers to a segment selector apart.
pub fn decode_selector_error(error_code: u64) -> (decoded: Option<SelectorError>)
    ensures
        decoded == selector_error(error_code),
{
    if error_code > 0 {
        let external_bit: u64 = error_code & 1;
        let field: u64 = (error_code & 0b110) >> 1;
        let index: u64 = (error_code & 0b1_1111_1111_1111) >> 3;
        assert(external_bit == error_code % 2) by (bit_vector)
            requires
                external_bit == error_code & 1,
        ;
        assert(field == (error_code / 2) % 4) by (bit_vector)
            requires
                field == (error_code & 0b110) >> 1,
        ;
        assert(index == (error_code / 8) % 1024) by (bit_vector)
            requires
                index == (error_code & 0b1_1111_1111_1111) >> 3,
        ;
        let table = if field == 0 {
            DescriptorTable::Gdt
        } else if field == 2 {
            DescriptorTable::Ldt
        } else {
            DescriptorTable::Idt
        };
        Some(SelectorError { external: external_bit == 1, table, index })
    } else {
        None
    }
}

/// A routine that the interrupt table can dispatch to.
#[derive(Clone, Copy, Debug, PartialEq, Eq, Structural)]
pub enum Handler {
    /// [`handlers::breakpoint`].
    Breakpoint,
    /// [`handlers::page_fault`].
    PageFault,
    /// [`handlers::general_protection`].
    GeneralProtection,
    /// [`handlers::double_fault`].
    DoubleFault,
    /// [`handlers::timer`].
    Timer,
    /// [`handlers::keyboard`].
    Keyboard,
    /// [`handlers::error`].
    Error,
    /// [`handlers::spurious`].
    Spurious,
}

/// One entry of the interrupt table.
#[derive(Clone, Copy, Debug, PartialEq, Eq, Structural)]
pub enum Entry {
    /// No routine is bound to the vector.
    Missing,
    /// A routine is bound to the vector. With a stack index, the processor
    /// switches to that stack of the interrupt stack table before it enters
    /// the routine.
    Present { handler: Handler, stack: Option<u16> },
}

impl Handler {
    /// What the routine does for a given saved frame and error code. A vector
    /// that pushes no error code is dispatched with any.
    pub open spec fn effects(self, stack_frame: StackFrame, error_code: u64) -> Seq<Effect> {
        match self {
            Handler::Breakpoint => handlers::breakpoint_effects(stack_frame),
            Handler::PageFault => handlers::page_fault_effects(stack_frame, error_code),
            Handler::GeneralProtection => handlers::general_protection_effects(error_code),
            Handler::DoubleFault => handlers::double_fault_effects(stack_frame, error_code),
            Handler::Timer => handlers::timer_effects(),
            Handler::Keyboard => handlers::keyboard_effects(),
            Handler::Error => handlers::error_effects(stack_frame),
            Handler::Spurious => handlers::spurious_effects(stack_frame),
        }
    }

    /// Runs the routine.
    pub fn run(self, stack_frame: StackFrame, error_code: u64) -> (effects: Vec<Effect>)
        ensures
            effects@ == self.effects(stack_frame, error_code),
    {
        match self {
            Handler::Breakpoint => handlers::breakpoint(stack_frame),
            Handler::PageFault => handlers::page_fault(stack_frame, error_code),
            Handler::GeneralProtection => handlers::general_protection(stack_frame, error_code),
            Handler::DoubleFault => handlers::double_fault(stack_frame, error_code),
            Handler::Timer => handlers::timer(stack_frame),
            Handler::Keyboard => handlers::keyboard(stack_frame),
            Handler::Error => handlers::error(stack_frame),
            Handler::Spurious => handlers::spurious(stack_frame),
        }
    }
}

/// The entry that the kernel binds to `vector`: the handlers of four exceptions
/// and of the four vectors of the interrupt controllers, the double fault on
/// its own stack, and nothing anywhere else.
pub open spec fn kernel_entry(vector: int) -> Entry {
    if vector == BREAKPOINT_VECTOR {
        Entry::Present { handler: Handler::Breakpoint, stack: None }
    } else if vector == PAGE_FAULT_VECTOR {
        Entry::Present { handler: Handler::PageFault, stack: None }
    } else if vector == GENERAL_PROTECTION_VECTOR {
        Entry::Present { handler: Handler::GeneralProtection, stack: None }
    } else if vector == DOUBLE_FAULT_VECTOR {
        Entry::Present { handler: Handler::DoubleFault, stack: Some(DOUBLE_FAULT_IST_INDEX) }
    } else if vector == ApicInterruptIndex::Timer.vector() {
        Entry::Present { handler: Handler::Timer, stack: None }
    } else if vector == ApicInterruptIndex::Keyboard.vector() {
        Entry::Present { handler: Handler::Keyboard, stack: None }
    } else if vector == ApicInterruptIndex::Error.vector() {
        Entry::Present { handler: Handler::Error, stack: None }
    } else if vector == ApicInterruptIndex::Spurious.vector() {
        Entry::Present { handler: Handler::Spurious, stack: None }
    } else {
        Entry::Missing
    }
}

/// The entries of the kernel's interrupt table.
pub open spec fn kernel_entries() -> Seq<Entry> {
    Seq::new(VECTOR_COUNT as nat, |vector: int| kernel_entry(vector))
}

/// The interrupt table: one entry for each of the 256 vectors.
pub struct InterruptTable {
    entries: [Entry; 256],
}

impl View for InterruptTable {
    type V = Seq<Entry>;

    closed spec fn view(&self) -> Seq<Entry> {
        self.entries@
    }
}

impl InterruptTable {
    /// A table with no routine bound to any vector.
    pub fn new() -> (table: Self)
        ensures
            table@ == Seq::new(VECTOR_COUNT as nat, |vector: int| Entry::Missing),
    {
        let table = InterruptTable { entries: [Entry::Missing;256] };
        assert(table@ =~= Seq::new(VECTOR_COUNT as nat, |vector: int| Entry::Missing));
        table
    }

    /// Every table has 256 entries.
    pub proof fn lemma_len(&self)
        ensures
            self@.len() == VECTOR_COUNT,
    {
    }

    /// The entry of `vector`.
    pub fn entry(&self, vector: u8) -> (entry: Entry)
        ensures
            entry == self@[vector as int],
    {
        self.entries[vector as usize]
    }

    /// Binds `handler` to `vector`, on the stack in use when the vector is
    /// raised.
    pub fn set_handler(&mut self, vector: u8, handler: Handler)
        ensures
            final(self)@ == old(self)@.update(
                vector as int,
                Entry::Present { handler, stack: None },
            ),
    {
        self.entries[vector as usize] = Entry::Present { handler, stack: None };
    }

    /// Gives the routine bound to `vector` the stack `index` of the interrupt
    /// stack table, which has seven. A vector without a routine stays as it is.
    pub fn set_stack_index(&mut self, vector: u8, index: u16)
        requires
            index < 7,
        ensures
            final(self)@ == match old(self)@[vector as int] {
                Entry::Present { handler, stack } => old(self)@.update(
                    vector as int,
                    Entry::Present { handler, stack: Some(index) },
                ),
                Entry::Missing => old(self)@,
            },
    {
        match self.entries[vector as usize] {
            Entry::Present { handler, stack: _ } => {
                self.entries[vector as usize] = Entry::Present { handler, stack: Some(index) };
            },
            Entry::Missing => {},
        }
    }
}

/// Builds the kernel's interrupt table.
pub fn interrupt_table() -> (table: InterruptTable)
    ensures
        table@ == kernel_entries(),
{
    let mut table = InterruptTable::new();
    table.set_handler(BREAKPOINT_VECTOR, Handler::Breakpoint);
    table.set_handler(PAGE_FAULT_VECTOR, Handler::PageFault);
    table.set_handler(GENERAL_PROTECTION_VECTOR, Handler::GeneralProtection);
    table.set_handler(DOUBLE_FAULT_VECTOR, Handler::DoubleFault);
    table.set_stack_index(DOUBLE_FAULT_VECTOR, DOUBLE_FAULT_IST_INDEX);
    table.set_handler(ApicInterruptIndex::Timer.vector(), Handler::Timer);
    table.set_handler(ApicInterruptIndex::Keyboard.vector(), Handler::Keyboard);
    table.set_handler(ApicInterruptIndex::Error.vector(), Handler::Error);
    table.set_handler(ApicInterruptIndex::Spurious.vector(), Handler::Spurious);
    assert(table@ =~= kernel_entries());
    table
}

/// What the processor is to do once the tables are built: take the segment
/// table into use, and after that the interrupt table.
pub open spec fn init_effects(selectors: Selectors) -> Seq<Effect> {
    crate::gdt::init_effects(selectors).push(Effect::LoadIdt)
}

/// Plans the loading of the descriptor tables and of the interrupt table.
///
/// The segment table comes first: a double fault, once the interrupt table is
/// in use, needs the stack that the task register leads to.
pub fn init(selectors: &Selectors) -> (effects: Vec<Effect>)
    ensures
        effects@ == init_effects(*selectors),
{
    let mut effects = crate::gdt::init(selectors);
    effects.push(Effect::LoadIdt);
    effects
}

/// What raising `vector` leads to with the entries `entries`: the effects of the
/// routine bound to the vector, or nothing where the entry is missing.
pub open spec fn dispatch_effects(
    entries: Seq<Entry>,
    vector: u8,
    stack_frame: StackFrame,
    error_code: u64,
) -> Option<Seq<Effect>> {
    match entries[vector as int] {
        Entry::Present { handler, stack } => Some(handler.effects(stack_frame, error_code)),
        Entry::Missing => None,
    }
}

/// Does what the processor does when `vector` is raised: looks the entry up and
/// runs the routine bound to it. Where the entry is missing, no routine runs
/// and the result is `None`.
pub fn dispatch(
    table: &InterruptTable,
    vector: u8,
    stack_frame: StackFrame,
    error_code: u64,
) -> (outcome: Option<Vec<Effect>>)
    ensures
        match dispatch_effects(table@, vector, stack_frame, error_code) {
            Some(effects) => outcome matches Some(done) && done@ == effects,
            None => outcome is None,
        },
{
    match table.entry(vector) {
        Entry::Present { handler, stack: _ } => Some(handler.run(stack_frame, error_code)),
        Entry::Missing => None,
    }
}

/// How many of `effects` acknowledge an interrupt.
pub open spec fn acknowledgements(effects: Seq<Effect>) -> nat
    decreases effects.len(),
{
    if effects.len() == 0 {
        0
    } else {
        acknowledgements(effects.drop_last()) + if effects.last() is EndOfInterrupt {
            1nat
        } else {
            0nat
        }
    }
}

/// Whether the interrupted code goes on after `effects`: none of them is
/// final.
pub open spec fn resumes(effects: Seq<Effect>) -> bool {
    forall|i: int| 0 <= i < effects.len() ==> !(#[trigger] effects[i]).is_final()
}

/// Whether `effects` report something and then stop the processor for good:
/// console writes, at least one, and after them one final effect.
pub open spec fn reports_and_stops(effects: Seq<Effect>) -> bool {
    &&& effects.len() >= 2
    &&& effects.last().is_final()
    &&& forall|i: int| 0 <= i < effects.len() - 1 ==> (#[trigger] effects[i]) is Print
}

impl Handler {
    /// Whether the routine serves an interrupt of the interrupt controllers,
    /// not an exception of the processor.
    pub open spec fn serves_controller(self) -> bool {
        self is Timer || self is Keyboard || self is Error || self is Spurious
    }

    /// Whether the fault that the routine serves cannot be recovered from.
    pub open spec fn is_fatal(self) -> bool {
        self is GeneralProtection || self is DoubleFault
    }
}

/// The kernel's table binds a routine to exactly eight vectors: breakpoint,
/// double fault, general protection, page fault, and the four vectors of the
/// interrupt controllers. The double fault alone has a stack of its own. Every
/// other entry is missing.
pub proof fn lemma_kernel_entries(vector: int)
    requires
        0 <= vector < VECTOR_COUNT,
    ensures
        kernel_entries().len() == VECTOR_COUNT,
        kernel_entries()[vector] is Present <==> (vector == 3 || vector == 8 || vector == 13 || vector
            == 14 || vector == 32 || vector == 33 || vector == 60 || vector == 61),
        kernel_entries()[vector] matches Entry::Present { handler, stack } ==> (stack.is_some()
            <==> vector == 8) && (handler.serves_controller() <==> vector >= 32),
        kernel_entries()[8] == (Entry::Present {
            handler: Handler::DoubleFault,
            stack: Some(DOUBLE_FAULT_IST_INDEX),
        }),
{
}

/// An interrupt of the interrupt controllers is acknowledged exactly once, as
/// the last thing that its routine does, and the interrupted code goes on. An
/// exception of the processor is never acknowledged.
pub proof fn lemma_acknowledged_once(handler: Handler, stack_frame: StackFrame, error_code: u64)
    ensures
        handler.serves_controller() ==> {
            let effects = handler.effects(stack_frame, error_code);
            &&& acknowledgements(effects) == 1
            &&& effects.last() == Effect::EndOfInterrupt
            &&& resumes(effects)
        },
        !handler.serves_controller() ==> acknowledgements(
            handler.effects(stack_frame, error_code),
        ) == 0,
{
    reveal_with_fuel(acknowledgements, 8);
    let effects = handler.effects(stack_frame, error_code);
    lemma_unfold_acknowledgements(effects);
}

/// `acknowledgements` on a list of at most six effects, written out.
proof fn lemma_unfold_acknowledgements(effects: Seq<Effect>)
    requires
        effects.len() <= 6,
    ensures
        acknowledgements(effects) == (if effects.len() > 0 && effects[0] is EndOfInterrupt {
            1nat
        } else {
            0nat
        }) + (if effects.len() > 1 && effects[1] is EndOfInterrupt {
            1nat
        } else {
            0nat
        }) + (if effects.len() > 2 && effects[2] is EndOfInterrupt {
            1nat
        } else {
            0nat
        }) + (if effects.len() > 3 && effects[3] is EndOfInterrupt {
            1nat
        } else {
            0nat
        }) + (if effects.len() > 4 && effects[4] is EndOfInterrupt {
            1nat
        } else {
            0nat
        }) + (if effects.len() > 5 && effects[5] is EndOfInterrupt {
            1nat
        } else {
            0nat
        }),
    decreases effects.len(),
{
    if effects.len() > 0 {
        lemma_unfold_acknowledgements(effects.drop_last());
    }
}

/// A general-protection fault and a double fault are reported and never
/// returned from: the first ends in a halt, the second in the kernel giving
/// up. After every other routine the interrupted code goes on.
pub proof fn lemma_fatal_faults_stop(handler: Handler, stack_frame: StackFrame, error_code: u64)
    ensures
        handler.is_fatal() ==> reports_and_stops(handler.effects(stack_frame, error_code))
            && !resumes(handler.effects(stack_frame, error_code)),
        !handler.is_fatal() ==> resumes(handler.effects(stack_frame, error_code)),
        handler is GeneralProtection ==> handler.effects(stack_frame, error_code).last()
            == Effect::Halt,
        handler is DoubleFault ==> handler.effects(stack_frame, error_code).last()
            == Effect::Panic(Fatal::DoubleFault),
{
    let effects = handler.effects(stack_frame, error_code);
    if handler.is_fatal() {
        assert(effects[effects.len() - 1].is_final());
    }
}

/// Raising a vector of the interrupt controllers on the kernel's table runs a
/// routine that acknowledges the interrupt exactly once, last of all, and the
/// interrupted code goes on.
pub proof fn lemma_controller_vectors_acknowledged(
    index: ApicInterruptIndex,
    stack_frame: StackFrame,
    error_code: u64,
)
    ensures
        dispatch_effects(kernel_entries(), index.vector(), stack_frame, error_code) matches Some(
            effects,
        ) && acknowledgements(effects) == 1 && effects.last() == Effect::EndOfInterrupt && resumes(
            effects,
        ),
{
    let entry = kernel_entries()[index.vector() as int];
    match entry {
        Entry::Present { handler, stack } => {
            lemma_acknowledged_once(handler, stack_frame, error_code);
        },
        Entry::Missing => {},
    }
}

/// Raising a double fault on the kernel's table runs a routine that reports
/// the fault and then gives up: the interrupted code is never resumed.
pub proof fn lemma_double_fault_is_final(stack_frame: StackFrame, error_code: u64)
    ensures
        dispatch_effects(kernel_entries(), DOUBLE_FAULT_VECTOR, stack_frame, error_code) matches Some(
            effects,
        ) && reports_and_stops(effects) && !resumes(effects) && effects.last() == Effect::Panic(
            Fatal::DoubleFault,
        ),
{
    lemma_fatal_faults_stop(Handler::DoubleFault, stack_frame, error_code);
}

/// The double fault runs on the reserved stack. Its entry names the slot of
/// the interrupt stack table in which the kernel's task state segment keeps
/// the end of that stack, and no other entry names any slot.
pub proof fn lemma_double_fault_on_reserved_stack(stack_end: u64, vector: int)
    requires
        0 <= vector < VECTOR_COUNT,
    ensures
        kernel_entries()[DOUBLE_FAULT_VECTOR as int] matches Entry::Present {
            handler,
            stack: Some(index),
        } && handler == Handler::DoubleFault && index < 7 && kernel_stacks(stack_end)[index as int]
            == stack_end,
        vector != DOUBLE_FAULT_VECTOR ==> !(kernel_entries()[vector] matches Entry::Present {
            stack: Some(_),
            ..
        }),
{
}

/// The interrupt table and the interrupt controllers agree on the vectors. The
/// three vectors that the local controller is built with are bound to the
/// routines for the timer, for errors and for spurious interrupts, in this
/// order; and the vector that the I/O controller raises for the keyboard's
/// line is bound to the routine for the keyboard.
pub proof fn lemma_vectors_agree()
    ensures
        kernel_vectors().len() == 3,
        kernel_entries()[kernel_vectors()[0] as int] == (Entry::Present {
            handler: Handler::Timer,
            stack: None,
        }),
        kernel_entries()[kernel_vectors()[1] as int] == (Entry::Present {
            handler: Handler::Error,
            stack: None,
        }),
        kernel_entries()[kernel_vectors()[2] as int] == (Entry::Present {
            handler: Handler::Spurious,
            stack: None,
        }),
        kernel_entries()[IOAPIC_IRQ_OFFSET + IrqVector::Keyboard.line()] == (Entry::Present {
            handler: Handler::Keyboard,
            stack: None,
        }),
        PIC_PRIMARY_OFFSET == 32 && PIC_SECONDARY_OFFSET == PIC_PRIMARY_OFFSET + 8,
{
}

} // verus!
