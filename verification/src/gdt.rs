//! The segment table, its selectors and the task state segment.
//!
//! The tables themselves are those of the `x86_64` crate. This module builds
//! them and plans the instructions that make the processor use them; running
//! those instructions is left to the caller.

use vstd::prelude::*;
use x86_64::structures::gdt::{Descriptor, GlobalDescriptorTable, SegmentSelector};
use x86_64::structures::tss::TaskStateSegment;
use crate::effect::Effect;

verus! {

/// Slot of the interrupt stack table that holds the double-fault stack.
pub const DOUBLE_FAULT_IST_INDEX: u16 = 0;

/// Bytes reserved for the double-fault stack.
pub const STACK_SIZE: usize = 4096 * 5;

/// Flags of a 64-bit kernel code segment, as the segment table stores them.
pub const KERNEL_CODE64: u64 = 0x00af_9b00_0000_ffff;

/// Flags of a kernel data segment, as the segment table stores them.
pub const KERNEL_DATA: u64 = 0x00cf_9300_0000_ffff;

/// The segment table of the `x86_64` crate. What it holds is spoken of as
/// [`gdt_entries`].
#[verifier::external_type_specification]
#[verifier::external_body]
pub struct ExGlobalDescriptorTable(GlobalDescriptorTable);

/// A segment descriptor of the `x86_64` crate. What it holds is spoken of as
/// [`descriptor_words`].
#[verifier::external_type_specification]
#[verifier::external_body]
pub struct ExDescriptor(Descriptor);

/// A segment selector of the `x86_64` crate. What it holds is spoken of as
/// [`selector_bits`].
#[verifier::external_type_specification]
#[verifier::external_body]
pub struct ExSegmentSelector(SegmentSelector);

/// The task state segment of the `x86_64` crate. Its interrupt stack table is
/// spoken of as [`interrupt_stacks`].
#[verifier::external_type_specification]
#[verifier::external_body]
pub struct ExTaskStateSegment(TaskStateSegment);

/// The words of a segment table that are in use, the null descriptor first:
/// what `GlobalDescriptorTable::as_raw_slice` returns.
pub uninterp spec fn gdt_entries(table: GlobalDescriptorTable) -> Seq<u64>;

/// The words of a descriptor: one for a code or data segment, two (low, then
/// high) for a system segment.
pub uninterp spec fn descriptor_words(descriptor: Descriptor) -> Seq<u64>;

/// The sixteen bits of a segment selector: the field `0` of `SegmentSelector`.
pub uninterp spec fn selector_bits(selector: SegmentSelector) -> u16;

/// The seven stack pointers of a task state segment's interrupt stack table,
/// as addresses.
pub uninterp spec fn interrupt_stacks(tss: TaskStateSegment) -> Seq<u64>;

/// The privilege level that a descriptor's first word encodes in its bits 45
/// and 46.
pub open spec fn descriptor_privilege(word: u64) -> u16 {
    ((word & (3u64 << 45)) >> 45) as u16
}

/// Whether an address is in canonical form: its bits 47 to 63 are all equal.
pub open spec fn canonical(address: int) -> bool {
    0 <= address < 0x8000_0000_0000 || 0xffff_8000_0000_0000 <= address <= u64::MAX
}

/// `GlobalDescriptorTable::new`: a table that holds the null descriptor only.
pub assume_specification[ GlobalDescriptorTable::new ]() -> (table: GlobalDescriptorTable)
    ensures
        gdt_entries(table) == seq![0u64],
;

/// `GlobalDescriptorTable::add_entry`: appends the descriptor's words and
/// returns the selector made of the index of the first of them and of the
/// descriptor's privilege level. It panics where the table's eight words
/// cannot take the descriptor, so that is required here.
pub assume_specification[ GlobalDescriptorTable::add_entry ](
    table: &mut GlobalDescriptorTable,
    entry: Descriptor,
) -> (selector: SegmentSelector)
    requires
        gdt_entries(*old(table)).len() + descriptor_words(entry).len() <= 8,
    ensures
        gdt_entries(*final(table)) == gdt_entries(*old(table)) + descriptor_words(entry),
        selector_bits(selector) == ((gdt_entries(*old(table)).len() as u16) << 3)
            | descriptor_privilege(descriptor_words(entry)[0]),
;

/// `Descriptor::kernel_code_segment`: the one-word descriptor of a 64-bit
/// kernel code segment.
pub assume_specification[ Descriptor::kernel_code_segment ]() -> (descriptor: Descriptor)
    ensures
        descriptor_words(descriptor) == seq![KERNEL_CODE64],
;

/// `Descriptor::kernel_data_segment`: the one-word descriptor of a kernel data
/// segment.
pub assume_specification[ Descriptor::kernel_data_segment ]() -> (descriptor: Descriptor)
    ensures
        descriptor_words(descriptor) == seq![KERNEL_DATA],
;

/// `Descriptor::tss_segment`: a two-word system descriptor. Its words hold the
/// address of the task state segment, so only their number and the privilege
/// level, which is ring 0, are stated.
pub assume_specification[ Descriptor::tss_segment ](tss: &'static TaskStateSegment) -> (descriptor:
    Descriptor)
    ensures
        descriptor_words(descriptor).len() == 2,
        descriptor_privilege(descriptor_words(descriptor)[0]) == 0,
;

/// `TaskStateSegment::new`: a task state segment whose interrupt stack table
/// holds seven null pointers.
pub assume_specification[ TaskStateSegment::new ]() -> (tss: TaskStateSegment)
    ensures
        interrupt_stacks(tss) == Seq::new(7, |i: int| 0u64),
;

/// Stores `address` in slot `index` of the interrupt stack table, through
/// `VirtAddr::new`, which keeps a canonical address as it is and panics on
/// others.
#[verifier::external_body]
fn set_interrupt_stack(tss: &mut TaskStateSegment, index: usize, address: u64)
    requires
        index < 7,
        canonical(address as int),
    ensures
        interrupt_stacks(*final(tss)) == interrupt_stacks(*old(tss)).update(index as int, address),
{
    tss.interrupt_stack_table[index] = x86_64::VirtAddr::new(address);
}

/// The selectors of the three segments that the kernel's segment table holds.
pub struct Selectors {
    kernel_cs: SegmentSelector,
    kernel_ds: SegmentSelector,
    tss: SegmentSelector,
}

impl Selectors {
    /// The selector of the kernel code segment.
    pub closed spec fn spec_kernel_cs(&self) -> SegmentSelector {
        self.kernel_cs
    }

    /// The selector of the kernel data segment.
    pub closed spec fn spec_kernel_ds(&self) -> SegmentSelector {
        self.kernel_ds
    }

    /// The selector of the task state segment.
    pub closed spec fn spec_tss(&self) -> SegmentSelector {
        self.tss
    }

    #[verifier::when_used_as_spec(spec_kernel_cs)]
    pub fn kernel_cs(&self) -> (selector: SegmentSelector)
        ensures
            selector == self.spec_kernel_cs(),
    {
        self.kernel_cs
    }

    #[verifier::when_used_as_spec(spec_kernel_ds)]
    pub fn kernel_ds(&self) -> (selector: SegmentSelector)
        ensures
            selector == self.spec_kernel_ds(),
    {
        self.kernel_ds
    }

    #[verifier::when_used_as_spec(spec_tss)]
    pub fn tss(&self) -> (selector: SegmentSelector)
        ensures
            selector == self.spec_tss(),
    {
        self.tss
    }
}

/// The interrupt stack table of the kernel's task state segment: every stack
/// pointer null but the one in slot [`DOUBLE_FAULT_IST_INDEX`], which is
/// `stack_end`.
pub open spec fn kernel_stacks(stack_end: u64) -> Seq<u64> {
    Seq::new(7, |i: int| 0u64).update(DOUBLE_FAULT_IST_INDEX as int, stack_end)
}

/// Whether `address` is in canonical form.
pub fn is_canonical(address: u64) -> (yes: bool)
    ensures
        yes == canonical(address as int),
{
    let upper: u64 = address >> 47;
    assert(upper == 0 <==> address < 0x8000_0000_0000) by (bit_vector)
        requires
            upper == address >> 47,
    ;
    assert(upper == 0x1ffff <==> address >= 0xffff_8000_0000_0000) by (bit_vector)
        requires
            upper == address >> 47,
    ;
    upper == 0 || upper == 0x1ffff
}

/// Builds the task state segment for a double-fault stack of [`STACK_SIZE`]
/// bytes that starts at `stack_start`. The stack grows downwards, so the
/// pointer in slot [`DOUBLE_FAULT_IST_INDEX`] is the address just past its
/// end. There is no task state segment where that address does not fit in 64
/// bits or is not canonical.
pub fn task_state_segment(stack_start: u64) -> (built: Option<TaskStateSegment>)
    ensures
        built is Some <==> canonical(stack_start + STACK_SIZE),
        built matches Some(tss) ==> interrupt_stacks(tss) == kernel_stacks(
            (stack_start + STACK_SIZE) as u64,
        ),
{
    match stack_start.checked_add(STACK_SIZE as u64) {
        Some(stack_end) => {
            if is_canonical(stack_end) {
                let mut tss = TaskStateSegment::new();
                set_interrupt_stack(&mut tss, DOUBLE_FAULT_IST_INDEX as usize, stack_end);
                Some(tss)
            } else {
                None
            }
        },
        None => None,
    }
}

/// Both kernel segments are at privilege level 0, and a selector at that level
/// is eight times its index.
proof fn lemma_ring_zero_selectors()
    ensures
        descriptor_privilege(KERNEL_CODE64) == 0,
        descriptor_privilege(KERNEL_DATA) == 0,
        (1u16 << 3) | 0u16 == 0x08,
        (2u16 << 3) | 0u16 == 0x10,
        (3u16 << 3) | 0u16 == 0x18,
{
    assert(((0x00af_9b00_0000_ffffu64 & (3u64 << 45)) >> 45) as u16 == 0) by (bit_vector);
    assert(((0x00cf_9300_0000_ffffu64 & (3u64 << 45)) >> 45) as u16 == 0) by (bit_vector);
    assert((1u16 << 3) | 0u16 == 0x08) by (bit_vector);
    assert((2u16 << 3) | 0u16 == 0x10) by (bit_vector);
    assert((3u16 << 3) | 0u16 == 0x18) by (bit_vector);
}

/// Builds the segment table: after the null descriptor come the kernel code
/// segment, the kernel data segment and the two words of the descriptor of
/// `tss`. The selectors returned are those of the three segments, all at
/// privilege level 0: `0x08`, `0x10` and `0x18`.
pub fn descriptor_tables(tss: &'static TaskStateSegment) -> (built: (
    GlobalDescriptorTable,
    Selectors,
))
    ensures
        gdt_entries(built.0).len() == 5,
        gdt_entries(built.0).subrange(0, 3) == seq![0u64, KERNEL_CODE64, KERNEL_DATA],
        selector_bits(built.1.kernel_cs()) == 0x08,
        selector_bits(built.1.kernel_ds()) == 0x10,
        selector_bits(built.1.tss()) == 0x18,
{
    proof {
        lemma_ring_zero_selectors();
    }
    let mut gdt = GlobalDescriptorTable::new();
    let kernel_cs = gdt.add_entry(Descriptor::kernel_code_segment());
    let kernel_ds = gdt.add_entry(Descriptor::kernel_data_segment());
    let tss = gdt.add_entry(Descriptor::tss_segment(tss));
    (gdt, Selectors { kernel_cs, kernel_ds, tss })
}

/// What takes the segment table into use: the table is loaded, the code
/// segment register is reloaded with the selector of the kernel code segment,
/// the data, extra and stack segment registers with that of the kernel data
/// segment, and the task register with that of the task state segment.
pub open spec fn init_effects(selectors: Selectors) -> Seq<Effect> {
    seq![
        Effect::LoadGdt,
        Effect::SetCodeSegment(selectors.kernel_cs()),
        Effect::SetDataSegment(selectors.kernel_ds()),
        Effect::SetExtraSegment(selectors.kernel_ds()),
        Effect::SetStackSegment(selectors.kernel_ds()),
        Effect::LoadTaskRegister(selectors.tss()),
    ]
}

/// Plans the switch from the loader's segments to the kernel's, given the
/// selectors that [`descriptor_tables`] returned with the table.
pub fn init(selectors: &Selectors) -> (effects: Vec<Effect>)
    ensures
        effects@ == init_effects(*selectors),
{
    let mut effects: Vec<Effect> = Vec::new();
    effects.push(Effect::LoadGdt);
    effects.push(Effect::SetCodeSegment(selectors.kernel_cs()));
    effects.push(Effect::SetDataSegment(selectors.kernel_ds()));
    effects.push(Effect::SetExtraSegment(selectors.kernel_ds()));
    effects.push(Effect::SetStackSegment(selectors.kernel_ds()));
    effects.push(Effect::LoadTaskRegister(selectors.tss()));
    effects
}

} // verus!
