//! The interrupt controllers: the two legacy controllers, which are switched
//! off, the local controller of the processor and the I/O controller that
//! routes the lines of devices to it.
//!
//! The handles of the two newer controllers are those of the `x2apic` crate.

use vstd::prelude::*;
use x2apic::ioapic::{IrqFlags, IrqMode, RedirectionTableEntry};
use x2apic::lapic::{LocalApic, LocalApicBuilder};
use crate::effect::{Effect, Fatal};

verus! {

/// Vector at which the first legacy controller's interrupts are parked.
pub const PIC_PRIMARY_OFFSET: u8 = 32;

/// Vector at which the second legacy controller's interrupts are parked.
pub const PIC_SECONDARY_OFFSET: u8 = 40;

/// Physical address of the I/O interrupt controller's registers.
pub const IOAPIC_BASE: u64 = 0xFEC0_0000;

/// What the I/O interrupt controller adds to a line's number to get its vector.
pub const IOAPIC_IRQ_OFFSET: u8 = 0x20;

/// The bits of a redirection entry's first word that hold its delivery mode.
pub const MODE_MASK: u32 = 0x0000_0700;

/// The flag bits of a redirection entry's first word that software may write:
/// logical destination, low-active polarity, level trigger and mask.
pub const WRITABLE_FLAGS: u32 = 0x0001_a800;

/// The flag of a redirection entry that masks its line.
pub const MASKED: u32 = 0x0001_0000;

/// The vectors of the interrupts that the interrupt controllers raise.
#[derive(Clone, Copy, Debug, PartialEq, Eq, Structural)]
pub enum ApicInterruptIndex {
    /// The timer of the local controller.
    Timer,
    /// The keyboard, through the I/O controller.
    Keyboard,
    /// An error inside the local controller.
    Error,
    /// A spurious interrupt.
    Spurious,
}

/// The lines of the I/O interrupt controller that the kernel routes.
#[derive(Clone, Copy, Debug, PartialEq, Eq, Structural)]
pub enum IrqVector {
    /// The keyboard's line.
    Keyboard,
}

impl ApicInterruptIndex {
    /// The vector's number: 32 for the timer, 33 for the keyboard, 60 for an
    /// error and 61 for a spurious interrupt.
    pub open spec fn spec_vector(self) -> u8 {
        match self {
            ApicInterruptIndex::Timer => 32,
            ApicInterruptIndex::Keyboard => 33,
            ApicInterruptIndex::Error => 60,
            ApicInterruptIndex::Spurious => 61,
        }
    }

    /// The vector's number.
    #[verifier::when_used_as_spec(spec_vector)]
    pub fn vector(self) -> (vector: u8)
        ensures
            vector == self.spec_vector(),
    {
        match self {
            ApicInterruptIndex::Timer => 32,
            ApicInterruptIndex::Keyboard => 33,
            ApicInterruptIndex::Error => 60,
            ApicInterruptIndex::Spurious => 61,
        }
    }

    /// The vector's number, as the index that it is in the interrupt table.
    pub fn as_usize(self) -> (index: usize)
        ensures
            index == self.spec_vector(),
    {
        self.vector() as usize
    }
}

impl IrqVector {
    /// The line's number: 1 for the keyboard.
    pub open spec fn spec_line(self) -> u8 {
        match self {
            IrqVector::Keyboard => 1,
        }
    }

    /// The line's number.
    #[verifier::when_used_as_spec(spec_line)]
    pub fn line(self) -> (line: u8)
        ensures
            line == self.spec_line(),
    {
        match self {
            IrqVector::Keyboard => 1,
        }
    }
}

/// How the I/O interrupt controller delivers an interrupt.
#[derive(Clone, Copy, Debug, PartialEq, Eq, Structural)]
pub enum DeliveryMode {
    /// To every processor that the destination names.
    Fixed,
    /// To the processor of lowest priority among them.
    LowestPriority,
    /// As a system management interrupt.
    SystemManagement,
    /// As a non-maskable interrupt.
    NonMaskable,
    /// As an INIT signal.
    Init,
    /// As an interrupt of an external controller.
    External,
}

impl DeliveryMode {
    /// The three bits that stand for the mode in a redirection entry.
    pub open spec fn code(self) -> u32 {
        match self {
            DeliveryMode::Fixed => 0,
            DeliveryMode::LowestPriority => 1,
            DeliveryMode::SystemManagement => 2,
            DeliveryMode::NonMaskable => 4,
            DeliveryMode::Init => 5,
            DeliveryMode::External => 7,
        }
    }
}

/// The handle of the local interrupt controller, of the `x2apic` crate. What
/// it was built with is spoken of as [`local_apic_vectors`] and
/// [`local_apic_registers`].
#[verifier::external_type_specification]
#[verifier::external_body]
pub struct ExLocalApic(LocalApic);

/// An entry of the I/O interrupt controller's redirection table, of the
/// `x2apic` crate. Its two words are spoken of as [`redirection_low`] and
/// [`redirection_high`].
#[verifier::external_type_specification]
#[verifier::external_body]
pub struct ExRedirectionTableEntry(RedirectionTableEntry);

/// The first word of a redirection entry: vector, delivery mode and flags.
pub uninterp spec fn redirection_low(entry: RedirectionTableEntry) -> u32;

/// The second word of a redirection entry: the destination, in its top byte.
pub uninterp spec fn redirection_high(entry: RedirectionTableEntry) -> u32;

/// The vectors that a handle of the local interrupt controller was built with:
/// that of the timer, that of errors and that of spurious interrupts, in this
/// order.
pub uninterp spec fn local_apic_vectors(apic: LocalApic) -> Seq<usize>;

/// Where a handle of the local interrupt controller reaches the controller's
/// registers: at this address in memory, or, where there is none, through
/// registers of the processor.
pub uninterp spec fn local_apic_registers(apic: LocalApic) -> Option<u64>;

/// `RedirectionTableEntry::set_mode`: replaces the delivery mode bits of the
/// first word.
#[verifier::external_body]
fn set_mode(entry: &mut RedirectionTableEntry, mode: DeliveryMode)
    ensures
        redirection_low(*final(entry)) == redirection_low(*old(entry)) & !MODE_MASK | (mode.code()
            << 8),
        redirection_high(*final(entry)) == redirection_high(*old(entry)),
{
    entry.set_mode(
        match mode {
            DeliveryMode::Fixed => IrqMode::Fixed,
            DeliveryMode::LowestPriority => IrqMode::LowestPriority,
            DeliveryMode::SystemManagement => IrqMode::SystemManagement,
            DeliveryMode::NonMaskable => IrqMode::NonMaskable,
            DeliveryMode::Init => IrqMode::Init,
            DeliveryMode::External => IrqMode::External,
        },
    );
}

/// `RedirectionTableEntry::set_flags`, on the flags that `IrqFlags` makes of
/// `flags`: replaces the writable flag bits of the first word by those of
/// `flags`.
#[verifier::external_body]
fn set_flags(entry: &mut RedirectionTableEntry, flags: u32)
    ensures
        redirection_low(*final(entry)) == redirection_low(*old(entry)) & !WRITABLE_FLAGS | (flags
            & WRITABLE_FLAGS),
        redirection_high(*final(entry)) == redirection_high(*old(entry)),
{
    entry.set_flags(IrqFlags::from_bits_truncate(flags));
}

/// `RedirectionTableEntry::set_dest`: the second word becomes the destination
/// in its top byte, and zero below.
pub assume_specification[ RedirectionTableEntry::set_dest ](
    entry: &mut RedirectionTableEntry,
    dest: u8,
)
    ensures
        redirection_low(*final(entry)) == redirection_low(*old(entry)),
        redirection_high(*final(entry)) == (dest as u32) << 24,
;

/// How far above their base address the registers of the local interrupt
/// controller reach.
pub const REGISTER_SPAN: u64 = 0xFFFF;

/// `LocalApicBuilder::build`, on a builder that was given the three vectors and
/// the address of the controller's registers. The builder refuses only where
/// one of the vectors is missing, or the address where the processor needs
/// it; here all four are given, so a handle comes back. It has the three
/// vectors, and where it reaches the registers in memory, it does so at the
/// address given. The builder adds the offset of every register, up to
/// [`REGISTER_SPAN`], to the address, so the sum must fit in 64 bits.
#[verifier::external_body]
fn build_local_apic(
    timer_vector: usize,
    error_vector: usize,
    spurious_vector: usize,
    xapic_base: u64,
) -> (built: Result<LocalApic, &'static str>)
    requires
        xapic_base + REGISTER_SPAN <= u64::MAX,
    ensures
        built is Ok,
        built matches Ok(apic) ==> local_apic_vectors(apic) == seq![
            timer_vector,
            error_vector,
            spurious_vector,
        ],
        built matches Ok(apic) ==> (local_apic_registers(apic) matches Some(address) ==> address
            == xapic_base),
{
    LocalApicBuilder::new()
        .timer_vector(timer_vector)
        .error_vector(error_vector)
        .spurious_vector(spurious_vector)
        .set_xapic_base(xapic_base)
        .build()
}

/// The vectors that the local interrupt controller is to raise, which are
/// those that the interrupt table binds.
pub open spec fn kernel_vectors() -> Seq<usize> {
    seq![
        ApicInterruptIndex::Timer.vector() as usize,
        ApicInterruptIndex::Error.vector() as usize,
        ApicInterruptIndex::Spurious.vector() as usize,
    ]
}

/// Whether `apic` is a handle for the kernel's vectors that reaches the
/// controller's registers at `xapic_base`, as far as it reaches them in memory.
pub open spec fn built_for(apic: LocalApic, xapic_base: u64) -> bool {
    &&& local_apic_vectors(apic) == kernel_vectors()
    &&& local_apic_registers(apic) matches Some(address) ==> address == xapic_base
}

/// Whether the registers of a local interrupt controller that is mapped at
/// `xapic_base` lie within the 64 bits of an address.
pub open spec fn registers_fit(xapic_base: u64) -> bool {
    xapic_base + REGISTER_SPAN <= u64::MAX
}

/// Builds the handle of the local interrupt controller whose registers are
/// mapped at `xapic_base`, for the kernel's vectors. There is a handle exactly
/// where the registers fit below the end of the address space.
pub fn local_apic(xapic_base: u64) -> (built: Result<LocalApic, &'static str>)
    ensures
        built is Ok <==> registers_fit(xapic_base),
        built matches Ok(apic) ==> built_for(apic, xapic_base),
{
    if xapic_base > u64::MAX - REGISTER_SPAN {
        return Err("LocalApic: the registers reach past the end of the address space");
    }
    build_local_apic(
        ApicInterruptIndex::Timer.as_usize(),
        ApicInterruptIndex::Error.as_usize(),
        ApicInterruptIndex::Spurious.as_usize(),
        xapic_base,
    )
}

/// The first word of the keyboard's redirection entry, made from the word
/// `low` that the controller held: delivery mode fixed, the line masked, the
/// other writable flags clear, all other bits as they were.
pub open spec fn keyboard_low(low: u32) -> u32 {
    low & !(MODE_MASK | WRITABLE_FLAGS) | MASKED
}

/// The second word of the keyboard's redirection entry: the low byte of the
/// local controller's identifier, as the destination.
pub open spec fn keyboard_high(apic_id: u32) -> u32 {
    ((apic_id % 256) as u32) << 24
}

/// Makes the keyboard's redirection entry from the one that the controller
/// holds for the line: interrupts are delivered in fixed mode to the local
/// controller `apic_id`, and the line is masked until it is unmasked on
/// purpose.
pub fn keyboard_entry(entry: RedirectionTableEntry, apic_id: u32) -> (routed:
    RedirectionTableEntry)
    ensures
        redirection_low(routed) == keyboard_low(redirection_low(entry)),
        redirection_high(routed) == keyboard_high(apic_id),
{
    let ghost low = redirection_low(entry);
    let mut routed = entry;
    set_mode(&mut routed, DeliveryMode::Fixed);
    set_flags(&mut routed, MASKED);
    routed.set_dest(#[verifier::truncate] (apic_id as u8));
    assert((low & !0x0000_0700u32 | (0u32 << 8)) & !0x0001_a800u32 | (0x0001_0000u32
        & 0x0001_a800u32) == low & !(0x0000_0700u32 | 0x0001_a800u32) | 0x0001_0000u32)
        by (bit_vector);
    assert(#[verifier::truncate] (apic_id as u8) == apic_id % 256) by (bit_vector);
    routed
}

/// How far the bring-up of the interrupt controllers has come.
#[derive(Clone, Copy, Debug, PartialEq, Eq, Structural)]
pub enum Stage {
    /// Nothing was done yet.
    Idle,
    /// The legacy controllers are off; the base address of the local
    /// controller was asked for.
    AwaitingBase,
    /// The local controller is enabled and the I/O controller set up; the
    /// identifier of the local controller was asked for.
    AwaitingId,
    /// The redirection entry of the keyboard's line was asked for.
    AwaitingEntry { apic_id: u32 },
    /// The controllers are up and the processor takes interrupts.
    Done,
    /// Bring-up was given up.
    Failed,
}

/// What the platform reports back to [`init`].
#[derive(Debug)]
pub enum Event {
    /// Bring-up is to begin.
    Start,
    /// The physical base address of the local controller's registers.
    LocalApicBase(u64),
    /// The identifier of the local controller.
    LocalApicId(u32),
    /// The redirection entry that the I/O controller holds for the line asked
    /// about.
    Redirection(RedirectionTableEntry),
}

/// What switches the legacy controllers off: their interrupts are moved to the
/// vectors from 32 and from 40, and every line of both is masked.
pub open spec fn disable_pic_effects() -> Seq<Effect> {
    seq![
        Effect::RemapPic { primary: PIC_PRIMARY_OFFSET, secondary: PIC_SECONDARY_OFFSET },
        Effect::MaskPic,
    ]
}

/// Plans the switching off of the two legacy controllers.
pub fn disable_pic() -> (effects: Vec<Effect>)
    ensures
        effects@ == disable_pic_effects(),
{
    let mut effects: Vec<Effect> = Vec::new();
    effects.push(
        Effect::RemapPic { primary: PIC_PRIMARY_OFFSET, secondary: PIC_SECONDARY_OFFSET },
    );
    effects.push(Effect::MaskPic);
    effects
}

/// What bring-up begins with: the legacy controllers are switched off, and the
/// base address of the local controller is asked for.
pub open spec fn start_effects() -> Seq<Effect> {
    disable_pic_effects().push(Effect::ReadLocalApicBase)
}

/// What takes the local controller `apic` into use and sets the I/O controller
/// up at `io_apic_address`: the handle is installed and enabled, then the I/O
/// controller is made to raise the vectors from [`IOAPIC_IRQ_OFFSET`], and the
/// identifier of the local controller is asked for.
pub open spec fn arm_effects(apic: LocalApic, io_apic_address: u64) -> Seq<Effect> {
    seq![
        Effect::InstallLocalApic(apic),
        Effect::EnableLocalApic,
        Effect::InitIoApic { address: io_apic_address, offset: IOAPIC_IRQ_OFFSET },
        Effect::ReadLocalApicId,
    ]
}

/// What takes the local controller `apic` into use where the address of the
/// I/O controller does not fit in 64 bits: the handle is installed and
/// enabled, and there the kernel gives up.
pub open spec fn arm_local_only_effects(apic: LocalApic) -> Seq<Effect> {
    seq![
        Effect::InstallLocalApic(apic),
        Effect::EnableLocalApic,
        Effect::Panic(Fatal::AddressOverflow),
    ]
}

/// Whether `effects` route the keyboard: the entry read from the controller
/// is stored back as [`keyboard_entry`] makes it for `apic_id`, the line is
/// unmasked, and at the very end the processor is let take interrupts.
pub open spec fn routes_keyboard(
    effects: Seq<Effect>,
    held: RedirectionTableEntry,
    apic_id: u32,
) -> bool {
    &&& effects.len() == 3
    &&& effects[0] matches Effect::WriteRedirection { irq, entry }
    &&& irq == IrqVector::Keyboard.line()
    &&& redirection_low(entry) == keyboard_low(redirection_low(held))
    &&& redirection_high(entry) == keyboard_high(apic_id)
    &&& effects[1] == Effect::UnmaskIrq { irq: IrqVector::Keyboard.line() }
    &&& effects[2] == Effect::EnableInterrupts
}

/// What follows the attempt to build the handle of the local controller, with
/// `io_apic_address` the address of the I/O controller where it fits in 64
/// bits.
///
/// With a handle, the local controller is taken into use; the I/O controller
/// follows where its address is known, and else the kernel gives up. Without
/// a handle, the kernel gives up at once.
pub open spec fn after_build(built: Result<LocalApic, &'static str>, io_apic_address: Option<u64>)
    -> (Stage, Seq<Effect>) {
    match (built, io_apic_address) {
        (Ok(apic), Some(address)) => (Stage::AwaitingId, arm_effects(apic, address)),
        (Ok(apic), None) => (Stage::Failed, arm_local_only_effects(apic)),
        (Err(_), _) => (Stage::Failed, seq![Effect::Panic(Fatal::LocalApicBuild)]),
    }
}

/// Whether building the handle of the local controller for the registers at
/// `xapic_base`, and going on as [`after_build`] says, may lead to `next` with
/// `effects`. A handle comes back exactly where the registers fit
/// ([`registers_fit`]), and it is as [`built_for`] says; which handle it is, is
/// up to the `x2apic` crate.
pub open spec fn builds_local_apic(
    xapic_base: u64,
    io_apic_address: Option<u64>,
    next: Stage,
    effects: Seq<Effect>,
) -> bool {
    exists|built: Result<LocalApic, &'static str>|
        {
            &&& built is Ok <==> registers_fit(xapic_base)
            &&& built matches Ok(apic) ==> built_for(apic, xapic_base)
            &&& #[trigger] after_build(built, io_apic_address) == (next, effects)
        }
}

/// The address of the I/O controller's registers in virtual memory, where it
/// fits in 64 bits.
pub open spec fn io_apic_address(physical_memory_offset: u64) -> Option<u64> {
    if IOAPIC_BASE + physical_memory_offset <= u64::MAX {
        Some((IOAPIC_BASE + physical_memory_offset) as u64)
    } else {
        None
    }
}

/// One step of the bring-up: whether, at `stage` and on `event`, the bring-up
/// may go on to `next` with `effects`.
///
/// The steps come in one order only. An event that is not the one awaited
/// makes the kernel give up, and so does every event once bring-up is done or
/// has failed.
pub open spec fn init_step(
    stage: Stage,
    physical_memory_offset: u64,
    event: Event,
    next: Stage,
    effects: Seq<Effect>,
) -> bool {
    match (stage, event) {
        (Stage::Idle, Event::Start) => next == Stage::AwaitingBase && effects == start_effects(),
        (Stage::AwaitingBase, Event::LocalApicBase(physical_base)) => {
            if physical_base + physical_memory_offset > u64::MAX {
                next == Stage::Failed && effects == seq![Effect::Panic(Fatal::AddressOverflow)]
            } else {
                builds_local_apic(
                    (physical_base + physical_memory_offset) as u64,
                    io_apic_address(physical_memory_offset),
                    next,
                    effects,
                )
            }
        },
        (Stage::AwaitingId, Event::LocalApicId(apic_id)) => next == Stage::AwaitingEntry {
            apic_id,
        } && effects == seq![Effect::ReadRedirection { irq: IrqVector::Keyboard.line() }],
        (Stage::AwaitingEntry { apic_id }, Event::Redirection(held)) => next == Stage::Done
            && routes_keyboard(effects, held, apic_id),
        _ => next == Stage::Failed && effects == seq![Effect::Panic(Fatal::OutOfTurn)],
    }
}

/// Goes on after the attempt to build the handle of the local controller.
pub fn local_apic_built(
    built: Result<LocalApic, &'static str>,
    io_apic_address: Option<u64>,
) -> (step: (Stage, Vec<Effect>))
    ensures
        (step.0, step.1@) == after_build(built, io_apic_address),
{
    let mut effects: Vec<Effect> = Vec::new();
    match built {
        Ok(apic) => {
            effects.push(Effect::InstallLocalApic(apic));
            effects.push(Effect::EnableLocalApic);
            match io_apic_address {
                Some(address) => {
                    effects.push(Effect::InitIoApic { address, offset: IOAPIC_IRQ_OFFSET });
                    effects.push(Effect::ReadLocalApicId);
                    assert(effects@ =~= arm_effects(apic, address));
                    (Stage::AwaitingId, effects)
                },
                None => {
                    effects.push(Effect::Panic(Fatal::AddressOverflow));
                    assert(effects@ =~= arm_local_only_effects(apic));
                    (Stage::Failed, effects)
                },
            }
        },
        Err(_) => {
            effects.push(Effect::Panic(Fatal::LocalApicBuild));
            assert(effects@ =~= seq![Effect::Panic(Fatal::LocalApicBuild)]);
            (Stage::Failed, effects)
        },
    }
}

/// Takes the bring-up of the interrupt controllers one step further.
///
/// The caller starts with [`Stage::Idle`] and [`Event::Start`], carries out
/// the effects returned in their order, and calls again with the stage
/// returned and with the answer to the last effect, until the stage is
/// [`Stage::Done`] or [`Stage::Failed`]. `physical_memory_offset` is the offset
/// at which the loader mapped physical memory.
///
/// In order, the steps switch the legacy controllers off, take the local
/// controller into use, set the I/O controller up and route the keyboard's
/// line through it, and only then let the processor take interrupts.
pub fn init(stage: Stage, physical_memory_offset: u64, event: Event) -> (step: (
    Stage,
    Vec<Effect>,
))
    ensures
        init_step(stage, physical_memory_offset, event, step.0, step.1@),
{
    match (stage, event) {
        (Stage::Idle, Event::Start) => {
            let mut effects = disable_pic();
            effects.push(Effect::ReadLocalApicBase);
            (Stage::AwaitingBase, effects)
        },
        (Stage::AwaitingBase, Event::LocalApicBase(physical_base)) => {
            match physical_base.checked_add(physical_memory_offset) {
                Some(xapic_base) => {
                    let built = local_apic(xapic_base);
                    let address = IOAPIC_BASE.checked_add(physical_memory_offset);
                    let step = local_apic_built(built, address);
                    assert(after_build(built, address) == (step.0, step.1@));
                    step
                },
                None => {
                    let mut effects: Vec<Effect> = Vec::new();
                    effects.push(Effect::Panic(Fatal::AddressOverflow));
                    (Stage::Failed, effects)
                },
            }
        },
        (Stage::AwaitingId, Event::LocalApicId(apic_id)) => {
            let mut effects: Vec<Effect> = Vec::new();
            effects.push(Effect::ReadRedirection { irq: IrqVector::Keyboard.line() });
            (Stage::AwaitingEntry { apic_id }, effects)
        },
        (Stage::AwaitingEntry { apic_id }, Event::Redirection(held)) => {
            let mut effects: Vec<Effect> = Vec::new();
            let entry = keyboard_entry(held, apic_id);
            effects.push(Effect::WriteRedirection { irq: IrqVector::Keyboard.line(), entry });
            effects.push(Effect::UnmaskIrq { irq: IrqVector::Keyboard.line() });
            effects.push(Effect::EnableInterrupts);
            (Stage::Done, effects)
        },
        _ => {
            let mut effects: Vec<Effect> = Vec::new();
            effects.push(Effect::Panic(Fatal::OutOfTurn));
            (Stage::Failed, effects)
        },
    }
}

/// One call of [`init`]: the stage and the event that it was given, and the
/// stage and the effects that it returned.
pub struct Step {
    pub stage: Stage,
    pub event: Event,
    pub next: Stage,
    pub effects: Seq<Effect>,
}

/// Whether `steps` are the calls of one bring-up, from the first on: each is a
/// step that [`init`] may take, the first starts at [`Stage::Idle`], and every
/// other starts at the stage that the one before it returned.
pub open spec fn is_run(physical_memory_offset: u64, steps: Seq<Step>) -> bool {
    &&& forall|i: int|
        0 <= i < steps.len() ==> init_step(
            (#[trigger] steps[i]).stage,
            physical_memory_offset,
            steps[i].event,
            steps[i].next,
            steps[i].effects,
        )
    &&& steps.len() > 0 ==> steps[0].stage == Stage::Idle
    &&& forall|i: int| 0 < i < steps.len() ==> (#[trigger] steps[i]).stage == steps[i - 1].next
}

/// The stage that a bring-up is at after `steps`.
pub open spec fn stage_after(steps: Seq<Step>) -> Stage {
    if steps.len() == 0 {
        Stage::Idle
    } else {
        steps.last().next
    }
}

/// Everything that the steps asked of the machine, in order.
pub open spec fn trace(steps: Seq<Step>) -> Seq<Effect>
    decreases steps.len(),
{
    if steps.len() == 0 {
        Seq::empty()
    } else {
        trace(steps.drop_last()) + steps.last().effects
    }
}

/// The place of an effect in a bring-up that goes through: 1 for the first, 11
/// for the last. Effects that are no part of it have the place 0.
pub open spec fn place(effect: Effect) -> int {
    match effect {
        Effect::RemapPic { .. } => 1,
        Effect::MaskPic => 2,
        Effect::ReadLocalApicBase => 3,
        Effect::InstallLocalApic(_) => 4,
        Effect::EnableLocalApic => 5,
        Effect::InitIoApic { .. } => 6,
        Effect::ReadLocalApicId => 7,
        Effect::ReadRedirection { .. } => 8,
        Effect::WriteRedirection { .. } => 9,
        Effect::UnmaskIrq { .. } => 10,
        Effect::EnableInterrupts => 11,
        _ => 0,
    }
}

/// Whether `effects` are a bring-up as far as it got, followed by nothing but
/// the kernel giving up: each effect is at its place, or it is a panic, and
/// after a panic come only panics.
pub open spec fn in_order(effects: Seq<Effect>) -> bool {
    &&& forall|i: int|
        0 <= i < effects.len() ==> (#[trigger] effects[i]) is Panic || place(effects[i]) == i + 1
    &&& forall|i: int, j: int|
        0 <= i < j < effects.len() && (#[trigger] effects[i]) is Panic ==> (
        #[trigger] effects[j]) is Panic
}

/// How many effects a bring-up has asked for when it is at `stage`, for the
/// stages other than [`Stage::Failed`].
spec fn effects_until(stage: Stage) -> int {
    match stage {
        Stage::Idle => 0,
        Stage::AwaitingBase => 3,
        Stage::AwaitingId => 7,
        Stage::AwaitingEntry { .. } => 8,
        Stage::Done => 11,
        Stage::Failed => -1,
    }
}

/// What holds of the trace of every run: it is in order; while the bring-up
/// has not failed, it holds no panic and has the length that goes with the
/// stage; once it has failed, the trace ends in a panic.
spec fn on_track(steps: Seq<Step>) -> bool {
    let effects = trace(steps);
    let stage = stage_after(steps);
    &&& in_order(effects)
    &&& stage != Stage::Failed ==> effects.len() == effects_until(stage) && forall|i: int|
        0 <= i < effects.len() ==> !((#[trigger] effects[i]) is Panic)
    &&& stage == Stage::Failed ==> effects.len() > 0 && effects.last() is Panic
}

proof fn lemma_on_track(physical_memory_offset: u64, steps: Seq<Step>)
    requires
        is_run(physical_memory_offset, steps),
    ensures
        on_track(steps),
    decreases steps.len(),
{
    if steps.len() > 0 {
        let before = steps.drop_last();
        let step = steps.last();
        assert(is_run(physical_memory_offset, before)) by {
            assert forall|i: int| 0 <= i < before.len() implies init_step(
                (#[trigger] before[i]).stage,
                physical_memory_offset,
                before[i].event,
                before[i].next,
                before[i].effects,
            ) by {
                assert(before[i] == steps[i]);
            }
            assert forall|i: int| 0 < i < before.len() implies (#[trigger] before[i]).stage
                == before[i - 1].next by {
                assert(before[i] == steps[i]);
                assert(before[i - 1] == steps[i - 1]);
            }
            if before.len() > 0 {
                assert(before[0] == steps[0]);
            }
        }
        lemma_on_track(physical_memory_offset, before);
        let done = trace(before);
        let all = trace(steps);
        assert(all == done + step.effects);
        assert(step.stage == stage_after(before)) by {
            if before.len() > 0 {
                assert(steps[steps.len() - 1].stage == steps[steps.len() - 2].next);
                assert(before.last() == steps[steps.len() - 2]);
            }
        }
        assert(init_step(
            step.stage,
            physical_memory_offset,
            step.event,
            step.next,
            step.effects,
        ));
        match (step.stage, step.event) {
            (Stage::AwaitingBase, Event::LocalApicBase(physical_base)) => {
                if physical_base + physical_memory_offset <= u64::MAX {
                    let built = choose|built: Result<LocalApic, &'static str>|
                        {
                            &&& built is Ok <==> registers_fit(
                                (physical_base + physical_memory_offset) as u64,
                            )
                            &&& built matches Ok(apic) ==> built_for(
                                apic,
                                (physical_base + physical_memory_offset) as u64,
                            )
                            &&& #[trigger] after_build(
                                built,
                                io_apic_address(physical_memory_offset),
                            ) == (step.next, step.effects)
                        };
                    assert(after_build(built, io_apic_address(physical_memory_offset)) == (
                        step.next,
                        step.effects,
                    ));
                }
            },
            _ => {},
        }
        assert forall|i: int| 0 <= i < all.len() implies (#[trigger] all[i]) is Panic || place(
            all[i],
        ) == i + 1 by {
            if i < done.len() {
                assert(all[i] == done[i]);
            } else {
                assert(all[i] == step.effects[i - done.len()]);
            }
        }
        assert forall|i: int, j: int|
            0 <= i < j < all.len() && (#[trigger] all[i]) is Panic implies (#[trigger] all[j])
            is Panic by {
            if j < done.len() {
                assert(all[i] == done[i]);
                assert(all[j] == done[j]);
            } else if i < done.len() {
                assert(all[i] == done[i]);
                assert(done.last() is Panic) by {
                    assert(stage_after(before) == Stage::Failed);
                }
                assert(all[j] == step.effects[j - done.len()]);
            } else {
                assert(all[i] == step.effects[i - done.len()]);
                assert(all[j] == step.effects[j - done.len()]);
            }
        }
        if step.next != Stage::Failed {
            assert forall|i: int| 0 <= i < all.len() implies !((#[trigger] all[i]) is Panic) by {
                if i < done.len() {
                    assert(all[i] == done[i]);
                } else {
                    assert(all[i] == step.effects[i - done.len()]);
                }
            }
        } else {
            assert(all.last() == step.effects.last());
        }
    }
}

/// The bring-up keeps its order, whatever the platform answers.
///
/// In every run, what was asked of the machine is the bring-up sequence as far
/// as it got, followed by nothing but the kernel giving up. So the local
/// controller is only enabled after the legacy controllers were remapped and
/// masked; the processor is only let take interrupts as the eleventh and last
/// step, after everything else; and a run that is done has asked for exactly
/// the eleven.
pub proof fn lemma_bring_up_order(physical_memory_offset: u64, steps: Seq<Step>)
    requires
        is_run(physical_memory_offset, steps),
    ensures
        in_order(trace(steps)),
        forall|i: int|
            0 <= i < trace(steps).len() && (#[trigger] trace(steps)[i]) is EnableLocalApic ==> i
                == 4 && trace(steps)[0] is RemapPic && trace(steps)[1] is MaskPic,
        forall|i: int|
            0 <= i < trace(steps).len() && (#[trigger] trace(steps)[i]) is EnableInterrupts ==> i
                == 10 && trace(steps)[4] is EnableLocalApic,
        forall|i: int, j: int|
            0 <= i < j < trace(steps).len() && (#[trigger] trace(steps)[i]) is EnableInterrupts
                ==> (#[trigger] trace(steps)[j]) is Panic,
        stage_after(steps) == Stage::Done ==> trace(steps).len() == 11 && trace(steps)[10]
            is EnableInterrupts,
        stage_after(steps) != Stage::Done && stage_after(steps) != Stage::Failed ==> forall|i: int|
            0 <= i < trace(steps).len() ==> !((#[trigger] trace(steps)[i]) is EnableInterrupts),
{
    lemma_on_track(physical_memory_offset, steps);
    let effects = trace(steps);
    assert forall|i: int| 0 <= i < effects.len() && (#[trigger] effects[i]) is EnableLocalApic implies i
        == 4 && effects[0] is RemapPic && effects[1] is MaskPic by {
        assert(!(effects[0] is Panic) && !(effects[1] is Panic)) by {
            if effects[0] is Panic {
                assert(effects[i] is Panic);
            }
            if effects[1] is Panic {
                assert(effects[i] is Panic);
            }
        }
    }
    assert forall|i: int| 0 <= i < effects.len() && (#[trigger] effects[i]) is EnableInterrupts implies i
        == 10 && effects[4] is EnableLocalApic by {
        if effects[4] is Panic {
            assert(effects[i] is Panic);
        }
    }
    assert forall|i: int, j: int|
        0 <= i < j < effects.len() && (#[trigger] effects[i]) is EnableInterrupts implies (
    #[trigger] effects[j]) is Panic by {
        assert(effects[j] is Panic || place(effects[j]) == j + 1);
    }
    if stage_after(steps) == Stage::Done {
        assert(!(effects[10] is Panic));
    }
}

} // verus!
