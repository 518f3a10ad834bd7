use kernel::apic::{
    disable_pic, init, keyboard_entry, local_apic, local_apic_built, ApicInterruptIndex, Event,
    IrqVector, Stage, IOAPIC_BASE, IOAPIC_IRQ_OFFSET, PIC_PRIMARY_OFFSET, PIC_SECONDARY_OFFSET,
    REGISTER_SPAN,
};
use kernel::effect::{Effect, Fatal};
use x2apic::ioapic::{IrqFlags, IrqMode, RedirectionTableEntry};

const OFFSET: u64 = 0xFFFF_8000_0000_0000;

fn run_to(stage: Stage) -> Vec<Effect> {
    let mut trace = Vec::new();
    let (mut at, effects) = init(Stage::Idle, OFFSET, Event::Start);
    trace.extend(effects);
    while at != stage {
        let event = match at {
            Stage::AwaitingBase => Event::LocalApicBase(0xFEE0_0000),
            Stage::AwaitingId => Event::LocalApicId(0),
            Stage::AwaitingEntry { .. } => Event::Redirection(RedirectionTableEntry::default()),
            _ => panic!("bring-up stopped at {:?}", at),
        };
        let (next, effects) = init(at, OFFSET, event);
        trace.extend(effects);
        at = next;
    }
    trace
}

fn position(trace: &[Effect], wanted: fn(&Effect) -> bool) -> usize {
    let found: Vec<usize> = (0..trace.len()).filter(|&i| wanted(&trace[i])).collect();
    assert_eq!(found.len(), 1);
    found[0]
}

#[test]
fn controller_vectors_have_their_numbers() {
    assert_eq!(ApicInterruptIndex::Timer.vector(), 32);
    assert_eq!(ApicInterruptIndex::Keyboard.vector(), 33);
    assert_eq!(ApicInterruptIndex::Error.vector(), 60);
    assert_eq!(ApicInterruptIndex::Spurious.vector(), 61);
    assert_eq!(ApicInterruptIndex::Timer.as_usize(), 32);
    assert_eq!(ApicInterruptIndex::Keyboard.as_usize(), 33);
    assert_eq!(ApicInterruptIndex::Error.as_usize(), 60);
    assert_eq!(ApicInterruptIndex::Spurious.as_usize(), 61);
}

#[test]
fn keyboard_is_line_one() {
    assert_eq!(IrqVector::Keyboard.line(), 1);
}

#[test]
fn controller_vectors_lie_above_the_exceptions() {
    for index in [
        ApicInterruptIndex::Timer,
        ApicInterruptIndex::Keyboard,
        ApicInterruptIndex::Error,
        ApicInterruptIndex::Spurious,
    ] {
        assert!(index.vector() >= 32);
    }
    assert_eq!(
        ApicInterruptIndex::Keyboard.vector(),
        IOAPIC_IRQ_OFFSET + IrqVector::Keyboard.line()
    );
}

#[test]
fn device_constants() {
    assert_eq!(IOAPIC_BASE, 0xFEC0_0000);
    assert_eq!(IOAPIC_IRQ_OFFSET, 0x20);
    assert_eq!(PIC_PRIMARY_OFFSET, 32);
    assert_eq!(PIC_SECONDARY_OFFSET, 40);
}

#[test]
fn legacy_controllers_are_remapped_then_masked() {
    let effects = disable_pic();
    assert_eq!(effects.len(), 2);
    assert!(matches!(effects[0], Effect::RemapPic { primary: 32, secondary: 40 }));
    assert!(matches!(effects[1], Effect::MaskPic));
}

#[test]
fn local_apic_is_built_for_the_kernel_vectors() {
    let apic = local_apic(OFFSET + 0xFEE0_0000).unwrap();
    let shown = format!("{:?}", apic);
    assert!(shown.contains("timer_vector: 32"));
    assert!(shown.contains("error_vector: 60"));
    assert!(shown.contains("spurious_vector: 61"));
}

#[test]
fn local_apic_reaches_its_registers_at_the_address_given() {
    let address = OFFSET + 0xFEE0_0000;
    let shown = format!("{:?}", local_apic(address).unwrap());
    assert!(
        shown.contains("mode: X2Apic")
            || shown.contains(&format!("mode: XApic {{ xapic_base: {} }}", address))
    );
    let shown = format!("{:?}", local_apic(0x1000).unwrap());
    assert!(
        shown.contains("mode: X2Apic") || shown.contains("mode: XApic { xapic_base: 4096 }")
    );
}

#[test]
fn keyboard_entry_on_a_cleared_entry() {
    let entry = keyboard_entry(RedirectionTableEntry::default(), 0);
    assert!(matches!(entry.mode(), IrqMode::Fixed));
    assert_eq!(entry.flags(), IrqFlags::MASKED);
    assert_eq!(entry.dest(), 0);
    assert_eq!(entry.vector(), 0);
}

#[test]
fn keyboard_entry_names_the_local_controller() {
    let entry = keyboard_entry(RedirectionTableEntry::default(), 5);
    assert_eq!(entry.dest(), 5);
    let entry = keyboard_entry(RedirectionTableEntry::default(), 0x1234_5678);
    assert_eq!(entry.dest(), 0x78);
    let entry = keyboard_entry(RedirectionTableEntry::default(), 255);
    assert_eq!(entry.dest(), 255);
    let entry = keyboard_entry(RedirectionTableEntry::default(), 256);
    assert_eq!(entry.dest(), 0);
}

#[test]
fn keyboard_entry_keeps_the_vector_and_resets_mode_and_flags() {
    let mut held = RedirectionTableEntry::default();
    held.set_vector(33);
    held.set_mode(IrqMode::LowestPriority);
    held.set_flags(IrqFlags::LEVEL_TRIGGERED | IrqFlags::LOW_ACTIVE | IrqFlags::LOGICAL_DEST);
    held.set_dest(9);
    let entry = keyboard_entry(held, 2);
    assert_eq!(entry.vector(), 33);
    assert!(matches!(entry.mode(), IrqMode::Fixed));
    assert_eq!(entry.flags(), IrqFlags::MASKED);
    assert_eq!(entry.dest(), 2);
}

#[test]
fn start_switches_the_legacy_controllers_off_and_asks_for_the_base() {
    let (stage, effects) = init(Stage::Idle, OFFSET, Event::Start);
    assert_eq!(stage, Stage::AwaitingBase);
    assert_eq!(effects.len(), 3);
    assert!(matches!(effects[0], Effect::RemapPic { primary: 32, secondary: 40 }));
    assert!(matches!(effects[1], Effect::MaskPic));
    assert!(matches!(effects[2], Effect::ReadLocalApicBase));
}

#[test]
fn base_arms_both_controllers() {
    let (stage, effects) = init(Stage::AwaitingBase, OFFSET, Event::LocalApicBase(0xFEE0_0000));
    assert_eq!(stage, Stage::AwaitingId);
    assert_eq!(effects.len(), 4);
    match &effects[0] {
        Effect::InstallLocalApic(apic) => {
            let shown = format!("{:?}", apic);
            assert!(shown.contains("timer_vector: 32"));
            assert!(shown.contains("error_vector: 60"));
            assert!(shown.contains("spurious_vector: 61"));
        }
        other => panic!("expected the handle, found {:?}", other),
    }
    assert!(matches!(effects[1], Effect::EnableLocalApic));
    assert!(matches!(
        effects[2],
        Effect::InitIoApic { address: 0xFFFF_8000_FEC0_0000, offset: 0x20 }
    ));
    assert!(matches!(effects[3], Effect::ReadLocalApicId));
}

#[test]
fn identifier_asks_for_the_keyboard_entry() {
    let (stage, effects) = init(Stage::AwaitingId, OFFSET, Event::LocalApicId(3));
    assert_eq!(stage, Stage::AwaitingEntry { apic_id: 3 });
    assert_eq!(effects.len(), 1);
    assert!(matches!(effects[0], Effect::ReadRedirection { irq: 1 }));
}

#[test]
fn entry_routes_the_keyboard_and_enables_interrupts_last() {
    let mut held = RedirectionTableEntry::default();
    held.set_vector(33);
    let (stage, effects) =
        init(Stage::AwaitingEntry { apic_id: 3 }, OFFSET, Event::Redirection(held));
    assert_eq!(stage, Stage::Done);
    assert_eq!(effects.len(), 3);
    match &effects[0] {
        Effect::WriteRedirection { irq, entry } => {
            assert_eq!(*irq, 1);
            assert_eq!(entry.vector(), 33);
            assert!(matches!(entry.mode(), IrqMode::Fixed));
            assert_eq!(entry.flags(), IrqFlags::MASKED);
            assert_eq!(entry.dest(), 3);
        }
        other => panic!("expected the entry, found {:?}", other),
    }
    assert!(matches!(effects[1], Effect::UnmaskIrq { irq: 1 }));
    assert!(matches!(effects[2], Effect::EnableInterrupts));
}

#[test]
fn whole_bring_up_keeps_its_order() {
    let trace = run_to(Stage::Done);
    assert_eq!(trace.len(), 11);
    let remap = position(&trace, |e| matches!(e, Effect::RemapPic { .. }));
    let mask = position(&trace, |e| matches!(e, Effect::MaskPic));
    let install = position(&trace, |e| matches!(e, Effect::InstallLocalApic(_)));
    let enable = position(&trace, |e| matches!(e, Effect::EnableLocalApic));
    let io_apic = position(&trace, |e| matches!(e, Effect::InitIoApic { .. }));
    let write = position(&trace, |e| matches!(e, Effect::WriteRedirection { .. }));
    let unmask = position(&trace, |e| matches!(e, Effect::UnmaskIrq { .. }));
    let interrupts = position(&trace, |e| matches!(e, Effect::EnableInterrupts));
    assert!(remap < mask);
    assert!(mask < install);
    assert!(install < enable);
    assert!(enable < io_apic);
    assert!(io_apic < write);
    assert!(write < unmask);
    assert!(unmask < interrupts);
    assert_eq!(interrupts, trace.len() - 1);
    assert!(!trace.iter().any(|e| matches!(e, Effect::Panic(_))));
}

#[test]
fn interrupts_stay_off_until_the_last_step() {
    for stage in [Stage::AwaitingBase, Stage::AwaitingId, Stage::AwaitingEntry { apic_id: 0 }] {
        let trace = run_to(stage);
        assert!(!trace.iter().any(|e| matches!(e, Effect::EnableInterrupts)));
    }
}

#[test]
fn an_event_out_of_turn_fails_the_bring_up() {
    let (stage, effects) = init(Stage::Idle, OFFSET, Event::LocalApicId(0));
    assert_eq!(stage, Stage::Failed);
    assert_eq!(effects.len(), 1);
    assert!(matches!(effects[0], Effect::Panic(Fatal::OutOfTurn)));
    let (stage, effects) = init(Stage::AwaitingBase, OFFSET, Event::Start);
    assert_eq!(stage, Stage::Failed);
    assert!(matches!(effects[0], Effect::Panic(Fatal::OutOfTurn)));
    let (stage, effects) = init(
        Stage::AwaitingId,
        OFFSET,
        Event::Redirection(RedirectionTableEntry::default()),
    );
    assert_eq!(stage, Stage::Failed);
    assert!(matches!(effects[0], Effect::Panic(Fatal::OutOfTurn)));
}

#[test]
fn bring_up_cannot_be_run_again() {
    let (stage, effects) = init(Stage::Done, OFFSET, Event::Start);
    assert_eq!(stage, Stage::Failed);
    assert_eq!(effects.len(), 1);
    assert!(matches!(effects[0], Effect::Panic(Fatal::OutOfTurn)));
    let (stage, effects) = init(Stage::Failed, OFFSET, Event::Start);
    assert_eq!(stage, Stage::Failed);
    assert!(matches!(effects[0], Effect::Panic(Fatal::OutOfTurn)));
}

#[test]
fn local_controller_address_out_of_range_fails_before_anything_is_armed() {
    let (stage, effects) = init(Stage::AwaitingBase, u64::MAX, Event::LocalApicBase(0xFEE0_0000));
    assert_eq!(stage, Stage::Failed);
    assert_eq!(effects.len(), 1);
    assert!(matches!(effects[0], Effect::Panic(Fatal::AddressOverflow)));
}

#[test]
fn io_controller_address_out_of_range_fails_after_the_local_controller() {
    let offset = u64::MAX - 0xFEC0_0000 + 1;
    let (stage, effects) = init(Stage::AwaitingBase, offset, Event::LocalApicBase(0x1000));
    assert_eq!(stage, Stage::Failed);
    assert_eq!(effects.len(), 3);
    assert!(matches!(effects[0], Effect::InstallLocalApic(_)));
    assert!(matches!(effects[1], Effect::EnableLocalApic));
    assert!(matches!(effects[2], Effect::Panic(Fatal::AddressOverflow)));
}

#[test]
fn largest_offset_that_fits() {
    let offset = u64::MAX - 0xFEE0_0000 - REGISTER_SPAN;
    let (stage, effects) = init(Stage::AwaitingBase, offset, Event::LocalApicBase(0xFEE0_0000));
    assert_eq!(stage, Stage::AwaitingId);
    assert_eq!(effects.len(), 4);
    assert!(matches!(
        effects[2],
        Effect::InitIoApic { address, .. } if address == u64::MAX - 0x20_0000 - REGISTER_SPAN
    ));
}

#[test]
fn registers_that_reach_past_the_address_space_fail_the_build() {
    let offset = u64::MAX - 0xFEE0_0000 - REGISTER_SPAN + 1;
    let (stage, effects) = init(Stage::AwaitingBase, offset, Event::LocalApicBase(0xFEE0_0000));
    assert_eq!(stage, Stage::Failed);
    assert_eq!(effects.len(), 1);
    assert!(matches!(effects[0], Effect::Panic(Fatal::LocalApicBuild)));
    let (stage, effects) =
        init(Stage::AwaitingBase, u64::MAX - 0xFEE0_0000, Event::LocalApicBase(0xFEE0_0000));
    assert_eq!(stage, Stage::Failed);
    assert!(matches!(effects[0], Effect::Panic(Fatal::LocalApicBuild)));
}

#[test]
fn local_apic_is_built_exactly_where_its_registers_fit() {
    assert_eq!(REGISTER_SPAN, 0xFFFF);
    assert!(local_apic(0).is_ok());
    assert!(local_apic(0xFEE0_0000).is_ok());
    assert!(local_apic(0xFFFF_8000_FEE0_0000).is_ok());
    assert!(local_apic(u64::MAX - 0x1_0000).is_ok());
    assert!(local_apic(u64::MAX - 0xFFFF).is_ok());
    assert!(local_apic(u64::MAX - 0xFFFE).is_err());
    assert!(local_apic(u64::MAX - 1).is_err());
    assert!(local_apic(u64::MAX).is_err());
}

#[test]
fn a_failed_build_gives_up_at_once() {
    let (stage, effects) = local_apic_built(Err("LocalApicBuilder: required field(s) empty"), Some(1));
    assert_eq!(stage, Stage::Failed);
    assert_eq!(effects.len(), 1);
    assert!(matches!(effects[0], Effect::Panic(Fatal::LocalApicBuild)));
}

#[test]
fn a_handle_is_installed_as_it_was_built() {
    let apic = local_apic(0x2000).unwrap();
    let before = format!("{:?}", apic);
    let (stage, effects) = local_apic_built(Ok(apic), Some(0x3000));
    assert_eq!(stage, Stage::AwaitingId);
    assert_eq!(effects.len(), 4);
    assert!(matches!(&effects[0], Effect::InstallLocalApic(kept) if format!("{:?}", kept) == before));
    assert!(matches!(effects[2], Effect::InitIoApic { address: 0x3000, offset: 0x20 }));
}
