use kernel::apic::ApicInterruptIndex;
use kernel::console::Message;
use kernel::effect::{Effect, Fatal};
use kernel::interrupts::handlers;
use kernel::interrupts::{
    decode_selector_error, dispatch, interrupt_table, DescriptorTable, Entry, Handler,
    InterruptTable, SelectorError, StackFrame, BREAKPOINT_VECTOR, DOUBLE_FAULT_VECTOR,
    GENERAL_PROTECTION_VECTOR, PAGE_FAULT_VECTOR, VECTOR_COUNT,
};

fn frame() -> StackFrame {
    StackFrame {
        instruction_pointer: 0x20_1000,
        code_segment: 8,
        cpu_flags: 0x2,
        stack_pointer: 0x7FFF_F000,
        stack_segment: 0,
    }
}

fn printed(effects: &[Effect]) -> Vec<Message> {
    let mut messages = Vec::new();
    for effect in effects {
        if let Effect::Print(message) = effect {
            messages.push(*message);
        }
    }
    messages
}

fn rendered(effects: &[Effect]) -> String {
    let mut text = String::new();
    for message in printed(effects) {
        text.push_str(&message.render());
    }
    text
}

fn acknowledgements(effects: &[Effect]) -> usize {
    effects.iter().filter(|effect| matches!(effect, Effect::EndOfInterrupt)).count()
}

fn stops(effects: &[Effect]) -> bool {
    effects.iter().any(|effect| matches!(effect, Effect::Halt | Effect::Panic(_)))
}

#[test]
fn zero_code_has_no_parts() {
    assert_eq!(decode_selector_error(0), None);
}

#[test]
fn external_bit_and_first_interrupt_table_encoding() {
    assert_eq!(
        decode_selector_error(0b011),
        Some(SelectorError { external: true, table: DescriptorTable::Idt, index: 0 })
    );
}

#[test]
fn second_interrupt_table_encoding_reads_the_same() {
    assert_eq!(
        decode_selector_error(0b111),
        Some(SelectorError { external: true, table: DescriptorTable::Idt, index: 0 })
    );
    assert_eq!(
        decode_selector_error(0b110),
        Some(SelectorError { external: false, table: DescriptorTable::Idt, index: 0 })
    );
}

#[test]
fn table_field_selects_the_table() {
    assert_eq!(decode_selector_error(0b001).unwrap().table, DescriptorTable::Gdt);
    assert_eq!(decode_selector_error(0b010).unwrap().table, DescriptorTable::Idt);
    assert_eq!(decode_selector_error(0b100).unwrap().table, DescriptorTable::Ldt);
    assert_eq!(decode_selector_error(0b1000).unwrap().table, DescriptorTable::Gdt);
}

#[test]
fn index_is_taken_from_bits_three_to_twelve() {
    assert_eq!(
        decode_selector_error(0x10),
        Some(SelectorError { external: false, table: DescriptorTable::Gdt, index: 2 })
    );
    assert_eq!(decode_selector_error(0x1FFF).unwrap().index, 1023);
    assert_eq!(decode_selector_error(0x1FF8).unwrap().index, 1023);
    assert_eq!(decode_selector_error((5 << 3) | 0b101).unwrap().index, 5);
}

#[test]
fn bits_above_the_index_are_ignored() {
    assert_eq!(
        decode_selector_error(0x2000),
        Some(SelectorError { external: false, table: DescriptorTable::Gdt, index: 0 })
    );
    assert_eq!(
        decode_selector_error(u64::MAX),
        Some(SelectorError { external: true, table: DescriptorTable::Idt, index: 1023 })
    );
}

#[test]
fn breakpoint_is_reported_and_resumed() {
    let effects = handlers::breakpoint(frame());
    assert_eq!(printed(&effects), vec![Message::Breakpoint, Message::Frame(frame())]);
    assert_eq!(effects.len(), 2);
    assert_eq!(acknowledgements(&effects), 0);
    assert!(!stops(&effects));
    assert!(rendered(&effects).starts_with("EXCEPTION: BREAKPOINT\nInterruptStackFrame {"));
}

#[test]
fn timer_prints_a_dot_and_acknowledges() {
    let effects = handlers::timer(frame());
    assert_eq!(effects.len(), 2);
    assert!(matches!(effects[0], Effect::Print(Message::Tick)));
    assert!(matches!(effects[1], Effect::EndOfInterrupt));
    assert_eq!(rendered(&effects), ".");
}

#[test]
fn keyboard_is_reported_and_acknowledged() {
    let effects = handlers::keyboard(frame());
    assert_eq!(effects.len(), 2);
    assert!(matches!(effects[0], Effect::Print(Message::KeyPressed)));
    assert!(matches!(effects[1], Effect::EndOfInterrupt));
    assert_eq!(rendered(&effects), "KEY PRESSED\n");
}

#[test]
fn error_interrupt_is_reported_and_acknowledged() {
    let effects = handlers::error(frame());
    assert_eq!(effects.len(), 2);
    assert_eq!(printed(&effects), vec![Message::ErrorInterrupt(frame())]);
    assert!(matches!(effects[1], Effect::EndOfInterrupt));
    assert!(rendered(&effects).starts_with("RECEIVED ERROR INTERRUPT: InterruptStackFrame {"));
}

#[test]
fn spurious_interrupt_is_reported_and_acknowledged() {
    let effects = handlers::spurious(frame());
    assert_eq!(effects.len(), 2);
    assert_eq!(printed(&effects), vec![Message::SpuriousInterrupt(frame())]);
    assert!(matches!(effects[1], Effect::EndOfInterrupt));
    assert!(rendered(&effects).starts_with("RECEIVED SPURIOUS INTERRUPT: InterruptStackFrame {"));
}

#[test]
fn page_fault_is_reported_and_resumed() {
    let effects = handlers::page_fault(frame(), 0b10);
    assert_eq!(effects.len(), 3);
    assert_eq!(
        printed(&effects),
        vec![Message::PageFault, Message::PageFaultCode(0b10), Message::Frame(frame())]
    );
    assert!(!stops(&effects));
    assert_eq!(acknowledgements(&effects), 0);
    assert!(rendered(&effects)
        .starts_with("PAGE_FAULT:\nerror code PageFaultErrorCode(CAUSED_BY_WRITE)\n"));
}

#[test]
fn general_protection_with_external_bit_and_interrupt_table() {
    let effects = handlers::general_protection(frame(), 0b011);
    assert_eq!(
        printed(&effects),
        vec![
            Message::GeneralProtection,
            Message::SegmentSelector,
            Message::External(true),
            Message::Table(DescriptorTable::Idt),
            Message::Index(0),
        ]
    );
    assert_eq!(effects.len(), 6);
    assert!(matches!(effects[5], Effect::Halt));
    assert_eq!(
        rendered(&effects),
        "GENERAL PROTECTION FAULT:\n  Segment Selector:\n    External: yes\n    Table: IDT\n    Index: 0\n"
    );
}

#[test]
fn general_protection_with_both_table_bits_set() {
    let effects = handlers::general_protection(frame(), 0b111);
    let text = rendered(&effects);
    assert!(text.contains("    External: yes\n"));
    assert!(text.contains("    Table: IDT\n"));
    assert!(matches!(effects[effects.len() - 1], Effect::Halt));
}

#[test]
fn general_protection_with_zero_code_shows_the_code() {
    let effects = handlers::general_protection(frame(), 0);
    assert_eq!(effects.len(), 3);
    assert_eq!(printed(&effects), vec![Message::GeneralProtection, Message::ErrorCode(0)]);
    assert!(matches!(effects[2], Effect::Halt));
    assert_eq!(rendered(&effects), "GENERAL PROTECTION FAULT:\nerror code 0\n");
}

#[test]
fn general_protection_with_a_selector_in_the_segment_table() {
    let effects = handlers::general_protection(frame(), (3 << 3) | 0b000);
    assert_eq!(
        rendered(&effects),
        "GENERAL PROTECTION FAULT:\n  Segment Selector:\n    External: no\n    Table: GDT\n    Index: 3\n"
    );
    assert_eq!(acknowledgements(&effects), 0);
}

#[test]
fn double_fault_is_reported_and_never_resumed() {
    let effects = handlers::double_fault(frame(), 0);
    assert_eq!(effects.len(), 4);
    assert_eq!(
        printed(&effects),
        vec![Message::DoubleFault, Message::ErrorCode(0), Message::Frame(frame())]
    );
    assert!(matches!(effects[3], Effect::Panic(Fatal::DoubleFault)));
    assert!(rendered(&effects).starts_with("DOUBLE FAULT:\nerror code 0\nInterruptStackFrame {"));
    assert_eq!(acknowledgements(&effects), 0);
}

#[test]
fn new_table_has_256_missing_gates() {
    let table = InterruptTable::new();
    assert_eq!(VECTOR_COUNT, 256);
    for vector in 0..=255u8 {
        assert_eq!(table.entry(vector), Entry::Missing);
    }
}

#[test]
fn set_handler_binds_one_vector() {
    let mut table = InterruptTable::new();
    table.set_handler(200, Handler::Timer);
    for vector in 0..=255u8 {
        if vector == 200 {
            assert_eq!(table.entry(vector), Entry::Present { handler: Handler::Timer, stack: None });
        } else {
            assert_eq!(table.entry(vector), Entry::Missing);
        }
    }
}

#[test]
fn set_stack_index_keeps_the_handler() {
    let mut table = InterruptTable::new();
    table.set_handler(8, Handler::DoubleFault);
    table.set_stack_index(8, 3);
    assert_eq!(table.entry(8), Entry::Present { handler: Handler::DoubleFault, stack: Some(3) });
}

#[test]
fn set_stack_index_leaves_a_missing_gate_missing() {
    let mut table = InterruptTable::new();
    table.set_stack_index(9, 1);
    assert_eq!(table.entry(9), Entry::Missing);
}

#[test]
fn set_handler_replaces_and_resets_the_stack() {
    let mut table = InterruptTable::new();
    table.set_handler(8, Handler::DoubleFault);
    table.set_stack_index(8, 2);
    table.set_handler(8, Handler::Breakpoint);
    assert_eq!(table.entry(8), Entry::Present { handler: Handler::Breakpoint, stack: None });
}

#[test]
fn kernel_table_binds_exactly_eight_vectors() {
    let table = interrupt_table();
    let mut present = Vec::new();
    for vector in 0..=255u8 {
        if table.entry(vector) != Entry::Missing {
            present.push(vector);
        }
    }
    assert_eq!(present, vec![3, 8, 13, 14, 32, 33, 60, 61]);
}

#[test]
fn kernel_table_binds_the_exceptions() {
    let table = interrupt_table();
    assert_eq!(
        table.entry(BREAKPOINT_VECTOR),
        Entry::Present { handler: Handler::Breakpoint, stack: None }
    );
    assert_eq!(
        table.entry(PAGE_FAULT_VECTOR),
        Entry::Present { handler: Handler::PageFault, stack: None }
    );
    assert_eq!(
        table.entry(GENERAL_PROTECTION_VECTOR),
        Entry::Present { handler: Handler::GeneralProtection, stack: None }
    );
    assert_eq!(
        table.entry(DOUBLE_FAULT_VECTOR),
        Entry::Present { handler: Handler::DoubleFault, stack: Some(0) }
    );
}

#[test]
fn kernel_table_binds_the_controller_vectors() {
    let table = interrupt_table();
    assert_eq!(table.entry(32), Entry::Present { handler: Handler::Timer, stack: None });
    assert_eq!(table.entry(33), Entry::Present { handler: Handler::Keyboard, stack: None });
    assert_eq!(table.entry(60), Entry::Present { handler: Handler::Error, stack: None });
    assert_eq!(table.entry(61), Entry::Present { handler: Handler::Spurious, stack: None });
    assert_eq!(table.entry(ApicInterruptIndex::Timer.vector()), table.entry(32));
}

#[test]
fn dispatch_of_an_unbound_vector_runs_nothing() {
    let table = interrupt_table();
    assert!(dispatch(&table, 0, frame(), 0).is_none());
    assert!(dispatch(&table, 34, frame(), 0).is_none());
    assert!(dispatch(&table, 255, frame(), 0).is_none());
}

#[test]
fn every_controller_vector_is_acknowledged_exactly_once() {
    let table = interrupt_table();
    for index in [
        ApicInterruptIndex::Timer,
        ApicInterruptIndex::Keyboard,
        ApicInterruptIndex::Error,
        ApicInterruptIndex::Spurious,
    ] {
        let effects = dispatch(&table, index.vector(), frame(), 0).unwrap();
        assert_eq!(acknowledgements(&effects), 1);
        assert!(matches!(effects[effects.len() - 1], Effect::EndOfInterrupt));
        assert!(!stops(&effects));
    }
}

#[test]
fn no_exception_is_acknowledged() {
    let table = interrupt_table();
    for vector in [3u8, 8, 13, 14] {
        let effects = dispatch(&table, vector, frame(), 0b011).unwrap();
        assert_eq!(acknowledgements(&effects), 0);
    }
}

#[test]
fn dispatched_double_fault_ends_in_a_panic() {
    let table = interrupt_table();
    let effects = dispatch(&table, DOUBLE_FAULT_VECTOR, frame(), 0).unwrap();
    let last = effects.len() - 1;
    assert!(matches!(effects[last], Effect::Panic(Fatal::DoubleFault)));
    for effect in &effects[..last] {
        assert!(matches!(effect, Effect::Print(_)));
    }
    assert!(last >= 1);
}

#[test]
fn dispatched_general_protection_decodes_the_code() {
    let table = interrupt_table();
    let effects = dispatch(&table, GENERAL_PROTECTION_VECTOR, frame(), 0b011).unwrap();
    assert!(rendered(&effects).contains("    External: yes\n    Table: IDT\n"));
    assert!(matches!(effects[effects.len() - 1], Effect::Halt));
}

#[test]
fn handler_run_agrees_with_the_routines() {
    let by_handler = Handler::Timer.run(frame(), 0);
    let direct = handlers::timer(frame());
    assert_eq!(format!("{:?}", by_handler), format!("{:?}", direct));
    let by_handler = Handler::PageFault.run(frame(), 5);
    let direct = handlers::page_fault(frame(), 5);
    assert_eq!(format!("{:?}", by_handler), format!("{:?}", direct));
}
