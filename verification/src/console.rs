//! What the kernel writes to its console, and how a write reaches the sinks.
//!
//! The kernel reports its progress and its traps as [`Message`]s. A message is
//! a value; [`Message::render`] gives the text that stands for it, and
//! [`_print`] plans the write of a text to the serial port and the
//! framebuffer console.

use vstd::prelude::*;
use vstd::string::StringExecFns;
use x86_64::structures::idt::{InterruptStackFrameValue, PageFaultErrorCode};
use x86_64::VirtAddr;
use crate::effect::Effect;
use crate::interrupts::{DescriptorTable, StackFrame};

verus! {

/// One write to the console.
#[derive(Clone, Copy, Debug, PartialEq, Eq, Structural)]
pub enum Message {
    /// The framebuffer console is up.
    FramebufferReady,
    /// The descriptor tables and the interrupt table are about to be set up.
    InterruptsStarting,
    /// The interrupt controllers are about to be set up.
    ApicStarting,
    /// The heap is about to be set up.
    HeapStarting,
    /// The step announced last is done.
    StepDone,
    /// Bring-up is complete.
    Finished,
    /// A breakpoint exception was raised.
    Breakpoint,
    /// The registers that the processor saved when it entered a handler.
    Frame(StackFrame),
    /// The timer ticked.
    Tick,
    /// A key was pressed.
    KeyPressed,
    /// The local interrupt controller reported an error.
    ErrorInterrupt(StackFrame),
    /// The local interrupt controller raised a spurious interrupt.
    SpuriousInterrupt(StackFrame),
    /// A page fault was raised.
    PageFault,
    /// The error code of a page fault, as its bits.
    PageFaultCode(u64),
    /// A general-protection fault was raised.
    GeneralProtection,
    /// The parts of a segment-selector error code follow.
    SegmentSelector,
    /// Whether the fault came while an external event was delivered.
    External(bool),
    /// The table that the faulting selector refers to.
    Table(DescriptorTable),
    /// The index of the faulting selector in that table.
    Index(u64),
    /// An error code with no parts to tell.
    ErrorCode(u64),
    /// A double fault was raised.
    DoubleFault,
}

/// The text of `{:#?}` on an `InterruptStackFrameValue` of the `x86_64` crate
/// whose instruction pointer and stack pointer are the sign extensions of the
/// low 48 bits of `instruction_pointer` and `stack_pointer`, and whose other
/// fields are as given.
pub uninterp spec fn frame_debug(
    instruction_pointer: u64,
    code_segment: u64,
    cpu_flags: u64,
    stack_pointer: u64,
    stack_segment: u64,
) -> Seq<char>;

/// The text of `{:?}` on the `PageFaultErrorCode` of the `x86_64` crate that
/// has exactly the bits `bits`.
pub uninterp spec fn page_fault_debug(bits: u64) -> Seq<char>;

/// The decimal digit `d`, for `d` below ten.
pub open spec fn digit(d: nat) -> char {
    if d == 0 {
        '0'
    } else if d == 1 {
        '1'
    } else if d == 2 {
        '2'
    } else if d == 3 {
        '3'
    } else if d == 4 {
        '4'
    } else if d == 5 {
        '5'
    } else if d == 6 {
        '6'
    } else if d == 7 {
        '7'
    } else if d == 8 {
        '8'
    } else {
        '9'
    }
}

/// `n` in decimal, without leading zeros.
pub open spec fn decimal_text(n: nat) -> Seq<char>
    decreases n,
{
    if n < 10 {
        seq![digit(n)]
    } else {
        decimal_text(n / 10).push(digit(n % 10))
    }
}

/// The name of a descriptor table as the console shows it. A selector that
/// names the interrupt table does so in two encodings, which read the same.
pub open spec fn table_text(table: DescriptorTable) -> Seq<char> {
    match table {
        DescriptorTable::Gdt => "GDT"@,
        DescriptorTable::Idt => "IDT"@,
        DescriptorTable::Ldt => "LDT"@,
    }
}

impl Message {
    /// The text that the console shows for this message.
    pub open spec fn text(self) -> Seq<char> {
        match self {
            Message::FramebufferReady => "INIT: Framebuffer... [OK]\n"@,
            Message::InterruptsStarting => "INIT: Interrupts... "@,
            Message::ApicStarting => "INIT: APIC... "@,
            Message::HeapStarting => "INIT: Heap... "@,
            Message::StepDone => "[OK]\n"@,
            Message::Finished => "Finished Initialization!\n"@,
            Message::Breakpoint => "EXCEPTION: BREAKPOINT\n"@,
            Message::Frame(frame) => frame.debug_text() + "\n"@,
            Message::Tick => "."@,
            Message::KeyPressed => "KEY PRESSED\n"@,
            Message::ErrorInterrupt(frame) => "RECEIVED ERROR INTERRUPT: "@ + frame.debug_text()
                + "\n"@,
            Message::SpuriousInterrupt(frame) => "RECEIVED SPURIOUS INTERRUPT: "@
                + frame.debug_text() + "\n"@,
            Message::PageFault => "PAGE_FAULT:\n"@,
            Message::PageFaultCode(bits) => "error code "@ + page_fault_debug(bits) + "\n"@,
            Message::GeneralProtection => "GENERAL PROTECTION FAULT:\n"@,
            Message::SegmentSelector => "  Segment Selector:\n"@,
            Message::External(external) => "    External: "@ + (if external {
                "yes"@
            } else {
                "no"@
            }) + "\n"@,
            Message::Table(table) => "    Table: "@ + table_text(table) + "\n"@,
            Message::Index(index) => "    Index: "@ + decimal_text(index as nat) + "\n"@,
            Message::ErrorCode(code) => "error code "@ + decimal_text(code as nat) + "\n"@,
            Message::DoubleFault => "DOUBLE FAULT:\n"@,
        }
    }

    /// Renders the message.
    pub fn render(&self) -> (text: String)
        ensures
            text@ == self.text(),
    {
        match *self {
            Message::FramebufferReady => String::from_str("INIT: Framebuffer... [OK]\n"),
            Message::InterruptsStarting => String::from_str("INIT: Interrupts... "),
            Message::ApicStarting => String::from_str("INIT: APIC... "),
            Message::HeapStarting => String::from_str("INIT: Heap... "),
            Message::StepDone => String::from_str("[OK]\n"),
            Message::Finished => String::from_str("Finished Initialization!\n"),
            Message::Breakpoint => String::from_str("EXCEPTION: BREAKPOINT\n"),
            Message::Frame(frame) => {
                let mut text = frame_dump(&frame);
                text.append("\n");
                text
            },
            Message::Tick => String::from_str("."),
            Message::KeyPressed => String::from_str("KEY PRESSED\n"),
            Message::ErrorInterrupt(frame) => {
                let mut text = String::from_str("RECEIVED ERROR INTERRUPT: ");
                let dump = frame_dump(&frame);
                text.append(dump.as_str());
                text.append("\n");
                text
            },
            Message::SpuriousInterrupt(frame) => {
                let mut text = String::from_str("RECEIVED SPURIOUS INTERRUPT: ");
                let dump = frame_dump(&frame);
                text.append(dump.as_str());
                text.append("\n");
                text
            },
            Message::PageFault => String::from_str("PAGE_FAULT:\n"),
            Message::PageFaultCode(bits) => {
                let mut text = String::from_str("error code ");
                let flags = page_fault_flags(bits);
                text.append(flags.as_str());
                text.append("\n");
                text
            },
            Message::GeneralProtection => String::from_str("GENERAL PROTECTION FAULT:\n"),
            Message::SegmentSelector => String::from_str("  Segment Selector:\n"),
            Message::External(external) => {
                let mut text = String::from_str("    External: ");
                text.append(
                    if external {
                        "yes"
                    } else {
                        "no"
                    },
                );
                text.append("\n");
                text
            },
            Message::Table(table) => {
                let mut text = String::from_str("    Table: ");
                text.append(
                    match table {
                        DescriptorTable::Gdt => "GDT",
                        DescriptorTable::Idt => "IDT",
                        DescriptorTable::Ldt => "LDT",
                    },
                );
                text.append("\n");
                text
            },
            Message::Index(index) => {
                let mut text = String::from_str("    Index: ");
                let number = decimal(index);
                text.append(number.as_str());
                text.append("\n");
                text
            },
            Message::ErrorCode(code) => {
                let mut text = String::from_str("error code ");
                let number = decimal(code);
                text.append(number.as_str());
                text.append("\n");
                text
            },
            Message::DoubleFault => String::from_str("DOUBLE FAULT:\n"),
        }
    }
}

impl StackFrame {
    /// The text of the frame's dump.
    pub open spec fn debug_text(self) -> Seq<char> {
        frame_debug(
            self.instruction_pointer,
            self.code_segment,
            self.cpu_flags,
            self.stack_pointer,
            self.stack_segment,
        )
    }
}

/// Formats the frame as the `x86_64` crate's `InterruptStackFrameValue` does
/// with `{:#?}`. Its two addresses go through `VirtAddr::new_truncate`, which
/// keeps a canonical address as it is.
#[verifier::external_body]
fn frame_dump(frame: &StackFrame) -> (text: String)
    ensures
        text@ == frame_debug(
            frame.instruction_pointer,
            frame.code_segment,
            frame.cpu_flags,
            frame.stack_pointer,
            frame.stack_segment,
        ),
{
    let value = InterruptStackFrameValue {
        instruction_pointer: VirtAddr::new_truncate(frame.instruction_pointer),
        code_segment: frame.code_segment,
        cpu_flags: frame.cpu_flags,
        stack_pointer: VirtAddr::new_truncate(frame.stack_pointer),
        stack_segment: frame.stack_segment,
    };
    format!("{:#?}", value)
}

/// Formats a page fault's error code as the `x86_64` crate's
/// `PageFaultErrorCode` does with `{:?}`.
#[verifier::external_body]
fn page_fault_flags(bits: u64) -> (text: String)
    ensures
        text@ == page_fault_debug(bits),
{
    format!("{:?}", PageFaultErrorCode::from_bits_retain(bits))
}

/// The one-character text of a decimal digit.
fn digit_str(d: u64) -> (text: &'static str)
    requires
        d < 10,
    ensures
        text@ == seq![digit(d as nat)],
{
    proof {
        reveal_strlit("0");
        reveal_strlit("1");
        reveal_strlit("2");
        reveal_strlit("3");
        reveal_strlit("4");
        reveal_strlit("5");
        reveal_strlit("6");
        reveal_strlit("7");
        reveal_strlit("8");
        reveal_strlit("9");
    }
    let text = if d == 0 {
        "0"
    } else if d == 1 {
        "1"
    } else if d == 2 {
        "2"
    } else if d == 3 {
        "3"
    } else if d == 4 {
        "4"
    } else if d == 5 {
        "5"
    } else if d == 6 {
        "6"
    } else if d == 7 {
        "7"
    } else if d == 8 {
        "8"
    } else {
        "9"
    };
    assert(text@ =~= seq![digit(d as nat)]);
    text
}

/// Writes `n` in decimal.
pub fn decimal(n: u64) -> (text: String)
    ensures
        text@ == decimal_text(n as nat),
    decreases n,
{
    if n < 10 {
        String::from_str(digit_str(n))
    } else {
        let mut text = decimal(n / 10);
        text.append(digit_str(n % 10));
        assert(text@ =~= decimal_text((n / 10) as nat).push(digit((n % 10) as nat)));
        text
    }
}

/// Plans one write of `args` to the console.
///
/// The text goes to the serial port first and to the framebuffer console
/// second. Interrupts are off for the whole write, so that no handler can
/// write in between: where they were on (`interrupts_enabled`), they are
/// switched off before the first write and on again after the second; where
/// they were off, they stay off.
pub fn _print(args: &str, interrupts_enabled: bool) -> (effects: Vec<Effect>)
    ensures
        effects@.len() == if interrupts_enabled { 4int } else { 2int },
        interrupts_enabled ==> effects@[0] == Effect::DisableInterrupts
            && effects@[1].writes_serial(args@) && effects@[2].writes_framebuffer(args@)
            && effects@[3] == Effect::EnableInterrupts,
        !interrupts_enabled ==> effects@[0].writes_serial(args@)
            && effects@[1].writes_framebuffer(args@),
{
    let mut effects: Vec<Effect> = Vec::new();
    if interrupts_enabled {
        effects.push(Effect::DisableInterrupts);
    }
    effects.push(Effect::SerialWrite(String::from_str(args)));
    effects.push(Effect::FramebufferWrite(String::from_str(args)));
    if interrupts_enabled {
        effects.push(Effect::EnableInterrupts);
    }
    effects
}

} // verus!
