//! What the kernel asks of the machine.
//!
//! Nothing in this crate touches the hardware. A function that decides what is
//! to happen hands back a list of [`Effect`]s, in the order in which they are
//! to be carried out, and the platform code that called it carries them out.

use vstd::prelude::*;
use x2apic::ioapic::RedirectionTableEntry;
use x2apic::lapic::LocalApic;
use x86_64::structures::gdt::SegmentSelector;
use crate::console::Message;

verus! {

/// Why the kernel gives up.
#[derive(Clone, Copy, Debug, PartialEq, Eq, Structural)]
pub enum Fatal {
    /// The boot handoff holds no physical-memory offset.
    NoPhysicalMemoryOffset,
    /// The boot handoff holds no framebuffer.
    NoFramebuffer,
    /// An address of a memory-mapped device does not fit in 64 bits.
    AddressOverflow,
    /// The handle of the local interrupt controller could not be built.
    LocalApicBuild,
    /// The heap could not be set up.
    HeapInit,
    /// A step of a bring-up sequence was asked for out of turn.
    OutOfTurn,
    /// A double fault was raised.
    DoubleFault,
}

/// One operation on the machine.
#[derive(Debug)]
pub enum Effect {
    /// Write a message to the console.
    Print(Message),
    /// Send a text to the serial port.
    SerialWrite(String),
    /// Draw a text on the framebuffer console.
    FramebufferWrite(String),
    /// Keep the processor from taking hardware interrupts.
    DisableInterrupts,
    /// Let the processor take hardware interrupts.
    EnableInterrupts,
    /// Remember the offset at which the loader mapped physical memory.
    SetPhysicalMemoryOffset(u64),
    /// Set up the framebuffer console.
    InitConsole,
    /// Set up the descriptor tables and the interrupt table.
    InitInterrupts,
    /// Set up the interrupt controllers.
    InitApic,
    /// Set up the heap; the answer is whether that worked.
    InitHeap { physical_memory_offset: u64 },
    /// Load the segment table into the processor.
    LoadGdt,
    /// Reload the code segment register.
    SetCodeSegment(SegmentSelector),
    /// Reload the data segment register.
    SetDataSegment(SegmentSelector),
    /// Reload the extra segment register.
    SetExtraSegment(SegmentSelector),
    /// Reload the stack segment register.
    SetStackSegment(SegmentSelector),
    /// Load the task register.
    LoadTaskRegister(SegmentSelector),
    /// Load the interrupt table into the processor.
    LoadIdt,
    /// Move the two legacy controllers' interrupts to the vectors that start at
    /// the two offsets.
    RemapPic { primary: u8, secondary: u8 },
    /// Mask every line of the two legacy controllers.
    MaskPic,
    /// Read the physical base address of the local interrupt controller; the
    /// answer is that address.
    ReadLocalApicBase,
    /// Keep this handle as the local interrupt controller.
    InstallLocalApic(LocalApic),
    /// Enable the local interrupt controller.
    EnableLocalApic,
    /// Read the identifier of the local interrupt controller; the answer is that
    /// identifier.
    ReadLocalApicId,
    /// Make the handle of the I/O interrupt controller at this address, and let
    /// each of its lines raise the vector `offset` above the line's number.
    InitIoApic { address: u64, offset: u8 },
    /// Read the redirection entry of a line; the answer is that entry.
    ReadRedirection { irq: u8 },
    /// Store the redirection entry of a line.
    WriteRedirection { irq: u8, entry: RedirectionTableEntry },
    /// Unmask a line of the I/O interrupt controller.
    UnmaskIrq { irq: u8 },
    /// Tell the local interrupt controller that the interrupt was handled.
    EndOfInterrupt,
    /// Stop the processor for good.
    Halt,
    /// Give up: report the reason and stop the processor for good.
    Panic(Fatal),
}

impl Fatal {
    /// The reason in words.
    pub open spec fn text(self) -> Seq<char> {
        match self {
            Fatal::NoPhysicalMemoryOffset => "The boot information holds no physical memory offset"@,
            Fatal::NoFramebuffer => "The boot information holds no framebuffer"@,
            Fatal::AddressOverflow => "The address of a device is out of range"@,
            Fatal::LocalApicBuild => "Failed to build LocalApic"@,
            Fatal::HeapInit => "Heap initialization failed"@,
            Fatal::OutOfTurn => "Initialization ran out of turn"@,
            Fatal::DoubleFault => "double fault"@,
        }
    }

    /// The reason in words.
    pub fn message(&self) -> (text: &'static str)
        ensures
            text@ == self.text(),
    {
        match self {
            Fatal::NoPhysicalMemoryOffset => "The boot information holds no physical memory offset",
            Fatal::NoFramebuffer => "The boot information holds no framebuffer",
            Fatal::AddressOverflow => "The address of a device is out of range",
            Fatal::LocalApicBuild => "Failed to build LocalApic",
            Fatal::HeapInit => "Heap initialization failed",
            Fatal::OutOfTurn => "Initialization ran out of turn",
            Fatal::DoubleFault => "double fault",
        }
    }
}

impl Effect {
    /// Whether the effect sends `text` to the serial port.
    pub open spec fn writes_serial(self, text: Seq<char>) -> bool {
        self matches Effect::SerialWrite(sent) && sent@ == text
    }

    /// Whether the effect draws `text` on the framebuffer console.
    pub open spec fn writes_framebuffer(self, text: Seq<char>) -> bool {
        self matches Effect::FramebufferWrite(drawn) && drawn@ == text
    }

    /// Whether the processor never gets past this effect.
    pub open spec fn is_final(self) -> bool {
        self is Halt || self is Panic
    }
}

} // verus!
