//! What the kernel does when the processor raises a vector.
//!
//! Each routine is handed what the processor saved and returns what is to be
//! done, in order. A list that ends in an effect that is final
//! ([`Effect::is_final`]) means that the interrupted code is never resumed;
//! after any other list it is.

use vstd::prelude::*;
use crate::console::Message;
use crate::effect::{Effect, Fatal};
use crate::interrupts::{decode_selector_error, selector_error, SelectorError, StackFrame};

verus! {

/// A breakpoint is reported, with the saved registers.
pub open spec fn breakpoint_effects(stack_frame: StackFrame) -> Seq<Effect> {
    seq![Effect::Print(Message::Breakpoint), Effect::Print(Message::Frame(stack_frame))]
}

/// A timer interrupt shows as one dot, and is acknowledged.
pub open spec fn timer_effects() -> Seq<Effect> {
    seq![Effect::Print(Message::Tick), Effect::EndOfInterrupt]
}

/// A keyboard interrupt is reported and acknowledged.
pub open spec fn keyboard_effects() -> Seq<Effect> {
    seq![Effect::Print(Message::KeyPressed), Effect::EndOfInterrupt]
}

/// An error interrupt is reported, with the saved registers, and acknowledged.
pub open spec fn error_effects(stack_frame: StackFrame) -> Seq<Effect> {
    seq![Effect::Print(Message::ErrorInterrupt(stack_frame)), Effect::EndOfInterrupt]
}

/// A spurious interrupt is reported, with the saved registers, and
/// acknowledged.
pub open spec fn spurious_effects(stack_frame: StackFrame) -> Seq<Effect> {
    seq![Effect::Print(Message::SpuriousInterrupt(stack_frame)), Effect::EndOfInterrupt]
}

/// A page fault is reported, with its error code and the saved registers.
pub open spec fn page_fault_effects(stack_frame: StackFrame, error_code: u64) -> Seq<Effect> {
    seq![
        Effect::Print(Message::PageFault),
        Effect::Print(Message::PageFaultCode(error_code)),
        Effect::Print(Message::Frame(stack_frame)),
    ]
}

/// A general-protection fault is reported and the processor halted. An error
/// code other than zero is told in its three parts; zero is shown as it is.
pub open spec fn general_protection_effects(error_code: u64) -> Seq<Effect> {
    match selector_error(error_code) {
        Some(selector) => seq![
            Effect::Print(Message::GeneralProtection),
            Effect::Print(Message::SegmentSelector),
            Effect::Print(Message::External(selector.external)),
            Effect::Print(Message::Table(selector.table)),
            Effect::Print(Message::Index(selector.index)),
            Effect::Halt,
        ],
        None => seq![
            Effect::Print(Message::GeneralProtection),
            Effect::Print(Message::ErrorCode(error_code)),
            Effect::Halt,
        ],
    }
}

/// A double fault is reported, with its error code and the saved registers, and
/// the kernel gives up.
pub open spec fn double_fault_effects(stack_frame: StackFrame, error_code: u64) -> Seq<Effect> {
    seq![
        Effect::Print(Message::DoubleFault),
        Effect::Print(Message::ErrorCode(error_code)),
        Effect::Print(Message::Frame(stack_frame)),
        Effect::Panic(Fatal::DoubleFault),
    ]
}

/// Handles a breakpoint exception.
pub fn breakpoint(stack_frame: StackFrame) -> (effects: Vec<Effect>)
    ensures
        effects@ == breakpoint_effects(stack_frame),
{
    let mut effects: Vec<Effect> = Vec::new();
    effects.push(Effect::Print(Message::Breakpoint));
    effects.push(Effect::Print(Message::Frame(stack_frame)));
    effects
}

/// Handles a timer interrupt.
pub fn timer(_stack_frame: StackFrame) -> (effects: Vec<Effect>)
    ensures
        effects@ == timer_effects(),
{
    let mut effects: Vec<Effect> = Vec::new();
    effects.push(Effect::Print(Message::Tick));
    effects.push(Effect::EndOfInterrupt);
    effects
}

/// Handles a keyboard interrupt.
pub fn keyboard(_stack_frame: StackFrame) -> (effects: Vec<Effect>)
    ensures
        effects@ == keyboard_effects(),
{
    let mut effects: Vec<Effect> = Vec::new();
    effects.push(Effect::Print(Message::KeyPressed));
    effects.push(Effect::EndOfInterrupt);
    effects
}

/// Handles an error interrupt of the local interrupt controller.
pub fn error(stack_frame: StackFrame) -> (effects: Vec<Effect>)
    ensures
        effects@ == error_effects(stack_frame),
{
    let mut effects: Vec<Effect> = Vec::new();
    effects.push(Effect::Print(Message::ErrorInterrupt(stack_frame)));
    effects.push(Effect::EndOfInterrupt);
    effects
}

/// Handles a spurious interrupt of the local interrupt controller.
pub fn spurious(stack_frame: StackFrame) -> (effects: Vec<Effect>)
    ensures
        effects@ == spurious_effects(stack_frame),
{
    let mut effects: Vec<Effect> = Vec::new();
    effects.push(Effect::Print(Message::SpuriousInterrupt(stack_frame)));
    effects.push(Effect::EndOfInterrupt);
    effects
}

/// Handles a page fault. `error_code` holds the bits of the fault's error code.
pub fn page_fault(stack_frame: StackFrame, error_code: u64) -> (effects: Vec<Effect>)
    ensures
        effects@ == page_fault_effects(stack_frame, error_code),
{
    let mut effects: Vec<Effect> = Vec::new();
    effects.push(Effect::Print(Message::PageFault));
    effects.push(Effect::Print(Message::PageFaultCode(error_code)));
    effects.push(Effect::Print(Message::Frame(stack_frame)));
    effects
}

/// Handles a general-protection fault.
pub fn general_protection(_stack_frame: StackFrame, error_code: u64) -> (effects: Vec<Effect>)
    ensures
        effects@ == general_protection_effects(error_code),
{
    let mut effects: Vec<Effect> = Vec::new();
    effects.push(Effect::Print(Message::GeneralProtection));
    match decode_selector_error(error_code) {
        Some(SelectorError { external, table, index }) => {
            effects.push(Effect::Print(Message::SegmentSelector));
            effects.push(Effect::Print(Message::External(external)));
            effects.push(Effect::Print(Message::Table(table)));
            effects.push(Effect::Print(Message::Index(index)));
        },
        None => {
            effects.push(Effect::Print(Message::ErrorCode(error_code)));
        },
    }
    effects.push(Effect::Halt);
    effects
}

/// Handles a double fault.
pub fn double_fault(stack_frame: StackFrame, error_code: u64) -> (effects: Vec<Effect>)
    ensures
        effects@ == double_fault_effects(stack_frame, error_code),
{
    let mut effects: Vec<Effect> = Vec::new();
    effects.push(Effect::Print(Message::DoubleFault));
    effects.push(Effect::Print(Message::ErrorCode(error_code)));
    effects.push(Effect::Print(Message::Frame(stack_frame)));
    effects.push(Effect::Panic(Fatal::DoubleFault));
    effects
}

} // verus!
