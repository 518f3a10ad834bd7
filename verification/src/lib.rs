//! The bring-up and trap-handling core of a kernel for x86-64.
//!
//! The crate decides; it does not act. Its functions take what the platform
//! knows (the boot handoff, the answers of the hardware, the frame that the
//! processor saved) and return the [`effect::Effect`]s that are to be carried
//! out on the machine, in their order. The platform code around the crate
//! carries them out.
//!
//! * [`lazy`]: the cell that holds a singleton built at most once.
//! * [`gdt`]: the segment table, the task state segment and their loading.
//! * [`interrupts`]: the interrupt table and the routines bound to it.
//! * [`apic`]: the bring-up of the interrupt controllers.
//! * [`console`]: the messages of the kernel and the console sink.
//! * [`init`]: the bring-up of the whole, step by step.

use vstd::prelude::*;
use crate::console::Message;
use crate::effect::{Effect, Fatal};

pub mod apic;
pub mod console;
pub mod effect;
pub mod gdt;
pub mod interrupts;
pub mod lazy;

verus! {

/// What the loader hands to the kernel, as far as bring-up reads it.
#[derive(Clone, Copy, Debug, PartialEq, Eq, Structural)]
pub struct BootHandoff {
    /// The virtual address at which the loader mapped all of physical memory,
    /// if it did.
    pub physical_memory_offset: Option<u64>,
    /// Whether the loader set up a framebuffer.
    pub has_framebuffer: bool,
}

/// How far bring-up has come.
#[derive(Clone, Copy, Debug, PartialEq, Eq, Structural)]
pub enum BringUp {
    /// Nothing was done yet.
    Idle,
    /// Console, tables and interrupt controllers are up; the heap was asked
    /// for.
    AwaitingHeap,
    /// Bring-up is complete.
    Done,
    /// Bring-up was given up.
    Failed,
}

/// What the platform reports to [`init`].
#[derive(Clone, Copy, Debug, PartialEq, Eq, Structural)]
pub enum BootEvent {
    /// The loader has handed over.
    Boot(BootHandoff),
    /// The attempt to set up the heap has ended; `true` if the heap is there.
    HeapReady(bool),
}

/// What the kernel does with the handoff. The offset is read first and kept;
/// without it nothing can be done. Then the console comes up, which needs the
/// framebuffer; then, each announced on the console and reported done, the
/// descriptor tables with the interrupt table, and the interrupt controllers;
/// last the heap is announced and asked for.
pub open spec fn boot_effects(handoff: BootHandoff) -> Seq<Effect> {
    match handoff.physical_memory_offset {
        None => seq![Effect::Panic(Fatal::NoPhysicalMemoryOffset)],
        Some(offset) => if !handoff.has_framebuffer {
            seq![Effect::SetPhysicalMemoryOffset(offset), Effect::Panic(Fatal::NoFramebuffer)]
        } else {
            seq![
                Effect::SetPhysicalMemoryOffset(offset),
                Effect::InitConsole,
                Effect::Print(Message::FramebufferReady),
                Effect::Print(Message::InterruptsStarting),
                Effect::InitInterrupts,
                Effect::Print(Message::StepDone),
                Effect::Print(Message::ApicStarting),
                Effect::InitApic,
                Effect::Print(Message::StepDone),
                Effect::Print(Message::HeapStarting),
                Effect::InitHeap { physical_memory_offset: offset },
            ]
        },
    }
}

/// One step of bring-up: the stage that follows `stage` on `event`, and what
/// is to be done on the way.
///
/// There are two steps, in this order: the handoff, and the answer of the heap.
/// Bring-up fails where the handoff lacks the offset or the framebuffer, where
/// the heap could not be set up, and on every event that comes out of turn;
/// once it is done or has failed, every event does.
pub open spec fn init_step(stage: BringUp, event: BootEvent) -> (BringUp, Seq<Effect>) {
    match (stage, event) {
        (BringUp::Idle, BootEvent::Boot(handoff)) => (
            if handoff.physical_memory_offset.is_some() && handoff.has_framebuffer {
                BringUp::AwaitingHeap
            } else {
                BringUp::Failed
            },
            boot_effects(handoff),
        ),
        (BringUp::AwaitingHeap, BootEvent::HeapReady(ready)) => if ready {
            (
                BringUp::Done,
                seq![Effect::Print(Message::StepDone), Effect::Print(Message::Finished)],
            )
        } else {
            (BringUp::Failed, seq![Effect::Panic(Fatal::HeapInit)])
        },
        _ => (BringUp::Failed, seq![Effect::Panic(Fatal::OutOfTurn)]),
    }
}

/// Takes bring-up one step further.
///
/// The caller starts with [`BringUp::Idle`] and [`BootEvent::Boot`], carries
/// out the effects returned in their order, and calls again with the stage
/// returned and with the answer of the heap. [`Effect::InitInterrupts`] stands
/// for carrying out what [`interrupts::init`] plans, [`Effect::InitApic`] for
/// running [`apic::init`] until it is done.
pub fn init(stage: BringUp, event: BootEvent) -> (step: (BringUp, Vec<Effect>))
    ensures
        (step.0, step.1@) == init_step(stage, event),
{
    let mut effects: Vec<Effect> = Vec::new();
    match (stage, event) {
        (BringUp::Idle, BootEvent::Boot(handoff)) => {
            match handoff.physical_memory_offset {
                None => {
                    effects.push(Effect::Panic(Fatal::NoPhysicalMemoryOffset));
                    assert(effects@ =~= boot_effects(handoff));
                    (BringUp::Failed, effects)
                },
                Some(offset) => {
                    effects.push(Effect::SetPhysicalMemoryOffset(offset));
                    if !handoff.has_framebuffer {
                        effects.push(Effect::Panic(Fatal::NoFramebuffer));
                        assert(effects@ =~= boot_effects(handoff));
                        return (BringUp::Failed, effects);
                    }
                    effects.push(Effect::InitConsole);
                    effects.push(Effect::Print(Message::FramebufferReady));
                    effects.push(Effect::Print(Message::InterruptsStarting));
                    effects.push(Effect::InitInterrupts);
                    effects.push(Effect::Print(Message::StepDone));
                    effects.push(Effect::Print(Message::ApicStarting));
                    effects.push(Effect::InitApic);
                    effects.push(Effect::Print(Message::StepDone));
                    effects.push(Effect::Print(Message::HeapStarting));
                    effects.push(Effect::InitHeap { physical_memory_offset: offset });
                    assert(effects@ =~= boot_effects(handoff));
                    (BringUp::AwaitingHeap, effects)
                },
            }
        },
        (BringUp::AwaitingHeap, BootEvent::HeapReady(ready)) => {
            if ready {
                effects.push(Effect::Print(Message::StepDone));
                effects.push(Effect::Print(Message::Finished));
                assert(effects@ =~= seq![
                    Effect::Print(Message::StepDone),
                    Effect::Print(Message::Finished),
                ]);
                (BringUp::Done, effects)
            } else {
                effects.push(Effect::Panic(Fatal::HeapInit));
                assert(effects@ =~= seq![Effect::Panic(Fatal::HeapInit)]);
                (BringUp::Failed, effects)
            }
        },
        _ => {
            effects.push(Effect::Panic(Fatal::OutOfTurn));
            assert(effects@ =~= seq![Effect::Panic(Fatal::OutOfTurn)]);
            (BringUp::Failed, effects)
        },
    }
}

/// Bring-up keeps the order that the hardware asks for: the descriptor tables
/// and the interrupt table are set up before the interrupt controllers, and
/// within the former the segment table and the task register are loaded before
/// the interrupt table. A handoff that lacks the offset or the framebuffer
/// sets up neither.
pub proof fn lemma_tables_before_controllers(handoff: BootHandoff, selectors: gdt::Selectors)
    ensures
        init_step(BringUp::Idle, BootEvent::Boot(handoff)).0 == BringUp::AwaitingHeap ==> {
            let effects = boot_effects(handoff);
            &&& effects.len() == 11
            &&& effects[4] == Effect::InitInterrupts
            &&& effects[7] == Effect::InitApic
            &&& effects[10] is InitHeap
        },
        init_step(BringUp::Idle, BootEvent::Boot(handoff)).0 != BringUp::AwaitingHeap ==> {
            let effects = boot_effects(handoff);
            &&& effects.last() is Panic
            &&& forall|i: int|
                0 <= i < effects.len() ==> (#[trigger] effects[i]) != Effect::InitInterrupts
                    && effects[i] != Effect::InitApic
        },
        interrupts::init_effects(selectors).len() == 7,
        interrupts::init_effects(selectors)[0] == Effect::LoadGdt,
        interrupts::init_effects(selectors)[5] is LoadTaskRegister,
        interrupts::init_effects(selectors)[6] == Effect::LoadIdt,
{
}

} // verus!
