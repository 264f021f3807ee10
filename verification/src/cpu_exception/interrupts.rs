//! The interrupt descriptor table builder: vector-to-handler bindings, with
//! the three vectors most likely to strike while the normal stack is broken
//! routed onto the dedicated backup stacks the task-state segment reserves.
//! Each binding records whether its handler returns or halts, so the table
//! itself documents the trap/abort distinction.

use vstd::prelude::*;

use crate::cpu_exception::CpuException;
use crate::gdt::{DOUBLE_FAULT_IST_INDEX, PAGE_FAULT_IST_INDEX, STACK_SEGMENT_FAULT_IST_INDEX};

verus! {

/// The number of vectors in the interrupt descriptor table.
pub const IDT_ENTRIES: usize = 256;

/// One vector binding. Besides the handler entry point and the optional
/// stack switch, the binding declares whether the handler returns control
/// or halts the process, so the abort/trap policy is part of the table
/// rather than a call-site convention.
#[derive(Clone, Copy, Debug, PartialEq, Eq)]
pub struct IdtEntry {
    /// Whether a handler is installed for the vector.
    pub present: bool,
    /// The handler's entry point.
    pub handler: u64,
    /// The Interrupt Stack Table slot the CPU switches to on dispatch, or
    /// `None` to stay on the interrupted context's stack.
    pub ist: Option<u16>,
    /// Whether the handler halts the process instead of returning.
    pub diverges: bool,
}

impl IdtEntry {
    /// A vector with no handler installed.
    pub open spec fn vacant() -> IdtEntry {
        IdtEntry { present: false, handler: 0, ist: None, diverges: false }
    }
}

/// The interrupt descriptor table: one entry per vector.
#[derive(Clone, Debug, PartialEq, Eq)]
pub struct Idt {
    /// The vector bindings, indexed by vector number.
    pub entries: Vec<IdtEntry>,
}

impl Idt {
    /// The table always covers every vector.
    pub open spec fn wf(self) -> bool {
        self.entries@.len() == IDT_ENTRIES
    }
}

/// The handler entry points to bind, supplied by the hardware layer that
/// owns the actual handler code.
#[derive(Clone, Copy, Debug, PartialEq, Eq, Structural)]
pub struct HandlerAddrs {
    /// Logs the interrupted context and returns.
    pub breakpoint: u64,
    /// Reports the fault and halts; never returns.
    pub double_fault: u64,
    /// Reports the fault and halts.
    pub stack_segment_fault: u64,
    /// Reports the fault and halts; this design performs no demand paging,
    /// so a page fault cannot be resumed.
    pub page_fault: u64,
}

/// The table that `init_idt` assembles: the breakpoint vector bound as a
/// returning trap handler on the interrupted stack, and the double-fault,
/// stack-segment-fault and page-fault vectors bound as halting handlers,
/// each forced onto its own backup stack; every other vector vacant.
pub open spec fn spec_make_idt(handlers: HandlerAddrs) -> Seq<IdtEntry> {
    Seq::new(IDT_ENTRIES as nat, |i: int|
        if i == CpuException::Breakpoint.spec_code() as int {
            IdtEntry { present: true, handler: handlers.breakpoint, ist: None, diverges: false }
        } else if i == CpuException::DoubleFault.spec_code() as int {
            IdtEntry {
                present: true,
                handler: handlers.double_fault,
                ist: Some(DOUBLE_FAULT_IST_INDEX),
                diverges: true,
            }
        } else if i == CpuException::StackSegmentFault.spec_code() as int {
            IdtEntry {
                present: true,
                handler: handlers.stack_segment_fault,
                ist: Some(STACK_SEGMENT_FAULT_IST_INDEX),
                diverges: true,
            }
        } else if i == CpuException::PageFault.spec_code() as int {
            IdtEntry {
                present: true,
                handler: handlers.page_fault,
                ist: Some(PAGE_FAULT_IST_INDEX),
                diverges: true,
            }
        } else {
            IdtEntry::vacant()
        })
}

fn make_idt(handlers: &HandlerAddrs) -> (r: Idt)
    ensures
        r.wf(),
        r.entries@ == spec_make_idt(*handlers),
{
    let mut entries: Vec<IdtEntry> = Vec::new();
    let mut i: usize = 0;
    while i < IDT_ENTRIES
        invariant
            i <= IDT_ENTRIES,
            entries@.len() == i,
            forall|j: int| 0 <= j < i ==> entries@[j] == IdtEntry::vacant(),
        decreases IDT_ENTRIES - i,
    {
        entries.push(IdtEntry { present: false, handler: 0, ist: None, diverges: false });
        i += 1;
    }
    entries.set(
        CpuException::Breakpoint.code() as usize,
        IdtEntry { present: true, handler: handlers.breakpoint, ist: None, diverges: false },
    );
    entries.set(
        CpuException::DoubleFault.code() as usize,
        IdtEntry {
            present: true,
            handler: handlers.double_fault,
            ist: Some(DOUBLE_FAULT_IST_INDEX),
            diverges: true,
        },
    );
    entries.set(
        CpuException::StackSegmentFault.code() as usize,
        IdtEntry {
            present: true,
            handler: handlers.stack_segment_fault,
            ist: Some(STACK_SEGMENT_FAULT_IST_INDEX),
            diverges: true,
        },
    );
    entries.set(
        CpuException::PageFault.code() as usize,
        IdtEntry {
            present: true,
            handler: handlers.page_fault,
            ist: Some(PAGE_FAULT_IST_INDEX),
            diverges: true,
        },
    );
    proof {
        assert(entries@ =~= spec_make_idt(*handlers));
    }
    Idt { entries }
}

/// Set up the interrupt descriptor table. The returned table is ready for
/// the hardware layer to load; loading must happen only after the GDT and
/// TSS are installed, since the stack-switch bindings reference IST slots
/// that are only valid once the task register points at the loaded TSS.
pub fn init_idt(handlers: &HandlerAddrs) -> (r: Idt)
    ensures
        r.wf(),
        r.entries@ == spec_make_idt(*handlers),
{
    make_idt(handlers)
}

/// The breakpoint vector is bound as a trap handler: present, on the
/// interrupted context's own stack, and returning, so execution resumes at
/// the instruction after the breakpoint with no process termination.
pub proof fn lemma_breakpoint_returns(handlers: HandlerAddrs)
    ensures
        ({
            let e = spec_make_idt(handlers)[CpuException::Breakpoint.spec_code() as int];
            e.present && !e.diverges && e.ist is None && e.handler == handlers.breakpoint
        }),
{
}

/// The three protected vectors are bound as halting handlers, each forced
/// onto its own Interrupt Stack Table slot, and the three slots are
/// pairwise distinct, so no two of them can be handed the same backup
/// stack. Every vector outside the four bound ones is vacant.
pub proof fn lemma_protected_vectors_stack_switch(handlers: HandlerAddrs)
    ensures
        ({
            let e = spec_make_idt(handlers)[CpuException::DoubleFault.spec_code() as int];
            e.present && e.diverges && e.ist == Some(DOUBLE_FAULT_IST_INDEX)
                && e.handler == handlers.double_fault
        }),
        ({
            let e = spec_make_idt(handlers)[CpuException::StackSegmentFault.spec_code() as int];
            e.present && e.diverges && e.ist == Some(STACK_SEGMENT_FAULT_IST_INDEX)
                && e.handler == handlers.stack_segment_fault
        }),
        ({
            let e = spec_make_idt(handlers)[CpuException::PageFault.spec_code() as int];
            e.present && e.diverges && e.ist == Some(PAGE_FAULT_IST_INDEX)
                && e.handler == handlers.page_fault
        }),
        DOUBLE_FAULT_IST_INDEX != STACK_SEGMENT_FAULT_IST_INDEX,
        DOUBLE_FAULT_IST_INDEX != PAGE_FAULT_IST_INDEX,
        STACK_SEGMENT_FAULT_IST_INDEX != PAGE_FAULT_IST_INDEX,
        forall|i: int|
            0 <= i < IDT_ENTRIES
                && i != CpuException::Breakpoint.spec_code() as int
                && i != CpuException::DoubleFault.spec_code() as int
                && i != CpuException::StackSegmentFault.spec_code() as int
                && i != CpuException::PageFault.spec_code() as int
                ==> !(#[trigger] spec_make_idt(handlers)[i]).present,
{
}

} // verus!
