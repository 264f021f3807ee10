//! The segment/task descriptor builder: statically sized backup stacks for
//! the faults most likely to strike while the normal stack is unusable, the
//! task-state segment whose interrupt stack table points at them, and the
//! global descriptor table holding the kernel code segment and the TSS
//! descriptor, bit-exact in the layout the CPU parses.

use vstd::prelude::*;

verus! {

/// The index of the stack for handling `DoubleFault` in the Interrupt Stack
/// Table.
pub const DOUBLE_FAULT_IST_INDEX: u16 = 0;

/// The index of the stack for handling `StackSegmentFault` in the Interrupt
/// Stack Table.
pub const STACK_SEGMENT_FAULT_IST_INDEX: u16 = 1;

/// The index of the stack for handling `PageFault` in the Interrupt Stack
/// Table.
pub const PAGE_FAULT_IST_INDEX: u16 = 2;

/// The size of each backup stack, in bytes.
pub const IST_STACK_SIZE: u64 = 4096;

/// The number of slots in the Interrupt Stack Table.
pub const IST_SLOTS: usize = 7;

/// The capacity of the global descriptor table, in single entries.
pub const GDT_CAPACITY: usize = 8;

/// Segment descriptor flag: the segment was accessed (set up front so the
/// CPU never needs to write it back).
pub const DESC_ACCESSED: u64 = 1u64 << 40;

/// Segment descriptor flag: the segment is writable (required on data
/// segments; ignored but conventionally set on code segments).
pub const DESC_WRITABLE: u64 = 1u64 << 41;

/// Segment descriptor flag: the segment is executable.
pub const DESC_EXECUTABLE: u64 = 1u64 << 43;

/// Segment descriptor flag: a code or data segment rather than a system
/// segment.
pub const DESC_USER_SEGMENT: u64 = 1u64 << 44;

/// Segment descriptor flag: the segment is present.
pub const DESC_PRESENT: u64 = 1u64 << 47;

/// Segment descriptor flag: a 64-bit code segment.
pub const DESC_LONG_MODE: u64 = 1u64 << 53;

/// Segment descriptor field: the low sixteen limit bits, set to their
/// maximum for compatibility with processors that check limits in long mode.
pub const DESC_LIMIT_0_15: u64 = 0xFFFFu64;

/// Segment descriptor field: the high four limit bits, set to their maximum.
pub const DESC_LIMIT_16_19: u64 = 0xFu64 << 48;

/// Segment descriptor flag: the limit is counted in 4 KiB pages.
pub const DESC_GRANULARITY: u64 = 1u64 << 55;

/// The descriptor for the kernel's 64-bit code segment.
pub const KERNEL_CODE_DESCRIPTOR: u64 = DESC_LIMIT_0_15 | DESC_LIMIT_16_19 | DESC_ACCESSED
    | DESC_WRITABLE | DESC_EXECUTABLE | DESC_USER_SEGMENT | DESC_PRESENT | DESC_LONG_MODE
    | DESC_GRANULARITY;

/// The limit of the TSS descriptor: one less than the size of the 64-bit
/// task-state segment.
pub const TSS_LIMIT: u64 = 0x67;

/// A statically allocated, fixed-size memory region used as a backup stack.
/// The region is owned by the task-state segment for the life of the
/// process: never freed, never reused for anything else.
#[derive(Clone, Copy, Debug, PartialEq, Eq, Structural)]
pub struct StackRegion {
    /// The lowest address of the region.
    pub base: u64,
    /// The size of the region in bytes.
    pub size: u64,
}

impl StackRegion {
    /// A region is well formed when it has the fixed backup-stack size and
    /// its top address does not wrap around the address space.
    pub open spec fn wf(self) -> bool {
        self.size == IST_STACK_SIZE && self.base + self.size <= u64::MAX
    }

    /// The address one past the region's highest byte: the value the stack
    /// pointer starts at, since stacks grow downwards.
    pub open spec fn spec_top(self) -> u64 {
        (self.base + self.size) as u64
    }

    /// The address one past the region's highest byte.
    pub fn top(&self) -> (r: u64)
        requires
            self.wf(),
        ensures
            r == self.spec_top(),
    {
        self.base + self.size
    }

    /// Two regions share no byte.
    pub open spec fn disjoint_from(self, other: StackRegion) -> bool {
        self.base + self.size <= other.base || other.base + other.size <= self.base
    }
}

/// The task-state segment, reduced to the part this design uses: the
/// Interrupt Stack Table, an ordered table of stack-top addresses the CPU
/// can switch to when dispatching specific vectors. A slot holding 0 is
/// unused.
#[derive(Clone, Debug, PartialEq, Eq)]
pub struct Tss {
    /// The Interrupt Stack Table: `IST_SLOTS` stack-top addresses.
    pub interrupt_stack_table: Vec<u64>,
}

impl Tss {
    /// The table always holds exactly `IST_SLOTS` entries.
    pub open spec fn wf(self) -> bool {
        self.interrupt_stack_table@.len() == IST_SLOTS
    }
}

/// The Interrupt Stack Table that `build_tss` assembles: the three protected
/// vectors' stack tops in their fixed slots, every other slot unused.
pub open spec fn spec_build_tss(df: StackRegion, ssf: StackRegion, pf: StackRegion) -> Seq<u64> {
    seq![0u64, 0u64, 0u64, 0u64, 0u64, 0u64, 0u64]
        .update(DOUBLE_FAULT_IST_INDEX as int, df.spec_top())
        .update(STACK_SEGMENT_FAULT_IST_INDEX as int, ssf.spec_top())
        .update(PAGE_FAULT_IST_INDEX as int, pf.spec_top())
}

/// Assemble the task-state segment: reserve one backup stack each for the
/// double fault, the stack-segment fault and the page fault, in the fixed
/// IST slots the interrupt table will reference.
pub fn build_tss(df: &StackRegion, ssf: &StackRegion, pf: &StackRegion) -> (r: Tss)
    requires
        df.wf(),
        ssf.wf(),
        pf.wf(),
    ensures
        r.wf(),
        r.interrupt_stack_table@ == spec_build_tss(*df, *ssf, *pf),
        r.interrupt_stack_table@[DOUBLE_FAULT_IST_INDEX as int] == df.spec_top(),
        r.interrupt_stack_table@[STACK_SEGMENT_FAULT_IST_INDEX as int] == ssf.spec_top(),
        r.interrupt_stack_table@[PAGE_FAULT_IST_INDEX as int] == pf.spec_top(),
{
    let mut table: Vec<u64> = Vec::new();
    let mut i: usize = 0;
    while i < IST_SLOTS
        invariant
            i <= IST_SLOTS,
            table@.len() == i,
            forall|j: int| 0 <= j < i ==> table@[j] == 0u64,
        decreases IST_SLOTS - i,
    {
        table.push(0);
        i += 1;
    }
    table.set(DOUBLE_FAULT_IST_INDEX as usize, df.top());
    table.set(STACK_SEGMENT_FAULT_IST_INDEX as usize, ssf.top());
    table.set(PAGE_FAULT_IST_INDEX as usize, pf.top());
    proof {
        assert(table@ =~= spec_build_tss(*df, *ssf, *pf));
    }
    Tss { interrupt_stack_table: table }
}

/// An entry to be placed in the global descriptor table, in the binary
/// layout the CPU parses: code and data segments fit in one table slot,
/// system segments such as the TSS descriptor span two.
#[derive(Clone, Copy, Debug, PartialEq, Eq, Structural)]
pub enum Descriptor {
    /// A code or data segment descriptor: one table slot.
    UserSegment(u64),
    /// A system segment descriptor: two table slots, low half first.
    SystemSegment(u64, u64),
}

/// The low half of the TSS descriptor for a task-state segment at `base`:
/// the limit `TSS_LIMIT` in bits 0..16, the low 24 base bits in bits 16..40,
/// the available-64-bit-TSS type and the present flag in bits 40..48, and
/// base bits 24..32 in bits 56..64.
pub open spec fn spec_tss_descriptor_low(base: u64) -> u64 {
    TSS_LIMIT | ((base & 0xFF_FFFF) << 16) | (0x89u64 << 40) | (((base >> 24) & 0xFF) << 56)
}

/// The high half of the TSS descriptor: the upper 32 base bits.
pub open spec fn spec_tss_descriptor_high(base: u64) -> u64 {
    base >> 32
}

impl Descriptor {
    /// The descriptor for the kernel's 64-bit code segment.
    pub fn kernel_code_segment() -> (r: Descriptor)
        ensures
            r == Descriptor::UserSegment(KERNEL_CODE_DESCRIPTOR),
    {
        Descriptor::UserSegment(KERNEL_CODE_DESCRIPTOR)
    }

    /// The two-slot system descriptor for a task-state segment whose lowest
    /// byte sits at `base`.
    pub fn tss_segment(base: u64) -> (r: Descriptor)
        ensures
            r == Descriptor::SystemSegment(
                spec_tss_descriptor_low(base),
                spec_tss_descriptor_high(base),
            ),
    {
        let low: u64 = TSS_LIMIT | ((base & 0xFF_FFFF) << 16) | (0x89u64 << 40)
            | (((base >> 24) & 0xFF) << 56);
        let high: u64 = base >> 32;
        Descriptor::SystemSegment(low, high)
    }
}

/// The global descriptor table: an ordered sequence of descriptor slots
/// beginning with the mandatory null descriptor.
#[derive(Clone, Debug, PartialEq, Eq)]
pub struct Gdt {
    /// The table's slots, in the order the CPU indexes them.
    pub table: Vec<u64>,
}

impl Gdt {
    /// The table starts with the null descriptor and fits the fixed
    /// hardware capacity.
    pub open spec fn wf(self) -> bool {
        1 <= self.table@.len() <= GDT_CAPACITY && self.table@[0] == 0u64
    }

    /// An empty table: only the null descriptor.
    pub fn new() -> (r: Gdt)
        ensures
            r.wf(),
            r.table@ == seq![0u64],
    {
        let mut table: Vec<u64> = Vec::new();
        table.push(0);
        proof {
            assert(table@ =~= seq![0u64]);
        }
        Gdt { table }
    }

    /// Append a descriptor and return the selector that names it: the slot
    /// index shifted into the selector's index field, with requested
    /// privilege level 0. Selectors must be cached at construction time,
    /// because table entries carry no back-reference to their own selector.
    pub fn add_entry(&mut self, entry: Descriptor) -> (r: u16)
        requires
            old(self).wf(),
            old(self).table@.len() + 2 <= GDT_CAPACITY,
        ensures
            final(self).wf(),
            r == old(self).table@.len() * 8,
            entry matches Descriptor::UserSegment(v)
                ==> final(self).table@ == old(self).table@.push(v),
            entry matches Descriptor::SystemSegment(low, high)
                ==> final(self).table@ == old(self).table@.push(low).push(high),
    {
        let index = self.table.len();
        match entry {
            Descriptor::UserSegment(value) => {
                self.table.push(value);
            }
            Descriptor::SystemSegment(low, high) => {
                self.table.push(low);
                self.table.push(high);
            }
        }
        (index as u16) * 8
    }
}

/// The selectors needed to program the CPU's segment and task registers
/// once the table is loaded.
#[derive(Clone, Copy, Debug, PartialEq, Eq, Structural)]
pub struct Selectors {
    /// The selector of the kernel code segment.
    pub code_selector: u16,
    /// The selector of the task-state segment.
    pub tss_selector: u16,
}

/// The table that `build_gdt` assembles: the null descriptor, the kernel
/// code segment, then the two halves of the TSS descriptor.
pub open spec fn spec_build_gdt(tss_base: u64) -> Seq<u64> {
    seq![
        0u64,
        KERNEL_CODE_DESCRIPTOR,
        spec_tss_descriptor_low(tss_base),
        spec_tss_descriptor_high(tss_base),
    ]
}

/// Assemble the global descriptor table for a task-state segment at
/// `tss_base`: exactly one kernel code-segment entry and one TSS entry, and
/// the selectors that name them.
pub fn build_gdt(tss_base: u64) -> (r: (Gdt, Selectors))
    ensures
        r.0.wf(),
        r.0.table@ == spec_build_gdt(tss_base),
        r.1.code_selector == 8,
        r.1.tss_selector == 16,
{
    let mut gdt = Gdt::new();
    let code_selector = gdt.add_entry(Descriptor::kernel_code_segment());
    let tss_selector = gdt.add_entry(Descriptor::tss_segment(tss_base));
    proof {
        assert(gdt.table@ =~= spec_build_gdt(tss_base));
    }
    (gdt, Selectors { code_selector, tss_selector })
}

} // verus!
