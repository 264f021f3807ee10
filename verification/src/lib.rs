//! The exception-handling core of a minimal kernel: a taxonomy of CPU
//! exceptions, builders for the descriptor tables that route the most
//! dangerous faults onto dedicated backup stacks, and the boot-time
//! sequencer that assembles and orders their installation.
//!
//! Table assembly, classification and sequencing are ordinary safe code
//! with exact contracts; the narrow set of privileged register loads and
//! memory-mapped writes that install the result lives in the hardware
//! layer around this crate.

use vstd::prelude::*;

pub mod cpu_exception;
pub mod gdt;
pub mod io;
pub mod qemu;

verus! {

use crate::cpu_exception::CpuException;
use crate::cpu_exception::interrupts::{
    HandlerAddrs,
    Idt,
    IdtEntry,
    init_idt,
    spec_make_idt,
};
use crate::gdt::{
    DOUBLE_FAULT_IST_INDEX,
    Gdt,
    Selectors,
    StackRegion,
    Tss,
    build_gdt,
    build_tss,
    spec_build_gdt,
    spec_build_tss,
};
use crate::io::vga_text::{BackgroundColor, CharColor, NEWLINE, TextColor, Writer};

/// Where the hardware layer placed the static memory this core builds on:
/// the three backup stack regions, the address the task-state segment will
/// live at, and the handler entry points to bind.
#[derive(Clone, Copy, Debug, PartialEq, Eq, Structural)]
pub struct BootLayout {
    /// The backup stack for the double-fault handler.
    pub double_fault_stack: StackRegion,
    /// The backup stack for the stack-segment-fault handler.
    pub stack_segment_fault_stack: StackRegion,
    /// The backup stack for the page-fault handler.
    pub page_fault_stack: StackRegion,
    /// The address of the task-state segment itself, needed in its GDT
    /// descriptor.
    pub tss_base: u64,
    /// The handler entry points.
    pub handlers: HandlerAddrs,
}

impl BootLayout {
    /// All three stack regions are well formed.
    pub open spec fn wf(self) -> bool {
        self.double_fault_stack.wf() && self.stack_segment_fault_stack.wf()
            && self.page_fault_stack.wf()
    }

    /// The three backup stacks share no byte, so no handler's stack usage
    /// can collide with another's.
    pub open spec fn stacks_disjoint(self) -> bool {
        self.double_fault_stack.disjoint_from(self.stack_segment_fault_stack)
            && self.double_fault_stack.disjoint_from(self.page_fault_stack)
            && self.stack_segment_fault_stack.disjoint_from(self.page_fault_stack)
    }
}

/// The tables the boot sequencer assembles, constructed exactly once and
/// immutable thereafter: the CPU reads them on every exception dispatch.
#[derive(Clone, Debug, PartialEq, Eq)]
pub struct BootTables {
    /// The global descriptor table.
    pub gdt: Gdt,
    /// The selectors naming the code segment and the TSS in the GDT,
    /// cached at construction because table entries carry no back-reference
    /// to their own selector.
    pub selectors: Selectors,
    /// The task-state segment.
    pub tss: Tss,
    /// The interrupt descriptor table.
    pub idt: Idt,
}

impl BootTables {
    /// All tables are well formed.
    pub open spec fn wf(self) -> bool {
        self.gdt.wf() && self.tss.wf() && self.idt.wf()
    }

    /// Everything software or hardware can observe of the tables.
    pub open spec fn observable(self) -> (Seq<u64>, Selectors, Seq<u64>, Seq<IdtEntry>) {
        (self.gdt.table@, self.selectors, self.tss.interrupt_stack_table@, self.idt.entries@)
    }
}

/// The observable table state `init` produces for a layout.
pub open spec fn spec_init(layout: BootLayout) -> (Seq<u64>, Selectors, Seq<u64>, Seq<IdtEntry>) {
    (
        spec_build_gdt(layout.tss_base),
        Selectors { code_selector: 8, tss_selector: 16 },
        spec_build_tss(
            layout.double_fault_stack,
            layout.stack_segment_fault_stack,
            layout.page_fault_stack,
        ),
        spec_make_idt(layout.handlers),
    )
}

/// Initialize the exception core: assemble the task-state segment over the
/// backup stacks, the global descriptor table with the code-segment and TSS
/// entries, and the interrupt descriptor table that routes the protected
/// vectors onto the backup stacks. The result is a pure function of the
/// layout; installing it is the hardware layer's job, in the order
/// `boot_step` prescribes, before any code that might raise an exception
/// runs.
pub fn init(layout: &BootLayout) -> (r: BootTables)
    requires
        layout.wf(),
    ensures
        r.wf(),
        r.observable() == spec_init(*layout),
{
    let tss = build_tss(
        &layout.double_fault_stack,
        &layout.stack_segment_fault_stack,
        &layout.page_fault_stack,
    );
    let (gdt, selectors) = build_gdt(layout.tss_base);
    let idt = init_idt(&layout.handlers);
    BootTables { gdt, selectors, tss, idt }
}

/// Initialization is idempotent: two results of `init` for the same layout
/// have identical observable table state, so running the sequence twice is
/// safe and redundant.
pub proof fn lemma_init_idempotent(a: BootTables, b: BootTables, layout: BootLayout)
    requires
        a.observable() == spec_init(layout),
        b.observable() == spec_init(layout),
    ensures
        a.observable() == b.observable(),
{
}

/// Once the tables for a layout with pairwise disjoint backup stacks are
/// installed, a double fault is dispatched through a present, divergent
/// binding that forces a switch onto the double-fault IST slot, and that
/// slot holds the top of the statically reserved double-fault region,
/// which shares no byte with the other backup stacks. The handler can
/// therefore run and halt deliberately even when the normal stack is the
/// problem, instead of escalating to an unrecoverable reset.
pub proof fn lemma_double_fault_on_dedicated_stack(layout: BootLayout)
    requires
        layout.wf(),
        layout.stacks_disjoint(),
    ensures
        ({
            let entry = spec_init(layout).3[CpuException::DoubleFault.spec_code() as int];
            entry.present && entry.diverges && entry.ist == Some(DOUBLE_FAULT_IST_INDEX)
        }),
        spec_init(layout).2[DOUBLE_FAULT_IST_INDEX as int]
            == layout.double_fault_stack.spec_top(),
        layout.double_fault_stack.disjoint_from(layout.stack_segment_fault_stack),
        layout.double_fault_stack.disjoint_from(layout.page_fault_stack),
{
}

/// One register load in the boot-time installation sequence.
#[derive(Clone, Copy, Debug, PartialEq, Eq, Structural)]
pub enum BootAction {
    /// Load the GDT base and limit register.
    LoadGdt,
    /// Reload the code-segment register from the cached code selector.
    ReloadCodeSegment,
    /// Load the task register from the cached TSS selector.
    LoadTaskRegister,
    /// Load the IDT base and limit register.
    LoadIdt,
}

/// How far the boot-time installation sequence has progressed.
#[derive(Clone, Copy, Debug, PartialEq, Eq, Structural)]
pub enum BootPhase {
    /// Nothing installed yet; a double fault here reaches the hardware
    /// default handler and is fatal.
    Start,
    /// The GDT is loaded.
    GdtLoaded,
    /// The code-segment register points at the new code segment.
    CodeSegmentReloaded,
    /// The task register points at the TSS; the IST slots are now valid.
    TaskRegisterLoaded,
    /// The IDT is loaded: every installed vector dispatches as built.
    Ready,
}

impl BootPhase {
    /// How many actions of the sequence are already performed in this
    /// phase.
    pub open spec fn spec_index(self) -> int {
        match self {
            BootPhase::Start => 0,
            BootPhase::GdtLoaded => 1,
            BootPhase::CodeSegmentReloaded => 2,
            BootPhase::TaskRegisterLoaded => 3,
            BootPhase::Ready => 4,
        }
    }
}

/// The fixed order of the boot-time register loads: GDT, code segment,
/// task register, IDT. There is no safe interleaving with application
/// logic.
pub open spec fn spec_boot_actions() -> Seq<BootAction> {
    seq![
        BootAction::LoadGdt,
        BootAction::ReloadCodeSegment,
        BootAction::LoadTaskRegister,
        BootAction::LoadIdt,
    ]
}

/// The next hardware action to perform from `phase`, with the phase it
/// leads to; `None` once the sequence is complete. Driving this step
/// function to `None` performs exactly the actions of the fixed sequence,
/// in order.
pub fn boot_step(phase: &BootPhase) -> (r: Option<(BootAction, BootPhase)>)
    ensures
        r is None <==> *phase is Ready,
        r matches Some(step) ==> step.0 == spec_boot_actions()[phase.spec_index()]
            && step.1.spec_index() == phase.spec_index() + 1,
{
    match phase {
        BootPhase::Start => Some((BootAction::LoadGdt, BootPhase::GdtLoaded)),
        BootPhase::GdtLoaded => Some((BootAction::ReloadCodeSegment, BootPhase::CodeSegmentReloaded)),
        BootPhase::CodeSegmentReloaded => Some((
            BootAction::LoadTaskRegister,
            BootPhase::TaskRegisterLoaded,
        )),
        BootPhase::TaskRegisterLoaded => Some((BootAction::LoadIdt, BootPhase::Ready)),
        BootPhase::Ready => None,
    }
}

/// In the boot sequence the GDT load comes strictly before the IDT load,
/// and the code-segment and task-register loads sit strictly between them:
/// the stack-switch bindings in the IDT reference IST slots that are only
/// valid once the task register points at the loaded TSS.
pub proof fn lemma_gdt_installed_before_idt()
    ensures
        forall|i: int, j: int|
            0 <= i < spec_boot_actions().len() && 0 <= j < spec_boot_actions().len()
                && (#[trigger] spec_boot_actions()[i]) == BootAction::LoadGdt
                && (#[trigger] spec_boot_actions()[j]) == BootAction::LoadIdt ==> i < j,
        forall|i: int, j: int|
            0 <= i < spec_boot_actions().len() && 0 <= j < spec_boot_actions().len()
                && (#[trigger] spec_boot_actions()[i]) == BootAction::LoadIdt
                && ((#[trigger] spec_boot_actions()[j]) == BootAction::ReloadCodeSegment
                    || spec_boot_actions()[j] == BootAction::LoadTaskRegister) ==> j < i,
{
}

/// The glyph drawn once for every color pair in the color grid.
pub const GRID_GLYPH: u8 = 0x58;

/// One grid row: the glyph written once per text color, each in the color
/// packed from the row's background color and that text color.
pub open spec fn spec_draw_glyphs(
    cells: Seq<crate::io::vga_text::ScreenChar>,
    column: int,
    bg_color: BackgroundColor,
    text_colors: Seq<TextColor>,
) -> (Seq<crate::io::vga_text::ScreenChar>, int)
    decreases text_colors.len(),
{
    if text_colors.len() == 0 {
        (cells, column)
    } else {
        let prev = spec_draw_glyphs(cells, column, bg_color, text_colors.drop_last());
        crate::io::vga_text::spec_write_byte(
            prev.0,
            prev.1,
            CharColor::spec_from_pair(bg_color, text_colors.last()),
            GRID_GLYPH,
        )
    }
}

/// The whole grid: one row per background color, each followed by a
/// newline. The newline's color argument is irrelevant: a newline only
/// scrolls.
pub open spec fn spec_draw_grid(
    cells: Seq<crate::io::vga_text::ScreenChar>,
    column: int,
    bg_colors: Seq<BackgroundColor>,
    text_colors: Seq<TextColor>,
) -> (Seq<crate::io::vga_text::ScreenChar>, int)
    decreases bg_colors.len(),
{
    if bg_colors.len() == 0 {
        (cells, column)
    } else {
        let prev = spec_draw_grid(cells, column, bg_colors.drop_last(), text_colors);
        let row = spec_draw_glyphs(prev.0, prev.1, bg_colors.last(), text_colors);
        crate::io::vga_text::spec_write_byte(row.0, row.1, CharColor(0), NEWLINE)
    }
}

/// Draws the available pairs of background and text colors: one line per
/// background color, one glyph per text color, restoring the caller's
/// color afterwards.
pub fn draw_vga_test(w: &mut Writer)
    requires
        old(w).wf(),
    ensures
        final(w).wf(),
        final(w).color == old(w).color,
        final(w).column == 0,
        (final(w).buffer@, final(w).column as int) == spec_draw_grid(
            old(w).buffer@,
            old(w).column as int,
            BackgroundColor::spec_colors(),
            TextColor::spec_colors(),
        ),
{
    let old_color = w.color();
    let bg_colors = BackgroundColor::colors();
    let text_colors = TextColor::colors();
    let ghost cells0 = w.buffer@;
    let ghost column0 = w.column as int;
    let mut i: usize = 0;
    while i < bg_colors.len()
        invariant
            w.wf(),
            bg_colors@ == BackgroundColor::spec_colors(),
            text_colors@ == TextColor::spec_colors(),
            i <= bg_colors@.len(),
            i > 0 ==> w.column == 0,
            (w.buffer@, w.column as int) == spec_draw_grid(
                cells0,
                column0,
                bg_colors@.take(i as int),
                text_colors@,
            ),
        decreases bg_colors@.len() - i,
    {
        let ghost row_cells = w.buffer@;
        let ghost row_column = w.column as int;
        let mut j: usize = 0;
        while j < text_colors.len()
            invariant
                w.wf(),
                bg_colors@ == BackgroundColor::spec_colors(),
                text_colors@ == TextColor::spec_colors(),
                i < bg_colors@.len(),
                j <= text_colors@.len(),
                (w.buffer@, w.column as int) == spec_draw_glyphs(
                    row_cells,
                    row_column,
                    bg_colors@[i as int],
                    text_colors@.take(j as int),
                ),
            decreases text_colors@.len() - j,
        {
            proof {
                assert(text_colors@.take(j + 1).drop_last() =~= text_colors@.take(j as int));
                assert(text_colors@.take(j + 1).last() == text_colors@[j as int]);
            }
            w.set_color(CharColor::from_pair(bg_colors[i], text_colors[j]));
            w.write_byte(GRID_GLYPH);
            j += 1;
        }
        proof {
            assert(text_colors@.take(text_colors@.len() as int) =~= text_colors@);
            assert(bg_colors@.take(i + 1).drop_last() =~= bg_colors@.take(i as int));
            assert(bg_colors@.take(i + 1).last() == bg_colors@[i as int]);
        }
        w.write_byte(NEWLINE);
        i += 1;
    }
    proof {
        assert(bg_colors@.take(bg_colors@.len() as int) =~= bg_colors@);
    }
    w.set_color(old_color);
}

} // verus!
