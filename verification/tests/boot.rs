use rust_os::cpu_exception::interrupts::{HandlerAddrs, IdtEntry, IDT_ENTRIES};
use rust_os::gdt::{
    build_gdt, build_tss, Descriptor, Gdt, StackRegion, DOUBLE_FAULT_IST_INDEX, GDT_CAPACITY,
    IST_SLOTS, IST_STACK_SIZE, KERNEL_CODE_DESCRIPTOR, PAGE_FAULT_IST_INDEX,
    STACK_SEGMENT_FAULT_IST_INDEX,
};
use rust_os::qemu::QemuExitCode;
use rust_os::{boot_step, draw_vga_test, init, BootAction, BootLayout, BootPhase};
use rust_os::io::vga_text::{CharColor, Writer};

fn layout() -> BootLayout {
    BootLayout {
        double_fault_stack: StackRegion { base: 0x0010_0000, size: IST_STACK_SIZE },
        stack_segment_fault_stack: StackRegion { base: 0x0010_1000, size: IST_STACK_SIZE },
        page_fault_stack: StackRegion { base: 0x0010_2000, size: IST_STACK_SIZE },
        tss_base: 0x0000_0012_3456_789A,
        handlers: HandlerAddrs {
            breakpoint: 0x1111,
            double_fault: 0x2222,
            stack_segment_fault: 0x3333,
            page_fault: 0x4444,
        },
    }
}

#[test]
fn test_kernel_code_descriptor_bits() {
    // accessed | writable | executable | user segment | present in the
    // access byte, maximal limit, long mode and page granularity in the
    // flags nibble
    assert_eq!(KERNEL_CODE_DESCRIPTOR, 0x00AF_9B00_0000_FFFF);
    assert_eq!(
        Descriptor::kernel_code_segment(),
        Descriptor::UserSegment(0x00AF_9B00_0000_FFFF)
    );
}

#[test]
fn test_tss_descriptor_bits() {
    // limit 0x67 in bits 0..16, base bits 0..24 in bits 16..40, type 0x9
    // and present in bits 40..48, base bits 24..32 in bits 56..64, and the
    // upper base half alone in the second slot
    let d = Descriptor::tss_segment(0x0000_0012_3456_789A);
    assert_eq!(d, Descriptor::SystemSegment(0x3400_8956_789A_0067, 0x12));
}

#[test]
fn test_build_gdt_layout_and_selectors() {
    let (gdt, selectors) = build_gdt(0x0000_0012_3456_789A);
    assert_eq!(
        gdt.table,
        vec![0, 0x00AF_9B00_0000_FFFF, 0x3400_8956_789A_0067, 0x12]
    );
    assert_eq!(selectors.code_selector, 0x08);
    assert_eq!(selectors.tss_selector, 0x10);
}

#[test]
fn test_gdt_add_entry_selectors_advance() {
    let mut gdt = Gdt::new();
    assert_eq!(gdt.table, vec![0]);
    let first = gdt.add_entry(Descriptor::UserSegment(0xDEAD));
    let second = gdt.add_entry(Descriptor::SystemSegment(0xBEEF, 0xCAFE));
    assert_eq!(first, 8);
    assert_eq!(second, 16);
    assert_eq!(gdt.table, vec![0, 0xDEAD, 0xBEEF, 0xCAFE]);
    assert!(gdt.table.len() <= GDT_CAPACITY);
}

#[test]
fn test_build_tss_reserves_three_disjoint_slots() {
    let l = layout();
    let tss = build_tss(
        &l.double_fault_stack,
        &l.stack_segment_fault_stack,
        &l.page_fault_stack,
    );
    let ist = &tss.interrupt_stack_table;
    assert_eq!(ist.len(), IST_SLOTS);
    assert_eq!(ist[DOUBLE_FAULT_IST_INDEX as usize], 0x0010_1000);
    assert_eq!(ist[STACK_SEGMENT_FAULT_IST_INDEX as usize], 0x0010_2000);
    assert_eq!(ist[PAGE_FAULT_IST_INDEX as usize], 0x0010_3000);
    for slot in 3..IST_SLOTS {
        assert_eq!(ist[slot], 0);
    }
}

#[test]
fn test_idt_routing() {
    let tables = init(&layout());
    let idt = &tables.idt.entries;
    assert_eq!(idt.len(), IDT_ENTRIES);
    assert_eq!(
        idt[0x03],
        IdtEntry { present: true, handler: 0x1111, ist: None, diverges: false }
    );
    assert_eq!(
        idt[0x08],
        IdtEntry {
            present: true,
            handler: 0x2222,
            ist: Some(DOUBLE_FAULT_IST_INDEX),
            diverges: true,
        }
    );
    assert_eq!(
        idt[0x0C],
        IdtEntry {
            present: true,
            handler: 0x3333,
            ist: Some(STACK_SEGMENT_FAULT_IST_INDEX),
            diverges: true,
        }
    );
    assert_eq!(
        idt[0x0E],
        IdtEntry {
            present: true,
            handler: 0x4444,
            ist: Some(PAGE_FAULT_IST_INDEX),
            diverges: true,
        }
    );
    for (vector, entry) in idt.iter().enumerate() {
        if ![0x03, 0x08, 0x0C, 0x0E].contains(&vector) {
            assert!(!entry.present, "vector {vector:#04X} must be vacant");
        }
    }
}

#[test]
fn test_breakpoint_binding_returns() {
    // the trap binding for the breakpoint vector keeps the interrupted
    // stack and returns, so execution resumes at the next instruction
    let tables = init(&layout());
    let entry = &tables.idt.entries[0x03];
    assert!(entry.present);
    assert!(!entry.diverges);
    assert!(entry.ist.is_none());
}

#[test]
fn test_init_twice_is_idempotent() {
    let l = layout();
    let first = init(&l);
    let second = init(&l);
    assert_eq!(first, second);
}

#[test]
fn test_boot_sequence_order() {
    let mut phase = BootPhase::Start;
    let mut actions: Vec<BootAction> = Vec::new();
    while let Some((action, next)) = boot_step(&phase) {
        actions.push(action);
        phase = next;
    }
    assert_eq!(phase, BootPhase::Ready);
    assert_eq!(
        actions,
        vec![
            BootAction::LoadGdt,
            BootAction::ReloadCodeSegment,
            BootAction::LoadTaskRegister,
            BootAction::LoadIdt,
        ]
    );
}

#[test]
fn test_qemu_exit_codes() {
    assert_eq!(QemuExitCode::Success.code(), 0b10);
    assert_eq!(QemuExitCode::Failure.code(), 0b11);
    // the host doubles the code and adds one: both stay distinct from the
    // failure-to-launch report of 1
    assert_eq!(2 * QemuExitCode::Success.code() + 1, 5);
    assert_eq!(2 * QemuExitCode::Failure.code() + 1, 7);
}

#[test]
fn test_draw_vga_test_restores_color() {
    let mut w = Writer::new(CharColor(0x0A));
    w.write(b"prompt");
    draw_vga_test(&mut w);
    assert_eq!(w.color, CharColor(0x0A));
    assert_eq!(w.column, 0);
    // the last background row of the grid is still on screen: 16 glyphs in
    // the bottom-but-one line
    for col in 0..16 {
        assert_eq!(w.buffer[22 * 80 + col].c, b'X');
    }
    for col in 16..80 {
        assert_eq!(w.buffer[22 * 80 + col].c, 0);
    }
}
