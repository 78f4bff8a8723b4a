use kernel::boot::{next_step, status_line, BootStep, HEAP_SIZE};
use kernel::gdt::{
    are_interrupts_enabled, build_gdt, build_tss, canonical, isolated_stack_top, Selectors,
    DOUBLE_FAULT_STACK_SIZE,
};
use kernel::idt::{
    fault_message, handler_for, handler_policy, init_idt, Handler, Policy, VectorEntry,
};
use kernel::interrupts::{
    get_keyboard_interrupts, get_timer_ticks, increment_tick, key_pressed,
    keyboard_interrupt_handler, read_scancode, scancode_pending, timer_interrupt_handler,
    InterruptIndex, InterruptState, DOUBLE_FAULT_IST_INDEX, KEYBOARD_DATA_PORT,
    KEYBOARD_STATUS_PORT,
};
use kernel::port::PortOp;

#[test]
fn interrupt_index_values() {
    assert_eq!(InterruptIndex::Timer.as_u8(), 32);
    assert_eq!(InterruptIndex::Keyboard.as_u8(), 33);
    assert_eq!(InterruptIndex::Timer.as_usize(), 32);
    assert_eq!(InterruptIndex::Keyboard.as_usize(), 33);
    assert_eq!(KEYBOARD_DATA_PORT, 0x60);
    assert_eq!(KEYBOARD_STATUS_PORT, 0x64);
    assert_eq!(DOUBLE_FAULT_IST_INDEX, 0);
}

#[test]
fn fresh_state_has_nothing() {
    let mut state = InterruptState::new();
    assert_eq!(get_timer_ticks(&state), 0);
    assert_eq!(get_keyboard_interrupts(&state), 0);
    assert_eq!(read_scancode(&mut state), None);
}

#[test]
fn timer_handler_counts_and_acknowledges_the_master() {
    let mut state = InterruptState::new();
    for tick in 1..=1000u64 {
        let ack = timer_interrupt_handler(&mut state);
        assert_eq!(ack.as_slice(), [PortOp::Write { port: 0x20, value: 0x20 }]);
        assert_eq!(get_timer_ticks(&state), tick);
    }
    assert_eq!(get_keyboard_interrupts(&state), 0);
    assert_eq!(read_scancode(&mut state), None);
}

#[test]
fn keyboard_handler_queues_presses_only() {
    let mut state = InterruptState::new();
    let ack = keyboard_interrupt_handler(&mut state, 0x10);
    assert_eq!(ack.as_slice(), [PortOp::Write { port: 0x20, value: 0x20 }]);
    keyboard_interrupt_handler(&mut state, 0x90);
    keyboard_interrupt_handler(&mut state, 0x7F);
    keyboard_interrupt_handler(&mut state, 0x80);
    keyboard_interrupt_handler(&mut state, 0xFF);
    keyboard_interrupt_handler(&mut state, 0x00);
    assert_eq!(get_keyboard_interrupts(&state), 6);
    assert_eq!(get_timer_ticks(&state), 0);
    assert_eq!(read_scancode(&mut state), Some(0x10));
    assert_eq!(read_scancode(&mut state), Some(0x7F));
    assert_eq!(read_scancode(&mut state), Some(0x00));
    assert_eq!(read_scancode(&mut state), None);
}

#[test]
fn keyboard_handler_drops_the_newest_when_full() {
    let mut state = InterruptState::new();
    for i in 0..20u8 {
        let ack = keyboard_interrupt_handler(&mut state, i);
        assert_eq!(ack.len(), 1);
    }
    assert_eq!(get_keyboard_interrupts(&state), 20);
    for i in 0..16u8 {
        assert_eq!(read_scancode(&mut state), Some(i));
    }
    assert_eq!(read_scancode(&mut state), None);
}

#[test]
fn tick_counter_wraps() {
    assert_eq!(increment_tick(0), 1);
    assert_eq!(increment_tick(41), 42);
    assert_eq!(increment_tick(u64::MAX - 1), u64::MAX);
    assert_eq!(increment_tick(u64::MAX), 0);
}

#[test]
fn status_and_scancode_bits() {
    assert!(scancode_pending(0x01));
    assert!(scancode_pending(0xFF));
    assert!(!scancode_pending(0x00));
    assert!(!scancode_pending(0xFE));
    assert!(key_pressed(0x1E));
    assert!(key_pressed(0x7F));
    assert!(!key_pressed(0x9E));
    assert!(!key_pressed(0x80));
}

#[test]
fn vector_table_serves_every_exception_and_both_devices() {
    let table = init_idt(0x08);
    for vector in 0..=255u8 {
        let entry = table.entry(vector);
        if vector < 32 || vector == 32 || vector == 33 {
            let entry = entry.unwrap();
            assert_eq!(entry.code_selector, 0x08);
            assert_eq!(Some(entry.handler), handler_for(vector));
            if vector == 8 {
                assert_eq!(entry.stack_index, Some(0));
            } else {
                assert_eq!(entry.stack_index, None);
            }
        } else {
            assert_eq!(entry, None);
        }
    }
    assert_eq!(
        table.entry(8),
        Some(VectorEntry { handler: Handler::DoubleFault, code_selector: 0x08, stack_index: Some(0) })
    );
    assert_eq!(
        table.entry(32),
        Some(VectorEntry { handler: Handler::Timer, code_selector: 0x08, stack_index: None })
    );
    assert_eq!(
        table.entry(33),
        Some(VectorEntry { handler: Handler::Keyboard, code_selector: 0x08, stack_index: None })
    );
    assert_eq!(init_idt(0x1234).entry(14).unwrap().code_selector, 0x1234);
}

#[test]
fn handlers_by_vector() {
    let expected = [
        (0, Handler::DivideError),
        (1, Handler::Debug),
        (2, Handler::NonMaskableInterrupt),
        (3, Handler::Breakpoint),
        (4, Handler::Overflow),
        (5, Handler::BoundRange),
        (6, Handler::InvalidOpcode),
        (7, Handler::DeviceNotAvailable),
        (8, Handler::DoubleFault),
        (9, Handler::Unexpected),
        (10, Handler::InvalidTss),
        (11, Handler::SegmentNotPresent),
        (12, Handler::StackSegment),
        (13, Handler::GeneralProtection),
        (14, Handler::PageFault),
        (15, Handler::Unexpected),
        (16, Handler::X87Fpu),
        (17, Handler::AlignmentCheck),
        (18, Handler::MachineCheck),
        (19, Handler::SimdFpu),
        (20, Handler::Unexpected),
        (31, Handler::Unexpected),
        (32, Handler::Timer),
        (33, Handler::Keyboard),
    ];
    for (vector, handler) in expected {
        assert_eq!(handler_for(vector), Some(handler));
    }
    assert_eq!(handler_for(34), None);
    assert_eq!(handler_for(255), None);
}

#[test]
fn fault_policies() {
    assert_eq!(handler_policy(Handler::Debug), Policy::Resume);
    assert_eq!(handler_policy(Handler::Breakpoint), Policy::Resume);
    assert_eq!(handler_policy(Handler::Timer), Policy::Acknowledge);
    assert_eq!(handler_policy(Handler::Keyboard), Policy::Acknowledge);
    for handler in [
        Handler::DivideError,
        Handler::NonMaskableInterrupt,
        Handler::Overflow,
        Handler::BoundRange,
        Handler::InvalidOpcode,
        Handler::DeviceNotAvailable,
        Handler::DoubleFault,
        Handler::InvalidTss,
        Handler::SegmentNotPresent,
        Handler::StackSegment,
        Handler::GeneralProtection,
        Handler::PageFault,
        Handler::X87Fpu,
        Handler::AlignmentCheck,
        Handler::MachineCheck,
        Handler::SimdFpu,
        Handler::Unexpected,
    ] {
        assert_eq!(handler_policy(handler), Policy::Halt);
    }
}

#[test]
fn fault_messages() {
    assert_eq!(fault_message(Handler::DivideError), "EXCEPTION: DIVIDE ERROR");
    assert_eq!(fault_message(Handler::DoubleFault), "EXCEPTION: DOUBLE FAULT");
    assert_eq!(fault_message(Handler::GeneralProtection), "EXCEPTION: GENERAL PROTECTION FAULT");
    assert_eq!(fault_message(Handler::PageFault), "EXCEPTION: PAGE FAULT");
    assert_eq!(fault_message(Handler::MachineCheck), "EXCEPTION: MACHINE CHECK");
    assert_eq!(fault_message(Handler::Unexpected), "EXCEPTION: UNEXPECTED");
    assert_eq!(fault_message(Handler::Timer), "INTERRUPT: TIMER");
}

#[test]
fn isolated_stack_top_is_start_plus_size() {
    assert_eq!(DOUBLE_FAULT_STACK_SIZE, 20480);
    assert_eq!(isolated_stack_top(0x10_0000, 20480), Some(0x10_5000));
    assert_eq!(isolated_stack_top(0, 0), Some(0));
    assert_eq!(isolated_stack_top(0x0000_7FFF_FFFF_F000, 0xFFF), Some(0x0000_7FFF_FFFF_FFFF));
    assert_eq!(isolated_stack_top(0x0000_7FFF_FFFF_F000, 0x1000), None);
    assert_eq!(isolated_stack_top(0xFFFF_8000_0000_0000, 0x1000), Some(0xFFFF_8000_0000_1000));
    assert_eq!(isolated_stack_top(0xFFFF_FFFF_FFFF_F000, 0x1000), None);
    assert_eq!(isolated_stack_top(0x0000_8000_0000_0000, 0), None);
    assert_eq!(isolated_stack_top(0x1234_0000_0000_0000, 16), None);
    assert!(canonical(0));
    assert!(canonical(0x0000_7FFF_FFFF_FFFF));
    assert!(canonical(0xFFFF_8000_0000_0000));
    assert!(!canonical(0x0000_8000_0000_0000));
    assert!(!canonical(0xFFFF_7FFF_FFFF_FFFF));
}

#[test]
fn task_state_segment_holds_the_double_fault_stack() {
    let tss = build_tss(0x20_0000, DOUBLE_FAULT_STACK_SIZE).unwrap();
    let table = tss.interrupt_stack_table;
    assert_eq!(table[0].as_u64(), 0x20_0000 + 20480);
    for slot in 1..7 {
        assert_eq!(table[slot].as_u64(), 0);
    }
    let high = build_tss(0xFFFF_8000_0000_0000, 4096).unwrap();
    let table = high.interrupt_stack_table;
    assert_eq!(table[0].as_u64(), 0xFFFF_8000_0000_1000);
    assert!(build_tss(0x0000_7FFF_FFFF_F000, 0x1000).is_none());
    assert!(build_tss(u64::MAX, 1).is_none());
}

#[test]
fn descriptor_table_holds_code_segment_and_task_state_segment() {
    let tss = build_tss(0x20_0000, DOUBLE_FAULT_STACK_SIZE).unwrap();
    let tss: &'static _ = Box::leak(Box::new(tss));
    let (gdt, selectors) = build_gdt(tss);
    assert_eq!(selectors, Selectors { code_selector: 0x08, tss_selector: 0x10 });
    let entries = gdt.as_raw_slice();
    assert_eq!(entries.len(), 4);
    assert_eq!(entries[0], 0);
    assert_eq!(entries[1], 0x00AF_9B00_0000_FFFF);
}

#[test]
fn interrupt_flag_is_bit_nine() {
    assert!(are_interrupts_enabled(0x200));
    assert!(are_interrupts_enabled(0x202));
    assert!(are_interrupts_enabled(u64::MAX));
    assert!(!are_interrupts_enabled(0));
    assert!(!are_interrupts_enabled(0x2));
    assert!(!are_interrupts_enabled(!0x200u64));
    for bit in 0..64 {
        assert_eq!(are_interrupts_enabled(1u64 << bit), bit == 9);
    }
}

#[test]
fn interrupts_are_enabled_last() {
    let mut steps = Vec::new();
    let mut done = 0;
    while let Some(step) = next_step(done) {
        steps.push(step);
        done += 1;
    }
    assert_eq!(
        steps,
        vec![
            BootStep::LoadDescriptors,
            BootStep::LoadVectorTable,
            BootStep::InitHeap,
            BootStep::ProgramTimer,
            BootStep::ProgramControllers,
            BootStep::EnableInterrupts,
        ]
    );
    assert_eq!(next_step(6), None);
    assert_eq!(next_step(usize::MAX), None);
    assert_eq!(steps.iter().filter(|step| **step == BootStep::EnableInterrupts).count(), 1);
    assert_eq!(status_line(BootStep::LoadDescriptors), Some("[1/4] Initializing GDT..."));
    assert_eq!(status_line(BootStep::LoadVectorTable), Some("[2/4] Initializing IDT...    "));
    assert_eq!(status_line(BootStep::InitHeap), Some("[3/4] Initializing heap...   "));
    assert_eq!(status_line(BootStep::ProgramTimer), Some("[4/4] Starting interrupts... "));
    assert_eq!(status_line(BootStep::ProgramControllers), None);
    assert_eq!(status_line(BootStep::EnableInterrupts), None);
    assert_eq!(HEAP_SIZE, 204800);
}
