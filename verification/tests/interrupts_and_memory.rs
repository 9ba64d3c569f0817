use doombox::gdt::{build_gdt, interrupt_stack_top, INTERRUPT_STACK_SIZE, KERNEL_CODE64, KERNEL_DATA};
use doombox::idt::{InterruptIndex, PIC_1_OFFSET, PIC_2_OFFSET};
use doombox::memory::{DummyFrameAllocator, DUMMY_FRAME_ADDRESS, PAGE_SIZE};
use x86_64::structures::tss::TaskStateSegment;

#[test]
fn timer_interrupt_is_vector_32() {
    assert_eq!(InterruptIndex::Timer.as_u8(), 32);
    assert_eq!(InterruptIndex::Timer.as_usize(), 32);
}

#[test]
fn keyboard_interrupt_is_vector_33() {
    assert_eq!(InterruptIndex::Keyboard.as_u8(), 33);
    assert_eq!(InterruptIndex::Keyboard.as_usize(), 33);
}

#[test]
fn interrupt_vectors_follow_the_primary_pic() {
    assert_eq!(PIC_1_OFFSET, 0x20);
    assert_eq!(PIC_2_OFFSET, 0x28);
    assert_eq!(InterruptIndex::Timer.as_u8(), PIC_1_OFFSET);
    assert_eq!(InterruptIndex::Keyboard.as_u8(), PIC_1_OFFSET + 1);
}

#[test]
fn dummy_allocator_hands_out_frame_0x10000() {
    let mut allocator = DummyFrameAllocator::init();
    assert_eq!(allocator.allocate_frame(), Some(0x10000));
    assert_eq!(DUMMY_FRAME_ADDRESS, 0x10000);
}

#[test]
fn dummy_allocator_answers_the_same_frame_every_time() {
    let mut allocator = DummyFrameAllocator::init();
    let first = allocator.allocate_frame();
    let second = allocator.allocate_frame();
    let third = allocator.allocate_frame();
    assert_eq!(first, second);
    assert_eq!(second, third);
    assert_eq!(first.unwrap() % PAGE_SIZE as u64, 0);
}

#[test]
fn gdt_holds_null_code_data_and_tss() {
    let tss: &'static TaskStateSegment = Box::leak(Box::new(TaskStateSegment::new()));
    let (gdt, selectors) = build_gdt(tss);
    let entries = gdt.as_raw_slice();
    assert_eq!(entries.len(), 5);
    assert_eq!(entries[0], 0);
    assert_eq!(entries[1], KERNEL_CODE64);
    assert_eq!(entries[2], KERNEL_DATA);
    assert_eq!(selectors.code_selector, 8);
    assert_eq!(selectors.data_selector, 16);
    assert_eq!(selectors.tss_selector, 24);
}

#[test]
fn gdt_tss_descriptor_points_at_the_tss() {
    let tss: &'static TaskStateSegment = Box::leak(Box::new(TaskStateSegment::new()));
    let address = x86_64::VirtAddr::from_ptr(tss).as_u64();
    let (gdt, _) = build_gdt(tss);
    let entries = gdt.as_raw_slice();
    // base bits 0..24 sit in bits 16..40 of the low word, bits 32..64 in the high word
    assert_eq!((entries[3] >> 16) & 0xff_ffff, address & 0xff_ffff);
    assert_eq!(entries[4], address >> 32);
    // ring 0
    assert_eq!((entries[3] >> 45) & 3, 0);
    // present, available 64-bit TSS, limit 103, no flags
    assert_eq!((entries[3] >> 47) & 1, 1);
    assert_eq!((entries[3] >> 40) & 0xf, 9);
    assert_eq!((entries[3] >> 44) & 1, 0);
    assert_eq!(entries[3] & 0xffff, 103);
    assert_eq!((entries[3] >> 48) & 0xff, 0);
    assert!(entries[4] < 1 << 32);
}

#[test]
fn interrupt_stack_top_is_five_pages_above_the_bottom() {
    assert_eq!(INTERRUPT_STACK_SIZE, 5 * 4096);
    assert_eq!(interrupt_stack_top(0x10_0000), 0x10_0000 + 20480);
    assert_eq!(interrupt_stack_top(0), 20480);
}

#[test]
fn interrupt_stack_top_is_sign_extended_past_bit_47() {
    // the sum sets bit 47, so the canonical form copies it into bits 48..64
    assert_eq!(interrupt_stack_top(0x7fff_ffff_f000), 0xffff_8000_0000_4000);
    // an address in the upper half stays there
    assert_eq!(interrupt_stack_top(0xffff_8000_0000_0000), 0xffff_8000_0000_5000);
}
