//! Physical memory: the page size and the placeholder frame allocator.
use vstd::prelude::*;

verus! {

/// Bytes in a base page and in a physical frame.
pub const PAGE_SIZE: usize = 4096;

/// The physical frame the placeholder allocator hands out.
pub const DUMMY_FRAME_ADDRESS: u64 = 0x10000;

/// Physical addresses have at most 52 significant bits on x86_64.
pub open spec fn is_phys_addr(addr: u64) -> bool {
    addr < 0x10_0000_0000_0000
}

/// Calls `x86_64::structures::paging::PhysFrame::<Size4KiB>::containing_address`
/// on `PhysAddr::new(addr)` and gives back the frame's start address: the
/// address rounded down to a multiple of 4096.  `PhysAddr::new` panics on an
/// address with any of bits 52..64 set, which `requires` rules out.
#[verifier::external_body]
fn frame_start_containing(addr: u64) -> (start: u64)
    requires
        is_phys_addr(addr),
    ensures
        start == addr - addr % 4096,
{
    x86_64::structures::paging::PhysFrame::<x86_64::structures::paging::Size4KiB>::containing_address(
        x86_64::PhysAddr::new(addr),
    ).start_address().as_u64()
}

/// A frame allocator that always answers with the same 4 KiB frame, the one
/// at physical address 0x10000.
pub struct DummyFrameAllocator;

impl DummyFrameAllocator {
    /// The allocator.
    pub fn init() -> (a: Self)
        ensures
            a == DummyFrameAllocator,
    {
        DummyFrameAllocator
    }

    /// Hands out a 4 KiB frame: the start address of the frame containing
    /// 0x10000, which is 0x10000 itself, on every call.
    pub fn allocate_frame(&mut self) -> (frame: Option<u64>)
        ensures
            frame == Some(DUMMY_FRAME_ADDRESS),
            frame.unwrap() % (PAGE_SIZE as u64) == 0,
    {
        Some(frame_start_containing(DUMMY_FRAME_ADDRESS))
    }
}

} // verus!
