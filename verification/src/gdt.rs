//! The global descriptor table: a null descriptor, the kernel code and data
//! segments, and the task state segment whose interrupt stack table gives
//! the hardware interrupt handlers a stack of their own.
use vstd::prelude::*;
use x86_64::structures::gdt::{Descriptor, GlobalDescriptorTable};
use x86_64::structures::tss::TaskStateSegment;

verus! {

/// The GDT type of the `x86_64` crate.
#[verifier::external_type_specification]
#[verifier::external_body]
pub struct ExGlobalDescriptorTable(GlobalDescriptorTable);

/// A segment descriptor of the `x86_64` crate: one 64-bit word for a code or
/// data segment, two for a system segment such as a TSS.
#[verifier::external_type_specification]
#[verifier::external_body]
pub struct ExDescriptor(Descriptor);

/// The task state segment of the `x86_64` crate.
#[verifier::external_type_specification]
#[verifier::external_body]
pub struct ExTaskStateSegment(TaskStateSegment);

/// The descriptor words a GDT holds, the null descriptor first.
pub uninterp spec fn gdt_entries(gdt: GlobalDescriptorTable) -> Seq<u64>;

/// The words of a descriptor as the GDT stores them.
pub uninterp spec fn descriptor_words(d: Descriptor) -> Seq<u64>;

/// Entries a GDT of the `x86_64` crate has room for.
pub const GDT_CAPACITY: usize = 8;

/// Descriptor of a flat 64-bit kernel code segment (present, ring 0,
/// executable, long mode).
pub const KERNEL_CODE64: u64 = 0x00af_9b00_0000_ffff;

/// Descriptor of a flat kernel data segment (present, ring 0, writable).
pub const KERNEL_DATA: u64 = 0x00cf_9300_0000_ffff;

/// Interrupt stack table slot of the stack that the timer and keyboard
/// handlers run on.
pub const INTERRUPT_STACK_INDEX: u16 = 0;

/// Bytes of that interrupt stack: five pages.
pub const INTERRUPT_STACK_SIZE: usize = 20480;

/// The descriptor privilege level, bits 45 and 46 of a descriptor's first
/// word.
pub open spec fn descriptor_dpl(word: u64) -> nat {
    ((word / 0x2000_0000_0000) % 4) as nat
}

/// Calls `GlobalDescriptorTable::new`, a table holding only the null
/// descriptor.
#[verifier::external_body]
fn gdt_new() -> (gdt: GlobalDescriptorTable)
    ensures
        gdt_entries(gdt) == seq![0u64],
{
    GlobalDescriptorTable::new()
}

/// Calls `Descriptor::kernel_code_segment`, whose single word is the
/// crate's `KERNEL_CODE64` flags.
#[verifier::external_body]
fn kernel_code_descriptor() -> (d: Descriptor)
    ensures
        descriptor_words(d) == seq![KERNEL_CODE64],
{
    Descriptor::kernel_code_segment()
}

/// Calls `Descriptor::kernel_data_segment`, whose single word is the crate's
/// `KERNEL_DATA` flags.
#[verifier::external_body]
fn kernel_data_descriptor() -> (d: Descriptor)
    ensures
        descriptor_words(d) == seq![KERNEL_DATA],
{
    Descriptor::kernel_data_segment()
}

/// Bytes of a task state segment, less one: the limit its descriptor holds.
pub const TSS_LIMIT: u64 = 103;

/// The two words describe an available 64-bit TSS: in the low word the
/// present bit (47) is set, the type (bits 40..44) is 0b1001, the segment
/// and privilege bits (44..47) and the flag and upper limit bits (48..56)
/// are clear, and the limit (bits 0..16) is the TSS's size less one; the
/// high word holds only the upper half of the base address (bits 0..32).
/// The base address bits (16..40 and 56..64 of the low word, the high word)
/// are where the TSS lies in memory and are left open.
pub open spec fn is_tss_descriptor(low: u64, high: u64) -> bool {
    &&& (low / 0x8000_0000_0000) % 2 == 1
    &&& (low / 0x100_0000_0000) % 16 == 9
    &&& (low / 0x1000_0000_0000) % 8 == 0
    &&& (low / 0x1_0000_0000_0000) % 256 == 0
    &&& low % 65536 == TSS_LIMIT
    &&& high < 0x1_0000_0000
}

/// Calls `Descriptor::tss_segment`: a system descriptor of two words, which
/// describe an available 64-bit TSS of ring 0 and of the TSS's size.  The
/// base address bits they hold come from where the TSS lies in memory and
/// are left unsaid.
#[verifier::external_body]
fn tss_descriptor(tss: &'static TaskStateSegment) -> (d: Descriptor)
    ensures
        descriptor_words(d).len() == 2,
        is_tss_descriptor(descriptor_words(d)[0], descriptor_words(d)[1]),
        descriptor_dpl(descriptor_words(d)[0]) == 0,
{
    Descriptor::tss_segment(tss)
}

/// Calls `GlobalDescriptorTable::add_entry`: appends the descriptor's words
/// and answers the bits of the segment selector of its first word, whose
/// index is that word's position and whose requested privilege level is the
/// descriptor's.  The crate panics when the words do not fit in the eight
/// entries, which `requires` rules out.
#[verifier::external_body]
fn gdt_add_entry(gdt: &mut GlobalDescriptorTable, d: Descriptor) -> (selector: u16)
    requires
        descriptor_words(d).len() == 1 || descriptor_words(d).len() == 2,
        gdt_entries(*old(gdt)).len() + descriptor_words(d).len() <= GDT_CAPACITY,
    ensures
        gdt_entries(*final(gdt)) == gdt_entries(*old(gdt)) + descriptor_words(d),
        selector == gdt_entries(*old(gdt)).len() * 8 + descriptor_dpl(descriptor_words(d)[0]),
{
    gdt.add_entry(d).0
}

/// The segment selectors of the kernel's segments, as their raw bits: index
/// times eight plus the requested privilege level.
#[derive(Debug, Clone, Copy)]
pub struct Selectors {
    pub code_selector: u16,
    pub data_selector: u16,
    pub tss_selector: u16,
}

/// Builds the kernel's GDT: the null descriptor, the kernel code segment,
/// the kernel data segment and the two-word descriptor of `tss`, and the
/// ring 0 selectors of the last three.
pub fn build_gdt(tss: &'static TaskStateSegment) -> (res: (GlobalDescriptorTable, Selectors))
    ensures
        gdt_entries(res.0).len() == 5,
        gdt_entries(res.0)[0] == 0,
        gdt_entries(res.0)[1] == KERNEL_CODE64,
        gdt_entries(res.0)[2] == KERNEL_DATA,
        is_tss_descriptor(gdt_entries(res.0)[3], gdt_entries(res.0)[4]),
        res.1.code_selector == 8,
        res.1.data_selector == 16,
        res.1.tss_selector == 24,
{
    let mut gdt = gdt_new();
    let code_selector = gdt_add_entry(&mut gdt, kernel_code_descriptor());
    let data_selector = gdt_add_entry(&mut gdt, kernel_data_descriptor());
    let tss_selector = gdt_add_entry(&mut gdt, tss_descriptor(tss));
    (gdt, Selectors { code_selector, data_selector, tss_selector })
}

/// The canonical form of a 64-bit virtual address whose bits 48..64 are
/// either clear or a copy of bit 47: the address itself, except that an
/// address with bit 47 set and bits 48..64 clear gets bits 48..64 set.
pub open spec fn canonical_address(addr: int) -> int {
    if addr / 0x8000_0000_0000 == 1 {
        addr + 0xffff_0000_0000_0000
    } else {
        addr
    }
}

/// Bits 48..64 of the address are clear or a copy of bit 47, or bit 47 is
/// set and bits 48..64 are clear: `VirtAddr::new` accepts it.
pub open spec fn is_virt_addr(addr: int) -> bool {
    let high = addr / 0x8000_0000_0000;
    0 <= addr < 0x1_0000_0000_0000_0000 && (high == 0 || high == 1 || high == 0x1ffff)
}

/// Bits 48..64 of the address are copies of bit 47.
pub open spec fn is_canonical(addr: int) -> bool {
    let high = addr / 0x8000_0000_0000;
    0 <= addr < 0x1_0000_0000_0000_0000 && (high == 0 || high == 0x1ffff)
}

/// Calls `VirtAddr::new(addr) + offset`: `VirtAddr::new` keeps a canonical
/// address as it is, and the addition answers `VirtAddr::new` of the sum,
/// the sum's canonical form.  The addition panics on overflow and
/// `VirtAddr::new` panics on a sum that is no virtual address, both of which
/// `requires` rules out.
#[verifier::external_body]
fn virt_addr_add(addr: u64, offset: usize) -> (sum: u64)
    requires
        is_canonical(addr as int),
        is_virt_addr(addr + offset),
    ensures
        sum == canonical_address(addr + offset),
{
    (x86_64::VirtAddr::new(addr) + offset).as_u64()
}

/// The top of the interrupt stack whose lowest byte is at the canonical
/// address `stack_bottom`: stacks grow downwards, so the TSS holds the
/// address just past its end.
pub fn interrupt_stack_top(stack_bottom: u64) -> (top: u64)
    requires
        is_canonical(stack_bottom as int),
        is_virt_addr(stack_bottom + INTERRUPT_STACK_SIZE),
    ensures
        top == canonical_address(stack_bottom + INTERRUPT_STACK_SIZE),
{
    virt_addr_add(stack_bottom, INTERRUPT_STACK_SIZE)
}

} // verus!
