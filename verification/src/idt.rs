use vstd::prelude::*;

verus! {

/// Vector offset of the primary 8259 PIC: IRQ lines 0..8 arrive on vectors 32..40.
pub const PIC_1_OFFSET: u8 = 0x20;

/// Vector offset of the secondary 8259 PIC: IRQ lines 8..16 arrive on vectors 40..48.
pub const PIC_2_OFFSET: u8 = 0x28;

/// The hardware interrupts this kernel handles, by the IRQ line that raises them.
#[derive(Debug, Clone, Copy, PartialEq, Eq, Structural)]
pub enum InterruptIndex {
    /// PIT channel 0, IRQ 0.
    Timer,
    /// PS/2 keyboard controller, IRQ 1.
    Keyboard,
}

impl InterruptIndex {
    /// The IRQ line of the primary PIC that raises this interrupt.
    pub open spec fn irq_line(self) -> nat {
        match self {
            InterruptIndex::Timer => 0,
            InterruptIndex::Keyboard => 1,
        }
    }

    /// The interrupt vector this interrupt arrives on.
    pub open spec fn vector(self) -> nat {
        PIC_1_OFFSET as nat + self.irq_line()
    }

    /// The vector number as a byte, as the PIC's end-of-interrupt command takes it.
    pub fn as_u8(self) -> (v: u8)
        ensures
            v == self.vector(),
    {
        match self {
            InterruptIndex::Timer => PIC_1_OFFSET,
            InterruptIndex::Keyboard => PIC_1_OFFSET + 1,
        }
    }

    /// The vector number as an index into the interrupt descriptor table.
    pub fn as_usize(self) -> (v: usize)
        ensures
            v == self.vector(),
    {
        usize::from(self.as_u8())
    }
}

} // verus!
