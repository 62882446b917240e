//! The interrupt controller: the IME master enable, the IE per-source enable
//! mask, and the IF request/acknowledge register (where writing a one clears
//! the bit).

use vstd::prelude::*;

verus! {

/// The interrupt sources of the GBA, in bit order of the IE and IF
/// registers. `NoSource` stands for an out-of-range source and owns no bit.
#[derive(Clone, Copy, Debug, PartialEq, Eq, Structural)]
pub enum Interrupt {
    LCDVBlank,
    LCDHBlank,
    LCDVCounterMatch,
    Timer0Overflow,
    Timer1Overflow,
    Timer2Overflow,
    Timer3Overflow,
    SerialCommunication,
    DMA0,
    DMA1,
    DMA2,
    DMA3,
    Keypad,
    GamePak,
    NoSource,
}

pub open spec fn interrupt_mask_spec(i: Interrupt) -> u16 {
    match i {
        Interrupt::LCDVBlank => 0x0001,
        Interrupt::LCDHBlank => 0x0002,
        Interrupt::LCDVCounterMatch => 0x0004,
        Interrupt::Timer0Overflow => 0x0008,
        Interrupt::Timer1Overflow => 0x0010,
        Interrupt::Timer2Overflow => 0x0020,
        Interrupt::Timer3Overflow => 0x0040,
        Interrupt::SerialCommunication => 0x0080,
        Interrupt::DMA0 => 0x0100,
        Interrupt::DMA1 => 0x0200,
        Interrupt::DMA2 => 0x0400,
        Interrupt::DMA3 => 0x0800,
        Interrupt::Keypad => 0x1000,
        Interrupt::GamePak => 0x2000,
        Interrupt::NoSource => 0x0000,
    }
}

impl Interrupt {
    /// The bit this source owns in IE and IF.
    pub fn mask(self) -> (r: u16)
        ensures
            r == interrupt_mask_spec(self),
    {
        match self {
            Interrupt::LCDVBlank => 0x0001,
            Interrupt::LCDHBlank => 0x0002,
            Interrupt::LCDVCounterMatch => 0x0004,
            Interrupt::Timer0Overflow => 0x0008,
            Interrupt::Timer1Overflow => 0x0010,
            Interrupt::Timer2Overflow => 0x0020,
            Interrupt::Timer3Overflow => 0x0040,
            Interrupt::SerialCommunication => 0x0080,
            Interrupt::DMA0 => 0x0100,
            Interrupt::DMA1 => 0x0200,
            Interrupt::DMA2 => 0x0400,
            Interrupt::DMA3 => 0x0800,
            Interrupt::Keypad => 0x1000,
            Interrupt::GamePak => 0x2000,
            Interrupt::NoSource => 0x0000,
        }
    }

    /// The overflow interrupt of timer `timer_index`.
    pub fn timer(timer_index: usize) -> (r: Interrupt)
        ensures
            timer_index == 0 ==> r == Interrupt::Timer0Overflow,
            timer_index == 1 ==> r == Interrupt::Timer1Overflow,
            timer_index == 2 ==> r == Interrupt::Timer2Overflow,
            timer_index == 3 ==> r == Interrupt::Timer3Overflow,
            timer_index > 3 ==> r == Interrupt::NoSource,
    {
        match timer_index {
            0 => Interrupt::Timer0Overflow,
            1 => Interrupt::Timer1Overflow,
            2 => Interrupt::Timer2Overflow,
            3 => Interrupt::Timer3Overflow,
            _ => Interrupt::NoSource,
        }
    }

    /// The completion interrupt of DMA channel `dma_index`.
    pub fn dma(dma_index: usize) -> (r: Interrupt)
        ensures
            dma_index == 0 ==> r == Interrupt::DMA0,
            dma_index == 1 ==> r == Interrupt::DMA1,
            dma_index == 2 ==> r == Interrupt::DMA2,
            dma_index == 3 ==> r == Interrupt::DMA3,
            dma_index > 3 ==> r == Interrupt::NoSource,
    {
        match dma_index {
            0 => Interrupt::DMA0,
            1 => Interrupt::DMA1,
            2 => Interrupt::DMA2,
            3 => Interrupt::DMA3,
            _ => Interrupt::NoSource,
        }
    }
}

pub struct GbaInterruptControl {
    /// The IME register: the master enable bit.
    pub master_enable: bool,
    /// The IE register: the per-source enable mask.
    pub enabled: u16,
    /// The IF register: the pending request bits.
    pub request_ack: u16,
}

impl GbaInterruptControl {
    pub fn new() -> (r: GbaInterruptControl)
        ensures
            !r.master_enable,
            r.enabled == 0,
            r.request_ack == 0,
    {
        GbaInterruptControl { master_enable: false, enabled: 0, request_ack: 0 }
    }

    pub fn read_if(&self) -> (r: u16)
        ensures
            r == self.request_ack,
    {
        self.request_ack
    }

    /// Handles a write to the IF register: writing a one to a bit clears it.
    pub fn write_if(&mut self, value: u16)
        ensures
            final(self).request_ack == old(self).request_ack & !value,
            final(self).enabled == old(self).enabled,
            final(self).master_enable == old(self).master_enable,
    {
        self.request_ack = self.request_ack & !value;
    }

    /// Requests an interrupt: its IF bit is set, and true returned, exactly
    /// when the master enable and the source's IE bit permit it.
    pub fn request(&mut self, interrupt: Interrupt) -> (r: bool)
        ensures
            r == (old(self).master_enable && old(self).enabled & interrupt_mask_spec(interrupt)
                != 0),
            r ==> final(self).request_ack == old(self).request_ack | interrupt_mask_spec(
                interrupt,
            ),
            !r ==> final(self).request_ack == old(self).request_ack,
            final(self).enabled == old(self).enabled,
            final(self).master_enable == old(self).master_enable,
    {
        if self.master_enable && self.is_enabled(interrupt) {
            self.request_ack = self.request_ack | interrupt.mask();
            true
        } else {
            false
        }
    }

    pub fn is_enabled(&self, interrupt: Interrupt) -> (r: bool)
        ensures
            r == (self.enabled & interrupt_mask_spec(interrupt) != 0),
    {
        (self.enabled & interrupt.mask()) != 0
    }

    /// Whether an enabled interrupt is pending: the CPU takes the IRQ
    /// exception at its next instruction boundary exactly when this holds
    /// and IRQs are not masked in the CPSR.
    pub fn pending(&self) -> (r: bool)
        ensures
            r == (self.enabled & self.request_ack != 0),
    {
        (self.enabled & self.request_ack) != 0
    }
}

} // verus!
