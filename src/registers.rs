use vstd::prelude::*;

verus! {

/// Base address of the PDCA's register map.
pub const DMA_BASE_ADDR: usize = 0x400A2000;

/// Bytes between the register blocks of two consecutive channels.
pub const DMA_CHANNEL_SIZE: usize = 0x40;

/// Control register: transfer enable.
pub const CR_TEN: u32 = 1;

/// Control register: transfer disable.
pub const CR_TDIS: u32 = 2;

/// Control register: transfer error clear.
pub const CR_ECLR: u32 = 256;

/// Status register: transfers are enabled.
pub const SR_TEN: u32 = 1;

/// Interrupt bit: reload counter reached zero.
pub const INT_RCZ: u32 = 1;

/// Interrupt bit: transfer complete.
pub const INT_TRC: u32 = 2;

/// Interrupt bit: transfer error.
pub const INT_TERR: u32 = 4;

/// All three interrupt sources of a channel.
pub const INT_ALL: u32 = 7;

/// Largest value of a 16-bit counter field, plus one.
pub const COUNTER_RANGE: u32 = 0x10000;

/// Register block of one channel, as the silicon holds it. Write-only
/// registers (control, interrupt enable and disable) have no field: writing
/// them changes the fields below, as the methods describe.
#[derive(Clone, Copy, Debug, PartialEq, Eq, Structural)]
pub struct DMARegisters {
    /// Memory address of the transfer in progress.
    pub mar: u32,
    /// Peripheral select: the code of the peripheral function.
    pub psr: u8,
    /// Transfer counter; only its low 16 bits exist.
    pub tcr: u32,
    /// Memory address loaded at the next (re)start.
    pub marr: u32,
    /// Transfer count loaded at the next (re)start; low 16 bits only.
    pub tcrr: u32,
    /// Mode: ring (bit 3), event trigger (bit 2), size (bits 0 and 1).
    pub mr: u32,
    /// Status: transfers enabled (bit 0).
    pub sr: u32,
    /// Interrupt mask: a set bit is an unmasked source.
    pub imr: u32,
}

/// Whether the interrupt source `bit` is unmasked in mask value `imr`.
pub open spec fn interrupt_unmasked(imr: u32, bit: u32) -> bool {
    imr & bit != 0
}

impl DMARegisters {
    /// The register block out of reset.
    pub open spec fn spec_reset() -> DMARegisters {
        DMARegisters { mar: 0, psr: 0, tcr: 0, marr: 0, tcrr: 0, mr: 0, sr: 0, imr: 0 }
    }

    pub fn reset() -> (r: DMARegisters)
        ensures
            r == DMARegisters::spec_reset(),
    {
        DMARegisters { mar: 0, psr: 0, tcr: 0, marr: 0, tcrr: 0, mr: 0, sr: 0, imr: 0 }
    }

    /// Writes the interrupt disable register: each set bit masks its source.
    pub fn write_idr(&mut self, bits: u32)
        ensures
            *final(self) == (DMARegisters { imr: old(self).imr & !bits, ..*old(self) }),
    {
        self.imr = self.imr & !bits;
    }

    /// Writes the interrupt enable register: each set bit unmasks its source.
    pub fn write_ier(&mut self, bits: u32)
        ensures
            *final(self) == (DMARegisters { imr: old(self).imr | bits, ..*old(self) }),
    {
        self.imr = self.imr | bits;
    }

    /// Writes the control register. A transfer-disable bit wins over a
    /// transfer-enable bit; the error-clear bit changes no field held here.
    pub fn write_cr(&mut self, bits: u32)
        ensures
            *final(self) == (DMARegisters {
                sr: if bits & CR_TDIS != 0 {
                    0
                } else if bits & CR_TEN != 0 {
                    SR_TEN
                } else {
                    old(self).sr
                },
                ..*old(self)
            }),
    {
        if bits & CR_TDIS != 0 {
            self.sr = 0;
        } else if bits & CR_TEN != 0 {
            self.sr = SR_TEN;
        }
    }

    /// Writes the mode register whole.
    pub fn write_mr(&mut self, value: u32)
        ensures
            *final(self) == (DMARegisters { mr: value, ..*old(self) }),
    {
        self.mr = value;
    }

    /// Sets the peripheral-select register.
    pub fn write_psr(&mut self, code: u8)
        ensures
            *final(self) == (DMARegisters { psr: code, ..*old(self) }),
    {
        self.psr = code;
    }

    /// Writes the memory address reload register.
    pub fn write_marr(&mut self, address: u32)
        ensures
            *final(self) == (DMARegisters { marr: address, ..*old(self) }),
    {
        self.marr = address;
    }

    /// Writes the transfer counter reload register; bits above 16 are dropped.
    pub fn write_tcrr(&mut self, value: u32)
        ensures
            *final(self) == (DMARegisters { tcrr: value % COUNTER_RANGE, ..*old(self) }),
    {
        self.tcrr = value % COUNTER_RANGE;
    }

    /// Writes the live transfer counter; bits above 16 are dropped.
    pub fn write_tcr(&mut self, value: u32)
        ensures
            *final(self) == (DMARegisters { tcr: value % COUNTER_RANGE, ..*old(self) }),
    {
        self.tcr = value % COUNTER_RANGE;
    }
}

/// Masking every source leaves none unmasked.
pub proof fn lemma_mask_all(imr: u32)
    ensures
        (imr & !INT_ALL) & INT_RCZ == 0,
        (imr & !INT_ALL) & INT_TRC == 0,
        (imr & !INT_ALL) & INT_TERR == 0,
        (imr == 0 || imr == INT_TRC) ==> imr & !INT_ALL == 0,
{
    assert((imr & !7u32) & 1u32 == 0) by (bit_vector);
    assert((imr & !7u32) & 2u32 == 0) by (bit_vector);
    assert((imr & !7u32) & 4u32 == 0) by (bit_vector);
    assert((imr == 0u32 || imr == 2u32) ==> imr & !7u32 == 0) by (bit_vector);
}

/// Unmasking transfer-complete alone, from a mask with no other source set,
/// leaves exactly that source unmasked.
pub proof fn lemma_unmask_complete(imr: u32)
    requires
        imr == 0 || imr == INT_TRC,
    ensures
        imr | INT_TRC == INT_TRC,
        interrupt_unmasked(INT_TRC, INT_TRC),
        !interrupt_unmasked(INT_TRC, INT_TERR),
        !interrupt_unmasked(INT_TRC, INT_RCZ),
{
    assert((imr == 0u32 || imr == 2u32) ==> imr | 2u32 == 2u32) by (bit_vector);
    assert(2u32 & 2u32 != 0 && 2u32 & 4u32 == 0 && 2u32 & 1u32 == 0) by (bit_vector);
}

/// The transfer-disable and transfer-enable commands, read by `write_cr`.
pub proof fn lemma_control_bits()
    ensures
        CR_TDIS & CR_TDIS != 0,
        CR_TEN & CR_TDIS == 0,
        CR_TEN & CR_TEN != 0,
{
    assert(2u32 & 2u32 != 0 && 1u32 & 2u32 == 0 && 1u32 & 1u32 != 0) by (bit_vector);
}

} // verus!
