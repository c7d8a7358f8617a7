//! Electronic fuse peripheral register values.
//!
//! Each register is a 32-bit word whose fields are groups of bits.  The
//! accessors read a field out of the word, or give back a new word in which
//! one field has been written and the other bits are kept.
//!
//! The fields of the control register are described twice below: on the
//! bare word (`u32`), on which the laws at the end of this file are proved,
//! and as methods of [`EfuseControl`], which the contracts of the accessors
//! use.
use vstd::prelude::*;

verus! {

// ----- the control register's fields, on the bare word -----

/// Protect code cycle: bits 24 to 31.
pub open spec fn prot_code_cyc_bits(w: u32) -> u8 {
    (w >> 24u32) as u8
}

/// Interface 0 interrupt set bit (bit 22), as 0 or 1.
pub open spec fn if_0_int_set_bit(w: u32) -> u8 {
    ((w >> 22u32) & 1u32) as u8
}

/// Interface 0 interrupt clear bit (bit 21), as 0 or 1.
pub open spec fn if_0_int_clr_bit(w: u32) -> u8 {
    ((w >> 21u32) & 1u32) as u8
}

/// Interface 0 interrupt bit (bit 20).
pub open spec fn if_0_int_bit(w: u32) -> bool {
    (w >> 20u32) & 1u32 == 1u32
}

/// Cycle modify lock bit (bit 19), as 0 or 1.
pub open spec fn cyc_modify_lock_bit(w: u32) -> u8 {
    ((w >> 19u32) & 1u32) as u8
}

/// Automatic read enable bit (bit 18).
pub open spec fn auto_read_bit(w: u32) -> bool {
    (w >> 18u32) & 1u32 == 1u32
}

/// PCLK force on bit (bit 17).
pub open spec fn pclk_force_on_bit(w: u32) -> bool {
    (w >> 17u32) & 1u32 == 1u32
}

/// `w` with bits 24 to 31 replaced by `cycle`.
pub open spec fn write_prot_code_cyc(w: u32, cycle: u8) -> u32 {
    (w & 0x00FF_FFFFu32) | ((cycle as u32) << 24u32)
}

/// `w` with bit 22 replaced by the lowest bit of `val`.
pub open spec fn write_if_0_int_set(w: u32, val: u8) -> u32 {
    (w & !0x0040_0000u32) | (((val as u32) & 1u32) << 22u32)
}

/// `w` with bit 21 replaced by the lowest bit of `val`.
pub open spec fn write_if_0_int_clr(w: u32, val: u8) -> u32 {
    (w & !0x0020_0000u32) | (((val as u32) & 1u32) << 21u32)
}

/// `w` with bit 19 replaced by the lowest bit of `val`.
pub open spec fn write_cyc_modify_lock(w: u32, val: u8) -> u32 {
    (w & !0x0008_0000u32) | (((val as u32) & 1u32) << 19u32)
}

/// `w` with bit 18 set to `on`.
pub open spec fn write_auto_read(w: u32, on: bool) -> u32 {
    if on { w | 0x0004_0000u32 } else { w & !0x0004_0000u32 }
}

/// `w` with bit 17 set to `on`.
pub open spec fn write_pclk_force_on(w: u32, on: bool) -> u32 {
    if on { w | 0x0002_0000u32 } else { w & !0x0002_0000u32 }
}

/// Efuse interface 0 control register.
#[derive(Clone, Copy, Debug, PartialEq, Eq, Hash, Structural)]
pub struct EfuseControl(pub u32);

impl EfuseControl {
    const IF_PROT_CODE_CYC_MASK: u32 = 0xFF << 24;
    const IF_0_INT_SET_MASK: u32 = 0x1 << 22;
    const IF_0_INT_CLR_MASK: u32 = 0x1 << 21;
    const IF_0_INT_MASK: u32 = 0x1 << 20;
    const IF_CYC_MODIFY_LOCK_MASK: u32 = 0x1 << 19;
    const IF_AUTO_RD_EN_MASK: u32 = 0x1 << 18;
    const PCLK_FORCE_ON_MASK: u32 = 0x1 << 17;
    #[allow(dead_code)]
    const CLK_SAHB_DATA_GATE_MASK: u32 = 0x1 << 17;
    #[allow(dead_code)]
    const IF_POR_DIG_MASK: u32 = 0x1 << 16;
    #[allow(dead_code)]
    const IF_PROT_CODE_CTRL_MASK: u32 = 0xFF << 8;
    #[allow(dead_code)]
    const CLK_SAHB_DATA_SEL_MASK: u32 = 0x1 << 7;
    #[allow(dead_code)]
    const IF_0_CYC_MODIFY_MASK: u32 = 0x1 << 6;
    #[allow(dead_code)]
    const IF_0_MANUAL_EN_MASK: u32 = 0x1 << 5;
    #[allow(dead_code)]
    const IF_0_TRIG_MASK: u32 = 0x1 << 4;
    #[allow(dead_code)]
    const IF_0_RW_MASK: u32 = 0x1 << 3;
    #[allow(dead_code)]
    const IF_0_BUSY_MASK: u32 = 0x1 << 2;
    #[allow(dead_code)]
    const IF_0_AUTOLOAD_DONE_MASK: u32 = 0x1 << 1;
    #[allow(dead_code)]
    const IF_0_AUTOLOAD_P1_DONE_MASK: u32 = 0x1 << 0;

    /// Protect code cycle held in this value.
    pub open spec fn spec_prot_code_cyc(self) -> u8 {
        prot_code_cyc_bits(self.0)
    }

    /// Interface 0 interrupt set bit held in this value, as 0 or 1.
    pub open spec fn spec_if_0_int_set(self) -> u8 {
        if_0_int_set_bit(self.0)
    }

    /// Interface 0 interrupt clear bit held in this value, as 0 or 1.
    pub open spec fn spec_if_0_int_clr(self) -> u8 {
        if_0_int_clr_bit(self.0)
    }

    /// Whether this value has the interface 0 interrupt bit set.
    pub open spec fn spec_if_0_int_occurs(self) -> bool {
        if_0_int_bit(self.0)
    }

    /// Cycle modify lock bit held in this value, as 0 or 1.
    pub open spec fn spec_cyc_modify_lock(self) -> u8 {
        cyc_modify_lock_bit(self.0)
    }

    /// Whether this value has automatic read enabled.
    pub open spec fn spec_auto_read_enabled(self) -> bool {
        auto_read_bit(self.0)
    }

    /// Whether this value has PCLK forced on.
    pub open spec fn spec_pclk_force_on_enabled(self) -> bool {
        pclk_force_on_bit(self.0)
    }

    /// This value with the protect code cycle written.
    pub open spec fn with_prot_code_cyc(self, cycle: u8) -> Self {
        EfuseControl(write_prot_code_cyc(self.0, cycle))
    }

    /// This value with the interface 0 interrupt set bit written.
    pub open spec fn with_if_0_int_set(self, val: u8) -> Self {
        EfuseControl(write_if_0_int_set(self.0, val))
    }

    /// This value with the interface 0 interrupt clear bit written.
    pub open spec fn with_if_0_int_clr(self, val: u8) -> Self {
        EfuseControl(write_if_0_int_clr(self.0, val))
    }

    /// This value with the cycle modify lock written.
    pub open spec fn with_cyc_modify_lock(self, val: u8) -> Self {
        EfuseControl(write_cyc_modify_lock(self.0, val))
    }

    /// This value with automatic read switched to `on`.
    pub open spec fn with_auto_read(self, on: bool) -> Self {
        EfuseControl(write_auto_read(self.0, on))
    }

    /// This value with PCLK force on switched to `on`.
    pub open spec fn with_pclk_force_on(self, on: bool) -> Self {
        EfuseControl(write_pclk_force_on(self.0, on))
    }

    /// Set protect code cycle.
    #[inline]
    pub fn set_prot_code_cyc(self, cycle: u8) -> (r: Self)
        ensures
            r.0 == self.0 % 0x0100_0000u32 + (cycle as u32) * 0x0100_0000u32,
            r == self.with_prot_code_cyc(cycle),
            r.spec_prot_code_cyc() == cycle,
            r.0 & 0x00FF_FFFFu32 == self.0 & 0x00FF_FFFFu32,
    {
        proof {
            lemma_prot_code_cyc_is_top_byte(self.0, cycle);
        }
        proof {
            lemma_prot_code_cyc_write(self, cycle);
        }
        let v = self.0;
        assert((v & !(0xFFu32 << 24u32)) | ((cycle as u32) << 24u32)
            == write_prot_code_cyc(v, cycle)) by (bit_vector);
        Self((self.0 & !Self::IF_PROT_CODE_CYC_MASK) | ((cycle as u32) << 24))
    }

    /// Get protect code cycle.
    #[inline]
    pub fn prot_code_cyc(self) -> (r: u8)
        ensures
            r as u32 == self.0 / 0x0100_0000u32,
            r == self.spec_prot_code_cyc(),
    {
        proof {
            lemma_prot_code_cyc_is_top_byte(self.0, 0);
        }
        let v = self.0;
        assert(((v & (0xFFu32 << 24u32)) >> 24u32) as u8 == prot_code_cyc_bits(v)) by (bit_vector);
        ((self.0 & Self::IF_PROT_CODE_CYC_MASK) >> 24) as u8
    }

    /// Set interface 0 interrupt set bit.
    #[inline]
    pub fn set_if_0_int_set(self, val: u8) -> (r: Self)
        ensures
            r.0 == (self.0 / 0x0080_0000u32) * 0x0080_0000u32 + ((val as u32) % 2u32) * 0x0040_0000u32 + self.0 % 0x0040_0000u32,
            r == self.with_if_0_int_set(val),
            r.spec_if_0_int_set() == val & 1,
            r.0 & !0x0040_0000u32 == self.0 & !0x0040_0000u32,
    {
        proof {
            lemma_if_0_int_set_is_bit_22(self.0, val);
        }
        proof {
            lemma_if_0_int_set_write(self, val);
        }
        let v = self.0;
        assert((v & !(0x1u32 << 22u32)) | ((0x1u32 << 22u32) & ((val as u32) << 22u32))
            == write_if_0_int_set(v, val)) by (bit_vector);
        Self((self.0 & !Self::IF_0_INT_SET_MASK) | (Self::IF_0_INT_SET_MASK & ((val as u32) << 22)))
    }

    /// Get interface 0 interrupt set bit.
    #[inline]
    pub fn if_0_int_set(self) -> (r: u8)
        ensures
            r as u32 == (self.0 / 0x0040_0000u32) % 2u32,
            r == self.spec_if_0_int_set(),
            r <= 1,
    {
        proof {
            lemma_if_0_int_set_is_bit_22(self.0, 0);
        }
        let v = self.0;
        assert(((v & (0x1u32 << 22u32)) >> 22u32) as u8 == if_0_int_set_bit(v)
            && if_0_int_set_bit(v) <= 1u8) by (bit_vector);
        ((self.0 & Self::IF_0_INT_SET_MASK) >> 22) as u8
    }

    /// Set interface 0 interrupt clear bit.
    #[inline]
    pub fn set_if_0_int_clr(self, val: u8) -> (r: Self)
        ensures
            r.0 == (self.0 / 0x0040_0000u32) * 0x0040_0000u32 + ((val as u32) % 2u32) * 0x0020_0000u32 + self.0 % 0x0020_0000u32,
            r == self.with_if_0_int_clr(val),
            r.spec_if_0_int_clr() == val & 1,
            r.0 & !0x0020_0000u32 == self.0 & !0x0020_0000u32,
    {
        proof {
            lemma_if_0_int_clr_is_bit_21(self.0, val);
        }
        proof {
            lemma_if_0_int_clr_write(self, val);
        }
        let v = self.0;
        assert((v & !(0x1u32 << 21u32)) | ((0x1u32 << 21u32) & ((val as u32) << 21u32))
            == write_if_0_int_clr(v, val)) by (bit_vector);
        Self((self.0 & !Self::IF_0_INT_CLR_MASK) | (Self::IF_0_INT_CLR_MASK & ((val as u32) << 21)))
    }

    /// Check if interface 0 interrupt occurs.
    #[inline]
    pub fn if_0_int_occurs(self) -> (r: bool)
        ensures
            r == ((self.0 / 0x0010_0000u32) % 2u32 == 1u32),
            r == self.spec_if_0_int_occurs(),
    {
        proof {
            lemma_if_0_int_is_bit_20(self.0);
        }
        let v = self.0;
        assert(((v & (0x1u32 << 20u32)) != 0u32) == if_0_int_bit(v)) by (bit_vector);
        (self.0 & Self::IF_0_INT_MASK) != 0
    }

    /// Set cycle modify lock bit.
    #[inline]
    pub fn set_cyc_modify_lock(self, val: u8) -> (r: Self)
        ensures
            r.0 == (self.0 / 0x0010_0000u32) * 0x0010_0000u32 + ((val as u32) % 2u32) * 0x0008_0000u32 + self.0 % 0x0008_0000u32,
            r == self.with_cyc_modify_lock(val),
            r.spec_cyc_modify_lock() == val & 1,
            r.0 & !0x0008_0000u32 == self.0 & !0x0008_0000u32,
    {
        proof {
            lemma_cyc_modify_lock_is_bit_19(self.0, val);
        }
        proof {
            lemma_cyc_modify_lock_write(self, val);
        }
        let v = self.0;
        assert((v & !(0x1u32 << 19u32)) | ((0x1u32 << 19u32) & ((val as u32) << 19u32))
            == write_cyc_modify_lock(v, val)) by (bit_vector);
        Self((self.0 & !Self::IF_CYC_MODIFY_LOCK_MASK) | (Self::IF_CYC_MODIFY_LOCK_MASK & ((val as u32) << 19)))
    }

    /// Get cycle modify lock bit.
    #[inline]
    pub fn cyc_modify_lock(self) -> (r: u8)
        ensures
            r as u32 == (self.0 / 0x0008_0000u32) % 2u32,
            r == self.spec_cyc_modify_lock(),
            r <= 1,
    {
        proof {
            lemma_cyc_modify_lock_is_bit_19(self.0, 0);
        }
        let v = self.0;
        assert(((v & (0x1u32 << 19u32)) >> 19u32) as u8 == cyc_modify_lock_bit(v)
            && cyc_modify_lock_bit(v) <= 1u8) by (bit_vector);
        ((self.0 & Self::IF_CYC_MODIFY_LOCK_MASK) >> 19) as u8
    }

    /// Enable automatic read.
    #[inline]
    pub fn enable_auto_read(self) -> (r: Self)
        ensures
            r.0 == (self.0 / 0x0008_0000u32) * 0x0008_0000u32 + 0x0004_0000u32 + self.0 % 0x0004_0000u32,
            r == self.with_auto_read(true),
            r.spec_auto_read_enabled(),
            r.0 & !0x0004_0000u32 == self.0 & !0x0004_0000u32,
    {
        proof {
            lemma_auto_read_is_bit_18(self.0);
        }
        proof {
            lemma_auto_read_write(self, true);
        }
        let v = self.0;
        assert(v | (0x1u32 << 18u32) == write_auto_read(v, true)) by (bit_vector);
        Self(self.0 | Self::IF_AUTO_RD_EN_MASK)
    }

    /// Disable automatic read.
    #[inline]
    pub fn disable_auto_read(self) -> (r: Self)
        ensures
            r.0 == (self.0 / 0x0008_0000u32) * 0x0008_0000u32 + self.0 % 0x0004_0000u32,
            r == self.with_auto_read(false),
            !r.spec_auto_read_enabled(),
            r.0 & !0x0004_0000u32 == self.0 & !0x0004_0000u32,
    {
        proof {
            lemma_auto_read_is_bit_18(self.0);
        }
        proof {
            lemma_auto_read_write(self, false);
        }
        let v = self.0;
        assert(v & !(0x1u32 << 18u32) == write_auto_read(v, false)) by (bit_vector);
        Self(self.0 & !Self::IF_AUTO_RD_EN_MASK)
    }

    /// Check if automatic read is enabled.
    #[inline]
    pub fn is_auto_read_enabled(self) -> (r: bool)
        ensures
            r == ((self.0 / 0x0004_0000u32) % 2u32 == 1u32),
            r == self.spec_auto_read_enabled(),
    {
        proof {
            lemma_auto_read_is_bit_18(self.0);
        }
        let v = self.0;
        assert(((v & (0x1u32 << 18u32)) != 0u32) == auto_read_bit(v)) by (bit_vector);
        (self.0 & Self::IF_AUTO_RD_EN_MASK) != 0
    }

    /// Enable PCLK force on.
    #[inline]
    pub fn enable_pclk_force_on(self) -> (r: Self)
        ensures
            r.0 == (self.0 / 0x0004_0000u32) * 0x0004_0000u32 + 0x0002_0000u32 + self.0 % 0x0002_0000u32,
            r == self.with_pclk_force_on(true),
            r.spec_pclk_force_on_enabled(),
            r.0 & !0x0002_0000u32 == self.0 & !0x0002_0000u32,
    {
        proof {
            lemma_pclk_force_on_is_bit_17(self.0);
        }
        proof {
            lemma_pclk_force_on_write(self, true);
        }
        let v = self.0;
        assert(v | (0x1u32 << 17u32) == write_pclk_force_on(v, true)) by (bit_vector);
        Self(self.0 | Self::PCLK_FORCE_ON_MASK)
    }

    /// Disable PCLK force on.
    #[inline]
    pub fn disable_pclk_force_on(self) -> (r: Self)
        ensures
            r.0 == (self.0 / 0x0004_0000u32) * 0x0004_0000u32 + self.0 % 0x0002_0000u32,
            r == self.with_pclk_force_on(false),
            !r.spec_pclk_force_on_enabled(),
            r.0 & !0x0002_0000u32 == self.0 & !0x0002_0000u32,
    {
        proof {
            lemma_pclk_force_on_is_bit_17(self.0);
        }
        proof {
            lemma_pclk_force_on_write(self, false);
        }
        let v = self.0;
        assert(v & !(0x1u32 << 17u32) == write_pclk_force_on(v, false)) by (bit_vector);
        Self(self.0 & !Self::PCLK_FORCE_ON_MASK)
    }

    /// Check if PCLK force on is enabled.
    #[inline]
    pub fn is_pclk_force_on_enabled(self) -> (r: bool)
        ensures
            r == ((self.0 / 0x0002_0000u32) % 2u32 == 1u32),
            r == self.spec_pclk_force_on_enabled(),
    {
        proof {
            lemma_pclk_force_on_is_bit_17(self.0);
        }
        let v = self.0;
        assert(((v & (0x1u32 << 17u32)) != 0u32) == pclk_force_on_bit(v)) by (bit_vector);
        (self.0 & Self::PCLK_FORCE_ON_MASK) != 0
    }
}

// ----- each field, in plain arithmetic on the word -----

/// The protect code cycle is the word's top byte: the word divided by 2^24.
/// Writing it gives the low 24 bits of the word plus `cycle` times 2^24.
pub proof fn lemma_prot_code_cyc_is_top_byte(w: u32, cycle: u8)
    ensures
        prot_code_cyc_bits(w) as u32 == w / 0x0100_0000u32,
        write_prot_code_cyc(w, cycle) == w % 0x0100_0000u32 + (cycle as u32) * 0x0100_0000u32,
{
    assert(prot_code_cyc_bits(w) as u32 == w / 0x0100_0000u32
        && write_prot_code_cyc(w, cycle) == w % 0x0100_0000u32 + (cycle as u32) * 0x0100_0000u32)
        by (bit_vector);
}

/// The interface 0 interrupt set bit is the binary digit of weight 2^22.
/// Writing it keeps the digits above and below and puts the parity of `val`
/// in its place.
pub proof fn lemma_if_0_int_set_is_bit_22(w: u32, val: u8)
    ensures
        if_0_int_set_bit(w) as u32 == (w / 0x0040_0000u32) % 2u32,
        write_if_0_int_set(w, val) == (w / 0x0080_0000u32) * 0x0080_0000u32
            + ((val as u32) % 2u32) * 0x0040_0000u32 + w % 0x0040_0000u32,
{
    assert(if_0_int_set_bit(w) as u32 == (w / 0x0040_0000u32) % 2u32
        && write_if_0_int_set(w, val) == (w / 0x0080_0000u32) * 0x0080_0000u32
            + ((val as u32) % 2u32) * 0x0040_0000u32 + w % 0x0040_0000u32) by (bit_vector);
}

/// The interface 0 interrupt clear bit is the binary digit of weight 2^21.
/// Writing it keeps the digits above and below and puts the parity of `val`
/// in its place.
pub proof fn lemma_if_0_int_clr_is_bit_21(w: u32, val: u8)
    ensures
        if_0_int_clr_bit(w) as u32 == (w / 0x0020_0000u32) % 2u32,
        write_if_0_int_clr(w, val) == (w / 0x0040_0000u32) * 0x0040_0000u32
            + ((val as u32) % 2u32) * 0x0020_0000u32 + w % 0x0020_0000u32,
{
    assert(if_0_int_clr_bit(w) as u32 == (w / 0x0020_0000u32) % 2u32
        && write_if_0_int_clr(w, val) == (w / 0x0040_0000u32) * 0x0040_0000u32
            + ((val as u32) % 2u32) * 0x0020_0000u32 + w % 0x0020_0000u32) by (bit_vector);
}

/// The interface 0 interrupt bit is the binary digit of weight 2^20, and
/// nothing else.
pub proof fn lemma_if_0_int_is_bit_20(w: u32)
    ensures
        if_0_int_bit(w) == ((w / 0x0010_0000u32) % 2u32 == 1u32),
        if_0_int_bit(w) == (w & 0x0010_0000u32 != 0u32),
{
    assert(if_0_int_bit(w) == ((w / 0x0010_0000u32) % 2u32 == 1u32)
        && if_0_int_bit(w) == (w & 0x0010_0000u32 != 0u32)) by (bit_vector);
}

/// The cycle modify lock is the binary digit of weight 2^19.  Writing it
/// keeps the digits above and below and puts the parity of `val` in its
/// place.
pub proof fn lemma_cyc_modify_lock_is_bit_19(w: u32, val: u8)
    ensures
        cyc_modify_lock_bit(w) as u32 == (w / 0x0008_0000u32) % 2u32,
        write_cyc_modify_lock(w, val) == (w / 0x0010_0000u32) * 0x0010_0000u32
            + ((val as u32) % 2u32) * 0x0008_0000u32 + w % 0x0008_0000u32,
{
    assert(cyc_modify_lock_bit(w) as u32 == (w / 0x0008_0000u32) % 2u32
        && write_cyc_modify_lock(w, val) == (w / 0x0010_0000u32) * 0x0010_0000u32
            + ((val as u32) % 2u32) * 0x0008_0000u32 + w % 0x0008_0000u32) by (bit_vector);
}

/// Automatic read is the binary digit of weight 2^18.  Enabling it makes
/// that digit 1, disabling makes it 0; the digits above and below are kept.
pub proof fn lemma_auto_read_is_bit_18(w: u32)
    ensures
        auto_read_bit(w) == ((w / 0x0004_0000u32) % 2u32 == 1u32),
        write_auto_read(w, true) == (w / 0x0008_0000u32) * 0x0008_0000u32 + 0x0004_0000u32
            + w % 0x0004_0000u32,
        write_auto_read(w, false) == (w / 0x0008_0000u32) * 0x0008_0000u32 + w % 0x0004_0000u32,
{
    assert(auto_read_bit(w) == ((w / 0x0004_0000u32) % 2u32 == 1u32)
        && write_auto_read(w, true) == (w / 0x0008_0000u32) * 0x0008_0000u32 + 0x0004_0000u32
            + w % 0x0004_0000u32
        && write_auto_read(w, false) == (w / 0x0008_0000u32) * 0x0008_0000u32
            + w % 0x0004_0000u32) by (bit_vector);
}

/// PCLK force on is the binary digit of weight 2^17.  Enabling it makes that
/// digit 1, disabling makes it 0; the digits above and below are kept.
pub proof fn lemma_pclk_force_on_is_bit_17(w: u32)
    ensures
        pclk_force_on_bit(w) == ((w / 0x0002_0000u32) % 2u32 == 1u32),
        write_pclk_force_on(w, true) == (w / 0x0004_0000u32) * 0x0004_0000u32 + 0x0002_0000u32
            + w % 0x0002_0000u32,
        write_pclk_force_on(w, false) == (w / 0x0004_0000u32) * 0x0004_0000u32 + w % 0x0002_0000u32,
{
    assert(pclk_force_on_bit(w) == ((w / 0x0002_0000u32) % 2u32 == 1u32)
        && write_pclk_force_on(w, true) == (w / 0x0004_0000u32) * 0x0004_0000u32 + 0x0002_0000u32
            + w % 0x0002_0000u32
        && write_pclk_force_on(w, false) == (w / 0x0004_0000u32) * 0x0004_0000u32
            + w % 0x0002_0000u32) by (bit_vector);
}

// ----- what the control register's accessors promise together -----

/// Writing the protect code cycle makes it read back as written, keeps bits 0
/// to 23, and so leaves every other field of the control register as it was.
pub proof fn lemma_prot_code_cyc_write(c: EfuseControl, cycle: u8)
    ensures
        c.with_prot_code_cyc(cycle).spec_prot_code_cyc() == cycle,
        c.with_prot_code_cyc(cycle).0 & 0x00FF_FFFFu32 == c.0 & 0x00FF_FFFFu32,
        c.with_prot_code_cyc(cycle).spec_if_0_int_set() == c.spec_if_0_int_set(),
        c.with_prot_code_cyc(cycle).spec_if_0_int_clr() == c.spec_if_0_int_clr(),
        c.with_prot_code_cyc(cycle).spec_if_0_int_occurs() == c.spec_if_0_int_occurs(),
        c.with_prot_code_cyc(cycle).spec_cyc_modify_lock() == c.spec_cyc_modify_lock(),
        c.with_prot_code_cyc(cycle).spec_auto_read_enabled() == c.spec_auto_read_enabled(),
        c.with_prot_code_cyc(cycle).spec_pclk_force_on_enabled() == c.spec_pclk_force_on_enabled(),
{
    let v = c.0;
    let r = write_prot_code_cyc(v, cycle);
    assert(r == write_prot_code_cyc(v, cycle) ==> prot_code_cyc_bits(r) == cycle
        && r & 0x00FF_FFFFu32 == v & 0x00FF_FFFFu32
        && if_0_int_set_bit(r) == if_0_int_set_bit(v)
        && if_0_int_clr_bit(r) == if_0_int_clr_bit(v)
        && if_0_int_bit(r) == if_0_int_bit(v)
        && cyc_modify_lock_bit(r) == cyc_modify_lock_bit(v)
        && auto_read_bit(r) == auto_read_bit(v)
        && pclk_force_on_bit(r) == pclk_force_on_bit(v)) by (bit_vector);
}

/// Writing the interface 0 interrupt set bit makes it read back as the lowest
/// bit of the value written, keeps every other bit, and so leaves every other
/// field as it was.
pub proof fn lemma_if_0_int_set_write(c: EfuseControl, val: u8)
    ensures
        c.with_if_0_int_set(val).spec_if_0_int_set() == val & 1,
        c.with_if_0_int_set(val).0 & !0x0040_0000u32 == c.0 & !0x0040_0000u32,
        c.with_if_0_int_set(val).spec_prot_code_cyc() == c.spec_prot_code_cyc(),
        c.with_if_0_int_set(val).spec_if_0_int_clr() == c.spec_if_0_int_clr(),
        c.with_if_0_int_set(val).spec_if_0_int_occurs() == c.spec_if_0_int_occurs(),
        c.with_if_0_int_set(val).spec_cyc_modify_lock() == c.spec_cyc_modify_lock(),
        c.with_if_0_int_set(val).spec_auto_read_enabled() == c.spec_auto_read_enabled(),
        c.with_if_0_int_set(val).spec_pclk_force_on_enabled() == c.spec_pclk_force_on_enabled(),
{
    let v = c.0;
    let r = write_if_0_int_set(v, val);
    assert(r == write_if_0_int_set(v, val) ==> if_0_int_set_bit(r) == val & 1u8
        && r & !0x0040_0000u32 == v & !0x0040_0000u32
        && prot_code_cyc_bits(r) == prot_code_cyc_bits(v)
        && if_0_int_clr_bit(r) == if_0_int_clr_bit(v)
        && if_0_int_bit(r) == if_0_int_bit(v)
        && cyc_modify_lock_bit(r) == cyc_modify_lock_bit(v)
        && auto_read_bit(r) == auto_read_bit(v)
        && pclk_force_on_bit(r) == pclk_force_on_bit(v)) by (bit_vector);
}

/// Writing the interface 0 interrupt clear bit sets it to the lowest bit of
/// the value written, keeps every other bit, and so leaves every other field
/// as it was.
pub proof fn lemma_if_0_int_clr_write(c: EfuseControl, val: u8)
    ensures
        c.with_if_0_int_clr(val).spec_if_0_int_clr() == val & 1,
        c.with_if_0_int_clr(val).0 & !0x0020_0000u32 == c.0 & !0x0020_0000u32,
        c.with_if_0_int_clr(val).spec_prot_code_cyc() == c.spec_prot_code_cyc(),
        c.with_if_0_int_clr(val).spec_if_0_int_set() == c.spec_if_0_int_set(),
        c.with_if_0_int_clr(val).spec_if_0_int_occurs() == c.spec_if_0_int_occurs(),
        c.with_if_0_int_clr(val).spec_cyc_modify_lock() == c.spec_cyc_modify_lock(),
        c.with_if_0_int_clr(val).spec_auto_read_enabled() == c.spec_auto_read_enabled(),
        c.with_if_0_int_clr(val).spec_pclk_force_on_enabled() == c.spec_pclk_force_on_enabled(),
{
    let v = c.0;
    let r = write_if_0_int_clr(v, val);
    assert(r == write_if_0_int_clr(v, val) ==> if_0_int_clr_bit(r) == val & 1u8
        && r & !0x0020_0000u32 == v & !0x0020_0000u32
        && prot_code_cyc_bits(r) == prot_code_cyc_bits(v)
        && if_0_int_set_bit(r) == if_0_int_set_bit(v)
        && if_0_int_bit(r) == if_0_int_bit(v)
        && cyc_modify_lock_bit(r) == cyc_modify_lock_bit(v)
        && auto_read_bit(r) == auto_read_bit(v)
        && pclk_force_on_bit(r) == pclk_force_on_bit(v)) by (bit_vector);
}

/// Writing the cycle modify lock makes it read back as the lowest bit of the
/// value written, keeps every other bit, and so leaves every other field as
/// it was.
pub proof fn lemma_cyc_modify_lock_write(c: EfuseControl, val: u8)
    ensures
        c.with_cyc_modify_lock(val).spec_cyc_modify_lock() == val & 1,
        c.with_cyc_modify_lock(val).0 & !0x0008_0000u32 == c.0 & !0x0008_0000u32,
        c.with_cyc_modify_lock(val).spec_prot_code_cyc() == c.spec_prot_code_cyc(),
        c.with_cyc_modify_lock(val).spec_if_0_int_set() == c.spec_if_0_int_set(),
        c.with_cyc_modify_lock(val).spec_if_0_int_clr() == c.spec_if_0_int_clr(),
        c.with_cyc_modify_lock(val).spec_if_0_int_occurs() == c.spec_if_0_int_occurs(),
        c.with_cyc_modify_lock(val).spec_auto_read_enabled() == c.spec_auto_read_enabled(),
        c.with_cyc_modify_lock(val).spec_pclk_force_on_enabled() == c.spec_pclk_force_on_enabled(),
{
    let v = c.0;
    let r = write_cyc_modify_lock(v, val);
    assert(r == write_cyc_modify_lock(v, val) ==> cyc_modify_lock_bit(r) == val & 1u8
        && r & !0x0008_0000u32 == v & !0x0008_0000u32
        && prot_code_cyc_bits(r) == prot_code_cyc_bits(v)
        && if_0_int_set_bit(r) == if_0_int_set_bit(v)
        && if_0_int_clr_bit(r) == if_0_int_clr_bit(v)
        && if_0_int_bit(r) == if_0_int_bit(v)
        && auto_read_bit(r) == auto_read_bit(v)
        && pclk_force_on_bit(r) == pclk_force_on_bit(v)) by (bit_vector);
}

/// Switching automatic read makes it read back as switched, keeps every other
/// bit, and so leaves every other field as it was.
pub proof fn lemma_auto_read_write(c: EfuseControl, on: bool)
    ensures
        c.with_auto_read(on).spec_auto_read_enabled() == on,
        c.with_auto_read(on).0 & !0x0004_0000u32 == c.0 & !0x0004_0000u32,
        c.with_auto_read(on).spec_prot_code_cyc() == c.spec_prot_code_cyc(),
        c.with_auto_read(on).spec_if_0_int_set() == c.spec_if_0_int_set(),
        c.with_auto_read(on).spec_if_0_int_clr() == c.spec_if_0_int_clr(),
        c.with_auto_read(on).spec_if_0_int_occurs() == c.spec_if_0_int_occurs(),
        c.with_auto_read(on).spec_cyc_modify_lock() == c.spec_cyc_modify_lock(),
        c.with_auto_read(on).spec_pclk_force_on_enabled() == c.spec_pclk_force_on_enabled(),
{
    let v = c.0;
    let r = write_auto_read(v, on);
    assert(r == write_auto_read(v, on) ==> auto_read_bit(r) == on
        && r & !0x0004_0000u32 == v & !0x0004_0000u32
        && prot_code_cyc_bits(r) == prot_code_cyc_bits(v)
        && if_0_int_set_bit(r) == if_0_int_set_bit(v)
        && if_0_int_clr_bit(r) == if_0_int_clr_bit(v)
        && if_0_int_bit(r) == if_0_int_bit(v)
        && cyc_modify_lock_bit(r) == cyc_modify_lock_bit(v)
        && pclk_force_on_bit(r) == pclk_force_on_bit(v)) by (bit_vector);
}

/// Switching PCLK force on makes it read back as switched, keeps every other
/// bit, and so leaves every other field as it was.
pub proof fn lemma_pclk_force_on_write(c: EfuseControl, on: bool)
    ensures
        c.with_pclk_force_on(on).spec_pclk_force_on_enabled() == on,
        c.with_pclk_force_on(on).0 & !0x0002_0000u32 == c.0 & !0x0002_0000u32,
        c.with_pclk_force_on(on).spec_prot_code_cyc() == c.spec_prot_code_cyc(),
        c.with_pclk_force_on(on).spec_if_0_int_set() == c.spec_if_0_int_set(),
        c.with_pclk_force_on(on).spec_if_0_int_clr() == c.spec_if_0_int_clr(),
        c.with_pclk_force_on(on).spec_if_0_int_occurs() == c.spec_if_0_int_occurs(),
        c.with_pclk_force_on(on).spec_cyc_modify_lock() == c.spec_cyc_modify_lock(),
        c.with_pclk_force_on(on).spec_auto_read_enabled() == c.spec_auto_read_enabled(),
{
    let v = c.0;
    let r = write_pclk_force_on(v, on);
    assert(r == write_pclk_force_on(v, on) ==> pclk_force_on_bit(r) == on
        && r & !0x0002_0000u32 == v & !0x0002_0000u32
        && prot_code_cyc_bits(r) == prot_code_cyc_bits(v)
        && if_0_int_set_bit(r) == if_0_int_set_bit(v)
        && if_0_int_clr_bit(r) == if_0_int_clr_bit(v)
        && if_0_int_bit(r) == if_0_int_bit(v)
        && cyc_modify_lock_bit(r) == cyc_modify_lock_bit(v)
        && auto_read_bit(r) == auto_read_bit(v)) by (bit_vector);
}

/// Of two writes to the same field, the second decides the result: the first
/// leaves no trace.
pub proof fn lemma_last_write_wins(c: EfuseControl, a: u8, b: u8, p: bool, q: bool)
    ensures
        c.with_prot_code_cyc(a).with_prot_code_cyc(b) == c.with_prot_code_cyc(b),
        c.with_if_0_int_set(a).with_if_0_int_set(b) == c.with_if_0_int_set(b),
        c.with_if_0_int_clr(a).with_if_0_int_clr(b) == c.with_if_0_int_clr(b),
        c.with_cyc_modify_lock(a).with_cyc_modify_lock(b) == c.with_cyc_modify_lock(b),
        c.with_auto_read(p).with_auto_read(q) == c.with_auto_read(q),
        c.with_pclk_force_on(p).with_pclk_force_on(q) == c.with_pclk_force_on(q),
{
    let v = c.0;
    assert(write_prot_code_cyc(write_prot_code_cyc(v, a), b) == write_prot_code_cyc(v, b)
        && write_if_0_int_set(write_if_0_int_set(v, a), b) == write_if_0_int_set(v, b)
        && write_if_0_int_clr(write_if_0_int_clr(v, a), b) == write_if_0_int_clr(v, b)
        && write_cyc_modify_lock(write_cyc_modify_lock(v, a), b) == write_cyc_modify_lock(v, b)
        && write_auto_read(write_auto_read(v, p), q) == write_auto_read(v, q)
        && write_pclk_force_on(write_pclk_force_on(v, p), q) == write_pclk_force_on(v, q))
        by (bit_vector);
}

/// Writing a field with the value it already holds changes nothing.
pub proof fn lemma_write_back_read_value(c: EfuseControl)
    ensures
        c.with_prot_code_cyc(c.spec_prot_code_cyc()) == c,
        c.with_if_0_int_set(c.spec_if_0_int_set()) == c,
        c.with_if_0_int_clr(c.spec_if_0_int_clr()) == c,
        c.with_cyc_modify_lock(c.spec_cyc_modify_lock()) == c,
        c.with_auto_read(c.spec_auto_read_enabled()) == c,
        c.with_pclk_force_on(c.spec_pclk_force_on_enabled()) == c,
{
    let v = c.0;
    assert(write_prot_code_cyc(v, prot_code_cyc_bits(v)) == v
        && write_if_0_int_set(v, if_0_int_set_bit(v)) == v
        && write_if_0_int_clr(v, if_0_int_clr_bit(v)) == v
        && write_cyc_modify_lock(v, cyc_modify_lock_bit(v)) == v
        && write_auto_read(v, auto_read_bit(v)) == v
        && write_pclk_force_on(v, pclk_force_on_bit(v)) == v) by (bit_vector);
}

/// Writes to two different fields give the same value in either order.
pub proof fn lemma_writes_to_different_fields_commute(
    c: EfuseControl,
    cycle: u8,
    s: u8,
    k: u8,
    l: u8,
    p: bool,
    q: bool,
)
    ensures
        c.with_prot_code_cyc(cycle).with_if_0_int_set(s) == c.with_if_0_int_set(s).with_prot_code_cyc(cycle),
        c.with_prot_code_cyc(cycle).with_if_0_int_clr(k) == c.with_if_0_int_clr(k).with_prot_code_cyc(cycle),
        c.with_prot_code_cyc(cycle).with_auto_read(p) == c.with_auto_read(p).with_prot_code_cyc(cycle),
        c.with_prot_code_cyc(cycle).with_pclk_force_on(q) == c.with_pclk_force_on(q).with_prot_code_cyc(cycle),
        c.with_if_0_int_set(s).with_if_0_int_clr(k) == c.with_if_0_int_clr(k).with_if_0_int_set(s),
        c.with_if_0_int_set(s).with_auto_read(p) == c.with_auto_read(p).with_if_0_int_set(s),
        c.with_if_0_int_set(s).with_pclk_force_on(q) == c.with_pclk_force_on(q).with_if_0_int_set(s),
        c.with_if_0_int_clr(k).with_auto_read(p) == c.with_auto_read(p).with_if_0_int_clr(k),
        c.with_if_0_int_clr(k).with_pclk_force_on(q) == c.with_pclk_force_on(q).with_if_0_int_clr(k),
        c.with_auto_read(p).with_pclk_force_on(q) == c.with_pclk_force_on(q).with_auto_read(p),
        c.with_cyc_modify_lock(l).with_auto_read(p) == c.with_auto_read(p).with_cyc_modify_lock(l),
        c.with_cyc_modify_lock(l).with_pclk_force_on(q) == c.with_pclk_force_on(q).with_cyc_modify_lock(l),
        c.with_cyc_modify_lock(l).with_prot_code_cyc(cycle) == c.with_prot_code_cyc(cycle).with_cyc_modify_lock(l),
        c.with_cyc_modify_lock(l).with_if_0_int_set(s) == c.with_if_0_int_set(s).with_cyc_modify_lock(l),
        c.with_cyc_modify_lock(l).with_if_0_int_clr(k) == c.with_if_0_int_clr(k).with_cyc_modify_lock(l),
{
    let v = c.0;
    assert(write_if_0_int_set(write_prot_code_cyc(v, cycle), s) == write_prot_code_cyc(write_if_0_int_set(v, s), cycle)
        && write_if_0_int_clr(write_prot_code_cyc(v, cycle), k) == write_prot_code_cyc(write_if_0_int_clr(v, k), cycle)
        && write_auto_read(write_prot_code_cyc(v, cycle), p) == write_prot_code_cyc(write_auto_read(v, p), cycle)
        && write_pclk_force_on(write_prot_code_cyc(v, cycle), q) == write_prot_code_cyc(write_pclk_force_on(v, q), cycle)) by (bit_vector);
    assert(write_if_0_int_clr(write_if_0_int_set(v, s), k) == write_if_0_int_set(write_if_0_int_clr(v, k), s)) by (bit_vector);
    assert(write_auto_read(write_if_0_int_set(v, s), p) == write_if_0_int_set(write_auto_read(v, p), s)
        && write_pclk_force_on(write_if_0_int_set(v, s), q) == write_if_0_int_set(write_pclk_force_on(v, q), s)) by (bit_vector);
    assert(write_auto_read(write_if_0_int_clr(v, k), p) == write_if_0_int_clr(write_auto_read(v, p), k)) by (bit_vector);
    assert(write_pclk_force_on(write_if_0_int_clr(v, k), q) == write_if_0_int_clr(write_pclk_force_on(v, q), k)
        && write_pclk_force_on(write_auto_read(v, p), q) == write_auto_read(write_pclk_force_on(v, q), p)) by (bit_vector);
    assert(write_auto_read(write_cyc_modify_lock(v, l), p) == write_cyc_modify_lock(write_auto_read(v, p), l)
        && write_pclk_force_on(write_cyc_modify_lock(v, l), q) == write_cyc_modify_lock(write_pclk_force_on(v, q), l)) by (bit_vector);
    assert(write_prot_code_cyc(write_cyc_modify_lock(v, l), cycle) == write_cyc_modify_lock(write_prot_code_cyc(v, cycle), l)
        && write_if_0_int_set(write_cyc_modify_lock(v, l), s) == write_cyc_modify_lock(write_if_0_int_set(v, s), l)
        && write_if_0_int_clr(write_cyc_modify_lock(v, l), k) == write_cyc_modify_lock(write_if_0_int_clr(v, k), l)) by (bit_vector);
}


/// Efuse interface 0 cycle config0 register.
#[derive(Clone, Copy, Debug, PartialEq, Eq, Hash, Structural)]
pub struct EfuseCycleConfig0(u32);

#[allow(dead_code)]
impl EfuseCycleConfig0 {
    const CYC_PD_CS_S_MASK: u32 = 0xFF << 24;
    const CYC_CS_MASK: u32 = 0x3F << 18;
    const CYC_RD_ADR_MASK: u32 = 0x3F << 12;
    const CYC_RD_DAT_MASK: u32 = 0x3F << 6;
    const CYC_RD_DMY_MASK: u32 = 0x3F << 0;
}

/// Efuse interface 0 cycle config1 register.
#[derive(Clone, Copy, Debug, PartialEq, Eq, Hash, Structural)]
pub struct EfuseCycleConfig1(u32);

#[allow(dead_code)]
impl EfuseCycleConfig1 {
    const CYC_PD_CS_H_MASK: u32 = 0x3F << 26;
    const CYC_PS_CS_MASK: u32 = 0x3F << 20;
    const CYC_WR_ADR_MASK: u32 = 0x3F << 14;
    const CYC_PP_MASK: u32 = 0xFF << 6;
    const CYC_PI_MASK: u32 = 0x3F << 0;
}

/// Efuse interface 0 manual config1 register.
#[derive(Clone, Copy, Debug, PartialEq, Eq, Hash, Structural)]
pub struct EfuseIf0ManualConfig1(u32);

#[allow(dead_code)]
impl EfuseIf0ManualConfig1 {
    const PROT_CODE_MANUAL_MASK: u32 = 0xFF << 24;
    const Q_MASK: u32 = 0xFF << 16;
    const CSB_MASK: u32 = 0x1 << 15;
    const LOAD_MASK: u32 = 0x1 << 14;
    const PGENB_MASK: u32 = 0x1 << 13;
    const STROBE_MASK: u32 = 0x1 << 12;
    const PS_MASK: u32 = 0x1 << 11;
    const PD_MASK: u32 = 0x1 << 10;
    const A_MASK: u32 = 0x3FF << 0;
}

/// Efuse interface 0 config0 register.
#[derive(Clone, Copy, Debug, PartialEq, Eq, Hash, Structural)]
pub struct EfuseConfig0(u32);

#[allow(dead_code)]
impl EfuseConfig0 {
    const DBG_MODE_MASK: u32 = 0xF << 28;
    const DBG_JTAG_0_DIS_MASK: u32 = 0x3 << 26;
    const DBG_JTAG_1_DIS_MASK: u32 = 0x3 << 24;
    const EFUSE_DBG_DIS_MASK: u32 = 0x1 << 23;
    const SE_DBG_DIS_MASK: u32 = 0x1 << 22;
    const CPU_RST_DBG_DIS_MASK: u32 = 0x1 << 21;
    const CPU1_DIS_MASK: u32 = 0x1 << 20;
    const M154_DIS_MASK: u32 = 0x1 << 19;
    const CAM_DIS_MASK: u32 = 0x1 << 18;
    const KEY_ENC_EN_MASK: u32 = 0x1 << 17;
    const WIFI_DIS_MASK: u32 = 0x1 << 16;
    const BTDM_DIS_MASK: u32 = 0x1 << 15;
    const SDU_DIS_MASK: u32 = 0x1 << 14;
    const SF_KEY_RE_SEL_MASK: u32 = 0x3 << 12;
    const M1542_DIS_MASK: u32 = 0x1 << 11;
    const BLE2_DIS_MASK: u32 = 0x1 << 10;
    const UART_DIS_MASK: u32 = 0xF << 6;
    const SBOOT_EN_MASK: u32 = 0x3 << 4;
    const CPU0_DIS_MASK: u32 = 0x1 << 3;
    const AI_DIS_MASK: u32 = 0x1 << 2;
    const SF_AES_MODE_MASK: u32 = 0x3 << 0;
}

/// Efuse interface 1 control1 register.
#[derive(Clone, Copy, Debug, PartialEq, Eq, Hash, Structural)]
pub struct EfuseControl1(u32);

#[allow(dead_code)]
impl EfuseControl1 {
    const SW_DBG_MODE_MASK: u32 = 0xF << 28;
    const SW_DBG_JTAG_0_DIS_MASK: u32 = 0x3 << 26;
    const SW_DBG_JTAG_1_DIS_MASK: u32 = 0x3 << 24;
    const SW_EFUSE_DBG_DIS_MASK: u32 = 0x1 << 23;
    const SW_SE_DBG_DIS_MASK: u32 = 0x1 << 22;
    const SW_CPU_RST_DBG_DIS_MASK: u32 = 0x1 << 21;
    const SW_CPU1_DIS_MASK: u32 = 0x1 << 20;
    const SW_M154_DIS_MASK: u32 = 0x1 << 19;
    const SW_CAM_DIS_MASK: u32 = 0x1 << 18;
    const SW_0_KEY_ENC_EN_MASK: u32 = 0x1 << 17;
    const SW_WIFI_DIS_MASK: u32 = 0x1 << 16;
    const SW_BTDM_DIS_MASK: u32 = 0x1 << 15;
    const SW_SDU_DIS_MASK: u32 = 0x1 << 14;
    const SW_SF_KEY_RE_SEL_MASK: u32 = 0x3 << 12;
    const SW_M1542_DIS_MASK: u32 = 0x1 << 11;
    const SW_BLE2_DIS_MASK: u32 = 0x1 << 10;
    const SW_UART_DIS_MASK: u32 = 0xF << 6;
    const SW_SBOOT_EN_MASK: u32 = 0x3 << 4;
    const SW_CPU0_DIS_MASK: u32 = 0x1 << 3;
    const SW_AI_DIS_MASK: u32 = 0x1 << 2;
    const SW_SF_AES_MODE_MASK: u32 = 0x3 << 0;
}

/// Efuse interface 1 manual config1 register.
#[derive(Clone, Copy, Debug, PartialEq, Eq, Hash, Structural)]
pub struct EfuseIf1ManualConfig1(u32);

/// Efuse interface 1 status register.
#[derive(Clone, Copy, Debug, PartialEq, Eq, Hash, Structural)]
pub struct EfuseIf1Status(u32);

} // verus!
