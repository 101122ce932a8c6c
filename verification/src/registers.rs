//! The register map of the codec: one type per 16-bit register, each with
//! its fixed 16-bit address and named bit-field accessors built on the
//! verified field codec.
use vstd::prelude::*;
use crate::fields::spec_get_field;
use crate::fields::spec_set_field;
use crate::fields::get_field;
use crate::fields::set_field;
use crate::fields::lemma_low_mask_values;

verus! {

/// The raw 16-bit value that stands for a boolean flag bit.
pub open spec fn bit_val(b: bool) -> u16 {
    if b {
        1
    } else {
        0
    }
}

/// A register of the codec: a raw 16-bit value at a fixed 16-bit address.
pub trait I2cRegister: Sized {
    /// The register's bus address.
    spec fn spec_addr() -> u16;

    /// The raw 16-bit value this register value stands for.
    spec fn spec_raw(self) -> u16;

    /// Wrap a raw 16-bit value read from the bus.
    fn new(value: u16) -> (r: Self)
        ensures
            r.spec_raw() == value,
    ;

    /// The raw 16-bit value to put on the bus.
    fn to_inner(&self) -> (r: u16)
        ensures
            r == self.spec_raw(),
    ;

    /// The register's bus address.
    fn register_addr() -> (a: u16)
        ensures
            a == Self::spec_addr(),
    ;
}

/// Identification register: part and revision of the device.
pub struct ChipId(pub u16);

impl I2cRegister for ChipId {
    open spec fn spec_addr() -> u16 {
        0x0000
    }

    open spec fn spec_raw(self) -> u16 {
        self.0
    }

    fn new(value: u16) -> (r: Self) {
        ChipId(value)
    }

    fn to_inner(&self) -> (r: u16) {
        self.0
    }

    fn register_addr() -> (a: u16) {
        0x0000
    }
}

impl ChipId {
    /// Part ID of the device family.
    pub fn partid(&self) -> (r: u8)
        ensures
            r == spec_get_field(self.0, 8, 8),
    {
        proof {
            lemma_low_mask_values();
        }
        get_field(self.0, 8, 8) as u8
    }

    /// Revision ID.
    pub fn revid(&self) -> (r: u8)
        ensures
            r == spec_get_field(self.0, 0, 8),
    {
        proof {
            lemma_low_mask_values();
        }
        get_field(self.0, 0, 8) as u8
    }
}

/// Digital block power control.
pub struct ChipDigPower(pub u16);

impl I2cRegister for ChipDigPower {
    open spec fn spec_addr() -> u16 {
        0x0002
    }

    open spec fn spec_raw(self) -> u16 {
        self.0
    }

    fn new(value: u16) -> (r: Self) {
        ChipDigPower(value)
    }

    fn to_inner(&self) -> (r: u16) {
        self.0
    }

    fn register_addr() -> (a: u16) {
        0x0002
    }
}

impl ChipDigPower {
    pub fn adc_powerup(&self) -> (r: bool)
        ensures
            r == (spec_get_field(self.0, 6, 1) == 1),
    {
        get_field(self.0, 6, 1) == 1
    }

    pub fn set_adc_powerup(&mut self, b: bool)
        ensures
            final(self).0 == spec_set_field(old(self).0, 6, 1, bit_val(b)),
    {
        let v: u16 = if b {
            1
        } else {
            0
        };
        self.0 = set_field(self.0, 6, 1, v);
    }

    pub fn dac_powerup(&self) -> (r: bool)
        ensures
            r == (spec_get_field(self.0, 5, 1) == 1),
    {
        get_field(self.0, 5, 1) == 1
    }

    pub fn set_dac_powerup(&mut self, b: bool)
        ensures
            final(self).0 == spec_set_field(old(self).0, 5, 1, bit_val(b)),
    {
        let v: u16 = if b {
            1
        } else {
            0
        };
        self.0 = set_field(self.0, 5, 1, v);
    }

    pub fn dap_powerup(&self) -> (r: bool)
        ensures
            r == (spec_get_field(self.0, 4, 1) == 1),
    {
        get_field(self.0, 4, 1) == 1
    }

    pub fn set_dap_powerup(&mut self, b: bool)
        ensures
            final(self).0 == spec_set_field(old(self).0, 4, 1, bit_val(b)),
    {
        let v: u16 = if b {
            1
        } else {
            0
        };
        self.0 = set_field(self.0, 4, 1, v);
    }

    pub fn i2s_out_powerup(&self) -> (r: bool)
        ensures
            r == (spec_get_field(self.0, 1, 1) == 1),
    {
        get_field(self.0, 1, 1) == 1
    }

    pub fn set_i2s_out_powerup(&mut self, b: bool)
        ensures
            final(self).0 == spec_set_field(old(self).0, 1, 1, bit_val(b)),
    {
        let v: u16 = if b {
            1
        } else {
            0
        };
        self.0 = set_field(self.0, 1, 1, v);
    }

    pub fn i2s_in_powerup(&self) -> (r: bool)
        ensures
            r == (spec_get_field(self.0, 0, 1) == 1),
    {
        get_field(self.0, 0, 1) == 1
    }

    pub fn set_i2s_in_powerup(&mut self, b: bool)
        ensures
            final(self).0 == spec_set_field(old(self).0, 0, 1, bit_val(b)),
    {
        let v: u16 = if b {
            1
        } else {
            0
        };
        self.0 = set_field(self.0, 0, 1, v);
    }
}

/// Clocking: sample-rate class, master-clock ratio, rate mode.
pub struct ChipClkCtrl(pub u16);

impl I2cRegister for ChipClkCtrl {
    open spec fn spec_addr() -> u16 {
        0x0004
    }

    open spec fn spec_raw(self) -> u16 {
        self.0
    }

    fn new(value: u16) -> (r: Self) {
        ChipClkCtrl(value)
    }

    fn to_inner(&self) -> (r: u16) {
        self.0
    }

    fn register_addr() -> (a: u16) {
        0x0004
    }
}

impl ChipClkCtrl {
    pub fn rate_mode(&self) -> (r: u8)
        ensures
            r == spec_get_field(self.0, 4, 2),
    {
        proof {
            lemma_low_mask_values();
        }
        get_field(self.0, 4, 2) as u8
    }

    pub fn set_rate_mode(&mut self, v: u8)
        ensures
            final(self).0 == spec_set_field(old(self).0, 4, 2, v as u16),
    {
        self.0 = set_field(self.0, 4, 2, v as u16);
    }

    pub fn sys_fs(&self) -> (r: u8)
        ensures
            r == spec_get_field(self.0, 2, 2),
    {
        proof {
            lemma_low_mask_values();
        }
        get_field(self.0, 2, 2) as u8
    }

    pub fn set_sys_fs(&mut self, v: u8)
        ensures
            final(self).0 == spec_set_field(old(self).0, 2, 2, v as u16),
    {
        self.0 = set_field(self.0, 2, 2, v as u16);
    }

    pub fn mclk_freq(&self) -> (r: u8)
        ensures
            r == spec_get_field(self.0, 0, 2),
    {
        proof {
            lemma_low_mask_values();
        }
        get_field(self.0, 0, 2) as u8
    }

    pub fn set_mclk_freq(&mut self, v: u8)
        ensures
            final(self).0 == spec_set_field(old(self).0, 0, 2, v as u16),
    {
        self.0 = set_field(self.0, 0, 2, v as u16);
    }
}

/// Digital audio interface framing.
pub struct ChipI2sCtrl(pub u16);

impl I2cRegister for ChipI2sCtrl {
    open spec fn spec_addr() -> u16 {
        0x0006
    }

    open spec fn spec_raw(self) -> u16 {
        self.0
    }

    fn new(value: u16) -> (r: Self) {
        ChipI2sCtrl(value)
    }

    fn to_inner(&self) -> (r: u16) {
        self.0
    }

    fn register_addr() -> (a: u16) {
        0x0006
    }
}

impl ChipI2sCtrl {
    pub fn sclkfreq(&self) -> (r: bool)
        ensures
            r == (spec_get_field(self.0, 8, 1) == 1),
    {
        get_field(self.0, 8, 1) == 1
    }

    pub fn set_sclkfreq(&mut self, b: bool)
        ensures
            final(self).0 == spec_set_field(old(self).0, 8, 1, bit_val(b)),
    {
        let v: u16 = if b {
            1
        } else {
            0
        };
        self.0 = set_field(self.0, 8, 1, v);
    }

    pub fn ms(&self) -> (r: bool)
        ensures
            r == (spec_get_field(self.0, 7, 1) == 1),
    {
        get_field(self.0, 7, 1) == 1
    }

    pub fn set_ms(&mut self, b: bool)
        ensures
            final(self).0 == spec_set_field(old(self).0, 7, 1, bit_val(b)),
    {
        let v: u16 = if b {
            1
        } else {
            0
        };
        self.0 = set_field(self.0, 7, 1, v);
    }

    pub fn sclk_inv(&self) -> (r: bool)
        ensures
            r == (spec_get_field(self.0, 6, 1) == 1),
    {
        get_field(self.0, 6, 1) == 1
    }

    pub fn set_sclk_inv(&mut self, b: bool)
        ensures
            final(self).0 == spec_set_field(old(self).0, 6, 1, bit_val(b)),
    {
        let v: u16 = if b {
            1
        } else {
            0
        };
        self.0 = set_field(self.0, 6, 1, v);
    }

    pub fn dlen(&self) -> (r: u8)
        ensures
            r == spec_get_field(self.0, 4, 2),
    {
        proof {
            lemma_low_mask_values();
        }
        get_field(self.0, 4, 2) as u8
    }

    pub fn set_dlen(&mut self, v: u8)
        ensures
            final(self).0 == spec_set_field(old(self).0, 4, 2, v as u16),
    {
        self.0 = set_field(self.0, 4, 2, v as u16);
    }

    pub fn i2s_mode(&self) -> (r: u8)
        ensures
            r == spec_get_field(self.0, 2, 2),
    {
        proof {
            lemma_low_mask_values();
        }
        get_field(self.0, 2, 2) as u8
    }

    pub fn set_i2s_mode(&mut self, v: u8)
        ensures
            final(self).0 == spec_set_field(old(self).0, 2, 2, v as u16),
    {
        self.0 = set_field(self.0, 2, 2, v as u16);
    }

    pub fn lralign(&self) -> (r: bool)
        ensures
            r == (spec_get_field(self.0, 1, 1) == 1),
    {
        get_field(self.0, 1, 1) == 1
    }

    pub fn set_lralign(&mut self, b: bool)
        ensures
            final(self).0 == spec_set_field(old(self).0, 1, 1, bit_val(b)),
    {
        let v: u16 = if b {
            1
        } else {
            0
        };
        self.0 = set_field(self.0, 1, 1, v);
    }

    pub fn lrpol(&self) -> (r: bool)
        ensures
            r == (spec_get_field(self.0, 0, 1) == 1),
    {
        get_field(self.0, 0, 1) == 1
    }

    pub fn set_lrpol(&mut self, b: bool)
        ensures
            final(self).0 == spec_set_field(old(self).0, 0, 1, bit_val(b)),
    {
        let v: u16 = if b {
            1
        } else {
            0
        };
        self.0 = set_field(self.0, 0, 1, v);
    }
}

/// Internal signal routing.
pub struct ChipSssCtrl(pub u16);

impl I2cRegister for ChipSssCtrl {
    open spec fn spec_addr() -> u16 {
        0x000A
    }

    open spec fn spec_raw(self) -> u16 {
        self.0
    }

    fn new(value: u16) -> (r: Self) {
        ChipSssCtrl(value)
    }

    fn to_inner(&self) -> (r: u16) {
        self.0
    }

    fn register_addr() -> (a: u16) {
        0x000A
    }
}

impl ChipSssCtrl {
    pub fn dap_mix_lrswap(&self) -> (r: bool)
        ensures
            r == (spec_get_field(self.0, 14, 1) == 1),
    {
        get_field(self.0, 14, 1) == 1
    }

    pub fn set_dap_mix_lrswap(&mut self, b: bool)
        ensures
            final(self).0 == spec_set_field(old(self).0, 14, 1, bit_val(b)),
    {
        let v: u16 = if b {
            1
        } else {
            0
        };
        self.0 = set_field(self.0, 14, 1, v);
    }

    pub fn dap_lrswap(&self) -> (r: bool)
        ensures
            r == (spec_get_field(self.0, 13, 1) == 1),
    {
        get_field(self.0, 13, 1) == 1
    }

    pub fn set_dap_lrswap(&mut self, b: bool)
        ensures
            final(self).0 == spec_set_field(old(self).0, 13, 1, bit_val(b)),
    {
        let v: u16 = if b {
            1
        } else {
            0
        };
        self.0 = set_field(self.0, 13, 1, v);
    }

    pub fn dac_lrswap(&self) -> (r: bool)
        ensures
            r == (spec_get_field(self.0, 12, 1) == 1),
    {
        get_field(self.0, 12, 1) == 1
    }

    pub fn set_dac_lrswap(&mut self, b: bool)
        ensures
            final(self).0 == spec_set_field(old(self).0, 12, 1, bit_val(b)),
    {
        let v: u16 = if b {
            1
        } else {
            0
        };
        self.0 = set_field(self.0, 12, 1, v);
    }

    pub fn i2s_lrswap(&self) -> (r: bool)
        ensures
            r == (spec_get_field(self.0, 10, 1) == 1),
    {
        get_field(self.0, 10, 1) == 1
    }

    pub fn set_i2s_lrswap(&mut self, b: bool)
        ensures
            final(self).0 == spec_set_field(old(self).0, 10, 1, bit_val(b)),
    {
        let v: u16 = if b {
            1
        } else {
            0
        };
        self.0 = set_field(self.0, 10, 1, v);
    }

    pub fn dap_mix_select(&self) -> (r: u8)
        ensures
            r == spec_get_field(self.0, 8, 2),
    {
        proof {
            lemma_low_mask_values();
        }
        get_field(self.0, 8, 2) as u8
    }

    pub fn set_dap_mix_select(&mut self, v: u8)
        ensures
            final(self).0 == spec_set_field(old(self).0, 8, 2, v as u16),
    {
        self.0 = set_field(self.0, 8, 2, v as u16);
    }

    pub fn dap_select(&self) -> (r: u8)
        ensures
            r == spec_get_field(self.0, 6, 2),
    {
        proof {
            lemma_low_mask_values();
        }
        get_field(self.0, 6, 2) as u8
    }

    pub fn set_dap_select(&mut self, v: u8)
        ensures
            final(self).0 == spec_set_field(old(self).0, 6, 2, v as u16),
    {
        self.0 = set_field(self.0, 6, 2, v as u16);
    }

    pub fn dac_select(&self) -> (r: u8)
        ensures
            r == spec_get_field(self.0, 4, 2),
    {
        proof {
            lemma_low_mask_values();
        }
        get_field(self.0, 4, 2) as u8
    }

    pub fn set_dac_select(&mut self, v: u8)
        ensures
            final(self).0 == spec_set_field(old(self).0, 4, 2, v as u16),
    {
        self.0 = set_field(self.0, 4, 2, v as u16);
    }

    pub fn i2s_select(&self) -> (r: u8)
        ensures
            r == spec_get_field(self.0, 0, 2),
    {
        proof {
            lemma_low_mask_values();
        }
        get_field(self.0, 0, 2) as u8
    }

    pub fn set_i2s_select(&mut self, v: u8)
        ensures
            final(self).0 == spec_set_field(old(self).0, 0, 2, v as u16),
    {
        self.0 = set_field(self.0, 0, 2, v as u16);
    }
}

/// ADC/DAC control: volume ramp and channel mutes.
pub struct ChipAdcdacCtrl(pub u16);

impl I2cRegister for ChipAdcdacCtrl {
    open spec fn spec_addr() -> u16 {
        0x000E
    }

    open spec fn spec_raw(self) -> u16 {
        self.0
    }

    fn new(value: u16) -> (r: Self) {
        ChipAdcdacCtrl(value)
    }

    fn to_inner(&self) -> (r: u16) {
        self.0
    }

    fn register_addr() -> (a: u16) {
        0x000E
    }
}

impl ChipAdcdacCtrl {
    pub fn vol_ramp_en(&self) -> (r: bool)
        ensures
            r == (spec_get_field(self.0, 9, 1) == 1),
    {
        get_field(self.0, 9, 1) == 1
    }

    pub fn set_vol_ramp_en(&mut self, b: bool)
        ensures
            final(self).0 == spec_set_field(old(self).0, 9, 1, bit_val(b)),
    {
        let v: u16 = if b {
            1
        } else {
            0
        };
        self.0 = set_field(self.0, 9, 1, v);
    }

    pub fn vol_expo_ramp(&self) -> (r: bool)
        ensures
            r == (spec_get_field(self.0, 8, 1) == 1),
    {
        get_field(self.0, 8, 1) == 1
    }

    pub fn set_vol_expo_ramp(&mut self, b: bool)
        ensures
            final(self).0 == spec_set_field(old(self).0, 8, 1, bit_val(b)),
    {
        let v: u16 = if b {
            1
        } else {
            0
        };
        self.0 = set_field(self.0, 8, 1, v);
    }

    pub fn dac_mute_right(&self) -> (r: bool)
        ensures
            r == (spec_get_field(self.0, 3, 1) == 1),
    {
        get_field(self.0, 3, 1) == 1
    }

    pub fn set_dac_mute_right(&mut self, b: bool)
        ensures
            final(self).0 == spec_set_field(old(self).0, 3, 1, bit_val(b)),
    {
        let v: u16 = if b {
            1
        } else {
            0
        };
        self.0 = set_field(self.0, 3, 1, v);
    }

    pub fn dac_mute_left(&self) -> (r: bool)
        ensures
            r == (spec_get_field(self.0, 2, 1) == 1),
    {
        get_field(self.0, 2, 1) == 1
    }

    pub fn set_dac_mute_left(&mut self, b: bool)
        ensures
            final(self).0 == spec_set_field(old(self).0, 2, 1, bit_val(b)),
    {
        let v: u16 = if b {
            1
        } else {
            0
        };
        self.0 = set_field(self.0, 2, 1, v);
    }
}

/// DAC digital volume, one code per channel.
pub struct ChipDacVol(pub u16);

impl I2cRegister for ChipDacVol {
    open spec fn spec_addr() -> u16 {
        0x0010
    }

    open spec fn spec_raw(self) -> u16 {
        self.0
    }

    fn new(value: u16) -> (r: Self) {
        ChipDacVol(value)
    }

    fn to_inner(&self) -> (r: u16) {
        self.0
    }

    fn register_addr() -> (a: u16) {
        0x0010
    }
}

impl ChipDacVol {
    pub fn dac_vol_right(&self) -> (r: u8)
        ensures
            r == spec_get_field(self.0, 8, 8),
    {
        proof {
            lemma_low_mask_values();
        }
        get_field(self.0, 8, 8) as u8
    }

    pub fn set_dac_vol_right(&mut self, v: u8)
        ensures
            final(self).0 == spec_set_field(old(self).0, 8, 8, v as u16),
    {
        self.0 = set_field(self.0, 8, 8, v as u16);
    }

    pub fn dac_vol_left(&self) -> (r: u8)
        ensures
            r == spec_get_field(self.0, 0, 8),
    {
        proof {
            lemma_low_mask_values();
        }
        get_field(self.0, 0, 8) as u8
    }

    pub fn set_dac_vol_left(&mut self, v: u8)
        ensures
            final(self).0 == spec_set_field(old(self).0, 0, 8, v as u16),
    {
        self.0 = set_field(self.0, 0, 8, v as u16);
    }
}

/// Headphone analog volume, one code per channel.
pub struct ChipAnaHpCtrl(pub u16);

impl I2cRegister for ChipAnaHpCtrl {
    open spec fn spec_addr() -> u16 {
        0x0022
    }

    open spec fn spec_raw(self) -> u16 {
        self.0
    }

    fn new(value: u16) -> (r: Self) {
        ChipAnaHpCtrl(value)
    }

    fn to_inner(&self) -> (r: u16) {
        self.0
    }

    fn register_addr() -> (a: u16) {
        0x0022
    }
}

impl ChipAnaHpCtrl {
    pub fn hp_vol_right(&self) -> (r: u8)
        ensures
            r == spec_get_field(self.0, 8, 7),
    {
        proof {
            lemma_low_mask_values();
        }
        get_field(self.0, 8, 7) as u8
    }

    pub fn set_hp_vol_right(&mut self, v: u8)
        ensures
            final(self).0 == spec_set_field(old(self).0, 8, 7, v as u16),
    {
        self.0 = set_field(self.0, 8, 7, v as u16);
    }

    pub fn hp_vol_left(&self) -> (r: u8)
        ensures
            r == spec_get_field(self.0, 0, 7),
    {
        proof {
            lemma_low_mask_values();
        }
        get_field(self.0, 0, 7) as u8
    }

    pub fn set_hp_vol_left(&mut self, v: u8)
        ensures
            final(self).0 == spec_set_field(old(self).0, 0, 7, v as u16),
    {
        self.0 = set_field(self.0, 0, 7, v as u16);
    }
}

/// Analog control: input selection, mutes, zero-cross detect.
pub struct ChipAnaCtrl(pub u16);

impl I2cRegister for ChipAnaCtrl {
    open spec fn spec_addr() -> u16 {
        0x0024
    }

    open spec fn spec_raw(self) -> u16 {
        self.0
    }

    fn new(value: u16) -> (r: Self) {
        ChipAnaCtrl(value)
    }

    fn to_inner(&self) -> (r: u16) {
        self.0
    }

    fn register_addr() -> (a: u16) {
        0x0024
    }
}

impl ChipAnaCtrl {
    pub fn mute_lo(&self) -> (r: bool)
        ensures
            r == (spec_get_field(self.0, 8, 1) == 1),
    {
        get_field(self.0, 8, 1) == 1
    }

    pub fn set_mute_lo(&mut self, b: bool)
        ensures
            final(self).0 == spec_set_field(old(self).0, 8, 1, bit_val(b)),
    {
        let v: u16 = if b {
            1
        } else {
            0
        };
        self.0 = set_field(self.0, 8, 1, v);
    }

    pub fn select_hp(&self) -> (r: bool)
        ensures
            r == (spec_get_field(self.0, 6, 1) == 1),
    {
        get_field(self.0, 6, 1) == 1
    }

    pub fn set_select_hp(&mut self, b: bool)
        ensures
            final(self).0 == spec_set_field(old(self).0, 6, 1, bit_val(b)),
    {
        let v: u16 = if b {
            1
        } else {
            0
        };
        self.0 = set_field(self.0, 6, 1, v);
    }

    pub fn en_zcd_hp(&self) -> (r: bool)
        ensures
            r == (spec_get_field(self.0, 5, 1) == 1),
    {
        get_field(self.0, 5, 1) == 1
    }

    pub fn set_en_zcd_hp(&mut self, b: bool)
        ensures
            final(self).0 == spec_set_field(old(self).0, 5, 1, bit_val(b)),
    {
        let v: u16 = if b {
            1
        } else {
            0
        };
        self.0 = set_field(self.0, 5, 1, v);
    }

    pub fn mute_hp(&self) -> (r: bool)
        ensures
            r == (spec_get_field(self.0, 4, 1) == 1),
    {
        get_field(self.0, 4, 1) == 1
    }

    pub fn set_mute_hp(&mut self, b: bool)
        ensures
            final(self).0 == spec_set_field(old(self).0, 4, 1, bit_val(b)),
    {
        let v: u16 = if b {
            1
        } else {
            0
        };
        self.0 = set_field(self.0, 4, 1, v);
    }

    pub fn mute_adc(&self) -> (r: bool)
        ensures
            r == (spec_get_field(self.0, 0, 1) == 1),
    {
        get_field(self.0, 0, 1) == 1
    }

    pub fn set_mute_adc(&mut self, b: bool)
        ensures
            final(self).0 == spec_set_field(old(self).0, 0, 1, bit_val(b)),
    {
        let v: u16 = if b {
            1
        } else {
            0
        };
        self.0 = set_field(self.0, 0, 1, v);
    }
}

/// Linear regulator and charge-pump source control.
pub struct ChipLinregCtrl(pub u16);

impl I2cRegister for ChipLinregCtrl {
    open spec fn spec_addr() -> u16 {
        0x0026
    }

    open spec fn spec_raw(self) -> u16 {
        self.0
    }

    fn new(value: u16) -> (r: Self) {
        ChipLinregCtrl(value)
    }

    fn to_inner(&self) -> (r: u16) {
        self.0
    }

    fn register_addr() -> (a: u16) {
        0x0026
    }
}

impl ChipLinregCtrl {
    pub fn vdcc_man_assn(&self) -> (r: bool)
        ensures
            r == (spec_get_field(self.0, 6, 1) == 1),
    {
        get_field(self.0, 6, 1) == 1
    }

    pub fn set_vdcc_man_assn(&mut self, b: bool)
        ensures
            final(self).0 == spec_set_field(old(self).0, 6, 1, bit_val(b)),
    {
        let v: u16 = if b {
            1
        } else {
            0
        };
        self.0 = set_field(self.0, 6, 1, v);
    }

    pub fn vdcc_assn_ovrd(&self) -> (r: bool)
        ensures
            r == (spec_get_field(self.0, 5, 1) == 1),
    {
        get_field(self.0, 5, 1) == 1
    }

    pub fn set_vdcc_assn_ovrd(&mut self, b: bool)
        ensures
            final(self).0 == spec_set_field(old(self).0, 5, 1, bit_val(b)),
    {
        let v: u16 = if b {
            1
        } else {
            0
        };
        self.0 = set_field(self.0, 5, 1, v);
    }

    pub fn d_programming(&self) -> (r: u8)
        ensures
            r == spec_get_field(self.0, 0, 4),
    {
        proof {
            lemma_low_mask_values();
        }
        get_field(self.0, 0, 4) as u8
    }

    pub fn set_d_programming(&mut self, v: u8)
        ensures
            final(self).0 == spec_set_field(old(self).0, 0, 4, v as u16),
    {
        self.0 = set_field(self.0, 0, 4, v as u16);
    }
}

/// Reference control: analog ground voltage and bias.
pub struct ChipRefCtrl(pub u16);

impl I2cRegister for ChipRefCtrl {
    open spec fn spec_addr() -> u16 {
        0x0028
    }

    open spec fn spec_raw(self) -> u16 {
        self.0
    }

    fn new(value: u16) -> (r: Self) {
        ChipRefCtrl(value)
    }

    fn to_inner(&self) -> (r: u16) {
        self.0
    }

    fn register_addr() -> (a: u16) {
        0x0028
    }
}

impl ChipRefCtrl {
    pub fn vag_val(&self) -> (r: u8)
        ensures
            r == spec_get_field(self.0, 4, 5),
    {
        proof {
            lemma_low_mask_values();
        }
        get_field(self.0, 4, 5) as u8
    }

    pub fn set_vag_val(&mut self, v: u8)
        ensures
            final(self).0 == spec_set_field(old(self).0, 4, 5, v as u16),
    {
        self.0 = set_field(self.0, 4, 5, v as u16);
    }

    pub fn bias_ctrl(&self) -> (r: u8)
        ensures
            r == spec_get_field(self.0, 1, 3),
    {
        proof {
            lemma_low_mask_values();
        }
        get_field(self.0, 1, 3) as u8
    }

    pub fn set_bias_ctrl(&mut self, v: u8)
        ensures
            final(self).0 == spec_set_field(old(self).0, 1, 3, v as u16),
    {
        self.0 = set_field(self.0, 1, 3, v as u16);
    }

    pub fn small_pop(&self) -> (r: bool)
        ensures
            r == (spec_get_field(self.0, 0, 1) == 1),
    {
        get_field(self.0, 0, 1) == 1
    }

    pub fn set_small_pop(&mut self, b: bool)
        ensures
            final(self).0 == spec_set_field(old(self).0, 0, 1, bit_val(b)),
    {
        let v: u16 = if b {
            1
        } else {
            0
        };
        self.0 = set_field(self.0, 0, 1, v);
    }
}

/// Line-out control: amplifier bias current and analog ground.
pub struct ChipLineOutCtrl(pub u16);

impl I2cRegister for ChipLineOutCtrl {
    open spec fn spec_addr() -> u16 {
        0x002C
    }

    open spec fn spec_raw(self) -> u16 {
        self.0
    }

    fn new(value: u16) -> (r: Self) {
        ChipLineOutCtrl(value)
    }

    fn to_inner(&self) -> (r: u16) {
        self.0
    }

    fn register_addr() -> (a: u16) {
        0x002C
    }
}

impl ChipLineOutCtrl {
    pub fn out_current(&self) -> (r: u8)
        ensures
            r == spec_get_field(self.0, 8, 4),
    {
        proof {
            lemma_low_mask_values();
        }
        get_field(self.0, 8, 4) as u8
    }

    pub fn set_out_current(&mut self, v: u8)
        ensures
            final(self).0 == spec_set_field(old(self).0, 8, 4, v as u16),
    {
        self.0 = set_field(self.0, 8, 4, v as u16);
    }

    pub fn lo_vagcntrl(&self) -> (r: u8)
        ensures
            r == spec_get_field(self.0, 0, 6),
    {
        proof {
            lemma_low_mask_values();
        }
        get_field(self.0, 0, 6) as u8
    }

    pub fn set_lo_vagcntrl(&mut self, v: u8)
        ensures
            final(self).0 == spec_set_field(old(self).0, 0, 6, v as u16),
    {
        self.0 = set_field(self.0, 0, 6, v as u16);
    }
}

/// Line-out analog volume, one code per channel.
pub struct ChipLineOutVol(pub u16);

impl I2cRegister for ChipLineOutVol {
    open spec fn spec_addr() -> u16 {
        0x002E
    }

    open spec fn spec_raw(self) -> u16 {
        self.0
    }

    fn new(value: u16) -> (r: Self) {
        ChipLineOutVol(value)
    }

    fn to_inner(&self) -> (r: u16) {
        self.0
    }

    fn register_addr() -> (a: u16) {
        0x002E
    }
}

impl ChipLineOutVol {
    pub fn lo_vol_right(&self) -> (r: u8)
        ensures
            r == spec_get_field(self.0, 8, 5),
    {
        proof {
            lemma_low_mask_values();
        }
        get_field(self.0, 8, 5) as u8
    }

    pub fn set_lo_vol_right(&mut self, v: u8)
        ensures
            final(self).0 == spec_set_field(old(self).0, 8, 5, v as u16),
    {
        self.0 = set_field(self.0, 8, 5, v as u16);
    }

    pub fn lo_vol_left(&self) -> (r: u8)
        ensures
            r == spec_get_field(self.0, 0, 5),
    {
        proof {
            lemma_low_mask_values();
        }
        get_field(self.0, 0, 5) as u8
    }

    pub fn set_lo_vol_left(&mut self, v: u8)
        ensures
            final(self).0 == spec_set_field(old(self).0, 0, 5, v as u16),
    {
        self.0 = set_field(self.0, 0, 5, v as u16);
    }
}

/// Analog block power control.
pub struct ChipAnaPower(pub u16);

impl I2cRegister for ChipAnaPower {
    open spec fn spec_addr() -> u16 {
        0x0030
    }

    open spec fn spec_raw(self) -> u16 {
        self.0
    }

    fn new(value: u16) -> (r: Self) {
        ChipAnaPower(value)
    }

    fn to_inner(&self) -> (r: u16) {
        self.0
    }

    fn register_addr() -> (a: u16) {
        0x0030
    }
}

impl ChipAnaPower {
    pub fn dac_mono(&self) -> (r: bool)
        ensures
            r == (spec_get_field(self.0, 14, 1) == 1),
    {
        get_field(self.0, 14, 1) == 1
    }

    pub fn set_dac_mono(&mut self, b: bool)
        ensures
            final(self).0 == spec_set_field(old(self).0, 14, 1, bit_val(b)),
    {
        let v: u16 = if b {
            1
        } else {
            0
        };
        self.0 = set_field(self.0, 14, 1, v);
    }

    pub fn linreg_simple_powerup(&self) -> (r: bool)
        ensures
            r == (spec_get_field(self.0, 13, 1) == 1),
    {
        get_field(self.0, 13, 1) == 1
    }

    pub fn set_linreg_simple_powerup(&mut self, b: bool)
        ensures
            final(self).0 == spec_set_field(old(self).0, 13, 1, bit_val(b)),
    {
        let v: u16 = if b {
            1
        } else {
            0
        };
        self.0 = set_field(self.0, 13, 1, v);
    }

    pub fn startup_powerup(&self) -> (r: bool)
        ensures
            r == (spec_get_field(self.0, 12, 1) == 1),
    {
        get_field(self.0, 12, 1) == 1
    }

    pub fn set_startup_powerup(&mut self, b: bool)
        ensures
            final(self).0 == spec_set_field(old(self).0, 12, 1, bit_val(b)),
    {
        let v: u16 = if b {
            1
        } else {
            0
        };
        self.0 = set_field(self.0, 12, 1, v);
    }

    pub fn vddc_chrgpmp_powerup(&self) -> (r: bool)
        ensures
            r == (spec_get_field(self.0, 11, 1) == 1),
    {
        get_field(self.0, 11, 1) == 1
    }

    pub fn set_vddc_chrgpmp_powerup(&mut self, b: bool)
        ensures
            final(self).0 == spec_set_field(old(self).0, 11, 1, bit_val(b)),
    {
        let v: u16 = if b {
            1
        } else {
            0
        };
        self.0 = set_field(self.0, 11, 1, v);
    }

    pub fn pll_powerup(&self) -> (r: bool)
        ensures
            r == (spec_get_field(self.0, 10, 1) == 1),
    {
        get_field(self.0, 10, 1) == 1
    }

    pub fn set_pll_powerup(&mut self, b: bool)
        ensures
            final(self).0 == spec_set_field(old(self).0, 10, 1, bit_val(b)),
    {
        let v: u16 = if b {
            1
        } else {
            0
        };
        self.0 = set_field(self.0, 10, 1, v);
    }

    pub fn linreg_d_powerup(&self) -> (r: bool)
        ensures
            r == (spec_get_field(self.0, 9, 1) == 1),
    {
        get_field(self.0, 9, 1) == 1
    }

    pub fn set_linreg_d_powerup(&mut self, b: bool)
        ensures
            final(self).0 == spec_set_field(old(self).0, 9, 1, bit_val(b)),
    {
        let v: u16 = if b {
            1
        } else {
            0
        };
        self.0 = set_field(self.0, 9, 1, v);
    }

    pub fn vcoamp_powerup(&self) -> (r: bool)
        ensures
            r == (spec_get_field(self.0, 8, 1) == 1),
    {
        get_field(self.0, 8, 1) == 1
    }

    pub fn set_vcoamp_powerup(&mut self, b: bool)
        ensures
            final(self).0 == spec_set_field(old(self).0, 8, 1, bit_val(b)),
    {
        let v: u16 = if b {
            1
        } else {
            0
        };
        self.0 = set_field(self.0, 8, 1, v);
    }

    pub fn vag_powerup(&self) -> (r: bool)
        ensures
            r == (spec_get_field(self.0, 7, 1) == 1),
    {
        get_field(self.0, 7, 1) == 1
    }

    pub fn set_vag_powerup(&mut self, b: bool)
        ensures
            final(self).0 == spec_set_field(old(self).0, 7, 1, bit_val(b)),
    {
        let v: u16 = if b {
            1
        } else {
            0
        };
        self.0 = set_field(self.0, 7, 1, v);
    }

    pub fn adc_mono(&self) -> (r: bool)
        ensures
            r == (spec_get_field(self.0, 6, 1) == 1),
    {
        get_field(self.0, 6, 1) == 1
    }

    pub fn set_adc_mono(&mut self, b: bool)
        ensures
            final(self).0 == spec_set_field(old(self).0, 6, 1, bit_val(b)),
    {
        let v: u16 = if b {
            1
        } else {
            0
        };
        self.0 = set_field(self.0, 6, 1, v);
    }

    pub fn reftop_powerup(&self) -> (r: bool)
        ensures
            r == (spec_get_field(self.0, 5, 1) == 1),
    {
        get_field(self.0, 5, 1) == 1
    }

    pub fn set_reftop_powerup(&mut self, b: bool)
        ensures
            final(self).0 == spec_set_field(old(self).0, 5, 1, bit_val(b)),
    {
        let v: u16 = if b {
            1
        } else {
            0
        };
        self.0 = set_field(self.0, 5, 1, v);
    }

    pub fn headphone_powerup(&self) -> (r: bool)
        ensures
            r == (spec_get_field(self.0, 4, 1) == 1),
    {
        get_field(self.0, 4, 1) == 1
    }

    pub fn set_headphone_powerup(&mut self, b: bool)
        ensures
            final(self).0 == spec_set_field(old(self).0, 4, 1, bit_val(b)),
    {
        let v: u16 = if b {
            1
        } else {
            0
        };
        self.0 = set_field(self.0, 4, 1, v);
    }

    pub fn dac_powerup(&self) -> (r: bool)
        ensures
            r == (spec_get_field(self.0, 3, 1) == 1),
    {
        get_field(self.0, 3, 1) == 1
    }

    pub fn set_dac_powerup(&mut self, b: bool)
        ensures
            final(self).0 == spec_set_field(old(self).0, 3, 1, bit_val(b)),
    {
        let v: u16 = if b {
            1
        } else {
            0
        };
        self.0 = set_field(self.0, 3, 1, v);
    }

    pub fn capless_headphone_powerup(&self) -> (r: bool)
        ensures
            r == (spec_get_field(self.0, 2, 1) == 1),
    {
        get_field(self.0, 2, 1) == 1
    }

    pub fn set_capless_headphone_powerup(&mut self, b: bool)
        ensures
            final(self).0 == spec_set_field(old(self).0, 2, 1, bit_val(b)),
    {
        let v: u16 = if b {
            1
        } else {
            0
        };
        self.0 = set_field(self.0, 2, 1, v);
    }

    pub fn adc_powerup(&self) -> (r: bool)
        ensures
            r == (spec_get_field(self.0, 1, 1) == 1),
    {
        get_field(self.0, 1, 1) == 1
    }

    pub fn set_adc_powerup(&mut self, b: bool)
        ensures
            final(self).0 == spec_set_field(old(self).0, 1, 1, bit_val(b)),
    {
        let v: u16 = if b {
            1
        } else {
            0
        };
        self.0 = set_field(self.0, 1, 1, v);
    }

    pub fn lineout_powerup(&self) -> (r: bool)
        ensures
            r == (spec_get_field(self.0, 0, 1) == 1),
    {
        get_field(self.0, 0, 1) == 1
    }

    pub fn set_lineout_powerup(&mut self, b: bool)
        ensures
            final(self).0 == spec_set_field(old(self).0, 0, 1, bit_val(b)),
    {
        let v: u16 = if b {
            1
        } else {
            0
        };
        self.0 = set_field(self.0, 0, 1, v);
    }
}

/// Headphone short-detect levels and modes.
pub struct ChipShortCtrl(pub u16);

impl I2cRegister for ChipShortCtrl {
    open spec fn spec_addr() -> u16 {
        0x003C
    }

    open spec fn spec_raw(self) -> u16 {
        self.0
    }

    fn new(value: u16) -> (r: Self) {
        ChipShortCtrl(value)
    }

    fn to_inner(&self) -> (r: u16) {
        self.0
    }

    fn register_addr() -> (a: u16) {
        0x003C
    }
}

impl ChipShortCtrl {
    pub fn lvladjr(&self) -> (r: u8)
        ensures
            r == spec_get_field(self.0, 12, 3),
    {
        proof {
            lemma_low_mask_values();
        }
        get_field(self.0, 12, 3) as u8
    }

    pub fn set_lvladjr(&mut self, v: u8)
        ensures
            final(self).0 == spec_set_field(old(self).0, 12, 3, v as u16),
    {
        self.0 = set_field(self.0, 12, 3, v as u16);
    }

    pub fn lvladjl(&self) -> (r: u8)
        ensures
            r == spec_get_field(self.0, 8, 3),
    {
        proof {
            lemma_low_mask_values();
        }
        get_field(self.0, 8, 3) as u8
    }

    pub fn set_lvladjl(&mut self, v: u8)
        ensures
            final(self).0 == spec_set_field(old(self).0, 8, 3, v as u16),
    {
        self.0 = set_field(self.0, 8, 3, v as u16);
    }

    pub fn lvladjc(&self) -> (r: u8)
        ensures
            r == spec_get_field(self.0, 4, 3),
    {
        proof {
            lemma_low_mask_values();
        }
        get_field(self.0, 4, 3) as u8
    }

    pub fn set_lvladjc(&mut self, v: u8)
        ensures
            final(self).0 == spec_set_field(old(self).0, 4, 3, v as u16),
    {
        self.0 = set_field(self.0, 4, 3, v as u16);
    }

    pub fn mode_lr(&self) -> (r: u8)
        ensures
            r == spec_get_field(self.0, 2, 2),
    {
        proof {
            lemma_low_mask_values();
        }
        get_field(self.0, 2, 2) as u8
    }

    pub fn set_mode_lr(&mut self, v: u8)
        ensures
            final(self).0 == spec_set_field(old(self).0, 2, 2, v as u16),
    {
        self.0 = set_field(self.0, 2, 2, v as u16);
    }

    pub fn mode_cm(&self) -> (r: u8)
        ensures
            r == spec_get_field(self.0, 0, 2),
    {
        proof {
            lemma_low_mask_values();
        }
        get_field(self.0, 0, 2) as u8
    }

    pub fn set_mode_cm(&mut self, v: u8)
        ensures
            final(self).0 == spec_set_field(old(self).0, 0, 2, v as u16),
    {
        self.0 = set_field(self.0, 0, 2, v as u16);
    }
}

/// Digital audio processing enable.
pub struct DapControl(pub u16);

impl I2cRegister for DapControl {
    open spec fn spec_addr() -> u16 {
        0x0100
    }

    open spec fn spec_raw(self) -> u16 {
        self.0
    }

    fn new(value: u16) -> (r: Self) {
        DapControl(value)
    }

    fn to_inner(&self) -> (r: u16) {
        self.0
    }

    fn register_addr() -> (a: u16) {
        0x0100
    }
}

impl DapControl {
    pub fn mix_en(&self) -> (r: bool)
        ensures
            r == (spec_get_field(self.0, 4, 1) == 1),
    {
        get_field(self.0, 4, 1) == 1
    }

    pub fn set_mix_en(&mut self, b: bool)
        ensures
            final(self).0 == spec_set_field(old(self).0, 4, 1, bit_val(b)),
    {
        let v: u16 = if b {
            1
        } else {
            0
        };
        self.0 = set_field(self.0, 4, 1, v);
    }

    pub fn dap_en(&self) -> (r: bool)
        ensures
            r == (spec_get_field(self.0, 0, 1) == 1),
    {
        get_field(self.0, 0, 1) == 1
    }

    pub fn set_dap_en(&mut self, b: bool)
        ensures
            final(self).0 == spec_set_field(old(self).0, 0, 1, bit_val(b)),
    {
        let v: u16 = if b {
            1
        } else {
            0
        };
        self.0 = set_field(self.0, 0, 1, v);
    }
}


} // verus!
