use sgtl5000::registers::I2cRegister;
use sgtl5000::registers::ChipId;
use sgtl5000::registers::ChipRefCtrl;
use sgtl5000::registers::ChipLineOutCtrl;
use sgtl5000::registers::ChipAnaPower;
use sgtl5000::registers::ChipClkCtrl;
use sgtl5000::registers::ChipDacVol;
use sgtl5000::registers::ChipAnaHpCtrl;
use sgtl5000::registers::DapControl;

#[test]
fn chip_id_fields_decode() {
    let id = ChipId::new(0xA011);
    assert_eq!(id.partid(), 0xA0);
    assert_eq!(id.revid(), 0x11);
    assert_eq!(id.to_inner(), 0xA011);
    assert_eq!(ChipId::register_addr(), 0x0000);
}

#[test]
fn field_round_trip_every_value() {
    for v in 0..=0x1Fu8 {
        let mut reg = ChipRefCtrl::new(0);
        reg.set_vag_val(v);
        assert_eq!(reg.vag_val(), v);
    }
    for v in 0..=0x3Fu8 {
        let mut reg = ChipLineOutCtrl::new(0xFFFF);
        reg.set_lo_vagcntrl(v);
        assert_eq!(reg.lo_vagcntrl(), v);
    }
}

#[test]
fn field_insert_leaves_other_bits() {
    let mut reg = ChipRefCtrl::new(0xFFFF);
    reg.set_vag_val(0);
    assert_eq!(reg.to_inner(), 0xFE0F);

    let mut reg2 = ChipRefCtrl::new(0);
    reg2.set_vag_val(0x1F);
    reg2.set_bias_ctrl(1);
    assert_eq!(reg2.to_inner(), 0x01F2);
    assert_eq!(reg2.vag_val(), 0x1F);
    assert_eq!(reg2.bias_ctrl(), 1);

    let mut power = ChipAnaPower::new(0);
    power.set_vag_powerup(true);
    power.set_lineout_powerup(true);
    assert_eq!(power.to_inner(), 0x0081);
    assert!(power.vag_powerup());
    assert!(power.lineout_powerup());
    power.set_vag_powerup(false);
    assert_eq!(power.to_inner(), 0x0001);
}

#[test]
fn setter_masks_out_of_range_values() {
    let mut clk = ChipClkCtrl::new(0);
    clk.set_sys_fs(2);
    assert_eq!(clk.to_inner(), 0x0008);
    clk.set_sys_fs(0xFF);
    assert_eq!(clk.sys_fs(), 3);
    assert_eq!(clk.to_inner(), 0x000C);
}

#[test]
fn register_addresses_are_fixed() {
    assert_eq!(ChipClkCtrl::register_addr(), 0x0004);
    assert_eq!(ChipDacVol::register_addr(), 0x0010);
    assert_eq!(ChipAnaHpCtrl::register_addr(), 0x0022);
    assert_eq!(ChipRefCtrl::register_addr(), 0x0028);
    assert_eq!(ChipLineOutCtrl::register_addr(), 0x002C);
    assert_eq!(ChipAnaPower::register_addr(), 0x0030);
    assert_eq!(DapControl::register_addr(), 0x0100);
}

#[test]
fn dac_vol_pairs_channels() {
    let mut vol = ChipDacVol::new(0);
    vol.set_dac_vol_left(0x3C);
    vol.set_dac_vol_right(0xFC);
    assert_eq!(vol.to_inner(), 0xFC3C);
    assert_eq!(vol.dac_vol_left(), 0x3C);
    assert_eq!(vol.dac_vol_right(), 0xFC);
}
