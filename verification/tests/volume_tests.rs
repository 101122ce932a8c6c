use sgtl5000::volume::Volume;
use sgtl5000::volume::volume_to_range;

fn vol_to_dac<V: Into<Volume>>(v: V) -> u8 {
    let volume = v.into();
    let (left, right) = volume.to_range(0xFC, 0x3C);
    assert_eq!(left, right);
    left
}

fn vol_to_lineout<V: Into<Volume>>(v: V) -> u8 {
    let volume = v.into();
    let (left, _right) = volume.to_range(0, 0x1F);
    left
}

fn vol_to_hp<V: Into<Volume>>(v: V) -> u8 {
    let volume = v.into();
    let (left, _right) = volume.to_range(0x7F, 0);
    left
}

#[test]
fn test_dac_vol_range() {
    assert_eq!(0x3C, vol_to_dac(255));
    assert_eq!(0xFC, vol_to_dac(0));
}

#[test]
fn test_lineout_vol_range() {
    assert_eq!(0x1F, vol_to_lineout(255));
    assert_eq!(0x00, vol_to_lineout(0));
}

#[test]
fn test_hp_vol_range() {
    assert_eq!(0, vol_to_hp(255));
    assert_eq!(0x7F, vol_to_hp(0));
}

#[test]
fn rescale_rounds_to_nearest() {
    // 62 * 31 / 255 is about 7.54: rounds up, does not truncate.
    assert_eq!(8, volume_to_range(62, 0, 0x1F));
    assert_eq!(16, volume_to_range(128, 0, 0x1F));
    assert_eq!(156, volume_to_range(128, 0xFC, 0x3C));
    assert_eq!(63, volume_to_range(128, 0x7F, 0));
}

#[test]
fn rescale_moves_toward_full() {
    let mut prev = volume_to_range(0, 0, 0x1F);
    for v in 1..=255u16 {
        let cur = volume_to_range(v as u8, 0, 0x1F);
        assert!(cur >= prev);
        assert!(cur <= 0x1F);
        prev = cur;
    }
    let mut prev_inv = volume_to_range(0, 0xFC, 0x3C);
    for v in 1..=255u16 {
        let cur = volume_to_range(v as u8, 0xFC, 0x3C);
        assert!(cur <= prev_inv);
        assert!((0x3C..=0xFC).contains(&cur));
        prev_inv = cur;
    }
}

#[test]
fn volume_from_pair_keeps_channels() {
    let volume = Volume::from((0u8, 255u8));
    let (left, right) = volume.to_range(0, 0x1F);
    assert_eq!(left, 0);
    assert_eq!(right, 0x1F);
}
