//! The register control protocol: read, write and read-modify-write of
//! typed registers over the abstract bus, the ordered bring-up sequence,
//! and runtime volume control.
use vstd::prelude::*;
use crate::bus::BusOp;
use crate::bus::I2cBus;
use crate::bus::spec_be_bytes;
use crate::bus::spec_be_decode;
use crate::bus::spec_wire_bytes;
use crate::bus::be_bytes;
use crate::bus::be_decode;
use crate::bus::wire_bytes;
use crate::bus::lemma_be_round_trip;
use crate::bus::lemma_be_decode_bytes;
use crate::error::Error;
use crate::fields::spec_get_field;
use crate::fields::spec_set_field;
use crate::fields::lemma_field_round_trip;
use crate::fields::lemma_field_set_other;
use crate::fields::lemma_low_mask_values;
use crate::registers::I2cRegister;
use crate::registers::ChipId;
use crate::registers::ChipAnaPower;
use crate::registers::ChipLinregCtrl;
use crate::registers::ChipRefCtrl;
use crate::registers::ChipLineOutCtrl;
use crate::registers::ChipShortCtrl;
use crate::registers::ChipAnaCtrl;
use crate::registers::ChipClkCtrl;
use crate::registers::ChipI2sCtrl;
use crate::registers::DapControl;
use crate::registers::ChipDigPower;
use crate::registers::ChipSssCtrl;
use crate::registers::ChipAdcdacCtrl;
use crate::registers::ChipDacVol;
use crate::registers::ChipAnaHpCtrl;
use crate::registers::ChipLineOutVol;
use crate::volume::Volume;
use crate::volume::spec_rescale;

verus! {

/// The codec's fixed 7-bit bus target address: one device per bus.
pub const I2C_ADDR: u8 = 0b1010;

/// The expected device-family code in the identification register.
pub const PART_ID: u16 = 0xA0;

/// The address phase of a register access: a bus write of the big-endian
/// register address.
pub open spec fn addr_phase_op(reg_addr: u16) -> BusOp {
    BusOp::Write { addr: I2C_ADDR, bytes: spec_be_bytes(reg_addr) }
}

/// The two transactions of one register read: the address phase, then a
/// two-byte read that carried the big-endian `value`.
pub open spec fn read_trace(reg_addr: u16, value: u16) -> Seq<BusOp> {
    seq![
        addr_phase_op(reg_addr),
        BusOp::Read { addr: I2C_ADDR, bytes: spec_be_bytes(value) },
    ]
}

/// The single transaction of one register write: a 4-byte payload of
/// big-endian address and big-endian value.
pub open spec fn write_op(reg_addr: u16, value: u16) -> BusOp {
    BusOp::Write { addr: I2C_ADDR, bytes: spec_wire_bytes(reg_addr, value) }
}

/// The three transactions of one read-modify-write: a register read that
/// carried `read_value`, then a register write of `written_value`.
pub open spec fn rmw_trace(reg_addr: u16, read_value: u16, written_value: u16) -> Seq<BusOp> {
    read_trace(reg_addr, read_value).push(write_op(reg_addr, written_value))
}

/// Whether `op` is a register write to this device with a full 4-byte
/// payload naming register `reg_addr`.
pub open spec fn wrote_register(op: BusOp, reg_addr: u16) -> bool {
    match op {
        BusOp::Write { addr, bytes } => {
            addr == I2C_ADDR && bytes.len() == 4 && bytes.subrange(0, 2) == spec_be_bytes(
                reg_addr,
            )
        },
        BusOp::Read { addr, bytes } => false,
    }
}

/// The 16-bit value a register write transaction carried.
pub open spec fn written_value(op: BusOp) -> u16 {
    match op {
        BusOp::Write { addr, bytes } => spec_be_decode(bytes[2], bytes[3]),
        BusOp::Read { addr, bytes } => 0,
    }
}

/// A register write built by `write_op` names its register and carries its
/// value on the wire.
pub proof fn lemma_write_op_decodes(reg_addr: u16, value: u16)
    ensures
        wrote_register(write_op(reg_addr, value), reg_addr),
        written_value(write_op(reg_addr, value)) == value,
{
    let bytes = spec_wire_bytes(reg_addr, value);
    assert(bytes.subrange(0, 2) =~= spec_be_bytes(reg_addr));
    lemma_be_round_trip(value);
}

/// A sequence followed by anything keeps it as a prefix.
proof fn lemma_prefix_append<T>(a: Seq<T>, s: Seq<T>)
    ensures
        a.is_prefix_of(a + s),
{
    assert(a =~= (a + s).subrange(0, a.len() as int));
}

/// A sequence keeps its prefix when one element is pushed.
proof fn lemma_prefix_push<T>(a: Seq<T>, x: T)
    ensures
        a.is_prefix_of(a.push(x)),
{
    assert(a =~= a.push(x).subrange(0, a.len() as int));
}

/// A sequence is a prefix of itself.
proof fn lemma_prefix_refl<T>(a: Seq<T>)
    ensures
        a.is_prefix_of(a),
{
    assert(a =~= a.subrange(0, a.len() as int));
}

/// Being a prefix is transitive.
proof fn lemma_prefix_trans<T>(a: Seq<T>, b: Seq<T>, c: Seq<T>)
    requires
        a.is_prefix_of(b),
        b.is_prefix_of(c),
    ensures
        a.is_prefix_of(c),
{
    assert(a =~= c.subrange(0, a.len() as int));
}

/// An element below the prefix length is the same in the longer sequence.
proof fn lemma_prefix_keeps<T>(a: Seq<T>, b: Seq<T>, i: int)
    requires
        a.is_prefix_of(b),
        0 <= i < a.len(),
    ensures
        b[i] == a[i],
{
    assert(a[i] == a.subrange(0, a.len() as int)[i]);
}

/// Base of the analog-ground reference range, in millivolts.
pub const ANA_GND_BASE_MV: u16 = 800;

/// Step of the analog-ground reference range, in millivolts.
pub const ANA_GND_STEP_MV: u16 = 25;

/// The supply voltage the bring-up sequence configures for, in millivolts.
pub const VDDA_MV: u16 = 3300;

/// The analog-ground reference code for a supply voltage: half the supply,
/// less the fixed base, in fixed steps, clamped below at zero. Each register
/// that takes the code clamps it above at its own maximum.
pub open spec fn spec_vag_code(supply_mv: u16) -> u16 {
    let vag = supply_mv / 2;
    if vag <= ANA_GND_BASE_MV {
        0
    } else {
        (((vag - ANA_GND_BASE_MV) as u16) / ANA_GND_STEP_MV) as u16
    }
}

/// `v` clamped above at `cap`.
pub open spec fn spec_cap(v: u16, cap: u16) -> u16 {
    if v > cap {
        cap
    } else {
        v
    }
}

/// The analog-ground reference code for a supply voltage.
pub fn vag_code(supply_mv: u16) -> (r: u16)
    ensures
        r == spec_vag_code(supply_mv),
{
    let vag: u16 = supply_mv / 2;
    if vag <= ANA_GND_BASE_MV {
        0
    } else {
        (vag - ANA_GND_BASE_MV) / ANA_GND_STEP_MV
    }
}

/// `v` clamped above at `cap`.
fn cap_code(v: u16, cap: u16) -> (r: u16)
    ensures
        r == spec_cap(v, cap),
{
    if v > cap {
        cap
    } else {
        v
    }
}

/// The cross-register dependency order of the bring-up, as seen on the wire
/// after `base`: the reference control is written with the clamped
/// analog-ground code, later the line-out control with its clamped code,
/// and only after both the analog power register is written with the
/// analog-ground and line-out blocks enabled.
pub open spec fn bring_up_ordered(base: int, log: Seq<BusOp>, supply_mv: u16) -> bool {
    exists|i: int, j: int, k: int|
        #![trigger log[i], log[j], log[k]]
        {
            &&& base <= i < j < k < log.len()
            &&& wrote_register(log[i], 0x0028)
            &&& spec_get_field(written_value(log[i]), 4, 5) == spec_cap(
                spec_vag_code(supply_mv),
                0x1F,
            )
            &&& spec_get_field(written_value(log[i]), 1, 3) == 1
            &&& wrote_register(log[j], 0x002C)
            &&& spec_get_field(written_value(log[j]), 0, 6) == spec_cap(
                spec_vag_code(supply_mv),
                0x23,
            )
            &&& wrote_register(log[k], 0x0030)
            &&& spec_get_field(written_value(log[k]), 7, 1) == 1
            &&& spec_get_field(written_value(log[k]), 0, 1) == 1
        }
}

/// The reference-control and line-out-control configuration writes of the
/// bring-up, in order, each carrying the clamped analog-ground code.
pub open spec fn ground_refs_written(base: int, log: Seq<BusOp>, supply_mv: u16) -> bool {
    exists|i: int, j: int|
        #![trigger log[i], log[j]]
        {
            &&& base <= i < j < log.len()
            &&& wrote_register(log[i], 0x0028)
            &&& spec_get_field(written_value(log[i]), 4, 5) == spec_cap(
                spec_vag_code(supply_mv),
                0x1F,
            )
            &&& spec_get_field(written_value(log[i]), 1, 3) == 1
            &&& wrote_register(log[j], 0x002C)
            &&& spec_get_field(written_value(log[j]), 0, 6) == spec_cap(
                spec_vag_code(supply_mv),
                0x23,
            )
        }
}

/// The analog power-up write of the bring-up: analog ground and line-out
/// blocks enabled.
pub open spec fn analog_power_up_written(base: int, log: Seq<BusOp>) -> bool {
    exists|k: int|
        #![trigger log[k]]
        {
            &&& base <= k < log.len()
            &&& wrote_register(log[k], 0x0030)
            &&& spec_get_field(written_value(log[k]), 7, 1) == 1
            &&& spec_get_field(written_value(log[k]), 0, 1) == 1
        }
}

/// What the bring-up step writes back, as a function of the value read:
/// power the reference top and select stereo DAC operation.
pub open spec fn ana_power_ref_spec(v: u16) -> u16 {
    spec_set_field(spec_set_field(v, 5, 1, 1), 14, 1, 1)
}

/// What the bring-up step writes back, as a function of the value read:
/// regulator source assignment for supplies above the charge-pump threshold.
pub open spec fn linreg_spec(v: u16) -> u16 {
    spec_set_field(spec_set_field(spec_set_field(v, 5, 1, 0), 6, 1, 0), 0, 4, 0)
}

/// What the bring-up step writes back, as a function of the value read:
/// the clamped analog-ground code and bias setting.
pub open spec fn ref_ctrl_spec(v: u16) -> u16 {
    spec_set_field(spec_set_field(v, 4, 5, spec_cap(spec_vag_code(VDDA_MV), 0x1F)), 1, 3, 1)
}

/// What the bring-up step writes back, as a function of the value read:
/// the clamped line-out analog-ground code and bias current.
pub open spec fn line_out_ctrl_spec(v: u16) -> u16 {
    spec_set_field(spec_set_field(v, 0, 6, spec_cap(spec_vag_code(VDDA_MV), 0x23)), 8, 4, 0xF)
}

/// What the bring-up step writes back, as a function of the value read:
/// headphone short-detect levels and modes.
pub open spec fn short_ctrl_spec(v: u16) -> u16 {
    spec_set_field(spec_set_field(spec_set_field(spec_set_field(spec_set_field(v, 12, 3, 4), 8, 3, 4), 4, 3, 4), 2, 2, 1), 0, 2, 2)
}

/// What the bring-up step writes back, as a function of the value read:
/// DAC to headphone output, both outputs unmuted, zero-cross detect on.
pub open spec fn ana_ctrl_spec(v: u16) -> u16 {
    spec_set_field(spec_set_field(spec_set_field(spec_set_field(v, 6, 1, 0), 4, 1, 0), 8, 1, 0), 5, 1, 1)
}

/// What the bring-up step writes back, as a function of the value read:
/// charge pump on from the internal regulator; no PLL.
pub open spec fn ana_power_supply_spec(v: u16) -> u16 {
    spec_set_field(spec_set_field(spec_set_field(spec_set_field(spec_set_field(v, 9, 1, 0), 11, 1, 1), 10, 1, 0), 8, 1, 1), 14, 1, 1)
}

/// What the bring-up step writes back, as a function of the value read:
/// interface framing: master role, 32 clocks per frame, 16-bit PCM.
pub open spec fn i2s_ctrl_spec(v: u16) -> u16 {
    spec_set_field(spec_set_field(spec_set_field(spec_set_field(spec_set_field(spec_set_field(spec_set_field(v, 7, 1, 1), 8, 1, 1), 6, 1, 0), 1, 1, 0), 0, 1, 0), 4, 2, 3), 2, 2, 2)
}

/// What the bring-up step writes back, as a function of the value read:
/// power up the analog blocks, analog ground and line-out among them.
pub open spec fn ana_power_up_spec(v: u16) -> u16 {
    spec_set_field(spec_set_field(spec_set_field(spec_set_field(spec_set_field(spec_set_field(spec_set_field(spec_set_field(spec_set_field(v, 12, 1, 0), 13, 1, 1), 0, 1, 1), 1, 1, 1), 2, 1, 1), 3, 1, 1), 4, 1, 1), 5, 1, 1), 7, 1, 1)
}

/// What the bring-up step writes back, as a function of the value read:
/// enable digital audio processing.
pub open spec fn dap_control_spec(v: u16) -> u16 {
    spec_set_field(v, 0, 1, 1)
}

/// What the bring-up step writes back, as a function of the value read:
/// power up the digital blocks the routing uses.
pub open spec fn dig_power_spec(v: u16) -> u16 {
    spec_set_field(spec_set_field(spec_set_field(v, 5, 1, 1), 4, 1, 1), 0, 1, 1)
}

/// What the bring-up step writes back, as a function of the value read:
/// route the interface to the processor and the processor to the DAC.
pub open spec fn sss_ctrl_spec(v: u16) -> u16 {
    spec_set_field(spec_set_field(v, 6, 2, 1), 4, 2, 3)
}

/// What the bring-up step writes back, as a function of the value read:
/// volume ramping on, both DAC channels unmuted.
pub open spec fn adcdac_ctrl_spec(v: u16) -> u16 {
    spec_set_field(spec_set_field(spec_set_field(spec_set_field(v, 9, 1, 1), 8, 1, 0), 3, 1, 0), 2, 1, 0)
}

/// The register-write payload of the clocking step: 48 kHz sample-rate
/// class, master clock at 256 times the sample rate, no rate scaling.
pub const CLK_CTRL_VALUE: u16 = 0x0008;

/// The safe default headphone volume payload: code 0x18 on both channels.
pub const HP_VOL_DEFAULT: u16 = 0x1818;

/// The safe default line-out volume payload: code 0x19 on both channels.
pub const LINE_OUT_VOL_DEFAULT: u16 = 0x1919;

/// The safe default DAC volume payload: full scale 0x3C on both channels.
pub const DAC_VOL_DEFAULT: u16 = 0x3C3C;

/// One piece of the bring-up script: the bus transactions of step `i`, as
/// a function of the read replies the read-modify-write steps saw.
#[verifier::opaque]
pub open spec fn bring_up_piece(replies: Seq<u16>, i: int) -> Seq<BusOp> {
    if i == 0 {
        rmw_trace(0x0030, replies[0], ana_power_ref_spec(replies[0]))
    } else if i == 1 {
        rmw_trace(0x0026, replies[1], linreg_spec(replies[1]))
    } else if i == 2 {
        rmw_trace(0x0028, replies[2], ref_ctrl_spec(replies[2]))
    } else if i == 3 {
        rmw_trace(0x002C, replies[3], line_out_ctrl_spec(replies[3]))
    } else if i == 4 {
        rmw_trace(0x003C, replies[4], short_ctrl_spec(replies[4]))
    } else if i == 5 {
        rmw_trace(0x0024, replies[5], ana_ctrl_spec(replies[5]))
    } else if i == 6 {
        rmw_trace(0x0030, replies[6], ana_power_supply_spec(replies[6]))
    } else if i == 7 {
        seq![write_op(0x0004, CLK_CTRL_VALUE)]
    } else if i == 8 {
        rmw_trace(0x0006, replies[7], i2s_ctrl_spec(replies[7]))
    } else if i == 9 {
        rmw_trace(0x0030, replies[8], ana_power_up_spec(replies[8]))
    } else if i == 10 {
        rmw_trace(0x0100, replies[9], dap_control_spec(replies[9]))
    } else if i == 11 {
        rmw_trace(0x0002, replies[10], dig_power_spec(replies[10]))
    } else if i == 12 {
        rmw_trace(0x000A, replies[11], sss_ctrl_spec(replies[11]))
    } else if i == 13 {
        rmw_trace(0x000E, replies[12], adcdac_ctrl_spec(replies[12]))
    } else if i == 14 {
        seq![write_op(0x0022, HP_VOL_DEFAULT)]
    } else if i == 15 {
        seq![write_op(0x002E, LINE_OUT_VOL_DEFAULT)]
    } else {
        seq![write_op(0x0010, DAC_VOL_DEFAULT)]
    }
}

/// How many read replies the first `n` bring-up steps consume.
pub open spec fn replies_used(n: int) -> int {
    if n <= 7 {
        n
    } else if n <= 14 {
        n - 1
    } else {
        13
    }
}

/// The bus transactions of the first `n` bring-up steps, in script order.
#[verifier::opaque]
pub open spec fn bring_up_trace_upto(replies: Seq<u16>, n: int) -> Seq<BusOp>
    decreases n,
{
    if n <= 0 {
        Seq::empty()
    } else {
        bring_up_trace_upto(replies, n - 1) + bring_up_piece(replies, n - 1)
    }
}

/// The whole bring-up script after the identification read: seventeen
/// steps — thirteen read-modify-writes and four plain register writes —
/// strictly in this order: reference top, regulator assignment, reference
/// control, line-out control, short detect, analog control, charge pump,
/// clocking, interface framing, analog power-up, processing enable,
/// digital power, routing, volume ramp, and the three default volumes.
pub open spec fn bring_up_trace(replies: Seq<u16>) -> Seq<BusOp> {
    bring_up_trace_upto(replies, 17)
}

/// A script prefix only reads the replies its steps consume.
proof fn lemma_trace_upto_agree(r1: Seq<u16>, r2: Seq<u16>, n: int)
    requires
        0 <= n <= 17,
        forall|i: int| 0 <= i < replies_used(n) ==> r1[i] == r2[i],
    ensures
        bring_up_trace_upto(r1, n) == bring_up_trace_upto(r2, n),
    decreases n,
{
    reveal(bring_up_piece);
    reveal_with_fuel(bring_up_trace_upto, 2);
    if n > 0 {
        lemma_trace_upto_agree(r1, r2, n - 1);
        assert(bring_up_piece(r1, n - 1) == bring_up_piece(r2, n - 1));
    }
}

/// Fewer script steps form a prefix of more script steps.
proof fn lemma_trace_upto_prefix(replies: Seq<u16>, m: int, n: int)
    requires
        0 <= m <= n <= 17,
    ensures
        bring_up_trace_upto(replies, m).is_prefix_of(bring_up_trace_upto(replies, n)),
    decreases n,
{
    reveal_with_fuel(bring_up_trace_upto, 2);
    if m == n {
        lemma_prefix_refl(bring_up_trace_upto(replies, m));
    } else {
        lemma_trace_upto_prefix(replies, m, n - 1);
        lemma_prefix_append(bring_up_trace_upto(replies, n - 1), bring_up_piece(replies, n - 1));
        lemma_prefix_trans(
            bring_up_trace_upto(replies, m),
            bring_up_trace_upto(replies, n - 1),
            bring_up_trace_upto(replies, n),
        );
    }
}

/// The address phase alone is how a register read that failed mid-way, or
/// a read-modify-write that failed at the read, shows up on the wire.
proof fn lemma_read_partial_addr(a: u16, v: u16)
    ensures
        seq![addr_phase_op(a)].is_prefix_of(read_trace(a, v)),
{
    assert(seq![addr_phase_op(a)] =~= read_trace(a, v).subrange(0, 1));
}

/// The address phase is the front of a read-modify-write.
proof fn lemma_rmw_partial_addr(a: u16, r: u16, w: u16)
    ensures
        seq![addr_phase_op(a)].is_prefix_of(rmw_trace(a, r, w)),
{
    assert(seq![addr_phase_op(a)] =~= rmw_trace(a, r, w).subrange(0, 1));
}

/// The completed read is the front of a read-modify-write.
proof fn lemma_rmw_partial_read(a: u16, r: u16, w: u16)
    ensures
        read_trace(a, r).is_prefix_of(rmw_trace(a, r, w)),
{
    assert(read_trace(a, r) =~= rmw_trace(a, r, w).subrange(0, 2));
}

/// Prefixes are kept under concatenation on the left.
proof fn lemma_prefix_concat<T>(a: Seq<T>, b: Seq<T>, c: Seq<T>)
    requires
        b.is_prefix_of(c),
    ensures
        (a + b).is_prefix_of(a + c),
{
    assert(a + b =~= (a + c).subrange(0, (a + b).len() as int));
}

/// The reference-control step writes the clamped analog-ground code and
/// bias control 1, whatever value was read.
pub proof fn lemma_ref_ctrl_step_fields(v: u16)
    ensures
        spec_get_field(ref_ctrl_spec(v), 4, 5) == spec_cap(spec_vag_code(VDDA_MV), 0x1F),
        spec_get_field(ref_ctrl_spec(v), 1, 3) == 1,
{
    lemma_low_mask_values();
    lemma_field_set_other(
        spec_set_field(v, 4, 5, spec_cap(spec_vag_code(VDDA_MV), 0x1F)),
        1,
        3,
        1,
        4,
        5,
    );
    lemma_field_round_trip(v, 4, 5, spec_cap(spec_vag_code(VDDA_MV), 0x1F));
    lemma_field_round_trip(spec_set_field(v, 4, 5, spec_cap(spec_vag_code(VDDA_MV), 0x1F)), 1, 3, 1);
}

/// The analog-control step clears the headphone and line-out mutes,
/// whatever value was read.
pub proof fn lemma_ana_ctrl_step_unmutes(v: u16)
    ensures
        spec_get_field(ana_ctrl_spec(v), 4, 1) == 0,
        spec_get_field(ana_ctrl_spec(v), 8, 1) == 0,
{
    let x1 = spec_set_field(v, 6, 1, 0);
    let x2 = spec_set_field(x1, 4, 1, 0);
    let x3 = spec_set_field(x2, 8, 1, 0);
    lemma_low_mask_values();
    lemma_field_round_trip(x1, 4, 1, 0);
    lemma_field_set_other(x2, 8, 1, 0, 4, 1);
    lemma_field_set_other(x3, 5, 1, 1, 4, 1);
    lemma_field_round_trip(x2, 8, 1, 0);
    lemma_field_set_other(x3, 5, 1, 1, 8, 1);
}

/// The ADC/DAC-control step unmutes both DAC channels, whatever value was
/// read.
pub proof fn lemma_adcdac_step_unmutes(v: u16)
    ensures
        spec_get_field(adcdac_ctrl_spec(v), 3, 1) == 0,
        spec_get_field(adcdac_ctrl_spec(v), 2, 1) == 0,
{
    let x1 = spec_set_field(v, 9, 1, 1);
    let x2 = spec_set_field(x1, 8, 1, 0);
    let x3 = spec_set_field(x2, 3, 1, 0);
    lemma_low_mask_values();
    lemma_field_round_trip(x2, 3, 1, 0);
    lemma_field_set_other(x3, 2, 1, 0, 3, 1);
    lemma_field_round_trip(x3, 2, 1, 0);
}

/// Bring-up step: power the reference top and select stereo DAC operation.
fn ana_power_ref_step(reg: ChipAnaPower) -> (s: ChipAnaPower)
    ensures
        s.0 == ana_power_ref_spec(reg.0),
{
    let mut s = reg;
    s.set_reftop_powerup(true);
    s.set_dac_mono(true);
    s
}

/// Bring-up step: regulator source assignment for supplies above the
/// charge-pump threshold.
fn linreg_step(reg: ChipLinregCtrl) -> (s: ChipLinregCtrl)
    ensures
        s.0 == linreg_spec(reg.0),
{
    let mut s = reg;
    s.set_vdcc_assn_ovrd(false);
    s.set_vdcc_man_assn(false);
    s.set_d_programming(0);
    s
}

/// Bring-up step: the analog-ground level derived from the supply voltage,
/// clamped to this register's range, and the bias setting.
fn ref_ctrl_step(reg: ChipRefCtrl) -> (s: ChipRefCtrl)
    ensures
        s.0 == ref_ctrl_spec(reg.0),
{
    let vag_ref16: u16 = cap_code(vag_code(VDDA_MV), 0x1F);
    let vag_ref: u8 = vag_ref16 as u8;
    let mut s = reg;
    s.set_vag_val(vag_ref);
    s.set_bias_ctrl(1);
    s
}

/// Bring-up step: the line-out analog ground matching the reference level,
/// clamped to this register's range, and the amplifier bias current.
fn line_out_ctrl_step(reg: ChipLineOutCtrl) -> (s: ChipLineOutCtrl)
    ensures
        s.0 == line_out_ctrl_spec(reg.0),
{
    let vag_lo16: u16 = cap_code(vag_code(VDDA_MV), 0x23);
    let vag_lo: u8 = vag_lo16 as u8;
    let mut s = reg;
    s.set_lo_vagcntrl(vag_lo);
    s.set_out_current(0xF);
    s
}

/// Bring-up step: headphone short-detect levels and modes.
fn short_ctrl_step(reg: ChipShortCtrl) -> (s: ChipShortCtrl)
    ensures
        s.0 == short_ctrl_spec(reg.0),
{
    let mut s = reg;
    s.set_lvladjr(4);
    s.set_lvladjl(4);
    s.set_lvladjc(4);
    s.set_mode_lr(1);
    s.set_mode_cm(2);
    s
}

/// Bring-up step: the DAC feeds the headphone output, both outputs
/// unmuted, zero-cross detect on.
fn ana_ctrl_step(reg: ChipAnaCtrl) -> (s: ChipAnaCtrl)
    ensures
        s.0 == ana_ctrl_spec(reg.0),
{
    let mut s = reg;
    s.set_select_hp(false);
    s.set_mute_hp(false);
    s.set_mute_lo(false);
    s.set_en_zcd_hp(true);
    s
}

/// Bring-up step: charge pump on, from the internal regulator; no PLL.
fn ana_power_supply_step(reg: ChipAnaPower) -> (s: ChipAnaPower)
    ensures
        s.0 == ana_power_supply_spec(reg.0),
{
    let mut s = reg;
    s.set_linreg_d_powerup(false);
    s.set_vddc_chrgpmp_powerup(true);
    s.set_pll_powerup(false);
    s.set_vcoamp_powerup(true);
    s.set_dac_mono(true);
    s
}

/// Bring-up step: interface framing — master role, 32 clocks per frame,
/// 16-bit data, PCM mode.
fn i2s_ctrl_step(reg: ChipI2sCtrl) -> (s: ChipI2sCtrl)
    ensures
        s.0 == i2s_ctrl_spec(reg.0),
{
    let mut s = reg;
    s.set_ms(true);
    s.set_sclkfreq(true);
    s.set_sclk_inv(false);
    s.set_lralign(false);
    s.set_lrpol(false);
    s.set_dlen(3);
    s.set_i2s_mode(2);
    s
}

/// Bring-up step: power up the analog blocks, the analog ground and the
/// line-out stage among them.
fn ana_power_up_step(reg: ChipAnaPower) -> (s: ChipAnaPower)
    ensures
        s.0 == ana_power_up_spec(reg.0),
        spec_get_field(s.0, 7, 1) == 1,
        spec_get_field(s.0, 0, 1) == 1,
{
    let mut s = reg;
    s.set_startup_powerup(false);
    s.set_linreg_simple_powerup(true);
    s.set_lineout_powerup(true);
    s.set_adc_powerup(true);
    s.set_capless_headphone_powerup(true);
    s.set_dac_powerup(true);
    s.set_headphone_powerup(true);
    s.set_reftop_powerup(true);
    s.set_vag_powerup(true);
    proof {
        let x0 = reg.0;
        let x1 = spec_set_field(x0, 12, 1, 0);
        let x2 = spec_set_field(x1, 13, 1, 1);
        let x3 = spec_set_field(x2, 0, 1, 1);
        let x4 = spec_set_field(x3, 1, 1, 1);
        let x5 = spec_set_field(x4, 2, 1, 1);
        let x6 = spec_set_field(x5, 3, 1, 1);
        let x7 = spec_set_field(x6, 4, 1, 1);
        let x8 = spec_set_field(x7, 5, 1, 1);
        lemma_low_mask_values();
        lemma_field_round_trip(x8, 7, 1, 1);
        lemma_field_round_trip(x2, 0, 1, 1);
        lemma_field_set_other(x3, 1, 1, 1, 0, 1);
        lemma_field_set_other(x4, 2, 1, 1, 0, 1);
        lemma_field_set_other(x5, 3, 1, 1, 0, 1);
        lemma_field_set_other(x6, 4, 1, 1, 0, 1);
        lemma_field_set_other(x7, 5, 1, 1, 0, 1);
        lemma_field_set_other(x8, 7, 1, 1, 0, 1);
    }
    s
}

/// Bring-up step: enable digital audio processing.
fn dap_control_step(reg: DapControl) -> (s: DapControl)
    ensures
        s.0 == dap_control_spec(reg.0),
{
    let mut s = reg;
    s.set_dap_en(true);
    s
}

/// Bring-up step: power up the digital blocks the routing uses.
fn dig_power_step(reg: ChipDigPower) -> (s: ChipDigPower)
    ensures
        s.0 == dig_power_spec(reg.0),
{
    let mut s = reg;
    s.set_dac_powerup(true);
    s.set_dap_powerup(true);
    s.set_i2s_in_powerup(true);
    s
}

/// Bring-up step: the digital interface feeds the processor, the processor
/// feeds the DAC.
fn sss_ctrl_step(reg: ChipSssCtrl) -> (s: ChipSssCtrl)
    ensures
        s.0 == sss_ctrl_spec(reg.0),
{
    let mut s = reg;
    s.set_dap_select(1);
    s.set_dac_select(3);
    s
}

/// Bring-up step: volume ramping on, both DAC channels unmuted.
fn adcdac_ctrl_step(reg: ChipAdcdacCtrl) -> (s: ChipAdcdacCtrl)
    ensures
        s.0 == adcdac_ctrl_spec(reg.0),
{
    let mut s = reg;
    s.set_vol_ramp_en(true);
    s.set_vol_expo_ramp(false);
    s.set_dac_mute_right(false);
    s.set_dac_mute_left(false);
    s
}

/// The register bus client: the only component that touches the bus.
pub struct SGTL5000Control<B: I2cBus> {
    i2c: B,
}

impl<B: I2cBus> SGTL5000Control<B> {
    /// The completed bus transactions issued through this controller.
    pub closed spec fn log(&self) -> Seq<BusOp> {
        self.i2c.log()
    }

    /// One register read: write the big-endian register address, then read
    /// two bytes, reassembled big-endian into the raw value.
    pub(crate) fn read_register<R: I2cRegister>(&mut self) -> (r: Result<R, B::BusErr>)
        ensures
            r matches Ok(reg) ==> final(self).log() == old(self).log() + read_trace(
                R::spec_addr(),
                reg.spec_raw(),
            ),
            r is Err ==> final(self).log() == old(self).log() || final(self).log() == old(
                self,
            ).log().push(addr_phase_op(R::spec_addr())),
    {
        let addr = R::register_addr();
        let addr_buf = be_bytes(addr);
        match self.i2c.write(I2C_ADDR, &addr_buf) {
            Ok(_) => {},
            Err(e) => {
                return Err(e);
            },
        }
        match self.i2c.read2(I2C_ADDR) {
            Ok(b) => {
                let value = be_decode(b.0, b.1);
                proof {
                    lemma_be_decode_bytes(b.0, b.1);
                    assert(self.log() =~= old(self).log() + read_trace(R::spec_addr(), value));
                }
                Ok(R::new(value))
            },
            Err(e) => Err(e),
        }
    }

    /// One register write: a single 4-byte bus write of big-endian address
    /// and big-endian value.
    fn write_register<R: I2cRegister>(&mut self, register: R) -> (r: Result<(), B::BusErr>)
        ensures
            r is Ok ==> final(self).log() == old(self).log().push(
                write_op(R::spec_addr(), register.spec_raw()),
            ),
            r is Err ==> final(self).log() == old(self).log(),
    {
        let addr = R::register_addr();
        let value = register.to_inner();
        let buf = wire_bytes(addr, value);
        self.i2c.write(I2C_ADDR, &buf)
    }

    /// Read a register, apply `f` to the value read, and write the result
    /// back. Not atomic: this caller is the only bus owner by construction.
    pub(crate) fn modify_register<R: I2cRegister, F: Fn(R) -> R>(&mut self, f: F) -> (r: Result<
        (),
        B::BusErr,
    >)
        requires
            forall|x: R| #[trigger] call_requires(f, (x,)),
        ensures
            old(self).log().is_prefix_of(final(self).log()),
            r is Ok ==> exists|inp: R, out: R|
                #[trigger] call_ensures(f, (inp,), out) && final(self).log() == old(self).log()
                    + rmw_trace(R::spec_addr(), inp.spec_raw(), out.spec_raw()),
            r is Err ==> final(self).log() == old(self).log() || final(self).log() == old(
                self,
            ).log().push(addr_phase_op(R::spec_addr())) || (exists|v: u16|
                final(self).log() == old(self).log() + #[trigger] read_trace(R::spec_addr(), v)),
    {
        let ghost pre = self.log();
        let register: R = match self.read_register() {
            Ok(reg) => reg,
            Err(e) => {
                proof {
                    if self.log() != pre {
                        lemma_prefix_push(pre, addr_phase_op(R::spec_addr()));
                    }
                }
                return Err(e);
            },
        };
        let written = f(register);
        let ghost mid = self.log();
        match self.write_register(written) {
            Ok(_) => {
                proof {
                    assert(self.log() =~= pre + rmw_trace(
                        R::spec_addr(),
                        register.spec_raw(),
                        written.spec_raw(),
                    ));
                    lemma_prefix_append(
                        pre,
                        rmw_trace(R::spec_addr(), register.spec_raw(), written.spec_raw()),
                    );
                }
                Ok(())
            },
            Err(e) => {
                proof {
                    lemma_prefix_append(pre, read_trace(R::spec_addr(), register.spec_raw()));
                    assert(self.log() == old(self).log() + read_trace(
                        R::spec_addr(),
                        register.spec_raw(),
                    ));
                }
                Err(e)
            },
        }
    }

    /// The first half of the bring-up script: reference-top power,
    /// regulator assignment, both analog-ground references, short detect,
    /// output selection, charge pump, clocking and interface framing
    /// (script steps 0 to 8). On failure the log holds only the completed
    /// scripted transactions, cut inside the failing step.
    #[verifier::rlimit(100)]
    #[verifier::spinoff_prover]
    fn bring_up_front(&mut self) -> (r: Result<(), B::BusErr>)
        ensures
            old(self).log().is_prefix_of(final(self).log()),
            exists|replies: Seq<u16>|
                #![trigger bring_up_trace_upto(replies, 9)]
                replies.len() == 13 && final(self).log().is_prefix_of(
                    old(self).log() + bring_up_trace_upto(replies, 9),
                ),
            r is Ok ==> exists|replies: Seq<u16>|
                #![trigger bring_up_trace_upto(replies, 9)]
                replies.len() == 13 && final(self).log() == old(self).log()
                    + bring_up_trace_upto(replies, 9),
            r is Ok ==> ground_refs_written(
                old(self).log().len() as int,
                final(self).log(),
                VDDA_MV,
            ),
    {
        let ghost base0 = self.log();
        let ghost mut replies: Seq<u16> = seq![0u16, 0, 0, 0, 0, 0, 0, 0, 0, 0, 0, 0, 0];
        let ghost mut ref_snap: Seq<u16> = replies;
        let ghost mut ref_log: Seq<BusOp> = Seq::empty();
        let ghost mut ref_idx: int = 0;
        let ghost mut ref_val: u16 = 0;
        let ghost mut lo_snap: Seq<u16> = replies;
        let ghost mut lo_log: Seq<BusOp> = Seq::empty();
        let ghost mut lo_idx: int = 0;
        let ghost mut lo_val: u16 = 0;
        proof {
            reveal_with_fuel(bring_up_trace_upto, 2);
            assert(self.log() =~= base0 + bring_up_trace_upto(replies, 0));
        }

        // Reference top and stereo DAC, before anything analog is touched.
        let ghost b0 = self.log();
        match self.modify_register(ana_power_ref_step) {
            Ok(_) => {},
            Err(e) => {
                proof {
                    reveal(bring_up_piece);
                    reveal_with_fuel(bring_up_trace_upto, 2);
                    if self.log() == b0 {
                        lemma_trace_upto_prefix(replies, 0, 9);
                        lemma_prefix_concat(
                            base0,
                            bring_up_trace_upto(replies, 0),
                            bring_up_trace_upto(replies, 9),
                        );
                        lemma_prefix_append(base0, bring_up_trace_upto(replies, 0));
                    } else if self.log() == b0.push(addr_phase_op(0x0030)) {
                        lemma_rmw_partial_addr(0x0030, replies[0], ana_power_ref_spec(replies[0]));
                        lemma_prefix_concat(
                            bring_up_trace_upto(replies, 0),
                            seq![addr_phase_op(0x0030)],
                            bring_up_piece(replies, 0),
                        );
                        assert(self.log() =~= base0 + (bring_up_trace_upto(replies, 0) + seq![
                            addr_phase_op(0x0030),
                        ]));
                        lemma_trace_upto_prefix(replies, 1, 9);
                        lemma_prefix_trans(
                            bring_up_trace_upto(replies, 0) + seq![addr_phase_op(0x0030)],
                            bring_up_trace_upto(replies, 1),
                            bring_up_trace_upto(replies, 9),
                        );
                        lemma_prefix_concat(
                            base0,
                            bring_up_trace_upto(replies, 0) + seq![addr_phase_op(0x0030)],
                            bring_up_trace_upto(replies, 9),
                        );
                        lemma_prefix_append(base0, bring_up_trace_upto(replies, 0) + seq![
                            addr_phase_op(0x0030),
                        ]);
                    } else {
                        let v = choose|v: u16| self.log() == b0 + #[trigger] read_trace(0x0030, v);
                        let ghost prev = replies;
                        replies = replies.update(0, v);
                        lemma_trace_upto_agree(prev, replies, 0);
                        lemma_rmw_partial_read(0x0030, v, ana_power_ref_spec(v));
                        lemma_prefix_concat(
                            bring_up_trace_upto(replies, 0),
                            read_trace(0x0030, v),
                            bring_up_piece(replies, 0),
                        );
                        assert(self.log() =~= base0 + (bring_up_trace_upto(replies, 0) + read_trace(
                            0x0030,
                            v,
                        )));
                        lemma_trace_upto_prefix(replies, 1, 9);
                        lemma_prefix_trans(
                            bring_up_trace_upto(replies, 0) + read_trace(0x0030, v),
                            bring_up_trace_upto(replies, 1),
                            bring_up_trace_upto(replies, 9),
                        );
                        lemma_prefix_concat(
                            base0,
                            bring_up_trace_upto(replies, 0) + read_trace(0x0030, v),
                            bring_up_trace_upto(replies, 9),
                        );
                        lemma_prefix_append(base0, bring_up_trace_upto(replies, 0) + read_trace(
                            0x0030,
                            v,
                        ));
                    }
                    assert(old(self).log().is_prefix_of(self.log()));
                    assert(self.log().is_prefix_of(old(self).log() + bring_up_trace_upto(
                        replies,
                        9,
                    )));
                }
                return Err(e);
            },
        }
        proof {
            reveal(bring_up_piece);
            reveal_with_fuel(bring_up_trace_upto, 2);
            let (inp, out) = choose|inp: ChipAnaPower, out: ChipAnaPower|
                call_ensures(ana_power_ref_step, (inp,), out) && self.log() == b0 + rmw_trace(
                    0x0030,
                    inp.spec_raw(),
                    out.spec_raw(),
                );
            let ghost prev = replies;
            replies = replies.update(0, inp.spec_raw());
            lemma_trace_upto_agree(prev, replies, 0);
            assert(bring_up_piece(replies, 0) == rmw_trace(
                0x0030,
                inp.spec_raw(),
                ana_power_ref_spec(inp.spec_raw()),
            ));
            assert(self.log() =~= base0 + bring_up_trace_upto(replies, 1));
        }

        // Regulator source assignment: both supplies above the threshold.
        let ghost b1 = self.log();
        match self.modify_register(linreg_step) {
            Ok(_) => {},
            Err(e) => {
                proof {
                    reveal(bring_up_piece);
                    reveal_with_fuel(bring_up_trace_upto, 2);
                    if self.log() == b1 {
                        lemma_trace_upto_prefix(replies, 1, 9);
                        lemma_prefix_concat(
                            base0,
                            bring_up_trace_upto(replies, 1),
                            bring_up_trace_upto(replies, 9),
                        );
                        lemma_prefix_append(base0, bring_up_trace_upto(replies, 1));
                    } else if self.log() == b1.push(addr_phase_op(0x0026)) {
                        lemma_rmw_partial_addr(0x0026, replies[1], linreg_spec(replies[1]));
                        lemma_prefix_concat(
                            bring_up_trace_upto(replies, 1),
                            seq![addr_phase_op(0x0026)],
                            bring_up_piece(replies, 1),
                        );
                        assert(self.log() =~= base0 + (bring_up_trace_upto(replies, 1) + seq![
                            addr_phase_op(0x0026),
                        ]));
                        lemma_trace_upto_prefix(replies, 2, 9);
                        lemma_prefix_trans(
                            bring_up_trace_upto(replies, 1) + seq![addr_phase_op(0x0026)],
                            bring_up_trace_upto(replies, 2),
                            bring_up_trace_upto(replies, 9),
                        );
                        lemma_prefix_concat(
                            base0,
                            bring_up_trace_upto(replies, 1) + seq![addr_phase_op(0x0026)],
                            bring_up_trace_upto(replies, 9),
                        );
                        lemma_prefix_append(base0, bring_up_trace_upto(replies, 1) + seq![
                            addr_phase_op(0x0026),
                        ]);
                    } else {
                        let v = choose|v: u16| self.log() == b1 + #[trigger] read_trace(0x0026, v);
                        let ghost prev = replies;
                        replies = replies.update(1, v);
                        lemma_trace_upto_agree(prev, replies, 1);
                        lemma_rmw_partial_read(0x0026, v, linreg_spec(v));
                        lemma_prefix_concat(
                            bring_up_trace_upto(replies, 1),
                            read_trace(0x0026, v),
                            bring_up_piece(replies, 1),
                        );
                        assert(self.log() =~= base0 + (bring_up_trace_upto(replies, 1) + read_trace(
                            0x0026,
                            v,
                        )));
                        lemma_trace_upto_prefix(replies, 2, 9);
                        lemma_prefix_trans(
                            bring_up_trace_upto(replies, 1) + read_trace(0x0026, v),
                            bring_up_trace_upto(replies, 2),
                            bring_up_trace_upto(replies, 9),
                        );
                        lemma_prefix_concat(
                            base0,
                            bring_up_trace_upto(replies, 1) + read_trace(0x0026, v),
                            bring_up_trace_upto(replies, 9),
                        );
                        lemma_prefix_append(base0, bring_up_trace_upto(replies, 1) + read_trace(
                            0x0026,
                            v,
                        ));
                    }
                    assert(old(self).log().is_prefix_of(self.log()));
                    assert(self.log().is_prefix_of(old(self).log() + bring_up_trace_upto(
                        replies,
                        9,
                    )));
                }
                return Err(e);
            },
        }
        proof {
            reveal(bring_up_piece);
            reveal_with_fuel(bring_up_trace_upto, 2);
            let (inp, out) = choose|inp: ChipLinregCtrl, out: ChipLinregCtrl|
                call_ensures(linreg_step, (inp,), out) && self.log() == b1 + rmw_trace(
                    0x0026,
                    inp.spec_raw(),
                    out.spec_raw(),
                );
            let ghost prev = replies;
            replies = replies.update(1, inp.spec_raw());
            lemma_trace_upto_agree(prev, replies, 1);
            assert(bring_up_piece(replies, 1) == rmw_trace(
                0x0026,
                inp.spec_raw(),
                linreg_spec(inp.spec_raw()),
            ));
            assert(self.log() =~= base0 + bring_up_trace_upto(replies, 2));
        }

        // Reference control: analog ground level and bias, from the supply
        // voltage.
        let ghost b2 = self.log();
        match self.modify_register(ref_ctrl_step) {
            Ok(_) => {},
            Err(e) => {
                proof {
                    reveal(bring_up_piece);
                    reveal_with_fuel(bring_up_trace_upto, 2);
                    if self.log() == b2 {
                        lemma_trace_upto_prefix(replies, 2, 9);
                        lemma_prefix_concat(
                            base0,
                            bring_up_trace_upto(replies, 2),
                            bring_up_trace_upto(replies, 9),
                        );
                        lemma_prefix_append(base0, bring_up_trace_upto(replies, 2));
                    } else if self.log() == b2.push(addr_phase_op(0x0028)) {
                        lemma_rmw_partial_addr(0x0028, replies[2], ref_ctrl_spec(replies[2]));
                        lemma_prefix_concat(
                            bring_up_trace_upto(replies, 2),
                            seq![addr_phase_op(0x0028)],
                            bring_up_piece(replies, 2),
                        );
                        assert(self.log() =~= base0 + (bring_up_trace_upto(replies, 2) + seq![
                            addr_phase_op(0x0028),
                        ]));
                        lemma_trace_upto_prefix(replies, 3, 9);
                        lemma_prefix_trans(
                            bring_up_trace_upto(replies, 2) + seq![addr_phase_op(0x0028)],
                            bring_up_trace_upto(replies, 3),
                            bring_up_trace_upto(replies, 9),
                        );
                        lemma_prefix_concat(
                            base0,
                            bring_up_trace_upto(replies, 2) + seq![addr_phase_op(0x0028)],
                            bring_up_trace_upto(replies, 9),
                        );
                        lemma_prefix_append(base0, bring_up_trace_upto(replies, 2) + seq![
                            addr_phase_op(0x0028),
                        ]);
                    } else {
                        let v = choose|v: u16| self.log() == b2 + #[trigger] read_trace(0x0028, v);
                        let ghost prev = replies;
                        replies = replies.update(2, v);
                        lemma_trace_upto_agree(prev, replies, 2);
                        lemma_rmw_partial_read(0x0028, v, ref_ctrl_spec(v));
                        lemma_prefix_concat(
                            bring_up_trace_upto(replies, 2),
                            read_trace(0x0028, v),
                            bring_up_piece(replies, 2),
                        );
                        assert(self.log() =~= base0 + (bring_up_trace_upto(replies, 2) + read_trace(
                            0x0028,
                            v,
                        )));
                        lemma_trace_upto_prefix(replies, 3, 9);
                        lemma_prefix_trans(
                            bring_up_trace_upto(replies, 2) + read_trace(0x0028, v),
                            bring_up_trace_upto(replies, 3),
                            bring_up_trace_upto(replies, 9),
                        );
                        lemma_prefix_concat(
                            base0,
                            bring_up_trace_upto(replies, 2) + read_trace(0x0028, v),
                            bring_up_trace_upto(replies, 9),
                        );
                        lemma_prefix_append(base0, bring_up_trace_upto(replies, 2) + read_trace(
                            0x0028,
                            v,
                        ));
                    }
                    assert(old(self).log().is_prefix_of(self.log()));
                    assert(self.log().is_prefix_of(old(self).log() + bring_up_trace_upto(
                        replies,
                        9,
                    )));
                }
                return Err(e);
            },
        }
        proof {
            reveal(bring_up_piece);
            reveal_with_fuel(bring_up_trace_upto, 2);
            let (inp, out) = choose|inp: ChipRefCtrl, out: ChipRefCtrl|
                call_ensures(ref_ctrl_step, (inp,), out) && self.log() == b2 + rmw_trace(
                    0x0028,
                    inp.spec_raw(),
                    out.spec_raw(),
                );
            let ghost prev = replies;
            replies = replies.update(2, inp.spec_raw());
            lemma_trace_upto_agree(prev, replies, 2);
            assert(bring_up_piece(replies, 2) == rmw_trace(
                0x0028,
                inp.spec_raw(),
                ref_ctrl_spec(inp.spec_raw()),
            ));
            assert(self.log() =~= base0 + bring_up_trace_upto(replies, 3));
            ref_snap = replies;
            ref_log = self.log();
            ref_idx = ref_log.len() - 1;
            ref_val = out.0;
            assert(ref_log[ref_idx] == write_op(0x0028, ref_val));
            lemma_low_mask_values();
            lemma_field_set_other(
                spec_set_field(inp.0, 4, 5, spec_cap(spec_vag_code(VDDA_MV), 0x1F)),
                1,
                3,
                1,
                4,
                5,
            );
            lemma_field_round_trip(inp.0, 4, 5, spec_cap(spec_vag_code(VDDA_MV), 0x1F));
            lemma_field_round_trip(
                spec_set_field(inp.0, 4, 5, spec_cap(spec_vag_code(VDDA_MV), 0x1F)),
                1,
                3,
                1,
            );
            assert(spec_get_field(ref_val, 4, 5) == spec_cap(spec_vag_code(VDDA_MV), 0x1F));
            assert(spec_get_field(ref_val, 1, 3) == 1);
        }

        // Line-out control: the same reference code, and the bias current.
        let ghost b3 = self.log();
        match self.modify_register(line_out_ctrl_step) {
            Ok(_) => {},
            Err(e) => {
                proof {
                    reveal(bring_up_piece);
                    reveal_with_fuel(bring_up_trace_upto, 2);
                    if self.log() == b3 {
                        lemma_trace_upto_prefix(replies, 3, 9);
                        lemma_prefix_concat(
                            base0,
                            bring_up_trace_upto(replies, 3),
                            bring_up_trace_upto(replies, 9),
                        );
                        lemma_prefix_append(base0, bring_up_trace_upto(replies, 3));
                    } else if self.log() == b3.push(addr_phase_op(0x002C)) {
                        lemma_rmw_partial_addr(0x002C, replies[3], line_out_ctrl_spec(replies[3]));
                        lemma_prefix_concat(
                            bring_up_trace_upto(replies, 3),
                            seq![addr_phase_op(0x002C)],
                            bring_up_piece(replies, 3),
                        );
                        assert(self.log() =~= base0 + (bring_up_trace_upto(replies, 3) + seq![
                            addr_phase_op(0x002C),
                        ]));
                        lemma_trace_upto_prefix(replies, 4, 9);
                        lemma_prefix_trans(
                            bring_up_trace_upto(replies, 3) + seq![addr_phase_op(0x002C)],
                            bring_up_trace_upto(replies, 4),
                            bring_up_trace_upto(replies, 9),
                        );
                        lemma_prefix_concat(
                            base0,
                            bring_up_trace_upto(replies, 3) + seq![addr_phase_op(0x002C)],
                            bring_up_trace_upto(replies, 9),
                        );
                        lemma_prefix_append(base0, bring_up_trace_upto(replies, 3) + seq![
                            addr_phase_op(0x002C),
                        ]);
                    } else {
                        let v = choose|v: u16| self.log() == b3 + #[trigger] read_trace(0x002C, v);
                        let ghost prev = replies;
                        replies = replies.update(3, v);
                        lemma_trace_upto_agree(prev, replies, 3);
                        lemma_rmw_partial_read(0x002C, v, line_out_ctrl_spec(v));
                        lemma_prefix_concat(
                            bring_up_trace_upto(replies, 3),
                            read_trace(0x002C, v),
                            bring_up_piece(replies, 3),
                        );
                        assert(self.log() =~= base0 + (bring_up_trace_upto(replies, 3) + read_trace(
                            0x002C,
                            v,
                        )));
                        lemma_trace_upto_prefix(replies, 4, 9);
                        lemma_prefix_trans(
                            bring_up_trace_upto(replies, 3) + read_trace(0x002C, v),
                            bring_up_trace_upto(replies, 4),
                            bring_up_trace_upto(replies, 9),
                        );
                        lemma_prefix_concat(
                            base0,
                            bring_up_trace_upto(replies, 3) + read_trace(0x002C, v),
                            bring_up_trace_upto(replies, 9),
                        );
                        lemma_prefix_append(base0, bring_up_trace_upto(replies, 3) + read_trace(
                            0x002C,
                            v,
                        ));
                    }
                    assert(old(self).log().is_prefix_of(self.log()));
                    assert(self.log().is_prefix_of(old(self).log() + bring_up_trace_upto(
                        replies,
                        9,
                    )));
                }
                return Err(e);
            },
        }
        proof {
            reveal(bring_up_piece);
            reveal_with_fuel(bring_up_trace_upto, 2);
            let (inp, out) = choose|inp: ChipLineOutCtrl, out: ChipLineOutCtrl|
                call_ensures(line_out_ctrl_step, (inp,), out) && self.log() == b3 + rmw_trace(
                    0x002C,
                    inp.spec_raw(),
                    out.spec_raw(),
                );
            let ghost prev = replies;
            replies = replies.update(3, inp.spec_raw());
            lemma_trace_upto_agree(prev, replies, 3);
            assert(bring_up_piece(replies, 3) == rmw_trace(
                0x002C,
                inp.spec_raw(),
                line_out_ctrl_spec(inp.spec_raw()),
            ));
            assert(self.log() =~= base0 + bring_up_trace_upto(replies, 4));
            lo_snap = replies;
            lo_log = self.log();
            lo_idx = lo_log.len() - 1;
            lo_val = out.0;
            assert(lo_log[lo_idx] == write_op(0x002C, lo_val));
            lemma_low_mask_values();
            lemma_field_set_other(
                spec_set_field(inp.0, 0, 6, spec_cap(spec_vag_code(VDDA_MV), 0x23)),
                8,
                4,
                0xF,
                0,
                6,
            );
            lemma_field_round_trip(inp.0, 0, 6, spec_cap(spec_vag_code(VDDA_MV), 0x23));
            assert(spec_get_field(lo_val, 0, 6) == spec_cap(spec_vag_code(VDDA_MV), 0x23));
        }

        // Headphone short-detect levels and modes.
        let ghost b4 = self.log();
        match self.modify_register(short_ctrl_step) {
            Ok(_) => {},
            Err(e) => {
                proof {
                    reveal(bring_up_piece);
                    reveal_with_fuel(bring_up_trace_upto, 2);
                    if self.log() == b4 {
                        lemma_trace_upto_prefix(replies, 4, 9);
                        lemma_prefix_concat(
                            base0,
                            bring_up_trace_upto(replies, 4),
                            bring_up_trace_upto(replies, 9),
                        );
                        lemma_prefix_append(base0, bring_up_trace_upto(replies, 4));
                    } else if self.log() == b4.push(addr_phase_op(0x003C)) {
                        lemma_rmw_partial_addr(0x003C, replies[4], short_ctrl_spec(replies[4]));
                        lemma_prefix_concat(
                            bring_up_trace_upto(replies, 4),
                            seq![addr_phase_op(0x003C)],
                            bring_up_piece(replies, 4),
                        );
                        assert(self.log() =~= base0 + (bring_up_trace_upto(replies, 4) + seq![
                            addr_phase_op(0x003C),
                        ]));
                        lemma_trace_upto_prefix(replies, 5, 9);
                        lemma_prefix_trans(
                            bring_up_trace_upto(replies, 4) + seq![addr_phase_op(0x003C)],
                            bring_up_trace_upto(replies, 5),
                            bring_up_trace_upto(replies, 9),
                        );
                        lemma_prefix_concat(
                            base0,
                            bring_up_trace_upto(replies, 4) + seq![addr_phase_op(0x003C)],
                            bring_up_trace_upto(replies, 9),
                        );
                        lemma_prefix_append(base0, bring_up_trace_upto(replies, 4) + seq![
                            addr_phase_op(0x003C),
                        ]);
                    } else {
                        let v = choose|v: u16| self.log() == b4 + #[trigger] read_trace(0x003C, v);
                        let ghost prev = replies;
                        replies = replies.update(4, v);
                        lemma_trace_upto_agree(prev, replies, 4);
                        lemma_rmw_partial_read(0x003C, v, short_ctrl_spec(v));
                        lemma_prefix_concat(
                            bring_up_trace_upto(replies, 4),
                            read_trace(0x003C, v),
                            bring_up_piece(replies, 4),
                        );
                        assert(self.log() =~= base0 + (bring_up_trace_upto(replies, 4) + read_trace(
                            0x003C,
                            v,
                        )));
                        lemma_trace_upto_prefix(replies, 5, 9);
                        lemma_prefix_trans(
                            bring_up_trace_upto(replies, 4) + read_trace(0x003C, v),
                            bring_up_trace_upto(replies, 5),
                            bring_up_trace_upto(replies, 9),
                        );
                        lemma_prefix_concat(
                            base0,
                            bring_up_trace_upto(replies, 4) + read_trace(0x003C, v),
                            bring_up_trace_upto(replies, 9),
                        );
                        lemma_prefix_append(base0, bring_up_trace_upto(replies, 4) + read_trace(
                            0x003C,
                            v,
                        ));
                    }
                    assert(old(self).log().is_prefix_of(self.log()));
                    assert(self.log().is_prefix_of(old(self).log() + bring_up_trace_upto(
                        replies,
                        9,
                    )));
                }
                return Err(e);
            },
        }
        proof {
            reveal(bring_up_piece);
            reveal_with_fuel(bring_up_trace_upto, 2);
            let (inp, out) = choose|inp: ChipShortCtrl, out: ChipShortCtrl|
                call_ensures(short_ctrl_step, (inp,), out) && self.log() == b4 + rmw_trace(
                    0x003C,
                    inp.spec_raw(),
                    out.spec_raw(),
                );
            let ghost prev = replies;
            replies = replies.update(4, inp.spec_raw());
            lemma_trace_upto_agree(prev, replies, 4);
            assert(bring_up_piece(replies, 4) == rmw_trace(
                0x003C,
                inp.spec_raw(),
                short_ctrl_spec(inp.spec_raw()),
            ));
            assert(self.log() =~= base0 + bring_up_trace_upto(replies, 5));
        }

        // Output selection and unmute: the DAC feeds the headphone output.
        let ghost b5 = self.log();
        match self.modify_register(ana_ctrl_step) {
            Ok(_) => {},
            Err(e) => {
                proof {
                    reveal(bring_up_piece);
                    reveal_with_fuel(bring_up_trace_upto, 2);
                    if self.log() == b5 {
                        lemma_trace_upto_prefix(replies, 5, 9);
                        lemma_prefix_concat(
                            base0,
                            bring_up_trace_upto(replies, 5),
                            bring_up_trace_upto(replies, 9),
                        );
                        lemma_prefix_append(base0, bring_up_trace_upto(replies, 5));
                    } else if self.log() == b5.push(addr_phase_op(0x0024)) {
                        lemma_rmw_partial_addr(0x0024, replies[5], ana_ctrl_spec(replies[5]));
                        lemma_prefix_concat(
                            bring_up_trace_upto(replies, 5),
                            seq![addr_phase_op(0x0024)],
                            bring_up_piece(replies, 5),
                        );
                        assert(self.log() =~= base0 + (bring_up_trace_upto(replies, 5) + seq![
                            addr_phase_op(0x0024),
                        ]));
                        lemma_trace_upto_prefix(replies, 6, 9);
                        lemma_prefix_trans(
                            bring_up_trace_upto(replies, 5) + seq![addr_phase_op(0x0024)],
                            bring_up_trace_upto(replies, 6),
                            bring_up_trace_upto(replies, 9),
                        );
                        lemma_prefix_concat(
                            base0,
                            bring_up_trace_upto(replies, 5) + seq![addr_phase_op(0x0024)],
                            bring_up_trace_upto(replies, 9),
                        );
                        lemma_prefix_append(base0, bring_up_trace_upto(replies, 5) + seq![
                            addr_phase_op(0x0024),
                        ]);
                    } else {
                        let v = choose|v: u16| self.log() == b5 + #[trigger] read_trace(0x0024, v);
                        let ghost prev = replies;
                        replies = replies.update(5, v);
                        lemma_trace_upto_agree(prev, replies, 5);
                        lemma_rmw_partial_read(0x0024, v, ana_ctrl_spec(v));
                        lemma_prefix_concat(
                            bring_up_trace_upto(replies, 5),
                            read_trace(0x0024, v),
                            bring_up_piece(replies, 5),
                        );
                        assert(self.log() =~= base0 + (bring_up_trace_upto(replies, 5) + read_trace(
                            0x0024,
                            v,
                        )));
                        lemma_trace_upto_prefix(replies, 6, 9);
                        lemma_prefix_trans(
                            bring_up_trace_upto(replies, 5) + read_trace(0x0024, v),
                            bring_up_trace_upto(replies, 6),
                            bring_up_trace_upto(replies, 9),
                        );
                        lemma_prefix_concat(
                            base0,
                            bring_up_trace_upto(replies, 5) + read_trace(0x0024, v),
                            bring_up_trace_upto(replies, 9),
                        );
                        lemma_prefix_append(base0, bring_up_trace_upto(replies, 5) + read_trace(
                            0x0024,
                            v,
                        ));
                    }
                    assert(old(self).log().is_prefix_of(self.log()));
                    assert(self.log().is_prefix_of(old(self).log() + bring_up_trace_upto(
                        replies,
                        9,
                    )));
                }
                return Err(e);
            },
        }
        proof {
            reveal(bring_up_piece);
            reveal_with_fuel(bring_up_trace_upto, 2);
            let (inp, out) = choose|inp: ChipAnaCtrl, out: ChipAnaCtrl|
                call_ensures(ana_ctrl_step, (inp,), out) && self.log() == b5 + rmw_trace(
                    0x0024,
                    inp.spec_raw(),
                    out.spec_raw(),
                );
            let ghost prev = replies;
            replies = replies.update(5, inp.spec_raw());
            lemma_trace_upto_agree(prev, replies, 5);
            assert(bring_up_piece(replies, 5) == rmw_trace(
                0x0024,
                inp.spec_raw(),
                ana_ctrl_spec(inp.spec_raw()),
            ));
            assert(self.log() =~= base0 + bring_up_trace_upto(replies, 6));
        }

        // Charge pump from the internal regulator; no PLL.
        let ghost b6 = self.log();
        match self.modify_register(ana_power_supply_step) {
            Ok(_) => {},
            Err(e) => {
                proof {
                    reveal(bring_up_piece);
                    reveal_with_fuel(bring_up_trace_upto, 2);
                    if self.log() == b6 {
                        lemma_trace_upto_prefix(replies, 6, 9);
                        lemma_prefix_concat(
                            base0,
                            bring_up_trace_upto(replies, 6),
                            bring_up_trace_upto(replies, 9),
                        );
                        lemma_prefix_append(base0, bring_up_trace_upto(replies, 6));
                    } else if self.log() == b6.push(addr_phase_op(0x0030)) {
                        lemma_rmw_partial_addr(0x0030, replies[6], ana_power_supply_spec(replies[6]));
                        lemma_prefix_concat(
                            bring_up_trace_upto(replies, 6),
                            seq![addr_phase_op(0x0030)],
                            bring_up_piece(replies, 6),
                        );
                        assert(self.log() =~= base0 + (bring_up_trace_upto(replies, 6) + seq![
                            addr_phase_op(0x0030),
                        ]));
                        lemma_trace_upto_prefix(replies, 7, 9);
                        lemma_prefix_trans(
                            bring_up_trace_upto(replies, 6) + seq![addr_phase_op(0x0030)],
                            bring_up_trace_upto(replies, 7),
                            bring_up_trace_upto(replies, 9),
                        );
                        lemma_prefix_concat(
                            base0,
                            bring_up_trace_upto(replies, 6) + seq![addr_phase_op(0x0030)],
                            bring_up_trace_upto(replies, 9),
                        );
                        lemma_prefix_append(base0, bring_up_trace_upto(replies, 6) + seq![
                            addr_phase_op(0x0030),
                        ]);
                    } else {
                        let v = choose|v: u16| self.log() == b6 + #[trigger] read_trace(0x0030, v);
                        let ghost prev = replies;
                        replies = replies.update(6, v);
                        lemma_trace_upto_agree(prev, replies, 6);
                        lemma_rmw_partial_read(0x0030, v, ana_power_supply_spec(v));
                        lemma_prefix_concat(
                            bring_up_trace_upto(replies, 6),
                            read_trace(0x0030, v),
                            bring_up_piece(replies, 6),
                        );
                        assert(self.log() =~= base0 + (bring_up_trace_upto(replies, 6) + read_trace(
                            0x0030,
                            v,
                        )));
                        lemma_trace_upto_prefix(replies, 7, 9);
                        lemma_prefix_trans(
                            bring_up_trace_upto(replies, 6) + read_trace(0x0030, v),
                            bring_up_trace_upto(replies, 7),
                            bring_up_trace_upto(replies, 9),
                        );
                        lemma_prefix_concat(
                            base0,
                            bring_up_trace_upto(replies, 6) + read_trace(0x0030, v),
                            bring_up_trace_upto(replies, 9),
                        );
                        lemma_prefix_append(base0, bring_up_trace_upto(replies, 6) + read_trace(
                            0x0030,
                            v,
                        ));
                    }
                    assert(old(self).log().is_prefix_of(self.log()));
                    assert(self.log().is_prefix_of(old(self).log() + bring_up_trace_upto(
                        replies,
                        9,
                    )));
                }
                return Err(e);
            },
        }
        proof {
            reveal(bring_up_piece);
            reveal_with_fuel(bring_up_trace_upto, 2);
            let (inp, out) = choose|inp: ChipAnaPower, out: ChipAnaPower|
                call_ensures(ana_power_supply_step, (inp,), out) && self.log() == b6 + rmw_trace(
                    0x0030,
                    inp.spec_raw(),
                    out.spec_raw(),
                );
            let ghost prev = replies;
            replies = replies.update(6, inp.spec_raw());
            lemma_trace_upto_agree(prev, replies, 6);
            assert(bring_up_piece(replies, 6) == rmw_trace(
                0x0030,
                inp.spec_raw(),
                ana_power_supply_spec(inp.spec_raw()),
            ));
            assert(self.log() =~= base0 + bring_up_trace_upto(replies, 7));
        }

        // Clocking before the digital interface: 48 kHz sample-rate class,
        // master clock at 256 times the sample rate, no rate scaling.
        let ghost b7 = self.log();
        let mut clk_ctrl = ChipClkCtrl::new(0);
        clk_ctrl.set_sys_fs(2);
        clk_ctrl.set_mclk_freq(0);
        clk_ctrl.set_rate_mode(0);
        proof {
            assert(spec_set_field(spec_set_field(spec_set_field(0u16, 2, 2, 2), 0, 2, 0), 4, 2, 0) == 0x0008) by (bit_vector);
        }
        match self.write_register(clk_ctrl) {
            Ok(_) => {},
            Err(e) => {
                proof {
                    reveal(bring_up_piece);
                    reveal_with_fuel(bring_up_trace_upto, 2);
                    lemma_trace_upto_prefix(replies, 7, 9);
                    lemma_prefix_concat(
                        base0,
                        bring_up_trace_upto(replies, 7),
                        bring_up_trace_upto(replies, 9),
                    );
                    lemma_prefix_append(base0, bring_up_trace_upto(replies, 7));
                    assert(old(self).log().is_prefix_of(self.log()));
                    assert(self.log().is_prefix_of(old(self).log() + bring_up_trace_upto(
                        replies,
                        9,
                    )));
                }
                return Err(e);
            },
        }
        proof {
            reveal(bring_up_piece);
            reveal_with_fuel(bring_up_trace_upto, 2);
            lemma_prefix_push(b7, write_op(0x0004, clk_ctrl.0));
            assert(self.log() =~= base0 + bring_up_trace_upto(replies, 8));
        }

        // Interface framing, matching the companion interface exactly.
        let ghost b8 = self.log();
        match self.modify_register(i2s_ctrl_step) {
            Ok(_) => {},
            Err(e) => {
                proof {
                    reveal(bring_up_piece);
                    reveal_with_fuel(bring_up_trace_upto, 2);
                    if self.log() == b8 {
                        lemma_trace_upto_prefix(replies, 8, 9);
                        lemma_prefix_concat(
                            base0,
                            bring_up_trace_upto(replies, 8),
                            bring_up_trace_upto(replies, 9),
                        );
                        lemma_prefix_append(base0, bring_up_trace_upto(replies, 8));
                    } else if self.log() == b8.push(addr_phase_op(0x0006)) {
                        lemma_rmw_partial_addr(0x0006, replies[7], i2s_ctrl_spec(replies[7]));
                        lemma_prefix_concat(
                            bring_up_trace_upto(replies, 8),
                            seq![addr_phase_op(0x0006)],
                            bring_up_piece(replies, 8),
                        );
                        assert(self.log() =~= base0 + (bring_up_trace_upto(replies, 8) + seq![
                            addr_phase_op(0x0006),
                        ]));
                        lemma_trace_upto_prefix(replies, 9, 9);
                        lemma_prefix_trans(
                            bring_up_trace_upto(replies, 8) + seq![addr_phase_op(0x0006)],
                            bring_up_trace_upto(replies, 9),
                            bring_up_trace_upto(replies, 9),
                        );
                        lemma_prefix_concat(
                            base0,
                            bring_up_trace_upto(replies, 8) + seq![addr_phase_op(0x0006)],
                            bring_up_trace_upto(replies, 9),
                        );
                        lemma_prefix_append(base0, bring_up_trace_upto(replies, 8) + seq![
                            addr_phase_op(0x0006),
                        ]);
                    } else {
                        let v = choose|v: u16| self.log() == b8 + #[trigger] read_trace(0x0006, v);
                        let ghost prev = replies;
                        replies = replies.update(7, v);
                        lemma_trace_upto_agree(prev, replies, 8);
                        lemma_rmw_partial_read(0x0006, v, i2s_ctrl_spec(v));
                        lemma_prefix_concat(
                            bring_up_trace_upto(replies, 8),
                            read_trace(0x0006, v),
                            bring_up_piece(replies, 8),
                        );
                        assert(self.log() =~= base0 + (bring_up_trace_upto(replies, 8) + read_trace(
                            0x0006,
                            v,
                        )));
                        lemma_trace_upto_prefix(replies, 9, 9);
                        lemma_prefix_trans(
                            bring_up_trace_upto(replies, 8) + read_trace(0x0006, v),
                            bring_up_trace_upto(replies, 9),
                            bring_up_trace_upto(replies, 9),
                        );
                        lemma_prefix_concat(
                            base0,
                            bring_up_trace_upto(replies, 8) + read_trace(0x0006, v),
                            bring_up_trace_upto(replies, 9),
                        );
                        lemma_prefix_append(base0, bring_up_trace_upto(replies, 8) + read_trace(
                            0x0006,
                            v,
                        ));
                    }
                    assert(old(self).log().is_prefix_of(self.log()));
                    assert(self.log().is_prefix_of(old(self).log() + bring_up_trace_upto(
                        replies,
                        9,
                    )));
                }
                return Err(e);
            },
        }
        proof {
            reveal(bring_up_piece);
            reveal_with_fuel(bring_up_trace_upto, 2);
            let (inp, out) = choose|inp: ChipI2sCtrl, out: ChipI2sCtrl|
                call_ensures(i2s_ctrl_step, (inp,), out) && self.log() == b8 + rmw_trace(
                    0x0006,
                    inp.spec_raw(),
                    out.spec_raw(),
                );
            let ghost prev = replies;
            replies = replies.update(7, inp.spec_raw());
            lemma_trace_upto_agree(prev, replies, 8);
            assert(bring_up_piece(replies, 8) == rmw_trace(
                0x0006,
                inp.spec_raw(),
                i2s_ctrl_spec(inp.spec_raw()),
            ));
            assert(self.log() =~= base0 + bring_up_trace_upto(replies, 9));
        }

        proof {
            reveal(bring_up_piece);
            reveal_with_fuel(bring_up_trace_upto, 2);
            lemma_trace_upto_agree(ref_snap, replies, 3);
            lemma_trace_upto_prefix(replies, 3, 9);
            lemma_prefix_concat(
                base0,
                bring_up_trace_upto(replies, 3),
                bring_up_trace_upto(replies, 9),
            );
            lemma_trace_upto_agree(lo_snap, replies, 4);
            lemma_trace_upto_prefix(replies, 4, 9);
            lemma_prefix_concat(
                base0,
                bring_up_trace_upto(replies, 4),
                bring_up_trace_upto(replies, 9),
            );
            lemma_prefix_keeps(ref_log, self.log(), ref_idx);
            lemma_prefix_keeps(lo_log, self.log(), lo_idx);
            lemma_write_op_decodes(0x0028, ref_val);
            lemma_write_op_decodes(0x002C, lo_val);
            assert(base0.len() <= ref_idx < lo_idx < self.log().len());
            assert(wrote_register(self.log()[ref_idx], 0x0028));
            assert(wrote_register(self.log()[lo_idx], 0x002C));
            assert(ground_refs_written(base0.len() as int, self.log(), VDDA_MV));
            lemma_prefix_refl(self.log());
            lemma_prefix_append(base0, bring_up_trace_upto(replies, 9));
        }
        Ok(())
    }

    /// The second half of the bring-up script: analog power-up,
    /// processing enable, digital power, routing, volume ramp and the
    /// three safe default volumes (script steps 9 to 16).
    #[verifier::rlimit(100)]
    #[verifier::spinoff_prover]
    fn bring_up_back(
        &mut self,
        Ghost(head): Ghost<Seq<u16>>,
        Ghost(base): Ghost<Seq<BusOp>>,
    ) -> (r: Result<(), B::BusErr>)
        requires
            head.len() == 13,
            old(self).log() == base + bring_up_trace_upto(head, 9),
        ensures
            old(self).log().is_prefix_of(final(self).log()),
            exists|replies: Seq<u16>|
                #![trigger bring_up_trace(replies)]
                replies.len() == 13 && final(self).log().is_prefix_of(
                    base + bring_up_trace(replies),
                ),
            r is Ok ==> exists|replies: Seq<u16>|
                #![trigger bring_up_trace(replies)]
                replies.len() == 13 && final(self).log() == base + bring_up_trace(replies),
            r is Ok ==> analog_power_up_written(old(self).log().len() as int, final(self).log()),
    {
        let ghost mut replies: Seq<u16> = head;
        let ghost mut pow_snap: Seq<u16> = replies;
        let ghost mut pow_log: Seq<BusOp> = Seq::empty();
        let ghost mut pow_idx: int = 0;
        let ghost mut pow_val: u16 = 0;

        // Power up the analog blocks, in the required order, after both
        // ground references are configured.
        let ghost b9 = self.log();
        match self.modify_register(ana_power_up_step) {
            Ok(_) => {},
            Err(e) => {
                proof {
                    reveal(bring_up_piece);
                    reveal_with_fuel(bring_up_trace_upto, 2);
                    if self.log() == b9 {
                        lemma_trace_upto_prefix(replies, 9, 17);
                        lemma_prefix_concat(
                            base,
                            bring_up_trace_upto(replies, 9),
                            bring_up_trace_upto(replies, 17),
                        );
                        lemma_prefix_append(base, bring_up_trace_upto(replies, 9));
                        lemma_trace_upto_prefix(replies, 9, 9);
                        lemma_prefix_concat(
                            base,
                            bring_up_trace_upto(replies, 9),
                            bring_up_trace_upto(replies, 9),
                        );
                        lemma_trace_upto_agree(head, replies, 9);
                    } else if self.log() == b9.push(addr_phase_op(0x0030)) {
                        lemma_rmw_partial_addr(0x0030, replies[8], ana_power_up_spec(replies[8]));
                        lemma_prefix_concat(
                            bring_up_trace_upto(replies, 9),
                            seq![addr_phase_op(0x0030)],
                            bring_up_piece(replies, 9),
                        );
                        assert(self.log() =~= base + (bring_up_trace_upto(replies, 9) + seq![
                            addr_phase_op(0x0030),
                        ]));
                        lemma_trace_upto_prefix(replies, 10, 17);
                        lemma_prefix_trans(
                            bring_up_trace_upto(replies, 9) + seq![addr_phase_op(0x0030)],
                            bring_up_trace_upto(replies, 10),
                            bring_up_trace_upto(replies, 17),
                        );
                        lemma_prefix_concat(
                            base,
                            bring_up_trace_upto(replies, 9) + seq![addr_phase_op(0x0030)],
                            bring_up_trace_upto(replies, 17),
                        );
                        lemma_prefix_append(base, bring_up_trace_upto(replies, 9) + seq![
                            addr_phase_op(0x0030),
                        ]);
                        lemma_trace_upto_prefix(replies, 9, 9);
                        lemma_prefix_append(bring_up_trace_upto(replies, 9), seq![addr_phase_op(0x0030)]);
                        lemma_prefix_trans(
                            bring_up_trace_upto(replies, 9),
                            bring_up_trace_upto(replies, 9),
                            bring_up_trace_upto(replies, 9) + seq![addr_phase_op(0x0030)],
                        );
                        lemma_prefix_concat(
                            base,
                            bring_up_trace_upto(replies, 9),
                            bring_up_trace_upto(replies, 9) + seq![addr_phase_op(0x0030)],
                        );
                        lemma_trace_upto_agree(head, replies, 9);
                    } else {
                        let v = choose|v: u16| self.log() == b9 + #[trigger] read_trace(0x0030, v);
                        let ghost prev = replies;
                        replies = replies.update(8, v);
                        lemma_trace_upto_agree(prev, replies, 9);
                        lemma_rmw_partial_read(0x0030, v, ana_power_up_spec(v));
                        lemma_prefix_concat(
                            bring_up_trace_upto(replies, 9),
                            read_trace(0x0030, v),
                            bring_up_piece(replies, 9),
                        );
                        assert(self.log() =~= base + (bring_up_trace_upto(replies, 9) + read_trace(
                            0x0030,
                            v,
                        )));
                        lemma_trace_upto_prefix(replies, 10, 17);
                        lemma_prefix_trans(
                            bring_up_trace_upto(replies, 9) + read_trace(0x0030, v),
                            bring_up_trace_upto(replies, 10),
                            bring_up_trace_upto(replies, 17),
                        );
                        lemma_prefix_concat(
                            base,
                            bring_up_trace_upto(replies, 9) + read_trace(0x0030, v),
                            bring_up_trace_upto(replies, 17),
                        );
                        lemma_prefix_append(base, bring_up_trace_upto(replies, 9) + read_trace(
                            0x0030,
                            v,
                        ));
                        lemma_trace_upto_prefix(replies, 9, 9);
                        lemma_prefix_append(bring_up_trace_upto(replies, 9), read_trace(0x0030, v));
                        lemma_prefix_trans(
                            bring_up_trace_upto(replies, 9),
                            bring_up_trace_upto(replies, 9),
                            bring_up_trace_upto(replies, 9) + read_trace(0x0030, v),
                        );
                        lemma_prefix_concat(
                            base,
                            bring_up_trace_upto(replies, 9),
                            bring_up_trace_upto(replies, 9) + read_trace(0x0030, v),
                        );
                        lemma_trace_upto_agree(head, replies, 9);
                    }
                    assert(old(self).log().is_prefix_of(self.log()));
                    assert(self.log().is_prefix_of(base + bring_up_trace(replies)));
                }
                return Err(e);
            },
        }
        proof {
            reveal(bring_up_piece);
            reveal_with_fuel(bring_up_trace_upto, 2);
            let (inp, out) = choose|inp: ChipAnaPower, out: ChipAnaPower|
                call_ensures(ana_power_up_step, (inp,), out) && self.log() == b9 + rmw_trace(
                    0x0030,
                    inp.spec_raw(),
                    out.spec_raw(),
                );
            let ghost prev = replies;
            replies = replies.update(8, inp.spec_raw());
            lemma_trace_upto_agree(prev, replies, 9);
            assert(bring_up_piece(replies, 9) == rmw_trace(
                0x0030,
                inp.spec_raw(),
                ana_power_up_spec(inp.spec_raw()),
            ));
            assert(self.log() =~= base + bring_up_trace_upto(replies, 10));
            pow_snap = replies;
            pow_log = self.log();
            pow_idx = pow_log.len() - 1;
            pow_val = out.0;
            assert(pow_log[pow_idx] == write_op(0x0030, pow_val));
            assert(spec_get_field(pow_val, 7, 1) == 1);
            assert(spec_get_field(pow_val, 0, 1) == 1);
        }

        // Enable digital audio processing before routing through it.
        let ghost b10 = self.log();
        match self.modify_register(dap_control_step) {
            Ok(_) => {},
            Err(e) => {
                proof {
                    reveal(bring_up_piece);
                    reveal_with_fuel(bring_up_trace_upto, 2);
                    if self.log() == b10 {
                        lemma_trace_upto_prefix(replies, 10, 17);
                        lemma_prefix_concat(
                            base,
                            bring_up_trace_upto(replies, 10),
                            bring_up_trace_upto(replies, 17),
                        );
                        lemma_prefix_append(base, bring_up_trace_upto(replies, 10));
                        lemma_trace_upto_prefix(replies, 9, 10);
                        lemma_prefix_concat(
                            base,
                            bring_up_trace_upto(replies, 9),
                            bring_up_trace_upto(replies, 10),
                        );
                        lemma_trace_upto_agree(head, replies, 9);
                    } else if self.log() == b10.push(addr_phase_op(0x0100)) {
                        lemma_rmw_partial_addr(0x0100, replies[9], dap_control_spec(replies[9]));
                        lemma_prefix_concat(
                            bring_up_trace_upto(replies, 10),
                            seq![addr_phase_op(0x0100)],
                            bring_up_piece(replies, 10),
                        );
                        assert(self.log() =~= base + (bring_up_trace_upto(replies, 10) + seq![
                            addr_phase_op(0x0100),
                        ]));
                        lemma_trace_upto_prefix(replies, 11, 17);
                        lemma_prefix_trans(
                            bring_up_trace_upto(replies, 10) + seq![addr_phase_op(0x0100)],
                            bring_up_trace_upto(replies, 11),
                            bring_up_trace_upto(replies, 17),
                        );
                        lemma_prefix_concat(
                            base,
                            bring_up_trace_upto(replies, 10) + seq![addr_phase_op(0x0100)],
                            bring_up_trace_upto(replies, 17),
                        );
                        lemma_prefix_append(base, bring_up_trace_upto(replies, 10) + seq![
                            addr_phase_op(0x0100),
                        ]);
                        lemma_trace_upto_prefix(replies, 9, 10);
                        lemma_prefix_append(bring_up_trace_upto(replies, 10), seq![addr_phase_op(0x0100)]);
                        lemma_prefix_trans(
                            bring_up_trace_upto(replies, 9),
                            bring_up_trace_upto(replies, 10),
                            bring_up_trace_upto(replies, 10) + seq![addr_phase_op(0x0100)],
                        );
                        lemma_prefix_concat(
                            base,
                            bring_up_trace_upto(replies, 9),
                            bring_up_trace_upto(replies, 10) + seq![addr_phase_op(0x0100)],
                        );
                        lemma_trace_upto_agree(head, replies, 9);
                    } else {
                        let v = choose|v: u16| self.log() == b10 + #[trigger] read_trace(0x0100, v);
                        let ghost prev = replies;
                        replies = replies.update(9, v);
                        lemma_trace_upto_agree(prev, replies, 10);
                        lemma_rmw_partial_read(0x0100, v, dap_control_spec(v));
                        lemma_prefix_concat(
                            bring_up_trace_upto(replies, 10),
                            read_trace(0x0100, v),
                            bring_up_piece(replies, 10),
                        );
                        assert(self.log() =~= base + (bring_up_trace_upto(replies, 10) + read_trace(
                            0x0100,
                            v,
                        )));
                        lemma_trace_upto_prefix(replies, 11, 17);
                        lemma_prefix_trans(
                            bring_up_trace_upto(replies, 10) + read_trace(0x0100, v),
                            bring_up_trace_upto(replies, 11),
                            bring_up_trace_upto(replies, 17),
                        );
                        lemma_prefix_concat(
                            base,
                            bring_up_trace_upto(replies, 10) + read_trace(0x0100, v),
                            bring_up_trace_upto(replies, 17),
                        );
                        lemma_prefix_append(base, bring_up_trace_upto(replies, 10) + read_trace(
                            0x0100,
                            v,
                        ));
                        lemma_trace_upto_prefix(replies, 9, 10);
                        lemma_prefix_append(bring_up_trace_upto(replies, 10), read_trace(0x0100, v));
                        lemma_prefix_trans(
                            bring_up_trace_upto(replies, 9),
                            bring_up_trace_upto(replies, 10),
                            bring_up_trace_upto(replies, 10) + read_trace(0x0100, v),
                        );
                        lemma_prefix_concat(
                            base,
                            bring_up_trace_upto(replies, 9),
                            bring_up_trace_upto(replies, 10) + read_trace(0x0100, v),
                        );
                        lemma_trace_upto_agree(head, replies, 9);
                    }
                    assert(old(self).log().is_prefix_of(self.log()));
                    assert(self.log().is_prefix_of(base + bring_up_trace(replies)));
                }
                return Err(e);
            },
        }
        proof {
            reveal(bring_up_piece);
            reveal_with_fuel(bring_up_trace_upto, 2);
            let (inp, out) = choose|inp: DapControl, out: DapControl|
                call_ensures(dap_control_step, (inp,), out) && self.log() == b10 + rmw_trace(
                    0x0100,
                    inp.spec_raw(),
                    out.spec_raw(),
                );
            let ghost prev = replies;
            replies = replies.update(9, inp.spec_raw());
            lemma_trace_upto_agree(prev, replies, 10);
            assert(bring_up_piece(replies, 10) == rmw_trace(
                0x0100,
                inp.spec_raw(),
                dap_control_spec(inp.spec_raw()),
            ));
            assert(self.log() =~= base + bring_up_trace_upto(replies, 11));
        }

        // Power up the digital blocks that the routing uses.
        let ghost b11 = self.log();
        match self.modify_register(dig_power_step) {
            Ok(_) => {},
            Err(e) => {
                proof {
                    reveal(bring_up_piece);
                    reveal_with_fuel(bring_up_trace_upto, 2);
                    if self.log() == b11 {
                        lemma_trace_upto_prefix(replies, 11, 17);
                        lemma_prefix_concat(
                            base,
                            bring_up_trace_upto(replies, 11),
                            bring_up_trace_upto(replies, 17),
                        );
                        lemma_prefix_append(base, bring_up_trace_upto(replies, 11));
                        lemma_trace_upto_prefix(replies, 9, 11);
                        lemma_prefix_concat(
                            base,
                            bring_up_trace_upto(replies, 9),
                            bring_up_trace_upto(replies, 11),
                        );
                        lemma_trace_upto_agree(head, replies, 9);
                    } else if self.log() == b11.push(addr_phase_op(0x0002)) {
                        lemma_rmw_partial_addr(0x0002, replies[10], dig_power_spec(replies[10]));
                        lemma_prefix_concat(
                            bring_up_trace_upto(replies, 11),
                            seq![addr_phase_op(0x0002)],
                            bring_up_piece(replies, 11),
                        );
                        assert(self.log() =~= base + (bring_up_trace_upto(replies, 11) + seq![
                            addr_phase_op(0x0002),
                        ]));
                        lemma_trace_upto_prefix(replies, 12, 17);
                        lemma_prefix_trans(
                            bring_up_trace_upto(replies, 11) + seq![addr_phase_op(0x0002)],
                            bring_up_trace_upto(replies, 12),
                            bring_up_trace_upto(replies, 17),
                        );
                        lemma_prefix_concat(
                            base,
                            bring_up_trace_upto(replies, 11) + seq![addr_phase_op(0x0002)],
                            bring_up_trace_upto(replies, 17),
                        );
                        lemma_prefix_append(base, bring_up_trace_upto(replies, 11) + seq![
                            addr_phase_op(0x0002),
                        ]);
                        lemma_trace_upto_prefix(replies, 9, 11);
                        lemma_prefix_append(bring_up_trace_upto(replies, 11), seq![addr_phase_op(0x0002)]);
                        lemma_prefix_trans(
                            bring_up_trace_upto(replies, 9),
                            bring_up_trace_upto(replies, 11),
                            bring_up_trace_upto(replies, 11) + seq![addr_phase_op(0x0002)],
                        );
                        lemma_prefix_concat(
                            base,
                            bring_up_trace_upto(replies, 9),
                            bring_up_trace_upto(replies, 11) + seq![addr_phase_op(0x0002)],
                        );
                        lemma_trace_upto_agree(head, replies, 9);
                    } else {
                        let v = choose|v: u16| self.log() == b11 + #[trigger] read_trace(0x0002, v);
                        let ghost prev = replies;
                        replies = replies.update(10, v);
                        lemma_trace_upto_agree(prev, replies, 11);
                        lemma_rmw_partial_read(0x0002, v, dig_power_spec(v));
                        lemma_prefix_concat(
                            bring_up_trace_upto(replies, 11),
                            read_trace(0x0002, v),
                            bring_up_piece(replies, 11),
                        );
                        assert(self.log() =~= base + (bring_up_trace_upto(replies, 11) + read_trace(
                            0x0002,
                            v,
                        )));
                        lemma_trace_upto_prefix(replies, 12, 17);
                        lemma_prefix_trans(
                            bring_up_trace_upto(replies, 11) + read_trace(0x0002, v),
                            bring_up_trace_upto(replies, 12),
                            bring_up_trace_upto(replies, 17),
                        );
                        lemma_prefix_concat(
                            base,
                            bring_up_trace_upto(replies, 11) + read_trace(0x0002, v),
                            bring_up_trace_upto(replies, 17),
                        );
                        lemma_prefix_append(base, bring_up_trace_upto(replies, 11) + read_trace(
                            0x0002,
                            v,
                        ));
                        lemma_trace_upto_prefix(replies, 9, 11);
                        lemma_prefix_append(bring_up_trace_upto(replies, 11), read_trace(0x0002, v));
                        lemma_prefix_trans(
                            bring_up_trace_upto(replies, 9),
                            bring_up_trace_upto(replies, 11),
                            bring_up_trace_upto(replies, 11) + read_trace(0x0002, v),
                        );
                        lemma_prefix_concat(
                            base,
                            bring_up_trace_upto(replies, 9),
                            bring_up_trace_upto(replies, 11) + read_trace(0x0002, v),
                        );
                        lemma_trace_upto_agree(head, replies, 9);
                    }
                    assert(old(self).log().is_prefix_of(self.log()));
                    assert(self.log().is_prefix_of(base + bring_up_trace(replies)));
                }
                return Err(e);
            },
        }
        proof {
            reveal(bring_up_piece);
            reveal_with_fuel(bring_up_trace_upto, 2);
            let (inp, out) = choose|inp: ChipDigPower, out: ChipDigPower|
                call_ensures(dig_power_step, (inp,), out) && self.log() == b11 + rmw_trace(
                    0x0002,
                    inp.spec_raw(),
                    out.spec_raw(),
                );
            let ghost prev = replies;
            replies = replies.update(10, inp.spec_raw());
            lemma_trace_upto_agree(prev, replies, 11);
            assert(bring_up_piece(replies, 11) == rmw_trace(
                0x0002,
                inp.spec_raw(),
                dig_power_spec(inp.spec_raw()),
            ));
            assert(self.log() =~= base + bring_up_trace_upto(replies, 12));
        }

        // Routing: the interface feeds the processor, the processor the DAC.
        let ghost b12 = self.log();
        match self.modify_register(sss_ctrl_step) {
            Ok(_) => {},
            Err(e) => {
                proof {
                    reveal(bring_up_piece);
                    reveal_with_fuel(bring_up_trace_upto, 2);
                    if self.log() == b12 {
                        lemma_trace_upto_prefix(replies, 12, 17);
                        lemma_prefix_concat(
                            base,
                            bring_up_trace_upto(replies, 12),
                            bring_up_trace_upto(replies, 17),
                        );
                        lemma_prefix_append(base, bring_up_trace_upto(replies, 12));
                        lemma_trace_upto_prefix(replies, 9, 12);
                        lemma_prefix_concat(
                            base,
                            bring_up_trace_upto(replies, 9),
                            bring_up_trace_upto(replies, 12),
                        );
                        lemma_trace_upto_agree(head, replies, 9);
                    } else if self.log() == b12.push(addr_phase_op(0x000A)) {
                        lemma_rmw_partial_addr(0x000A, replies[11], sss_ctrl_spec(replies[11]));
                        lemma_prefix_concat(
                            bring_up_trace_upto(replies, 12),
                            seq![addr_phase_op(0x000A)],
                            bring_up_piece(replies, 12),
                        );
                        assert(self.log() =~= base + (bring_up_trace_upto(replies, 12) + seq![
                            addr_phase_op(0x000A),
                        ]));
                        lemma_trace_upto_prefix(replies, 13, 17);
                        lemma_prefix_trans(
                            bring_up_trace_upto(replies, 12) + seq![addr_phase_op(0x000A)],
                            bring_up_trace_upto(replies, 13),
                            bring_up_trace_upto(replies, 17),
                        );
                        lemma_prefix_concat(
                            base,
                            bring_up_trace_upto(replies, 12) + seq![addr_phase_op(0x000A)],
                            bring_up_trace_upto(replies, 17),
                        );
                        lemma_prefix_append(base, bring_up_trace_upto(replies, 12) + seq![
                            addr_phase_op(0x000A),
                        ]);
                        lemma_trace_upto_prefix(replies, 9, 12);
                        lemma_prefix_append(bring_up_trace_upto(replies, 12), seq![addr_phase_op(0x000A)]);
                        lemma_prefix_trans(
                            bring_up_trace_upto(replies, 9),
                            bring_up_trace_upto(replies, 12),
                            bring_up_trace_upto(replies, 12) + seq![addr_phase_op(0x000A)],
                        );
                        lemma_prefix_concat(
                            base,
                            bring_up_trace_upto(replies, 9),
                            bring_up_trace_upto(replies, 12) + seq![addr_phase_op(0x000A)],
                        );
                        lemma_trace_upto_agree(head, replies, 9);
                    } else {
                        let v = choose|v: u16| self.log() == b12 + #[trigger] read_trace(0x000A, v);
                        let ghost prev = replies;
                        replies = replies.update(11, v);
                        lemma_trace_upto_agree(prev, replies, 12);
                        lemma_rmw_partial_read(0x000A, v, sss_ctrl_spec(v));
                        lemma_prefix_concat(
                            bring_up_trace_upto(replies, 12),
                            read_trace(0x000A, v),
                            bring_up_piece(replies, 12),
                        );
                        assert(self.log() =~= base + (bring_up_trace_upto(replies, 12) + read_trace(
                            0x000A,
                            v,
                        )));
                        lemma_trace_upto_prefix(replies, 13, 17);
                        lemma_prefix_trans(
                            bring_up_trace_upto(replies, 12) + read_trace(0x000A, v),
                            bring_up_trace_upto(replies, 13),
                            bring_up_trace_upto(replies, 17),
                        );
                        lemma_prefix_concat(
                            base,
                            bring_up_trace_upto(replies, 12) + read_trace(0x000A, v),
                            bring_up_trace_upto(replies, 17),
                        );
                        lemma_prefix_append(base, bring_up_trace_upto(replies, 12) + read_trace(
                            0x000A,
                            v,
                        ));
                        lemma_trace_upto_prefix(replies, 9, 12);
                        lemma_prefix_append(bring_up_trace_upto(replies, 12), read_trace(0x000A, v));
                        lemma_prefix_trans(
                            bring_up_trace_upto(replies, 9),
                            bring_up_trace_upto(replies, 12),
                            bring_up_trace_upto(replies, 12) + read_trace(0x000A, v),
                        );
                        lemma_prefix_concat(
                            base,
                            bring_up_trace_upto(replies, 9),
                            bring_up_trace_upto(replies, 12) + read_trace(0x000A, v),
                        );
                        lemma_trace_upto_agree(head, replies, 9);
                    }
                    assert(old(self).log().is_prefix_of(self.log()));
                    assert(self.log().is_prefix_of(base + bring_up_trace(replies)));
                }
                return Err(e);
            },
        }
        proof {
            reveal(bring_up_piece);
            reveal_with_fuel(bring_up_trace_upto, 2);
            let (inp, out) = choose|inp: ChipSssCtrl, out: ChipSssCtrl|
                call_ensures(sss_ctrl_step, (inp,), out) && self.log() == b12 + rmw_trace(
                    0x000A,
                    inp.spec_raw(),
                    out.spec_raw(),
                );
            let ghost prev = replies;
            replies = replies.update(11, inp.spec_raw());
            lemma_trace_upto_agree(prev, replies, 12);
            assert(bring_up_piece(replies, 12) == rmw_trace(
                0x000A,
                inp.spec_raw(),
                sss_ctrl_spec(inp.spec_raw()),
            ));
            assert(self.log() =~= base + bring_up_trace_upto(replies, 13));
        }

        // Volume ramping on, both DAC channels unmuted.
        let ghost b13 = self.log();
        match self.modify_register(adcdac_ctrl_step) {
            Ok(_) => {},
            Err(e) => {
                proof {
                    reveal(bring_up_piece);
                    reveal_with_fuel(bring_up_trace_upto, 2);
                    if self.log() == b13 {
                        lemma_trace_upto_prefix(replies, 13, 17);
                        lemma_prefix_concat(
                            base,
                            bring_up_trace_upto(replies, 13),
                            bring_up_trace_upto(replies, 17),
                        );
                        lemma_prefix_append(base, bring_up_trace_upto(replies, 13));
                        lemma_trace_upto_prefix(replies, 9, 13);
                        lemma_prefix_concat(
                            base,
                            bring_up_trace_upto(replies, 9),
                            bring_up_trace_upto(replies, 13),
                        );
                        lemma_trace_upto_agree(head, replies, 9);
                    } else if self.log() == b13.push(addr_phase_op(0x000E)) {
                        lemma_rmw_partial_addr(0x000E, replies[12], adcdac_ctrl_spec(replies[12]));
                        lemma_prefix_concat(
                            bring_up_trace_upto(replies, 13),
                            seq![addr_phase_op(0x000E)],
                            bring_up_piece(replies, 13),
                        );
                        assert(self.log() =~= base + (bring_up_trace_upto(replies, 13) + seq![
                            addr_phase_op(0x000E),
                        ]));
                        lemma_trace_upto_prefix(replies, 14, 17);
                        lemma_prefix_trans(
                            bring_up_trace_upto(replies, 13) + seq![addr_phase_op(0x000E)],
                            bring_up_trace_upto(replies, 14),
                            bring_up_trace_upto(replies, 17),
                        );
                        lemma_prefix_concat(
                            base,
                            bring_up_trace_upto(replies, 13) + seq![addr_phase_op(0x000E)],
                            bring_up_trace_upto(replies, 17),
                        );
                        lemma_prefix_append(base, bring_up_trace_upto(replies, 13) + seq![
                            addr_phase_op(0x000E),
                        ]);
                        lemma_trace_upto_prefix(replies, 9, 13);
                        lemma_prefix_append(bring_up_trace_upto(replies, 13), seq![addr_phase_op(0x000E)]);
                        lemma_prefix_trans(
                            bring_up_trace_upto(replies, 9),
                            bring_up_trace_upto(replies, 13),
                            bring_up_trace_upto(replies, 13) + seq![addr_phase_op(0x000E)],
                        );
                        lemma_prefix_concat(
                            base,
                            bring_up_trace_upto(replies, 9),
                            bring_up_trace_upto(replies, 13) + seq![addr_phase_op(0x000E)],
                        );
                        lemma_trace_upto_agree(head, replies, 9);
                    } else {
                        let v = choose|v: u16| self.log() == b13 + #[trigger] read_trace(0x000E, v);
                        let ghost prev = replies;
                        replies = replies.update(12, v);
                        lemma_trace_upto_agree(prev, replies, 13);
                        lemma_rmw_partial_read(0x000E, v, adcdac_ctrl_spec(v));
                        lemma_prefix_concat(
                            bring_up_trace_upto(replies, 13),
                            read_trace(0x000E, v),
                            bring_up_piece(replies, 13),
                        );
                        assert(self.log() =~= base + (bring_up_trace_upto(replies, 13) + read_trace(
                            0x000E,
                            v,
                        )));
                        lemma_trace_upto_prefix(replies, 14, 17);
                        lemma_prefix_trans(
                            bring_up_trace_upto(replies, 13) + read_trace(0x000E, v),
                            bring_up_trace_upto(replies, 14),
                            bring_up_trace_upto(replies, 17),
                        );
                        lemma_prefix_concat(
                            base,
                            bring_up_trace_upto(replies, 13) + read_trace(0x000E, v),
                            bring_up_trace_upto(replies, 17),
                        );
                        lemma_prefix_append(base, bring_up_trace_upto(replies, 13) + read_trace(
                            0x000E,
                            v,
                        ));
                        lemma_trace_upto_prefix(replies, 9, 13);
                        lemma_prefix_append(bring_up_trace_upto(replies, 13), read_trace(0x000E, v));
                        lemma_prefix_trans(
                            bring_up_trace_upto(replies, 9),
                            bring_up_trace_upto(replies, 13),
                            bring_up_trace_upto(replies, 13) + read_trace(0x000E, v),
                        );
                        lemma_prefix_concat(
                            base,
                            bring_up_trace_upto(replies, 9),
                            bring_up_trace_upto(replies, 13) + read_trace(0x000E, v),
                        );
                        lemma_trace_upto_agree(head, replies, 9);
                    }
                    assert(old(self).log().is_prefix_of(self.log()));
                    assert(self.log().is_prefix_of(base + bring_up_trace(replies)));
                }
                return Err(e);
            },
        }
        proof {
            reveal(bring_up_piece);
            reveal_with_fuel(bring_up_trace_upto, 2);
            let (inp, out) = choose|inp: ChipAdcdacCtrl, out: ChipAdcdacCtrl|
                call_ensures(adcdac_ctrl_step, (inp,), out) && self.log() == b13 + rmw_trace(
                    0x000E,
                    inp.spec_raw(),
                    out.spec_raw(),
                );
            let ghost prev = replies;
            replies = replies.update(12, inp.spec_raw());
            lemma_trace_upto_agree(prev, replies, 13);
            assert(bring_up_piece(replies, 13) == rmw_trace(
                0x000E,
                inp.spec_raw(),
                adcdac_ctrl_spec(inp.spec_raw()),
            ));
            assert(self.log() =~= base + bring_up_trace_upto(replies, 14));
        }

        // Safe default volumes: headphone, line-out, then DAC.
        let ghost b14 = self.log();
        let mut ana_hp_ctrl = ChipAnaHpCtrl::new(0);
        ana_hp_ctrl.set_hp_vol_right(0x18);
        ana_hp_ctrl.set_hp_vol_left(0x18);
        proof {
            assert(spec_set_field(spec_set_field(0u16, 8, 7, 0x18), 0, 7, 0x18) == 0x1818) by (bit_vector);
        }
        match self.write_register(ana_hp_ctrl) {
            Ok(_) => {},
            Err(e) => {
                proof {
                    reveal(bring_up_piece);
                    reveal_with_fuel(bring_up_trace_upto, 2);
                    lemma_trace_upto_prefix(replies, 14, 17);
                    lemma_prefix_concat(
                        base,
                        bring_up_trace_upto(replies, 14),
                        bring_up_trace_upto(replies, 17),
                    );
                    lemma_prefix_append(base, bring_up_trace_upto(replies, 14));
                    lemma_trace_upto_prefix(replies, 9, 14);
                    lemma_prefix_concat(
                        base,
                        bring_up_trace_upto(replies, 9),
                        bring_up_trace_upto(replies, 14),
                    );
                    lemma_trace_upto_agree(head, replies, 9);
                    assert(old(self).log().is_prefix_of(self.log()));
                    assert(self.log().is_prefix_of(base + bring_up_trace(replies)));
                }
                return Err(e);
            },
        }
        proof {
            reveal(bring_up_piece);
            reveal_with_fuel(bring_up_trace_upto, 2);
            lemma_prefix_push(b14, write_op(0x0022, ana_hp_ctrl.0));
            assert(self.log() =~= base + bring_up_trace_upto(replies, 15));
        }

        let ghost b15 = self.log();
        let mut line_out_vol = ChipLineOutVol::new(0);
        line_out_vol.set_lo_vol_right(0x19);
        line_out_vol.set_lo_vol_left(0x19);
        proof {
            assert(spec_set_field(spec_set_field(0u16, 8, 5, 0x19), 0, 5, 0x19) == 0x1919) by (bit_vector);
        }
        match self.write_register(line_out_vol) {
            Ok(_) => {},
            Err(e) => {
                proof {
                    reveal(bring_up_piece);
                    reveal_with_fuel(bring_up_trace_upto, 2);
                    lemma_trace_upto_prefix(replies, 15, 17);
                    lemma_prefix_concat(
                        base,
                        bring_up_trace_upto(replies, 15),
                        bring_up_trace_upto(replies, 17),
                    );
                    lemma_prefix_append(base, bring_up_trace_upto(replies, 15));
                    lemma_trace_upto_prefix(replies, 9, 15);
                    lemma_prefix_concat(
                        base,
                        bring_up_trace_upto(replies, 9),
                        bring_up_trace_upto(replies, 15),
                    );
                    lemma_trace_upto_agree(head, replies, 9);
                    assert(old(self).log().is_prefix_of(self.log()));
                    assert(self.log().is_prefix_of(base + bring_up_trace(replies)));
                }
                return Err(e);
            },
        }
        proof {
            reveal(bring_up_piece);
            reveal_with_fuel(bring_up_trace_upto, 2);
            lemma_prefix_push(b15, write_op(0x002E, line_out_vol.0));
            assert(self.log() =~= base + bring_up_trace_upto(replies, 16));
        }

        let ghost b16 = self.log();
        let mut dac_vol = ChipDacVol::new(0);
        dac_vol.set_dac_vol_right(0x3C);
        dac_vol.set_dac_vol_left(0x3C);
        proof {
            assert(spec_set_field(spec_set_field(0u16, 8, 8, 0x3C), 0, 8, 0x3C) == 0x3C3C) by (bit_vector);
        }
        match self.write_register(dac_vol) {
            Ok(_) => {},
            Err(e) => {
                proof {
                    reveal(bring_up_piece);
                    reveal_with_fuel(bring_up_trace_upto, 2);
                    lemma_trace_upto_prefix(replies, 16, 17);
                    lemma_prefix_concat(
                        base,
                        bring_up_trace_upto(replies, 16),
                        bring_up_trace_upto(replies, 17),
                    );
                    lemma_prefix_append(base, bring_up_trace_upto(replies, 16));
                    lemma_trace_upto_prefix(replies, 9, 16);
                    lemma_prefix_concat(
                        base,
                        bring_up_trace_upto(replies, 9),
                        bring_up_trace_upto(replies, 16),
                    );
                    lemma_trace_upto_agree(head, replies, 9);
                    assert(old(self).log().is_prefix_of(self.log()));
                    assert(self.log().is_prefix_of(base + bring_up_trace(replies)));
                }
                return Err(e);
            },
        }
        proof {
            reveal(bring_up_piece);
            reveal_with_fuel(bring_up_trace_upto, 2);
            lemma_prefix_push(b16, write_op(0x0010, dac_vol.0));
            assert(self.log() =~= base + bring_up_trace_upto(replies, 17));
        }

        proof {
            reveal(bring_up_piece);
            reveal_with_fuel(bring_up_trace_upto, 2);
            lemma_trace_upto_agree(pow_snap, replies, 10);
            lemma_trace_upto_prefix(replies, 10, 17);
            lemma_prefix_concat(
                base,
                bring_up_trace_upto(replies, 10),
                bring_up_trace_upto(replies, 17),
            );
            lemma_prefix_keeps(pow_log, self.log(), pow_idx);
            lemma_write_op_decodes(0x0030, pow_val);
            assert(old(self).log().len() <= pow_idx < self.log().len());
            assert(wrote_register(self.log()[pow_idx], 0x0030));
            assert(analog_power_up_written(old(self).log().len() as int, self.log()));
            lemma_prefix_refl(self.log());
            lemma_trace_upto_agree(head, replies, 9);
            lemma_trace_upto_prefix(replies, 9, 17);
            lemma_prefix_concat(
                base,
                bring_up_trace_upto(replies, 9),
                bring_up_trace_upto(replies, 17),
            );
            assert(self.log() == base + bring_up_trace(replies));
            assert(self.log().is_prefix_of(base + bring_up_trace(replies)));
        }
        Ok(())
    }

    /// The ordered bring-up, from the power-on state to the operating
    /// configuration: the identification gate, then the seventeen-step
    /// script of `bring_up_trace`, run in two halves. Any bus failure
    /// aborts at once — the log never holds more than the identification
    /// read and a prefix of the script, in script order — and the bus
    /// error is passed up unchanged; an identity mismatch aborts before
    /// any register write.
    #[verifier::rlimit(100)]
    #[verifier::spinoff_prover]
    pub fn init(&mut self) -> (r: Result<(), Error<B::BusErr>>)
        ensures
            old(self).log().is_prefix_of(final(self).log()),
            exists|v0: u16, replies: Seq<u16>|
                #![trigger read_trace(0x0000, v0), bring_up_trace(replies)]
                replies.len() == 13 && final(self).log().is_prefix_of(
                    old(self).log() + read_trace(0x0000, v0) + bring_up_trace(replies),
                ),
            r matches Err(Error::Identification) ==> exists|v: u16|
                spec_get_field(v, 8, 8) != PART_ID && final(self).log() == old(self).log()
                    + read_trace(0x0000, v),
            r is Ok ==> exists|v0: u16, replies: Seq<u16>|
                #![trigger read_trace(0x0000, v0), bring_up_trace(replies)]
                replies.len() == 13 && spec_get_field(v0, 8, 8) == PART_ID && final(self).log()
                    == old(self).log() + read_trace(0x0000, v0) + bring_up_trace(replies),
            r is Ok ==> bring_up_ordered(
                old(self).log().len() as int,
                final(self).log(),
                VDDA_MV,
            ),
    {
        let ghost pre0 = self.log();
        let ghost zeros: Seq<u16> = seq![0u16, 0, 0, 0, 0, 0, 0, 0, 0, 0, 0, 0, 0];

        // The identification gate: the only validated read.
        let chip_id: ChipId = match self.read_register() {
            Ok(reg) => reg,
            Err(e) => {
                proof {
                    if self.log() == pre0 {
                        lemma_prefix_refl(pre0);
                        lemma_prefix_append(pre0, read_trace(0x0000, 0));
                    } else {
                        lemma_prefix_push(pre0, addr_phase_op(0x0000));
                        lemma_read_partial_addr(0x0000, 0);
                        lemma_prefix_concat(
                            pre0,
                            seq![addr_phase_op(0x0000)],
                            read_trace(0x0000, 0),
                        );
                        assert(self.log() =~= pre0 + seq![addr_phase_op(0x0000)]);
                    }
                    lemma_prefix_append(pre0 + read_trace(0x0000, 0), bring_up_trace(zeros));
                    lemma_prefix_trans(
                        self.log(),
                        pre0 + read_trace(0x0000, 0),
                        pre0 + read_trace(0x0000, 0) + bring_up_trace(zeros),
                    );
                }
                return Err(Error::I2cError(e));
            },
        };
        let ghost idlog = self.log();
        proof {
            lemma_prefix_append(pre0, read_trace(0x0000, chip_id.0));
        }
        if chip_id.partid() != 0xA0 {
            proof {
                assert(spec_get_field(chip_id.0, 8, 8) != PART_ID && self.log() == pre0
                    + read_trace(0x0000, chip_id.0));
                lemma_prefix_refl(self.log());
                lemma_prefix_append(idlog, bring_up_trace(zeros));
                assert(self.log().is_prefix_of(old(self).log() + read_trace(0x0000, chip_id.0)
                    + bring_up_trace(zeros)));
            }
            return Err(Error::Identification);
        }

        match self.bring_up_front() {
            Ok(_) => {},
            Err(e) => {
                proof {
                    let replies = choose|replies: Seq<u16>|
                        replies.len() == 13 && self.log().is_prefix_of(
                            idlog + #[trigger] bring_up_trace_upto(replies, 9),
                        );
                    lemma_trace_upto_prefix(replies, 9, 17);
                    lemma_prefix_concat(
                        idlog,
                        bring_up_trace_upto(replies, 9),
                        bring_up_trace_upto(replies, 17),
                    );
                    lemma_prefix_trans(
                        self.log(),
                        idlog + bring_up_trace_upto(replies, 9),
                        idlog + bring_up_trace_upto(replies, 17),
                    );
                    assert(self.log().is_prefix_of(old(self).log() + read_trace(0x0000, chip_id.0)
                        + bring_up_trace(replies)));
                    lemma_prefix_trans(pre0, idlog, self.log());
                }
                return Err(Error::I2cError(e));
            },
        }
        let ghost front_log = self.log();
        let ghost head = choose|replies: Seq<u16>|
            replies.len() == 13 && front_log == idlog + #[trigger] bring_up_trace_upto(replies, 9);
        match self.bring_up_back(Ghost(head), Ghost(idlog)) {
            Ok(_) => {},
            Err(e) => {
                proof {
                    let replies = choose|replies: Seq<u16>|
                        replies.len() == 13 && self.log().is_prefix_of(
                            idlog + #[trigger] bring_up_trace(replies),
                        );
                    assert(self.log().is_prefix_of(old(self).log() + read_trace(0x0000, chip_id.0)
                        + bring_up_trace(replies)));
                    lemma_prefix_trans(pre0, idlog, front_log);
                    lemma_prefix_trans(pre0, front_log, self.log());
                }
                return Err(Error::I2cError(e));
            },
        }
        proof {
            let replies = choose|replies: Seq<u16>|
                replies.len() == 13 && self.log() == idlog + #[trigger] bring_up_trace(replies);
            assert(self.log() == old(self).log() + read_trace(0x0000, chip_id.0)
                + bring_up_trace(replies));
            assert(spec_get_field(chip_id.0, 8, 8) == PART_ID);
            lemma_prefix_refl(self.log());
            assert(self.log().is_prefix_of(old(self).log() + read_trace(0x0000, chip_id.0)
                + bring_up_trace(replies)));
            lemma_prefix_trans(pre0, idlog, front_log);
            lemma_prefix_trans(pre0, front_log, self.log());
            // The three ordered writes, carried over from the two halves.
            let (i, j) = choose|i: int, j: int|
                #![trigger front_log[i], front_log[j]]
                {
                    &&& idlog.len() <= i < j < front_log.len()
                    &&& wrote_register(front_log[i], 0x0028)
                    &&& spec_get_field(written_value(front_log[i]), 4, 5) == spec_cap(
                        spec_vag_code(VDDA_MV),
                        0x1F,
                    )
                    &&& spec_get_field(written_value(front_log[i]), 1, 3) == 1
                    &&& wrote_register(front_log[j], 0x002C)
                    &&& spec_get_field(written_value(front_log[j]), 0, 6) == spec_cap(
                        spec_vag_code(VDDA_MV),
                        0x23,
                    )
                };
            let k = choose|k: int|
                #![trigger self.log()[k]]
                {
                    &&& front_log.len() <= k < self.log().len()
                    &&& wrote_register(self.log()[k], 0x0030)
                    &&& spec_get_field(written_value(self.log()[k]), 7, 1) == 1
                    &&& spec_get_field(written_value(self.log()[k]), 0, 1) == 1
                };
            lemma_prefix_keeps(front_log, self.log(), i);
            lemma_prefix_keeps(front_log, self.log(), j);
            assert(bring_up_ordered(pre0.len() as int, self.log(), VDDA_MV));
        }
        Ok(())
    }




    /// Wrap a bus without touching it; `init` then runs the bring-up.
    pub fn on_bus(i2c: B) -> (c: Self)
        ensures
            c.log() == i2c.log(),
    {
        SGTL5000Control { i2c }
    }

    /// Construct the controller on a bus and run the ordered bring-up.
    pub fn new(i2c: B) -> (r: Result<Self, Error<B::BusErr>>)
        ensures
            r matches Ok(c) ==> i2c.log().is_prefix_of(c.log()),
            r matches Ok(c) ==> exists|v0: u16, replies: Seq<u16>|
                #![trigger read_trace(0x0000, v0), bring_up_trace(replies)]
                replies.len() == 13 && spec_get_field(v0, 8, 8) == PART_ID && c.log() == i2c.log()
                    + read_trace(0x0000, v0) + bring_up_trace(replies),
            r matches Ok(c) ==> bring_up_ordered(i2c.log().len() as int, c.log(), VDDA_MV),
    {
        let mut sgtl5000 = Self::on_bus(i2c);
        match sgtl5000.init() {
            Ok(_) => Ok(sgtl5000),
            Err(e) => Err(e),
        }
    }

    /// Set the DAC digital volume for both channels in one register write.
    pub fn set_dac_vol(&mut self, v: Volume) -> (r: Result<(), B::BusErr>)
        ensures
            r is Ok ==> final(self).log() == old(self).log().push(
                write_op(
                    0x0010,
                    spec_set_field(
                        spec_set_field(0, 0, 8, spec_rescale(v.left, 0xFC, 0x3C) as u16),
                        8,
                        8,
                        spec_rescale(v.right, 0xFC, 0x3C) as u16,
                    ),
                ),
            ),
            r is Err ==> final(self).log() == old(self).log(),
    {
        let (left, right) = v.to_range(0xFC, 0x3C);
        let mut dac_vol = ChipDacVol::new(0);
        dac_vol.set_dac_vol_left(left);
        dac_vol.set_dac_vol_right(right);
        self.write_register(dac_vol)
    }

    /// Set the line-out analog volume for both channels in one register
    /// write.
    pub fn set_lineout_vol(&mut self, v: Volume) -> (r: Result<(), B::BusErr>)
        ensures
            r is Ok ==> final(self).log() == old(self).log().push(
                write_op(
                    0x002E,
                    spec_set_field(
                        spec_set_field(0, 0, 5, spec_rescale(v.left, 0, 0x1F) as u16),
                        8,
                        5,
                        spec_rescale(v.right, 0, 0x1F) as u16,
                    ),
                ),
            ),
            r is Err ==> final(self).log() == old(self).log(),
    {
        let (left, right) = v.to_range(0, 0x1F);
        let mut line_out_vol = ChipLineOutVol::new(0);
        line_out_vol.set_lo_vol_left(left);
        line_out_vol.set_lo_vol_right(right);
        self.write_register(line_out_vol)
    }

    /// Set the headphone analog volume for both channels in one register
    /// write.
    pub fn set_hp_vol(&mut self, v: Volume) -> (r: Result<(), B::BusErr>)
        ensures
            r is Ok ==> final(self).log() == old(self).log().push(
                write_op(
                    0x0022,
                    spec_set_field(
                        spec_set_field(0, 0, 7, spec_rescale(v.left, 0x7F, 0) as u16),
                        8,
                        7,
                        spec_rescale(v.right, 0x7F, 0) as u16,
                    ),
                ),
            ),
            r is Err ==> final(self).log() == old(self).log(),
    {
        let (left, right) = v.to_range(0x7F, 0);
        let mut ana_hp_ctrl = ChipAnaHpCtrl::new(0);
        ana_hp_ctrl.set_hp_vol_left(left);
        ana_hp_ctrl.set_hp_vol_right(right);
        self.write_register(ana_hp_ctrl)
    }
}


/// The codec as one device: construction runs the bring-up.
pub struct SGTL5000<B: I2cBus> {
    pub control: SGTL5000Control<B>,
}

impl<B: I2cBus> SGTL5000<B> {
    /// Bring the device up on the given bus.
    pub fn new(i2c: B) -> (r: Result<Self, Error<B::BusErr>>)
        ensures
            r matches Ok(d) ==> i2c.log().is_prefix_of(d.control.log()),
            r matches Ok(d) ==> exists|v0: u16, replies: Seq<u16>|
                #![trigger read_trace(0x0000, v0), bring_up_trace(replies)]
                replies.len() == 13 && spec_get_field(v0, 8, 8) == PART_ID && d.control.log()
                    == i2c.log() + read_trace(0x0000, v0) + bring_up_trace(replies),
            r matches Ok(d) ==> bring_up_ordered(
                i2c.log().len() as int,
                d.control.log(),
                VDDA_MV,
            ),
    {
        let control = SGTL5000Control::new(i2c)?;
        Ok(SGTL5000 { control })
    }
}

} // verus!
