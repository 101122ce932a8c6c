use std::cell::RefCell;
use std::rc::Rc;
use sgtl5000::bus::I2cBus;
use sgtl5000::bus::be_bytes;
use sgtl5000::bus::be_decode;
use sgtl5000::bus::wire_bytes;
use sgtl5000::control::SGTL5000;
use sgtl5000::control::SGTL5000Control;
use sgtl5000::error::Error;
use sgtl5000::volume::Volume;

#[derive(Clone, Debug, PartialEq)]
enum BusRecord {
    Write(u8, Vec<u8>),
    Read(u8, Vec<u8>),
}

struct MockBus {
    records: Rc<RefCell<Vec<BusRecord>>>,
    replies: Rc<RefCell<Vec<(u8, u8)>>>,
    fail_writes: bool,
}

impl MockBus {
    fn new(replies: Vec<(u8, u8)>) -> (MockBus, Rc<RefCell<Vec<BusRecord>>>) {
        let records = Rc::new(RefCell::new(Vec::new()));
        let bus = MockBus {
            records: records.clone(),
            replies: Rc::new(RefCell::new(replies)),
            fail_writes: false,
        };
        (bus, records)
    }
}

impl I2cBus for MockBus {
    type BusErr = u8;

    fn write(&mut self, addr: u8, bytes: &Vec<u8>) -> Result<(), u8> {
        if self.fail_writes {
            return Err(7);
        }
        self.records.borrow_mut().push(BusRecord::Write(addr, bytes.clone()));
        Ok(())
    }

    fn read2(&mut self, addr: u8) -> Result<(u8, u8), u8> {
        let mut replies = self.replies.borrow_mut();
        let b = if replies.is_empty() {
            (0, 0)
        } else {
            replies.remove(0)
        };
        self.records.borrow_mut().push(BusRecord::Read(addr, vec![b.0, b.1]));
        Ok(b)
    }
}

/// The register address named by a 4-byte write payload, if it is one.
fn reg_write(record: &BusRecord) -> Option<(u16, u16)> {
    match record {
        BusRecord::Write(10, bytes) if bytes.len() == 4 => Some((
            be_decode(bytes[0], bytes[1]),
            be_decode(bytes[2], bytes[3]),
        )),
        _ => None,
    }
}

#[test]
fn wire_encoding() {
    assert_eq!(wire_bytes(0x0000, 0xA011), vec![0x00, 0x00, 0xA0, 0x11]);
    assert_eq!(be_bytes(0x0000), vec![0x00, 0x00]);
    assert_eq!(be_decode(0xA0, 0x11), 0xA011);
    assert_eq!(wire_bytes(0x0030, 0x20BF), vec![0x00, 0x30, 0x20, 0xBF]);
}

#[test]
fn identification_gate() {
    let (bus, records) = MockBus::new(vec![(0xDE, 0xAD)]);
    let result = SGTL5000Control::new(bus);
    assert!(matches!(result, Err(Error::Identification)));
    let records = records.borrow();
    assert_eq!(records.len(), 2);
    assert_eq!(records[0], BusRecord::Write(0b1010, vec![0x00, 0x00]));
    assert_eq!(records[1], BusRecord::Read(0b1010, vec![0xDE, 0xAD]));
}

#[test]
fn identification_gate_other_family() {
    let (bus, records) = MockBus::new(vec![(0xA1, 0x00)]);
    let result = SGTL5000Control::new(bus);
    assert!(matches!(result, Err(Error::Identification)));
    assert_eq!(records.borrow().len(), 2);
}

#[test]
fn bring_up_reads_identity_first() {
    let (bus, records) = MockBus::new(vec![(0xA0, 0x11)]);
    let result = SGTL5000Control::new(bus);
    assert!(result.is_ok());
    let records = records.borrow();
    assert_eq!(records[0], BusRecord::Write(0b1010, vec![0x00, 0x00]));
    assert_eq!(records[1], BusRecord::Read(0b1010, vec![0xA0, 0x11]));
    assert_eq!(records.len(), 45);
}

#[test]
fn bring_up_script_writes() {
    // Against a device whose registers all read back zero, every register
    // write of the script, in order.
    let (bus, records) = MockBus::new(vec![(0xA0, 0x11)]);
    assert!(SGTL5000Control::new(bus).is_ok());
    let records = records.borrow();
    let writes: Vec<(u16, u16)> = records.iter().filter_map(reg_write).collect();
    let expected: Vec<(u16, u16)> = vec![
        (0x0030, 0x4020),
        (0x0026, 0x0000),
        (0x0028, 0x01F2),
        (0x002C, 0x0F22),
        (0x003C, 0x4446),
        (0x0024, 0x0020),
        (0x0030, 0x4900),
        (0x0004, 0x0008),
        (0x0006, 0x01B8),
        (0x0030, 0x20BF),
        (0x0100, 0x0001),
        (0x0002, 0x0031),
        (0x000A, 0x0070),
        (0x000E, 0x0200),
        (0x0022, 0x1818),
        (0x002E, 0x1919),
        (0x0010, 0x3C3C),
    ];
    assert_eq!(writes, expected);
}

#[test]
fn bring_up_write_order() {
    let (bus, records) = MockBus::new(vec![(0xA0, 0x11)]);
    let result = SGTL5000Control::new(bus);
    assert!(result.is_ok());
    let records = records.borrow();

    let mut ref_at = None;
    let mut lineout_at = None;
    let mut powerup_at = None;
    for (at, record) in records.iter().enumerate() {
        if let Some((addr, value)) = reg_write(record) {
            if addr == 0x0028 && ref_at.is_none() {
                assert_eq!((value >> 4) & 0x1F, 0x1F);
                assert_eq!(value, 0x01F2);
                ref_at = Some(at);
            }
            if addr == 0x002C && lineout_at.is_none() {
                assert_eq!(value & 0x3F, 0x22);
                assert_eq!(value, 0x0F22);
                lineout_at = Some(at);
            }
            if addr == 0x0030 && (value >> 7) & 1 == 1 && powerup_at.is_none() {
                assert_eq!(value, 0x20BF);
                powerup_at = Some(at);
            }
        }
    }
    let ref_at = ref_at.expect("no reference-control write");
    let lineout_at = lineout_at.expect("no line-out-control write");
    let powerup_at = powerup_at.expect("no analog power-up write");
    assert!(ref_at < lineout_at);
    assert!(lineout_at < powerup_at);
}

#[test]
fn bus_error_propagates() {
    let records = Rc::new(RefCell::new(Vec::new()));
    let bus = MockBus {
        records: records.clone(),
        replies: Rc::new(RefCell::new(Vec::new())),
        fail_writes: true,
    };
    let result = SGTL5000Control::new(bus);
    assert!(matches!(result, Err(Error::I2cError(7))));
    assert_eq!(records.borrow().len(), 0);
}

#[test]
fn volume_writes_on_the_wire() {
    let (bus, records) = MockBus::new(vec![(0xA0, 0x11)]);
    let mut control = SGTL5000Control::new(bus).unwrap();
    records.borrow_mut().clear();

    control.set_dac_vol(Volume::from(255u8)).unwrap();
    control.set_lineout_vol(Volume::from(0u8)).unwrap();
    control.set_hp_vol(Volume::from((255u8, 0u8))).unwrap();

    let records = records.borrow();
    assert_eq!(records[0], BusRecord::Write(0b1010, vec![0x00, 0x10, 0x3C, 0x3C]));
    assert_eq!(records[1], BusRecord::Write(0b1010, vec![0x00, 0x2E, 0x00, 0x00]));
    assert_eq!(records[2], BusRecord::Write(0b1010, vec![0x00, 0x22, 0x7F, 0x00]));
}

#[test]
fn device_wrapper_brings_up() {
    let (bus, records) = MockBus::new(vec![(0xA0, 0x11)]);
    let device = SGTL5000::new(bus);
    assert!(device.is_ok());
    assert_eq!(records.borrow().len(), 45);
}

#[test]
fn identification_gate_on_kept_controller() {
    // After a mismatch the controller is still usable, and the bus carried
    // exactly the identity read: no register write followed it.
    let (bus, records) = MockBus::new(vec![(0x00, 0x11), (0xA0, 0x11)]);
    let mut control = SGTL5000Control::on_bus(bus);
    let first = control.init();
    assert!(matches!(first, Err(Error::Identification)));
    assert_eq!(records.borrow().len(), 2);
    assert_eq!(records.borrow()[0], BusRecord::Write(0b1010, vec![0x00, 0x00]));
    // A later attempt against a well-identified device succeeds.
    let second = control.init();
    assert!(second.is_ok());
    assert_eq!(records.borrow().len(), 2 + 45);
}

#[test]
fn reference_level_formula() {
    // Half the supply, less the 800 mV base, in 25 mV steps.
    assert_eq!(sgtl5000::control::vag_code(3300), 34);
    assert_eq!(sgtl5000::control::vag_code(2000), 8);
    assert_eq!(sgtl5000::control::vag_code(1600), 0);
    assert_eq!(sgtl5000::control::vag_code(0), 0);
}

#[test]
fn error_wraps_bus_error() {
    let e: Error<u8> = Error::from(5u8);
    assert!(matches!(e, Error::I2cError(5)));
}
