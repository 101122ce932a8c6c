//! The abstract two-wire register bus: the wire format of register
//! transactions, and a bus trait whose ghost log records every completed
//! transaction, so that callers can state exactly what reached the wire.
use vstd::prelude::*;

verus! {

/// One completed bus transaction: a write of some bytes to a bus target, or
/// a read of some bytes from it.
pub enum BusOp {
    Write { addr: u8, bytes: Seq<u8> },
    Read { addr: u8, bytes: Seq<u8> },
}

/// The two big-endian bytes of a 16-bit word: high byte first.
pub open spec fn spec_be_bytes(v: u16) -> Seq<u8> {
    seq![(v >> 8) as u8, (v & 0xFF) as u8]
}

/// The 16-bit word read big-endian from two bytes: `b0` is the high byte.
pub open spec fn spec_be_decode(b0: u8, b1: u8) -> u16 {
    ((b0 as u16) << 8) | (b1 as u16)
}

/// The 4-byte payload of a register write: big-endian address, then
/// big-endian value.
pub open spec fn spec_wire_bytes(addr: u16, value: u16) -> Seq<u8> {
    spec_be_bytes(addr) + spec_be_bytes(value)
}

/// Decoding the two big-endian bytes of a word gives the word back.
pub proof fn lemma_be_round_trip(v: u16)
    ensures
        spec_be_decode((v >> 8) as u8, (v & 0xFF) as u8) == v,
{
    assert(((((v >> 8) as u8) as u16) << 8) | (((v & 0xFF) as u8) as u16) == v) by (bit_vector);
}

/// Encoding the word decoded from two bytes gives those bytes back.
pub proof fn lemma_be_decode_bytes(b0: u8, b1: u8)
    ensures
        spec_be_bytes(spec_be_decode(b0, b1)) == seq![b0, b1],
{
    let v: u16 = spec_be_decode(b0, b1);
    assert((((b0 as u16) << 8 | (b1 as u16)) >> 8) as u8 == b0) by (bit_vector);
    assert((((b0 as u16) << 8 | (b1 as u16)) & 0xFF) as u8 == b1) by (bit_vector);
    assert(spec_be_bytes(v) =~= seq![b0, b1]);
}

/// The two big-endian bytes of a 16-bit word: high byte first.
pub fn be_bytes(v: u16) -> (r: Vec<u8>)
    ensures
        r@ == spec_be_bytes(v),
{
    let mut r: Vec<u8> = Vec::new();
    r.push((v >> 8) as u8);
    r.push((v & 0xFF) as u8);
    proof {
        assert(r@ =~= spec_be_bytes(v));
    }
    r
}

/// The 16-bit word read big-endian from two bytes: `b0` is the high byte.
pub fn be_decode(b0: u8, b1: u8) -> (r: u16)
    ensures
        r == spec_be_decode(b0, b1),
{
    ((b0 as u16) << 8) | (b1 as u16)
}

/// The 4-byte payload of a register write: big-endian address, then
/// big-endian value.
pub fn wire_bytes(addr: u16, value: u16) -> (r: Vec<u8>)
    ensures
        r@ == spec_wire_bytes(addr, value),
{
    let mut r: Vec<u8> = Vec::new();
    r.push((addr >> 8) as u8);
    r.push((addr & 0xFF) as u8);
    r.push((value >> 8) as u8);
    r.push((value & 0xFF) as u8);
    proof {
        assert(r@ =~= spec_wire_bytes(addr, value));
    }
    r
}

/// The raw bus transaction primitive the driver is generic over: one write
/// transaction and one two-byte read transaction toward a 7-bit bus target.
///
/// `log` is the ghost history of completed transactions. A transaction that
/// fails leaves no completed transaction behind; nothing else is assumed of
/// when the bus fails, so every caller must cope with failure at any point.
///
/// Everything proved about the driver rests on these method contracts: an
/// implementation lives outside the verifier (a hardware adapter, a test
/// double) and is trusted to honor them.
pub trait I2cBus: Sized {
    type BusErr;

    /// The completed transactions so far, oldest first. An implementation
    /// gives this its own meaning; the default body exists only so that an
    /// implementation outside the verifier need not name the ghost history.
    /// A verified implementation must override it: with the log fixed at
    /// the empty sequence, no transaction could ever report success.
    open spec fn log(&self) -> Seq<BusOp> {
        Seq::empty()
    }

    /// Perform one bus write transaction of `bytes` to the target `addr`.
    fn write(&mut self, addr: u8, bytes: &Vec<u8>) -> (r: Result<(), Self::BusErr>)
        ensures
            r is Ok ==> final(self).log() == old(self).log().push(
                BusOp::Write { addr, bytes: bytes@ },
            ),
            r is Err ==> final(self).log() == old(self).log(),
    ;

    /// Perform one two-byte bus read transaction from the target `addr`;
    /// the high byte comes first.
    fn read2(&mut self, addr: u8) -> (r: Result<(u8, u8), Self::BusErr>)
        ensures
            r matches Ok(b) ==> final(self).log() == old(self).log().push(
                BusOp::Read { addr, bytes: seq![b.0, b.1] },
            ),
            r is Err ==> final(self).log() == old(self).log(),
    ;
}

} // verus!
