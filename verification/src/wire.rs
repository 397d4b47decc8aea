//! The byte-level wire format spoken with the gauge over SMBus/I2C: the
//! little-endian word codec, the bus operations a driver issues, and the
//! ManufacturerAccess (MAC) block frame.
use vstd::prelude::*;

verus! {

/// 7-bit Smart Battery address of the gauge.
pub const BQ41Z50_ADDR: u8 = 0x0B;

/// Largest register payload that one register write may carry.
pub const LARGEST_REG_BYTES: usize = 64;

/// Largest payload of a MAC command, in either direction.
pub const LARGEST_CMD_BYTES: usize = 32;

/// Largest payload of a buffer write.
pub const LARGEST_BUF_BYTES: usize = 32;

/// Bytes that precede the payload in a MAC read response: the block
/// length and the two command bytes.
pub const MAC_CMD_RX_HEADER_SIZE_BYTES: usize = 3;

/// Length of the command code inside a MAC block.
pub const MAC_CMD_ADDR_SIZE_BYTES: u8 = 2;

/// The SBS command through which MAC blocks are written and read back.
pub const MAC_CMD_SBS_ADDR: u8 = 0x44;

/// Little-endian bytes of a 16-bit word.
pub open spec fn le_bytes(v: u16) -> Seq<u8> {
    seq![(v % 256) as u8, (v / 256) as u8]
}

/// The 16-bit word whose little-endian bytes are `lo`, `hi`.
pub open spec fn le_value(lo: u8, hi: u8) -> u16 {
    (lo + 256 * hi) as u16
}

/// Encodes a word as its two little-endian bytes.
pub fn u16_to_le(v: u16) -> (bytes: [u8; 2])
    ensures
        bytes@ == le_bytes(v),
{
    let bytes = [(v % 256) as u8, (v / 256) as u8];
    assert(bytes@ =~= le_bytes(v));
    bytes
}

/// Decodes two little-endian bytes into a word.
pub fn u16_from_le(bytes: [u8; 2]) -> (v: u16)
    ensures
        v == le_value(bytes[0], bytes[1]),
{
    bytes[0] as u16 + 256 * (bytes[1] as u16)
}

/// Decoding the encoding of a word gives the word back, and encoding a
/// decoded pair of bytes gives the bytes back.
pub proof fn lemma_le_round_trip(v: u16, lo: u8, hi: u8)
    ensures
        le_value(le_bytes(v)[0], le_bytes(v)[1]) == v,
        le_bytes(le_value(lo, hi)) == seq![lo, hi],
{
    assert(le_bytes(le_value(lo, hi)) =~= seq![lo, hi]);
}

/// What a bus operation does, as values: a plain write of some bytes, or a
/// write of some bytes followed by a read of a number of bytes.
pub enum Op {
    Write(Seq<u8>),
    WriteRead(Seq<u8>, nat),
}

/// One I2C transfer to the gauge at [`BQ41Z50_ADDR`].
#[derive(Debug)]
pub enum BusOp {
    /// Write these bytes.
    Write(Vec<u8>),
    /// Write these bytes, then read this many bytes back in the same transfer.
    WriteRead(Vec<u8>, usize),
}

impl View for BusOp {
    type V = Op;

    open spec fn view(&self) -> Op {
        match self {
            BusOp::Write(bytes) => Op::Write(bytes@),
            BusOp::WriteRead(bytes, n) => Op::WriteRead(bytes@, *n as nat),
        }
    }
}

/// The operations of a plan, as values.
pub open spec fn ops_view(ops: Seq<BusOp>) -> Seq<Op> {
    ops.map_values(|o: BusOp| o@)
}

/// A single-byte write-read: send `command`, read `len` bytes.
pub open spec fn read_op(command: u8, len: nat) -> Op {
    Op::WriteRead(seq![command], len)
}

/// A MAC block as it is written to the gauge: the MAC command byte, the
/// length of what follows, the command code in little-endian order, and
/// the payload.
pub open spec fn mac_frame(command: u16, payload: Seq<u8>) -> Seq<u8> {
    seq![MAC_CMD_SBS_ADDR, (payload.len() + 2) as u8] + le_bytes(command) + payload
}

/// Appends the bytes of `src` to `dst`.
pub fn append(dst: &mut Vec<u8>, src: &[u8])
    ensures
        final(dst)@ == old(dst)@ + src@,
{
    let mut i: usize = 0;
    while i < src.len()
        invariant
            i <= src.len(),
            dst@ == old(dst)@ + src@.take(i as int),
        decreases src.len() - i,
    {
        assert(src@.take(i as int).push(src@[i as int]) =~= src@.take(i + 1));
        dst.push(src[i]);
        i = i + 1;
    }
    assert(src@.take(i as int) =~= src@);
}

/// Builds the MAC block that carries `payload` under `command`.
pub fn build_mac_frame(command: u16, payload: &[u8]) -> (frame: Vec<u8>)
    requires
        payload.len() <= LARGEST_CMD_BYTES,
    ensures
        frame@ == mac_frame(command, payload@),
{
    let code = u16_to_le(command);
    let mut frame = vec![MAC_CMD_SBS_ADDR, payload.len() as u8 + MAC_CMD_ADDR_SIZE_BYTES, code[0], code[1]];
    append(&mut frame, payload);
    assert(frame@ =~= mac_frame(command, payload@));
    frame
}

/// Builds `[prefix] ++ data`.
pub fn prefixed(prefix: u8, data: &[u8]) -> (frame: Vec<u8>)
    ensures
        frame@ == seq![prefix] + data@,
{
    let mut frame = vec![prefix];
    append(&mut frame, data);
    frame
}

/// A single write of `bytes`.
pub fn write_op(bytes: Vec<u8>) -> (ops: Vec<BusOp>)
    ensures
        ops_view(ops@) == seq![Op::Write(bytes@)],
{
    let ghost b = bytes@;
    let ops = vec![BusOp::Write(bytes)];
    assert(ops_view(ops@) =~= seq![Op::Write(b)]);
    ops
}

/// A single write-read of `command`, reading `len` bytes.
pub fn write_read_op(command: u8, len: usize) -> (ops: Vec<BusOp>)
    ensures
        ops_view(ops@) == seq![read_op(command, len as nat)],
{
    let bytes = vec![command];
    assert(bytes@ =~= seq![command]);
    let ops = vec![BusOp::WriteRead(bytes, len)];
    assert(ops_view(ops@) =~= seq![read_op(command, len as nat)]);
    ops
}

/// Byte layout of a MAC block: 0x44, the payload length plus two, the
/// command's low byte, its high byte, then the payload.
pub proof fn lemma_mac_frame_layout(command: u16, payload: Seq<u8>)
    requires
        payload.len() <= LARGEST_CMD_BYTES,
    ensures
        mac_frame(command, payload) == seq![0x44u8, (payload.len() + 2) as u8, (command % 256) as u8, (command / 256) as u8]
            + payload,
        mac_frame(command, payload).len() == payload.len() + 4,
        mac_frame(command, payload)[1] == payload.len() + 2,
{
    assert(mac_frame(command, payload) =~= seq![
        0x44u8,
        (payload.len() + 2) as u8,
        (command % 256) as u8,
        (command / 256) as u8,
    ] + payload);
}

} // verus!
