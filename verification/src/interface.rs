//! The transfers behind the register, command and buffer accesses of the
//! gauge: what is written, what is read, and how a MAC read response is
//! turned back into its payload.
use crate::error::Bq41z50Error;
use crate::wire::{
    build_mac_frame, mac_frame, ops_view, prefixed, read_op, write_op, write_read_op, BusOp, Op,
    LARGEST_BUF_BYTES, LARGEST_CMD_BYTES, LARGEST_REG_BYTES, MAC_CMD_ADDR_SIZE_BYTES,
    MAC_CMD_RX_HEADER_SIZE_BYTES, MAC_CMD_SBS_ADDR,
};
use vstd::prelude::*;

verus! {

/// The transfers of a MAC read of `read_len` payload bytes: the command
/// block, then a read of the response block through the MAC command.
pub open spec fn spec_mac_read(command: u16, read_len: nat) -> Seq<Op> {
    seq![
        Op::Write(mac_frame(command, seq![])),
        read_op(MAC_CMD_SBS_ADDR, (MAC_CMD_RX_HEADER_SIZE_BYTES + read_len) as nat),
    ]
}

/// Concatenates two plans.
pub fn join(first: Vec<BusOp>, second: Vec<BusOp>) -> (ops: Vec<BusOp>)
    ensures
        ops_view(ops@) == ops_view(first@) + ops_view(second@),
{
    let mut ops = first;
    let mut rest = second;
    let ghost a = ops@;
    let ghost b = rest@;
    ops.append(&mut rest);
    assert(ops@ == a + b);
    assert(ops_view(ops@) =~= ops_view(a) + ops_view(b));
    ops
}

/// The transfers of a MAC read whose payload length fits a MAC block.
pub fn mac_read_ops(command: u16, read_len: usize) -> (ops: Vec<BusOp>)
    requires
        read_len <= LARGEST_CMD_BYTES,
    ensures
        ops_view(ops@) == spec_mac_read(command, read_len as nat),
{
    let empty: [u8; 0] = [];
    let frame = build_mac_frame(command, &empty);
    assert(empty@ =~= Seq::<u8>::empty());
    let first = write_op(frame);
    let second = write_read_op(MAC_CMD_SBS_ADDR, MAC_CMD_RX_HEADER_SIZE_BYTES + read_len);
    let ops = join(first, second);
    assert(ops_view(ops@) =~= spec_mac_read(command, read_len as nat));
    ops
}

/// Plans a MAC read of `read_len` payload bytes under `command`. Payloads
/// longer than a MAC block are refused with `DataTooLarge` before any
/// transfer.
pub fn mac_read<E>(command: u16, read_len: usize) -> (res: Result<Vec<BusOp>, Bq41z50Error<E>>)
    ensures
        res is Err <==> read_len > LARGEST_CMD_BYTES,
        res matches Err(err) ==> err is DataTooLarge,
        res matches Ok(ops) ==> ops_view(ops@) == spec_mac_read(command, read_len as nat),
{
    if read_len > LARGEST_CMD_BYTES {
        return Err(Bq41z50Error::DataTooLarge);
    }
    Ok(mac_read_ops(command, read_len))
}

/// The payload of a MAC read response: what follows the length byte and the
/// two command bytes.
pub fn mac_read_payload(response: &[u8], read_len: usize) -> (payload: Vec<u8>)
    requires
        response@.len() == MAC_CMD_RX_HEADER_SIZE_BYTES + read_len,
    ensures
        payload@ == response@.subrange(MAC_CMD_RX_HEADER_SIZE_BYTES as int, response@.len() as int),
{
    let mut payload: Vec<u8> = Vec::new();
    let mut i: usize = MAC_CMD_RX_HEADER_SIZE_BYTES;
    while i < response.len()
        invariant
            MAC_CMD_RX_HEADER_SIZE_BYTES <= i <= response@.len(),
            payload@ == response@.subrange(MAC_CMD_RX_HEADER_SIZE_BYTES as int, i as int),
        decreases response.len() - i,
    {
        payload.push(response[i]);
        i = i + 1;
        assert(payload@ =~= response@.subrange(MAC_CMD_RX_HEADER_SIZE_BYTES as int, i as int));
    }
    payload
}

/// Plans a register write: one transfer of the register address followed by
/// the register's bytes.
pub fn write_register(address: u8, data: &[u8]) -> (ops: Vec<BusOp>)
    requires
        data@.len() <= LARGEST_REG_BYTES,
    ensures
        ops_view(ops@) == seq![Op::Write(seq![address] + data@)],
{
    write_op(prefixed(address, data))
}

/// Plans a register read of `len` bytes: the register address is written,
/// then the register's bytes are read back.
pub fn read_register(address: u8, len: usize) -> (ops: Vec<BusOp>)
    ensures
        ops_view(ops@) == seq![read_op(address, len as nat)],
{
    write_read_op(address, len)
}

/// The MAC command code of a device command address: its second byte
/// becomes the low byte and its first byte the high byte, so that the
/// command block carries the address's low two bytes in big-endian order.
pub open spec fn spec_command_code(address: u32) -> u16 {
    ((address / 256) % 256 + 256 * (address % 256)) as u16
}

/// The MAC command code that a device command address names.
pub fn command_code(address: u32) -> (code: u16)
    ensures
        code == spec_command_code(address),
{
    let high = ((address / 256) % 256) as u16;
    let low = (address % 256) as u16;
    high + 256 * low
}

/// Plans a device command. A command without output is one command block;
/// one with output is a MAC read of `output_len` bytes, refused with
/// `DataTooLarge` when longer than a MAC block.
pub fn dispatch_command<E>(address: u32, output_len: usize) -> (res: Result<Vec<BusOp>, Bq41z50Error<E>>)
    ensures
        res is Err <==> output_len > LARGEST_CMD_BYTES,
        res matches Err(err) ==> err is DataTooLarge,
        output_len == 0 ==> (res matches Ok(ops) && ops_view(ops@) == seq![
            Op::Write(seq![MAC_CMD_SBS_ADDR, MAC_CMD_ADDR_SIZE_BYTES, ((address / 256) % 256) as u8, (address % 256) as u8]),
        ]),
        output_len > 0 ==> (res matches Ok(ops) ==> ops_view(ops@) == spec_mac_read(spec_command_code(address), output_len as nat)),
{
    let code = command_code(address);
    if output_len == 0 {
        let empty: [u8; 0] = [];
        let frame = build_mac_frame(code, &empty);
        proof {
            lemma_command_block(address, 0);
            assert(empty@ =~= Seq::<u8>::empty());
        }
        Ok(write_op(frame))
    } else {
        mac_read(code, output_len)
    }
}

/// The command block of a device command carries the two low bytes of its
/// address high byte first, and a command with output opens with the same
/// block as one without.
pub proof fn lemma_command_block(address: u32, output_len: nat)
    ensures
        spec_mac_read(spec_command_code(address), output_len)[0] == Op::Write(seq![
            MAC_CMD_SBS_ADDR,
            MAC_CMD_ADDR_SIZE_BYTES,
            ((address / 256) % 256) as u8,
            (address % 256) as u8,
        ]),
        mac_frame(spec_command_code(address), seq![]) == seq![
            MAC_CMD_SBS_ADDR,
            MAC_CMD_ADDR_SIZE_BYTES,
            ((address / 256) % 256) as u8,
            (address % 256) as u8,
        ],
{
    assert(mac_frame(spec_command_code(address), seq![]) =~= seq![
        MAC_CMD_SBS_ADDR,
        MAC_CMD_ADDR_SIZE_BYTES,
        ((address / 256) % 256) as u8,
        (address % 256) as u8,
    ]);
}

/// Plans a buffer write: one transfer of the buffer address followed by the
/// bytes. The number of bytes written is `buf.len()`.
pub fn write(address: u8, buf: &[u8]) -> (ops: Vec<BusOp>)
    requires
        buf@.len() <= LARGEST_BUF_BYTES,
    ensures
        ops_view(ops@) == seq![Op::Write(seq![address] + buf@)],
{
    write_op(prefixed(address, buf))
}

/// Plans a buffer read of `len` bytes from `address`.
pub fn read(address: u8, len: usize) -> (ops: Vec<BusOp>)
    ensures
        ops_view(ops@) == seq![read_op(address, len as nat)],
{
    write_read_op(address, len)
}

} // verus!
