use vstd::prelude::*;

use crate::interface::{ops_of, read_len, Op, Operation};

verus! {

/// Instruction supported by the CAN controller
#[derive(Copy, Clone, Debug, PartialEq, Eq, Structural)]
pub enum Instruction {
    /// Resets internal registers to the default state, sets Configuration mode.
    Reset,
    /// Reads data from the register beginning at the selected address.
    Read,
    /// Writes data to the register beginning at the selected address.
    Write,
    /// Begins the transmission of the transmit buffers selected in `0b1000_0nnn`.
    Rts,
    /// Quick polling command that reads several status bits for transmit and receive.
    ReadStatus,
    /// Sets or clears individual bits of a register that supports it; on any other
    /// register the chip forces the mask to 0xFF.
    BitModify,
    /// Quick polling command that reports the filter match and the message type of the
    /// received message (MCP2515 and MCP25625 only).
    RxStatus,
    /// Reads a receive buffer starting at one of four locations, selected by `nm` in
    /// `0b1001_0nm0`, and clears its receive flag (MCP2515 and MCP25625 only).
    ReadRxBuffer,
    /// Loads a transmit buffer starting at one of six locations, selected by `abc` in
    /// `0b0100_0abc` (MCP2515 and MCP25625 only).
    LoadTxBuffer,
}

impl Instruction {
    /// The opcode of the instruction
    pub open spec fn spec_code(self) -> u8 {
        match self {
            Instruction::Reset => 0b1100_0000,
            Instruction::Read => 0b0000_0011,
            Instruction::Write => 0b0000_0010,
            Instruction::Rts => 0b1000_0000,
            Instruction::ReadStatus => 0b1010_0000,
            Instruction::BitModify => 0b0000_0101,
            Instruction::RxStatus => 0b1011_0000,
            Instruction::ReadRxBuffer => 0b1001_0000,
            Instruction::LoadTxBuffer => 0b0100_0000,
        }
    }

    /// The opcode of the instruction
    pub fn code(self) -> (r: u8)
        ensures
            r == self.spec_code(),
    {
        match self {
            Instruction::Reset => 0b1100_0000,
            Instruction::Read => 0b0000_0011,
            Instruction::Write => 0b0000_0010,
            Instruction::Rts => 0b1000_0000,
            Instruction::ReadStatus => 0b1010_0000,
            Instruction::BitModify => 0b0000_0101,
            Instruction::RxStatus => 0b1011_0000,
            Instruction::ReadRxBuffer => 0b1001_0000,
            Instruction::LoadTxBuffer => 0b0100_0000,
        }
    }
}

/// The chip a driver talks to
#[derive(Copy, Clone, Debug, PartialEq, Eq, Structural)]
pub enum Chip {
    MCP2510,
    MCP2515,
    MCP25625,
}

impl Chip {
    /// Whether the chip has the buffer shortcut and receive status instructions
    pub open spec fn spec_has_shortcuts(self) -> bool {
        self != Chip::MCP2510
    }

    /// Whether the chip has the buffer shortcut and receive status instructions
    pub fn has_shortcuts(self) -> (r: bool)
        ensures
            r == self.spec_has_shortcuts(),
    {
        match self {
            Chip::MCP2510 => false,
            _ => true,
        }
    }
}

/// Address of the first register of transmit buffer `idx` after its control register
pub open spec fn tx_buffer_address(idx: u8) -> u8 {
    (0x31 + 0x10 * idx) as u8
}

/// Address of the first register of receive buffer `idx` after its control register
pub open spec fn rx_buffer_address(idx: u8) -> u8 {
    (0x61 + 0x10 * idx) as u8
}

/// Reset: the opcode alone
pub open spec fn reset_txn() -> Seq<Op> {
    seq![Op::Write(seq![Instruction::Reset.spec_code()])]
}

/// Read one register: opcode and address, then one byte in
pub open spec fn read_register_txn(address: u8) -> Seq<Op> {
    seq![Op::Write(seq![Instruction::Read.spec_code(), address]), Op::Read(1)]
}

/// Write one register: opcode, address and value
pub open spec fn write_register_txn(address: u8, value: u8) -> Seq<Op> {
    seq![Op::Write(seq![Instruction::Write.spec_code(), address, value])]
}

/// Bit modify: opcode, address, mask and value
pub open spec fn modify_register_txn(address: u8, mask: u8, value: u8) -> Seq<Op> {
    seq![Op::Write(seq![Instruction::BitModify.spec_code(), address, mask, value])]
}

/// Read status: the opcode, then the status byte in
pub open spec fn read_status_txn() -> Seq<Op> {
    seq![Op::Write(seq![Instruction::ReadStatus.spec_code()]), Op::Read(1)]
}

/// Receive status: the opcode, then the status byte in
pub open spec fn rx_status_txn() -> Seq<Op> {
    seq![Op::Write(seq![Instruction::RxStatus.spec_code()]), Op::Read(1)]
}

/// Request to send: the opcode with the buffer's bit set
pub open spec fn request_to_send_txn(idx: u8) -> Seq<Op> {
    seq![Op::Write(seq![Instruction::Rts.spec_code() | (1u8 << idx)])]
}

/// Read consecutive registers: opcode and start address, then `len` bytes in
pub open spec fn read_registers_txn(start: u8, len: nat) -> Seq<Op> {
    seq![Op::Write(seq![Instruction::Read.spec_code(), start]), Op::Read(len)]
}

/// Write consecutive registers: opcode and start address, then the data
pub open spec fn write_registers_txn(start: u8, data: Seq<u8>) -> Seq<Op> {
    seq![Op::Write(seq![Instruction::Write.spec_code(), start]), Op::Write(data)]
}

/// Loading `bytes` into transmit buffer `idx`: the shortcut instruction where the chip
/// has it, else a write at the buffer's address
pub open spec fn load_tx_txn(chip: Chip, idx: u8, bytes: Seq<u8>) -> Seq<Op> {
    if chip.spec_has_shortcuts() {
        seq![Op::Write(seq![(Instruction::LoadTxBuffer.spec_code() | (idx * 2) as u8) as u8]), Op::Write(bytes)]
    } else {
        write_registers_txn(tx_buffer_address(idx), bytes)
    }
}

/// Reading the 13 bytes of receive buffer `idx`: the shortcut instruction where the chip
/// has it, else a read at the buffer's address
pub open spec fn read_rx_txn(chip: Chip, idx: u8) -> Seq<Op> {
    if chip.spec_has_shortcuts() {
        seq![Op::Write(seq![(Instruction::ReadRxBuffer.spec_code() | (idx * 2) as u8) as u8]), Op::Read(13)]
    } else {
        read_registers_txn(rx_buffer_address(idx), 13)
    }
}

/// A write followed by a read of `n` bytes reads `n` bytes.
pub proof fn lemma_read_len_write_read(w: Seq<u8>, n: nat)
    ensures
        read_len(seq![Op::Write(w), Op::Read(n)]) == n,
{
    reveal_with_fuel(read_len, 3);
    assert(seq![Op::Write(w), Op::Read(n)].drop_last() =~= seq![Op::Write(w)]);
    assert(seq![Op::Write(w)].drop_last() =~= Seq::<Op>::empty());
}

fn bytes1(a: u8) -> (r: Vec<u8>)
    ensures
        r@ == seq![a],
{
    let mut v: Vec<u8> = Vec::new();
    v.push(a);
    assert(v@ =~= seq![a]);
    v
}

fn bytes2(a: u8, b: u8) -> (r: Vec<u8>)
    ensures
        r@ == seq![a, b],
{
    let mut v = bytes1(a);
    v.push(b);
    assert(v@ =~= seq![a, b]);
    v
}

fn bytes3(a: u8, b: u8, c: u8) -> (r: Vec<u8>)
    ensures
        r@ == seq![a, b, c],
{
    let mut v = bytes2(a, b);
    v.push(c);
    assert(v@ =~= seq![a, b, c]);
    v
}

fn bytes4(a: u8, b: u8, c: u8, d: u8) -> (r: Vec<u8>)
    ensures
        r@ == seq![a, b, c, d],
{
    let mut v = bytes3(a, b, c);
    v.push(d);
    assert(v@ =~= seq![a, b, c, d]);
    v
}

fn ops1(a: Operation) -> (r: Vec<Operation>)
    ensures
        ops_of(r@) == seq![a@],
{
    let mut v: Vec<Operation> = Vec::new();
    v.push(a);
    assert(ops_of(v@) =~= seq![a@]);
    v
}

fn ops2(a: Operation, b: Operation) -> (r: Vec<Operation>)
    ensures
        ops_of(r@) == seq![a@, b@],
{
    let mut v: Vec<Operation> = Vec::new();
    v.push(a);
    v.push(b);
    assert(ops_of(v@) =~= seq![a@, b@]);
    v
}

/// The transaction of a reset
pub fn reset_ops() -> (r: Vec<Operation>)
    ensures
        ops_of(r@) == reset_txn(),
{
    ops1(Operation::Write(bytes1(Instruction::Reset.code())))
}

/// The transaction that reads the register at `address`
pub fn read_register_ops(address: u8) -> (r: Vec<Operation>)
    ensures
        ops_of(r@) == read_register_txn(address),
        read_len(ops_of(r@)) == 1,
{
    proof {
        lemma_read_len_write_read(seq![Instruction::Read.spec_code(), address], 1);
    }
    ops2(Operation::Write(bytes2(Instruction::Read.code(), address)), Operation::Read(1))
}

/// The transaction that writes `value` to the register at `address`
pub fn write_register_ops(address: u8, value: u8) -> (r: Vec<Operation>)
    ensures
        ops_of(r@) == write_register_txn(address, value),
{
    ops1(Operation::Write(bytes3(Instruction::Write.code(), address, value)))
}

/// The transaction that sets the bits of `mask` in the register at `address` as in `value`
pub fn modify_register_ops(address: u8, mask: u8, value: u8) -> (r: Vec<Operation>)
    ensures
        ops_of(r@) == modify_register_txn(address, mask, value),
{
    ops1(Operation::Write(bytes4(Instruction::BitModify.code(), address, mask, value)))
}

/// The transaction that reads the status byte
pub fn read_status_ops() -> (r: Vec<Operation>)
    ensures
        ops_of(r@) == read_status_txn(),
        read_len(ops_of(r@)) == 1,
{
    proof {
        lemma_read_len_write_read(seq![Instruction::ReadStatus.spec_code()], 1);
    }
    ops2(Operation::Write(bytes1(Instruction::ReadStatus.code())), Operation::Read(1))
}

/// The transaction that reads the receive status byte
pub fn rx_status_ops() -> (r: Vec<Operation>)
    ensures
        ops_of(r@) == rx_status_txn(),
        read_len(ops_of(r@)) == 1,
{
    proof {
        lemma_read_len_write_read(seq![Instruction::RxStatus.spec_code()], 1);
    }
    ops2(Operation::Write(bytes1(Instruction::RxStatus.code())), Operation::Read(1))
}

/// The transaction that requests transmit buffer `idx` to send
pub fn request_to_send_ops(idx: u8) -> (r: Vec<Operation>)
    requires
        idx < 3,
    ensures
        ops_of(r@) == request_to_send_txn(idx),
{
    ops1(Operation::Write(bytes1(Instruction::Rts.code() | (1u8 << idx))))
}

/// The transaction that reads `len` registers from `start` on
pub fn read_registers_ops(start: u8, len: usize) -> (r: Vec<Operation>)
    ensures
        ops_of(r@) == read_registers_txn(start, len as nat),
        read_len(ops_of(r@)) == len,
{
    proof {
        lemma_read_len_write_read(seq![Instruction::Read.spec_code(), start], len as nat);
    }
    ops2(Operation::Write(bytes2(Instruction::Read.code(), start)), Operation::Read(len))
}

fn copy_bytes(data: &[u8]) -> (r: Vec<u8>)
    ensures
        r@ == data@,
{
    let mut v: Vec<u8> = Vec::new();
    let mut i: usize = 0;
    while i < data.len()
        invariant
            i <= data@.len(),
            v@ == data@.subrange(0, i as int),
        decreases data@.len() - i,
    {
        v.push(data[i]);
        i = i + 1;
        assert(v@ =~= data@.subrange(0, i as int));
    }
    assert(data@ =~= data@.subrange(0, data@.len() as int));
    v
}

/// The transaction that writes `data` to the registers from `start` on
pub fn write_registers_ops(start: u8, data: &[u8]) -> (r: Vec<Operation>)
    ensures
        ops_of(r@) == write_registers_txn(start, data@),
{
    ops2(Operation::Write(bytes2(Instruction::Write.code(), start)), Operation::Write(copy_bytes(data)))
}

/// The transaction that loads `bytes` into transmit buffer `idx`
pub fn load_tx_ops(chip: Chip, idx: u8, bytes: &[u8]) -> (r: Vec<Operation>)
    requires
        idx < 3,
    ensures
        ops_of(r@) == load_tx_txn(chip, idx, bytes@),
{
    if chip.has_shortcuts() {
        ops2(
            Operation::Write(bytes1(Instruction::LoadTxBuffer.code() | (idx * 2))),
            Operation::Write(copy_bytes(bytes)),
        )
    } else {
        write_registers_ops(0x31 + 0x10 * idx, bytes)
    }
}

/// The transaction that reads the 13 bytes of receive buffer `idx`
pub fn read_rx_ops(chip: Chip, idx: u8) -> (r: Vec<Operation>)
    requires
        idx < 2,
    ensures
        ops_of(r@) == read_rx_txn(chip, idx),
        read_len(ops_of(r@)) == 13,
{
    if chip.has_shortcuts() {
        proof {
            lemma_read_len_write_read(seq![(Instruction::ReadRxBuffer.spec_code() | (idx * 2) as u8) as u8], 13);
        }
        ops2(Operation::Write(bytes1(Instruction::ReadRxBuffer.code() | (idx * 2))), Operation::Read(13))
    } else {
        read_registers_ops(0x61 + 0x10 * idx, 13)
    }
}

} // verus!
