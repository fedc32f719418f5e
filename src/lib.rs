//! Driver core for the MCP2510, MCP2515 and MCP25625 CAN controller chips.
//!
//! The driver speaks the chip's SPI instruction set through an [`Interface`], encodes and
//! decodes identifiers, frames and registers bit for bit, and picks transmit and receive
//! buffers by the chip's fixed priorities. Every exchange it makes with the bus is recorded
//! in a ghost log, so each operation states exactly which byte sequences it sends.
use vstd::prelude::*;

pub mod bitrates;
pub mod command;
pub mod config;
pub mod frame;
pub mod idheader;
pub mod interface;
pub mod registers;
pub mod wire;

pub use command::{Chip, Instruction};
pub use config::Config;
pub use frame::CanFrame;
pub use idheader::{ExtendedId, Id, IdHeader, StandardId};
pub use interface::{Interface, NoOpSPI, Operation};

use interface::{
    byte_read, bytes_read, failed, lemma_failed_extend, lemma_first_txn_failed, lemma_first_txn_ran,
    lemma_ran_nothing, lemma_ran_then_failed, lemma_ran_then_ran, ops_of, ran, read_len,
    result_view, settled, txns_of, Bus, Exchange, Op,
};
use command::{
    load_tx_ops, load_tx_txn, modify_register_ops, modify_register_txn, read_register_ops,
    read_register_txn, read_registers_ops, read_registers_txn, read_rx_ops, read_rx_txn,
    read_status_ops, read_status_txn, request_to_send_ops, request_to_send_txn, reset_ops,
    reset_txn, rx_status_ops, rx_status_txn, write_register_ops, write_register_txn,
    write_registers_ops, write_registers_txn,
};
use config::{config_ops, config_txns, filter_txn};
use frame::{buffer_dlc, decode_bytes, frame_bytes, length_nibble};
use idheader::{id_header, id_value};
use registers::{
    bit_of, with_field_of, Modify, OperationMode, ReadStatusResponse, Register, RxStatusResponse,
    CANCTRL, CANINTF, CNF, CNF3,
};

verus! {

/// Filters and Masks of the two receive buffers
#[derive(Copy, Clone, Debug, PartialEq, Eq, Structural)]
pub enum AcceptanceFilter {
    /// Associated with Receive Buffer 0
    Filter0,
    /// Associated with Receive Buffer 0
    Filter1,
    /// Associated with Receive Buffer 1
    Filter2,
    /// Associated with Receive Buffer 1
    Filter3,
    /// Associated with Receive Buffer 1
    Filter4,
    /// Associated with Receive Buffer 1
    Filter5,
    /// Associated with Receive Buffer 0
    Mask0,
    /// Associated with Receive Buffer 1
    Mask1,
}

impl AcceptanceFilter {
    /// Address of the filter's or mask's first register
    pub open spec fn spec_address(self) -> u8 {
        match self {
            AcceptanceFilter::Filter0 => 0x00,
            AcceptanceFilter::Filter1 => 0x04,
            AcceptanceFilter::Filter2 => 0x08,
            AcceptanceFilter::Filter3 => 0x10,
            AcceptanceFilter::Filter4 => 0x14,
            AcceptanceFilter::Filter5 => 0x18,
            AcceptanceFilter::Mask0 => 0x20,
            AcceptanceFilter::Mask1 => 0x24,
        }
    }

    /// Address of the filter's or mask's first register
    pub fn address(self) -> (r: u8)
        ensures
            r == self.spec_address(),
    {
        match self {
            AcceptanceFilter::Filter0 => 0x00,
            AcceptanceFilter::Filter1 => 0x04,
            AcceptanceFilter::Filter2 => 0x08,
            AcceptanceFilter::Filter3 => 0x10,
            AcceptanceFilter::Filter4 => 0x14,
            AcceptanceFilter::Filter5 => 0x18,
            AcceptanceFilter::Mask0 => 0x20,
            AcceptanceFilter::Mask1 => 0x24,
        }
    }
}

/// Transmit buffer
#[derive(Copy, Clone, Debug, PartialEq, Eq, Structural)]
pub enum TxBuffer {
    /// Transmit buffer 0
    TXB0,
    /// Transmit buffer 1
    TXB1,
    /// Transmit buffer 2
    TXB2,
}

impl TxBuffer {
    pub open spec fn spec_index(self) -> u8 {
        match self {
            TxBuffer::TXB0 => 0,
            TxBuffer::TXB1 => 1,
            TxBuffer::TXB2 => 2,
        }
    }

    /// Position of the buffer among the three transmit buffers
    pub fn index(self) -> (r: u8)
        ensures
            r == self.spec_index(),
            r < 3,
    {
        match self {
            TxBuffer::TXB0 => 0,
            TxBuffer::TXB1 => 1,
            TxBuffer::TXB2 => 2,
        }
    }
}

/// Receive buffer
#[derive(Copy, Clone, Debug, PartialEq, Eq, Structural)]
pub enum RxBuffer {
    /// Receive Buffer 0
    RXB0,
    /// Receive Buffer 1
    RXB1,
}

impl RxBuffer {
    pub open spec fn spec_index(self) -> u8 {
        match self {
            RxBuffer::RXB0 => 0,
            RxBuffer::RXB1 => 1,
        }
    }

    /// Position of the buffer among the two receive buffers
    pub fn index(self) -> (r: u8)
        ensures
            r == self.spec_index(),
            r < 2,
    {
        match self {
            RxBuffer::RXB0 => 0,
            RxBuffer::RXB1 => 1,
        }
    }
}

/// An error of the bus, handed on unchanged
#[derive(Debug)]
pub struct SpiError<E>(pub E);

/// Outcome of an operation that may find the chip not ready
#[derive(Debug)]
pub enum NbError<E> {
    /// The operation failed
    Other(E),
    /// The chip is not ready; the caller may try again
    WouldBlock,
}

/// The transmit buffer to use under a status snapshot: the first of 0, 1, 2 without a
/// pending transmit request
pub open spec fn select_tx_spec(status: u8) -> Option<TxBuffer> {
    if !bit_of(status, 2) {
        Some(TxBuffer::TXB0)
    } else if !bit_of(status, 4) {
        Some(TxBuffer::TXB1)
    } else if !bit_of(status, 6) {
        Some(TxBuffer::TXB2)
    } else {
        None
    }
}

/// The receive buffer to read under a status snapshot: buffer 0 if it holds a frame,
/// else buffer 1 if it does
pub open spec fn select_rx_spec(status: u8) -> Option<RxBuffer> {
    if bit_of(status, 0) {
        Some(RxBuffer::RXB0)
    } else if bit_of(status, 1) {
        Some(RxBuffer::RXB1)
    } else {
        None
    }
}

/// Picks the transmit buffer for the next frame, by fixed priority 0, 1, 2
pub fn select_tx_buffer(status: ReadStatusResponse) -> (r: Option<TxBuffer>)
    ensures
        r == select_tx_spec(status@),
{
    if !status.txreq0() {
        Some(TxBuffer::TXB0)
    } else if !status.txreq1() {
        Some(TxBuffer::TXB1)
    } else if !status.txreq2() {
        Some(TxBuffer::TXB2)
    } else {
        None
    }
}

/// Picks the receive buffer to read, buffer 0 first
pub fn select_rx_buffer(status: ReadStatusResponse) -> (r: Option<RxBuffer>)
    ensures
        r == select_rx_spec(status@),
{
    if status.rx0if() {
        Some(RxBuffer::RXB0)
    } else if status.rx1if() {
        Some(RxBuffer::RXB1)
    } else {
        None
    }
}

/// With transmit buffers 0 and 1 pending and buffer 2 free, buffer 2 is chosen; with all
/// three pending, none is.
pub proof fn lemma_tx_priority(status: u8)
    ensures
        bit_of(status, 2) && bit_of(status, 4) && !bit_of(status, 6) ==> select_tx_spec(status)
            == Some(TxBuffer::TXB2),
        bit_of(status, 2) && bit_of(status, 4) && bit_of(status, 6) ==> select_tx_spec(status)
            is None,
{
}

/// With both receive buffers pending, buffer 0 is read.
pub proof fn lemma_rx_priority(status: u8)
    ensures
        bit_of(status, 0) && bit_of(status, 1) ==> select_rx_spec(status) == Some(RxBuffer::RXB0),
{
}

/// The bytes of a frame buffer that loading sends: identifier, control byte and the
/// meaningful data
pub open spec fn load_bytes(frame: Seq<u8>) -> Seq<u8> {
    frame.subrange(0, 5 + buffer_dlc(frame) as int)
}

/// Reading receive buffer `idx`, then, on a chip without the shortcut instruction,
/// clearing its receive flag
pub open spec fn read_rx_buffer_txns(chip: Chip, idx: u8) -> Seq<Seq<Op>> {
    if chip.spec_has_shortcuts() {
        seq![read_rx_txn(chip, idx)]
    } else {
        seq![read_rx_txn(chip, idx), modify_register_txn(0x2C, 1u8 << idx, 0)]
    }
}

/// The transactions of a transmit whose status read returned `status`
pub open spec fn transmit_txns(chip: Chip, status: u8, frame: Seq<u8>) -> Seq<Seq<Op>> {
    seq![read_status_txn()] + match select_tx_spec(status) {
        Some(b) => seq![
            load_tx_txn(chip, b.spec_index(), load_bytes(frame)),
            request_to_send_txn(b.spec_index()),
        ],
        None => seq![],
    }
}

/// The transactions of a receive whose status read returned `status`
pub open spec fn receive_txns(chip: Chip, status: u8) -> Seq<Seq<Op>> {
    seq![read_status_txn()] + match select_rx_spec(status) {
        Some(b) => read_rx_buffer_txns(chip, b.spec_index()),
        None => seq![],
    }
}

/// Either a MCP2510, MCP2515 or MCP25625 CAN controller on a bus
///
/// The bus records every transaction run on it, with what came back; the contracts below
/// speak of that record.
pub struct MCP25xx<SPI: Interface> {
    pub spi: Bus<SPI>,
    pub chip: Chip,
}

/// A driver on a bus that does nothing
pub fn get_mcp25xx() -> (r: MCP25xx<NoOpSPI>)
    ensures
        r.chip == Chip::MCP2510,
        r.spi.history() == Seq::<Exchange<()>>::empty(),
{
    MCP25xx::new(NoOpSPI, Chip::MCP2510)
}

impl<SPI: Interface> MCP25xx<SPI> {
    /// A driver for `chip` on `spi`, with nothing run on the bus yet
    pub fn new(spi: SPI, chip: Chip) -> (r: Self)
        ensures
            r.chip == chip,
            r.spi.history() == Seq::<Exchange<SPI::Error>>::empty(),
    {
        MCP25xx { spi: Bus::new(spi), chip }
    }

    /// Runs one transaction on the bus
    fn exchange(&mut self, ops: &Vec<Operation>) -> (r: Result<Vec<u8>, SPI::Error>)
        ensures
            final(self).chip == old(self).chip,
            final(self).spi.history() == old(self).spi.history().push(
                Exchange { ops: ops_of(ops@), reply: result_view(r) },
            ),
            settled(r, old(self).spi.history(), final(self).spi.history(), seq![ops_of(ops@)]),
            r matches Ok(v) ==> v@.len() == read_len(ops_of(ops@)),
    {
        let ghost before = self.spi.history();
        let r = self.spi.transaction(ops);
        proof {
            let after = self.spi.history();
            assert(before =~= after.subrange(0, before.len() as int));
            assert(txns_of(after) =~= txns_of(before) + seq![ops_of(ops@)]);
        }
        r
    }

    /// Runs the transactions in order and stops at the first that fails
    fn run_all(&mut self, txns: &Vec<Vec<Operation>>) -> (r: Result<(), SPI::Error>)
        ensures
            final(self).chip == old(self).chip,
            settled(r, old(self).spi.history(), final(self).spi.history(), txns_of_ops(txns@)),
    {
        let ghost before = self.spi.history();
        let ghost all = txns_of_ops(txns@);
        proof {
            lemma_ran_nothing(before);
            assert(all.take(0) =~= seq![]);
        }
        let mut i: usize = 0;
        while i < txns.len()
            invariant
                i <= txns@.len(),
                all == txns_of_ops(txns@),
                self.chip == old(self).chip,
                before == old(self).spi.history(),
                ran(before, self.spi.history(), all.take(i as int)),
            decreases txns@.len() - i,
        {
            let ghost mid = self.spi.history();
            match self.exchange(&txns[i]) {
                Ok(_) => {
                    proof {
                        lemma_ran_then_ran(before, mid, self.spi.history(), all.take(i as int), seq![all[i as int]]);
                        assert(all.take(i as int) + seq![all[i as int]] =~= all.take(i + 1));
                    }
                },
                Err(e) => {
                    proof {
                        lemma_ran_then_failed(before, mid, self.spi.history(), all.take(i as int), seq![all[i as int]], e);
                        assert(all.take(i as int) + seq![all[i as int]] =~= all.take(i + 1));
                        lemma_failed_extend(before, self.spi.history(), all.take(i + 1), all.skip(i + 1), e);
                        assert(all.take(i + 1) + all.skip(i + 1) =~= all);
                    }
                    return Err(e);
                },
            }
            i = i + 1;
        }
        proof {
            assert(all.take(txns@.len() as int) =~= all);
        }
        Ok(())
    }
}

impl<SPI: Interface> MCP25xx<SPI> {
    /// Performs the following steps:
    /// * resets the CAN Controller (this resets all registers and puts it into configuration mode)
    /// * writes the bit timing registers
    /// * writes both receive buffer control registers
    /// * writes each filter and mask, in the order given
    /// * writes the CAN control register, which selects the operation mode
    ///
    /// The default state of the mask registers is all zeros, which means, filters get ignored.
    /// Give values for both mask registers even if only one receive buffer is used.
    pub fn apply_config(&mut self, config: &Config) -> (r: Result<(), SPI::Error>)
        ensures
            final(self).chip == old(self).chip,
            settled(r, old(self).spi.history(), final(self).spi.history(), config_txns(*config)),
    {
        let txns = config_ops(config);
        self.run_all(&txns)
    }

    /// Set the controller to NormalOperation, Sleep, Loopback, ListenOnly or Configuration
    pub fn set_mode(&mut self, mode: OperationMode) -> (r: Result<(), SPI::Error>)
        ensures
            final(self).chip == old(self).chip,
            settled(
                r,
                old(self).spi.history(),
                final(self).spi.history(),
                seq![modify_register_txn(CANCTRL::spec_address(), 0b1110_0000, with_field_of(0, 5, 7, mode.spec_bits()))],
            ),
    {
        let reg = CANCTRL::new().with_reqop(mode);
        self.modify_register(reg, 0b1110_0000)
    }

    /// Set clock settings; the controller needs to be in Configuration mode for this
    pub fn set_bitrate(&mut self, cnf: CNF) -> (r: Result<(), SPI::Error>)
        ensures
            final(self).chip == old(self).chip,
            settled(r, old(self).spi.history(), final(self).spi.history(), seq![write_registers_txn(CNF3::spec_address(), cnf.spec_bytes())]),
    {
        let bytes = cnf.into_bytes();
        self.write_registers(CNF3::address(), &bytes)
    }

    /// Set an individual receive buffer filter or mask; the controller needs to be in
    /// Configuration mode for this
    pub fn set_filter(&mut self, filter: AcceptanceFilter, id: IdHeader) -> (r: Result<(), SPI::Error>)
        ensures
            final(self).chip == old(self).chip,
            settled(r, old(self).spi.history(), final(self).spi.history(), seq![write_registers_txn(filter.spec_address(), id@)]),
    {
        let bytes = id.into_bytes();
        self.write_registers(filter.address(), &bytes)
    }

    /// Read status flags
    pub fn read_status(&mut self) -> (r: Result<ReadStatusResponse, SPI::Error>)
        ensures
            final(self).chip == old(self).chip,
            settled(r, old(self).spi.history(), final(self).spi.history(), seq![read_status_txn()]),
            r matches Ok(s) ==> s@ == byte_read(final(self).spi.history(), old(self).spi.history().len() as int),
    {
        let ops = read_status_ops();
        match self.exchange(&ops) {
            Ok(v) => Ok(ReadStatusResponse::from_byte(v[0])),
            Err(e) => Err(e),
        }
    }

    /// Reset internal registers to the default state. Sets Configuration mode.
    pub fn reset(&mut self) -> (r: Result<(), SPI::Error>)
        ensures
            final(self).chip == old(self).chip,
            settled(r, old(self).spi.history(), final(self).spi.history(), seq![reset_txn()]),
    {
        let ops = reset_ops();
        match self.exchange(&ops) {
            Ok(_) => Ok(()),
            Err(e) => Err(e),
        }
    }

    /// Read receive buffer status flags (MCP2515 and MCP25625 only)
    pub fn rx_status(&mut self) -> (r: Result<RxStatusResponse, SPI::Error>)
        requires
            old(self).chip.spec_has_shortcuts(),
        ensures
            final(self).chip == old(self).chip,
            settled(r, old(self).spi.history(), final(self).spi.history(), seq![rx_status_txn()]),
            r matches Ok(s) ==> s@ == byte_read(final(self).spi.history(), old(self).spi.history().len() as int),
    {
        let ops = rx_status_ops();
        match self.exchange(&ops) {
            Ok(v) => Ok(RxStatusResponse::from_byte(v[0])),
            Err(e) => Err(e),
        }
    }

    /// Read a single register
    pub fn read_register<R: Register>(&mut self) -> (r: Result<R, SPI::Error>)
        ensures
            final(self).chip == old(self).chip,
            settled(r, old(self).spi.history(), final(self).spi.history(), seq![read_register_txn(R::spec_address())]),
            r matches Ok(x) ==> x@ == byte_read(final(self).spi.history(), old(self).spi.history().len() as int),
    {
        let ops = read_register_ops(R::address());
        match self.exchange(&ops) {
            Ok(v) => Ok(R::from_byte(v[0])),
            Err(e) => Err(e),
        }
    }

    /// Write a single register
    pub fn write_register<R: Register>(&mut self, reg: R) -> (r: Result<(), SPI::Error>)
        ensures
            final(self).chip == old(self).chip,
            settled(r, old(self).spi.history(), final(self).spi.history(), seq![write_register_txn(R::spec_address(), reg@)]),
    {
        let ops = write_register_ops(R::address(), reg.into_byte());
        match self.exchange(&ops) {
            Ok(_) => Ok(()),
            Err(e) => Err(e),
        }
    }

    /// Modify the bits of a single register that `mask` selects
    ///
    /// Only registers implementing [`Modify`] support the `BitModify` instruction
    pub fn modify_register<R: Modify>(&mut self, reg: R, mask: u8) -> (r: Result<(), SPI::Error>)
        ensures
            final(self).chip == old(self).chip,
            settled(r, old(self).spi.history(), final(self).spi.history(), seq![modify_register_txn(R::spec_address(), mask, reg@)]),
    {
        let ops = modify_register_ops(R::address(), mask, reg.into_byte());
        match self.exchange(&ops) {
            Ok(_) => Ok(()),
            Err(e) => Err(e),
        }
    }

    /// Read consecutive registers, as many as `buf` holds
    pub fn read_registers(&mut self, start_address: u8, buf: &mut [u8]) -> (r: Result<(), SPI::Error>)
        ensures
            final(self).chip == old(self).chip,
            settled(r, old(self).spi.history(), final(self).spi.history(), seq![read_registers_txn(start_address, old(buf)@.len())]),
            final(buf)@.len() == old(buf)@.len(),
            r is Ok ==> final(buf)@ == bytes_read(final(self).spi.history(), old(self).spi.history().len() as int),
    {
        let ops = read_registers_ops(start_address, buf.len());
        match self.exchange(&ops) {
            Ok(v) => {
                let mut i: usize = 0;
                while i < buf.len()
                    invariant
                        i <= buf@.len(),
                        buf@.len() == v@.len(),
                        forall|k: int| 0 <= k < i ==> buf@[k] == v@[k],
                    decreases buf@.len() - i,
                {
                    buf[i] = v[i];
                    i = i + 1;
                }
                assert(buf@ =~= v@);
                Ok(())
            },
            Err(e) => Err(e),
        }
    }

    /// Write consecutive registers
    pub fn write_registers(&mut self, start_address: u8, data: &[u8]) -> (r: Result<(), SPI::Error>)
        ensures
            final(self).chip == old(self).chip,
            settled(r, old(self).spi.history(), final(self).spi.history(), seq![write_registers_txn(start_address, data@)]),
    {
        let ops = write_registers_ops(start_address, data);
        match self.exchange(&ops) {
            Ok(_) => Ok(()),
            Err(e) => Err(e),
        }
    }

    /// Request the selected transmit buffer to send a CAN frame
    pub fn request_to_send(&mut self, buf_idx: TxBuffer) -> (r: Result<(), SPI::Error>)
        ensures
            final(self).chip == old(self).chip,
            settled(r, old(self).spi.history(), final(self).spi.history(), seq![request_to_send_txn(buf_idx.spec_index())]),
    {
        let ops = request_to_send_ops(buf_idx.index());
        match self.exchange(&ops) {
            Ok(_) => Ok(()),
            Err(e) => Err(e),
        }
    }

    /// Set up the selected transmit buffer with the frame's identifier, control byte and
    /// meaningful data
    pub fn load_tx_buffer(&mut self, buf_idx: TxBuffer, frame: &CanFrame) -> (r: Result<(), SPI::Error>)
        ensures
            final(self).chip == old(self).chip,
            settled(
                r,
                old(self).spi.history(),
                final(self).spi.history(),
                seq![load_tx_txn(old(self).chip, buf_idx.spec_index(), load_bytes(frame@))],
            ),
    {
        let bytes = frame.as_bytes();
        let n = frame.dlc();
        let data = &bytes[0..5 + n];
        assert(data@ =~= load_bytes(frame@));
        let ops = load_tx_ops(self.chip, buf_idx.index(), data);
        match self.exchange(&ops) {
            Ok(_) => Ok(()),
            Err(e) => Err(e),
        }
    }

    /// Read the frame in the selected receive buffer; on a chip without the shortcut
    /// instruction, then clear the buffer's receive flag
    pub fn read_rx_buffer(&mut self, buf_idx: RxBuffer) -> (r: Result<CanFrame, SPI::Error>)
        ensures
            final(self).chip == old(self).chip,
            settled(r, old(self).spi.history(), final(self).spi.history(), read_rx_buffer_txns(old(self).chip, buf_idx.spec_index())),
            r matches Ok(f) ==> f@ == decode_bytes(bytes_read(final(self).spi.history(), old(self).spi.history().len() as int)),
    {
        let ghost before = self.spi.history();
        let ghost all = read_rx_buffer_txns(self.chip, buf_idx.spec_index());
        let idx = buf_idx.index();
        let ops = read_rx_ops(self.chip, idx);
        let v = match self.exchange(&ops) {
            Ok(v) => v,
            Err(e) => {
                proof {
                    lemma_failed_extend(before, self.spi.history(), seq![all[0]], all.skip(1), e);
                    assert(seq![all[0]] + all.skip(1) =~= all);
                }
                return Err(e);
            },
        };
        let bytes: [u8; 13] = [v[0], v[1], v[2], v[3], v[4], v[5], v[6], v[7], v[8], v[9], v[10], v[11], v[12]];
        assert(bytes@ =~= v@);
        let frame = CanFrame::from_bytes(bytes);
        if !self.chip.has_shortcuts() {
            let ghost mid = self.spi.history();
            let res = self.modify_register(CANINTF::new(), 1u8 << idx);
            proof {
                assert(CANINTF::spec_address() == 0x2C);
                assert(mid[before.len() as int] == self.spi.history()[before.len() as int]) by {
                    assert(mid =~= self.spi.history().subrange(0, mid.len() as int));
                }
                if res is Ok {
                    lemma_ran_then_ran(before, mid, self.spi.history(), seq![all[0]], seq![all[1]]);
                } else {
                    lemma_ran_then_failed(before, mid, self.spi.history(), seq![all[0]], seq![all[1]], res->Err_0);
                }
                assert(seq![all[0]] + seq![all[1]] =~= all);
            }
            match res {
                Ok(_) => {},
                Err(e) => {
                    return Err(e);
                },
            }
        } else {
            assert(seq![all[0]] =~= all);
        }
        Ok(frame)
    }

    /// Transmits a frame in the first free transmit buffer, by fixed priority 0, 1, 2;
    /// reports [`NbError::WouldBlock`] when all three are pending
    pub fn transmit(&mut self, frame: &CanFrame) -> (r: Result<Option<CanFrame>, NbError<SpiError<SPI::Error>>>)
        ensures
            final(self).chip == old(self).chip,
            old(self).spi.history().len() < final(self).spi.history().len(),
            final(self).spi.history()[old(self).spi.history().len() as int].ops == read_status_txn(),
            ({
                let status = byte_read(final(self).spi.history(), old(self).spi.history().len() as int);
                let txns = transmit_txns(old(self).chip, status, frame@);
                match r {
                    Ok(replaced) => replaced is None && select_tx_spec(status) is Some && ran(
                        old(self).spi.history(),
                        final(self).spi.history(),
                        txns,
                    ),
                    Err(NbError::WouldBlock) => select_tx_spec(status) is None && ran(
                        old(self).spi.history(),
                        final(self).spi.history(),
                        txns,
                    ),
                    Err(NbError::Other(SpiError(e))) => failed(old(self).spi.history(), final(self).spi.history(), txns, e),
                }
            }),
    {
        let ghost before = self.spi.history();
        let ghost k = before.len() as int;
        let status = match self.read_status() {
            Ok(s) => s,
            Err(e) => {
                proof {
                    let txns = transmit_txns(self.chip, byte_read(self.spi.history(), k), frame@);
                    lemma_failed_extend(before, self.spi.history(), seq![read_status_txn()], txns.skip(1), e);
                    assert(seq![read_status_txn()] + txns.skip(1) =~= txns);
                    lemma_first_txn_failed(before, self.spi.history(), txns, e);
                }
                return Err(NbError::Other(SpiError(e)));
            },
        };
        let ghost mid = self.spi.history();
        let ghost txns = transmit_txns(self.chip, byte_read(mid, k), frame@);
        match select_tx_buffer(status) {
            None => {
                assert(txns =~= seq![read_status_txn()]);
                proof {
                    lemma_first_txn_ran(before, self.spi.history(), txns);
                }
                Err(NbError::WouldBlock)
            },
            Some(b) => {
                let idx = b.index();
                let bytes = frame.as_bytes();
                let n = frame.dlc();
                let data = &bytes[0..5 + n];
                assert(data@ =~= load_bytes(frame@));
                let mut plan: Vec<Vec<Operation>> = Vec::new();
                plan.push(load_tx_ops(self.chip, idx, data));
                plan.push(request_to_send_ops(idx));
                let res = self.run_all(&plan);
                proof {
                    assert(txns_of_ops(plan@) =~= txns.skip(1));
                    assert(seq![read_status_txn()] + txns.skip(1) =~= txns);
                    assert(mid[k] == self.spi.history()[k]) by {
                        assert(mid =~= self.spi.history().subrange(0, mid.len() as int));
                    }
                    if res is Ok {
                        lemma_ran_then_ran(before, mid, self.spi.history(), seq![read_status_txn()], txns.skip(1));
                        lemma_first_txn_ran(before, self.spi.history(), txns);
                    } else {
                        let e = res->Err_0;
                        lemma_ran_then_failed(before, mid, self.spi.history(), seq![read_status_txn()], txns.skip(1), e);
                        lemma_first_txn_failed(before, self.spi.history(), txns, e);
                    }
                }
                match res {
                    Ok(()) => Ok(None),
                    Err(e) => Err(NbError::Other(SpiError(e))),
                }
            },
        }
    }

    /// Receives the frame of receive buffer 0 if it holds one, else that of buffer 1;
    /// reports [`NbError::WouldBlock`] when neither does
    pub fn receive(&mut self) -> (r: Result<CanFrame, NbError<SpiError<SPI::Error>>>)
        ensures
            final(self).chip == old(self).chip,
            old(self).spi.history().len() < final(self).spi.history().len(),
            final(self).spi.history()[old(self).spi.history().len() as int].ops == read_status_txn(),
            ({
                let status = byte_read(final(self).spi.history(), old(self).spi.history().len() as int);
                let txns = receive_txns(old(self).chip, status);
                match r {
                    Ok(f) => select_rx_spec(status) is Some && ran(old(self).spi.history(), final(self).spi.history(), txns)
                        && f@ == decode_bytes(bytes_read(final(self).spi.history(), old(self).spi.history().len() + 1int)),
                    Err(NbError::WouldBlock) => select_rx_spec(status) is None && ran(
                        old(self).spi.history(),
                        final(self).spi.history(),
                        txns,
                    ),
                    Err(NbError::Other(SpiError(e))) => failed(old(self).spi.history(), final(self).spi.history(), txns, e),
                }
            }),
    {
        let ghost before = self.spi.history();
        let ghost k = before.len() as int;
        let status = match self.read_status() {
            Ok(s) => s,
            Err(e) => {
                proof {
                    let txns = receive_txns(self.chip, byte_read(self.spi.history(), k));
                    lemma_failed_extend(before, self.spi.history(), seq![read_status_txn()], txns.skip(1), e);
                    assert(seq![read_status_txn()] + txns.skip(1) =~= txns);
                    lemma_first_txn_failed(before, self.spi.history(), txns, e);
                }
                return Err(NbError::Other(SpiError(e)));
            },
        };
        let ghost mid = self.spi.history();
        let ghost txns = receive_txns(self.chip, byte_read(mid, k));
        match select_rx_buffer(status) {
            None => {
                assert(txns =~= seq![read_status_txn()]);
                proof {
                    lemma_first_txn_ran(before, self.spi.history(), txns);
                }
                Err(NbError::WouldBlock)
            },
            Some(b) => {
                let res = self.read_rx_buffer(b);
                proof {
                    assert(txns.skip(1) =~= read_rx_buffer_txns(self.chip, b.spec_index()));
                    assert(seq![read_status_txn()] + txns.skip(1) =~= txns);
                    assert(mid[k] == self.spi.history()[k]) by {
                        assert(mid =~= self.spi.history().subrange(0, mid.len() as int));
                    }
                    if res is Ok {
                        lemma_ran_then_ran(before, mid, self.spi.history(), seq![read_status_txn()], txns.skip(1));
                        lemma_first_txn_ran(before, self.spi.history(), txns);
                    } else {
                        let e = res->Err_0;
                        lemma_ran_then_failed(before, mid, self.spi.history(), seq![read_status_txn()], txns.skip(1), e);
                        lemma_first_txn_failed(before, self.spi.history(), txns, e);
                    }
                }
                match res {
                    Ok(f) => Ok(f),
                    Err(e) => Err(NbError::Other(SpiError(e))),
                }
            },
        }
    }
}

/// Applying a configuration runs, each as one transaction: the reset instruction, a write
/// of the three bit timing registers from CNF3 on, a write of each receive buffer control
/// register, a write of each filter or mask in the order given, and last a write of the
/// CAN control register.
pub proof fn lemma_config_sequence(c: Config)
    ensures
        config_txns(c).len() == c.filters@.len() + 5,
        config_txns(c)[0] == seq![Op::Write(seq![0xC0u8])],
        config_txns(c)[1] == seq![Op::Write(seq![0x02u8, 0x28u8]), Op::Write(c.cnf.spec_bytes())],
        config_txns(c)[2] == seq![Op::Write(seq![0x02u8, 0x60u8, c.rxb0ctrl@])],
        config_txns(c)[3] == seq![Op::Write(seq![0x02u8, 0x70u8, c.rxb1ctrl@])],
        forall|i: int|
            0 <= i < c.filters@.len() ==> config_txns(c)[4 + i] == seq![
                Op::Write(seq![0x02u8, (#[trigger] c.filters@[i]).0.spec_address()]),
                Op::Write(c.filters@[i].1@),
            ],
        config_txns(c).last() == seq![Op::Write(seq![0x02u8, 0x0Fu8, c.canctrl@])],
{
    let n = c.filters@.len();
    let fs = c.filters@.map_values(|f: (AcceptanceFilter, IdHeader)| filter_txn(f));
    let t = config_txns(c);
    assert forall|i: int| 0 <= i < n implies t[4 + i] == seq![
        Op::Write(seq![0x02u8, (#[trigger] c.filters@[i]).0.spec_address()]),
        Op::Write(c.filters@[i].1@),
    ] by {
        assert(t[4 + i] == fs[i]);
    }
}

/// Transmitting a data frame with standard identifier 1 and data 1, 2, 3 while transmit
/// buffer 0 is free reads the status, loads 0x00, 0x20, 0x00, 0x00, 0x03, 1, 2, 3 into
/// buffer 0, and requests buffer 0 to send.
pub proof fn lemma_transmit_example(chip: Chip, id: Id, status: u8)
    requires
        id_value(id) == (false, 1u32),
        !bit_of(status, 2),
    ensures
        transmit_txns(chip, status, frame_bytes(id, false, seq![1u8, 2u8, 3u8])) == seq![
            read_status_txn(),
            load_tx_txn(chip, 0, seq![0x00u8, 0x20u8, 0x00u8, 0x00u8, 0x03u8, 1u8, 2u8, 3u8]),
            seq![Op::Write(seq![0x81u8])],
        ],
{
    let raw: u16 = 1;
    assert((raw >> 3u16) as u8 == 0u8 && (((raw as u8) & 7u8) << 5u8) as u8 == 0x20u8) by (bit_vector)
        requires
            raw == 1,
    ;
    let f = frame_bytes(id, false, seq![1u8, 2u8, 3u8]);
    assert(id_header(id) =~= seq![0x00u8, 0x20u8, 0x00u8, 0x00u8]);
    let three: u8 = 3;
    assert(length_nibble(three) == 3u8) by (bit_vector)
        requires
            three == 3,
    ;
    assert(load_bytes(f) =~= seq![0x00u8, 0x20u8, 0x00u8, 0x00u8, 0x03u8, 1u8, 2u8, 3u8]);
    let zero: u8 = 0;
    assert(0x80u8 | (1u8 << zero) == 0x81u8) by (bit_vector)
        requires
            zero == 0,
    ;
}

/// The transactions of a list of transactions, as values
pub open spec fn txns_of_ops(txns: Seq<Vec<Operation>>) -> Seq<Seq<Op>> {
    txns.map_values(|t: Vec<Operation>| ops_of(t@))
}

} // verus!
