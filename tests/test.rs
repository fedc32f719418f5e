use mcp25xx::registers::{OperationMode, Register, CANCTRL, CNF, CNF3, RXB0CTRL, RXM};
use mcp25xx::{
    AcceptanceFilter, CanFrame, Chip, Config, ExtendedId, Id, IdHeader, Instruction, Interface,
    NbError, Operation, RxBuffer, StandardId, TxBuffer, MCP25xx,
};

/// A bus that expects a fixed list of transactions and answers each with fixed bytes
struct MockBus {
    script: Vec<(Vec<Operation>, Vec<u8>)>,
    pos: usize,
    fail_at: Option<usize>,
}

impl MockBus {
    fn new(script: Vec<(Vec<Operation>, Vec<u8>)>) -> MockBus {
        MockBus { script, pos: 0, fail_at: None }
    }

    fn done(&self) {
        assert_eq!(self.pos, self.script.len(), "not all expected transactions ran");
    }
}

impl Interface for MockBus {
    type Error = &'static str;

    fn transaction(&mut self, ops: &Vec<Operation>) -> Result<Vec<u8>, &'static str> {
        assert!(self.pos < self.script.len(), "unexpected transaction {:?}", ops);
        let (expected, reply) = &self.script[self.pos];
        assert_eq!(ops, expected);
        self.pos += 1;
        if self.fail_at == Some(self.pos - 1) {
            return Err("bus fault");
        }
        Ok(reply.clone())
    }
}

fn w(bytes: &[u8]) -> Operation {
    Operation::Write(bytes.to_vec())
}

fn read_status(status: u8) -> (Vec<Operation>, Vec<u8>) {
    (vec![w(&[Instruction::ReadStatus.code()]), Operation::Read(1)], vec![status])
}

#[test]
fn test_set_mode() {
    let bus = MockBus::new(vec![(
        vec![w(&[Instruction::BitModify.code(), CANCTRL::address(), 0b11100000, 0b10000000])],
        vec![],
    )]);
    let mut mock = MCP25xx::new(bus, Chip::MCP2510);
    mock.set_mode(OperationMode::Configuration).unwrap();
    mock.spi.dev().done();
}

#[test]
fn test_set_bitrate() {
    let bus = MockBus::new(vec![(
        vec![w(&[Instruction::Write.code(), CNF3::address()]), w(&[0x82, 0x90, 0x00])],
        vec![],
    )]);
    let mut mock = MCP25xx::new(bus, Chip::MCP2510);
    mock.set_bitrate(CNF::from_bytes(mcp25xx::bitrates::clock_8mhz::CNF_500K_BPS))
        .unwrap();
    mock.spi.dev().done();
}

fn transmit_one(chip: Chip, load_instruction: Vec<u8>) {
    let bus = MockBus::new(vec![
        read_status(0),
        (vec![w(&load_instruction), w(&[0, 32, 0, 0, 3, 1, 2, 3])], vec![]),
        (vec![w(&[Instruction::Rts.code() | 1])], vec![]),
    ]);
    let mut mock = MCP25xx::new(bus, chip);
    let frame = CanFrame::new(Id::Standard(StandardId::new(1).unwrap()), &[1, 2, 3]).unwrap();
    assert!(mock.transmit(&frame).unwrap().is_none());
    mock.spi.dev().done();
}

#[test]
fn test_transmit() {
    transmit_one(Chip::MCP2510, vec![Instruction::Write.code(), 0x31]);
    transmit_one(Chip::MCP2515, vec![Instruction::LoadTxBuffer.code()]);
    transmit_one(Chip::MCP25625, vec![Instruction::LoadTxBuffer.code()]);
}

#[test]
fn standard_id_round_trip_all() {
    for raw in 0..=0x7FFu16 {
        let id = StandardId::new(raw).unwrap();
        let header = IdHeader::from_bytes(IdHeader::from_standard(id).into_bytes());
        assert!(!header.exide());
        assert_eq!(header.id(), Id::Standard(id));
    }
    assert!(StandardId::new(0x800).is_none());
}

#[test]
fn extended_id_round_trip() {
    for raw in [0u32, 1, 0x7FF, 0x800, 0x3FFFF, 0x12345678, 0x1555_5555, 0x0AAA_AAAA, 0x1FFF_FFFF] {
        let id = ExtendedId::new(raw).unwrap();
        let bytes = IdHeader::from_extended(id).into_bytes();
        assert_ne!(bytes[1] & 0x08, 0);
        let header = IdHeader::from_bytes(bytes);
        assert!(header.exide());
        assert_eq!(header.id(), Id::Extended(id));
    }
    assert!(ExtendedId::new(0x2000_0000).is_none());
}

#[test]
fn extended_header_layout() {
    let id = ExtendedId::new(0x1234_5678).unwrap();
    assert_eq!(IdHeader::from_extended(id).into_bytes(), [0x91, 0xA8, 0x56, 0x78]);
}

#[test]
fn two_data_bytes_header() {
    let id = StandardId::new(0x123).unwrap();
    let header = IdHeader::with_two_data_bytes(id, [4, 5]);
    assert_eq!(header.into_bytes(), [0x24, 0x60, 4, 5]);
    assert_eq!(header.id(), Id::Standard(id));
}

#[test]
fn frame_round_trip() {
    let ids = [
        Id::Standard(StandardId::new(0x7FF).unwrap()),
        Id::Extended(ExtendedId::new(0x1ABC_DEF0).unwrap()),
    ];
    for id in ids {
        for len in 0..=8usize {
            let data: Vec<u8> = (0..len as u8).map(|b| b.wrapping_mul(37).wrapping_add(1)).collect();
            let frame = CanFrame::new(id, &data).unwrap();
            let decoded = CanFrame::from_bytes(frame.as_bytes());
            assert_eq!(decoded.as_bytes(), frame.as_bytes());
            assert_eq!(decoded.id(), id);
            assert_eq!(decoded.dlc(), len);
            assert_eq!(decoded.data(), &data[..]);
            assert!(!decoded.is_remote_frame());
            assert_eq!(decoded.is_extended(), matches!(id, Id::Extended(_)));

            let remote = CanFrame::new_remote(id, len).unwrap();
            let decoded = CanFrame::from_bytes(remote.as_bytes());
            assert!(decoded.is_remote_frame());
            assert_eq!(decoded.dlc(), len);
            assert_eq!(decoded.id(), id);
        }
    }
}

#[test]
fn frame_length_limits() {
    let id = Id::Standard(StandardId::new(5).unwrap());
    assert!(CanFrame::new(id, &[0; 9]).is_none());
    assert!(CanFrame::new(id, &[0; 8]).is_some());
    assert!(CanFrame::new_remote(id, 9).is_none());
    assert!(CanFrame::new_remote(id, 8).is_some());
}

#[test]
fn decode_clamps_length() {
    let bytes = [0x00, 0x20, 0x00, 0x00, 0x4F, 1, 2, 3, 4, 5, 6, 7, 8];
    let frame = CanFrame::from_bytes(bytes);
    assert_eq!(frame.dlc(), 8);
    assert_eq!(frame.data(), &[1, 2, 3, 4, 5, 6, 7, 8]);
    assert!(frame.is_remote_frame());
    assert_eq!(frame.as_bytes()[4], 0x48);
    assert_eq!(frame.id(), Id::Standard(StandardId::new(1).unwrap()));
}

#[test]
fn transmit_picks_buffer_two() {
    // transmit requests pending on buffers 0 and 1
    let bus = MockBus::new(vec![
        read_status(0b0001_0100),
        (vec![w(&[Instruction::Write.code(), 0x51]), w(&[0, 32, 0, 0, 0])], vec![]),
        (vec![w(&[Instruction::Rts.code() | 4])], vec![]),
    ]);
    let mut mock = MCP25xx::new(bus, Chip::MCP2510);
    let frame = CanFrame::new(Id::Standard(StandardId::new(1).unwrap()), &[]).unwrap();
    assert!(mock.transmit(&frame).unwrap().is_none());
    mock.spi.dev().done();
}

#[test]
fn transmit_would_block_when_all_pending() {
    let bus = MockBus::new(vec![read_status(0b0101_0100)]);
    let mut mock = MCP25xx::new(bus, Chip::MCP2515);
    let frame = CanFrame::new(Id::Standard(StandardId::new(1).unwrap()), &[9]).unwrap();
    assert!(matches!(mock.transmit(&frame), Err(NbError::WouldBlock)));
    mock.spi.dev().done();
}

#[test]
fn transmit_bus_fault_stops() {
    let mut bus = MockBus::new(vec![
        read_status(0),
        (vec![w(&[Instruction::LoadTxBuffer.code()]), w(&[0, 32, 0, 0, 1, 9])], vec![]),
    ]);
    bus.fail_at = Some(1);
    let mut mock = MCP25xx::new(bus, Chip::MCP2515);
    let frame = CanFrame::new(Id::Standard(StandardId::new(1).unwrap()), &[9]).unwrap();
    match mock.transmit(&frame) {
        Err(NbError::Other(e)) => assert_eq!(e.0, "bus fault"),
        _ => panic!("expected the bus fault"),
    }
    mock.spi.dev().done();
}

#[test]
fn receive_prefers_buffer_zero() {
    let frame = [0x00, 0x40, 0x00, 0x00, 0x02, 0xAA, 0xBB, 0, 0, 0, 0, 0, 0];
    let bus = MockBus::new(vec![
        read_status(0b0000_0011),
        (vec![w(&[Instruction::ReadRxBuffer.code()]), Operation::Read(13)], frame.to_vec()),
    ]);
    let mut mock = MCP25xx::new(bus, Chip::MCP2515);
    let received = mock.receive().unwrap();
    assert_eq!(received.id(), Id::Standard(StandardId::new(2).unwrap()));
    assert_eq!(received.data(), &[0xAA, 0xBB]);
    mock.spi.dev().done();
}

#[test]
fn receive_fallback_clears_flag() {
    let frame = [0x00, 0x40, 0x00, 0x00, 0x01, 0x11, 0, 0, 0, 0, 0, 0, 0];
    let bus = MockBus::new(vec![
        read_status(0b0000_0010),
        (vec![w(&[Instruction::Read.code(), 0x71]), Operation::Read(13)], frame.to_vec()),
        (vec![w(&[Instruction::BitModify.code(), 0x2C, 0b10, 0])], vec![]),
    ]);
    let mut mock = MCP25xx::new(bus, Chip::MCP2510);
    let received = mock.receive().unwrap();
    assert_eq!(received.data(), &[0x11]);
    mock.spi.dev().done();
}

#[test]
fn receive_would_block_when_empty() {
    let bus = MockBus::new(vec![read_status(0b1111_1100)]);
    let mut mock = MCP25xx::new(bus, Chip::MCP2510);
    assert!(matches!(mock.receive(), Err(NbError::WouldBlock)));
    mock.spi.dev().done();
}

#[test]
fn apply_config_sequence() {
    let filters = [
        (AcceptanceFilter::Filter0, IdHeader::from_standard(StandardId::new(123).unwrap())),
        (AcceptanceFilter::Mask1, IdHeader::from_extended(ExtendedId::new(0x1FFF_FFFF).unwrap())),
        (AcceptanceFilter::Mask0, IdHeader::from_standard(StandardId::new(0x7FF).unwrap())),
    ];
    let config = Config::default()
        .mode(OperationMode::NormalOperation)
        .bitrate(CNF::from_bytes(mcp25xx::bitrates::clock_16mhz::CNF_500K_BPS))
        .receive_buffer_0(RXB0CTRL::new().with_rxm(RXM::ReceiveAny))
        .filters(&filters);
    let bus = MockBus::new(vec![
        (vec![w(&[0xC0])], vec![]),
        (vec![w(&[0x02, 0x28]), w(&[0x86, 0xF0, 0x00])], vec![]),
        (vec![w(&[0x02, 0x60, 0x60])], vec![]),
        (vec![w(&[0x02, 0x70, 0x00])], vec![]),
        (vec![w(&[0x02, 0x00]), w(&[0x0F, 0x60, 0x00, 0x00])], vec![]),
        (vec![w(&[0x02, 0x24]), w(&[0xFF, 0xEB, 0xFF, 0xFF])], vec![]),
        (vec![w(&[0x02, 0x20]), w(&[0xFF, 0xE0, 0x00, 0x00])], vec![]),
        (vec![w(&[0x02, 0x0F, 0x07])], vec![]),
    ]);
    let mut mock = MCP25xx::new(bus, Chip::MCP2515);
    mock.apply_config(&config).unwrap();
    mock.spi.dev().done();
}

#[test]
fn apply_config_stops_at_bus_fault() {
    let mut bus = MockBus::new(vec![
        (vec![w(&[0xC0])], vec![]),
        (vec![w(&[0x02, 0x28]), w(&[0, 0, 0])], vec![]),
    ]);
    bus.fail_at = Some(1);
    let mut mock = MCP25xx::new(bus, Chip::MCP2510);
    assert_eq!(mock.apply_config(&Config::default()), Err("bus fault"));
    mock.spi.dev().done();
}

#[test]
fn register_access() {
    let bus = MockBus::new(vec![
        (vec![w(&[0x03, 0x0F]), Operation::Read(1)], vec![0x87]),
        (vec![w(&[0x02, 0x60, 0x04])], vec![]),
        (vec![w(&[0x03, 0x30]), Operation::Read(3)], vec![1, 2, 3]),
        (vec![w(&[0xC0])], vec![]),
        (vec![w(&[0x02, 0x08]), w(&[0x00, 0x20, 0x00, 0x00])], vec![]),
        (vec![w(&[0x80 | 2])], vec![]),
        (vec![w(&[0xB0]), Operation::Read(1)], vec![0b1100_1001]),
    ]);
    let mut mock = MCP25xx::new(bus, Chip::MCP25625);
    let canctrl: CANCTRL = mock.read_register().unwrap();
    assert_eq!(canctrl.reqop(), OperationMode::Configuration);
    assert!(canctrl.clken());
    mock.write_register(RXB0CTRL::new().with_bukt(true)).unwrap();
    let mut buf = [0u8; 3];
    mock.read_registers(0x30, &mut buf).unwrap();
    assert_eq!(buf, [1, 2, 3]);
    mock.reset().unwrap();
    mock.set_filter(AcceptanceFilter::Filter2, IdHeader::from_standard(StandardId::new(1).unwrap()))
        .unwrap();
    mock.request_to_send(TxBuffer::TXB1).unwrap();
    let rx = mock.rx_status().unwrap();
    assert!(rx.rx0if() && rx.rx1if() && rx.is_remote() && !rx.is_extended());
    mock.spi.dev().done();
}

#[test]
fn read_rx_buffer_fallback_address() {
    let bus = MockBus::new(vec![
        (vec![w(&[0x03, 0x61]), Operation::Read(13)], vec![0; 13]),
        (vec![w(&[0x05, 0x2C, 0x01, 0x00])], vec![]),
    ]);
    let mut mock = MCP25xx::new(bus, Chip::MCP2510);
    let frame = mock.read_rx_buffer(RxBuffer::RXB0).unwrap();
    assert_eq!(frame.dlc(), 0);
    mock.spi.dev().done();
}

#[test]
fn register_codec() {
    assert_eq!(CANCTRL::default().into_byte(), 0x87);
    assert_eq!(CANCTRL::default().reqop(), OperationMode::Configuration);
    assert_eq!(CANCTRL::new().with_reqop(OperationMode::ListenOnly).into_byte(), 0x60);
    for b in 0..=255u8 {
        assert_eq!(CANCTRL::from_byte(b).into_byte(), b);
        assert_eq!(RXB0CTRL::from_byte(b).into_byte(), b);
    }
    assert_eq!(RXB0CTRL::from_byte(0x60).rxm(), RXM::ReceiveAny);
}

#[test]
fn conversions_into_header() {
    let std_id = StandardId::new(1234).unwrap();
    let ext_id = ExtendedId::new(4321).unwrap();
    let a: IdHeader = std_id.into();
    let b: IdHeader = Id::from(std_id).into();
    assert_eq!(a, b);
    assert_eq!(a.into_bytes(), [0x9A, 0x40, 0, 0]);
    let c: IdHeader = ext_id.into();
    assert_eq!(c.id(), Id::Extended(ext_id));
    assert_eq!(c.into_bytes()[3], (4321u32 & 0xFF) as u8);
}

#[test]
fn no_op_bus() {
    let mut mcp = mcp25xx::get_mcp25xx();
    assert_eq!(mcp.read_status().unwrap().into_byte(), 0);
    let frame = CanFrame::new(Id::Standard(StandardId::new(123).unwrap()), &[1, 2, 3, 4, 5, 6, 7, 8])
        .unwrap();
    assert!(mcp.transmit(&frame).unwrap().is_none());
    assert!(matches!(mcp.receive(), Err(NbError::WouldBlock)));
    mcp.apply_config(&Config::default()).unwrap();
}

#[test]
fn config_builders() {
    let config = Config::default();
    assert_eq!(config.canctrl.into_byte(), 0x87);
    assert_eq!(config.cnf.into_bytes(), [0, 0, 0]);
    assert!(config.filters.is_empty());
    let config = config
        .mode(OperationMode::Loopback)
        .can_control_register(CANCTRL::new().with_osm(true).with_reqop(OperationMode::Sleep))
        .receive_buffer_1(mcp25xx::registers::RXB1CTRL::new().with_rxm(RXM::FilterExtended));
    assert_eq!(config.canctrl.into_byte(), 0b0010_1000);
    assert_eq!(config.rxb1ctrl.into_byte(), 0b0100_0000);
    let config = Config::default().mode(OperationMode::Loopback);
    assert_eq!(config.canctrl.into_byte(), 0b0100_0111);
}

/// A raw bus and pin that log what happens on the wire
struct WireLog {
    events: std::rc::Rc<std::cell::RefCell<Vec<String>>>,
    reads: Vec<Vec<u8>>,
    fail_writes: bool,
}

impl mcp25xx::wire::SpiBus for WireLog {
    type Error = ();

    fn write(&mut self, words: &[u8]) -> Result<(), ()> {
        self.events.borrow_mut().push(format!("write {:?}", words));
        if self.fail_writes {
            Err(())
        } else {
            Ok(())
        }
    }

    fn read(&mut self, len: usize) -> Result<Vec<u8>, ()> {
        let v = self.reads.remove(0);
        assert_eq!(v.len(), len);
        self.events.borrow_mut().push(format!("read {:?}", v));
        Ok(v)
    }
}

struct Pin(std::rc::Rc<std::cell::RefCell<Vec<String>>>);

impl mcp25xx::wire::ChipSelect for Pin {
    fn set_low(&mut self) {
        self.0.borrow_mut().push("select".to_string());
    }

    fn set_high(&mut self) {
        self.0.borrow_mut().push("deselect".to_string());
    }
}

#[test]
fn chip_select_brackets_each_transaction() {
    let events = std::rc::Rc::new(std::cell::RefCell::new(Vec::new()));
    let bus = WireLog { events: events.clone(), reads: vec![vec![0]], fail_writes: false };
    let spi = mcp25xx::interface::SpiWithCs::new(bus, Pin(events.clone()));
    let mut mcp = MCP25xx::new(spi, Chip::MCP2510);
    let frame = CanFrame::new(Id::Standard(StandardId::new(1).unwrap()), &[1, 2, 3]).unwrap();
    assert!(mcp.transmit(&frame).unwrap().is_none());
    assert_eq!(
        *events.borrow(),
        vec![
            "select", "write [160]", "read [0]", "deselect",
            "select", "write [2, 49]", "write [0, 32, 0, 0, 3, 1, 2, 3]", "deselect",
            "select", "write [129]", "deselect",
        ]
    );
}

#[test]
fn chip_select_released_on_error() {
    let events = std::rc::Rc::new(std::cell::RefCell::new(Vec::new()));
    let bus = WireLog { events: events.clone(), reads: vec![], fail_writes: true };
    let spi = mcp25xx::interface::SpiWithCs::new(bus, Pin(events.clone()));
    let mut mcp = MCP25xx::new(spi, Chip::MCP2510);
    assert_eq!(mcp.reset(), Err(()));
    assert_eq!(*events.borrow(), vec!["select", "write [192]", "deselect"]);
}

#[test]
fn no_op_bus_reads_zeros() {
    let mut bus = mcp25xx::NoOpSPI;
    let ops = vec![w(&[0x03, 0x30]), Operation::Read(3), Operation::Read(2)];
    assert_eq!(bus.transaction(&ops), Ok(vec![0, 0, 0, 0, 0]));
}
