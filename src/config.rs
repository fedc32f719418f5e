use vstd::prelude::*;

use crate::interface::{ops_of, Op, Operation};
use crate::command::{reset_ops, reset_txn, write_register_ops, write_register_txn, write_registers_ops, write_registers_txn};
use crate::idheader::IdHeader;
use crate::registers::{
    with_field_of, OperationMode, Register, CANCTRL, CNF, CNF3, RXB0CTRL, RXB1CTRL,
};
use crate::{txns_of_ops, AcceptanceFilter};

verus! {

/// Settings that [`crate::MCP25xx::apply_config`] writes to the chip
#[derive(Clone, Debug)]
pub struct Config {
    pub canctrl: CANCTRL,
    pub cnf: CNF,
    pub rxb0ctrl: RXB0CTRL,
    pub rxb1ctrl: RXB1CTRL,
    pub filters: Vec<(AcceptanceFilter, IdHeader)>,
}

impl Default for Config {
    /// The chip's power-on register values and no filters
    fn default() -> (r: Self)
        ensures
            r.canctrl@ == 0b1000_0111,
            r.cnf.spec_bytes() == seq![0u8, 0u8, 0u8],
            r.rxb0ctrl@ == 0,
            r.rxb1ctrl@ == 0,
            r.filters@.len() == 0,
    {
        let r = Config {
            canctrl: CANCTRL::default(),
            cnf: CNF::default(),
            rxb0ctrl: RXB0CTRL::new(),
            rxb1ctrl: RXB1CTRL::new(),
            filters: Vec::new(),
        };
        assert(r.cnf.spec_bytes() =~= seq![0u8, 0u8, 0u8]);
        r
    }
}

impl Config {
    /// Sets the operation mode the chip enters at the end of the configuration
    pub fn mode(self, mode: OperationMode) -> (r: Self)
        ensures
            r.canctrl@ == with_field_of(self.canctrl@, 5, 7, mode.spec_bits()),
            r.cnf == self.cnf,
            r.rxb0ctrl == self.rxb0ctrl,
            r.rxb1ctrl == self.rxb1ctrl,
            r.filters@ == self.filters@,
    {
        let mut c = self;
        c.canctrl.set_reqop(mode);
        c
    }

    /// Sets the whole CAN control register
    pub fn can_control_register(self, canctrl: CANCTRL) -> (r: Self)
        ensures
            r.canctrl == canctrl,
            r.cnf == self.cnf,
            r.rxb0ctrl == self.rxb0ctrl,
            r.rxb1ctrl == self.rxb1ctrl,
            r.filters@ == self.filters@,
    {
        let mut c = self;
        c.canctrl = canctrl;
        c
    }

    /// Sets the bit timing registers
    pub fn bitrate(self, cnf: CNF) -> (r: Self)
        ensures
            r.canctrl == self.canctrl,
            r.cnf == cnf,
            r.rxb0ctrl == self.rxb0ctrl,
            r.rxb1ctrl == self.rxb1ctrl,
            r.filters@ == self.filters@,
    {
        let mut c = self;
        c.cnf = cnf;
        c
    }

    /// Sets the control register of receive buffer 0
    pub fn receive_buffer_0(self, rxb0ctrl: RXB0CTRL) -> (r: Self)
        ensures
            r.canctrl == self.canctrl,
            r.cnf == self.cnf,
            r.rxb0ctrl == rxb0ctrl,
            r.rxb1ctrl == self.rxb1ctrl,
            r.filters@ == self.filters@,
    {
        let mut c = self;
        c.rxb0ctrl = rxb0ctrl;
        c
    }

    /// Sets the control register of receive buffer 1
    pub fn receive_buffer_1(self, rxb1ctrl: RXB1CTRL) -> (r: Self)
        ensures
            r.canctrl == self.canctrl,
            r.cnf == self.cnf,
            r.rxb0ctrl == self.rxb0ctrl,
            r.rxb1ctrl == rxb1ctrl,
            r.filters@ == self.filters@,
    {
        let mut c = self;
        c.rxb1ctrl = rxb1ctrl;
        c
    }

    /// Sets the filters and masks to write, in the order given
    pub fn filters(self, filters: &[(AcceptanceFilter, IdHeader)]) -> (r: Self)
        ensures
            r.canctrl == self.canctrl,
            r.cnf == self.cnf,
            r.rxb0ctrl == self.rxb0ctrl,
            r.rxb1ctrl == self.rxb1ctrl,
            r.filters@ == filters@,
    {
        let mut v: Vec<(AcceptanceFilter, IdHeader)> = Vec::new();
        let mut i: usize = 0;
        while i < filters.len()
            invariant
                i <= filters@.len(),
                v@ == filters@.subrange(0, i as int),
            decreases filters@.len() - i,
        {
            v.push(filters[i]);
            i = i + 1;
            assert(v@ =~= filters@.subrange(0, i as int));
        }
        assert(filters@ =~= filters@.subrange(0, filters@.len() as int));
        let mut c = self;
        c.filters = v;
        c
    }
}

/// Writing one filter or mask
pub open spec fn filter_txn(f: (AcceptanceFilter, IdHeader)) -> Seq<Op> {
    write_registers_txn(f.0.spec_address(), f.1@)
}

/// Applying a configuration: reset, the bit timing registers, both receive buffer control
/// registers, every filter in the order given, and last the CAN control register
pub open spec fn config_txns(c: Config) -> Seq<Seq<Op>> {
    seq![
        reset_txn(),
        write_registers_txn(CNF3::spec_address(), c.cnf.spec_bytes()),
        write_register_txn(RXB0CTRL::spec_address(), c.rxb0ctrl@),
        write_register_txn(RXB1CTRL::spec_address(), c.rxb1ctrl@),
    ] + c.filters@.map_values(|f: (AcceptanceFilter, IdHeader)| filter_txn(f)) + seq![
        write_register_txn(CANCTRL::spec_address(), c.canctrl@),
    ]
}

/// The transactions that apply `c`
pub fn config_ops(c: &Config) -> (r: Vec<Vec<Operation>>)
    ensures
        txns_of_ops(r@) == config_txns(*c),
{
    let mut r: Vec<Vec<Operation>> = Vec::new();
    r.push(reset_ops());
    let cnf = c.cnf.into_bytes();
    r.push(write_registers_ops(CNF3::address(), &cnf));
    r.push(write_register_ops(RXB0CTRL::address(), c.rxb0ctrl.into_byte()));
    r.push(write_register_ops(RXB1CTRL::address(), c.rxb1ctrl.into_byte()));
    let ghost head = seq![
        reset_txn(),
        write_registers_txn(CNF3::spec_address(), c.cnf.spec_bytes()),
        write_register_txn(RXB0CTRL::spec_address(), c.rxb0ctrl@),
        write_register_txn(RXB1CTRL::spec_address(), c.rxb1ctrl@),
    ];
    assert(txns_of_ops(r@) =~= head);
    let ghost fs = c.filters@.map_values(|f: (AcceptanceFilter, IdHeader)| filter_txn(f));
    let mut i: usize = 0;
    while i < c.filters.len()
        invariant
            i <= c.filters@.len(),
            fs == c.filters@.map_values(|f: (AcceptanceFilter, IdHeader)| filter_txn(f)),
            txns_of_ops(r@) == head + fs.take(i as int),
        decreases c.filters@.len() - i,
    {
        let (f, h) = c.filters[i];
        let hb = h.into_bytes();
        let ops = write_registers_ops(f.address(), &hb);
        let ghost prev = r@;
        r.push(ops);
        assert(r@ == prev.push(ops));
        assert(txns_of_ops(r@) =~= txns_of_ops(prev).push(ops_of(ops@)));
        assert(fs[i as int] == ops_of(ops@));
        assert(fs.take(i + 1) =~= fs.take(i as int).push(fs[i as int]));
        assert(txns_of_ops(r@) =~= head + fs.take(i + 1));
        i = i + 1;
    }
    let last = write_register_ops(CANCTRL::address(), c.canctrl.into_byte());
    let ghost prev = r@;
    r.push(last);
    assert(txns_of_ops(r@) =~= txns_of_ops(prev).push(ops_of(last@)));
    assert(fs.take(c.filters@.len() as int) =~= fs);
    assert(txns_of_ops(r@) =~= config_txns(*c));
    r
}

} // verus!
