use vstd::prelude::*;

use crate::wire::{ChipSelect, Line, SpiBus, WireEvent};

verus! {

/// One step of a bus transaction
#[derive(Debug, PartialEq, Eq)]
pub enum Operation {
    /// Send these bytes
    Write(Vec<u8>),
    /// Read this many bytes
    Read(usize),
}

/// A step of a bus transaction, as a value
pub enum Op {
    Write(Seq<u8>),
    Read(nat),
}

impl View for Operation {
    type V = Op;

    open spec fn view(&self) -> Op {
        match self {
            Operation::Write(v) => Op::Write(v@),
            Operation::Read(n) => Op::Read(*n as nat),
        }
    }
}

/// The steps of a transaction, as values
pub open spec fn ops_of(ops: Seq<Operation>) -> Seq<Op> {
    ops.map_values(|o: Operation| o@)
}

/// Number of bytes the steps read
pub open spec fn read_len(ops: Seq<Op>) -> nat
    decreases ops.len(),
{
    if ops.len() == 0 {
        0
    } else {
        read_len(ops.drop_last()) + match ops.last() {
            Op::Read(n) => n,
            Op::Write(_) => 0,
        }
    }
}

/// The bus transport
///
/// An implementation runs the steps of a transaction in order, with the chip selected for
/// the whole transaction and deselected afterwards on every path, success or failure. It
/// hands back the bytes that its reads received, in order, or the bus's error as it is.
pub trait Interface {
    type Error;

    fn transaction(&mut self, ops: &Vec<Operation>) -> (r: Result<Vec<u8>, Self::Error>)
        ensures
            r matches Ok(v) ==> v@.len() == read_len(ops_of(ops@)),
    ;
}

/// A bus that sends nothing and reads zeros
pub struct NoOpSPI;

impl Interface for NoOpSPI {
    type Error = ();

    fn transaction(&mut self, ops: &Vec<Operation>) -> (r: Result<Vec<u8>, ()>)
        ensures
            r matches Ok(v) && v@ == Seq::new(read_len(ops_of(ops@)), |k: int| 0u8),
    {
        let mut out: Vec<u8> = Vec::new();
        let mut i: usize = 0;
        while i < ops.len()
            invariant
                i <= ops@.len(),
                out@ == Seq::new(read_len(ops_of(ops@.subrange(0, i as int))), |k: int| 0u8),
            decreases ops@.len() - i,
        {
            proof {
                assert(ops_of(ops@.subrange(0, i + 1)).drop_last() =~= ops_of(ops@.subrange(0, i as int)));
            }
            match &ops[i] {
                Operation::Read(n) => {
                    let mut k: usize = 0;
                    let ghost start = out@.len();
                    while k < *n
                        invariant
                            k <= *n,
                            out@ == Seq::new((start + k) as nat, |j: int| 0u8),
                        decreases *n - k,
                    {
                        out.push(0);
                        k = k + 1;
                        assert(out@ =~= Seq::new((start + k) as nat, |j: int| 0u8));
                    }
                },
                Operation::Write(_) => {},
            }
            assert(out@ =~= Seq::new(read_len(ops_of(ops@.subrange(0, i + 1))), |k: int| 0u8));
            i = i + 1;
        }
        assert(ops@.subrange(0, ops@.len() as int) =~= ops@);
        Ok(out)
    }
}

/// The step a wire event carries out, if it is a transfer
pub open spec fn transfer_op<E>(w: WireEvent<E>) -> Option<Op> {
    match w {
        WireEvent::Transfer(op, _) => Some(op),
        _ => None,
    }
}

/// `w` is a transfer that the bus completed
pub open spec fn transfer_ok<E>(w: WireEvent<E>) -> bool {
    match w {
        WireEvent::Transfer(_, reply) => reply is Ok,
        _ => false,
    }
}

/// The error of a transfer that the bus failed
pub open spec fn transfer_err<E>(w: WireEvent<E>) -> Option<E> {
    match w {
        WireEvent::Transfer(_, Err(e)) => Some(e),
        _ => None,
    }
}

/// The bytes that the reads among `ws` received, in order
pub open spec fn received<E>(ws: Seq<WireEvent<E>>) -> Seq<u8>
    decreases ws.len(),
{
    if ws.len() == 0 {
        seq![]
    } else {
        received(ws.drop_last()) + match ws.last() {
            WireEvent::Transfer(Op::Read(_), Ok(v)) => v,
            _ => seq![],
        }
    }
}

/// The transfers `body` carry out the steps `ops` as the result `r` says: on success all
/// of them, each completed, and the bytes handed back are those the reads received; on
/// error `e`, a first part of them, all completed but the last, which failed with `e`
pub open spec fn transfers_done<E>(body: Seq<WireEvent<E>>, ops: Seq<Op>, r: Result<Seq<u8>, E>) -> bool {
    &&& body.len() <= ops.len()
    &&& forall|i: int| 0 <= i < body.len() ==> transfer_op(#[trigger] body[i]) == Some(ops[i])
    &&& match r {
        Ok(v) => {
            &&& body.len() == ops.len()
            &&& forall|i: int| 0 <= i < body.len() ==> transfer_ok(#[trigger] body[i])
            &&& v == received(body)
        },
        Err(e) => {
            &&& body.len() > 0
            &&& forall|i: int| 0 <= i < body.len() - 1 ==> transfer_ok(#[trigger] body[i])
            &&& transfer_err(body.last()) == Some(e)
        },
    }
}

/// `after` extends `before` by one chip select scope that runs `ops` with result `r`: the
/// chip is selected once at its start and deselected once at its end, whatever `r` is,
/// and in between only the transfers of `ops` happen
pub open spec fn one_scope<E>(
    before: Seq<WireEvent<E>>,
    after: Seq<WireEvent<E>>,
    ops: Seq<Op>,
    r: Result<Seq<u8>, E>,
) -> bool {
    &&& before.is_prefix_of(after)
    &&& after.len() >= before.len() + 2
    &&& after[before.len() as int] is Select
    &&& after.last() is Deselect
    &&& transfers_done(after.subrange(before.len() + 1int, after.len() - 1int), ops, r)
}

/// A bus and its chip select line, run as one [`Interface`]
pub struct SpiWithCs<SPI: SpiBus, CS: ChipSelect> {
    pub line: Line<SPI, CS>,
}

impl<SPI: SpiBus, CS: ChipSelect> SpiWithCs<SPI, CS> {
    /// The adapter for `spi` and `cs`, with nothing done on them yet
    pub fn new(spi: SPI, cs: CS) -> (r: Self)
        ensures
            r.line.events() == Seq::<WireEvent<SPI::Error>>::empty(),
    {
        SpiWithCs { line: Line::new(spi, cs) }
    }

    fn transfer_all(&mut self, ops: &Vec<Operation>) -> (r: Result<Vec<u8>, SPI::Error>)
        ensures
            old(self).line.events().is_prefix_of(final(self).line.events()),
            transfers_done(
                final(self).line.events().subrange(
                    old(self).line.events().len() as int,
                    final(self).line.events().len() as int,
                ),
                ops_of(ops@),
                result_view(r),
            ),
            r matches Ok(v) ==> v@.len() == read_len(ops_of(ops@)),
    {
        let ghost start = self.line.events();
        let ghost k = start.len() as int;
        let ghost opsv = ops_of(ops@);
        let mut out: Vec<u8> = Vec::new();
        let mut i: usize = 0;
        proof {
            assert(start.is_prefix_of(start)) by {
                assert(start =~= start.subrange(0, k));
            }
            assert(start.subrange(k, k) =~= Seq::<WireEvent<SPI::Error>>::empty());
            assert(opsv.take(0) =~= Seq::<Op>::empty());
        }
        while i < ops.len()
            invariant
                i <= ops@.len(),
                opsv == ops_of(ops@),
                start == old(self).line.events(),
                k == start.len(),
                start.is_prefix_of(self.line.events()),
                self.line.events().len() == k + i,
                transfers_done(
                    self.line.events().subrange(k, self.line.events().len() as int),
                    opsv.take(i as int),
                    Ok::<Seq<u8>, SPI::Error>(out@),
                ),
                out@.len() == read_len(opsv.take(i as int)),
            decreases ops@.len() - i,
        {
            let ghost ev0 = self.line.events();
            let ghost body0 = ev0.subrange(k, ev0.len() as int);
            proof {
                assert(opsv.take(i + 1).drop_last() =~= opsv.take(i as int));
            }
            match &ops[i] {
                Operation::Write(bytes) => {
                    let r = self.line.send(bytes.as_slice());
                    proof {
                        let ev = self.line.events();
                        let body = ev.subrange(k, ev.len() as int);
                        assert(body =~= body0.push(ev.last()));
                        assert(start =~= ev.subrange(0, k));
                        assert(received(body).len() == received(body0).len()) by {
                            assert(body.drop_last() =~= body0);
                        }
                        assert(received(body) =~= received(body0)) by {
                            assert(body.drop_last() =~= body0);
                        }
                        assert forall|j: int| 0 <= j < body.len() implies transfer_op(#[trigger] body[j])
                            == Some(opsv[j]) by {
                            if j < body0.len() {
                                assert(body[j] == body0[j]);
                                assert(opsv.take(i as int)[j] == opsv[j]);
                            }
                        }
                        assert forall|j: int| 0 <= j < body.len() - 1 implies transfer_ok(#[trigger] body[j]) by {
                            assert(body[j] == body0[j]);
                        }
                        if r is Ok {
                            assert forall|j: int| 0 <= j < body.len() implies transfer_op(#[trigger] body[j])
                                == Some(opsv.take(i + 1)[j]) by {
                                assert(opsv.take(i + 1)[j] == opsv[j]);
                            }
                        }
                    }
                    match r {
                        Ok(()) => {},
                        Err(e) => {
                            return Err(e);
                        },
                    }
                },
                Operation::Read(n) => {
                    match self.line.receive(*n) {
                        Ok(v) => {
                            let ghost base = out@;
                            let mut j: usize = 0;
                            while j < v.len()
                                invariant
                                    j <= v@.len(),
                                    out@ == base + v@.subrange(0, j as int),
                                decreases v@.len() - j,
                            {
                                out.push(v[j]);
                                j = j + 1;
                                assert(out@ =~= base + v@.subrange(0, j as int));
                            }
                            proof {
                                assert(out@ =~= base + v@);
                                let ev = self.line.events();
                                let body = ev.subrange(k, ev.len() as int);
                                assert(body =~= body0.push(ev.last()));
                                assert(body.drop_last() =~= body0);
                                assert(start =~= ev.subrange(0, k));
                                assert forall|j: int| 0 <= j < body.len() implies transfer_op(#[trigger] body[j])
                                    == Some(opsv.take(i + 1)[j]) by {
                                    assert(opsv.take(i + 1)[j] == opsv[j]);
                                    if j < body0.len() {
                                        assert(body[j] == body0[j]);
                                        assert(opsv.take(i as int)[j] == opsv[j]);
                                    }
                                }
                                assert forall|j: int| 0 <= j < body.len() implies transfer_ok(#[trigger] body[j]) by {
                                    if j < body0.len() {
                                        assert(body[j] == body0[j]);
                                    }
                                }
                            }
                        },
                        Err(e) => {
                            proof {
                                let ev = self.line.events();
                                let body = ev.subrange(k, ev.len() as int);
                                assert(body =~= body0.push(ev.last()));
                                assert(start =~= ev.subrange(0, k));
                                assert forall|j: int| 0 <= j < body.len() implies transfer_op(#[trigger] body[j])
                                    == Some(opsv[j]) by {
                                    if j < body0.len() {
                                        assert(body[j] == body0[j]);
                                        assert(opsv.take(i as int)[j] == opsv[j]);
                                    }
                                }
                                assert forall|j: int| 0 <= j < body.len() - 1 implies transfer_ok(#[trigger] body[j]) by {
                                    assert(body[j] == body0[j]);
                                }
                            }
                            return Err(e);
                        },
                    }
                },
            }
            i = i + 1;
        }
        proof {
            assert(opsv.take(ops@.len() as int) =~= opsv);
        }
        Ok(out)
    }

    /// Runs `ops` in one chip select scope: selects the chip, transfers the bytes, and
    /// deselects the chip again whether the transfers succeeded or not
    pub fn run(&mut self, ops: &Vec<Operation>) -> (r: Result<Vec<u8>, SPI::Error>)
        ensures
            one_scope(old(self).line.events(), final(self).line.events(), ops_of(ops@), result_view(r)),
            r matches Ok(v) ==> v@.len() == read_len(ops_of(ops@)),
    {
        let ghost before = self.line.events();
        self.line.select();
        let ghost selected = self.line.events();
        let r = self.transfer_all(ops);
        let ghost mid = self.line.events();
        self.line.deselect();
        proof {
            let after = self.line.events();
            let k = before.len() as int;
            assert(selected =~= mid.subrange(0, selected.len() as int));
            assert(mid[k] == selected[k]);
            assert(after[k] == mid[k]);
            assert(before =~= selected.subrange(0, k));
            assert(mid =~= after.subrange(0, mid.len() as int));
            assert forall|j: int| 0 <= j < k implies before[j] == after[j] by {
                assert(before[j] == selected[j]);
                assert(selected[j] == mid[j]);
                assert(mid[j] == after[j]);
            }
            assert(before =~= after.subrange(0, k));
            assert(after.subrange(k + 1, after.len() - 1) =~= mid.subrange(
                selected.len() as int,
                mid.len() as int,
            ));
        }
        r
    }
}

impl<SPI: SpiBus, CS: ChipSelect> Interface for SpiWithCs<SPI, CS> {
    type Error = SPI::Error;

    fn transaction(&mut self, ops: &Vec<Operation>) -> (r: Result<Vec<u8>, SPI::Error>) {
        self.run(ops)
    }
}

/// What one transaction sent and what the bus handed back: the bytes read, or its error
pub struct Exchange<E> {
    pub ops: Seq<Op>,
    pub reply: Result<Seq<u8>, E>,
}

/// A bus result, as a reply
pub open spec fn result_view<E>(r: Result<Vec<u8>, E>) -> Result<Seq<u8>, E> {
    match r {
        Ok(v) => Ok(v@),
        Err(e) => Err(e),
    }
}

/// A bus device together with the record of every transaction run on it
///
/// The record can only grow through [`Bus::transaction`], which runs the transaction on the
/// device and records what was sent and what came back.
pub struct Bus<T: Interface> {
    dev: T,
    history: Ghost<Seq<Exchange<T::Error>>>,
}

impl<T: Interface> Bus<T> {
    /// Every transaction run on the device through this bus, in order
    pub closed spec fn history(&self) -> Seq<Exchange<T::Error>> {
        self.history@
    }

    /// The device, with nothing run on it yet
    pub fn new(dev: T) -> (r: Self)
        ensures
            r.history() == Seq::<Exchange<T::Error>>::empty(),
    {
        Bus { dev, history: Ghost(Seq::empty()) }
    }

    /// The device
    pub fn dev(&self) -> &T {
        &self.dev
    }

    /// Gives the device back
    pub fn into_dev(self) -> T {
        self.dev
    }

    /// Runs `ops` on the device and records it
    pub fn transaction(&mut self, ops: &Vec<Operation>) -> (r: Result<Vec<u8>, T::Error>)
        ensures
            final(self).history() == old(self).history().push(
                Exchange { ops: ops_of(ops@), reply: result_view(r) },
            ),
            r matches Ok(v) ==> v@.len() == read_len(ops_of(ops@)),
    {
        let r = self.dev.transaction(ops);
        proof {
            self.history@ = self.history@.push(Exchange { ops: ops_of(ops@), reply: result_view(r) });
        }
        r
    }
}

/// The transactions of a record
pub open spec fn txns_of<E>(log: Seq<Exchange<E>>) -> Seq<Seq<Op>> {
    log.map_values(|e: Exchange<E>| e.ops)
}

/// `after` extends `before` by exactly the transactions `txns`, all completed by the bus
pub open spec fn ran<E>(before: Seq<Exchange<E>>, after: Seq<Exchange<E>>, txns: Seq<Seq<Op>>) -> bool {
    &&& before.is_prefix_of(after)
    &&& txns_of(after) == txns_of(before) + txns
    &&& forall|i: int| before.len() <= i < after.len() ==> (#[trigger] after[i]).reply is Ok
}

/// `after` extends `before` by a first part of the transactions `txns`: all of them but
/// the last completed, the bus failed the last one with `e`, and none followed
pub open spec fn failed<E>(
    before: Seq<Exchange<E>>,
    after: Seq<Exchange<E>>,
    txns: Seq<Seq<Op>>,
    e: E,
) -> bool {
    &&& before.is_prefix_of(after)
    &&& before.len() < after.len()
    &&& txns_of(after).is_prefix_of(txns_of(before) + txns)
    &&& forall|i: int| before.len() <= i < after.len() - 1 ==> (#[trigger] after[i]).reply is Ok
    &&& after.last().reply == Err::<Seq<u8>, E>(e)
}

/// `after` extends `before` as the result `r` says: by all of `txns` on success; on error
/// `e`, by a first part of them that ends in the transaction the bus failed with `e`
pub open spec fn settled<T, E>(
    r: Result<T, E>,
    before: Seq<Exchange<E>>,
    after: Seq<Exchange<E>>,
    txns: Seq<Seq<Op>>,
) -> bool {
    match r {
        Ok(_) => ran(before, after, txns),
        Err(e) => failed(before, after, txns, e),
    }
}

/// The first byte that the exchange at `k` of a record read, if the bus completed it
pub open spec fn byte_read<E>(log: Seq<Exchange<E>>, k: int) -> u8 {
    match log[k].reply {
        Ok(b) => b[0],
        Err(_) => 0,
    }
}

/// The bytes that the exchange at `k` of a record read, if the bus completed it
pub open spec fn bytes_read<E>(log: Seq<Exchange<E>>, k: int) -> Seq<u8> {
    match log[k].reply {
        Ok(b) => b,
        Err(_) => seq![],
    }
}

proof fn lemma_prefix_trans<A>(a: Seq<A>, b: Seq<A>, c: Seq<A>)
    requires
        a.is_prefix_of(b),
        b.is_prefix_of(c),
    ensures
        a.is_prefix_of(c),
        forall|i: int| 0 <= i < b.len() ==> #[trigger] c[i] == b[i],
{
    assert forall|i: int| 0 <= i < b.len() implies #[trigger] c[i] == b[i] by {
        assert(b[i] == c.subrange(0, b.len() as int)[i]);
    }
    assert(a =~= c.subrange(0, a.len() as int)) by {
        assert forall|i: int| 0 <= i < a.len() implies a[i] == c[i] by {
            assert(a[i] == b.subrange(0, a.len() as int)[i]);
        }
    }
}

/// Running nothing leaves the record as it is.
pub proof fn lemma_ran_nothing<E>(log: Seq<Exchange<E>>)
    ensures
        ran(log, log, seq![]),
{
    assert(txns_of(log) + seq![] =~= txns_of(log));
    assert(log.is_prefix_of(log)) by {
        assert(log =~= log.subrange(0, log.len() as int));
    }
}

/// Running `t` and then `u` runs `t + u`.
pub proof fn lemma_ran_then_ran<E>(
    a: Seq<Exchange<E>>,
    b: Seq<Exchange<E>>,
    c: Seq<Exchange<E>>,
    t: Seq<Seq<Op>>,
    u: Seq<Seq<Op>>,
)
    requires
        ran(a, b, t),
        ran(b, c, u),
    ensures
        ran(a, c, t + u),
{
    lemma_prefix_trans(a, b, c);
    assert(txns_of(c) =~= txns_of(a) + (t + u));
    assert forall|i: int| a.len() <= i < c.len() implies (#[trigger] c[i]).reply is Ok by {
        if i < b.len() {
            assert(c[i] == b[i]);
        }
    }
}

/// Running `t` and then failing with `e` during `u` fails with `e` during `t + u`.
pub proof fn lemma_ran_then_failed<E>(
    a: Seq<Exchange<E>>,
    b: Seq<Exchange<E>>,
    c: Seq<Exchange<E>>,
    t: Seq<Seq<Op>>,
    u: Seq<Seq<Op>>,
    e: E,
)
    requires
        ran(a, b, t),
        failed(b, c, u, e),
    ensures
        failed(a, c, t + u, e),
{
    lemma_prefix_trans(a, b, c);
    let tc = txns_of(c);
    let whole = txns_of(a) + (t + u);
    assert(txns_of(b) + u =~= whole.subrange(0, (txns_of(b) + u).len() as int));
    assert(tc =~= whole.subrange(0, tc.len() as int));
    assert forall|i: int| a.len() <= i < c.len() - 1 implies (#[trigger] c[i]).reply is Ok by {
        if i < b.len() {
            assert(c[i] == b[i]);
        }
    }
}

/// Failing with `e` during `t` fails with `e` during any continuation `t + u`.
pub proof fn lemma_failed_extend<E>(
    a: Seq<Exchange<E>>,
    b: Seq<Exchange<E>>,
    t: Seq<Seq<Op>>,
    u: Seq<Seq<Op>>,
    e: E,
)
    requires
        failed(a, b, t, e),
    ensures
        failed(a, b, t + u, e),
{
    let tb = txns_of(b);
    let whole = txns_of(a) + (t + u);
    assert(txns_of(a) + t =~= whole.subrange(0, (txns_of(a) + t).len() as int));
    assert(tb =~= whole.subrange(0, tb.len() as int));
}

/// A record that ran a nonempty list of transactions holds the first of them right after
/// the old entries.
pub proof fn lemma_first_txn_ran<E>(before: Seq<Exchange<E>>, after: Seq<Exchange<E>>, txns: Seq<Seq<Op>>)
    requires
        ran(before, after, txns),
        txns.len() > 0,
    ensures
        before.len() < after.len(),
        after[before.len() as int].ops == txns[0],
{
    let k = before.len() as int;
    assert(txns_of(after).len() == after.len());
    assert(txns_of(after)[k] == (txns_of(before) + txns)[k]);
}

/// A record that failed during a list of transactions holds the first of them right after
/// the old entries.
pub proof fn lemma_first_txn_failed<E>(
    before: Seq<Exchange<E>>,
    after: Seq<Exchange<E>>,
    txns: Seq<Seq<Op>>,
    e: E,
)
    requires
        failed(before, after, txns, e),
        txns.len() > 0,
    ensures
        after[before.len() as int].ops == txns[0],
{
    let k = before.len() as int;
    assert(txns_of(after)[k] == (txns_of(before) + txns).subrange(0, after.len() as int)[k]);
}

} // verus!
