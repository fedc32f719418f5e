use vstd::prelude::*;

use crate::interface::{result_view, Op};

verus! {

/// Bytes in and out of the bus, with chip select left to the caller
pub trait SpiBus {
    type Error;

    /// Sends `words`
    fn write(&mut self, words: &[u8]) -> Result<(), Self::Error>;

    /// Receives `len` bytes
    fn read(&mut self, len: usize) -> (r: Result<Vec<u8>, Self::Error>)
        ensures
            r matches Ok(v) ==> v@.len() == len,
    ;
}

/// The chip select line of the bus
pub trait ChipSelect {
    /// Selects the chip
    fn set_low(&mut self);

    /// Deselects the chip
    fn set_high(&mut self);
}

/// An event on the wire
pub enum WireEvent<E> {
    /// The chip select line went low
    Select,
    /// The chip select line went high
    Deselect,
    /// A write or read of the bus, with the bytes read or the bus's error
    Transfer(Op, Result<Seq<u8>, E>),
}

/// A write's result, as a reply: no bytes read, or the bus's error
pub open spec fn sent_reply<E>(r: Result<(), E>) -> Result<Seq<u8>, E> {
    match r {
        Ok(_) => Ok(Seq::<u8>::empty()),
        Err(e) => Err(e),
    }
}

/// A bus and its chip select line, with the record of every event on them
///
/// The record can only grow through the methods below, each of which acts on the bus or
/// the line and records what it did.
pub struct Line<SPI: SpiBus, CS: ChipSelect> {
    spi: SPI,
    cs: CS,
    events: Ghost<Seq<WireEvent<SPI::Error>>>,
}

impl<SPI: SpiBus, CS: ChipSelect> Line<SPI, CS> {
    /// Every event on the bus and the line, in order
    pub closed spec fn events(&self) -> Seq<WireEvent<SPI::Error>> {
        self.events@
    }

    /// The bus and line, with nothing done on them yet
    pub fn new(spi: SPI, cs: CS) -> (r: Self)
        ensures
            r.events() == Seq::<WireEvent<SPI::Error>>::empty(),
    {
        Line { spi, cs, events: Ghost(Seq::empty()) }
    }

    /// The bus
    pub fn spi(&self) -> &SPI {
        &self.spi
    }

    /// The chip select line
    pub fn cs(&self) -> &CS {
        &self.cs
    }

    /// Selects the chip
    pub fn select(&mut self)
        ensures
            final(self).events() == old(self).events().push(WireEvent::Select),
    {
        self.cs.set_low();
        proof {
            self.events@ = self.events@.push(WireEvent::Select);
        }
    }

    /// Deselects the chip
    pub fn deselect(&mut self)
        ensures
            final(self).events() == old(self).events().push(WireEvent::Deselect),
    {
        self.cs.set_high();
        proof {
            self.events@ = self.events@.push(WireEvent::Deselect);
        }
    }

    /// Sends `words`
    pub fn send(&mut self, words: &[u8]) -> (r: Result<(), SPI::Error>)
        ensures
            final(self).events() == old(self).events().push(
                WireEvent::Transfer(
                    Op::Write(words@),
                    sent_reply(r),
                ),
            ),
    {
        let r = self.spi.write(words);
        proof {
            self.events@ = self.events@.push(WireEvent::Transfer(Op::Write(words@), sent_reply(r)));
        }
        r
    }

    /// Receives `len` bytes
    pub fn receive(&mut self, len: usize) -> (r: Result<Vec<u8>, SPI::Error>)
        ensures
            final(self).events() == old(self).events().push(
                WireEvent::Transfer(
                    Op::Read(len as nat),
                    result_view(r),
                ),
            ),
            r matches Ok(v) ==> v@.len() == len,
    {
        let r = self.spi.read(len);
        proof {
            self.events@ = self.events@.push(WireEvent::Transfer(Op::Read(len as nat), result_view(r)));
        }
        r
    }
}

} // verus!
