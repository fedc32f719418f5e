use vstd::prelude::*;

verus! {

/// Largest standard (11 bit) identifier
pub const STANDARD_ID_MAX: u16 = 0x7FF;

/// Largest extended (29 bit) identifier
pub const EXTENDED_ID_MAX: u32 = 0x1FFF_FFFF;

/// An 11 bit CAN identifier
#[derive(Copy, Clone, Debug, PartialEq, Eq, Structural)]
pub struct StandardId {
    raw: u16,
}

impl View for StandardId {
    type V = u16;

    closed spec fn view(&self) -> u16 {
        self.raw
    }
}

impl StandardId {
    #[verifier::type_invariant]
    spec fn fits(self) -> bool {
        self.raw <= STANDARD_ID_MAX
    }

    /// The identifier `raw`, if it fits in 11 bits
    pub fn new(raw: u16) -> (r: Option<Self>)
        ensures
            r is Some <==> raw <= STANDARD_ID_MAX,
            r matches Some(id) ==> id@ == raw,
    {
        if raw <= STANDARD_ID_MAX {
            Some(StandardId { raw })
        } else {
            None
        }
    }

    /// The numeric value of the identifier
    pub fn as_raw(&self) -> (r: u16)
        ensures
            r == self@,
            r <= STANDARD_ID_MAX,
    {
        proof {
            use_type_invariant(self);
        }
        self.raw
    }


}

/// A 29 bit CAN identifier
#[derive(Copy, Clone, Debug, PartialEq, Eq, Structural)]
pub struct ExtendedId {
    raw: u32,
}

impl View for ExtendedId {
    type V = u32;

    closed spec fn view(&self) -> u32 {
        self.raw
    }
}

impl ExtendedId {
    #[verifier::type_invariant]
    spec fn fits(self) -> bool {
        self.raw <= EXTENDED_ID_MAX
    }

    /// The identifier `raw`, if it fits in 29 bits
    pub fn new(raw: u32) -> (r: Option<Self>)
        ensures
            r is Some <==> raw <= EXTENDED_ID_MAX,
            r matches Some(id) ==> id@ == raw,
    {
        if raw <= EXTENDED_ID_MAX {
            Some(ExtendedId { raw })
        } else {
            None
        }
    }

    /// The numeric value of the identifier
    pub fn as_raw(&self) -> (r: u32)
        ensures
            r == self@,
            r <= EXTENDED_ID_MAX,
    {
        proof {
            use_type_invariant(self);
        }
        self.raw
    }


}

/// A standard or an extended CAN identifier
#[derive(Copy, Clone, Debug, PartialEq, Eq, Structural)]
pub enum Id {
    Standard(StandardId),
    Extended(ExtendedId),
}

/// Header bytes of a standard identifier: the top 8 bits, then the low 3 bits in the top
/// of the second byte; no extension flag and no extension bytes
pub open spec fn standard_header(raw: u16) -> Seq<u8> {
    seq![(raw >> 3u16) as u8, (((raw as u8) & 7u8) << 5u8) as u8, 0u8, 0u8]
}

/// Header bytes of an extended identifier: the 11 base bits as in a standard header, the
/// extension flag (bit 3 of the second byte), the top 2 extension bits in the low bits of
/// the second byte, then the middle and the low 8 extension bits
pub open spec fn extended_header(raw: u32) -> Seq<u8> {
    seq![
        (raw >> 21u32) as u8,
        ((((raw >> 13u32) & 0xE0u32) as u8) | 0x08u8 | (((raw >> 16u32) & 3u32) as u8)) as u8,
        (raw >> 8u32) as u8,
        raw as u8,
    ]
}

/// Header bytes of an identifier
pub open spec fn id_header(id: Id) -> Seq<u8> {
    match id {
        Id::Standard(s) => standard_header(s@),
        Id::Extended(e) => extended_header(e@),
    }
}

/// The extension flag of a header
pub open spec fn header_is_extended(b: Seq<u8>) -> bool {
    b[1] & 0x08u8 != 0u8
}

/// The standard identifier that a header without extension flag holds
pub open spec fn header_standard_raw(b: Seq<u8>) -> u16 {
    (((b[0] as u16) << 3u16) | ((b[1] as u16) >> 5u16)) as u16
}

/// The extended identifier that a header with extension flag holds
pub open spec fn header_extended_raw(b: Seq<u8>) -> u32 {
    (((b[0] as u32) << 21u32) | (((b[1] as u32) & 0xE0u32) << 13u32) | (((b[1] & 3u8) as u32)
        << 16u32) | ((b[2] as u32) << 8u32) | (b[3] as u32)) as u32
}

/// The identifier that a header holds, as (extended, value)
pub open spec fn header_id(b: Seq<u8>) -> (bool, u32) {
    if header_is_extended(b) {
        (true, header_extended_raw(b))
    } else {
        (false, header_standard_raw(b) as u32)
    }
}

/// An identifier as (extended, value)
pub open spec fn id_value(id: Id) -> (bool, u32) {
    match id {
        Id::Standard(s) => (false, s@ as u32),
        Id::Extended(e) => (true, e@),
    }
}

/// The identifier field of a frame buffer, in the order the chip stores it:
/// SIDH, SIDL, EID8, EID0
#[derive(Copy, Clone, Debug, PartialEq, Eq, Structural)]
pub struct IdHeader {
    sidh: u8,
    sidl: u8,
    eid8: u8,
    eid0: u8,
}

impl View for IdHeader {
    type V = Seq<u8>;

    closed spec fn view(&self) -> Seq<u8> {
        seq![self.sidh, self.sidl, self.eid8, self.eid0]
    }
}

impl Default for IdHeader {
    fn default() -> (r: Self)
        ensures
            r@ == seq![0u8, 0u8, 0u8, 0u8],
    {
        IdHeader { sidh: 0, sidl: 0, eid8: 0, eid0: 0 }
    }
}

impl IdHeader {
    /// The header holding the first four of `b`
    pub closed spec fn of_bytes(b: Seq<u8>) -> IdHeader {
        IdHeader { sidh: b[0], sidl: b[1], eid8: b[2], eid0: b[3] }
    }

    /// Every header has four bytes.
    pub proof fn lemma_len(self)
        ensures
            self@.len() == 4,
    {
    }

    /// Header of a standard identifier
    pub fn from_standard(id: StandardId) -> (r: Self)
        ensures
            r@ == standard_header(id@),
            id@ <= STANDARD_ID_MAX,
    {
        let raw = id.as_raw();
        let r = IdHeader { sidh: (raw >> 3) as u8, sidl: ((raw as u8) & 7) << 5, eid8: 0, eid0: 0 };
        assert(r@ =~= standard_header(id@));
        r
    }

    /// Header of an extended identifier
    pub fn from_extended(id: ExtendedId) -> (r: Self)
        ensures
            r@ == extended_header(id@),
            id@ <= EXTENDED_ID_MAX,
    {
        let raw = id.as_raw();
        let r = IdHeader {
            sidh: (raw >> 21) as u8,
            sidl: (((raw >> 13) & 0xE0) as u8) | 0x08 | (((raw >> 16) & 3) as u8),
            eid8: (raw >> 8) as u8,
            eid0: raw as u8,
        };
        assert(r@ =~= extended_header(id@));
        r
    }

    /// Header of an identifier
    pub fn from_id(id: Id) -> (r: Self)
        ensures
            r@ == id_header(id),
    {
        match id {
            Id::Standard(s) => IdHeader::from_standard(s),
            Id::Extended(e) => IdHeader::from_extended(e),
        }
    }

    /// Header of a standard identifier that carries two data bytes in the extension
    /// bytes (MCP2515 and MCP25625 only)
    pub fn with_two_data_bytes(id: StandardId, bytes: [u8; 2]) -> (r: Self)
        ensures
            r@ == standard_header(id@).update(2, bytes[0]).update(3, bytes[1]),
    {
        let raw = id.as_raw();
        let r = IdHeader {
            sidh: (raw >> 3) as u8,
            sidl: ((raw as u8) & 7) << 5,
            eid8: bytes[0],
            eid0: bytes[1],
        };
        assert(r@ =~= standard_header(id@).update(2, bytes[0]).update(3, bytes[1]));
        r
    }

    /// Whether the header carries the extension flag
    pub fn exide(&self) -> (r: bool)
        ensures
            r == header_is_extended(self@),
    {
        self.sidl & 0x08 != 0
    }

    /// The identifier the header holds; the extension flag decides its kind
    pub fn id(&self) -> (r: Id)
        ensures
            id_value(r) == header_id(self@),
    {
        if self.exide() {
            let raw: u32 = ((self.sidh as u32) << 21) | (((self.sidl as u32) & 0xE0) << 13) | (((
            self.sidl & 3) as u32) << 16) | ((self.eid8 as u32) << 8) | (self.eid0 as u32);
            let (sidh, sidl, eid8, eid0) = (self.sidh, self.sidl, self.eid8, self.eid0);
            assert(raw <= EXTENDED_ID_MAX) by (bit_vector)
                requires
                    raw == ((sidh as u32) << 21) | (((sidl as u32) & 0xE0) << 13) | (((sidl & 3) as u32)
                        << 16) | ((eid8 as u32) << 8) | (eid0 as u32),
            ;
            Id::Extended(ExtendedId { raw })
        } else {
            let raw: u16 = ((self.sidh as u16) << 3) | ((self.sidl as u16) >> 5);
            let (sidh, sidl) = (self.sidh, self.sidl);
            assert(raw <= STANDARD_ID_MAX) by (bit_vector)
                requires
                    raw == ((sidh as u16) << 3) | ((sidl as u16) >> 5),
            ;
            Id::Standard(StandardId { raw })
        }
    }

    /// The header that holds `bytes`
    pub fn from_bytes(bytes: [u8; 4]) -> (r: Self)
        ensures
            r@ == bytes@,
    {
        let r = IdHeader { sidh: bytes[0], sidl: bytes[1], eid8: bytes[2], eid0: bytes[3] };
        assert(r@ =~= bytes@);
        r
    }

    /// The four header bytes in the order the chip stores them
    pub fn into_bytes(self) -> (r: [u8; 4])
        ensures
            r@ == self@,
    {
        let r = [self.sidh, self.sidl, self.eid8, self.eid0];
        assert(r@ =~= self@);
        r
    }
}

impl From<StandardId> for Id {
    fn from(id: StandardId) -> (r: Self)
        ensures
            r == Id::Standard(id),
    {
        Id::Standard(id)
    }
}

impl vstd::std_specs::convert::FromSpecImpl<StandardId> for Id {
    open spec fn obeys_from_spec() -> bool {
        true
    }

    open spec fn from_spec(id: StandardId) -> Id {
        Id::Standard(id)
    }
}

impl From<ExtendedId> for Id {
    fn from(id: ExtendedId) -> (r: Self)
        ensures
            r == Id::Extended(id),
    {
        Id::Extended(id)
    }
}

impl vstd::std_specs::convert::FromSpecImpl<ExtendedId> for Id {
    open spec fn obeys_from_spec() -> bool {
        true
    }

    open spec fn from_spec(id: ExtendedId) -> Id {
        Id::Extended(id)
    }
}

impl From<Id> for IdHeader {
    fn from(id: Id) -> (r: Self)
        ensures
            r@ == id_header(id),
    {
        IdHeader::from_id(id)
    }
}

impl vstd::std_specs::convert::FromSpecImpl<Id> for IdHeader {
    open spec fn obeys_from_spec() -> bool {
        true
    }

    open spec fn from_spec(id: Id) -> IdHeader {
        IdHeader::of_bytes(id_header(id))
    }
}

impl From<StandardId> for IdHeader {
    fn from(id: StandardId) -> (r: Self)
        ensures
            r@ == standard_header(id@),
    {
        IdHeader::from_standard(id)
    }
}

impl vstd::std_specs::convert::FromSpecImpl<StandardId> for IdHeader {
    open spec fn obeys_from_spec() -> bool {
        true
    }

    open spec fn from_spec(id: StandardId) -> IdHeader {
        IdHeader::of_bytes(standard_header(id@))
    }
}

impl From<ExtendedId> for IdHeader {
    fn from(id: ExtendedId) -> (r: Self)
        ensures
            r@ == extended_header(id@),
    {
        IdHeader::from_extended(id)
    }
}

impl vstd::std_specs::convert::FromSpecImpl<ExtendedId> for IdHeader {
    open spec fn obeys_from_spec() -> bool {
        true
    }

    open spec fn from_spec(id: ExtendedId) -> IdHeader {
        IdHeader::of_bytes(extended_header(id@))
    }
}

/// Unpacking the header of a standard identifier gives the identifier back, without the
/// extension flag.
pub proof fn lemma_standard_round_trip(raw: u16)
    requires
        raw <= STANDARD_ID_MAX,
    ensures
        !header_is_extended(standard_header(raw)),
        header_id(standard_header(raw)) == (false, raw as u32),
{
    assert(((((raw >> 3u16) as u8) as u16) << 3u16) | (((((raw as u8) & 7u8) << 5u8) as u8 as u16)
        >> 5u16) == raw) by (bit_vector)
        requires
            raw <= 0x7FF,
    ;
    assert(((((raw as u8) & 7u8) << 5u8) as u8) & 0x08u8 == 0) by (bit_vector);
}

/// Unpacking the header of an extended identifier gives the identifier back, and the
/// extension flag is set.
pub proof fn lemma_extended_round_trip(raw: u32)
    requires
        raw <= EXTENDED_ID_MAX,
    ensures
        header_is_extended(extended_header(raw)),
        header_id(extended_header(raw)) == (true, raw),
{
    let b0 = (raw >> 21u32) as u8;
    let b1 = ((((raw >> 13u32) & 0xE0u32) as u8) | 0x08u8 | (((raw >> 16u32) & 3u32) as u8)) as u8;
    let b2 = (raw >> 8u32) as u8;
    let b3 = raw as u8;
    assert(b1 & 0x08u8 != 0u8) by (bit_vector)
        requires
            b1 == ((((raw >> 13u32) & 0xE0u32) as u8) | 0x08u8 | (((raw >> 16u32) & 3u32) as u8)) as u8,
    ;
    assert((((b0 as u32) << 21u32) | (((b1 as u32) & 0xE0u32) << 13u32) | (((b1 & 3u8) as u32)
        << 16u32) | ((b2 as u32) << 8u32) | (b3 as u32)) == raw) by (bit_vector)
        requires
            raw <= 0x1FFF_FFFF,
            b0 == (raw >> 21u32) as u8,
            b1 == ((((raw >> 13u32) & 0xE0u32) as u8) | 0x08u8 | (((raw >> 16u32) & 3u32) as u8)) as u8,
            b2 == (raw >> 8u32) as u8,
            b3 == raw as u8,
    ;
}

/// Two identifiers of the same kind and value are the same identifier.
pub proof fn lemma_id_value_eq(a: Id, b: Id)
    requires
        id_value(a) == id_value(b),
    ensures
        a == b,
{
}

} // verus!
