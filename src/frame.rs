use vstd::prelude::*;

use crate::idheader::{
    header_id, header_is_extended, id_header, id_value, lemma_extended_round_trip,
    lemma_standard_round_trip, Id, IdHeader, EXTENDED_ID_MAX, STANDARD_ID_MAX,
};
use crate::registers::{with_field_of, DLC};

verus! {

/// Largest number of data bytes a frame carries
pub const MAX_DATA_LEN: usize = 8;

/// Length of a frame buffer of the chip
pub const FRAME_LEN: usize = 13;

/// The control byte of a frame: data length in the low nibble, remote request in bit 6
pub open spec fn control_byte(len: u8, remote: bool) -> u8 {
    if remote {
        len | 0x40u8
    } else {
        len
    }
}

/// The 13 buffer bytes of a frame: identifier header, control byte, data padded with zeros
pub open spec fn frame_bytes(id: Id, remote: bool, data: Seq<u8>) -> Seq<u8>
    recommends
        data.len() <= 8,
{
    id_header(id) + seq![control_byte(data.len() as u8, remote)] + data + Seq::new(
        (8 - data.len()) as nat,
        |i: int| 0u8,
    )
}

/// The data length nibble of a control byte
pub open spec fn length_nibble(ctrl: u8) -> u8 {
    ctrl & 0x0Fu8
}

/// The control byte after clamping: a length nibble over 8 becomes 8, other bits are kept
pub open spec fn clamp_control(ctrl: u8) -> u8 {
    if length_nibble(ctrl) > 8 {
        with_field_of(ctrl, 0, 0x0F, 8)
    } else {
        ctrl
    }
}

/// The frame buffer that decoding `b` yields: the control byte clamped, all else kept
pub open spec fn decode_bytes(b: Seq<u8>) -> Seq<u8> {
    b.update(4, clamp_control(b[4]))
}

/// Data length of a frame buffer
pub open spec fn buffer_dlc(b: Seq<u8>) -> nat {
    length_nibble(b[4]) as nat
}

/// Meaningful data bytes of a frame buffer
pub open spec fn buffer_data(b: Seq<u8>) -> Seq<u8> {
    b.subrange(5, 5 + buffer_dlc(b) as int)
}

/// Remote request flag of a frame buffer
pub open spec fn buffer_remote(b: Seq<u8>) -> bool {
    b[4] & 0x40u8 != 0u8
}

/// A CAN frame laid out as the chip's frame buffer: identifier header, control byte and
/// eight data bytes, of which the first `dlc` are meaningful
#[derive(Clone, Copy, Debug)]
pub struct CanFrame {
    id_header: IdHeader,
    dlc: DLC,
    data: [u8; 8],
}

impl View for CanFrame {
    type V = Seq<u8>;

    closed spec fn view(&self) -> Seq<u8> {
        self.id_header@ + seq![self.dlc@] + self.data@
    }
}

impl Default for CanFrame {
    /// A data frame with standard identifier 0 and no data
    fn default() -> (r: Self)
        ensures
            r@ == Seq::new(13, |i: int| 0u8),
    {
        let dlc = DLC::new();
        assert(length_nibble(0u8) == 0u8) by (bit_vector);
        let r = CanFrame { id_header: IdHeader::from_bytes([0u8; 4]), dlc, data: [0u8; 8] };
        proof {
            r.id_header.lemma_len();
        }
        assert(r@ =~= Seq::new(13, |i: int| 0u8));
        r
    }
}

impl CanFrame {
    #[verifier::type_invariant]
    spec fn length_fits(self) -> bool {
        length_nibble(self.dlc@) <= 8
    }

    /// A data frame, unless `data` holds more than 8 bytes
    pub fn new(id: Id, data: &[u8]) -> (r: Option<Self>)
        ensures
            r is Some <==> data@.len() <= MAX_DATA_LEN,
            r matches Some(f) ==> f@ == frame_bytes(id, false, data@),
    {
        if data.len() > MAX_DATA_LEN {
            return None;
        }
        let len = data.len();
        let mut buf = [0u8; 8];
        let mut i: usize = 0;
        while i < len
            invariant
                len == data@.len(),
                len <= 8,
                i <= len,
                forall|k: int| 0 <= k < i ==> buf[k] == data@[k],
                forall|k: int| len <= k < 8 ==> buf[k] == 0,
            decreases len - i,
        {
            buf[i] = data[i];
            i = i + 1;
        }
        let dlc = DLC::new().with_dlc(len as u8);
        let ghost l = len as u8;
        assert(with_field_of(0u8, 0, 0x0F, l) == l) by (bit_vector)
            requires
                l <= 8,
        ;
        assert(length_nibble(l) == l) by (bit_vector)
            requires
                l <= 8,
        ;
        let f = CanFrame { id_header: IdHeader::from_id(id), dlc, data: buf };
        assert(f@ =~= frame_bytes(id, false, data@));
        Some(f)
    }

    /// A remote frame requesting `dlc` bytes, unless `dlc` is over 8
    pub fn new_remote(id: Id, dlc: usize) -> (r: Option<Self>)
        ensures
            r is Some <==> dlc <= MAX_DATA_LEN,
            r matches Some(f) ==> f@ == frame_bytes(id, true, Seq::new(dlc as nat, |i: int| 0u8)),
    {
        if dlc > MAX_DATA_LEN {
            return None;
        }
        let ctrl = DLC::new().with_dlc(dlc as u8).with_rtr(true);
        let ghost l = dlc as u8;
        assert(crate::registers::with_bit_of(with_field_of(0u8, 0, 0x0F, l), 6, true) == l | 0x40u8)
            by (bit_vector)
            requires
                l <= 8,
        ;
        assert(length_nibble(l | 0x40u8) == l) by (bit_vector)
            requires
                l <= 8,
        ;
        let f = CanFrame { id_header: IdHeader::from_id(id), dlc: ctrl, data: [0u8; 8] };
        assert(f@ =~= frame_bytes(id, true, Seq::new(dlc as nat, |i: int| 0u8)));
        Some(f)
    }

    /// Decodes a frame buffer; a length nibble over 8 is clamped to 8
    pub fn from_bytes(bytes: [u8; 13]) -> (r: Self)
        ensures
            r@ == decode_bytes(bytes@),
    {
        let mut data = [0u8; 8];
        let mut i: usize = 0;
        while i < 8
            invariant
                i <= 8,
                forall|k: int| 0 <= k < i ==> data[k] == bytes@[5 + k],
            decreases 8 - i,
        {
            data[i] = bytes[5 + i];
            i = i + 1;
        }
        let raw = DLC::from_byte(bytes[4]);
        let dlc = if raw.dlc() > 8 {
            raw.with_dlc(8)
        } else {
            raw
        };
        let ghost c = bytes[4];
        assert(length_nibble(clamp_control(c)) <= 8) by (bit_vector);
        assert(crate::registers::field_of(c, 0, 0x0F) == length_nibble(c)) by (bit_vector);
        let f = CanFrame {
            id_header: IdHeader::from_bytes([bytes[0], bytes[1], bytes[2], bytes[3]]),
            dlc,
            data,
        };
        assert(f@ =~= decode_bytes(bytes@));
        f
    }

    /// The 13 buffer bytes of the frame
    pub fn as_bytes(&self) -> (r: [u8; 13])
        ensures
            r@ == self@,
            buffer_dlc(self@) <= 8,
    {
        proof {
            use_type_invariant(self);
        }
        let h = self.id_header.into_bytes();
        let d = self.data;
        let r = [h[0], h[1], h[2], h[3], self.dlc.into_byte(), d[0], d[1], d[2], d[3], d[4], d[5], d[6], d[7]];
        assert(r@ =~= self@);
        r
    }

    /// Whether the identifier is an extended one
    pub fn is_extended(&self) -> (r: bool)
        ensures
            r == header_is_extended(self@.subrange(0, 4)),
    {
        proof {
            self.id_header.lemma_len();
        }
        assert(self@.subrange(0, 4) =~= self.id_header@);
        self.id_header.exide()
    }

    /// Whether the frame is a remote request
    pub fn is_remote_frame(&self) -> (r: bool)
        ensures
            r == buffer_remote(self@),
    {
        proof {
            self.id_header.lemma_len();
        }
        let r = self.dlc.rtr();
        let ghost c = self.dlc@;
        assert(crate::registers::bit_of(c, 6) == (c & 0x40u8 != 0u8)) by (bit_vector);
        r
    }

    /// The identifier of the frame
    pub fn id(&self) -> (r: Id)
        ensures
            id_value(r) == header_id(self@.subrange(0, 4)),
    {
        proof {
            self.id_header.lemma_len();
        }
        assert(self@.subrange(0, 4) =~= self.id_header@);
        self.id_header.id()
    }

    /// Data length code, 0 to 8
    pub fn dlc(&self) -> (r: usize)
        ensures
            r == buffer_dlc(self@),
            r <= MAX_DATA_LEN,
    {
        proof {
            use_type_invariant(self);
            self.id_header.lemma_len();
        }
        let ghost c = self.dlc@;
        assert(crate::registers::field_of(c, 0, 0x0F) == length_nibble(c)) by (bit_vector);
        self.dlc.dlc() as usize
    }

    /// The meaningful data bytes
    pub fn data(&self) -> (r: &[u8])
        ensures
            r@ == buffer_data(self@),
    {
        proof {
            self.id_header.lemma_len();
        }
        let n = self.dlc();
        let r = &self.data[0..n];
        assert(r@ =~= buffer_data(self@));
        r
    }
}

/// The identifier of `id` fits its kind's width
pub open spec fn id_fits(id: Id) -> bool {
    match id {
        Id::Standard(s) => s@ <= STANDARD_ID_MAX,
        Id::Extended(e) => e@ <= EXTENDED_ID_MAX,
    }
}

/// Decoding a valid frame buffer (data length at most 8) gives it back unchanged.
pub proof fn lemma_decode_valid(b: Seq<u8>)
    requires
        b.len() == FRAME_LEN,
        buffer_dlc(b) <= 8,
    ensures
        decode_bytes(b) == b,
{
    assert(decode_bytes(b) =~= b);
}

/// Encoding a frame with at most 8 data bytes and decoding the buffer gives back the same
/// identifier, remote flag, data length and data.
pub proof fn lemma_frame_round_trip(id: Id, remote: bool, data: Seq<u8>)
    requires
        id_fits(id),
        data.len() <= MAX_DATA_LEN,
    ensures
        decode_bytes(frame_bytes(id, remote, data)) == frame_bytes(id, remote, data),
        header_id(decode_bytes(frame_bytes(id, remote, data)).subrange(0, 4)) == id_value(id),
        buffer_remote(decode_bytes(frame_bytes(id, remote, data))) == remote,
        buffer_dlc(decode_bytes(frame_bytes(id, remote, data))) == data.len(),
        buffer_data(decode_bytes(frame_bytes(id, remote, data))) == data,
{
    let b = frame_bytes(id, remote, data);
    let l = data.len() as u8;
    assert(length_nibble(control_byte(l, remote)) == l && ((control_byte(l, remote) & 0x40u8
        != 0u8) == remote)) by (bit_vector)
        requires
            l <= 8,
    ;
    match id {
        Id::Standard(s) => lemma_standard_round_trip(s@),
        Id::Extended(e) => lemma_extended_round_trip(e@),
    }
    assert(b[4] == control_byte(l, remote));
    lemma_decode_valid(b);
    assert(b.subrange(0, 4) =~= id_header(id));
    assert(buffer_data(b) =~= data);
}

/// Decoding a buffer whose length nibble is over 8 gives data length 8 and the eight data
/// bytes of the buffer; the identifier bytes and the remote flag are kept.
pub proof fn lemma_decode_clamps(b: Seq<u8>)
    requires
        b.len() == FRAME_LEN,
        length_nibble(b[4]) > 8,
    ensures
        buffer_dlc(decode_bytes(b)) == 8,
        buffer_data(decode_bytes(b)) == b.subrange(5, 13),
        buffer_remote(decode_bytes(b)) == buffer_remote(b),
        decode_bytes(b).subrange(0, 4) == b.subrange(0, 4),
{
    let c = b[4];
    assert(length_nibble(with_field_of(c, 0, 0x0F, 8)) == 8 && ((with_field_of(c, 0, 0x0F, 8)
        & 0x40u8 != 0u8) == (c & 0x40u8 != 0u8))) by (bit_vector);
    assert(buffer_data(decode_bytes(b)) =~= b.subrange(5, 13));
    assert(decode_bytes(b).subrange(0, 4) =~= b.subrange(0, 4));
}

} // verus!
