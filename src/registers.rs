use vstd::prelude::*;

verus! {

/// Bit `i` of byte `b`
pub open spec fn bit_of(b: u8, i: u8) -> bool {
    (b >> i) & 1u8 == 1u8
}

/// Byte `b` with bit `i` set to `v`
pub open spec fn with_bit_of(b: u8, i: u8, v: bool) -> u8 {
    if v {
        b | (1u8 << i)
    } else {
        b & !(1u8 << i)
    }
}

/// The group of bits of `b` that starts at bit `lo` and is selected by `mask` (shifted down)
pub open spec fn field_of(b: u8, lo: u8, mask: u8) -> u8 {
    (b >> lo) & mask
}

/// Byte `b` with the group of bits at `lo` selected by `mask` replaced by `v`
pub open spec fn with_field_of(b: u8, lo: u8, mask: u8, v: u8) -> u8 {
    (b & !(mask << lo)) | ((v & mask) << lo)
}

fn get_bit(b: u8, i: u8) -> (r: bool)
    requires
        i < 8,
    ensures
        r == bit_of(b, i),
{
    (b >> i) & 1 == 1
}

fn set_bit(b: u8, i: u8, v: bool) -> (r: u8)
    requires
        i < 8,
    ensures
        r == with_bit_of(b, i, v),
{
    if v {
        b | (1u8 << i)
    } else {
        b & !(1u8 << i)
    }
}

fn get_field(b: u8, lo: u8, mask: u8) -> (r: u8)
    requires
        lo < 8,
    ensures
        r == field_of(b, lo, mask),
        r & mask == r,
{
    let r = (b >> lo) & mask;
    assert(r & mask == r) by (bit_vector)
        requires
            r == (b >> lo) & mask,
    ;
    r
}

fn set_field(b: u8, lo: u8, mask: u8, v: u8) -> (r: u8)
    requires
        lo < 8,
    ensures
        r == with_field_of(b, lo, mask, v),
{
    (b & !(mask << lo)) | ((v & mask) << lo)
}

/// An 8 bit register of the controller, held as the byte the chip stores
pub trait Register: Sized + View<V = u8> {
    /// Address of the register
    spec fn spec_address() -> u8;

    /// Address of the register
    fn address() -> (r: u8)
        ensures
            r == Self::spec_address(),
    ;

    /// The register holding `b`
    fn from_byte(b: u8) -> (r: Self)
        ensures
            r@ == b,
    ;

    /// The byte this register holds
    fn into_byte(&self) -> (r: u8)
        ensures
            r == self@,
    ;

    /// Registers holding the same byte are equal.
    proof fn lemma_view_injective(self, other: Self)
        requires
            self@ == other@,
        ensures
            self == other,
    ;
}

/// Decoding the byte a register holds gives the register back: `from_byte` yields a
/// register whose byte is `r@`, and that register is `r`.
pub proof fn lemma_register_round_trip<R: Register>(r: R, decoded: R)
    requires
        decoded@ == r@,
    ensures
        decoded == r,
{
    r.lemma_view_injective(decoded);
}

/// Marker for registers that support the `BitModify` instruction.
pub trait Modify: Register {}

/// Request Operation mode
#[derive(Copy, Clone, Debug, PartialEq, Eq, Structural)]
pub enum OperationMode {
    NormalOperation,
    Sleep,
    Loopback,
    ListenOnly,
    Configuration,
    Invalid1,
    Invalid2,
    Invalid3,
}

impl OperationMode {
    /// The three bit code of the mode
    pub open spec fn spec_bits(self) -> u8 {
        match self {
            OperationMode::NormalOperation => 0,
            OperationMode::Sleep => 1,
            OperationMode::Loopback => 2,
            OperationMode::ListenOnly => 3,
            OperationMode::Configuration => 4,
            OperationMode::Invalid1 => 5,
            OperationMode::Invalid2 => 6,
            OperationMode::Invalid3 => 7,
        }
    }

    /// The three bit code of the mode
    pub fn bits(self) -> (r: u8)
        ensures
            r == self.spec_bits(),
    {
        match self {
            OperationMode::NormalOperation => 0,
            OperationMode::Sleep => 1,
            OperationMode::Loopback => 2,
            OperationMode::ListenOnly => 3,
            OperationMode::Configuration => 4,
            OperationMode::Invalid1 => 5,
            OperationMode::Invalid2 => 6,
            OperationMode::Invalid3 => 7,
        }
    }

    /// The mode with the code held in the low three bits of `b`
    pub fn from_bits(b: u8) -> (r: Self)
        ensures
            r.spec_bits() == b & 7,
    {
        let v = b & 7;
        if v == 0 {
            OperationMode::NormalOperation
        } else if v == 1 {
            OperationMode::Sleep
        } else if v == 2 {
            OperationMode::Loopback
        } else if v == 3 {
            OperationMode::ListenOnly
        } else if v == 4 {
            OperationMode::Configuration
        } else if v == 5 {
            OperationMode::Invalid1
        } else if v == 6 {
            OperationMode::Invalid2
        } else {
            assert(v == 7) by (bit_vector)
                requires
                    v == b & 7,
                    v != 0 && v != 1 && v != 2 && v != 3 && v != 4 && v != 5 && v != 6,
            ;
            OperationMode::Invalid3
        }
    }
}

/// CLKOUT Pin Prescaler
#[derive(Copy, Clone, Debug, PartialEq, Eq, Structural)]
pub enum CLKPRE {
    SystemClockDiv1,
    SystemClockDiv2,
    SystemClockDiv4,
    SystemClockDiv8,
}

impl CLKPRE {
    /// The two bit code of the prescaler
    pub open spec fn spec_bits(self) -> u8 {
        match self {
            CLKPRE::SystemClockDiv1 => 0,
            CLKPRE::SystemClockDiv2 => 1,
            CLKPRE::SystemClockDiv4 => 2,
            CLKPRE::SystemClockDiv8 => 3,
        }
    }

    /// The two bit code of the prescaler
    pub fn bits(self) -> (r: u8)
        ensures
            r == self.spec_bits(),
    {
        match self {
            CLKPRE::SystemClockDiv1 => 0,
            CLKPRE::SystemClockDiv2 => 1,
            CLKPRE::SystemClockDiv4 => 2,
            CLKPRE::SystemClockDiv8 => 3,
        }
    }

    /// The prescaler with the code held in the low two bits of `b`
    pub fn from_bits(b: u8) -> (r: Self)
        ensures
            r.spec_bits() == b & 3,
    {
        let v = b & 3;
        if v == 0 {
            CLKPRE::SystemClockDiv1
        } else if v == 1 {
            CLKPRE::SystemClockDiv2
        } else if v == 2 {
            CLKPRE::SystemClockDiv4
        } else {
            assert(v == 3) by (bit_vector)
                requires
                    v == b & 3,
                    v != 0 && v != 1 && v != 2,
            ;
            CLKPRE::SystemClockDiv8
        }
    }
}

/// Can Control Register
///
/// Bits: `clkpre` 0..=1, `clken` 2, `osm` 3 (one-shot mode, MCP2515 and MCP25625 only),
/// `abat` 4, `reqop` 5..=7.
#[derive(Copy, Clone, Debug, PartialEq, Eq, Structural)]
pub struct CANCTRL {
    bits: u8,
}

impl View for CANCTRL {
    type V = u8;

    closed spec fn view(&self) -> u8 {
        self.bits
    }
}

impl Register for CANCTRL {
    open spec fn spec_address() -> u8 {
        0x0F
    }

    fn address() -> (r: u8) {
        0x0F
    }

    fn from_byte(b: u8) -> (r: Self) {
        CANCTRL { bits: b }
    }

    fn into_byte(&self) -> (r: u8) {
        self.bits
    }

    proof fn lemma_view_injective(self, other: Self) {
    }
}

impl Modify for CANCTRL {}

impl Default for CANCTRL {
    /// Power-on value: divide by 8, CLKOUT enabled, Configuration mode
    fn default() -> (r: Self)
        ensures
            r@ == 0b1000_0111,
    {
        CANCTRL { bits: 0b1000_0111 }
    }
}

impl CANCTRL {
    /// All bits cleared
    pub fn new() -> (r: Self)
        ensures
            r@ == 0,
    {
        CANCTRL { bits: 0 }
    }

    /// CLKOUT Pin Prescaler
    pub fn clkpre(&self) -> (r: CLKPRE)
        ensures
            r.spec_bits() == field_of(self@, 0, 3),
    {
        CLKPRE::from_bits(get_field(self.bits, 0, 3))
    }

    pub fn with_clkpre(self, v: CLKPRE) -> (r: Self)
        ensures
            r@ == with_field_of(self@, 0, 3, v.spec_bits()),
    {
        CANCTRL { bits: set_field(self.bits, 0, 3, v.bits()) }
    }

    /// CLKOUT Pin Enable
    pub fn clken(&self) -> (r: bool)
        ensures
            r == bit_of(self@, 2),
    {
        get_bit(self.bits, 2)
    }

    pub fn with_clken(self, v: bool) -> (r: Self)
        ensures
            r@ == with_bit_of(self@, 2, v),
    {
        CANCTRL { bits: set_bit(self.bits, 2, v) }
    }

    /// One-Shot Mode
    pub fn osm(&self) -> (r: bool)
        ensures
            r == bit_of(self@, 3),
    {
        get_bit(self.bits, 3)
    }

    pub fn with_osm(self, v: bool) -> (r: Self)
        ensures
            r@ == with_bit_of(self@, 3, v),
    {
        CANCTRL { bits: set_bit(self.bits, 3, v) }
    }

    /// Abort All Pending Transmissions
    pub fn abat(&self) -> (r: bool)
        ensures
            r == bit_of(self@, 4),
    {
        get_bit(self.bits, 4)
    }

    pub fn with_abat(self, v: bool) -> (r: Self)
        ensures
            r@ == with_bit_of(self@, 4, v),
    {
        CANCTRL { bits: set_bit(self.bits, 4, v) }
    }

    /// Request Operation Mode
    pub fn reqop(&self) -> (r: OperationMode)
        ensures
            r.spec_bits() == field_of(self@, 5, 7),
    {
        OperationMode::from_bits(get_field(self.bits, 5, 7))
    }

    pub fn with_reqop(self, v: OperationMode) -> (r: Self)
        ensures
            r@ == with_field_of(self@, 5, 7, v.spec_bits()),
    {
        CANCTRL { bits: set_field(self.bits, 5, 7, v.bits()) }
    }

    pub fn set_reqop(&mut self, v: OperationMode)
        ensures
            final(self)@ == with_field_of(old(self)@, 5, 7, v.spec_bits()),
    {
        self.bits = set_field(self.bits, 5, 7, v.bits());
    }
}

/// Receive Buffer Operating Mode
///
/// On the MCP2515 and MCP25625 the codes of `FilterStandard` and `FilterExtended` are reserved.
#[derive(Copy, Clone, Debug, PartialEq, Eq, Structural)]
pub enum RXM {
    /// Receive all valid messages using either standard or extended identifiers that meet filter criteria
    Filter,
    /// Receive only valid messages with standard identifiers that meet filter criteria
    FilterStandard,
    /// Receive only valid messages with extended identifiers that meet filter criteria
    FilterExtended,
    /// Turn mask/filters off; receive any message
    ReceiveAny,
}

impl RXM {
    /// The two bit code
    pub open spec fn spec_bits(self) -> u8 {
        match self {
            RXM::Filter => 0,
            RXM::FilterStandard => 1,
            RXM::FilterExtended => 2,
            RXM::ReceiveAny => 3,
        }
    }

    /// The two bit code
    pub fn bits(self) -> (r: u8)
        ensures
            r == self.spec_bits(),
    {
        match self {
            RXM::Filter => 0,
            RXM::FilterStandard => 1,
            RXM::FilterExtended => 2,
            RXM::ReceiveAny => 3,
        }
    }

    /// The value with the code held in the low two bits of `b`
    pub fn from_bits(b: u8) -> (r: Self)
        ensures
            r.spec_bits() == b & 3,
    {
        let v = b & 3;
        if v == 0 {
            RXM::Filter
        } else if v == 1 {
            RXM::FilterStandard
        } else if v == 2 {
            RXM::FilterExtended
        } else {
            assert(v == 3) by (bit_vector)
                requires
                    v == b & 3,
                    v != 0 && v != 1 && v != 2,
            ;
            RXM::ReceiveAny
        }
    }
}

/// Interrupt Flag Code
#[derive(Copy, Clone, Debug, PartialEq, Eq, Structural)]
pub enum InterruptFlagCode {
    NoInterrupt,
    ErrorInterrupt,
    WakeUpInterrupt,
    TXB0Interrupt,
    TXB1Interrupt,
    TXB2Interrupt,
    RXB0Interrupt,
    RXB1Interrupt,
}

impl InterruptFlagCode {
    /// The three bit code
    pub open spec fn spec_bits(self) -> u8 {
        match self {
            InterruptFlagCode::NoInterrupt => 0,
            InterruptFlagCode::ErrorInterrupt => 1,
            InterruptFlagCode::WakeUpInterrupt => 2,
            InterruptFlagCode::TXB0Interrupt => 3,
            InterruptFlagCode::TXB1Interrupt => 4,
            InterruptFlagCode::TXB2Interrupt => 5,
            InterruptFlagCode::RXB0Interrupt => 6,
            InterruptFlagCode::RXB1Interrupt => 7,
        }
    }

    /// The three bit code
    pub fn bits(self) -> (r: u8)
        ensures
            r == self.spec_bits(),
    {
        match self {
            InterruptFlagCode::NoInterrupt => 0,
            InterruptFlagCode::ErrorInterrupt => 1,
            InterruptFlagCode::WakeUpInterrupt => 2,
            InterruptFlagCode::TXB0Interrupt => 3,
            InterruptFlagCode::TXB1Interrupt => 4,
            InterruptFlagCode::TXB2Interrupt => 5,
            InterruptFlagCode::RXB0Interrupt => 6,
            InterruptFlagCode::RXB1Interrupt => 7,
        }
    }

    /// The value with the code held in the low three bits of `b`
    pub fn from_bits(b: u8) -> (r: Self)
        ensures
            r.spec_bits() == b & 7,
    {
        let v = b & 7;
        if v == 0 {
            InterruptFlagCode::NoInterrupt
        } else if v == 1 {
            InterruptFlagCode::ErrorInterrupt
        } else if v == 2 {
            InterruptFlagCode::WakeUpInterrupt
        } else if v == 3 {
            InterruptFlagCode::TXB0Interrupt
        } else if v == 4 {
            InterruptFlagCode::TXB1Interrupt
        } else if v == 5 {
            InterruptFlagCode::TXB2Interrupt
        } else if v == 6 {
            InterruptFlagCode::RXB0Interrupt
        } else {
            assert(v == 7) by (bit_vector)
                requires
                    v == b & 7,
                    v != 0 && v != 1 && v != 2 && v != 3 && v != 4 && v != 5 && v != 6,
            ;
            InterruptFlagCode::RXB1Interrupt
        }
    }
}

/// The filter that matched the received message
#[derive(Copy, Clone, Debug, PartialEq, Eq, Structural)]
pub enum FilterMatch {
    RXF0,
    RXF1,
    RXF2,
    RXF3,
    RXF4,
    RXF5,
    RXF0Rollover,
    RXF1Rollover,
}

impl FilterMatch {
    /// The three bit code
    pub open spec fn spec_bits(self) -> u8 {
        match self {
            FilterMatch::RXF0 => 0,
            FilterMatch::RXF1 => 1,
            FilterMatch::RXF2 => 2,
            FilterMatch::RXF3 => 3,
            FilterMatch::RXF4 => 4,
            FilterMatch::RXF5 => 5,
            FilterMatch::RXF0Rollover => 6,
            FilterMatch::RXF1Rollover => 7,
        }
    }

    /// The three bit code
    pub fn bits(self) -> (r: u8)
        ensures
            r == self.spec_bits(),
    {
        match self {
            FilterMatch::RXF0 => 0,
            FilterMatch::RXF1 => 1,
            FilterMatch::RXF2 => 2,
            FilterMatch::RXF3 => 3,
            FilterMatch::RXF4 => 4,
            FilterMatch::RXF5 => 5,
            FilterMatch::RXF0Rollover => 6,
            FilterMatch::RXF1Rollover => 7,
        }
    }

    /// The value with the code held in the low three bits of `b`
    pub fn from_bits(b: u8) -> (r: Self)
        ensures
            r.spec_bits() == b & 7,
    {
        let v = b & 7;
        if v == 0 {
            FilterMatch::RXF0
        } else if v == 1 {
            FilterMatch::RXF1
        } else if v == 2 {
            FilterMatch::RXF2
        } else if v == 3 {
            FilterMatch::RXF3
        } else if v == 4 {
            FilterMatch::RXF4
        } else if v == 5 {
            FilterMatch::RXF5
        } else if v == 6 {
            FilterMatch::RXF0Rollover
        } else {
            assert(v == 7) by (bit_vector)
                requires
                    v == b & 7,
                    v != 0 && v != 1 && v != 2 && v != 3 && v != 4 && v != 5 && v != 6,
            ;
            FilterMatch::RXF1Rollover
        }
    }
}

/// Receive Buffer 0 Control Register
#[derive(Copy, Clone, Debug, PartialEq, Eq, Structural)]
pub struct RXB0CTRL {
    bits: u8,
}

impl View for RXB0CTRL {
    type V = u8;

    closed spec fn view(&self) -> u8 {
        self.bits
    }
}

impl Register for RXB0CTRL {
    open spec fn spec_address() -> u8 {
        0x60
    }

    fn address() -> (r: u8) {
        0x60
    }

    fn from_byte(b: u8) -> (r: Self) {
        RXB0CTRL { bits: b }
    }

    fn into_byte(&self) -> (r: u8) {
        self.bits
    }

    proof fn lemma_view_injective(self, other: Self) {
    }
}

impl Modify for RXB0CTRL {}

impl Default for RXB0CTRL {
    fn default() -> (r: Self)
        ensures
            r@ == 0,
    {
        RXB0CTRL { bits: 0 }
    }
}

impl RXB0CTRL {
    /// All bits cleared
    pub fn new() -> (r: Self)
        ensures
            r@ == 0,
    {
        RXB0CTRL { bits: 0 }
    }

    /// Filter Hit bit (indicates which acceptance filter enabled reception of message)
    pub fn filhit(&self) -> (r: u8)
        ensures
            r == field_of(self@, 0, 1),
    {
        get_field(self.bits, 0, 1)
    }

    /// Read-Only Copy of BUKT bit (used internally)
    pub fn bukt1(&self) -> (r: bool)
        ensures
            r == bit_of(self@, 1),
    {
        get_bit(self.bits, 1)
    }

    /// Rollover Enable
    pub fn bukt(&self) -> (r: bool)
        ensures
            r == bit_of(self@, 2),
    {
        get_bit(self.bits, 2)
    }

    pub fn with_bukt(self, v: bool) -> (r: Self)
        ensures
            r@ == with_bit_of(self@, 2, v),
    {
        RXB0CTRL { bits: set_bit(self.bits, 2, v) }
    }

    /// Received Remote Transfer Request
    pub fn rxrtr(&self) -> (r: bool)
        ensures
            r == bit_of(self@, 3),
    {
        get_bit(self.bits, 3)
    }

    /// Receive Buffer Operating Mode
    pub fn rxm(&self) -> (r: RXM)
        ensures
            r.spec_bits() == field_of(self@, 5, 3),
    {
        RXM::from_bits(get_field(self.bits, 5, 3))
    }

    pub fn with_rxm(self, v: RXM) -> (r: Self)
        ensures
            r@ == with_field_of(self@, 5, 3, v.spec_bits()),
    {
        RXB0CTRL { bits: set_field(self.bits, 5, 3, v.bits()) }
    }
}

/// Receive Buffer 1 Control Register
#[derive(Copy, Clone, Debug, PartialEq, Eq, Structural)]
pub struct RXB1CTRL {
    bits: u8,
}

impl View for RXB1CTRL {
    type V = u8;

    closed spec fn view(&self) -> u8 {
        self.bits
    }
}

impl Register for RXB1CTRL {
    open spec fn spec_address() -> u8 {
        0x70
    }

    fn address() -> (r: u8) {
        0x70
    }

    fn from_byte(b: u8) -> (r: Self) {
        RXB1CTRL { bits: b }
    }

    fn into_byte(&self) -> (r: u8) {
        self.bits
    }

    proof fn lemma_view_injective(self, other: Self) {
    }
}

impl Modify for RXB1CTRL {}

impl Default for RXB1CTRL {
    fn default() -> (r: Self)
        ensures
            r@ == 0,
    {
        RXB1CTRL { bits: 0 }
    }
}

impl RXB1CTRL {
    /// All bits cleared
    pub fn new() -> (r: Self)
        ensures
            r@ == 0,
    {
        RXB1CTRL { bits: 0 }
    }

    /// Filter Hit bits (indicates which acceptance filter enabled reception of message)
    pub fn filhit(&self) -> (r: u8)
        ensures
            r == field_of(self@, 0, 7),
    {
        get_field(self.bits, 0, 7)
    }

    /// Received Remote Transfer Request bit
    pub fn rxrtr(&self) -> (r: bool)
        ensures
            r == bit_of(self@, 3),
    {
        get_bit(self.bits, 3)
    }

    /// Receive Buffer Operating Mode
    pub fn rxm(&self) -> (r: RXM)
        ensures
            r.spec_bits() == field_of(self@, 5, 3),
    {
        RXM::from_bits(get_field(self.bits, 5, 3))
    }

    pub fn with_rxm(self, v: RXM) -> (r: Self)
        ensures
            r@ == with_field_of(self@, 5, 3, v.spec_bits()),
    {
        RXB1CTRL { bits: set_field(self.bits, 5, 3, v.bits()) }
    }
}

/// CAN Status Register
///
/// Note: Read only
#[derive(Copy, Clone, Debug, PartialEq, Eq, Structural)]
pub struct CANSTAT {
    bits: u8,
}

impl View for CANSTAT {
    type V = u8;

    closed spec fn view(&self) -> u8 {
        self.bits
    }
}

impl Register for CANSTAT {
    open spec fn spec_address() -> u8 {
        0x0E
    }

    fn address() -> (r: u8) {
        0x0E
    }

    fn from_byte(b: u8) -> (r: Self) {
        CANSTAT { bits: b }
    }

    fn into_byte(&self) -> (r: u8) {
        self.bits
    }

    proof fn lemma_view_injective(self, other: Self) {
    }
}

impl Default for CANSTAT {
    fn default() -> (r: Self)
        ensures
            r@ == 0b1000_0000,
    {
        CANSTAT { bits: 0b1000_0000 }
    }
}

impl CANSTAT {
    /// All bits cleared
    pub fn new() -> (r: Self)
        ensures
            r@ == 0,
    {
        CANSTAT { bits: 0 }
    }

    /// Interrupt Flag Code
    pub fn icod(&self) -> (r: InterruptFlagCode)
        ensures
            r.spec_bits() == field_of(self@, 1, 7),
    {
        InterruptFlagCode::from_bits(get_field(self.bits, 1, 7))
    }

    /// Operation Mode
    pub fn opmod(&self) -> (r: OperationMode)
        ensures
            r.spec_bits() == field_of(self@, 5, 7),
    {
        OperationMode::from_bits(get_field(self.bits, 5, 7))
    }
}

/// Configuration 1 Register
///
/// Note: Write operations require Configuration mode
#[derive(Copy, Clone, Debug, PartialEq, Eq, Structural)]
pub struct CNF1 {
    bits: u8,
}

impl View for CNF1 {
    type V = u8;

    closed spec fn view(&self) -> u8 {
        self.bits
    }
}

impl Register for CNF1 {
    open spec fn spec_address() -> u8 {
        0x2A
    }

    fn address() -> (r: u8) {
        0x2A
    }

    fn from_byte(b: u8) -> (r: Self) {
        CNF1 { bits: b }
    }

    fn into_byte(&self) -> (r: u8) {
        self.bits
    }

    proof fn lemma_view_injective(self, other: Self) {
    }
}

impl Modify for CNF1 {}

impl Default for CNF1 {
    fn default() -> (r: Self)
        ensures
            r@ == 0,
    {
        CNF1 { bits: 0 }
    }
}

impl CNF1 {
    /// All bits cleared
    pub fn new() -> (r: Self)
        ensures
            r@ == 0,
    {
        CNF1 { bits: 0 }
    }

    /// Baud Rate Prescaler
    pub fn brp(&self) -> (r: u8)
        ensures
            r == field_of(self@, 0, 63),
    {
        get_field(self.bits, 0, 63)
    }

    pub fn with_brp(self, v: u8) -> (r: Self)
        ensures
            r@ == with_field_of(self@, 0, 63, v),
    {
        CNF1 { bits: set_field(self.bits, 0, 63, v) }
    }

    /// Synchronization Jump Width Length
    pub fn sjw(&self) -> (r: u8)
        ensures
            r == field_of(self@, 6, 3),
    {
        get_field(self.bits, 6, 3)
    }

    pub fn with_sjw(self, v: u8) -> (r: Self)
        ensures
            r@ == with_field_of(self@, 6, 3, v),
    {
        CNF1 { bits: set_field(self.bits, 6, 3, v) }
    }
}

/// Configuration 2 Register
///
/// Note: Write operations require Configuration mode
#[derive(Copy, Clone, Debug, PartialEq, Eq, Structural)]
pub struct CNF2 {
    bits: u8,
}

impl View for CNF2 {
    type V = u8;

    closed spec fn view(&self) -> u8 {
        self.bits
    }
}

impl Register for CNF2 {
    open spec fn spec_address() -> u8 {
        0x29
    }

    fn address() -> (r: u8) {
        0x29
    }

    fn from_byte(b: u8) -> (r: Self) {
        CNF2 { bits: b }
    }

    fn into_byte(&self) -> (r: u8) {
        self.bits
    }

    proof fn lemma_view_injective(self, other: Self) {
    }
}

impl Modify for CNF2 {}

impl Default for CNF2 {
    fn default() -> (r: Self)
        ensures
            r@ == 0,
    {
        CNF2 { bits: 0 }
    }
}

impl CNF2 {
    /// All bits cleared
    pub fn new() -> (r: Self)
        ensures
            r@ == 0,
    {
        CNF2 { bits: 0 }
    }

    /// Propagation Segment Length
    pub fn prseg(&self) -> (r: u8)
        ensures
            r == field_of(self@, 0, 7),
    {
        get_field(self.bits, 0, 7)
    }

    pub fn with_prseg(self, v: u8) -> (r: Self)
        ensures
            r@ == with_field_of(self@, 0, 7, v),
    {
        CNF2 { bits: set_field(self.bits, 0, 7, v) }
    }

    /// PS1 Length
    pub fn phseg1(&self) -> (r: u8)
        ensures
            r == field_of(self@, 3, 7),
    {
        get_field(self.bits, 3, 7)
    }

    pub fn with_phseg1(self, v: u8) -> (r: Self)
        ensures
            r@ == with_field_of(self@, 3, 7, v),
    {
        CNF2 { bits: set_field(self.bits, 3, 7, v) }
    }

    /// Sample Point Configuration
    pub fn sam(&self) -> (r: bool)
        ensures
            r == bit_of(self@, 6),
    {
        get_bit(self.bits, 6)
    }

    pub fn with_sam(self, v: bool) -> (r: Self)
        ensures
            r@ == with_bit_of(self@, 6, v),
    {
        CNF2 { bits: set_bit(self.bits, 6, v) }
    }

    /// PS2 Bit Time Length
    pub fn btlmode(&self) -> (r: bool)
        ensures
            r == bit_of(self@, 7),
    {
        get_bit(self.bits, 7)
    }

    pub fn with_btlmode(self, v: bool) -> (r: Self)
        ensures
            r@ == with_bit_of(self@, 7, v),
    {
        CNF2 { bits: set_bit(self.bits, 7, v) }
    }
}

/// Configuration 3 Register
///
/// Note: Write operations require Configuration mode
#[derive(Copy, Clone, Debug, PartialEq, Eq, Structural)]
pub struct CNF3 {
    bits: u8,
}

impl View for CNF3 {
    type V = u8;

    closed spec fn view(&self) -> u8 {
        self.bits
    }
}

impl Register for CNF3 {
    open spec fn spec_address() -> u8 {
        0x28
    }

    fn address() -> (r: u8) {
        0x28
    }

    fn from_byte(b: u8) -> (r: Self) {
        CNF3 { bits: b }
    }

    fn into_byte(&self) -> (r: u8) {
        self.bits
    }

    proof fn lemma_view_injective(self, other: Self) {
    }
}

impl Modify for CNF3 {}

impl Default for CNF3 {
    fn default() -> (r: Self)
        ensures
            r@ == 0,
    {
        CNF3 { bits: 0 }
    }
}

impl CNF3 {
    /// All bits cleared
    pub fn new() -> (r: Self)
        ensures
            r@ == 0,
    {
        CNF3 { bits: 0 }
    }

    /// PS2 Length (minimum valid setting is 1)
    pub fn phseg2(&self) -> (r: u8)
        ensures
            r == field_of(self@, 0, 7),
    {
        get_field(self.bits, 0, 7)
    }

    pub fn with_phseg2(self, v: u8) -> (r: Self)
        ensures
            r@ == with_field_of(self@, 0, 7, v),
    {
        CNF3 { bits: set_field(self.bits, 0, 7, v) }
    }

    /// Wake-up Filter
    pub fn wakfil(&self) -> (r: bool)
        ensures
            r == bit_of(self@, 6),
    {
        get_bit(self.bits, 6)
    }

    pub fn with_wakfil(self, v: bool) -> (r: Self)
        ensures
            r@ == with_bit_of(self@, 6, v),
    {
        CNF3 { bits: set_bit(self.bits, 6, v) }
    }

    /// Start-of-Frame Signal (MCP2515 and MCP25625 only)
    pub fn sof(&self) -> (r: bool)
        ensures
            r == bit_of(self@, 7),
    {
        get_bit(self.bits, 7)
    }

    pub fn with_sof(self, v: bool) -> (r: Self)
        ensures
            r@ == with_bit_of(self@, 7, v),
    {
        CNF3 { bits: set_bit(self.bits, 7, v) }
    }
}

/// Data Length Code Register
#[derive(Copy, Clone, Debug, PartialEq, Eq, Structural)]
pub struct DLC {
    bits: u8,
}

impl View for DLC {
    type V = u8;

    closed spec fn view(&self) -> u8 {
        self.bits
    }
}

impl Default for DLC {
    fn default() -> (r: Self)
        ensures
            r@ == 0,
    {
        DLC { bits: 0 }
    }
}

impl DLC {
    /// All bits cleared
    pub fn new() -> (r: Self)
        ensures
            r@ == 0,
    {
        DLC { bits: 0 }
    }

    /// The value of byte `b`
    pub fn from_byte(b: u8) -> (r: Self)
        ensures
            r@ == b,
    {
        DLC { bits: b }
    }

    /// The byte that holds this value
    pub fn into_byte(&self) -> (r: u8)
        ensures
            r == self@,
    {
        self.bits
    }

    /// Data Length Code
    pub fn dlc(&self) -> (r: u8)
        ensures
            r == field_of(self@, 0, 15),
    {
        get_field(self.bits, 0, 15)
    }

    pub fn with_dlc(self, v: u8) -> (r: Self)
        ensures
            r@ == with_field_of(self@, 0, 15, v),
    {
        DLC { bits: set_field(self.bits, 0, 15, v) }
    }

    /// Remote Transmission Request
    pub fn rtr(&self) -> (r: bool)
        ensures
            r == bit_of(self@, 6),
    {
        get_bit(self.bits, 6)
    }

    pub fn with_rtr(self, v: bool) -> (r: Self)
        ensures
            r@ == with_bit_of(self@, 6, v),
    {
        DLC { bits: set_bit(self.bits, 6, v) }
    }
}

/// Transmit Buffer 0 Control Register
#[derive(Copy, Clone, Debug, PartialEq, Eq, Structural)]
pub struct TXB0CTRL {
    bits: u8,
}

impl View for TXB0CTRL {
    type V = u8;

    closed spec fn view(&self) -> u8 {
        self.bits
    }
}

impl Register for TXB0CTRL {
    open spec fn spec_address() -> u8 {
        0x30
    }

    fn address() -> (r: u8) {
        0x30
    }

    fn from_byte(b: u8) -> (r: Self) {
        TXB0CTRL { bits: b }
    }

    fn into_byte(&self) -> (r: u8) {
        self.bits
    }

    proof fn lemma_view_injective(self, other: Self) {
    }
}

impl Modify for TXB0CTRL {}

impl Default for TXB0CTRL {
    fn default() -> (r: Self)
        ensures
            r@ == 0,
    {
        TXB0CTRL { bits: 0 }
    }
}

impl TXB0CTRL {
    /// All bits cleared
    pub fn new() -> (r: Self)
        ensures
            r@ == 0,
    {
        TXB0CTRL { bits: 0 }
    }

    /// Transmit Buffer Priority
    pub fn txp(&self) -> (r: u8)
        ensures
            r == field_of(self@, 0, 3),
    {
        get_field(self.bits, 0, 3)
    }

    pub fn with_txp(self, v: u8) -> (r: Self)
        ensures
            r@ == with_field_of(self@, 0, 3, v),
    {
        TXB0CTRL { bits: set_field(self.bits, 0, 3, v) }
    }

    /// Message Transmit Request
    pub fn txreq(&self) -> (r: bool)
        ensures
            r == bit_of(self@, 3),
    {
        get_bit(self.bits, 3)
    }

    pub fn with_txreq(self, v: bool) -> (r: Self)
        ensures
            r@ == with_bit_of(self@, 3, v),
    {
        TXB0CTRL { bits: set_bit(self.bits, 3, v) }
    }

    /// Transmission Error Detected
    pub fn txerr(&self) -> (r: bool)
        ensures
            r == bit_of(self@, 4),
    {
        get_bit(self.bits, 4)
    }

    pub fn with_txerr(self, v: bool) -> (r: Self)
        ensures
            r@ == with_bit_of(self@, 4, v),
    {
        TXB0CTRL { bits: set_bit(self.bits, 4, v) }
    }

    /// Message Lost Arbitration
    pub fn mloa(&self) -> (r: bool)
        ensures
            r == bit_of(self@, 5),
    {
        get_bit(self.bits, 5)
    }

    pub fn with_mloa(self, v: bool) -> (r: Self)
        ensures
            r@ == with_bit_of(self@, 5, v),
    {
        TXB0CTRL { bits: set_bit(self.bits, 5, v) }
    }

    /// Message Aborted Flag
    pub fn abtf(&self) -> (r: bool)
        ensures
            r == bit_of(self@, 6),
    {
        get_bit(self.bits, 6)
    }

    pub fn with_abtf(self, v: bool) -> (r: Self)
        ensures
            r@ == with_bit_of(self@, 6, v),
    {
        TXB0CTRL { bits: set_bit(self.bits, 6, v) }
    }
}

/// Transmit Buffer 1 Control Register
#[derive(Copy, Clone, Debug, PartialEq, Eq, Structural)]
pub struct TXB1CTRL {
    bits: u8,
}

impl View for TXB1CTRL {
    type V = u8;

    closed spec fn view(&self) -> u8 {
        self.bits
    }
}

impl Register for TXB1CTRL {
    open spec fn spec_address() -> u8 {
        0x40
    }

    fn address() -> (r: u8) {
        0x40
    }

    fn from_byte(b: u8) -> (r: Self) {
        TXB1CTRL { bits: b }
    }

    fn into_byte(&self) -> (r: u8) {
        self.bits
    }

    proof fn lemma_view_injective(self, other: Self) {
    }
}

impl Modify for TXB1CTRL {}

impl Default for TXB1CTRL {
    fn default() -> (r: Self)
        ensures
            r@ == 0,
    {
        TXB1CTRL { bits: 0 }
    }
}

impl TXB1CTRL {
    /// All bits cleared
    pub fn new() -> (r: Self)
        ensures
            r@ == 0,
    {
        TXB1CTRL { bits: 0 }
    }

    /// Transmit Buffer Priority
    pub fn txp(&self) -> (r: u8)
        ensures
            r == field_of(self@, 0, 3),
    {
        get_field(self.bits, 0, 3)
    }

    pub fn with_txp(self, v: u8) -> (r: Self)
        ensures
            r@ == with_field_of(self@, 0, 3, v),
    {
        TXB1CTRL { bits: set_field(self.bits, 0, 3, v) }
    }

    /// Message Transmit Request
    pub fn txreq(&self) -> (r: bool)
        ensures
            r == bit_of(self@, 3),
    {
        get_bit(self.bits, 3)
    }

    pub fn with_txreq(self, v: bool) -> (r: Self)
        ensures
            r@ == with_bit_of(self@, 3, v),
    {
        TXB1CTRL { bits: set_bit(self.bits, 3, v) }
    }

    /// Transmission Error Detected
    pub fn txerr(&self) -> (r: bool)
        ensures
            r == bit_of(self@, 4),
    {
        get_bit(self.bits, 4)
    }

    pub fn with_txerr(self, v: bool) -> (r: Self)
        ensures
            r@ == with_bit_of(self@, 4, v),
    {
        TXB1CTRL { bits: set_bit(self.bits, 4, v) }
    }

    /// Message Lost Arbitration
    pub fn mloa(&self) -> (r: bool)
        ensures
            r == bit_of(self@, 5),
    {
        get_bit(self.bits, 5)
    }

    pub fn with_mloa(self, v: bool) -> (r: Self)
        ensures
            r@ == with_bit_of(self@, 5, v),
    {
        TXB1CTRL { bits: set_bit(self.bits, 5, v) }
    }

    /// Message Aborted Flag
    pub fn abtf(&self) -> (r: bool)
        ensures
            r == bit_of(self@, 6),
    {
        get_bit(self.bits, 6)
    }

    pub fn with_abtf(self, v: bool) -> (r: Self)
        ensures
            r@ == with_bit_of(self@, 6, v),
    {
        TXB1CTRL { bits: set_bit(self.bits, 6, v) }
    }
}

/// Transmit Buffer 2 Control Register
#[derive(Copy, Clone, Debug, PartialEq, Eq, Structural)]
pub struct TXB2CTRL {
    bits: u8,
}

impl View for TXB2CTRL {
    type V = u8;

    closed spec fn view(&self) -> u8 {
        self.bits
    }
}

impl Register for TXB2CTRL {
    open spec fn spec_address() -> u8 {
        0x50
    }

    fn address() -> (r: u8) {
        0x50
    }

    fn from_byte(b: u8) -> (r: Self) {
        TXB2CTRL { bits: b }
    }

    fn into_byte(&self) -> (r: u8) {
        self.bits
    }

    proof fn lemma_view_injective(self, other: Self) {
    }
}

impl Modify for TXB2CTRL {}

impl Default for TXB2CTRL {
    fn default() -> (r: Self)
        ensures
            r@ == 0,
    {
        TXB2CTRL { bits: 0 }
    }
}

impl TXB2CTRL {
    /// All bits cleared
    pub fn new() -> (r: Self)
        ensures
            r@ == 0,
    {
        TXB2CTRL { bits: 0 }
    }

    /// Transmit Buffer Priority
    pub fn txp(&self) -> (r: u8)
        ensures
            r == field_of(self@, 0, 3),
    {
        get_field(self.bits, 0, 3)
    }

    pub fn with_txp(self, v: u8) -> (r: Self)
        ensures
            r@ == with_field_of(self@, 0, 3, v),
    {
        TXB2CTRL { bits: set_field(self.bits, 0, 3, v) }
    }

    /// Message Transmit Request
    pub fn txreq(&self) -> (r: bool)
        ensures
            r == bit_of(self@, 3),
    {
        get_bit(self.bits, 3)
    }

    pub fn with_txreq(self, v: bool) -> (r: Self)
        ensures
            r@ == with_bit_of(self@, 3, v),
    {
        TXB2CTRL { bits: set_bit(self.bits, 3, v) }
    }

    /// Transmission Error Detected
    pub fn txerr(&self) -> (r: bool)
        ensures
            r == bit_of(self@, 4),
    {
        get_bit(self.bits, 4)
    }

    pub fn with_txerr(self, v: bool) -> (r: Self)
        ensures
            r@ == with_bit_of(self@, 4, v),
    {
        TXB2CTRL { bits: set_bit(self.bits, 4, v) }
    }

    /// Message Lost Arbitration
    pub fn mloa(&self) -> (r: bool)
        ensures
            r == bit_of(self@, 5),
    {
        get_bit(self.bits, 5)
    }

    pub fn with_mloa(self, v: bool) -> (r: Self)
        ensures
            r@ == with_bit_of(self@, 5, v),
    {
        TXB2CTRL { bits: set_bit(self.bits, 5, v) }
    }

    /// Message Aborted Flag
    pub fn abtf(&self) -> (r: bool)
        ensures
            r == bit_of(self@, 6),
    {
        get_bit(self.bits, 6)
    }

    pub fn with_abtf(self, v: bool) -> (r: Self)
        ensures
            r@ == with_bit_of(self@, 6, v),
    {
        TXB2CTRL { bits: set_bit(self.bits, 6, v) }
    }
}

/// Interrupt Enable Register
#[derive(Copy, Clone, Debug, PartialEq, Eq, Structural)]
pub struct CANINTE {
    bits: u8,
}

impl View for CANINTE {
    type V = u8;

    closed spec fn view(&self) -> u8 {
        self.bits
    }
}

impl Register for CANINTE {
    open spec fn spec_address() -> u8 {
        0x2B
    }

    fn address() -> (r: u8) {
        0x2B
    }

    fn from_byte(b: u8) -> (r: Self) {
        CANINTE { bits: b }
    }

    fn into_byte(&self) -> (r: u8) {
        self.bits
    }

    proof fn lemma_view_injective(self, other: Self) {
    }
}

impl Modify for CANINTE {}

impl Default for CANINTE {
    fn default() -> (r: Self)
        ensures
            r@ == 0,
    {
        CANINTE { bits: 0 }
    }
}

impl CANINTE {
    /// All bits cleared
    pub fn new() -> (r: Self)
        ensures
            r@ == 0,
    {
        CANINTE { bits: 0 }
    }

    /// Receive Buffer 0 Full Interrupt Enable
    pub fn rx0ie(&self) -> (r: bool)
        ensures
            r == bit_of(self@, 0),
    {
        get_bit(self.bits, 0)
    }

    pub fn with_rx0ie(self, v: bool) -> (r: Self)
        ensures
            r@ == with_bit_of(self@, 0, v),
    {
        CANINTE { bits: set_bit(self.bits, 0, v) }
    }

    /// Receive Buffer 1 Full Interrupt Enable
    pub fn rx1ie(&self) -> (r: bool)
        ensures
            r == bit_of(self@, 1),
    {
        get_bit(self.bits, 1)
    }

    pub fn with_rx1ie(self, v: bool) -> (r: Self)
        ensures
            r@ == with_bit_of(self@, 1, v),
    {
        CANINTE { bits: set_bit(self.bits, 1, v) }
    }

    /// Transmit Buffer 0 Empty Interrupt Enable
    pub fn tx0ie(&self) -> (r: bool)
        ensures
            r == bit_of(self@, 2),
    {
        get_bit(self.bits, 2)
    }

    pub fn with_tx0ie(self, v: bool) -> (r: Self)
        ensures
            r@ == with_bit_of(self@, 2, v),
    {
        CANINTE { bits: set_bit(self.bits, 2, v) }
    }

    /// Transmit Buffer 1 Empty Interrupt Enable
    pub fn tx1ie(&self) -> (r: bool)
        ensures
            r == bit_of(self@, 3),
    {
        get_bit(self.bits, 3)
    }

    pub fn with_tx1ie(self, v: bool) -> (r: Self)
        ensures
            r@ == with_bit_of(self@, 3, v),
    {
        CANINTE { bits: set_bit(self.bits, 3, v) }
    }

    /// Transmit Buffer 2 Empty Interrupt Enable
    pub fn tx2ie(&self) -> (r: bool)
        ensures
            r == bit_of(self@, 4),
    {
        get_bit(self.bits, 4)
    }

    pub fn with_tx2ie(self, v: bool) -> (r: Self)
        ensures
            r@ == with_bit_of(self@, 4, v),
    {
        CANINTE { bits: set_bit(self.bits, 4, v) }
    }

    /// Error Interrupt Enable (multiple sources in the EFLG register)
    pub fn errie(&self) -> (r: bool)
        ensures
            r == bit_of(self@, 5),
    {
        get_bit(self.bits, 5)
    }

    pub fn with_errie(self, v: bool) -> (r: Self)
        ensures
            r@ == with_bit_of(self@, 5, v),
    {
        CANINTE { bits: set_bit(self.bits, 5, v) }
    }

    /// Wake-up Interrupt Enable
    pub fn wakie(&self) -> (r: bool)
        ensures
            r == bit_of(self@, 6),
    {
        get_bit(self.bits, 6)
    }

    pub fn with_wakie(self, v: bool) -> (r: Self)
        ensures
            r@ == with_bit_of(self@, 6, v),
    {
        CANINTE { bits: set_bit(self.bits, 6, v) }
    }

    /// Message Error Interrupt Enable
    pub fn merre(&self) -> (r: bool)
        ensures
            r == bit_of(self@, 7),
    {
        get_bit(self.bits, 7)
    }

    pub fn with_merre(self, v: bool) -> (r: Self)
        ensures
            r@ == with_bit_of(self@, 7, v),
    {
        CANINTE { bits: set_bit(self.bits, 7, v) }
    }
}

/// Interrupt Flag Register
#[derive(Copy, Clone, Debug, PartialEq, Eq, Structural)]
pub struct CANINTF {
    bits: u8,
}

impl View for CANINTF {
    type V = u8;

    closed spec fn view(&self) -> u8 {
        self.bits
    }
}

impl Register for CANINTF {
    open spec fn spec_address() -> u8 {
        0x2C
    }

    fn address() -> (r: u8) {
        0x2C
    }

    fn from_byte(b: u8) -> (r: Self) {
        CANINTF { bits: b }
    }

    fn into_byte(&self) -> (r: u8) {
        self.bits
    }

    proof fn lemma_view_injective(self, other: Self) {
    }
}

impl Modify for CANINTF {}

impl Default for CANINTF {
    fn default() -> (r: Self)
        ensures
            r@ == 0,
    {
        CANINTF { bits: 0 }
    }
}

impl CANINTF {
    /// All bits cleared
    pub fn new() -> (r: Self)
        ensures
            r@ == 0,
    {
        CANINTF { bits: 0 }
    }

    /// Receive Buffer 0 Full Interrupt Flag
    pub fn rx0if(&self) -> (r: bool)
        ensures
            r == bit_of(self@, 0),
    {
        get_bit(self.bits, 0)
    }

    pub fn with_rx0if(self, v: bool) -> (r: Self)
        ensures
            r@ == with_bit_of(self@, 0, v),
    {
        CANINTF { bits: set_bit(self.bits, 0, v) }
    }

    /// Receive Buffer 1 Full Interrupt Flag
    pub fn rx1if(&self) -> (r: bool)
        ensures
            r == bit_of(self@, 1),
    {
        get_bit(self.bits, 1)
    }

    pub fn with_rx1if(self, v: bool) -> (r: Self)
        ensures
            r@ == with_bit_of(self@, 1, v),
    {
        CANINTF { bits: set_bit(self.bits, 1, v) }
    }

    /// Transmit Buffer 0 Empty Interrupt Flag
    pub fn tx0if(&self) -> (r: bool)
        ensures
            r == bit_of(self@, 2),
    {
        get_bit(self.bits, 2)
    }

    pub fn with_tx0if(self, v: bool) -> (r: Self)
        ensures
            r@ == with_bit_of(self@, 2, v),
    {
        CANINTF { bits: set_bit(self.bits, 2, v) }
    }

    /// Transmit Buffer 1 Empty Interrupt Flag
    pub fn tx1if(&self) -> (r: bool)
        ensures
            r == bit_of(self@, 3),
    {
        get_bit(self.bits, 3)
    }

    pub fn with_tx1if(self, v: bool) -> (r: Self)
        ensures
            r@ == with_bit_of(self@, 3, v),
    {
        CANINTF { bits: set_bit(self.bits, 3, v) }
    }

    /// Transmit Buffer 2 Empty Interrupt Flag
    pub fn tx2if(&self) -> (r: bool)
        ensures
            r == bit_of(self@, 4),
    {
        get_bit(self.bits, 4)
    }

    pub fn with_tx2if(self, v: bool) -> (r: Self)
        ensures
            r@ == with_bit_of(self@, 4, v),
    {
        CANINTF { bits: set_bit(self.bits, 4, v) }
    }

    /// Error Interrupt Flag (multiple sources in the EFLG register)
    pub fn errif(&self) -> (r: bool)
        ensures
            r == bit_of(self@, 5),
    {
        get_bit(self.bits, 5)
    }

    pub fn with_errif(self, v: bool) -> (r: Self)
        ensures
            r@ == with_bit_of(self@, 5, v),
    {
        CANINTF { bits: set_bit(self.bits, 5, v) }
    }

    /// Wake-up Interrupt Flag
    pub fn wakif(&self) -> (r: bool)
        ensures
            r == bit_of(self@, 6),
    {
        get_bit(self.bits, 6)
    }

    pub fn with_wakif(self, v: bool) -> (r: Self)
        ensures
            r@ == with_bit_of(self@, 6, v),
    {
        CANINTF { bits: set_bit(self.bits, 6, v) }
    }

    /// Message Error Interrupt Flag
    pub fn merrf(&self) -> (r: bool)
        ensures
            r == bit_of(self@, 7),
    {
        get_bit(self.bits, 7)
    }

    pub fn with_merrf(self, v: bool) -> (r: Self)
        ensures
            r@ == with_bit_of(self@, 7, v),
    {
        CANINTF { bits: set_bit(self.bits, 7, v) }
    }
}

/// Error Flag Register
#[derive(Copy, Clone, Debug, PartialEq, Eq, Structural)]
pub struct EFLG {
    bits: u8,
}

impl View for EFLG {
    type V = u8;

    closed spec fn view(&self) -> u8 {
        self.bits
    }
}

impl Register for EFLG {
    open spec fn spec_address() -> u8 {
        0x2D
    }

    fn address() -> (r: u8) {
        0x2D
    }

    fn from_byte(b: u8) -> (r: Self) {
        EFLG { bits: b }
    }

    fn into_byte(&self) -> (r: u8) {
        self.bits
    }

    proof fn lemma_view_injective(self, other: Self) {
    }
}

impl Modify for EFLG {}

impl Default for EFLG {
    fn default() -> (r: Self)
        ensures
            r@ == 0,
    {
        EFLG { bits: 0 }
    }
}

impl EFLG {
    /// All bits cleared
    pub fn new() -> (r: Self)
        ensures
            r@ == 0,
    {
        EFLG { bits: 0 }
    }

    /// Error Warning Flag bit
    pub fn ewarn(&self) -> (r: bool)
        ensures
            r == bit_of(self@, 0),
    {
        get_bit(self.bits, 0)
    }

    pub fn with_ewarn(self, v: bool) -> (r: Self)
        ensures
            r@ == with_bit_of(self@, 0, v),
    {
        EFLG { bits: set_bit(self.bits, 0, v) }
    }

    /// Receive Error Warning Flag bit
    pub fn rxwar(&self) -> (r: bool)
        ensures
            r == bit_of(self@, 1),
    {
        get_bit(self.bits, 1)
    }

    pub fn with_rxwar(self, v: bool) -> (r: Self)
        ensures
            r@ == with_bit_of(self@, 1, v),
    {
        EFLG { bits: set_bit(self.bits, 1, v) }
    }

    /// Transmit Error Warning Flag bit
    pub fn txwar(&self) -> (r: bool)
        ensures
            r == bit_of(self@, 2),
    {
        get_bit(self.bits, 2)
    }

    pub fn with_txwar(self, v: bool) -> (r: Self)
        ensures
            r@ == with_bit_of(self@, 2, v),
    {
        EFLG { bits: set_bit(self.bits, 2, v) }
    }

    /// Receive Error-Passive Flag bit
    pub fn rxep(&self) -> (r: bool)
        ensures
            r == bit_of(self@, 3),
    {
        get_bit(self.bits, 3)
    }

    pub fn with_rxep(self, v: bool) -> (r: Self)
        ensures
            r@ == with_bit_of(self@, 3, v),
    {
        EFLG { bits: set_bit(self.bits, 3, v) }
    }

    /// Transmit Error-Passive Flag bit
    pub fn txep(&self) -> (r: bool)
        ensures
            r == bit_of(self@, 4),
    {
        get_bit(self.bits, 4)
    }

    pub fn with_txep(self, v: bool) -> (r: Self)
        ensures
            r@ == with_bit_of(self@, 4, v),
    {
        EFLG { bits: set_bit(self.bits, 4, v) }
    }

    /// Bus-Off Error Flag bit
    pub fn txbo(&self) -> (r: bool)
        ensures
            r == bit_of(self@, 5),
    {
        get_bit(self.bits, 5)
    }

    pub fn with_txbo(self, v: bool) -> (r: Self)
        ensures
            r@ == with_bit_of(self@, 5, v),
    {
        EFLG { bits: set_bit(self.bits, 5, v) }
    }

    /// Receive Buffer 0 Overflow Flag bit
    pub fn rx0ovr(&self) -> (r: bool)
        ensures
            r == bit_of(self@, 6),
    {
        get_bit(self.bits, 6)
    }

    pub fn with_rx0ovr(self, v: bool) -> (r: Self)
        ensures
            r@ == with_bit_of(self@, 6, v),
    {
        EFLG { bits: set_bit(self.bits, 6, v) }
    }

    /// Receive Buffer 1 Overflow Flag bit
    pub fn rx1ovr(&self) -> (r: bool)
        ensures
            r == bit_of(self@, 7),
    {
        get_bit(self.bits, 7)
    }

    pub fn with_rx1ovr(self, v: bool) -> (r: Self)
        ensures
            r@ == with_bit_of(self@, 7, v),
    {
        EFLG { bits: set_bit(self.bits, 7, v) }
    }
}

/// RXnBF Pin Control and Status Register
#[derive(Copy, Clone, Debug, PartialEq, Eq, Structural)]
pub struct BFPCTRL {
    bits: u8,
}

impl View for BFPCTRL {
    type V = u8;

    closed spec fn view(&self) -> u8 {
        self.bits
    }
}

impl Register for BFPCTRL {
    open spec fn spec_address() -> u8 {
        0x0C
    }

    fn address() -> (r: u8) {
        0x0C
    }

    fn from_byte(b: u8) -> (r: Self) {
        BFPCTRL { bits: b }
    }

    fn into_byte(&self) -> (r: u8) {
        self.bits
    }

    proof fn lemma_view_injective(self, other: Self) {
    }
}

impl Modify for BFPCTRL {}

impl Default for BFPCTRL {
    fn default() -> (r: Self)
        ensures
            r@ == 0,
    {
        BFPCTRL { bits: 0 }
    }
}

impl BFPCTRL {
    /// All bits cleared
    pub fn new() -> (r: Self)
        ensures
            r@ == 0,
    {
        BFPCTRL { bits: 0 }
    }

    /// RX0BF Pin Operation mode
    pub fn b0bfm(&self) -> (r: bool)
        ensures
            r == bit_of(self@, 0),
    {
        get_bit(self.bits, 0)
    }

    pub fn with_b0bfm(self, v: bool) -> (r: Self)
        ensures
            r@ == with_bit_of(self@, 0, v),
    {
        BFPCTRL { bits: set_bit(self.bits, 0, v) }
    }

    /// RX1BF Pin Operation mode
    pub fn b1bfm(&self) -> (r: bool)
        ensures
            r == bit_of(self@, 1),
    {
        get_bit(self.bits, 1)
    }

    pub fn with_b1bfm(self, v: bool) -> (r: Self)
        ensures
            r@ == with_bit_of(self@, 1, v),
    {
        BFPCTRL { bits: set_bit(self.bits, 1, v) }
    }

    /// RX0BF Pin Function Enable
    pub fn b0bfe(&self) -> (r: bool)
        ensures
            r == bit_of(self@, 2),
    {
        get_bit(self.bits, 2)
    }

    pub fn with_b0bfe(self, v: bool) -> (r: Self)
        ensures
            r@ == with_bit_of(self@, 2, v),
    {
        BFPCTRL { bits: set_bit(self.bits, 2, v) }
    }

    /// RX1BF Pin Function Enable
    pub fn b1bfe(&self) -> (r: bool)
        ensures
            r == bit_of(self@, 3),
    {
        get_bit(self.bits, 3)
    }

    pub fn with_b1bfe(self, v: bool) -> (r: Self)
        ensures
            r@ == with_bit_of(self@, 3, v),
    {
        BFPCTRL { bits: set_bit(self.bits, 3, v) }
    }

    /// RX0BF Pin State
    pub fn b0bfs(&self) -> (r: bool)
        ensures
            r == bit_of(self@, 4),
    {
        get_bit(self.bits, 4)
    }

    pub fn with_b0bfs(self, v: bool) -> (r: Self)
        ensures
            r@ == with_bit_of(self@, 4, v),
    {
        BFPCTRL { bits: set_bit(self.bits, 4, v) }
    }

    /// RX1BF Pin State
    pub fn b1bfs(&self) -> (r: bool)
        ensures
            r == bit_of(self@, 5),
    {
        get_bit(self.bits, 5)
    }

    pub fn with_b1bfs(self, v: bool) -> (r: Self)
        ensures
            r@ == with_bit_of(self@, 5, v),
    {
        BFPCTRL { bits: set_bit(self.bits, 5, v) }
    }
}

/// TXnRTS Pin Control and Status Register
///
/// Note: Write operations require Configuration mode
#[derive(Copy, Clone, Debug, PartialEq, Eq, Structural)]
pub struct TXRTSCTRL {
    bits: u8,
}

impl View for TXRTSCTRL {
    type V = u8;

    closed spec fn view(&self) -> u8 {
        self.bits
    }
}

impl Register for TXRTSCTRL {
    open spec fn spec_address() -> u8 {
        0x0D
    }

    fn address() -> (r: u8) {
        0x0D
    }

    fn from_byte(b: u8) -> (r: Self) {
        TXRTSCTRL { bits: b }
    }

    fn into_byte(&self) -> (r: u8) {
        self.bits
    }

    proof fn lemma_view_injective(self, other: Self) {
    }
}

impl Modify for TXRTSCTRL {}

impl Default for TXRTSCTRL {
    fn default() -> (r: Self)
        ensures
            r@ == 0,
    {
        TXRTSCTRL { bits: 0 }
    }
}

impl TXRTSCTRL {
    /// All bits cleared
    pub fn new() -> (r: Self)
        ensures
            r@ == 0,
    {
        TXRTSCTRL { bits: 0 }
    }

    /// TX0RTS Pin mode
    pub fn b0rtsm(&self) -> (r: bool)
        ensures
            r == bit_of(self@, 0),
    {
        get_bit(self.bits, 0)
    }

    pub fn with_b0rtsm(self, v: bool) -> (r: Self)
        ensures
            r@ == with_bit_of(self@, 0, v),
    {
        TXRTSCTRL { bits: set_bit(self.bits, 0, v) }
    }

    /// TX1RTS Pin mode
    pub fn b1rtsm(&self) -> (r: bool)
        ensures
            r == bit_of(self@, 1),
    {
        get_bit(self.bits, 1)
    }

    pub fn with_b1rtsm(self, v: bool) -> (r: Self)
        ensures
            r@ == with_bit_of(self@, 1, v),
    {
        TXRTSCTRL { bits: set_bit(self.bits, 1, v) }
    }

    /// TX2RTS Pin mode
    pub fn b2rtsm(&self) -> (r: bool)
        ensures
            r == bit_of(self@, 2),
    {
        get_bit(self.bits, 2)
    }

    pub fn with_b2rtsm(self, v: bool) -> (r: Self)
        ensures
            r@ == with_bit_of(self@, 2, v),
    {
        TXRTSCTRL { bits: set_bit(self.bits, 2, v) }
    }

    /// TX0RTS Pin State
    pub fn b0rts(&self) -> (r: bool)
        ensures
            r == bit_of(self@, 3),
    {
        get_bit(self.bits, 3)
    }

    pub fn with_b0rts(self, v: bool) -> (r: Self)
        ensures
            r@ == with_bit_of(self@, 3, v),
    {
        TXRTSCTRL { bits: set_bit(self.bits, 3, v) }
    }

    /// TX1RTS Pin State
    pub fn b1rts(&self) -> (r: bool)
        ensures
            r == bit_of(self@, 4),
    {
        get_bit(self.bits, 4)
    }

    pub fn with_b1rts(self, v: bool) -> (r: Self)
        ensures
            r@ == with_bit_of(self@, 4, v),
    {
        TXRTSCTRL { bits: set_bit(self.bits, 4, v) }
    }

    /// TX2RTS Pin State
    pub fn b2rts(&self) -> (r: bool)
        ensures
            r == bit_of(self@, 5),
    {
        get_bit(self.bits, 5)
    }

    pub fn with_b2rts(self, v: bool) -> (r: Self)
        ensures
            r@ == with_bit_of(self@, 5, v),
    {
        TXRTSCTRL { bits: set_bit(self.bits, 5, v) }
    }
}

/// Read Status Response Bitfield
#[derive(Copy, Clone, Debug, PartialEq, Eq, Structural)]
pub struct ReadStatusResponse {
    bits: u8,
}

impl View for ReadStatusResponse {
    type V = u8;

    closed spec fn view(&self) -> u8 {
        self.bits
    }
}

impl Default for ReadStatusResponse {
    fn default() -> (r: Self)
        ensures
            r@ == 0,
    {
        ReadStatusResponse { bits: 0 }
    }
}

impl ReadStatusResponse {
    /// All bits cleared
    pub fn new() -> (r: Self)
        ensures
            r@ == 0,
    {
        ReadStatusResponse { bits: 0 }
    }

    /// The value of byte `b`
    pub fn from_byte(b: u8) -> (r: Self)
        ensures
            r@ == b,
    {
        ReadStatusResponse { bits: b }
    }

    /// The byte that holds this value
    pub fn into_byte(&self) -> (r: u8)
        ensures
            r == self@,
    {
        self.bits
    }

    /// Receive Buffer 0 Full Interrupt Flag
    pub fn rx0if(&self) -> (r: bool)
        ensures
            r == bit_of(self@, 0),
    {
        get_bit(self.bits, 0)
    }

    /// Receive Buffer 1 Full Interrupt Flag
    pub fn rx1if(&self) -> (r: bool)
        ensures
            r == bit_of(self@, 1),
    {
        get_bit(self.bits, 1)
    }

    /// Message Transmit Request bit of transmit buffer 0
    pub fn txreq0(&self) -> (r: bool)
        ensures
            r == bit_of(self@, 2),
    {
        get_bit(self.bits, 2)
    }

    /// Transmit Buffer 0 Empty Interrupt Flag
    pub fn tx0if(&self) -> (r: bool)
        ensures
            r == bit_of(self@, 3),
    {
        get_bit(self.bits, 3)
    }

    /// Message Transmit Request bit of transmit buffer 1
    pub fn txreq1(&self) -> (r: bool)
        ensures
            r == bit_of(self@, 4),
    {
        get_bit(self.bits, 4)
    }

    /// Transmit Buffer 1 Empty Interrupt Flag
    pub fn tx1if(&self) -> (r: bool)
        ensures
            r == bit_of(self@, 5),
    {
        get_bit(self.bits, 5)
    }

    /// Message Transmit Request bit of transmit buffer 2
    pub fn txreq2(&self) -> (r: bool)
        ensures
            r == bit_of(self@, 6),
    {
        get_bit(self.bits, 6)
    }

    /// Transmit Buffer 2 Empty Interrupt Flag
    pub fn tx2if(&self) -> (r: bool)
        ensures
            r == bit_of(self@, 7),
    {
        get_bit(self.bits, 7)
    }
}

/// Receive Status Response Bitfield (MCP2515 and MCP25625 only)
#[derive(Copy, Clone, Debug, PartialEq, Eq, Structural)]
pub struct RxStatusResponse {
    bits: u8,
}

impl View for RxStatusResponse {
    type V = u8;

    closed spec fn view(&self) -> u8 {
        self.bits
    }
}

impl Default for RxStatusResponse {
    fn default() -> (r: Self)
        ensures
            r@ == 0,
    {
        RxStatusResponse { bits: 0 }
    }
}

impl RxStatusResponse {
    /// All bits cleared
    pub fn new() -> (r: Self)
        ensures
            r@ == 0,
    {
        RxStatusResponse { bits: 0 }
    }

    /// The value of byte `b`
    pub fn from_byte(b: u8) -> (r: Self)
        ensures
            r@ == b,
    {
        RxStatusResponse { bits: b }
    }

    /// The byte that holds this value
    pub fn into_byte(&self) -> (r: u8)
        ensures
            r == self@,
    {
        self.bits
    }

    /// The filter that matched the received message
    pub fn filter_match(&self) -> (r: FilterMatch)
        ensures
            r.spec_bits() == field_of(self@, 0, 7),
    {
        FilterMatch::from_bits(get_field(self.bits, 0, 7))
    }

    /// The received message is a remote frame
    pub fn is_remote(&self) -> (r: bool)
        ensures
            r == bit_of(self@, 3),
    {
        get_bit(self.bits, 3)
    }

    /// The received message has an extended identifier
    pub fn is_extended(&self) -> (r: bool)
        ensures
            r == bit_of(self@, 4),
    {
        get_bit(self.bits, 4)
    }

    /// Receive Buffer 0 Full Interrupt Flag
    pub fn rx0if(&self) -> (r: bool)
        ensures
            r == bit_of(self@, 6),
    {
        get_bit(self.bits, 6)
    }

    /// Receive Buffer 1 Full Interrupt Flag
    pub fn rx1if(&self) -> (r: bool)
        ensures
            r == bit_of(self@, 7),
    {
        get_bit(self.bits, 7)
    }
}

/// Configuration Registers, in address order CNF3, CNF2, CNF1
///
/// Note: Write operations require Configuration mode
#[derive(Copy, Clone, Debug, PartialEq, Eq, Structural)]
pub struct CNF {
    /// Configuration 3 Register
    pub cnf3: CNF3,
    /// Configuration 2 Register
    pub cnf2: CNF2,
    /// Configuration 1 Register
    pub cnf1: CNF1,
}

impl Default for CNF {
    fn default() -> (r: Self)
        ensures
            r.cnf3@ == 0,
            r.cnf2@ == 0,
            r.cnf1@ == 0,
    {
        CNF { cnf3: CNF3::new(), cnf2: CNF2::new(), cnf1: CNF1::new() }
    }
}

impl CNF {
    /// The three bytes in address order: CNF3, CNF2, CNF1
    pub open spec fn spec_bytes(self) -> Seq<u8> {
        seq![self.cnf3@, self.cnf2@, self.cnf1@]
    }

    /// The registers holding `bytes`, in address order CNF3, CNF2, CNF1
    pub fn from_bytes(bytes: [u8; 3]) -> (r: Self)
        ensures
            r.spec_bytes() == bytes@,
    {
        let r = CNF {
            cnf3: CNF3::from_byte(bytes[0]),
            cnf2: CNF2::from_byte(bytes[1]),
            cnf1: CNF1::from_byte(bytes[2]),
        };
        assert(r.spec_bytes() =~= bytes@);
        r
    }

    /// The bytes of the registers in address order CNF3, CNF2, CNF1
    pub fn into_bytes(self) -> (r: [u8; 3])
        ensures
            r@ == self.spec_bytes(),
    {
        let r = [self.cnf3.into_byte(), self.cnf2.into_byte(), self.cnf1.into_byte()];
        assert(r@ =~= self.spec_bytes());
        r
    }
}

/// Transmit Error Counter Register
#[derive(Copy, Clone, Debug, Default, PartialEq, Eq, Structural)]
pub struct TEC(pub u8);

impl View for TEC {
    type V = u8;

    open spec fn view(&self) -> u8 {
        self.0
    }
}

impl Register for TEC {
    open spec fn spec_address() -> u8 {
        0x1C
    }

    fn address() -> (r: u8) {
        0x1C
    }

    fn from_byte(b: u8) -> (r: Self) {
        TEC(b)
    }

    fn into_byte(&self) -> (r: u8) {
        self.0
    }

    proof fn lemma_view_injective(self, other: Self) {
    }
}

/// Receive Error Counter Register
#[derive(Copy, Clone, Debug, Default, PartialEq, Eq, Structural)]
pub struct REC(pub u8);

impl View for REC {
    type V = u8;

    open spec fn view(&self) -> u8 {
        self.0
    }
}

impl Register for REC {
    open spec fn spec_address() -> u8 {
        0x1D
    }

    fn address() -> (r: u8) {
        0x1D
    }

    fn from_byte(b: u8) -> (r: Self) {
        REC(b)
    }

    fn into_byte(&self) -> (r: u8) {
        self.0
    }

    proof fn lemma_view_injective(self, other: Self) {
    }
}

} // verus!
