//! Enums for the register fields that hold one of a few named settings.
//!
//! Each enum takes a fixed number of bits in its register. Encoding gives the
//! code of a variant; decoding looks only at the low bits of that width and
//! gives the variant with that code, so every byte decodes to some variant.
use crate::bits::{lemma_fitting_value, lemma_low_masks, low_mask};
use vstd::prelude::*;

verus! {

/// A register field that is represented as an enum.
pub trait EnumField: Sized {
    /// The number of bits the field takes in its register.
    spec fn spec_width() -> u8;

    /// The code of a variant.
    spec fn spec_into_bits(self) -> u8;

    /// The variant that the low `spec_width()` bits of `bits` stand for.
    spec fn spec_from_bits(bits: u8) -> Self;

    /// Convert the field to its bits representation.
    fn into_bits(self) -> (bits: u8)
        ensures
            bits == self.spec_into_bits(),
            bits <= low_mask(Self::spec_width()),
    ;

    /// Convert bits to the field. Bits above the field's width are ignored.
    fn from_bits(bits: u8) -> (field: Self)
        ensures
            field == Self::spec_from_bits(bits),
            field.spec_into_bits() == bits & low_mask(Self::spec_width()),
    ;

    /// The field is between one and eight bits wide.
    proof fn lemma_width()
        ensures
            1 <= Self::spec_width() <= 8,
    ;

    /// The code of every variant fits the field's width.
    proof fn lemma_code_fits(self)
        ensures
            self.spec_into_bits() <= low_mask(Self::spec_width()),
    ;

    /// Decoding the code of a variant gives that variant back.
    proof fn lemma_decode_encode(self)
        ensures
            Self::spec_from_bits(self.spec_into_bits()) == self,
    ;

    /// Every byte decodes to the variant whose code is the byte's low bits:
    /// no bit pattern is left without a variant.
    proof fn lemma_encode_decode(bits: u8)
        ensures
            Self::spec_from_bits(bits).spec_into_bits() == bits & low_mask(Self::spec_width()),
    ;
}

/// Two variants with the same code are the same variant.
pub proof fn lemma_codes_distinct<E: EnumField>(a: E, b: E)
    requires
        a.spec_into_bits() == b.spec_into_bits(),
    ensures
        a == b,
{
    a.lemma_decode_encode();
    b.lemma_decode_encode();
}

/// A variant survives being written into a field of its width and read back:
/// cutting its code to the width and decoding gives the variant again.
pub proof fn lemma_enum_round_trip<E: EnumField>(field: E)
    ensures
        E::spec_from_bits(field.spec_into_bits() & low_mask(E::spec_width())) == field,
{
    E::lemma_width();
    field.lemma_code_fits();
    field.lemma_decode_encode();
    lemma_fitting_value(field.spec_into_bits(), E::spec_width());
}

/// What is left of a byte after cutting it to one, two, three or four bits.
proof fn lemma_cut_bounds(bits: u8)
    by (bit_vector)
    ensures
        bits & 0b1 <= 0b1,
        bits & 0b11 <= 0b11,
        bits & 0b111 <= 0b111,
        bits & 0b1111 <= 0b1111,
{
}

/// CRC encoding scheme.
#[derive(Copy, Clone, Debug, PartialEq, Eq, Structural)]
pub enum Crco {
    /// 1 byte CRC. Code `0`.
    OneByte,
    /// 2 byte CRC. Code `1`.
    TwoByte,
}

impl EnumField for Crco {
    open spec fn spec_width() -> u8 {
        1
    }

    open spec fn spec_into_bits(self) -> u8 {
        match self {
            Crco::OneByte => 0b0,
            Crco::TwoByte => 0b1,
        }
    }

    open spec fn spec_from_bits(bits: u8) -> Self {
        let code = bits & 0b1;
        if code == 0b0 {
            Crco::OneByte
        } else {
            Crco::TwoByte
        }
    }

    fn into_bits(self) -> (bits: u8) {
        proof {
            lemma_low_masks();
        }
        match self {
            Crco::OneByte => 0b0,
            Crco::TwoByte => 0b1,
        }
    }

    fn from_bits(bits: u8) -> (field: Self) {
        proof {
            lemma_low_masks();
            lemma_cut_bounds(bits);
        }
        match bits & 0b1 {
            0b0 => Crco::OneByte,
            _ => Crco::TwoByte,
        }
    }

    proof fn lemma_width() {
    }

    proof fn lemma_code_fits(self) {
        lemma_low_masks();
    }

    proof fn lemma_decode_encode(self) {
        let code = self.spec_into_bits();
        lemma_low_masks();
        lemma_fitting_value(code, 1);
    }

    proof fn lemma_encode_decode(bits: u8) {
        lemma_low_masks();
        lemma_cut_bounds(bits);
    }
}

/// RX/TX address field width in bytes.
/// The least significant bytes are used if the address width is below 5 bytes.
#[derive(Copy, Clone, Debug, PartialEq, Eq, Structural)]
pub enum AddressWidth {
    /// Not a legal setting. Code `00`.
    Illegal,
    /// 3 byte address. Code `01`.
    ThreeByte,
    /// 4 byte address. Code `10`.
    FourByte,
    /// 5 byte address. Code `11`.
    FiveByte,
}

impl EnumField for AddressWidth {
    open spec fn spec_width() -> u8 {
        2
    }

    open spec fn spec_into_bits(self) -> u8 {
        match self {
            AddressWidth::Illegal => 0b00,
            AddressWidth::ThreeByte => 0b01,
            AddressWidth::FourByte => 0b10,
            AddressWidth::FiveByte => 0b11,
        }
    }

    open spec fn spec_from_bits(bits: u8) -> Self {
        let code = bits & 0b11;
        if code == 0b00 {
            AddressWidth::Illegal
        } else if code == 0b01 {
            AddressWidth::ThreeByte
        } else if code == 0b10 {
            AddressWidth::FourByte
        } else {
            AddressWidth::FiveByte
        }
    }

    fn into_bits(self) -> (bits: u8) {
        proof {
            lemma_low_masks();
        }
        match self {
            AddressWidth::Illegal => 0b00,
            AddressWidth::ThreeByte => 0b01,
            AddressWidth::FourByte => 0b10,
            AddressWidth::FiveByte => 0b11,
        }
    }

    fn from_bits(bits: u8) -> (field: Self) {
        proof {
            lemma_low_masks();
            lemma_cut_bounds(bits);
        }
        match bits & 0b11 {
            0b00 => AddressWidth::Illegal,
            0b01 => AddressWidth::ThreeByte,
            0b10 => AddressWidth::FourByte,
            _ => AddressWidth::FiveByte,
        }
    }

    proof fn lemma_width() {
    }

    proof fn lemma_code_fits(self) {
        lemma_low_masks();
    }

    proof fn lemma_decode_encode(self) {
        let code = self.spec_into_bits();
        lemma_low_masks();
        lemma_fitting_value(code, 2);
    }

    proof fn lemma_encode_decode(bits: u8) {
        lemma_low_masks();
        lemma_cut_bounds(bits);
    }
}

/// Auto retransmit delay, from 250 us in steps of 250 us up to 4000 us.
#[derive(Copy, Clone, Debug, PartialEq, Eq, Structural)]
pub enum AutoRetransmitDelay {
    /// Wait 250 us. Code `0000`.
    US250,
    /// Wait 500 us. Code `0001`.
    US500,
    /// Wait 750 us. Code `0010`.
    US750,
    /// Wait 1000 us. Code `0011`.
    US1000,
    /// Wait 1250 us. Code `0100`.
    US1250,
    /// Wait 1500 us. Code `0101`.
    US1500,
    /// Wait 1750 us. Code `0110`.
    US1750,
    /// Wait 2000 us. Code `0111`.
    US2000,
    /// Wait 2250 us. Code `1000`.
    US2250,
    /// Wait 2500 us. Code `1001`.
    US2500,
    /// Wait 2750 us. Code `1010`.
    US2750,
    /// Wait 3000 us. Code `1011`.
    US3000,
    /// Wait 3250 us. Code `1100`.
    US3250,
    /// Wait 3500 us. Code `1101`.
    US3500,
    /// Wait 3750 us. Code `1110`.
    US3750,
    /// Wait 4000 us. Code `1111`.
    US4000,
}

impl EnumField for AutoRetransmitDelay {
    open spec fn spec_width() -> u8 {
        4
    }

    open spec fn spec_into_bits(self) -> u8 {
        match self {
            AutoRetransmitDelay::US250 => 0b0000,
            AutoRetransmitDelay::US500 => 0b0001,
            AutoRetransmitDelay::US750 => 0b0010,
            AutoRetransmitDelay::US1000 => 0b0011,
            AutoRetransmitDelay::US1250 => 0b0100,
            AutoRetransmitDelay::US1500 => 0b0101,
            AutoRetransmitDelay::US1750 => 0b0110,
            AutoRetransmitDelay::US2000 => 0b0111,
            AutoRetransmitDelay::US2250 => 0b1000,
            AutoRetransmitDelay::US2500 => 0b1001,
            AutoRetransmitDelay::US2750 => 0b1010,
            AutoRetransmitDelay::US3000 => 0b1011,
            AutoRetransmitDelay::US3250 => 0b1100,
            AutoRetransmitDelay::US3500 => 0b1101,
            AutoRetransmitDelay::US3750 => 0b1110,
            AutoRetransmitDelay::US4000 => 0b1111,
        }
    }

    open spec fn spec_from_bits(bits: u8) -> Self {
        let code = bits & 0b1111;
        if code == 0b0000 {
            AutoRetransmitDelay::US250
        } else if code == 0b0001 {
            AutoRetransmitDelay::US500
        } else if code == 0b0010 {
            AutoRetransmitDelay::US750
        } else if code == 0b0011 {
            AutoRetransmitDelay::US1000
        } else if code == 0b0100 {
            AutoRetransmitDelay::US1250
        } else if code == 0b0101 {
            AutoRetransmitDelay::US1500
        } else if code == 0b0110 {
            AutoRetransmitDelay::US1750
        } else if code == 0b0111 {
            AutoRetransmitDelay::US2000
        } else if code == 0b1000 {
            AutoRetransmitDelay::US2250
        } else if code == 0b1001 {
            AutoRetransmitDelay::US2500
        } else if code == 0b1010 {
            AutoRetransmitDelay::US2750
        } else if code == 0b1011 {
            AutoRetransmitDelay::US3000
        } else if code == 0b1100 {
            AutoRetransmitDelay::US3250
        } else if code == 0b1101 {
            AutoRetransmitDelay::US3500
        } else if code == 0b1110 {
            AutoRetransmitDelay::US3750
        } else {
            AutoRetransmitDelay::US4000
        }
    }

    fn into_bits(self) -> (bits: u8) {
        proof {
            lemma_low_masks();
        }
        match self {
            AutoRetransmitDelay::US250 => 0b0000,
            AutoRetransmitDelay::US500 => 0b0001,
            AutoRetransmitDelay::US750 => 0b0010,
            AutoRetransmitDelay::US1000 => 0b0011,
            AutoRetransmitDelay::US1250 => 0b0100,
            AutoRetransmitDelay::US1500 => 0b0101,
            AutoRetransmitDelay::US1750 => 0b0110,
            AutoRetransmitDelay::US2000 => 0b0111,
            AutoRetransmitDelay::US2250 => 0b1000,
            AutoRetransmitDelay::US2500 => 0b1001,
            AutoRetransmitDelay::US2750 => 0b1010,
            AutoRetransmitDelay::US3000 => 0b1011,
            AutoRetransmitDelay::US3250 => 0b1100,
            AutoRetransmitDelay::US3500 => 0b1101,
            AutoRetransmitDelay::US3750 => 0b1110,
            AutoRetransmitDelay::US4000 => 0b1111,
        }
    }

    fn from_bits(bits: u8) -> (field: Self) {
        proof {
            lemma_low_masks();
            lemma_cut_bounds(bits);
        }
        match bits & 0b1111 {
            0b0000 => AutoRetransmitDelay::US250,
            0b0001 => AutoRetransmitDelay::US500,
            0b0010 => AutoRetransmitDelay::US750,
            0b0011 => AutoRetransmitDelay::US1000,
            0b0100 => AutoRetransmitDelay::US1250,
            0b0101 => AutoRetransmitDelay::US1500,
            0b0110 => AutoRetransmitDelay::US1750,
            0b0111 => AutoRetransmitDelay::US2000,
            0b1000 => AutoRetransmitDelay::US2250,
            0b1001 => AutoRetransmitDelay::US2500,
            0b1010 => AutoRetransmitDelay::US2750,
            0b1011 => AutoRetransmitDelay::US3000,
            0b1100 => AutoRetransmitDelay::US3250,
            0b1101 => AutoRetransmitDelay::US3500,
            0b1110 => AutoRetransmitDelay::US3750,
            _ => AutoRetransmitDelay::US4000,
        }
    }

    proof fn lemma_width() {
    }

    proof fn lemma_code_fits(self) {
        lemma_low_masks();
    }

    proof fn lemma_decode_encode(self) {
        let code = self.spec_into_bits();
        lemma_low_masks();
        lemma_fitting_value(code, 4);
    }

    proof fn lemma_encode_decode(bits: u8) {
        lemma_low_masks();
        lemma_cut_bounds(bits);
    }
}

/// High speed data rate.
#[derive(Copy, Clone, Debug, PartialEq, Eq, Structural)]
pub enum RfDrHigh {
    /// 1 Mbps. Code `0`.
    Mbps1,
    /// 2 Mbps. Code `1`.
    Mbps2,
}

impl EnumField for RfDrHigh {
    open spec fn spec_width() -> u8 {
        1
    }

    open spec fn spec_into_bits(self) -> u8 {
        match self {
            RfDrHigh::Mbps1 => 0b0,
            RfDrHigh::Mbps2 => 0b1,
        }
    }

    open spec fn spec_from_bits(bits: u8) -> Self {
        let code = bits & 0b1;
        if code == 0b0 {
            RfDrHigh::Mbps1
        } else {
            RfDrHigh::Mbps2
        }
    }

    fn into_bits(self) -> (bits: u8) {
        proof {
            lemma_low_masks();
        }
        match self {
            RfDrHigh::Mbps1 => 0b0,
            RfDrHigh::Mbps2 => 0b1,
        }
    }

    fn from_bits(bits: u8) -> (field: Self) {
        proof {
            lemma_low_masks();
            lemma_cut_bounds(bits);
        }
        match bits & 0b1 {
            0b0 => RfDrHigh::Mbps1,
            _ => RfDrHigh::Mbps2,
        }
    }

    proof fn lemma_width() {
    }

    proof fn lemma_code_fits(self) {
        lemma_low_masks();
    }

    proof fn lemma_decode_encode(self) {
        let code = self.spec_into_bits();
        lemma_low_masks();
        lemma_fitting_value(code, 1);
    }

    proof fn lemma_encode_decode(bits: u8) {
        lemma_low_masks();
        lemma_cut_bounds(bits);
    }
}

/// RF output power in TX mode.
#[derive(Copy, Clone, Debug, PartialEq, Eq, Structural)]
pub enum RfPower {
    /// -18 dBm. Code `00`.
    Neg18Dbm,
    /// -12 dBm. Code `01`.
    Neg12Dbm,
    /// -6 dBm. Code `10`.
    Neg6Dbm,
    /// 0 dBm. Code `11`.
    Dbm0,
}

impl EnumField for RfPower {
    open spec fn spec_width() -> u8 {
        2
    }

    open spec fn spec_into_bits(self) -> u8 {
        match self {
            RfPower::Neg18Dbm => 0b00,
            RfPower::Neg12Dbm => 0b01,
            RfPower::Neg6Dbm => 0b10,
            RfPower::Dbm0 => 0b11,
        }
    }

    open spec fn spec_from_bits(bits: u8) -> Self {
        let code = bits & 0b11;
        if code == 0b00 {
            RfPower::Neg18Dbm
        } else if code == 0b01 {
            RfPower::Neg12Dbm
        } else if code == 0b10 {
            RfPower::Neg6Dbm
        } else {
            RfPower::Dbm0
        }
    }

    fn into_bits(self) -> (bits: u8) {
        proof {
            lemma_low_masks();
        }
        match self {
            RfPower::Neg18Dbm => 0b00,
            RfPower::Neg12Dbm => 0b01,
            RfPower::Neg6Dbm => 0b10,
            RfPower::Dbm0 => 0b11,
        }
    }

    fn from_bits(bits: u8) -> (field: Self) {
        proof {
            lemma_low_masks();
            lemma_cut_bounds(bits);
        }
        match bits & 0b11 {
            0b00 => RfPower::Neg18Dbm,
            0b01 => RfPower::Neg12Dbm,
            0b10 => RfPower::Neg6Dbm,
            _ => RfPower::Dbm0,
        }
    }

    proof fn lemma_width() {
    }

    proof fn lemma_code_fits(self) {
        lemma_low_masks();
    }

    proof fn lemma_decode_encode(self) {
        let code = self.spec_into_bits();
        lemma_low_masks();
        lemma_fitting_value(code, 2);
    }

    proof fn lemma_encode_decode(bits: u8) {
        lemma_low_masks();
        lemma_cut_bounds(bits);
    }
}

/// Data pipe number for the payload available from reading RX FIFO.
#[derive(Copy, Clone, Debug, PartialEq, Eq, Structural)]
pub enum RxPipeNo {
    /// Data pipe 0. Code `000`.
    Pipe0,
    /// Data pipe 1. Code `001`.
    Pipe1,
    /// Data pipe 2. Code `010`.
    Pipe2,
    /// Data pipe 3. Code `011`.
    Pipe3,
    /// Data pipe 4. Code `100`.
    Pipe4,
    /// Data pipe 5. Code `101`.
    Pipe5,
    /// Not used. Code `110`.
    NotUsed,
    /// RX FIFO empty. Code `111`.
    RxFifoEmpty,
}

impl EnumField for RxPipeNo {
    open spec fn spec_width() -> u8 {
        3
    }

    open spec fn spec_into_bits(self) -> u8 {
        match self {
            RxPipeNo::Pipe0 => 0b000,
            RxPipeNo::Pipe1 => 0b001,
            RxPipeNo::Pipe2 => 0b010,
            RxPipeNo::Pipe3 => 0b011,
            RxPipeNo::Pipe4 => 0b100,
            RxPipeNo::Pipe5 => 0b101,
            RxPipeNo::NotUsed => 0b110,
            RxPipeNo::RxFifoEmpty => 0b111,
        }
    }

    open spec fn spec_from_bits(bits: u8) -> Self {
        let code = bits & 0b111;
        if code == 0b000 {
            RxPipeNo::Pipe0
        } else if code == 0b001 {
            RxPipeNo::Pipe1
        } else if code == 0b010 {
            RxPipeNo::Pipe2
        } else if code == 0b011 {
            RxPipeNo::Pipe3
        } else if code == 0b100 {
            RxPipeNo::Pipe4
        } else if code == 0b101 {
            RxPipeNo::Pipe5
        } else if code == 0b110 {
            RxPipeNo::NotUsed
        } else {
            RxPipeNo::RxFifoEmpty
        }
    }

    fn into_bits(self) -> (bits: u8) {
        proof {
            lemma_low_masks();
        }
        match self {
            RxPipeNo::Pipe0 => 0b000,
            RxPipeNo::Pipe1 => 0b001,
            RxPipeNo::Pipe2 => 0b010,
            RxPipeNo::Pipe3 => 0b011,
            RxPipeNo::Pipe4 => 0b100,
            RxPipeNo::Pipe5 => 0b101,
            RxPipeNo::NotUsed => 0b110,
            RxPipeNo::RxFifoEmpty => 0b111,
        }
    }

    fn from_bits(bits: u8) -> (field: Self) {
        proof {
            lemma_low_masks();
            lemma_cut_bounds(bits);
        }
        match bits & 0b111 {
            0b000 => RxPipeNo::Pipe0,
            0b001 => RxPipeNo::Pipe1,
            0b010 => RxPipeNo::Pipe2,
            0b011 => RxPipeNo::Pipe3,
            0b100 => RxPipeNo::Pipe4,
            0b101 => RxPipeNo::Pipe5,
            0b110 => RxPipeNo::NotUsed,
            _ => RxPipeNo::RxFifoEmpty,
        }
    }

    proof fn lemma_width() {
    }

    proof fn lemma_code_fits(self) {
        lemma_low_masks();
    }

    proof fn lemma_decode_encode(self) {
        let code = self.spec_into_bits();
        lemma_low_masks();
        lemma_fitting_value(code, 3);
    }

    proof fn lemma_encode_decode(bits: u8) {
        lemma_low_masks();
        lemma_cut_bounds(bits);
    }
}

} // verus!
