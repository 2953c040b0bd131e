//! Register bitfields for the nRF24L01+.
//!
//! Every register but three is one byte, cut into named fields. The byte is
//! kept as it is: [`from_bits`](Config::from_bits) stores it and
//! [`into_bits`](Config::into_bits) hands it back, and each field is read and
//! written in place with the operations of [`crate::bits`]. Bit 7 is the most
//! significant bit, as in the device's datasheet.
//!
//! The three address registers ([`RxAddrP0`], [`RxAddrP1`], [`TxAddr`]) hold a
//! 40-bit address and go over the bus as 3, 4 or 5 bytes, least significant
//! byte first.
//!
//! ## Example with the CONFIG register
//! ```rust
//! use nrf24l01_commands::{fields, registers};
//!
//! // Default value
//! let reg = registers::Config::new();
//! assert_eq!(reg.into_bits(), 0b0000_1000);
//!
//! // Read fields
//! let reg = registers::Config::from_bits(0b0000_0110);
//! assert!(!reg.mask_rx_dr());
//! assert!(!reg.en_crc());
//! assert_eq!(reg.crco(), fields::Crco::TwoByte);
//! assert!(reg.pwr_up());
//!
//! // Write fields
//! let reg = registers::Config::new()
//!     .with_mask_rx_dr(true)
//!     .with_en_crc(false)
//!     .with_crco(fields::Crco::TwoByte)
//!     .with_pwr_up(true);
//! assert_eq!(reg.into_bits(), 0b0100_0110);
//! ```
use crate::bits::{
    field_replaced, field_value, flag_replaced, flag_value, get_field, get_flag, lemma_low_masks,
    lemma_whole_byte, same_outside, set_field, set_flag,
};
use crate::fields::{
    lemma_enum_round_trip, AddressWidth, AutoRetransmitDelay, Crco, EnumField, RfDrHigh, RfPower,
    RxPipeNo,
};
use vstd::prelude::*;

verus! {

/// A trait for nRF24L01+ registers that are one byte wide.
pub trait Register: Copy {
    /// Register address.
    const ADDRESS: u8;

    /// The value of [`ADDRESS`](Register::ADDRESS), for use in contracts.
    spec fn spec_address() -> u8;

    /// The register value that holds the byte `bits`.
    spec fn spec_from_bits(bits: u8) -> Self;

    /// The byte that a register value holds.
    spec fn spec_into_bits(self) -> u8;

    /// Convert register to bits.
    fn into_bits(self) -> (bits: u8)
        ensures
            bits == self.spec_into_bits(),
    ;

    /// The address is one of the device's register addresses, which all fit
    /// in five bits.
    proof fn lemma_address()
        ensures
            Self::ADDRESS == Self::spec_address(),
            Self::spec_address() <= 0x1D,
    ;

    /// A byte that was stored comes back unchanged.
    proof fn lemma_into_from(bits: u8)
        ensures
            Self::spec_from_bits(bits).spec_into_bits() == bits,
    ;

    /// A register value is the one that holds its byte: no two values hold
    /// the same byte.
    proof fn lemma_from_into(self)
        ensures
            Self::spec_from_bits(self.spec_into_bits()) == self,
    ;
}

/// Round trip: storing a byte, taking it out and storing it again gives the
/// register value of the first storing.
pub proof fn lemma_register_round_trip<R: Register>(bits: u8)
    ensures
        R::spec_from_bits(R::spec_from_bits(bits).spec_into_bits()) == R::spec_from_bits(bits),
{
    R::lemma_into_from(bits);
}

/// The 40 bits that an address register holds.
pub const ADDRESS_MASK: u64 = 0xFF_FFFF_FFFF;

/// The address that a raw register value holds: its low 40 bits.
pub open spec fn address_value(raw: u64) -> u64 {
    raw & ADDRESS_MASK
}

/// The raw value with its 40 address bits replaced by the low 40 bits of
/// `value`.
pub open spec fn address_replaced(raw: u64, value: u64) -> u64 {
    (raw & !ADDRESS_MASK) | (value & ADDRESS_MASK)
}

/// Byte `index` of `value`, counted from the least significant byte.
pub open spec fn le_byte(value: u64, index: nat) -> u8 {
    ((value >> ((8 * index) as u64)) & 0xff) as u8
}

/// The `count` low-order bytes of `value`, least significant byte first.
pub open spec fn le_bytes(value: u64, count: nat) -> Seq<u8> {
    Seq::new(count, |i: int| le_byte(value, i as nat))
}

/// The widths, in bytes, that an address can have on the wire. The trait is
/// implemented for the byte arrays of these widths and for no other type, so
/// an address register of another width does not exist.
pub trait WireWidth<const N: usize> {
    /// An address on the wire is three, four or five bytes long.
    proof fn lemma_width()
        ensures
            3 <= N <= 5,
    ;
}

impl WireWidth<3> for [u8; 3] {
    proof fn lemma_width() {
    }
}

impl WireWidth<4> for [u8; 4] {
    proof fn lemma_width() {
    }
}

impl WireWidth<5> for [u8; 5] {
    proof fn lemma_width() {
    }
}

/// A trait for nRF24L01+ address registers which can be 3-5 bytes.
/// - RxAddrP0
/// - RxAddrP1
/// - TxAddr
pub trait AddressRegister<const N: usize>: Copy {
    /// Register address.
    const ADDRESS: u8;

    /// The value of [`ADDRESS`](AddressRegister::ADDRESS), for use in
    /// contracts.
    spec fn spec_address() -> u8;

    /// The value that a new register holds: the address that the device has
    /// after power-on.
    spec fn spec_default_bits() -> u64;

    /// The register value that holds `bits`.
    spec fn spec_from_bits(bits: u64) -> Self;

    /// The bits that a register value holds.
    spec fn spec_into_bits(self) -> u64;

    /// Creates a new default initialized bitfield.
    fn new() -> (reg: Self)
        ensures
            reg.spec_into_bits() == Self::spec_default_bits(),
    ;

    /// Convert from bits. The bits are stored as they are.
    fn from_bits(bits: u64) -> (reg: Self)
        ensures
            reg == Self::spec_from_bits(bits),
            reg.spec_into_bits() == bits,
    ;

    /// Convert into bits. The bits come back as they were stored.
    fn into_bits(self) -> (bits: u64)
        ensures
            bits == self.spec_into_bits(),
    ;

    /// Convert into bytes ordered by LSByte first: the `N` low-order bytes
    /// of the stored value. The bytes above them are not part of the result.
    fn into_bytes(self) -> (bytes: [u8; N])
        ensures
            bytes@ == le_bytes(self.spec_into_bits(), N as nat),
    ;

    /// The address is one of the device's register addresses, which all fit
    /// in five bits.
    proof fn lemma_address()
        ensures
            Self::ADDRESS == Self::spec_address(),
            Self::spec_address() <= 0x1D,
    ;

    /// The register goes over the wire as three, four or five bytes.
    proof fn lemma_wire_width()
        ensures
            3 <= N <= 5,
    ;

    /// Bits that were stored come back unchanged.
    proof fn lemma_into_from(bits: u64)
        ensures
            Self::spec_from_bits(bits).spec_into_bits() == bits,
    ;

    /// A register value is the one that holds its bits: no two values hold
    /// the same bits.
    proof fn lemma_from_into(self)
        ensures
            Self::spec_from_bits(self.spec_into_bits()) == self,
    ;
}

/// Round trip: storing bits in an address register, taking them out and
/// storing them again gives the register value of the first storing.
pub proof fn lemma_address_register_round_trip<const N: usize, A: AddressRegister<N>>(bits: u64)
    ensures
        A::spec_from_bits(A::spec_from_bits(bits).spec_into_bits()) == A::spec_from_bits(bits),
{
    A::lemma_into_from(bits);
}

proof fn lemma_byte_fits(value: u64, shift: u64)
    by (bit_vector)
    ensures
        (value >> shift) & 0xff <= 0xff,
{
}

proof fn lemma_replaced_byte(raw: u64, value: u64, shift: u64)
    by (bit_vector)
    requires
        shift <= 32,
    ensures
        (address_replaced(raw, value) >> shift) & 0xff == (value >> shift) & 0xff,
{
}

/// Address round trip: an address that was just written reads back as the
/// value written, cut to 40 bits, and a value of at most 40 bits reads back
/// unchanged. The 24 bits above the address stay as they were.
pub proof fn lemma_address_round_trip(raw: u64, value: u64)
    by (bit_vector)
    ensures
        address_value(address_replaced(raw, value)) == value & ADDRESS_MASK,
        value <= ADDRESS_MASK ==> address_value(address_replaced(raw, value)) == value,
        address_value(raw) <= ADDRESS_MASK,
        address_replaced(raw, value) & !ADDRESS_MASK == raw & !ADDRESS_MASK,
{
}

/// After an address is written, the bytes that go over the wire are those of
/// the value written, whatever the register held before.
pub proof fn lemma_replaced_wire_bytes(raw: u64, value: u64, count: nat)
    requires
        count <= 5,
    ensures
        le_bytes(address_replaced(raw, value), count) == le_bytes(value, count),
{
    let replaced = address_replaced(raw, value);
    assert forall|i: nat| i < count implies #[trigger] le_byte(replaced, i) == le_byte(
        value,
        i,
    ) by {
        lemma_replaced_byte(raw, value, (8 * i) as u64);
    }
    assert(le_bytes(replaced, count) =~= le_bytes(value, count));
}

/// Address truncation: a narrower wire form of a value is the start of every
/// wider one. Going from five bytes to four or three drops bytes from the
/// most significant end only.
pub proof fn lemma_narrower_is_prefix(value: u64, count: nat, wider: nat)
    requires
        count <= wider,
    ensures
        le_bytes(value, count) == le_bytes(value, wider).take(count as int),
{
    assert(le_bytes(value, count) =~= le_bytes(value, wider).take(count as int));
}

/// The five wire bytes hold the whole 40-bit address, least significant byte
/// first.
pub proof fn lemma_five_bytes_hold_address(value: u64)
    ensures
        le_bytes(value, 5).len() == 5,
        address_value(value) == (le_bytes(value, 5)[0] as u64) | ((le_bytes(value, 5)[1] as u64)
            << 8) | ((le_bytes(value, 5)[2] as u64) << 16) | ((le_bytes(value, 5)[3] as u64) << 24)
            | ((le_bytes(value, 5)[4] as u64) << 32),
{
    let b0 = (value >> 0) & 0xff;
    let b1 = (value >> 8) & 0xff;
    let b2 = (value >> 16) & 0xff;
    let b3 = (value >> 24) & 0xff;
    let b4 = (value >> 32) & 0xff;
    lemma_byte_fits(value, 0);
    lemma_byte_fits(value, 8);
    lemma_byte_fits(value, 16);
    lemma_byte_fits(value, 24);
    lemma_byte_fits(value, 32);
    assert(value & ADDRESS_MASK == b0 | (b1 << 8) | (b2 << 16) | (b3 << 24) | (b4 << 32))
        by (bit_vector)
        requires
            b0 == (value >> 0) & 0xff,
            b1 == (value >> 8) & 0xff,
            b2 == (value >> 16) & 0xff,
            b3 == (value >> 24) & 0xff,
            b4 == (value >> 32) & 0xff,
    ;
}

/// Convert u64 address to little-endian bytes.
/// Const parameter `N`: address width in bytes, one of 3, 4 and 5.
pub fn address_into_bytes<const N: usize>(addr: u64) -> (bytes: [u8; N]) where
    [u8; N]: WireWidth<N>,

    ensures
        bytes@ == le_bytes(addr, N as nat),
{
    proof {
        <[u8; N] as WireWidth<N>>::lemma_width();
    }
    let mut bytes = [0u8; N];
    let mut i: usize = 0;
    while i < N
        invariant
            i <= N <= 5,
            bytes@.len() == N,
            forall|j: int| 0 <= j < i ==> bytes@[j] == le_byte(addr, j as nat),
        decreases N - i,
    {
        let shift: u64 = 8 * (i as u64);
        proof {
            lemma_byte_fits(addr, shift);
        }
        bytes[i] = ((addr >> shift) & 0xff) as u8;
        i += 1;
    }
    assert(bytes@ =~= le_bytes(addr, N as nat));
    bytes
}

/// The default values: what each register holds once its fields are set to
/// their defaults, starting from a cleared byte.
proof fn lemma_default_values()
    by (bit_vector)
    ensures
        flag_replaced(0, 3, true) == 0b0000_1000,
        flag_replaced(
            flag_replaced(
                flag_replaced(
                    flag_replaced(flag_replaced(flag_replaced(0, 5, true), 4, true), 3, true),
                    2,
                    true,
                ),
                1,
                true,
            ),
            0,
            true,
        ) == 0b0011_1111,
        flag_replaced(flag_replaced(0, 1, true), 0, true) == 0b0000_0011,
        field_replaced(0, 0, 2, 0b11) == 0b0000_0011,
        field_replaced(0, 0, 4, 3) == 0b0000_0011,
        field_replaced(0, 0, 7, 2) == 0b0000_0010,
        field_replaced(field_replaced(0, 3, 1, 1), 1, 2, 0b11) == 0b0000_1110,
        field_replaced(0, 0, 8, 0xC3) == 0xC3,
        field_replaced(0, 0, 8, 0xC4) == 0xC4,
        field_replaced(0, 0, 8, 0xC5) == 0xC5,
        field_replaced(0, 0, 8, 0xC6) == 0xC6,
        address_replaced(0, 0xE7E7E7E7E7) == 0xE7E7E7E7E7,
        address_replaced(0, 0xC2C2C2C2C2) == 0xC2C2C2C2C2,
{
}

/// # CONFIG register
///
/// Address = `0x00`
///
/// Default value = `0b0000_1000`
///
/// ## Fields
///
/// #### `mask_rx_dr` | bit 6
/// Mask/unmask interrupt caused by __RX_DR__.
///
/// `0`: unmasked, interrupt reflected on IRQ
///
/// `1`: masked, interrupt not reflected on IRQ
///
/// #### `mask_tx_ds` | bit 5
/// Mask/unmask interrupt caused by __TX_DS__.
///
/// `0`: unmasked, interrupt reflected on IRQ
///
/// `1`: masked, interrupt not reflected on IRQ
///
/// #### `mask_max_rt` | bit 4
/// Mask/unmask interrupt caused by __MAX_RT__.
///
/// `0`: unmasked, interrupt reflected on IRQ
///
/// `1`: masked, interrupt not reflected on IRQ
///
/// #### `en_crc` | bit 3
/// Enable/disable CRC. Default value: `1` (enabled)
///
/// #### `crco` | bit 2
/// CRC encoding scheme. Enum: [`Crco`](crate::fields::Crco).
///
/// #### `pwr_up` | bit 1
/// Power down/up.
///
/// `0`: Power down
///
/// `1`: Power up
///
/// #### `prim_rx` | bit 0
/// Set primary TX/RX.
///
/// `0`: primary TX
///
/// `1`: primary RX
#[derive(Clone, Copy, Debug, PartialEq, Eq, Structural)]
pub struct Config(u8);

impl View for Config {
    type V = u8;

    /// The byte that the register holds.
    closed spec fn view(&self) -> u8 {
        self.0
    }
}

impl Config {
    /// Creates a new default initialized bitfield: every field at its default
    /// value, every other bit clear.
    pub fn new() -> (reg: Self)
        ensures
            reg@ == 0b0000_1000,
    {
        proof {
            lemma_default_values();
        }
        Self(0).with_en_crc(true)
    }

    /// Convert from bits. The byte is stored as it is.
    pub fn from_bits(bits: u8) -> (reg: Self)
        ensures
            reg@ == bits,
            reg == Self::spec_from_bits(bits),
    {
        Self(bits)
    }

    /// Convert into bits. The byte comes back as it was stored.
    pub fn into_bits(self) -> (bits: u8)
        ensures
            bits == self@,
    {
        self.0
    }

    /// What `mask_rx_dr` reads: bit 6 of the register.
    pub open spec fn spec_mask_rx_dr(self) -> bool {
        flag_value(self@, 6)
    }

    /// Mask/unmask interrupt caused by __RX_DR__.
    ///
    /// `0`: unmasked, interrupt reflected on IRQ
    ///
    /// `1`: masked, interrupt not reflected on IRQ
    ///
    /// Bit 6.
    pub fn mask_rx_dr(&self) -> (on: bool)
        ensures
            on == self.spec_mask_rx_dr(),
    {
        get_flag(self.0, 6)
    }

    /// Returns the register with `mask_rx_dr` set to `value` and every other bit as it was.
    ///
    /// Bit 6.
    pub fn with_mask_rx_dr(self, value: bool) -> (reg: Self)
        ensures
            reg@ == flag_replaced(self@, 6, value),
            reg.spec_mask_rx_dr() == value,
            same_outside(self@, reg@, 6, 1),
    {
        Self(set_flag(self.0, 6, value))
    }

    /// Sets `mask_rx_dr` to `value` and leaves every other bit as it was.
    ///
    /// Bit 6.
    pub fn set_mask_rx_dr(&mut self, value: bool)
        ensures
            final(self)@ == flag_replaced(old(self)@, 6, value),
            final(self).spec_mask_rx_dr() == value,
            same_outside(old(self)@, final(self)@, 6, 1),
    {
        self.0 = set_flag(self.0, 6, value);
    }

    /// What `mask_tx_ds` reads: bit 5 of the register.
    pub open spec fn spec_mask_tx_ds(self) -> bool {
        flag_value(self@, 5)
    }

    /// Mask/unmask interrupt caused by __TX_DS__.
    ///
    /// `0`: unmasked, interrupt reflected on IRQ
    ///
    /// `1`: masked, interrupt not reflected on IRQ
    ///
    /// Bit 5.
    pub fn mask_tx_ds(&self) -> (on: bool)
        ensures
            on == self.spec_mask_tx_ds(),
    {
        get_flag(self.0, 5)
    }

    /// Returns the register with `mask_tx_ds` set to `value` and every other bit as it was.
    ///
    /// Bit 5.
    pub fn with_mask_tx_ds(self, value: bool) -> (reg: Self)
        ensures
            reg@ == flag_replaced(self@, 5, value),
            reg.spec_mask_tx_ds() == value,
            same_outside(self@, reg@, 5, 1),
    {
        Self(set_flag(self.0, 5, value))
    }

    /// Sets `mask_tx_ds` to `value` and leaves every other bit as it was.
    ///
    /// Bit 5.
    pub fn set_mask_tx_ds(&mut self, value: bool)
        ensures
            final(self)@ == flag_replaced(old(self)@, 5, value),
            final(self).spec_mask_tx_ds() == value,
            same_outside(old(self)@, final(self)@, 5, 1),
    {
        self.0 = set_flag(self.0, 5, value);
    }

    /// What `mask_max_rt` reads: bit 4 of the register.
    pub open spec fn spec_mask_max_rt(self) -> bool {
        flag_value(self@, 4)
    }

    /// Mask/unmask interrupt caused by __MAX_RT__.
    ///
    /// `0`: unmasked, interrupt reflected on IRQ
    ///
    /// `1`: masked, interrupt not reflected on IRQ
    ///
    /// Bit 4.
    pub fn mask_max_rt(&self) -> (on: bool)
        ensures
            on == self.spec_mask_max_rt(),
    {
        get_flag(self.0, 4)
    }

    /// Returns the register with `mask_max_rt` set to `value` and every other bit as it was.
    ///
    /// Bit 4.
    pub fn with_mask_max_rt(self, value: bool) -> (reg: Self)
        ensures
            reg@ == flag_replaced(self@, 4, value),
            reg.spec_mask_max_rt() == value,
            same_outside(self@, reg@, 4, 1),
    {
        Self(set_flag(self.0, 4, value))
    }

    /// Sets `mask_max_rt` to `value` and leaves every other bit as it was.
    ///
    /// Bit 4.
    pub fn set_mask_max_rt(&mut self, value: bool)
        ensures
            final(self)@ == flag_replaced(old(self)@, 4, value),
            final(self).spec_mask_max_rt() == value,
            same_outside(old(self)@, final(self)@, 4, 1),
    {
        self.0 = set_flag(self.0, 4, value);
    }

    /// What `en_crc` reads: bit 3 of the register.
    pub open spec fn spec_en_crc(self) -> bool {
        flag_value(self@, 3)
    }

    /// Enable/disable CRC. Default value: `1` (enabled)
    ///
    /// Bit 3.
    pub fn en_crc(&self) -> (on: bool)
        ensures
            on == self.spec_en_crc(),
    {
        get_flag(self.0, 3)
    }

    /// Returns the register with `en_crc` set to `value` and every other bit as it was.
    ///
    /// Bit 3.
    pub fn with_en_crc(self, value: bool) -> (reg: Self)
        ensures
            reg@ == flag_replaced(self@, 3, value),
            reg.spec_en_crc() == value,
            same_outside(self@, reg@, 3, 1),
    {
        Self(set_flag(self.0, 3, value))
    }

    /// Sets `en_crc` to `value` and leaves every other bit as it was.
    ///
    /// Bit 3.
    pub fn set_en_crc(&mut self, value: bool)
        ensures
            final(self)@ == flag_replaced(old(self)@, 3, value),
            final(self).spec_en_crc() == value,
            same_outside(old(self)@, final(self)@, 3, 1),
    {
        self.0 = set_flag(self.0, 3, value);
    }

    /// What `crco` reads: bit 2 of the register.
    pub open spec fn spec_crco(self) -> Crco {
        Crco::spec_from_bits(field_value(self@, 2, 1))
    }

    /// CRC encoding scheme. Enum: [`Crco`](crate::fields::Crco).
    ///
    /// Bit 2.
    pub fn crco(&self) -> (field: Crco)
        ensures
            field == self.spec_crco(),
    {
        Crco::from_bits(get_field(self.0, 2, 1))
    }

    /// Returns the register with `crco` set to `value` and every other bit as it was.
    ///
    /// Bit 2.
    pub fn with_crco(self, value: Crco) -> (reg: Self)
        ensures
            reg@ == field_replaced(self@, 2, 1, value.spec_into_bits()),
            reg.spec_crco() == value,
            same_outside(self@, reg@, 2, 1),
    {
        proof {
            lemma_enum_round_trip(value);
        }
        Self(set_field(self.0, 2, 1, value.into_bits()))
    }

    /// Sets `crco` to `value` and leaves every other bit as it was.
    ///
    /// Bit 2.
    pub fn set_crco(&mut self, value: Crco)
        ensures
            final(self)@ == field_replaced(old(self)@, 2, 1, value.spec_into_bits()),
            final(self).spec_crco() == value,
            same_outside(old(self)@, final(self)@, 2, 1),
    {
        proof {
            lemma_enum_round_trip(value);
        }
        self.0 = set_field(self.0, 2, 1, value.into_bits());
    }

    /// What `pwr_up` reads: bit 1 of the register.
    pub open spec fn spec_pwr_up(self) -> bool {
        flag_value(self@, 1)
    }

    /// Power down/up.
    ///
    /// `0`: Power down
    ///
    /// `1`: Power up
    ///
    /// Bit 1.
    pub fn pwr_up(&self) -> (on: bool)
        ensures
            on == self.spec_pwr_up(),
    {
        get_flag(self.0, 1)
    }

    /// Returns the register with `pwr_up` set to `value` and every other bit as it was.
    ///
    /// Bit 1.
    pub fn with_pwr_up(self, value: bool) -> (reg: Self)
        ensures
            reg@ == flag_replaced(self@, 1, value),
            reg.spec_pwr_up() == value,
            same_outside(self@, reg@, 1, 1),
    {
        Self(set_flag(self.0, 1, value))
    }

    /// Sets `pwr_up` to `value` and leaves every other bit as it was.
    ///
    /// Bit 1.
    pub fn set_pwr_up(&mut self, value: bool)
        ensures
            final(self)@ == flag_replaced(old(self)@, 1, value),
            final(self).spec_pwr_up() == value,
            same_outside(old(self)@, final(self)@, 1, 1),
    {
        self.0 = set_flag(self.0, 1, value);
    }

    /// What `prim_rx` reads: bit 0 of the register.
    pub open spec fn spec_prim_rx(self) -> bool {
        flag_value(self@, 0)
    }

    /// Set primary TX/RX.
    ///
    /// `0`: primary TX
    ///
    /// `1`: primary RX
    ///
    /// Bit 0.
    pub fn prim_rx(&self) -> (on: bool)
        ensures
            on == self.spec_prim_rx(),
    {
        get_flag(self.0, 0)
    }

    /// Returns the register with `prim_rx` set to `value` and every other bit as it was.
    ///
    /// Bit 0.
    pub fn with_prim_rx(self, value: bool) -> (reg: Self)
        ensures
            reg@ == flag_replaced(self@, 0, value),
            reg.spec_prim_rx() == value,
            same_outside(self@, reg@, 0, 1),
    {
        Self(set_flag(self.0, 0, value))
    }

    /// Sets `prim_rx` to `value` and leaves every other bit as it was.
    ///
    /// Bit 0.
    pub fn set_prim_rx(&mut self, value: bool)
        ensures
            final(self)@ == flag_replaced(old(self)@, 0, value),
            final(self).spec_prim_rx() == value,
            same_outside(old(self)@, final(self)@, 0, 1),
    {
        self.0 = set_flag(self.0, 0, value);
    }
}

impl Register for Config {
    const ADDRESS: u8 = 0x00;

    open spec fn spec_address() -> u8 {
        0x00
    }

    closed spec fn spec_from_bits(bits: u8) -> Self {
        Config(bits)
    }

    open spec fn spec_into_bits(self) -> u8 {
        self@
    }

    fn into_bits(self) -> (bits: u8) {
        self.0
    }

    proof fn lemma_address() {
    }

    proof fn lemma_into_from(bits: u8) {
    }

    proof fn lemma_from_into(self) {
    }
}

impl Default for Config {
    fn default() -> (reg: Self)
        ensures
            reg@ == 0b0000_1000,
    {
        Self::new()
    }
}

/// # EN_AA register
/// Enable 'Auto Acknowledgement' on data pipes 0-5.
///
/// Address = `0x01`
///
/// Default value = `0b0011_1111`
///
/// ## Fields
/// All fields default to 1.
///
/// #### `enaa_pN` | bit `N`
/// Enable 'Auto Acknowledgement' on data pipes `N` = 0-5.
#[derive(Clone, Copy, Debug, PartialEq, Eq, Structural)]
pub struct EnAa(u8);

impl View for EnAa {
    type V = u8;

    /// The byte that the register holds.
    closed spec fn view(&self) -> u8 {
        self.0
    }
}

impl EnAa {
    /// Creates a new default initialized bitfield: every field at its default
    /// value, every other bit clear.
    pub fn new() -> (reg: Self)
        ensures
            reg@ == 0b0011_1111,
    {
        proof {
            lemma_default_values();
        }
        Self(0)
            .with_enaa_p5(true)
            .with_enaa_p4(true)
            .with_enaa_p3(true)
            .with_enaa_p2(true)
            .with_enaa_p1(true)
            .with_enaa_p0(true)
    }

    /// Convert from bits. The byte is stored as it is.
    pub fn from_bits(bits: u8) -> (reg: Self)
        ensures
            reg@ == bits,
            reg == Self::spec_from_bits(bits),
    {
        Self(bits)
    }

    /// Convert into bits. The byte comes back as it was stored.
    pub fn into_bits(self) -> (bits: u8)
        ensures
            bits == self@,
    {
        self.0
    }

    /// What `enaa_p5` reads: bit 5 of the register.
    pub open spec fn spec_enaa_p5(self) -> bool {
        flag_value(self@, 5)
    }

    /// Enable 'Auto Acknowledgement' on data pipe 5.
    ///
    /// Bit 5.
    pub fn enaa_p5(&self) -> (on: bool)
        ensures
            on == self.spec_enaa_p5(),
    {
        get_flag(self.0, 5)
    }

    /// Returns the register with `enaa_p5` set to `value` and every other bit as it was.
    ///
    /// Bit 5.
    pub fn with_enaa_p5(self, value: bool) -> (reg: Self)
        ensures
            reg@ == flag_replaced(self@, 5, value),
            reg.spec_enaa_p5() == value,
            same_outside(self@, reg@, 5, 1),
    {
        Self(set_flag(self.0, 5, value))
    }

    /// Sets `enaa_p5` to `value` and leaves every other bit as it was.
    ///
    /// Bit 5.
    pub fn set_enaa_p5(&mut self, value: bool)
        ensures
            final(self)@ == flag_replaced(old(self)@, 5, value),
            final(self).spec_enaa_p5() == value,
            same_outside(old(self)@, final(self)@, 5, 1),
    {
        self.0 = set_flag(self.0, 5, value);
    }

    /// What `enaa_p4` reads: bit 4 of the register.
    pub open spec fn spec_enaa_p4(self) -> bool {
        flag_value(self@, 4)
    }

    /// Enable 'Auto Acknowledgement' on data pipe 4.
    ///
    /// Bit 4.
    pub fn enaa_p4(&self) -> (on: bool)
        ensures
            on == self.spec_enaa_p4(),
    {
        get_flag(self.0, 4)
    }

    /// Returns the register with `enaa_p4` set to `value` and every other bit as it was.
    ///
    /// Bit 4.
    pub fn with_enaa_p4(self, value: bool) -> (reg: Self)
        ensures
            reg@ == flag_replaced(self@, 4, value),
            reg.spec_enaa_p4() == value,
            same_outside(self@, reg@, 4, 1),
    {
        Self(set_flag(self.0, 4, value))
    }

    /// Sets `enaa_p4` to `value` and leaves every other bit as it was.
    ///
    /// Bit 4.
    pub fn set_enaa_p4(&mut self, value: bool)
        ensures
            final(self)@ == flag_replaced(old(self)@, 4, value),
            final(self).spec_enaa_p4() == value,
            same_outside(old(self)@, final(self)@, 4, 1),
    {
        self.0 = set_flag(self.0, 4, value);
    }

    /// What `enaa_p3` reads: bit 3 of the register.
    pub open spec fn spec_enaa_p3(self) -> bool {
        flag_value(self@, 3)
    }

    /// Enable 'Auto Acknowledgement' on data pipe 3.
    ///
    /// Bit 3.
    pub fn enaa_p3(&self) -> (on: bool)
        ensures
            on == self.spec_enaa_p3(),
    {
        get_flag(self.0, 3)
    }

    /// Returns the register with `enaa_p3` set to `value` and every other bit as it was.
    ///
    /// Bit 3.
    pub fn with_enaa_p3(self, value: bool) -> (reg: Self)
        ensures
            reg@ == flag_replaced(self@, 3, value),
            reg.spec_enaa_p3() == value,
            same_outside(self@, reg@, 3, 1),
    {
        Self(set_flag(self.0, 3, value))
    }

    /// Sets `enaa_p3` to `value` and leaves every other bit as it was.
    ///
    /// Bit 3.
    pub fn set_enaa_p3(&mut self, value: bool)
        ensures
            final(self)@ == flag_replaced(old(self)@, 3, value),
            final(self).spec_enaa_p3() == value,
            same_outside(old(self)@, final(self)@, 3, 1),
    {
        self.0 = set_flag(self.0, 3, value);
    }

    /// What `enaa_p2` reads: bit 2 of the register.
    pub open spec fn spec_enaa_p2(self) -> bool {
        flag_value(self@, 2)
    }

    /// Enable 'Auto Acknowledgement' on data pipe 2.
    ///
    /// Bit 2.
    pub fn enaa_p2(&self) -> (on: bool)
        ensures
            on == self.spec_enaa_p2(),
    {
        get_flag(self.0, 2)
    }

    /// Returns the register with `enaa_p2` set to `value` and every other bit as it was.
    ///
    /// Bit 2.
    pub fn with_enaa_p2(self, value: bool) -> (reg: Self)
        ensures
            reg@ == flag_replaced(self@, 2, value),
            reg.spec_enaa_p2() == value,
            same_outside(self@, reg@, 2, 1),
    {
        Self(set_flag(self.0, 2, value))
    }

    /// Sets `enaa_p2` to `value` and leaves every other bit as it was.
    ///
    /// Bit 2.
    pub fn set_enaa_p2(&mut self, value: bool)
        ensures
            final(self)@ == flag_replaced(old(self)@, 2, value),
            final(self).spec_enaa_p2() == value,
            same_outside(old(self)@, final(self)@, 2, 1),
    {
        self.0 = set_flag(self.0, 2, value);
    }

    /// What `enaa_p1` reads: bit 1 of the register.
    pub open spec fn spec_enaa_p1(self) -> bool {
        flag_value(self@, 1)
    }

    /// Enable 'Auto Acknowledgement' on data pipe 1.
    ///
    /// Bit 1.
    pub fn enaa_p1(&self) -> (on: bool)
        ensures
            on == self.spec_enaa_p1(),
    {
        get_flag(self.0, 1)
    }

    /// Returns the register with `enaa_p1` set to `value` and every other bit as it was.
    ///
    /// Bit 1.
    pub fn with_enaa_p1(self, value: bool) -> (reg: Self)
        ensures
            reg@ == flag_replaced(self@, 1, value),
            reg.spec_enaa_p1() == value,
            same_outside(self@, reg@, 1, 1),
    {
        Self(set_flag(self.0, 1, value))
    }

    /// Sets `enaa_p1` to `value` and leaves every other bit as it was.
    ///
    /// Bit 1.
    pub fn set_enaa_p1(&mut self, value: bool)
        ensures
            final(self)@ == flag_replaced(old(self)@, 1, value),
            final(self).spec_enaa_p1() == value,
            same_outside(old(self)@, final(self)@, 1, 1),
    {
        self.0 = set_flag(self.0, 1, value);
    }

    /// What `enaa_p0` reads: bit 0 of the register.
    pub open spec fn spec_enaa_p0(self) -> bool {
        flag_value(self@, 0)
    }

    /// Enable 'Auto Acknowledgement' on data pipe 0.
    ///
    /// Bit 0.
    pub fn enaa_p0(&self) -> (on: bool)
        ensures
            on == self.spec_enaa_p0(),
    {
        get_flag(self.0, 0)
    }

    /// Returns the register with `enaa_p0` set to `value` and every other bit as it was.
    ///
    /// Bit 0.
    pub fn with_enaa_p0(self, value: bool) -> (reg: Self)
        ensures
            reg@ == flag_replaced(self@, 0, value),
            reg.spec_enaa_p0() == value,
            same_outside(self@, reg@, 0, 1),
    {
        Self(set_flag(self.0, 0, value))
    }

    /// Sets `enaa_p0` to `value` and leaves every other bit as it was.
    ///
    /// Bit 0.
    pub fn set_enaa_p0(&mut self, value: bool)
        ensures
            final(self)@ == flag_replaced(old(self)@, 0, value),
            final(self).spec_enaa_p0() == value,
            same_outside(old(self)@, final(self)@, 0, 1),
    {
        self.0 = set_flag(self.0, 0, value);
    }
}

impl Register for EnAa {
    const ADDRESS: u8 = 0x01;

    open spec fn spec_address() -> u8 {
        0x01
    }

    closed spec fn spec_from_bits(bits: u8) -> Self {
        EnAa(bits)
    }

    open spec fn spec_into_bits(self) -> u8 {
        self@
    }

    fn into_bits(self) -> (bits: u8) {
        self.0
    }

    proof fn lemma_address() {
    }

    proof fn lemma_into_from(bits: u8) {
    }

    proof fn lemma_from_into(self) {
    }
}

impl Default for EnAa {
    fn default() -> (reg: Self)
        ensures
            reg@ == 0b0011_1111,
    {
        Self::new()
    }
}

/// # EN_RXADDR register
/// Enable RX address on data pipes 0-5.
///
/// Address = `0x02`
///
/// Default value = `0b0000_0011`
///
/// ## Fields
///
/// `erx_p0` and `erx_p1` default to 1.
///
/// #### `erx_pN` | bit `N`
/// Enable RX address on data pipes `N` = 0-5.
#[derive(Clone, Copy, Debug, PartialEq, Eq, Structural)]
pub struct EnRxaddr(u8);

impl View for EnRxaddr {
    type V = u8;

    /// The byte that the register holds.
    closed spec fn view(&self) -> u8 {
        self.0
    }
}

impl EnRxaddr {
    /// Creates a new default initialized bitfield: every field at its default
    /// value, every other bit clear.
    pub fn new() -> (reg: Self)
        ensures
            reg@ == 0b0000_0011,
    {
        proof {
            lemma_default_values();
        }
        Self(0).with_erx_p1(true).with_erx_p0(true)
    }

    /// Convert from bits. The byte is stored as it is.
    pub fn from_bits(bits: u8) -> (reg: Self)
        ensures
            reg@ == bits,
            reg == Self::spec_from_bits(bits),
    {
        Self(bits)
    }

    /// Convert into bits. The byte comes back as it was stored.
    pub fn into_bits(self) -> (bits: u8)
        ensures
            bits == self@,
    {
        self.0
    }

    /// What `erx_p5` reads: bit 5 of the register.
    pub open spec fn spec_erx_p5(self) -> bool {
        flag_value(self@, 5)
    }

    /// Enable RX address for data pipe 5.
    ///
    /// Bit 5.
    pub fn erx_p5(&self) -> (on: bool)
        ensures
            on == self.spec_erx_p5(),
    {
        get_flag(self.0, 5)
    }

    /// Returns the register with `erx_p5` set to `value` and every other bit as it was.
    ///
    /// Bit 5.
    pub fn with_erx_p5(self, value: bool) -> (reg: Self)
        ensures
            reg@ == flag_replaced(self@, 5, value),
            reg.spec_erx_p5() == value,
            same_outside(self@, reg@, 5, 1),
    {
        Self(set_flag(self.0, 5, value))
    }

    /// Sets `erx_p5` to `value` and leaves every other bit as it was.
    ///
    /// Bit 5.
    pub fn set_erx_p5(&mut self, value: bool)
        ensures
            final(self)@ == flag_replaced(old(self)@, 5, value),
            final(self).spec_erx_p5() == value,
            same_outside(old(self)@, final(self)@, 5, 1),
    {
        self.0 = set_flag(self.0, 5, value);
    }

    /// What `erx_p4` reads: bit 4 of the register.
    pub open spec fn spec_erx_p4(self) -> bool {
        flag_value(self@, 4)
    }

    /// Enable RX address for data pipe 4.
    ///
    /// Bit 4.
    pub fn erx_p4(&self) -> (on: bool)
        ensures
            on == self.spec_erx_p4(),
    {
        get_flag(self.0, 4)
    }

    /// Returns the register with `erx_p4` set to `value` and every other bit as it was.
    ///
    /// Bit 4.
    pub fn with_erx_p4(self, value: bool) -> (reg: Self)
        ensures
            reg@ == flag_replaced(self@, 4, value),
            reg.spec_erx_p4() == value,
            same_outside(self@, reg@, 4, 1),
    {
        Self(set_flag(self.0, 4, value))
    }

    /// Sets `erx_p4` to `value` and leaves every other bit as it was.
    ///
    /// Bit 4.
    pub fn set_erx_p4(&mut self, value: bool)
        ensures
            final(self)@ == flag_replaced(old(self)@, 4, value),
            final(self).spec_erx_p4() == value,
            same_outside(old(self)@, final(self)@, 4, 1),
    {
        self.0 = set_flag(self.0, 4, value);
    }

    /// What `erx_p3` reads: bit 3 of the register.
    pub open spec fn spec_erx_p3(self) -> bool {
        flag_value(self@, 3)
    }

    /// Enable RX address for data pipe 3.
    ///
    /// Bit 3.
    pub fn erx_p3(&self) -> (on: bool)
        ensures
            on == self.spec_erx_p3(),
    {
        get_flag(self.0, 3)
    }

    /// Returns the register with `erx_p3` set to `value` and every other bit as it was.
    ///
    /// Bit 3.
    pub fn with_erx_p3(self, value: bool) -> (reg: Self)
        ensures
            reg@ == flag_replaced(self@, 3, value),
            reg.spec_erx_p3() == value,
            same_outside(self@, reg@, 3, 1),
    {
        Self(set_flag(self.0, 3, value))
    }

    /// Sets `erx_p3` to `value` and leaves every other bit as it was.
    ///
    /// Bit 3.
    pub fn set_erx_p3(&mut self, value: bool)
        ensures
            final(self)@ == flag_replaced(old(self)@, 3, value),
            final(self).spec_erx_p3() == value,
            same_outside(old(self)@, final(self)@, 3, 1),
    {
        self.0 = set_flag(self.0, 3, value);
    }

    /// What `erx_p2` reads: bit 2 of the register.
    pub open spec fn spec_erx_p2(self) -> bool {
        flag_value(self@, 2)
    }

    /// Enable RX address for data pipe 2.
    ///
    /// Bit 2.
    pub fn erx_p2(&self) -> (on: bool)
        ensures
            on == self.spec_erx_p2(),
    {
        get_flag(self.0, 2)
    }

    /// Returns the register with `erx_p2` set to `value` and every other bit as it was.
    ///
    /// Bit 2.
    pub fn with_erx_p2(self, value: bool) -> (reg: Self)
        ensures
            reg@ == flag_replaced(self@, 2, value),
            reg.spec_erx_p2() == value,
            same_outside(self@, reg@, 2, 1),
    {
        Self(set_flag(self.0, 2, value))
    }

    /// Sets `erx_p2` to `value` and leaves every other bit as it was.
    ///
    /// Bit 2.
    pub fn set_erx_p2(&mut self, value: bool)
        ensures
            final(self)@ == flag_replaced(old(self)@, 2, value),
            final(self).spec_erx_p2() == value,
            same_outside(old(self)@, final(self)@, 2, 1),
    {
        self.0 = set_flag(self.0, 2, value);
    }

    /// What `erx_p1` reads: bit 1 of the register.
    pub open spec fn spec_erx_p1(self) -> bool {
        flag_value(self@, 1)
    }

    /// Enable RX address for data pipe 1.
    ///
    /// Bit 1.
    pub fn erx_p1(&self) -> (on: bool)
        ensures
            on == self.spec_erx_p1(),
    {
        get_flag(self.0, 1)
    }

    /// Returns the register with `erx_p1` set to `value` and every other bit as it was.
    ///
    /// Bit 1.
    pub fn with_erx_p1(self, value: bool) -> (reg: Self)
        ensures
            reg@ == flag_replaced(self@, 1, value),
            reg.spec_erx_p1() == value,
            same_outside(self@, reg@, 1, 1),
    {
        Self(set_flag(self.0, 1, value))
    }

    /// Sets `erx_p1` to `value` and leaves every other bit as it was.
    ///
    /// Bit 1.
    pub fn set_erx_p1(&mut self, value: bool)
        ensures
            final(self)@ == flag_replaced(old(self)@, 1, value),
            final(self).spec_erx_p1() == value,
            same_outside(old(self)@, final(self)@, 1, 1),
    {
        self.0 = set_flag(self.0, 1, value);
    }

    /// What `erx_p0` reads: bit 0 of the register.
    pub open spec fn spec_erx_p0(self) -> bool {
        flag_value(self@, 0)
    }

    /// Enable RX address for data pipe 0.
    ///
    /// Bit 0.
    pub fn erx_p0(&self) -> (on: bool)
        ensures
            on == self.spec_erx_p0(),
    {
        get_flag(self.0, 0)
    }

    /// Returns the register with `erx_p0` set to `value` and every other bit as it was.
    ///
    /// Bit 0.
    pub fn with_erx_p0(self, value: bool) -> (reg: Self)
        ensures
            reg@ == flag_replaced(self@, 0, value),
            reg.spec_erx_p0() == value,
            same_outside(self@, reg@, 0, 1),
    {
        Self(set_flag(self.0, 0, value))
    }

    /// Sets `erx_p0` to `value` and leaves every other bit as it was.
    ///
    /// Bit 0.
    pub fn set_erx_p0(&mut self, value: bool)
        ensures
            final(self)@ == flag_replaced(old(self)@, 0, value),
            final(self).spec_erx_p0() == value,
            same_outside(old(self)@, final(self)@, 0, 1),
    {
        self.0 = set_flag(self.0, 0, value);
    }
}

impl Register for EnRxaddr {
    const ADDRESS: u8 = 0x02;

    open spec fn spec_address() -> u8 {
        0x02
    }

    closed spec fn spec_from_bits(bits: u8) -> Self {
        EnRxaddr(bits)
    }

    open spec fn spec_into_bits(self) -> u8 {
        self@
    }

    fn into_bits(self) -> (bits: u8) {
        self.0
    }

    proof fn lemma_address() {
    }

    proof fn lemma_into_from(bits: u8) {
    }

    proof fn lemma_from_into(self) {
    }
}

impl Default for EnRxaddr {
    fn default() -> (reg: Self)
        ensures
            reg@ == 0b0000_0011,
    {
        Self::new()
    }
}

/// # SETUP_AW register
/// Set up address width. This applies to [`TxAddr`] and all RX addresses for data pipes.
///
/// Address = `0x03`
///
/// Default value = `0b0000_0011`
///
/// ## Fields
///
/// #### `aw` | bits 1:0
/// Address width. Default value: `11` (5 byte address).
/// Enum: [`AddressWidth`](crate::fields::AddressWidth).
#[derive(Clone, Copy, Debug, PartialEq, Eq, Structural)]
pub struct SetupAw(u8);

impl View for SetupAw {
    type V = u8;

    /// The byte that the register holds.
    closed spec fn view(&self) -> u8 {
        self.0
    }
}

impl SetupAw {
    /// Creates a new default initialized bitfield: every field at its default
    /// value, every other bit clear.
    pub fn new() -> (reg: Self)
        ensures
            reg@ == 0b0000_0011,
    {
        proof {
            lemma_default_values();
        }
        Self(0).with_aw(AddressWidth::FiveByte)
    }

    /// Convert from bits. The byte is stored as it is.
    pub fn from_bits(bits: u8) -> (reg: Self)
        ensures
            reg@ == bits,
            reg == Self::spec_from_bits(bits),
    {
        Self(bits)
    }

    /// Convert into bits. The byte comes back as it was stored.
    pub fn into_bits(self) -> (bits: u8)
        ensures
            bits == self@,
    {
        self.0
    }

    /// What `aw` reads: bits 1:0 of the register.
    pub open spec fn spec_aw(self) -> AddressWidth {
        AddressWidth::spec_from_bits(field_value(self@, 0, 2))
    }

    /// Address width. Default value: `11` (5 byte address).
    /// Enum: [`AddressWidth`](crate::fields::AddressWidth).
    ///
    /// Bits 1:0.
    pub fn aw(&self) -> (field: AddressWidth)
        ensures
            field == self.spec_aw(),
    {
        AddressWidth::from_bits(get_field(self.0, 0, 2))
    }

    /// Returns the register with `aw` set to `value` and every other bit as it was.
    ///
    /// Bits 1:0.
    pub fn with_aw(self, value: AddressWidth) -> (reg: Self)
        ensures
            reg@ == field_replaced(self@, 0, 2, value.spec_into_bits()),
            reg.spec_aw() == value,
            same_outside(self@, reg@, 0, 2),
    {
        proof {
            lemma_enum_round_trip(value);
        }
        Self(set_field(self.0, 0, 2, value.into_bits()))
    }

    /// Sets `aw` to `value` and leaves every other bit as it was.
    ///
    /// Bits 1:0.
    pub fn set_aw(&mut self, value: AddressWidth)
        ensures
            final(self)@ == field_replaced(old(self)@, 0, 2, value.spec_into_bits()),
            final(self).spec_aw() == value,
            same_outside(old(self)@, final(self)@, 0, 2),
    {
        proof {
            lemma_enum_round_trip(value);
        }
        self.0 = set_field(self.0, 0, 2, value.into_bits());
    }
}

impl Register for SetupAw {
    const ADDRESS: u8 = 0x03;

    open spec fn spec_address() -> u8 {
        0x03
    }

    closed spec fn spec_from_bits(bits: u8) -> Self {
        SetupAw(bits)
    }

    open spec fn spec_into_bits(self) -> u8 {
        self@
    }

    fn into_bits(self) -> (bits: u8) {
        self.0
    }

    proof fn lemma_address() {
    }

    proof fn lemma_into_from(bits: u8) {
    }

    proof fn lemma_from_into(self) {
    }
}

impl Default for SetupAw {
    fn default() -> (reg: Self)
        ensures
            reg@ == 0b0000_0011,
    {
        Self::new()
    }
}

/// # SETUP_RETR register
/// Set up 'Automatic Retransmission'.
///
/// Address = `0x04`
///
/// Default value = `0b0000_0011`
///
/// ## Fields
///
/// #### `ard` | bits 7:4
/// Auto retransmit delay. Enum: [`AutoRetransmitDelay`](crate::fields::AutoRetransmitDelay).
///
/// #### `arc` | bits 3:0
/// Maximum auto retransmits. Default value: `0011` (3 retransmits)
///
/// `0000`: Auto retransmit disabled
///
/// `0001`: Up to 1 retransmit
///
/// `0010`: Up to 2 retransmits
///
/// ......
///
/// `1111`: Up to 15 retransmits
#[derive(Clone, Copy, Debug, PartialEq, Eq, Structural)]
pub struct SetupRetr(u8);

impl View for SetupRetr {
    type V = u8;

    /// The byte that the register holds.
    closed spec fn view(&self) -> u8 {
        self.0
    }
}

impl SetupRetr {
    /// Creates a new default initialized bitfield: every field at its default
    /// value, every other bit clear.
    pub fn new() -> (reg: Self)
        ensures
            reg@ == 0b0000_0011,
    {
        proof {
            lemma_default_values();
        }
        Self(0).with_arc(3)
    }

    /// Convert from bits. The byte is stored as it is.
    pub fn from_bits(bits: u8) -> (reg: Self)
        ensures
            reg@ == bits,
            reg == Self::spec_from_bits(bits),
    {
        Self(bits)
    }

    /// Convert into bits. The byte comes back as it was stored.
    pub fn into_bits(self) -> (bits: u8)
        ensures
            bits == self@,
    {
        self.0
    }

    /// What `ard` reads: bits 7:4 of the register.
    pub open spec fn spec_ard(self) -> AutoRetransmitDelay {
        AutoRetransmitDelay::spec_from_bits(field_value(self@, 4, 4))
    }

    /// Auto retransmit delay. Enum: [`AutoRetransmitDelay`](crate::fields::AutoRetransmitDelay).
    ///
    /// Bits 7:4.
    pub fn ard(&self) -> (field: AutoRetransmitDelay)
        ensures
            field == self.spec_ard(),
    {
        AutoRetransmitDelay::from_bits(get_field(self.0, 4, 4))
    }

    /// Returns the register with `ard` set to `value` and every other bit as it was.
    ///
    /// Bits 7:4.
    pub fn with_ard(self, value: AutoRetransmitDelay) -> (reg: Self)
        ensures
            reg@ == field_replaced(self@, 4, 4, value.spec_into_bits()),
            reg.spec_ard() == value,
            same_outside(self@, reg@, 4, 4),
    {
        proof {
            lemma_enum_round_trip(value);
        }
        Self(set_field(self.0, 4, 4, value.into_bits()))
    }

    /// Sets `ard` to `value` and leaves every other bit as it was.
    ///
    /// Bits 7:4.
    pub fn set_ard(&mut self, value: AutoRetransmitDelay)
        ensures
            final(self)@ == field_replaced(old(self)@, 4, 4, value.spec_into_bits()),
            final(self).spec_ard() == value,
            same_outside(old(self)@, final(self)@, 4, 4),
    {
        proof {
            lemma_enum_round_trip(value);
        }
        self.0 = set_field(self.0, 4, 4, value.into_bits());
    }

    /// What `arc` reads: bits 3:0 of the register.
    pub open spec fn spec_arc(self) -> u8 {
        field_value(self@, 0, 4)
    }

    /// Maximum auto retransmits. Default value: `0011` (3 retransmits)
    ///
    /// `0000`: Auto retransmit disabled
    ///
    /// `0001`: Up to 1 retransmit
    ///
    /// `0010`: Up to 2 retransmits
    ///
    /// ......
    ///
    /// `1111`: Up to 15 retransmits
    ///
    /// Bits 3:0.
    pub fn arc(&self) -> (value: u8)
        ensures
            value == self.spec_arc(),
            value <= 15,
    {
        proof {
            lemma_low_masks();
        }
        get_field(self.0, 0, 4)
    }

    /// Returns the register with `arc` set to `value` and every other bit as it was.
    ///
    /// The field holds 4 bits: a `value` above 15 is cut to its low 4 bits.
    ///
    /// Bits 3:0.
    pub fn with_arc(self, value: u8) -> (reg: Self)
        ensures
            reg@ == field_replaced(self@, 0, 4, value),
            reg.spec_arc() == value & 0b0000_1111,
            value <= 15 ==> reg.spec_arc() == value,
            same_outside(self@, reg@, 0, 4),
    {
        proof {
            lemma_low_masks();
        }
        Self(set_field(self.0, 0, 4, value))
    }

    /// Sets `arc` to `value` and leaves every other bit as it was.
    ///
    /// The field holds 4 bits: a `value` above 15 is cut to its low 4 bits.
    ///
    /// Bits 3:0.
    pub fn set_arc(&mut self, value: u8)
        ensures
            final(self)@ == field_replaced(old(self)@, 0, 4, value),
            final(self).spec_arc() == value & 0b0000_1111,
            value <= 15 ==> final(self).spec_arc() == value,
            same_outside(old(self)@, final(self)@, 0, 4),
    {
        proof {
            lemma_low_masks();
        }
        self.0 = set_field(self.0, 0, 4, value);
    }
}

impl Register for SetupRetr {
    const ADDRESS: u8 = 0x04;

    open spec fn spec_address() -> u8 {
        0x04
    }

    closed spec fn spec_from_bits(bits: u8) -> Self {
        SetupRetr(bits)
    }

    open spec fn spec_into_bits(self) -> u8 {
        self@
    }

    fn into_bits(self) -> (bits: u8) {
        self.0
    }

    proof fn lemma_address() {
    }

    proof fn lemma_into_from(bits: u8) {
    }

    proof fn lemma_from_into(self) {
    }
}

impl Default for SetupRetr {
    fn default() -> (reg: Self)
        ensures
            reg@ == 0b0000_0011,
    {
        Self::new()
    }
}

/// # RF_CH register
/// Set RF channel.
///
/// Address = `0x05`
///
/// Default value = `0b0000_0010`
///
/// ## Fields
/// #### `rf_ch` | bits 6:0
/// Sets the frequency channel to operate on 0 - 125. Default value: `2`.
#[derive(Clone, Copy, Debug, PartialEq, Eq, Structural)]
pub struct RfCh(u8);

impl View for RfCh {
    type V = u8;

    /// The byte that the register holds.
    closed spec fn view(&self) -> u8 {
        self.0
    }
}

impl RfCh {
    /// Creates a new default initialized bitfield: every field at its default
    /// value, every other bit clear.
    pub fn new() -> (reg: Self)
        ensures
            reg@ == 0b0000_0010,
    {
        proof {
            lemma_default_values();
        }
        Self(0).with_rf_ch(2)
    }

    /// Convert from bits. The byte is stored as it is.
    pub fn from_bits(bits: u8) -> (reg: Self)
        ensures
            reg@ == bits,
            reg == Self::spec_from_bits(bits),
    {
        Self(bits)
    }

    /// Convert into bits. The byte comes back as it was stored.
    pub fn into_bits(self) -> (bits: u8)
        ensures
            bits == self@,
    {
        self.0
    }

    /// What `rf_ch` reads: bits 6:0 of the register.
    pub open spec fn spec_rf_ch(self) -> u8 {
        field_value(self@, 0, 7)
    }

    /// Sets the frequency channel to operate on 0 - 125. Default value: `2`.
    ///
    /// Bits 6:0.
    pub fn rf_ch(&self) -> (value: u8)
        ensures
            value == self.spec_rf_ch(),
            value <= 127,
    {
        proof {
            lemma_low_masks();
        }
        get_field(self.0, 0, 7)
    }

    /// Returns the register with `rf_ch` set to `value` and every other bit as it was.
    ///
    /// The field holds 7 bits: a `value` above 127 is cut to its low 7 bits.
    ///
    /// Bits 6:0.
    pub fn with_rf_ch(self, value: u8) -> (reg: Self)
        ensures
            reg@ == field_replaced(self@, 0, 7, value),
            reg.spec_rf_ch() == value & 0b0111_1111,
            value <= 127 ==> reg.spec_rf_ch() == value,
            same_outside(self@, reg@, 0, 7),
    {
        proof {
            lemma_low_masks();
        }
        Self(set_field(self.0, 0, 7, value))
    }

    /// Sets `rf_ch` to `value` and leaves every other bit as it was.
    ///
    /// The field holds 7 bits: a `value` above 127 is cut to its low 7 bits.
    ///
    /// Bits 6:0.
    pub fn set_rf_ch(&mut self, value: u8)
        ensures
            final(self)@ == field_replaced(old(self)@, 0, 7, value),
            final(self).spec_rf_ch() == value & 0b0111_1111,
            value <= 127 ==> final(self).spec_rf_ch() == value,
            same_outside(old(self)@, final(self)@, 0, 7),
    {
        proof {
            lemma_low_masks();
        }
        self.0 = set_field(self.0, 0, 7, value);
    }
}

impl Register for RfCh {
    const ADDRESS: u8 = 0x05;

    open spec fn spec_address() -> u8 {
        0x05
    }

    closed spec fn spec_from_bits(bits: u8) -> Self {
        RfCh(bits)
    }

    open spec fn spec_into_bits(self) -> u8 {
        self@
    }

    fn into_bits(self) -> (bits: u8) {
        self.0
    }

    proof fn lemma_address() {
    }

    proof fn lemma_into_from(bits: u8) {
    }

    proof fn lemma_from_into(self) {
    }
}

impl Default for RfCh {
    fn default() -> (reg: Self)
        ensures
            reg@ == 0b0000_0010,
    {
        Self::new()
    }
}

/// # RF_SETUP register
/// Set RF air data rate and output power.
///
/// Address = `0x06`
///
/// Default value = `0b0000_1110`
///
/// ## Fields
/// #### `cont_wave` | bit 7
/// Enables continuous carrier transmit.
///
/// #### `rf_dr_low` | bit 5
/// Set RF data rate to 250kbps. See `rf_dr_high`.
///
/// #### `pll_lock` | bit 4
/// Force PLL lock signal. Only used in test.
///
/// #### `rf_dr_high` | bit 3
/// Select between the high speed data rates. This bit
/// is don't care if `rf_dr_low` is set. Enum: [`RfDrHigh`](crate::fields::RfDrHigh).
/// Default value: `1` (2 Mbps).
///
/// Encoding [RF_DR_LOW, RF_DR_HIGH]:
///
/// `00` - 1Mbps
///
/// `01` - 2Mbps
///
/// `10` - 250kbps
///
/// `11` - Reserved
///
/// #### `rf_pwr` | bits 2:1
/// RF output power in TX mode. Enum: [`RfPower`](crate::fields::RfPower).
/// Default value: `11` (0 dBm).
#[derive(Clone, Copy, Debug, PartialEq, Eq, Structural)]
pub struct RfSetup(u8);

impl View for RfSetup {
    type V = u8;

    /// The byte that the register holds.
    closed spec fn view(&self) -> u8 {
        self.0
    }
}

impl RfSetup {
    /// Creates a new default initialized bitfield: every field at its default
    /// value, every other bit clear.
    pub fn new() -> (reg: Self)
        ensures
            reg@ == 0b0000_1110,
    {
        proof {
            lemma_default_values();
        }
        Self(0).with_rf_dr_high(RfDrHigh::Mbps2).with_rf_pwr(RfPower::Dbm0)
    }

    /// Convert from bits. The byte is stored as it is.
    pub fn from_bits(bits: u8) -> (reg: Self)
        ensures
            reg@ == bits,
            reg == Self::spec_from_bits(bits),
    {
        Self(bits)
    }

    /// Convert into bits. The byte comes back as it was stored.
    pub fn into_bits(self) -> (bits: u8)
        ensures
            bits == self@,
    {
        self.0
    }

    /// What `cont_wave` reads: bit 7 of the register.
    pub open spec fn spec_cont_wave(self) -> bool {
        flag_value(self@, 7)
    }

    /// Enables continuous carrier transmit.
    ///
    /// Bit 7.
    pub fn cont_wave(&self) -> (on: bool)
        ensures
            on == self.spec_cont_wave(),
    {
        get_flag(self.0, 7)
    }

    /// Returns the register with `cont_wave` set to `value` and every other bit as it was.
    ///
    /// Bit 7.
    pub fn with_cont_wave(self, value: bool) -> (reg: Self)
        ensures
            reg@ == flag_replaced(self@, 7, value),
            reg.spec_cont_wave() == value,
            same_outside(self@, reg@, 7, 1),
    {
        Self(set_flag(self.0, 7, value))
    }

    /// Sets `cont_wave` to `value` and leaves every other bit as it was.
    ///
    /// Bit 7.
    pub fn set_cont_wave(&mut self, value: bool)
        ensures
            final(self)@ == flag_replaced(old(self)@, 7, value),
            final(self).spec_cont_wave() == value,
            same_outside(old(self)@, final(self)@, 7, 1),
    {
        self.0 = set_flag(self.0, 7, value);
    }

    /// What `rf_dr_low` reads: bit 5 of the register.
    pub open spec fn spec_rf_dr_low(self) -> bool {
        flag_value(self@, 5)
    }

    /// Set RF data rate to 250kbps. See `rf_dr_high`.
    ///
    /// Bit 5.
    pub fn rf_dr_low(&self) -> (on: bool)
        ensures
            on == self.spec_rf_dr_low(),
    {
        get_flag(self.0, 5)
    }

    /// Returns the register with `rf_dr_low` set to `value` and every other bit as it was.
    ///
    /// Bit 5.
    pub fn with_rf_dr_low(self, value: bool) -> (reg: Self)
        ensures
            reg@ == flag_replaced(self@, 5, value),
            reg.spec_rf_dr_low() == value,
            same_outside(self@, reg@, 5, 1),
    {
        Self(set_flag(self.0, 5, value))
    }

    /// Sets `rf_dr_low` to `value` and leaves every other bit as it was.
    ///
    /// Bit 5.
    pub fn set_rf_dr_low(&mut self, value: bool)
        ensures
            final(self)@ == flag_replaced(old(self)@, 5, value),
            final(self).spec_rf_dr_low() == value,
            same_outside(old(self)@, final(self)@, 5, 1),
    {
        self.0 = set_flag(self.0, 5, value);
    }

    /// What `pll_lock` reads: bit 4 of the register.
    pub open spec fn spec_pll_lock(self) -> bool {
        flag_value(self@, 4)
    }

    /// Force PLL lock signal. Only used in test.
    ///
    /// Bit 4.
    pub fn pll_lock(&self) -> (on: bool)
        ensures
            on == self.spec_pll_lock(),
    {
        get_flag(self.0, 4)
    }

    /// Returns the register with `pll_lock` set to `value` and every other bit as it was.
    ///
    /// Bit 4.
    pub fn with_pll_lock(self, value: bool) -> (reg: Self)
        ensures
            reg@ == flag_replaced(self@, 4, value),
            reg.spec_pll_lock() == value,
            same_outside(self@, reg@, 4, 1),
    {
        Self(set_flag(self.0, 4, value))
    }

    /// Sets `pll_lock` to `value` and leaves every other bit as it was.
    ///
    /// Bit 4.
    pub fn set_pll_lock(&mut self, value: bool)
        ensures
            final(self)@ == flag_replaced(old(self)@, 4, value),
            final(self).spec_pll_lock() == value,
            same_outside(old(self)@, final(self)@, 4, 1),
    {
        self.0 = set_flag(self.0, 4, value);
    }

    /// What `rf_dr_high` reads: bit 3 of the register.
    pub open spec fn spec_rf_dr_high(self) -> RfDrHigh {
        RfDrHigh::spec_from_bits(field_value(self@, 3, 1))
    }

    /// Select between the high speed data rates. This bit
    /// is don't care if `rf_dr_low` is set. Enum: [`RfDrHigh`](crate::fields::RfDrHigh).
    /// Default value: `1` (2 Mbps).
    ///
    /// Encoding [RF_DR_LOW, RF_DR_HIGH]:
    ///
    /// `00` - 1Mbps
    ///
    /// `01` - 2Mbps
    ///
    /// `10` - 250kbps
    ///
    /// `11` - Reserved
    ///
    /// Bit 3.
    pub fn rf_dr_high(&self) -> (field: RfDrHigh)
        ensures
            field == self.spec_rf_dr_high(),
    {
        RfDrHigh::from_bits(get_field(self.0, 3, 1))
    }

    /// Returns the register with `rf_dr_high` set to `value` and every other bit as it was.
    ///
    /// Bit 3.
    pub fn with_rf_dr_high(self, value: RfDrHigh) -> (reg: Self)
        ensures
            reg@ == field_replaced(self@, 3, 1, value.spec_into_bits()),
            reg.spec_rf_dr_high() == value,
            same_outside(self@, reg@, 3, 1),
    {
        proof {
            lemma_enum_round_trip(value);
        }
        Self(set_field(self.0, 3, 1, value.into_bits()))
    }

    /// Sets `rf_dr_high` to `value` and leaves every other bit as it was.
    ///
    /// Bit 3.
    pub fn set_rf_dr_high(&mut self, value: RfDrHigh)
        ensures
            final(self)@ == field_replaced(old(self)@, 3, 1, value.spec_into_bits()),
            final(self).spec_rf_dr_high() == value,
            same_outside(old(self)@, final(self)@, 3, 1),
    {
        proof {
            lemma_enum_round_trip(value);
        }
        self.0 = set_field(self.0, 3, 1, value.into_bits());
    }

    /// What `rf_pwr` reads: bits 2:1 of the register.
    pub open spec fn spec_rf_pwr(self) -> RfPower {
        RfPower::spec_from_bits(field_value(self@, 1, 2))
    }

    /// RF output power in TX mode. Enum: [`RfPower`](crate::fields::RfPower).
    /// Default value: `11` (0 dBm).
    ///
    /// Bits 2:1.
    pub fn rf_pwr(&self) -> (field: RfPower)
        ensures
            field == self.spec_rf_pwr(),
    {
        RfPower::from_bits(get_field(self.0, 1, 2))
    }

    /// Returns the register with `rf_pwr` set to `value` and every other bit as it was.
    ///
    /// Bits 2:1.
    pub fn with_rf_pwr(self, value: RfPower) -> (reg: Self)
        ensures
            reg@ == field_replaced(self@, 1, 2, value.spec_into_bits()),
            reg.spec_rf_pwr() == value,
            same_outside(self@, reg@, 1, 2),
    {
        proof {
            lemma_enum_round_trip(value);
        }
        Self(set_field(self.0, 1, 2, value.into_bits()))
    }

    /// Sets `rf_pwr` to `value` and leaves every other bit as it was.
    ///
    /// Bits 2:1.
    pub fn set_rf_pwr(&mut self, value: RfPower)
        ensures
            final(self)@ == field_replaced(old(self)@, 1, 2, value.spec_into_bits()),
            final(self).spec_rf_pwr() == value,
            same_outside(old(self)@, final(self)@, 1, 2),
    {
        proof {
            lemma_enum_round_trip(value);
        }
        self.0 = set_field(self.0, 1, 2, value.into_bits());
    }
}

impl Register for RfSetup {
    const ADDRESS: u8 = 0x06;

    open spec fn spec_address() -> u8 {
        0x06
    }

    closed spec fn spec_from_bits(bits: u8) -> Self {
        RfSetup(bits)
    }

    open spec fn spec_into_bits(self) -> u8 {
        self@
    }

    fn into_bits(self) -> (bits: u8) {
        self.0
    }

    proof fn lemma_address() {
    }

    proof fn lemma_into_from(bits: u8) {
    }

    proof fn lemma_from_into(self) {
    }
}

impl Default for RfSetup {
    fn default() -> (reg: Self)
        ensures
            reg@ == 0b0000_1110,
    {
        Self::new()
    }
}

/// # STATUS register
///
/// Address = `0x07`
///
/// Default value = `0b0000_0000`
///
/// ## Fields
/// #### `rx_dr` | bit 6
/// Data ready RX FIFO interrupt. Asserted when new data arrives in RX FIFO. Write 1 to clear bit.
///
/// #### `tx_ds` | bit 5
/// Data sent TX FIFO interrupt. Asserted when packet is transmitted. If AUTO_ACK is activated, ACK
/// must be received before interrupt goes high. Write 1 to clear bit.
///
/// #### `max_rt` | bit 4
/// Maximum number of TX retransmits interrupt. If MAX_RT is asserted it must be cleared before
/// communication can continue. Write 1 to clear bit.
///
/// #### `rx_p_no` | bits 3:1
/// Data pipe number for the payload available from reading RX FIFO. This field is read-only.
/// Enum: [`RxPipeNo`](crate::fields::RxPipeNo).
///
/// #### `tx_full` | bit 0
/// TX FIFO full flag. This field is read-only.
///
/// `0`: Not full
///
/// `1`: TX FIFO full
#[derive(Clone, Copy, Debug, PartialEq, Eq, Structural)]
pub struct Status(u8);

impl View for Status {
    type V = u8;

    /// The byte that the register holds.
    closed spec fn view(&self) -> u8 {
        self.0
    }
}

impl Status {
    /// Creates a new default initialized bitfield: every field at its default
    /// value, every other bit clear.
    pub fn new() -> (reg: Self)
        ensures
            reg@ == 0b0000_0000,
    {
        Self(0)
    }

    /// Convert from bits. The byte is stored as it is.
    pub fn from_bits(bits: u8) -> (reg: Self)
        ensures
            reg@ == bits,
            reg == Self::spec_from_bits(bits),
    {
        Self(bits)
    }

    /// Convert into bits. The byte comes back as it was stored.
    pub fn into_bits(self) -> (bits: u8)
        ensures
            bits == self@,
    {
        self.0
    }

    /// What `rx_dr` reads: bit 6 of the register.
    pub open spec fn spec_rx_dr(self) -> bool {
        flag_value(self@, 6)
    }

    /// Data ready RX FIFO interrupt. Asserted when new data arrives in RX FIFO. Write 1 to clear
    /// bit.
    ///
    /// Bit 6.
    pub fn rx_dr(&self) -> (on: bool)
        ensures
            on == self.spec_rx_dr(),
    {
        get_flag(self.0, 6)
    }

    /// Returns the register with `rx_dr` set to `value` and every other bit as it was.
    ///
    /// Bit 6.
    pub fn with_rx_dr(self, value: bool) -> (reg: Self)
        ensures
            reg@ == flag_replaced(self@, 6, value),
            reg.spec_rx_dr() == value,
            same_outside(self@, reg@, 6, 1),
    {
        Self(set_flag(self.0, 6, value))
    }

    /// Sets `rx_dr` to `value` and leaves every other bit as it was.
    ///
    /// Bit 6.
    pub fn set_rx_dr(&mut self, value: bool)
        ensures
            final(self)@ == flag_replaced(old(self)@, 6, value),
            final(self).spec_rx_dr() == value,
            same_outside(old(self)@, final(self)@, 6, 1),
    {
        self.0 = set_flag(self.0, 6, value);
    }

    /// What `tx_ds` reads: bit 5 of the register.
    pub open spec fn spec_tx_ds(self) -> bool {
        flag_value(self@, 5)
    }

    /// Data sent TX FIFO interrupt. Asserted when packet is transmitted. If AUTO_ACK is activated,
    /// ACK must be received before interrupt goes high. Write 1 to clear bit.
    ///
    /// Bit 5.
    pub fn tx_ds(&self) -> (on: bool)
        ensures
            on == self.spec_tx_ds(),
    {
        get_flag(self.0, 5)
    }

    /// Returns the register with `tx_ds` set to `value` and every other bit as it was.
    ///
    /// Bit 5.
    pub fn with_tx_ds(self, value: bool) -> (reg: Self)
        ensures
            reg@ == flag_replaced(self@, 5, value),
            reg.spec_tx_ds() == value,
            same_outside(self@, reg@, 5, 1),
    {
        Self(set_flag(self.0, 5, value))
    }

    /// Sets `tx_ds` to `value` and leaves every other bit as it was.
    ///
    /// Bit 5.
    pub fn set_tx_ds(&mut self, value: bool)
        ensures
            final(self)@ == flag_replaced(old(self)@, 5, value),
            final(self).spec_tx_ds() == value,
            same_outside(old(self)@, final(self)@, 5, 1),
    {
        self.0 = set_flag(self.0, 5, value);
    }

    /// What `max_rt` reads: bit 4 of the register.
    pub open spec fn spec_max_rt(self) -> bool {
        flag_value(self@, 4)
    }

    /// Maximum number of TX retransmits interrupt. If MAX_RT is asserted it must be cleared before
    /// communication can continue. Write 1 to clear bit.
    ///
    /// Bit 4.
    pub fn max_rt(&self) -> (on: bool)
        ensures
            on == self.spec_max_rt(),
    {
        get_flag(self.0, 4)
    }

    /// Returns the register with `max_rt` set to `value` and every other bit as it was.
    ///
    /// Bit 4.
    pub fn with_max_rt(self, value: bool) -> (reg: Self)
        ensures
            reg@ == flag_replaced(self@, 4, value),
            reg.spec_max_rt() == value,
            same_outside(self@, reg@, 4, 1),
    {
        Self(set_flag(self.0, 4, value))
    }

    /// Sets `max_rt` to `value` and leaves every other bit as it was.
    ///
    /// Bit 4.
    pub fn set_max_rt(&mut self, value: bool)
        ensures
            final(self)@ == flag_replaced(old(self)@, 4, value),
            final(self).spec_max_rt() == value,
            same_outside(old(self)@, final(self)@, 4, 1),
    {
        self.0 = set_flag(self.0, 4, value);
    }

    /// What `rx_p_no` reads: bits 3:1 of the register.
    pub open spec fn spec_rx_p_no(self) -> RxPipeNo {
        RxPipeNo::spec_from_bits(field_value(self@, 1, 3))
    }

    /// Data pipe number for the payload available from reading RX FIFO. This field is read-only.
    /// Enum: [`RxPipeNo`](crate::fields::RxPipeNo).
    ///
    /// Bits 3:1.
    pub fn rx_p_no(&self) -> (field: RxPipeNo)
        ensures
            field == self.spec_rx_p_no(),
    {
        RxPipeNo::from_bits(get_field(self.0, 1, 3))
    }

    /// What `tx_full` reads: bit 0 of the register.
    pub open spec fn spec_tx_full(self) -> bool {
        flag_value(self@, 0)
    }

    /// TX FIFO full flag. This field is read-only.
    ///
    /// `0`: Not full
    ///
    /// `1`: TX FIFO full
    ///
    /// Bit 0.
    pub fn tx_full(&self) -> (on: bool)
        ensures
            on == self.spec_tx_full(),
    {
        get_flag(self.0, 0)
    }
}

impl Register for Status {
    const ADDRESS: u8 = 0x07;

    open spec fn spec_address() -> u8 {
        0x07
    }

    closed spec fn spec_from_bits(bits: u8) -> Self {
        Status(bits)
    }

    open spec fn spec_into_bits(self) -> u8 {
        self@
    }

    fn into_bits(self) -> (bits: u8) {
        self.0
    }

    proof fn lemma_address() {
    }

    proof fn lemma_into_from(bits: u8) {
    }

    proof fn lemma_from_into(self) {
    }
}

impl Default for Status {
    fn default() -> (reg: Self)
        ensures
            reg@ == 0b0000_0000,
    {
        Self::new()
    }
}

/// # OBSERVE_TX register
/// Transmit observe register.
///
/// Address = `0x08`
///
/// Default value = `0b0000_0000`
///
/// ## Fields
/// All fields are read-only.
///
/// #### `plos_cnt` | bits 7:4
/// Count lost packets. This counter is overflow protected to 15,
/// and continues at max until reset. This counter is reset by writing
/// to [`RfCh`]. This field is read-only.
///
/// #### `arc_cnt` | bits 3:0
/// Count retransmitted packets. The counter is reset when transmission
/// of a new packet starts. This field is read-only.
#[derive(Clone, Copy, Debug, PartialEq, Eq, Structural)]
pub struct ObserveTx(u8);

impl View for ObserveTx {
    type V = u8;

    /// The byte that the register holds.
    closed spec fn view(&self) -> u8 {
        self.0
    }
}

impl ObserveTx {
    /// Creates a new default initialized bitfield: every field at its default
    /// value, every other bit clear.
    pub fn new() -> (reg: Self)
        ensures
            reg@ == 0b0000_0000,
    {
        Self(0)
    }

    /// Convert from bits. The byte is stored as it is.
    pub fn from_bits(bits: u8) -> (reg: Self)
        ensures
            reg@ == bits,
            reg == Self::spec_from_bits(bits),
    {
        Self(bits)
    }

    /// Convert into bits. The byte comes back as it was stored.
    pub fn into_bits(self) -> (bits: u8)
        ensures
            bits == self@,
    {
        self.0
    }

    /// What `plos_cnt` reads: bits 7:4 of the register.
    pub open spec fn spec_plos_cnt(self) -> u8 {
        field_value(self@, 4, 4)
    }

    /// Count lost packets. This counter is overflow protected to 15,
    /// and continues at max until reset. This counter is reset by writing
    /// to __RF_CH__. This field is read-only.
    ///
    /// Bits 7:4.
    pub fn plos_cnt(&self) -> (value: u8)
        ensures
            value == self.spec_plos_cnt(),
            value <= 15,
    {
        proof {
            lemma_low_masks();
        }
        get_field(self.0, 4, 4)
    }

    /// What `arc_cnt` reads: bits 3:0 of the register.
    pub open spec fn spec_arc_cnt(self) -> u8 {
        field_value(self@, 0, 4)
    }

    /// Count retransmitted packets. The counter is reset when transmission
    /// of a new packet starts. This field is read-only.
    ///
    /// Bits 3:0.
    pub fn arc_cnt(&self) -> (value: u8)
        ensures
            value == self.spec_arc_cnt(),
            value <= 15,
    {
        proof {
            lemma_low_masks();
        }
        get_field(self.0, 0, 4)
    }
}

impl Register for ObserveTx {
    const ADDRESS: u8 = 0x08;

    open spec fn spec_address() -> u8 {
        0x08
    }

    closed spec fn spec_from_bits(bits: u8) -> Self {
        ObserveTx(bits)
    }

    open spec fn spec_into_bits(self) -> u8 {
        self@
    }

    fn into_bits(self) -> (bits: u8) {
        self.0
    }

    proof fn lemma_address() {
    }

    proof fn lemma_into_from(bits: u8) {
    }

    proof fn lemma_from_into(self) {
    }
}

impl Default for ObserveTx {
    fn default() -> (reg: Self)
        ensures
            reg@ == 0b0000_0000,
    {
        Self::new()
    }
}

/// # RPD register
/// Received power detector.
///
/// Address = `0x09`
///
/// Default value = `0b0000_0000`
///
/// ## Fields
/// #### `rpd` | bit 0
/// Triggers at received power levels above -64 dBm that are present
/// in the RF channel you receive on. If the received power is less
/// than -64 dBm, RPD = 0.
#[derive(Clone, Copy, Debug, PartialEq, Eq, Structural)]
pub struct Rpd(u8);

impl View for Rpd {
    type V = u8;

    /// The byte that the register holds.
    closed spec fn view(&self) -> u8 {
        self.0
    }
}

impl Rpd {
    /// Creates a new default initialized bitfield: every field at its default
    /// value, every other bit clear.
    pub fn new() -> (reg: Self)
        ensures
            reg@ == 0b0000_0000,
    {
        Self(0)
    }

    /// Convert from bits. The byte is stored as it is.
    pub fn from_bits(bits: u8) -> (reg: Self)
        ensures
            reg@ == bits,
            reg == Self::spec_from_bits(bits),
    {
        Self(bits)
    }

    /// Convert into bits. The byte comes back as it was stored.
    pub fn into_bits(self) -> (bits: u8)
        ensures
            bits == self@,
    {
        self.0
    }

    /// What `rpd` reads: bit 0 of the register.
    pub open spec fn spec_rpd(self) -> bool {
        flag_value(self@, 0)
    }

    /// Triggers at received power levels above -64 dBm that are present
    /// in the RF channel you receive on. If the received power is less
    /// than -64 dBm, RPD = 0.
    ///
    /// Bit 0.
    pub fn rpd(&self) -> (on: bool)
        ensures
            on == self.spec_rpd(),
    {
        get_flag(self.0, 0)
    }
}

impl Register for Rpd {
    const ADDRESS: u8 = 0x09;

    open spec fn spec_address() -> u8 {
        0x09
    }

    closed spec fn spec_from_bits(bits: u8) -> Self {
        Rpd(bits)
    }

    open spec fn spec_into_bits(self) -> u8 {
        self@
    }

    fn into_bits(self) -> (bits: u8) {
        self.0
    }

    proof fn lemma_address() {
    }

    proof fn lemma_into_from(bits: u8) {
    }

    proof fn lemma_from_into(self) {
    }
}

impl Default for Rpd {
    fn default() -> (reg: Self)
        ensures
            reg@ == 0b0000_0000,
    {
        Self::new()
    }
}

/// # RX_ADDR_P0 register
/// RX address data pipe 0.
///
/// Address = `0x0A`
///
/// Default value = `0xE7E7E7E7E7`
///
/// Const parameter `N`: address width in bytes, one of 3, 4 and 5. No
/// register value of another width can be made.
///
/// ## Fields
/// #### `rx_addr_p0` | bits 39:0
/// RX address data pipe 0.
/// Default value: `0xE7E7E7E7E7`.
#[derive(Clone, Copy, Debug, PartialEq, Eq)]
pub struct RxAddrP0<const N: usize>(u64);

impl<const N: usize> View for RxAddrP0<N> {
    type V = u64;

    /// The bits that the register holds: the address in the low 40 bits.
    closed spec fn view(&self) -> u64 {
        self.0
    }
}

impl<const N: usize> AddressRegister<N> for RxAddrP0<N> where [u8; N]: WireWidth<N> {
    const ADDRESS: u8 = 0x0A;

    open spec fn spec_address() -> u8 {
        0x0A
    }

    open spec fn spec_default_bits() -> u64 {
        0xE7E7E7E7E7
    }

    closed spec fn spec_from_bits(bits: u64) -> Self {
        RxAddrP0(bits)
    }

    open spec fn spec_into_bits(self) -> u64 {
        self@
    }

    fn new() -> (reg: Self)
        ensures
            reg@ == 0xE7E7E7E7E7,
    {
        proof {
            lemma_default_values();
        }
        Self(0).with_rx_addr_p0(0xE7E7E7E7E7)
    }

    fn from_bits(bits: u64) -> (reg: Self)
        ensures
            reg@ == bits,
    {
        Self(bits)
    }

    fn into_bits(self) -> (bits: u64)
        ensures
            bits == self@,
    {
        self.0
    }

    fn into_bytes(self) -> (bytes: [u8; N])
        ensures
            bytes@ == le_bytes(self@, N as nat),
    {
        address_into_bytes(self.0)
    }

    proof fn lemma_address() {
    }

    proof fn lemma_wire_width() {
        <[u8; N] as WireWidth<N>>::lemma_width();
    }

    proof fn lemma_into_from(bits: u64) {
    }

    proof fn lemma_from_into(self) {
    }
}

impl<const N: usize> RxAddrP0<N> {
    /// What `rx_addr_p0` reads: bits 39:0 of the register.
    pub open spec fn spec_rx_addr_p0(self) -> u64 {
        address_value(self@)
    }

    /// RX address data pipe 0.
/// Default value: `0xE7E7E7E7E7`.
    ///
    /// Bits 39:0.
    pub fn rx_addr_p0(&self) -> (address: u64)
        ensures
            address == self.spec_rx_addr_p0(),
            address <= ADDRESS_MASK,
    {
        proof {
            lemma_address_round_trip(self.0, 0);
        }
        self.0 & ADDRESS_MASK
    }

    /// Returns the register with the whole 40-bit address replaced by
    /// `value`. Whatever the wire width, all 40 bits are stored; the bytes
    /// that then go over the wire are the low-order bytes of `value`.
    ///
    /// The field holds 40 bits: a `value` above `0xFF_FFFF_FFFF` is cut to
    /// its low 40 bits.
    ///
    /// Bits 39:0.
    pub fn with_rx_addr_p0(self, value: u64) -> (reg: Self)
        ensures
            reg@ == address_replaced(self@, value),
            reg.spec_rx_addr_p0() == value & ADDRESS_MASK,
            value <= ADDRESS_MASK ==> reg.spec_rx_addr_p0() == value,
            reg@ & !ADDRESS_MASK == self@ & !ADDRESS_MASK,
            forall|count: nat| count <= 5 ==> le_bytes(reg@, count) == le_bytes(value, count),
    {
        proof {
            lemma_address_round_trip(self.0, value);
            assert forall|count: nat| count <= 5 implies le_bytes(
                address_replaced(self.0, value),
                count,
            ) == le_bytes(value, count) by {
                lemma_replaced_wire_bytes(self.0, value, count);
            }
        }
        Self((self.0 & !ADDRESS_MASK) | (value & ADDRESS_MASK))
    }
}

impl<const N: usize> Default for RxAddrP0<N> where [u8; N]: WireWidth<N> {
    fn default() -> (reg: Self)
        ensures
            reg@ == 0xE7E7E7E7E7,
    {
        Self::new()
    }
}

/// # RX_ADDR_P1 register
/// RX address data pipe 1.
///
/// Address = `0x0B`
///
/// Default value = `0xC2C2C2C2C2`
///
/// Const parameter `N`: address width in bytes, one of 3, 4 and 5. No
/// register value of another width can be made.
///
/// ## Fields
/// #### `rx_addr_p1` | bits 39:0
/// RX address data pipe 1.
/// Default value: `0xC2C2C2C2C2`.
#[derive(Clone, Copy, Debug, PartialEq, Eq)]
pub struct RxAddrP1<const N: usize>(u64);

impl<const N: usize> View for RxAddrP1<N> {
    type V = u64;

    /// The bits that the register holds: the address in the low 40 bits.
    closed spec fn view(&self) -> u64 {
        self.0
    }
}

impl<const N: usize> AddressRegister<N> for RxAddrP1<N> where [u8; N]: WireWidth<N> {
    const ADDRESS: u8 = 0x0B;

    open spec fn spec_address() -> u8 {
        0x0B
    }

    open spec fn spec_default_bits() -> u64 {
        0xC2C2C2C2C2
    }

    closed spec fn spec_from_bits(bits: u64) -> Self {
        RxAddrP1(bits)
    }

    open spec fn spec_into_bits(self) -> u64 {
        self@
    }

    fn new() -> (reg: Self)
        ensures
            reg@ == 0xC2C2C2C2C2,
    {
        proof {
            lemma_default_values();
        }
        Self(0).with_rx_addr_p1(0xC2C2C2C2C2)
    }

    fn from_bits(bits: u64) -> (reg: Self)
        ensures
            reg@ == bits,
    {
        Self(bits)
    }

    fn into_bits(self) -> (bits: u64)
        ensures
            bits == self@,
    {
        self.0
    }

    fn into_bytes(self) -> (bytes: [u8; N])
        ensures
            bytes@ == le_bytes(self@, N as nat),
    {
        address_into_bytes(self.0)
    }

    proof fn lemma_address() {
    }

    proof fn lemma_wire_width() {
        <[u8; N] as WireWidth<N>>::lemma_width();
    }

    proof fn lemma_into_from(bits: u64) {
    }

    proof fn lemma_from_into(self) {
    }
}

impl<const N: usize> RxAddrP1<N> {
    /// What `rx_addr_p1` reads: bits 39:0 of the register.
    pub open spec fn spec_rx_addr_p1(self) -> u64 {
        address_value(self@)
    }

    /// RX address data pipe 1.
/// Default value: `0xC2C2C2C2C2`.
    ///
    /// Bits 39:0.
    pub fn rx_addr_p1(&self) -> (address: u64)
        ensures
            address == self.spec_rx_addr_p1(),
            address <= ADDRESS_MASK,
    {
        proof {
            lemma_address_round_trip(self.0, 0);
        }
        self.0 & ADDRESS_MASK
    }

    /// Returns the register with the whole 40-bit address replaced by
    /// `value`. Whatever the wire width, all 40 bits are stored; the bytes
    /// that then go over the wire are the low-order bytes of `value`.
    ///
    /// The field holds 40 bits: a `value` above `0xFF_FFFF_FFFF` is cut to
    /// its low 40 bits.
    ///
    /// Bits 39:0.
    pub fn with_rx_addr_p1(self, value: u64) -> (reg: Self)
        ensures
            reg@ == address_replaced(self@, value),
            reg.spec_rx_addr_p1() == value & ADDRESS_MASK,
            value <= ADDRESS_MASK ==> reg.spec_rx_addr_p1() == value,
            reg@ & !ADDRESS_MASK == self@ & !ADDRESS_MASK,
            forall|count: nat| count <= 5 ==> le_bytes(reg@, count) == le_bytes(value, count),
    {
        proof {
            lemma_address_round_trip(self.0, value);
            assert forall|count: nat| count <= 5 implies le_bytes(
                address_replaced(self.0, value),
                count,
            ) == le_bytes(value, count) by {
                lemma_replaced_wire_bytes(self.0, value, count);
            }
        }
        Self((self.0 & !ADDRESS_MASK) | (value & ADDRESS_MASK))
    }
}

impl<const N: usize> Default for RxAddrP1<N> where [u8; N]: WireWidth<N> {
    fn default() -> (reg: Self)
        ensures
            reg@ == 0xC2C2C2C2C2,
    {
        Self::new()
    }
}

/// # RX_ADDR_P2 register
/// RX address data pipe 2. Only LSByte is stored.
/// MSBytes are equal to [`RxAddrP1`] bits 39:8.
///
/// Address = `0x0C`
///
/// Default value = `0xC3`
///
/// ## Fields
/// #### `rx_addr_p2` | bits 7:0
/// RX address data pipe 2. Default value: `0xC3`.
#[derive(Clone, Copy, Debug, PartialEq, Eq, Structural)]
pub struct RxAddrP2(u8);

impl View for RxAddrP2 {
    type V = u8;

    /// The byte that the register holds.
    closed spec fn view(&self) -> u8 {
        self.0
    }
}

impl RxAddrP2 {
    /// Creates a new default initialized bitfield: every field at its default
    /// value, every other bit clear.
    pub fn new() -> (reg: Self)
        ensures
            reg@ == 0xC3,
    {
        proof {
            lemma_default_values();
        }
        Self(0).with_rx_addr_p2(0xC3)
    }

    /// Convert from bits. The byte is stored as it is.
    pub fn from_bits(bits: u8) -> (reg: Self)
        ensures
            reg@ == bits,
            reg == Self::spec_from_bits(bits),
    {
        Self(bits)
    }

    /// Convert into bits. The byte comes back as it was stored.
    pub fn into_bits(self) -> (bits: u8)
        ensures
            bits == self@,
    {
        self.0
    }

    /// What `rx_addr_p2` reads: bits 7:0 of the register.
    pub open spec fn spec_rx_addr_p2(self) -> u8 {
        field_value(self@, 0, 8)
    }

    /// RX address data pipe 2. Default value: `0xC3`.
    ///
    /// Bits 7:0.
    pub fn rx_addr_p2(&self) -> (value: u8)
        ensures
            value == self.spec_rx_addr_p2(),
    {
        get_field(self.0, 0, 8)
    }

    /// Returns the register with `rx_addr_p2` set to `value` and every other bit as it was.
    ///
    /// Bits 7:0.
    pub fn with_rx_addr_p2(self, value: u8) -> (reg: Self)
        ensures
            reg@ == field_replaced(self@, 0, 8, value),
            reg.spec_rx_addr_p2() == value,
            reg@ == value,
            same_outside(self@, reg@, 0, 8),
    {
        proof {
            lemma_low_masks();
            lemma_whole_byte(self.0, value);
        }
        Self(set_field(self.0, 0, 8, value))
    }

    /// Sets `rx_addr_p2` to `value` and leaves every other bit as it was.
    ///
    /// Bits 7:0.
    pub fn set_rx_addr_p2(&mut self, value: u8)
        ensures
            final(self)@ == field_replaced(old(self)@, 0, 8, value),
            final(self).spec_rx_addr_p2() == value,
            final(self)@ == value,
            same_outside(old(self)@, final(self)@, 0, 8),
    {
        proof {
            lemma_low_masks();
            lemma_whole_byte(self.0, value);
        }
        self.0 = set_field(self.0, 0, 8, value);
    }
}

impl Register for RxAddrP2 {
    const ADDRESS: u8 = 0x0C;

    open spec fn spec_address() -> u8 {
        0x0C
    }

    closed spec fn spec_from_bits(bits: u8) -> Self {
        RxAddrP2(bits)
    }

    open spec fn spec_into_bits(self) -> u8 {
        self@
    }

    fn into_bits(self) -> (bits: u8) {
        self.0
    }

    proof fn lemma_address() {
    }

    proof fn lemma_into_from(bits: u8) {
    }

    proof fn lemma_from_into(self) {
    }
}

impl Default for RxAddrP2 {
    fn default() -> (reg: Self)
        ensures
            reg@ == 0xC3,
    {
        Self::new()
    }
}

/// # RX_ADDR_P3 register
/// RX address data pipe 3. Only LSByte is stored.
/// MSBytes are equal to [`RxAddrP1`] bits 39:8.
///
/// Address = `0x0D`
///
/// Default value = `0xC4`
///
/// ## Fields
/// #### `rx_addr_p3` | bits 7:0
/// RX address data pipe 3. Default value: `0xC4`.
#[derive(Clone, Copy, Debug, PartialEq, Eq, Structural)]
pub struct RxAddrP3(u8);

impl View for RxAddrP3 {
    type V = u8;

    /// The byte that the register holds.
    closed spec fn view(&self) -> u8 {
        self.0
    }
}

impl RxAddrP3 {
    /// Creates a new default initialized bitfield: every field at its default
    /// value, every other bit clear.
    pub fn new() -> (reg: Self)
        ensures
            reg@ == 0xC4,
    {
        proof {
            lemma_default_values();
        }
        Self(0).with_rx_addr_p3(0xC4)
    }

    /// Convert from bits. The byte is stored as it is.
    pub fn from_bits(bits: u8) -> (reg: Self)
        ensures
            reg@ == bits,
            reg == Self::spec_from_bits(bits),
    {
        Self(bits)
    }

    /// Convert into bits. The byte comes back as it was stored.
    pub fn into_bits(self) -> (bits: u8)
        ensures
            bits == self@,
    {
        self.0
    }

    /// What `rx_addr_p3` reads: bits 7:0 of the register.
    pub open spec fn spec_rx_addr_p3(self) -> u8 {
        field_value(self@, 0, 8)
    }

    /// RX address data pipe 3. Default value: `0xC4`.
    ///
    /// Bits 7:0.
    pub fn rx_addr_p3(&self) -> (value: u8)
        ensures
            value == self.spec_rx_addr_p3(),
    {
        get_field(self.0, 0, 8)
    }

    /// Returns the register with `rx_addr_p3` set to `value` and every other bit as it was.
    ///
    /// Bits 7:0.
    pub fn with_rx_addr_p3(self, value: u8) -> (reg: Self)
        ensures
            reg@ == field_replaced(self@, 0, 8, value),
            reg.spec_rx_addr_p3() == value,
            reg@ == value,
            same_outside(self@, reg@, 0, 8),
    {
        proof {
            lemma_low_masks();
            lemma_whole_byte(self.0, value);
        }
        Self(set_field(self.0, 0, 8, value))
    }

    /// Sets `rx_addr_p3` to `value` and leaves every other bit as it was.
    ///
    /// Bits 7:0.
    pub fn set_rx_addr_p3(&mut self, value: u8)
        ensures
            final(self)@ == field_replaced(old(self)@, 0, 8, value),
            final(self).spec_rx_addr_p3() == value,
            final(self)@ == value,
            same_outside(old(self)@, final(self)@, 0, 8),
    {
        proof {
            lemma_low_masks();
            lemma_whole_byte(self.0, value);
        }
        self.0 = set_field(self.0, 0, 8, value);
    }
}

impl Register for RxAddrP3 {
    const ADDRESS: u8 = 0x0D;

    open spec fn spec_address() -> u8 {
        0x0D
    }

    closed spec fn spec_from_bits(bits: u8) -> Self {
        RxAddrP3(bits)
    }

    open spec fn spec_into_bits(self) -> u8 {
        self@
    }

    fn into_bits(self) -> (bits: u8) {
        self.0
    }

    proof fn lemma_address() {
    }

    proof fn lemma_into_from(bits: u8) {
    }

    proof fn lemma_from_into(self) {
    }
}

impl Default for RxAddrP3 {
    fn default() -> (reg: Self)
        ensures
            reg@ == 0xC4,
    {
        Self::new()
    }
}

/// # RX_ADDR_P4 register
/// RX address data pipe 4. Only LSByte is stored.
/// MSBytes are equal to [`RxAddrP1`] bits 39:8.
///
/// Address = `0x0E`
///
/// Default value = `0xC5`
///
/// ## Fields
/// #### `rx_addr_p4` | bits 7:0
/// RX address data pipe 4. Default value: `0xC5`.
#[derive(Clone, Copy, Debug, PartialEq, Eq, Structural)]
pub struct RxAddrP4(u8);

impl View for RxAddrP4 {
    type V = u8;

    /// The byte that the register holds.
    closed spec fn view(&self) -> u8 {
        self.0
    }
}

impl RxAddrP4 {
    /// Creates a new default initialized bitfield: every field at its default
    /// value, every other bit clear.
    pub fn new() -> (reg: Self)
        ensures
            reg@ == 0xC5,
    {
        proof {
            lemma_default_values();
        }
        Self(0).with_rx_addr_p4(0xC5)
    }

    /// Convert from bits. The byte is stored as it is.
    pub fn from_bits(bits: u8) -> (reg: Self)
        ensures
            reg@ == bits,
            reg == Self::spec_from_bits(bits),
    {
        Self(bits)
    }

    /// Convert into bits. The byte comes back as it was stored.
    pub fn into_bits(self) -> (bits: u8)
        ensures
            bits == self@,
    {
        self.0
    }

    /// What `rx_addr_p4` reads: bits 7:0 of the register.
    pub open spec fn spec_rx_addr_p4(self) -> u8 {
        field_value(self@, 0, 8)
    }

    /// RX address data pipe 4. Default value: `0xC5`.
    ///
    /// Bits 7:0.
    pub fn rx_addr_p4(&self) -> (value: u8)
        ensures
            value == self.spec_rx_addr_p4(),
    {
        get_field(self.0, 0, 8)
    }

    /// Returns the register with `rx_addr_p4` set to `value` and every other bit as it was.
    ///
    /// Bits 7:0.
    pub fn with_rx_addr_p4(self, value: u8) -> (reg: Self)
        ensures
            reg@ == field_replaced(self@, 0, 8, value),
            reg.spec_rx_addr_p4() == value,
            reg@ == value,
            same_outside(self@, reg@, 0, 8),
    {
        proof {
            lemma_low_masks();
            lemma_whole_byte(self.0, value);
        }
        Self(set_field(self.0, 0, 8, value))
    }

    /// Sets `rx_addr_p4` to `value` and leaves every other bit as it was.
    ///
    /// Bits 7:0.
    pub fn set_rx_addr_p4(&mut self, value: u8)
        ensures
            final(self)@ == field_replaced(old(self)@, 0, 8, value),
            final(self).spec_rx_addr_p4() == value,
            final(self)@ == value,
            same_outside(old(self)@, final(self)@, 0, 8),
    {
        proof {
            lemma_low_masks();
            lemma_whole_byte(self.0, value);
        }
        self.0 = set_field(self.0, 0, 8, value);
    }
}

impl Register for RxAddrP4 {
    const ADDRESS: u8 = 0x0E;

    open spec fn spec_address() -> u8 {
        0x0E
    }

    closed spec fn spec_from_bits(bits: u8) -> Self {
        RxAddrP4(bits)
    }

    open spec fn spec_into_bits(self) -> u8 {
        self@
    }

    fn into_bits(self) -> (bits: u8) {
        self.0
    }

    proof fn lemma_address() {
    }

    proof fn lemma_into_from(bits: u8) {
    }

    proof fn lemma_from_into(self) {
    }
}

impl Default for RxAddrP4 {
    fn default() -> (reg: Self)
        ensures
            reg@ == 0xC5,
    {
        Self::new()
    }
}

/// # RX_ADDR_P5 register
/// RX address data pipe 5. Only LSByte is stored.
/// MSBytes are equal to [`RxAddrP1`] bits 39:8.
///
/// Address = `0x0F`
///
/// Default value = `0xC6`
///
/// ## Fields
/// #### `rx_addr_p5` | bits 7:0
/// RX address data pipe 5. Default value: `0xC6`.
#[derive(Clone, Copy, Debug, PartialEq, Eq, Structural)]
pub struct RxAddrP5(u8);

impl View for RxAddrP5 {
    type V = u8;

    /// The byte that the register holds.
    closed spec fn view(&self) -> u8 {
        self.0
    }
}

impl RxAddrP5 {
    /// Creates a new default initialized bitfield: every field at its default
    /// value, every other bit clear.
    pub fn new() -> (reg: Self)
        ensures
            reg@ == 0xC6,
    {
        proof {
            lemma_default_values();
        }
        Self(0).with_rx_addr_p5(0xC6)
    }

    /// Convert from bits. The byte is stored as it is.
    pub fn from_bits(bits: u8) -> (reg: Self)
        ensures
            reg@ == bits,
            reg == Self::spec_from_bits(bits),
    {
        Self(bits)
    }

    /// Convert into bits. The byte comes back as it was stored.
    pub fn into_bits(self) -> (bits: u8)
        ensures
            bits == self@,
    {
        self.0
    }

    /// What `rx_addr_p5` reads: bits 7:0 of the register.
    pub open spec fn spec_rx_addr_p5(self) -> u8 {
        field_value(self@, 0, 8)
    }

    /// RX address data pipe 5. Default value: `0xC6`.
    ///
    /// Bits 7:0.
    pub fn rx_addr_p5(&self) -> (value: u8)
        ensures
            value == self.spec_rx_addr_p5(),
    {
        get_field(self.0, 0, 8)
    }

    /// Returns the register with `rx_addr_p5` set to `value` and every other bit as it was.
    ///
    /// Bits 7:0.
    pub fn with_rx_addr_p5(self, value: u8) -> (reg: Self)
        ensures
            reg@ == field_replaced(self@, 0, 8, value),
            reg.spec_rx_addr_p5() == value,
            reg@ == value,
            same_outside(self@, reg@, 0, 8),
    {
        proof {
            lemma_low_masks();
            lemma_whole_byte(self.0, value);
        }
        Self(set_field(self.0, 0, 8, value))
    }

    /// Sets `rx_addr_p5` to `value` and leaves every other bit as it was.
    ///
    /// Bits 7:0.
    pub fn set_rx_addr_p5(&mut self, value: u8)
        ensures
            final(self)@ == field_replaced(old(self)@, 0, 8, value),
            final(self).spec_rx_addr_p5() == value,
            final(self)@ == value,
            same_outside(old(self)@, final(self)@, 0, 8),
    {
        proof {
            lemma_low_masks();
            lemma_whole_byte(self.0, value);
        }
        self.0 = set_field(self.0, 0, 8, value);
    }
}

impl Register for RxAddrP5 {
    const ADDRESS: u8 = 0x0F;

    open spec fn spec_address() -> u8 {
        0x0F
    }

    closed spec fn spec_from_bits(bits: u8) -> Self {
        RxAddrP5(bits)
    }

    open spec fn spec_into_bits(self) -> u8 {
        self@
    }

    fn into_bits(self) -> (bits: u8) {
        self.0
    }

    proof fn lemma_address() {
    }

    proof fn lemma_into_from(bits: u8) {
    }

    proof fn lemma_from_into(self) {
    }
}

impl Default for RxAddrP5 {
    fn default() -> (reg: Self)
        ensures
            reg@ == 0xC6,
    {
        Self::new()
    }
}

/// # TX_ADDR register
/// TX address. Set [`RxAddrP0`] equal to this address to handle ACK automatically.
///
/// Address = `0x10`
///
/// Default value = `0xE7E7E7E7E7`
///
/// Const parameter `N`: address width in bytes, one of 3, 4 and 5. No
/// register value of another width can be made.
///
/// ## Fields
/// #### `tx_addr` | bits 39:0
/// TX address. Set [`RxAddrP0`] equal to this address to handle ACK automatically.
/// Default value: `0xE7E7E7E7E7`.
#[derive(Clone, Copy, Debug, PartialEq, Eq)]
pub struct TxAddr<const N: usize>(u64);

impl<const N: usize> View for TxAddr<N> {
    type V = u64;

    /// The bits that the register holds: the address in the low 40 bits.
    closed spec fn view(&self) -> u64 {
        self.0
    }
}

impl<const N: usize> AddressRegister<N> for TxAddr<N> where [u8; N]: WireWidth<N> {
    const ADDRESS: u8 = 0x10;

    open spec fn spec_address() -> u8 {
        0x10
    }

    open spec fn spec_default_bits() -> u64 {
        0xE7E7E7E7E7
    }

    closed spec fn spec_from_bits(bits: u64) -> Self {
        TxAddr(bits)
    }

    open spec fn spec_into_bits(self) -> u64 {
        self@
    }

    fn new() -> (reg: Self)
        ensures
            reg@ == 0xE7E7E7E7E7,
    {
        proof {
            lemma_default_values();
        }
        Self(0).with_tx_addr(0xE7E7E7E7E7)
    }

    fn from_bits(bits: u64) -> (reg: Self)
        ensures
            reg@ == bits,
    {
        Self(bits)
    }

    fn into_bits(self) -> (bits: u64)
        ensures
            bits == self@,
    {
        self.0
    }

    fn into_bytes(self) -> (bytes: [u8; N])
        ensures
            bytes@ == le_bytes(self@, N as nat),
    {
        address_into_bytes(self.0)
    }

    proof fn lemma_address() {
    }

    proof fn lemma_wire_width() {
        <[u8; N] as WireWidth<N>>::lemma_width();
    }

    proof fn lemma_into_from(bits: u64) {
    }

    proof fn lemma_from_into(self) {
    }
}

impl<const N: usize> TxAddr<N> {
    /// What `tx_addr` reads: bits 39:0 of the register.
    pub open spec fn spec_tx_addr(self) -> u64 {
        address_value(self@)
    }

    /// TX address. Set [`RxAddrP0`] equal to this address to handle ACK automatically.
/// Default value: `0xE7E7E7E7E7`.
    ///
    /// Bits 39:0.
    pub fn tx_addr(&self) -> (address: u64)
        ensures
            address == self.spec_tx_addr(),
            address <= ADDRESS_MASK,
    {
        proof {
            lemma_address_round_trip(self.0, 0);
        }
        self.0 & ADDRESS_MASK
    }

    /// Returns the register with the whole 40-bit address replaced by
    /// `value`. Whatever the wire width, all 40 bits are stored; the bytes
    /// that then go over the wire are the low-order bytes of `value`.
    ///
    /// The field holds 40 bits: a `value` above `0xFF_FFFF_FFFF` is cut to
    /// its low 40 bits.
    ///
    /// Bits 39:0.
    pub fn with_tx_addr(self, value: u64) -> (reg: Self)
        ensures
            reg@ == address_replaced(self@, value),
            reg.spec_tx_addr() == value & ADDRESS_MASK,
            value <= ADDRESS_MASK ==> reg.spec_tx_addr() == value,
            reg@ & !ADDRESS_MASK == self@ & !ADDRESS_MASK,
            forall|count: nat| count <= 5 ==> le_bytes(reg@, count) == le_bytes(value, count),
    {
        proof {
            lemma_address_round_trip(self.0, value);
            assert forall|count: nat| count <= 5 implies le_bytes(
                address_replaced(self.0, value),
                count,
            ) == le_bytes(value, count) by {
                lemma_replaced_wire_bytes(self.0, value, count);
            }
        }
        Self((self.0 & !ADDRESS_MASK) | (value & ADDRESS_MASK))
    }
}

impl<const N: usize> Default for TxAddr<N> where [u8; N]: WireWidth<N> {
    fn default() -> (reg: Self)
        ensures
            reg@ == 0xE7E7E7E7E7,
    {
        Self::new()
    }
}

/// # RX_PW_P0 register
/// RX payload width for data pipe 0.
///
/// Address = `0x11`
///
/// Default value = `0b0000_0000`
///
/// ## Fields
/// #### `rx_pw_p0` | bits 5:0
/// RX payload width for data pipe 0. 1 - 32 bytes. `0` = pipe not used.
#[derive(Clone, Copy, Debug, PartialEq, Eq, Structural)]
pub struct RxPwP0(u8);

impl View for RxPwP0 {
    type V = u8;

    /// The byte that the register holds.
    closed spec fn view(&self) -> u8 {
        self.0
    }
}

impl RxPwP0 {
    /// Creates a new default initialized bitfield: every field at its default
    /// value, every other bit clear.
    pub fn new() -> (reg: Self)
        ensures
            reg@ == 0b0000_0000,
    {
        Self(0)
    }

    /// Convert from bits. The byte is stored as it is.
    pub fn from_bits(bits: u8) -> (reg: Self)
        ensures
            reg@ == bits,
            reg == Self::spec_from_bits(bits),
    {
        Self(bits)
    }

    /// Convert into bits. The byte comes back as it was stored.
    pub fn into_bits(self) -> (bits: u8)
        ensures
            bits == self@,
    {
        self.0
    }

    /// What `rx_pw_p0` reads: bits 5:0 of the register.
    pub open spec fn spec_rx_pw_p0(self) -> u8 {
        field_value(self@, 0, 6)
    }

    /// RX payload width for data pipe 0. 1 - 32 bytes. `0` = pipe not used.
    ///
    /// Bits 5:0.
    pub fn rx_pw_p0(&self) -> (value: u8)
        ensures
            value == self.spec_rx_pw_p0(),
            value <= 63,
    {
        proof {
            lemma_low_masks();
        }
        get_field(self.0, 0, 6)
    }

    /// Returns the register with `rx_pw_p0` set to `value` and every other bit as it was.
    ///
    /// The field holds 6 bits: a `value` above 63 is cut to its low 6 bits.
    ///
    /// Bits 5:0.
    pub fn with_rx_pw_p0(self, value: u8) -> (reg: Self)
        ensures
            reg@ == field_replaced(self@, 0, 6, value),
            reg.spec_rx_pw_p0() == value & 0b0011_1111,
            value <= 63 ==> reg.spec_rx_pw_p0() == value,
            same_outside(self@, reg@, 0, 6),
    {
        proof {
            lemma_low_masks();
        }
        Self(set_field(self.0, 0, 6, value))
    }

    /// Sets `rx_pw_p0` to `value` and leaves every other bit as it was.
    ///
    /// The field holds 6 bits: a `value` above 63 is cut to its low 6 bits.
    ///
    /// Bits 5:0.
    pub fn set_rx_pw_p0(&mut self, value: u8)
        ensures
            final(self)@ == field_replaced(old(self)@, 0, 6, value),
            final(self).spec_rx_pw_p0() == value & 0b0011_1111,
            value <= 63 ==> final(self).spec_rx_pw_p0() == value,
            same_outside(old(self)@, final(self)@, 0, 6),
    {
        proof {
            lemma_low_masks();
        }
        self.0 = set_field(self.0, 0, 6, value);
    }
}

impl Register for RxPwP0 {
    const ADDRESS: u8 = 0x11;

    open spec fn spec_address() -> u8 {
        0x11
    }

    closed spec fn spec_from_bits(bits: u8) -> Self {
        RxPwP0(bits)
    }

    open spec fn spec_into_bits(self) -> u8 {
        self@
    }

    fn into_bits(self) -> (bits: u8) {
        self.0
    }

    proof fn lemma_address() {
    }

    proof fn lemma_into_from(bits: u8) {
    }

    proof fn lemma_from_into(self) {
    }
}

impl Default for RxPwP0 {
    fn default() -> (reg: Self)
        ensures
            reg@ == 0b0000_0000,
    {
        Self::new()
    }
}

/// # RX_PW_P1 register
/// RX payload width for data pipe 1.
///
/// Address = `0x12`
///
/// Default value = `0b0000_0000`
///
/// ## Fields
/// #### `rx_pw_p1` | bits 5:0
/// RX payload width for data pipe 1. 1 - 32 bytes. `0` = pipe not used.
#[derive(Clone, Copy, Debug, PartialEq, Eq, Structural)]
pub struct RxPwP1(u8);

impl View for RxPwP1 {
    type V = u8;

    /// The byte that the register holds.
    closed spec fn view(&self) -> u8 {
        self.0
    }
}

impl RxPwP1 {
    /// Creates a new default initialized bitfield: every field at its default
    /// value, every other bit clear.
    pub fn new() -> (reg: Self)
        ensures
            reg@ == 0b0000_0000,
    {
        Self(0)
    }

    /// Convert from bits. The byte is stored as it is.
    pub fn from_bits(bits: u8) -> (reg: Self)
        ensures
            reg@ == bits,
            reg == Self::spec_from_bits(bits),
    {
        Self(bits)
    }

    /// Convert into bits. The byte comes back as it was stored.
    pub fn into_bits(self) -> (bits: u8)
        ensures
            bits == self@,
    {
        self.0
    }

    /// What `rx_pw_p1` reads: bits 5:0 of the register.
    pub open spec fn spec_rx_pw_p1(self) -> u8 {
        field_value(self@, 0, 6)
    }

    /// RX payload width for data pipe 1. 1 - 32 bytes. `0` = pipe not used.
    ///
    /// Bits 5:0.
    pub fn rx_pw_p1(&self) -> (value: u8)
        ensures
            value == self.spec_rx_pw_p1(),
            value <= 63,
    {
        proof {
            lemma_low_masks();
        }
        get_field(self.0, 0, 6)
    }

    /// Returns the register with `rx_pw_p1` set to `value` and every other bit as it was.
    ///
    /// The field holds 6 bits: a `value` above 63 is cut to its low 6 bits.
    ///
    /// Bits 5:0.
    pub fn with_rx_pw_p1(self, value: u8) -> (reg: Self)
        ensures
            reg@ == field_replaced(self@, 0, 6, value),
            reg.spec_rx_pw_p1() == value & 0b0011_1111,
            value <= 63 ==> reg.spec_rx_pw_p1() == value,
            same_outside(self@, reg@, 0, 6),
    {
        proof {
            lemma_low_masks();
        }
        Self(set_field(self.0, 0, 6, value))
    }

    /// Sets `rx_pw_p1` to `value` and leaves every other bit as it was.
    ///
    /// The field holds 6 bits: a `value` above 63 is cut to its low 6 bits.
    ///
    /// Bits 5:0.
    pub fn set_rx_pw_p1(&mut self, value: u8)
        ensures
            final(self)@ == field_replaced(old(self)@, 0, 6, value),
            final(self).spec_rx_pw_p1() == value & 0b0011_1111,
            value <= 63 ==> final(self).spec_rx_pw_p1() == value,
            same_outside(old(self)@, final(self)@, 0, 6),
    {
        proof {
            lemma_low_masks();
        }
        self.0 = set_field(self.0, 0, 6, value);
    }
}

impl Register for RxPwP1 {
    const ADDRESS: u8 = 0x12;

    open spec fn spec_address() -> u8 {
        0x12
    }

    closed spec fn spec_from_bits(bits: u8) -> Self {
        RxPwP1(bits)
    }

    open spec fn spec_into_bits(self) -> u8 {
        self@
    }

    fn into_bits(self) -> (bits: u8) {
        self.0
    }

    proof fn lemma_address() {
    }

    proof fn lemma_into_from(bits: u8) {
    }

    proof fn lemma_from_into(self) {
    }
}

impl Default for RxPwP1 {
    fn default() -> (reg: Self)
        ensures
            reg@ == 0b0000_0000,
    {
        Self::new()
    }
}

/// # RX_PW_P2 register
/// RX payload width for data pipe 2.
///
/// Address = `0x13`
///
/// Default value = `0b0000_0000`
///
/// ## Fields
/// #### `rx_pw_p2` | bits 5:0
/// RX payload width for data pipe 2. 1 - 32 bytes. `0` = pipe not used.
#[derive(Clone, Copy, Debug, PartialEq, Eq, Structural)]
pub struct RxPwP2(u8);

impl View for RxPwP2 {
    type V = u8;

    /// The byte that the register holds.
    closed spec fn view(&self) -> u8 {
        self.0
    }
}

impl RxPwP2 {
    /// Creates a new default initialized bitfield: every field at its default
    /// value, every other bit clear.
    pub fn new() -> (reg: Self)
        ensures
            reg@ == 0b0000_0000,
    {
        Self(0)
    }

    /// Convert from bits. The byte is stored as it is.
    pub fn from_bits(bits: u8) -> (reg: Self)
        ensures
            reg@ == bits,
            reg == Self::spec_from_bits(bits),
    {
        Self(bits)
    }

    /// Convert into bits. The byte comes back as it was stored.
    pub fn into_bits(self) -> (bits: u8)
        ensures
            bits == self@,
    {
        self.0
    }

    /// What `rx_pw_p2` reads: bits 5:0 of the register.
    pub open spec fn spec_rx_pw_p2(self) -> u8 {
        field_value(self@, 0, 6)
    }

    /// RX payload width for data pipe 2. 1 - 32 bytes. `0` = pipe not used.
    ///
    /// Bits 5:0.
    pub fn rx_pw_p2(&self) -> (value: u8)
        ensures
            value == self.spec_rx_pw_p2(),
            value <= 63,
    {
        proof {
            lemma_low_masks();
        }
        get_field(self.0, 0, 6)
    }

    /// Returns the register with `rx_pw_p2` set to `value` and every other bit as it was.
    ///
    /// The field holds 6 bits: a `value` above 63 is cut to its low 6 bits.
    ///
    /// Bits 5:0.
    pub fn with_rx_pw_p2(self, value: u8) -> (reg: Self)
        ensures
            reg@ == field_replaced(self@, 0, 6, value),
            reg.spec_rx_pw_p2() == value & 0b0011_1111,
            value <= 63 ==> reg.spec_rx_pw_p2() == value,
            same_outside(self@, reg@, 0, 6),
    {
        proof {
            lemma_low_masks();
        }
        Self(set_field(self.0, 0, 6, value))
    }

    /// Sets `rx_pw_p2` to `value` and leaves every other bit as it was.
    ///
    /// The field holds 6 bits: a `value` above 63 is cut to its low 6 bits.
    ///
    /// Bits 5:0.
    pub fn set_rx_pw_p2(&mut self, value: u8)
        ensures
            final(self)@ == field_replaced(old(self)@, 0, 6, value),
            final(self).spec_rx_pw_p2() == value & 0b0011_1111,
            value <= 63 ==> final(self).spec_rx_pw_p2() == value,
            same_outside(old(self)@, final(self)@, 0, 6),
    {
        proof {
            lemma_low_masks();
        }
        self.0 = set_field(self.0, 0, 6, value);
    }
}

impl Register for RxPwP2 {
    const ADDRESS: u8 = 0x13;

    open spec fn spec_address() -> u8 {
        0x13
    }

    closed spec fn spec_from_bits(bits: u8) -> Self {
        RxPwP2(bits)
    }

    open spec fn spec_into_bits(self) -> u8 {
        self@
    }

    fn into_bits(self) -> (bits: u8) {
        self.0
    }

    proof fn lemma_address() {
    }

    proof fn lemma_into_from(bits: u8) {
    }

    proof fn lemma_from_into(self) {
    }
}

impl Default for RxPwP2 {
    fn default() -> (reg: Self)
        ensures
            reg@ == 0b0000_0000,
    {
        Self::new()
    }
}

/// # RX_PW_P3 register
/// RX payload width for data pipe 3.
///
/// Address = `0x14`
///
/// Default value = `0b0000_0000`
///
/// ## Fields
/// #### `rx_pw_p3` | bits 5:0
/// RX payload width for data pipe 3. 1 - 32 bytes. `0` = pipe not used.
#[derive(Clone, Copy, Debug, PartialEq, Eq, Structural)]
pub struct RxPwP3(u8);

impl View for RxPwP3 {
    type V = u8;

    /// The byte that the register holds.
    closed spec fn view(&self) -> u8 {
        self.0
    }
}

impl RxPwP3 {
    /// Creates a new default initialized bitfield: every field at its default
    /// value, every other bit clear.
    pub fn new() -> (reg: Self)
        ensures
            reg@ == 0b0000_0000,
    {
        Self(0)
    }

    /// Convert from bits. The byte is stored as it is.
    pub fn from_bits(bits: u8) -> (reg: Self)
        ensures
            reg@ == bits,
            reg == Self::spec_from_bits(bits),
    {
        Self(bits)
    }

    /// Convert into bits. The byte comes back as it was stored.
    pub fn into_bits(self) -> (bits: u8)
        ensures
            bits == self@,
    {
        self.0
    }

    /// What `rx_pw_p3` reads: bits 5:0 of the register.
    pub open spec fn spec_rx_pw_p3(self) -> u8 {
        field_value(self@, 0, 6)
    }

    /// RX payload width for data pipe 3. 1 - 32 bytes. `0` = pipe not used.
    ///
    /// Bits 5:0.
    pub fn rx_pw_p3(&self) -> (value: u8)
        ensures
            value == self.spec_rx_pw_p3(),
            value <= 63,
    {
        proof {
            lemma_low_masks();
        }
        get_field(self.0, 0, 6)
    }

    /// Returns the register with `rx_pw_p3` set to `value` and every other bit as it was.
    ///
    /// The field holds 6 bits: a `value` above 63 is cut to its low 6 bits.
    ///
    /// Bits 5:0.
    pub fn with_rx_pw_p3(self, value: u8) -> (reg: Self)
        ensures
            reg@ == field_replaced(self@, 0, 6, value),
            reg.spec_rx_pw_p3() == value & 0b0011_1111,
            value <= 63 ==> reg.spec_rx_pw_p3() == value,
            same_outside(self@, reg@, 0, 6),
    {
        proof {
            lemma_low_masks();
        }
        Self(set_field(self.0, 0, 6, value))
    }

    /// Sets `rx_pw_p3` to `value` and leaves every other bit as it was.
    ///
    /// The field holds 6 bits: a `value` above 63 is cut to its low 6 bits.
    ///
    /// Bits 5:0.
    pub fn set_rx_pw_p3(&mut self, value: u8)
        ensures
            final(self)@ == field_replaced(old(self)@, 0, 6, value),
            final(self).spec_rx_pw_p3() == value & 0b0011_1111,
            value <= 63 ==> final(self).spec_rx_pw_p3() == value,
            same_outside(old(self)@, final(self)@, 0, 6),
    {
        proof {
            lemma_low_masks();
        }
        self.0 = set_field(self.0, 0, 6, value);
    }
}

impl Register for RxPwP3 {
    const ADDRESS: u8 = 0x14;

    open spec fn spec_address() -> u8 {
        0x14
    }

    closed spec fn spec_from_bits(bits: u8) -> Self {
        RxPwP3(bits)
    }

    open spec fn spec_into_bits(self) -> u8 {
        self@
    }

    fn into_bits(self) -> (bits: u8) {
        self.0
    }

    proof fn lemma_address() {
    }

    proof fn lemma_into_from(bits: u8) {
    }

    proof fn lemma_from_into(self) {
    }
}

impl Default for RxPwP3 {
    fn default() -> (reg: Self)
        ensures
            reg@ == 0b0000_0000,
    {
        Self::new()
    }
}

/// # RX_PW_P4 register
/// RX payload width for data pipe 4.
///
/// Address = `0x15`
///
/// Default value = `0b0000_0000`
///
/// ## Fields
/// #### `rx_pw_p4` | bits 5:0
/// RX payload width for data pipe 4. 1 - 32 bytes. `0` = pipe not used.
#[derive(Clone, Copy, Debug, PartialEq, Eq, Structural)]
pub struct RxPwP4(u8);

impl View for RxPwP4 {
    type V = u8;

    /// The byte that the register holds.
    closed spec fn view(&self) -> u8 {
        self.0
    }
}

impl RxPwP4 {
    /// Creates a new default initialized bitfield: every field at its default
    /// value, every other bit clear.
    pub fn new() -> (reg: Self)
        ensures
            reg@ == 0b0000_0000,
    {
        Self(0)
    }

    /// Convert from bits. The byte is stored as it is.
    pub fn from_bits(bits: u8) -> (reg: Self)
        ensures
            reg@ == bits,
            reg == Self::spec_from_bits(bits),
    {
        Self(bits)
    }

    /// Convert into bits. The byte comes back as it was stored.
    pub fn into_bits(self) -> (bits: u8)
        ensures
            bits == self@,
    {
        self.0
    }

    /// What `rx_pw_p4` reads: bits 5:0 of the register.
    pub open spec fn spec_rx_pw_p4(self) -> u8 {
        field_value(self@, 0, 6)
    }

    /// RX payload width for data pipe 4. 1 - 32 bytes. `0` = pipe not used.
    ///
    /// Bits 5:0.
    pub fn rx_pw_p4(&self) -> (value: u8)
        ensures
            value == self.spec_rx_pw_p4(),
            value <= 63,
    {
        proof {
            lemma_low_masks();
        }
        get_field(self.0, 0, 6)
    }

    /// Returns the register with `rx_pw_p4` set to `value` and every other bit as it was.
    ///
    /// The field holds 6 bits: a `value` above 63 is cut to its low 6 bits.
    ///
    /// Bits 5:0.
    pub fn with_rx_pw_p4(self, value: u8) -> (reg: Self)
        ensures
            reg@ == field_replaced(self@, 0, 6, value),
            reg.spec_rx_pw_p4() == value & 0b0011_1111,
            value <= 63 ==> reg.spec_rx_pw_p4() == value,
            same_outside(self@, reg@, 0, 6),
    {
        proof {
            lemma_low_masks();
        }
        Self(set_field(self.0, 0, 6, value))
    }

    /// Sets `rx_pw_p4` to `value` and leaves every other bit as it was.
    ///
    /// The field holds 6 bits: a `value` above 63 is cut to its low 6 bits.
    ///
    /// Bits 5:0.
    pub fn set_rx_pw_p4(&mut self, value: u8)
        ensures
            final(self)@ == field_replaced(old(self)@, 0, 6, value),
            final(self).spec_rx_pw_p4() == value & 0b0011_1111,
            value <= 63 ==> final(self).spec_rx_pw_p4() == value,
            same_outside(old(self)@, final(self)@, 0, 6),
    {
        proof {
            lemma_low_masks();
        }
        self.0 = set_field(self.0, 0, 6, value);
    }
}

impl Register for RxPwP4 {
    const ADDRESS: u8 = 0x15;

    open spec fn spec_address() -> u8 {
        0x15
    }

    closed spec fn spec_from_bits(bits: u8) -> Self {
        RxPwP4(bits)
    }

    open spec fn spec_into_bits(self) -> u8 {
        self@
    }

    fn into_bits(self) -> (bits: u8) {
        self.0
    }

    proof fn lemma_address() {
    }

    proof fn lemma_into_from(bits: u8) {
    }

    proof fn lemma_from_into(self) {
    }
}

impl Default for RxPwP4 {
    fn default() -> (reg: Self)
        ensures
            reg@ == 0b0000_0000,
    {
        Self::new()
    }
}

/// # RX_PW_P5 register
/// RX payload width for data pipe 5.
///
/// Address = `0x16`
///
/// Default value = `0b0000_0000`
///
/// ## Fields
/// #### `rx_pw_p5` | bits 5:0
/// RX payload width for data pipe 5. 1 - 32 bytes. `0` = pipe not used.
#[derive(Clone, Copy, Debug, PartialEq, Eq, Structural)]
pub struct RxPwP5(u8);

impl View for RxPwP5 {
    type V = u8;

    /// The byte that the register holds.
    closed spec fn view(&self) -> u8 {
        self.0
    }
}

impl RxPwP5 {
    /// Creates a new default initialized bitfield: every field at its default
    /// value, every other bit clear.
    pub fn new() -> (reg: Self)
        ensures
            reg@ == 0b0000_0000,
    {
        Self(0)
    }

    /// Convert from bits. The byte is stored as it is.
    pub fn from_bits(bits: u8) -> (reg: Self)
        ensures
            reg@ == bits,
            reg == Self::spec_from_bits(bits),
    {
        Self(bits)
    }

    /// Convert into bits. The byte comes back as it was stored.
    pub fn into_bits(self) -> (bits: u8)
        ensures
            bits == self@,
    {
        self.0
    }

    /// What `rx_pw_p5` reads: bits 5:0 of the register.
    pub open spec fn spec_rx_pw_p5(self) -> u8 {
        field_value(self@, 0, 6)
    }

    /// RX payload width for data pipe 5. 1 - 32 bytes. `0` = pipe not used.
    ///
    /// Bits 5:0.
    pub fn rx_pw_p5(&self) -> (value: u8)
        ensures
            value == self.spec_rx_pw_p5(),
            value <= 63,
    {
        proof {
            lemma_low_masks();
        }
        get_field(self.0, 0, 6)
    }

    /// Returns the register with `rx_pw_p5` set to `value` and every other bit as it was.
    ///
    /// The field holds 6 bits: a `value` above 63 is cut to its low 6 bits.
    ///
    /// Bits 5:0.
    pub fn with_rx_pw_p5(self, value: u8) -> (reg: Self)
        ensures
            reg@ == field_replaced(self@, 0, 6, value),
            reg.spec_rx_pw_p5() == value & 0b0011_1111,
            value <= 63 ==> reg.spec_rx_pw_p5() == value,
            same_outside(self@, reg@, 0, 6),
    {
        proof {
            lemma_low_masks();
        }
        Self(set_field(self.0, 0, 6, value))
    }

    /// Sets `rx_pw_p5` to `value` and leaves every other bit as it was.
    ///
    /// The field holds 6 bits: a `value` above 63 is cut to its low 6 bits.
    ///
    /// Bits 5:0.
    pub fn set_rx_pw_p5(&mut self, value: u8)
        ensures
            final(self)@ == field_replaced(old(self)@, 0, 6, value),
            final(self).spec_rx_pw_p5() == value & 0b0011_1111,
            value <= 63 ==> final(self).spec_rx_pw_p5() == value,
            same_outside(old(self)@, final(self)@, 0, 6),
    {
        proof {
            lemma_low_masks();
        }
        self.0 = set_field(self.0, 0, 6, value);
    }
}

impl Register for RxPwP5 {
    const ADDRESS: u8 = 0x16;

    open spec fn spec_address() -> u8 {
        0x16
    }

    closed spec fn spec_from_bits(bits: u8) -> Self {
        RxPwP5(bits)
    }

    open spec fn spec_into_bits(self) -> u8 {
        self@
    }

    fn into_bits(self) -> (bits: u8) {
        self.0
    }

    proof fn lemma_address() {
    }

    proof fn lemma_into_from(bits: u8) {
    }

    proof fn lemma_from_into(self) {
    }
}

impl Default for RxPwP5 {
    fn default() -> (reg: Self)
        ensures
            reg@ == 0b0000_0000,
    {
        Self::new()
    }
}

/// # FIFO_STATUS register
/// Status of TX/RX FIFOs.
///
/// Address = `0x17`
///
/// Default value = `0b0000_0000`
///
/// ## Fields
/// All fields are read-only.
///
/// #### `tx_reuse` | bit 6
/// Reuse last transmitted data packet if set high.
/// The packet is repeatedly retransmitted as long as CE is high.
/// TX_REUSE is set by the [`REUSE_TX_PL`][crate::commands::ReuseTxPl] command and reset by
/// [`W_TX_PAYLOAD`][crate::commands::WTxPayload] or [`FLUSH_TX`][crate::commands::FlushTx].
///
/// #### `tx_full` | bit 5
/// TX FIFO full flag.
///
/// #### `tx_empty` | bit 4
/// TX FIFO empty flag.
///
/// #### `rx_full` | bit 1
/// RX FIFO full flag.
///
/// #### `rx_empty` | bit 0
/// RX FIFO empty flag.
#[derive(Clone, Copy, Debug, PartialEq, Eq, Structural)]
pub struct FifoStatus(u8);

impl View for FifoStatus {
    type V = u8;

    /// The byte that the register holds.
    closed spec fn view(&self) -> u8 {
        self.0
    }
}

impl FifoStatus {
    /// Creates a new default initialized bitfield: every field at its default
    /// value, every other bit clear.
    pub fn new() -> (reg: Self)
        ensures
            reg@ == 0b0000_0000,
    {
        Self(0)
    }

    /// Convert from bits. The byte is stored as it is.
    pub fn from_bits(bits: u8) -> (reg: Self)
        ensures
            reg@ == bits,
            reg == Self::spec_from_bits(bits),
    {
        Self(bits)
    }

    /// Convert into bits. The byte comes back as it was stored.
    pub fn into_bits(self) -> (bits: u8)
        ensures
            bits == self@,
    {
        self.0
    }

    /// What `tx_reuse` reads: bit 6 of the register.
    pub open spec fn spec_tx_reuse(self) -> bool {
        flag_value(self@, 6)
    }

    /// Reuse last transmitted data packet if set high.
    /// The packet is repeatedly retransmitted as long as CE is high.
    /// TX_REUSE is set by the REUSE_TX_PL command and reset by
    /// W_TX_PAYLOAD or FLUSH_TX.
    ///
    /// Bit 6.
    pub fn tx_reuse(&self) -> (on: bool)
        ensures
            on == self.spec_tx_reuse(),
    {
        get_flag(self.0, 6)
    }

    /// What `tx_full` reads: bit 5 of the register.
    pub open spec fn spec_tx_full(self) -> bool {
        flag_value(self@, 5)
    }

    /// TX FIFO full flag.
    ///
    /// Bit 5.
    pub fn tx_full(&self) -> (on: bool)
        ensures
            on == self.spec_tx_full(),
    {
        get_flag(self.0, 5)
    }

    /// What `tx_empty` reads: bit 4 of the register.
    pub open spec fn spec_tx_empty(self) -> bool {
        flag_value(self@, 4)
    }

    /// TX FIFO empty flag.
    ///
    /// Bit 4.
    pub fn tx_empty(&self) -> (on: bool)
        ensures
            on == self.spec_tx_empty(),
    {
        get_flag(self.0, 4)
    }

    /// What `rx_full` reads: bit 1 of the register.
    pub open spec fn spec_rx_full(self) -> bool {
        flag_value(self@, 1)
    }

    /// RX FIFO full flag.
    ///
    /// Bit 1.
    pub fn rx_full(&self) -> (on: bool)
        ensures
            on == self.spec_rx_full(),
    {
        get_flag(self.0, 1)
    }

    /// What `rx_empty` reads: bit 0 of the register.
    pub open spec fn spec_rx_empty(self) -> bool {
        flag_value(self@, 0)
    }

    /// RX FIFO empty flag.
    ///
    /// Bit 0.
    pub fn rx_empty(&self) -> (on: bool)
        ensures
            on == self.spec_rx_empty(),
    {
        get_flag(self.0, 0)
    }
}

impl Register for FifoStatus {
    const ADDRESS: u8 = 0x17;

    open spec fn spec_address() -> u8 {
        0x17
    }

    closed spec fn spec_from_bits(bits: u8) -> Self {
        FifoStatus(bits)
    }

    open spec fn spec_into_bits(self) -> u8 {
        self@
    }

    fn into_bits(self) -> (bits: u8) {
        self.0
    }

    proof fn lemma_address() {
    }

    proof fn lemma_into_from(bits: u8) {
    }

    proof fn lemma_from_into(self) {
    }
}

impl Default for FifoStatus {
    fn default() -> (reg: Self)
        ensures
            reg@ == 0b0000_0000,
    {
        Self::new()
    }
}

/// # DYNPD register
/// Enable dynamic payload length for data pipes 0-5.
///
/// Address = `0x1C`
///
/// Default value = `0b0000_0000`
///
/// ## Fields
///
/// #### `dpl_pN` | bit `N`
/// Enable dynamic payload length on data pipes `N` = 0-5.
#[derive(Clone, Copy, Debug, PartialEq, Eq, Structural)]
pub struct Dynpd(u8);

impl View for Dynpd {
    type V = u8;

    /// The byte that the register holds.
    closed spec fn view(&self) -> u8 {
        self.0
    }
}

impl Dynpd {
    /// Creates a new default initialized bitfield: every field at its default
    /// value, every other bit clear.
    pub fn new() -> (reg: Self)
        ensures
            reg@ == 0b0000_0000,
    {
        Self(0)
    }

    /// Convert from bits. The byte is stored as it is.
    pub fn from_bits(bits: u8) -> (reg: Self)
        ensures
            reg@ == bits,
            reg == Self::spec_from_bits(bits),
    {
        Self(bits)
    }

    /// Convert into bits. The byte comes back as it was stored.
    pub fn into_bits(self) -> (bits: u8)
        ensures
            bits == self@,
    {
        self.0
    }

    /// What `dpl_p5` reads: bit 5 of the register.
    pub open spec fn spec_dpl_p5(self) -> bool {
        flag_value(self@, 5)
    }

    /// Enable dynamic payload length for data pipe 5.
    /// Requires `en_dpl` in [`Feature`] and `enaa_p5` in [`EnAa`].
    ///
    /// Bit 5.
    pub fn dpl_p5(&self) -> (on: bool)
        ensures
            on == self.spec_dpl_p5(),
    {
        get_flag(self.0, 5)
    }

    /// Returns the register with `dpl_p5` set to `value` and every other bit as it was.
    ///
    /// Bit 5.
    pub fn with_dpl_p5(self, value: bool) -> (reg: Self)
        ensures
            reg@ == flag_replaced(self@, 5, value),
            reg.spec_dpl_p5() == value,
            same_outside(self@, reg@, 5, 1),
    {
        Self(set_flag(self.0, 5, value))
    }

    /// Sets `dpl_p5` to `value` and leaves every other bit as it was.
    ///
    /// Bit 5.
    pub fn set_dpl_p5(&mut self, value: bool)
        ensures
            final(self)@ == flag_replaced(old(self)@, 5, value),
            final(self).spec_dpl_p5() == value,
            same_outside(old(self)@, final(self)@, 5, 1),
    {
        self.0 = set_flag(self.0, 5, value);
    }

    /// What `dpl_p4` reads: bit 4 of the register.
    pub open spec fn spec_dpl_p4(self) -> bool {
        flag_value(self@, 4)
    }

    /// Enable dynamic payload length for data pipe 4.
    /// Requires `en_dpl` in [`Feature`] and `enaa_p4` in [`EnAa`].
    ///
    /// Bit 4.
    pub fn dpl_p4(&self) -> (on: bool)
        ensures
            on == self.spec_dpl_p4(),
    {
        get_flag(self.0, 4)
    }

    /// Returns the register with `dpl_p4` set to `value` and every other bit as it was.
    ///
    /// Bit 4.
    pub fn with_dpl_p4(self, value: bool) -> (reg: Self)
        ensures
            reg@ == flag_replaced(self@, 4, value),
            reg.spec_dpl_p4() == value,
            same_outside(self@, reg@, 4, 1),
    {
        Self(set_flag(self.0, 4, value))
    }

    /// Sets `dpl_p4` to `value` and leaves every other bit as it was.
    ///
    /// Bit 4.
    pub fn set_dpl_p4(&mut self, value: bool)
        ensures
            final(self)@ == flag_replaced(old(self)@, 4, value),
            final(self).spec_dpl_p4() == value,
            same_outside(old(self)@, final(self)@, 4, 1),
    {
        self.0 = set_flag(self.0, 4, value);
    }

    /// What `dpl_p3` reads: bit 3 of the register.
    pub open spec fn spec_dpl_p3(self) -> bool {
        flag_value(self@, 3)
    }

    /// Enable dynamic payload length for data pipe 3.
    /// Requires `en_dpl` in [`Feature`] and `enaa_p3` in [`EnAa`].
    ///
    /// Bit 3.
    pub fn dpl_p3(&self) -> (on: bool)
        ensures
            on == self.spec_dpl_p3(),
    {
        get_flag(self.0, 3)
    }

    /// Returns the register with `dpl_p3` set to `value` and every other bit as it was.
    ///
    /// Bit 3.
    pub fn with_dpl_p3(self, value: bool) -> (reg: Self)
        ensures
            reg@ == flag_replaced(self@, 3, value),
            reg.spec_dpl_p3() == value,
            same_outside(self@, reg@, 3, 1),
    {
        Self(set_flag(self.0, 3, value))
    }

    /// Sets `dpl_p3` to `value` and leaves every other bit as it was.
    ///
    /// Bit 3.
    pub fn set_dpl_p3(&mut self, value: bool)
        ensures
            final(self)@ == flag_replaced(old(self)@, 3, value),
            final(self).spec_dpl_p3() == value,
            same_outside(old(self)@, final(self)@, 3, 1),
    {
        self.0 = set_flag(self.0, 3, value);
    }

    /// What `dpl_p2` reads: bit 2 of the register.
    pub open spec fn spec_dpl_p2(self) -> bool {
        flag_value(self@, 2)
    }

    /// Enable dynamic payload length for data pipe 2.
    /// Requires `en_dpl` in [`Feature`] and `enaa_p2` in [`EnAa`].
    ///
    /// Bit 2.
    pub fn dpl_p2(&self) -> (on: bool)
        ensures
            on == self.spec_dpl_p2(),
    {
        get_flag(self.0, 2)
    }

    /// Returns the register with `dpl_p2` set to `value` and every other bit as it was.
    ///
    /// Bit 2.
    pub fn with_dpl_p2(self, value: bool) -> (reg: Self)
        ensures
            reg@ == flag_replaced(self@, 2, value),
            reg.spec_dpl_p2() == value,
            same_outside(self@, reg@, 2, 1),
    {
        Self(set_flag(self.0, 2, value))
    }

    /// Sets `dpl_p2` to `value` and leaves every other bit as it was.
    ///
    /// Bit 2.
    pub fn set_dpl_p2(&mut self, value: bool)
        ensures
            final(self)@ == flag_replaced(old(self)@, 2, value),
            final(self).spec_dpl_p2() == value,
            same_outside(old(self)@, final(self)@, 2, 1),
    {
        self.0 = set_flag(self.0, 2, value);
    }

    /// What `dpl_p1` reads: bit 1 of the register.
    pub open spec fn spec_dpl_p1(self) -> bool {
        flag_value(self@, 1)
    }

    /// Enable dynamic payload length for data pipe 1.
    /// Requires `en_dpl` in [`Feature`] and `enaa_p1` in [`EnAa`].
    ///
    /// Bit 1.
    pub fn dpl_p1(&self) -> (on: bool)
        ensures
            on == self.spec_dpl_p1(),
    {
        get_flag(self.0, 1)
    }

    /// Returns the register with `dpl_p1` set to `value` and every other bit as it was.
    ///
    /// Bit 1.
    pub fn with_dpl_p1(self, value: bool) -> (reg: Self)
        ensures
            reg@ == flag_replaced(self@, 1, value),
            reg.spec_dpl_p1() == value,
            same_outside(self@, reg@, 1, 1),
    {
        Self(set_flag(self.0, 1, value))
    }

    /// Sets `dpl_p1` to `value` and leaves every other bit as it was.
    ///
    /// Bit 1.
    pub fn set_dpl_p1(&mut self, value: bool)
        ensures
            final(self)@ == flag_replaced(old(self)@, 1, value),
            final(self).spec_dpl_p1() == value,
            same_outside(old(self)@, final(self)@, 1, 1),
    {
        self.0 = set_flag(self.0, 1, value);
    }

    /// What `dpl_p0` reads: bit 0 of the register.
    pub open spec fn spec_dpl_p0(self) -> bool {
        flag_value(self@, 0)
    }

    /// Enable dynamic payload length for data pipe 0.
    /// Requires `en_dpl` in [`Feature`] and `enaa_p0` in [`EnAa`].
    ///
    /// Bit 0.
    pub fn dpl_p0(&self) -> (on: bool)
        ensures
            on == self.spec_dpl_p0(),
    {
        get_flag(self.0, 0)
    }

    /// Returns the register with `dpl_p0` set to `value` and every other bit as it was.
    ///
    /// Bit 0.
    pub fn with_dpl_p0(self, value: bool) -> (reg: Self)
        ensures
            reg@ == flag_replaced(self@, 0, value),
            reg.spec_dpl_p0() == value,
            same_outside(self@, reg@, 0, 1),
    {
        Self(set_flag(self.0, 0, value))
    }

    /// Sets `dpl_p0` to `value` and leaves every other bit as it was.
    ///
    /// Bit 0.
    pub fn set_dpl_p0(&mut self, value: bool)
        ensures
            final(self)@ == flag_replaced(old(self)@, 0, value),
            final(self).spec_dpl_p0() == value,
            same_outside(old(self)@, final(self)@, 0, 1),
    {
        self.0 = set_flag(self.0, 0, value);
    }
}

impl Register for Dynpd {
    const ADDRESS: u8 = 0x1C;

    open spec fn spec_address() -> u8 {
        0x1C
    }

    closed spec fn spec_from_bits(bits: u8) -> Self {
        Dynpd(bits)
    }

    open spec fn spec_into_bits(self) -> u8 {
        self@
    }

    fn into_bits(self) -> (bits: u8) {
        self.0
    }

    proof fn lemma_address() {
    }

    proof fn lemma_into_from(bits: u8) {
    }

    proof fn lemma_from_into(self) {
    }
}

impl Default for Dynpd {
    fn default() -> (reg: Self)
        ensures
            reg@ == 0b0000_0000,
    {
        Self::new()
    }
}

/// # FEATURE register
/// Enable features _Dynamic Payload Length_, _Payload with ACK_ and `W_TX_PAYLOAD_NO_ACK` command.
///
/// Address = `0x01D`
///
/// Default value = `0b0000_0000`
///
/// ## Fields
/// #### `en_dpl` | bit 2
/// Enables _Dynamic Payload Length_.
///
/// #### `en_ack_pay` | bit 1
/// Enables _Payload with ACK_.
///
/// #### `en_dyn_ack` | bit 0
/// Enables `W_TX_PAYLOAD_NO_ACK` command.
#[derive(Clone, Copy, Debug, PartialEq, Eq, Structural)]
pub struct Feature(u8);

impl View for Feature {
    type V = u8;

    /// The byte that the register holds.
    closed spec fn view(&self) -> u8 {
        self.0
    }
}

impl Feature {
    /// Creates a new default initialized bitfield: every field at its default
    /// value, every other bit clear.
    pub fn new() -> (reg: Self)
        ensures
            reg@ == 0b0000_0000,
    {
        Self(0)
    }

    /// Convert from bits. The byte is stored as it is.
    pub fn from_bits(bits: u8) -> (reg: Self)
        ensures
            reg@ == bits,
            reg == Self::spec_from_bits(bits),
    {
        Self(bits)
    }

    /// Convert into bits. The byte comes back as it was stored.
    pub fn into_bits(self) -> (bits: u8)
        ensures
            bits == self@,
    {
        self.0
    }

    /// What `en_dpl` reads: bit 2 of the register.
    pub open spec fn spec_en_dpl(self) -> bool {
        flag_value(self@, 2)
    }

    /// Enables _Dynamic Payload Length_.
    ///
    /// Bit 2.
    pub fn en_dpl(&self) -> (on: bool)
        ensures
            on == self.spec_en_dpl(),
    {
        get_flag(self.0, 2)
    }

    /// Returns the register with `en_dpl` set to `value` and every other bit as it was.
    ///
    /// Bit 2.
    pub fn with_en_dpl(self, value: bool) -> (reg: Self)
        ensures
            reg@ == flag_replaced(self@, 2, value),
            reg.spec_en_dpl() == value,
            same_outside(self@, reg@, 2, 1),
    {
        Self(set_flag(self.0, 2, value))
    }

    /// Sets `en_dpl` to `value` and leaves every other bit as it was.
    ///
    /// Bit 2.
    pub fn set_en_dpl(&mut self, value: bool)
        ensures
            final(self)@ == flag_replaced(old(self)@, 2, value),
            final(self).spec_en_dpl() == value,
            same_outside(old(self)@, final(self)@, 2, 1),
    {
        self.0 = set_flag(self.0, 2, value);
    }

    /// What `en_ack_pay` reads: bit 1 of the register.
    pub open spec fn spec_en_ack_pay(self) -> bool {
        flag_value(self@, 1)
    }

    /// Enables _Payload with ACK_.
    ///
    /// Bit 1.
    pub fn en_ack_pay(&self) -> (on: bool)
        ensures
            on == self.spec_en_ack_pay(),
    {
        get_flag(self.0, 1)
    }

    /// Returns the register with `en_ack_pay` set to `value` and every other bit as it was.
    ///
    /// Bit 1.
    pub fn with_en_ack_pay(self, value: bool) -> (reg: Self)
        ensures
            reg@ == flag_replaced(self@, 1, value),
            reg.spec_en_ack_pay() == value,
            same_outside(self@, reg@, 1, 1),
    {
        Self(set_flag(self.0, 1, value))
    }

    /// Sets `en_ack_pay` to `value` and leaves every other bit as it was.
    ///
    /// Bit 1.
    pub fn set_en_ack_pay(&mut self, value: bool)
        ensures
            final(self)@ == flag_replaced(old(self)@, 1, value),
            final(self).spec_en_ack_pay() == value,
            same_outside(old(self)@, final(self)@, 1, 1),
    {
        self.0 = set_flag(self.0, 1, value);
    }

    /// What `en_dyn_ack` reads: bit 0 of the register.
    pub open spec fn spec_en_dyn_ack(self) -> bool {
        flag_value(self@, 0)
    }

    /// Enables 'W_TX_PAYLOAD_NO_ACK' command.
    ///
    /// Bit 0.
    pub fn en_dyn_ack(&self) -> (on: bool)
        ensures
            on == self.spec_en_dyn_ack(),
    {
        get_flag(self.0, 0)
    }

    /// Returns the register with `en_dyn_ack` set to `value` and every other bit as it was.
    ///
    /// Bit 0.
    pub fn with_en_dyn_ack(self, value: bool) -> (reg: Self)
        ensures
            reg@ == flag_replaced(self@, 0, value),
            reg.spec_en_dyn_ack() == value,
            same_outside(self@, reg@, 0, 1),
    {
        Self(set_flag(self.0, 0, value))
    }

    /// Sets `en_dyn_ack` to `value` and leaves every other bit as it was.
    ///
    /// Bit 0.
    pub fn set_en_dyn_ack(&mut self, value: bool)
        ensures
            final(self)@ == flag_replaced(old(self)@, 0, value),
            final(self).spec_en_dyn_ack() == value,
            same_outside(old(self)@, final(self)@, 0, 1),
    {
        self.0 = set_flag(self.0, 0, value);
    }
}

impl Register for Feature {
    const ADDRESS: u8 = 0x1D;

    open spec fn spec_address() -> u8 {
        0x1D
    }

    closed spec fn spec_from_bits(bits: u8) -> Self {
        Feature(bits)
    }

    open spec fn spec_into_bits(self) -> u8 {
        self@
    }

    fn into_bits(self) -> (bits: u8) {
        self.0
    }

    proof fn lemma_address() {
    }

    proof fn lemma_into_from(bits: u8) {
    }

    proof fn lemma_from_into(self) {
    }
}

impl Default for Feature {
    fn default() -> (reg: Self)
        ensures
            reg@ == 0b0000_0000,
    {
        Self::new()
    }
}

} // verus!
