//! Generate SPI byte sequences for nRF24L01+ commands.
//!
//! A command goes over the bus as one command word followed by its data
//! bytes. The command word is the command's fixed pattern, with a register
//! address or a pipe number in its low bits where the command takes one. A
//! command that reads sends one zero byte for each byte it expects back: the
//! device answers while those bytes are clocked out, and the caller finds the
//! answer in the bytes received during the same transfer.
//!
//! ## Payload byte order
//! Payload bytes go over the bus in the order in which the caller supplied
//! them, first element first; see [`payload_on_wire`].
//!
//! ## Example with writing the [`CONFIG`][crate::registers::Config] register
//! ```rust
//! use nrf24l01_commands::{commands, fields, registers};
//!
//! let config = registers::Config::new()
//!     .with_mask_rx_dr(true)
//!     .with_en_crc(false)
//!     .with_crco(fields::Crco::TwoByte)
//!     .with_pwr_up(true);
//! let write_command = commands::WRegister(config);
//! let spi_bytes = write_command.bytes();
//! assert_eq!(spi_bytes, [0b0010_0000, 0b0100_0110]);
//! ```
use crate::registers::{
    le_bytes, AddressRegister, Register, RxAddrP0, RxAddrP1, TxAddr, WireWidth,
};
use core::marker::PhantomData;
use vstd::prelude::*;

verus! {

/// A trait for nRF24L01+ commands. Defines the command's _command word_.
pub trait Command {
    /// Command word.
    const WORD: u8;

    /// The value of [`WORD`](Command::WORD), for use in contracts.
    spec fn spec_word() -> u8;

    /// The command word is what `spec_word` says.
    proof fn lemma_word()
        ensures
            Self::WORD == Self::spec_word(),
    ;
}

/// Why a command cannot be put on the wire.
#[derive(Clone, Copy, Debug, PartialEq, Eq, Structural)]
pub enum CommandError {
    /// The payload is not 1 to 32 bytes long.
    InvalidLength,
    /// The data pipe is not one of 0 to 5.
    InvalidPipe,
}

/// The shortest payload, in bytes.
pub const MIN_PAYLOAD_LEN: usize = 1;

/// The longest payload, in bytes.
pub const MAX_PAYLOAD_LEN: usize = 32;

/// The highest data pipe number.
pub const MAX_PIPE: u8 = 5;

/// The bytes of a command on the wire: the command word, then the data.
pub open spec fn frame(word: u8, data: Seq<u8>) -> Seq<u8> {
    seq![word] + data
}

/// `count` zero bytes: what a reading command sends while the device answers.
pub open spec fn zeros(count: nat) -> Seq<u8> {
    Seq::new(count, |i: int| 0u8)
}

/// The order in which payload bytes go over the wire: as supplied, first
/// element first. The bytes are not reversed.
pub open spec fn payload_on_wire(payload: Seq<u8>) -> Seq<u8> {
    payload
}

/// A payload is 1 to 32 bytes long.
pub open spec fn valid_payload_len(len: nat) -> bool {
    MIN_PAYLOAD_LEN <= len <= MAX_PAYLOAD_LEN
}

/// The device has data pipes 0 to 5.
pub open spec fn valid_pipe(pipe: u8) -> bool {
    pipe <= MAX_PIPE
}

/// A command word that carries a register address holds the address in its
/// low five bits and the command in its high three: the two do not mix, and
/// putting them together is the same as adding them.
pub proof fn lemma_word_with_address(word: u8, address: u8)
    by (bit_vector)
    requires
        word & 0b0001_1111 == 0,
        address <= 0b0001_1111,
    ensures
        (word | address) & 0b0001_1111 == address,
        (word | address) & 0b1110_0000 == word,
        word | address == word + address,
{
}

/// The command word of W_ACK_PAYLOAD holds the pipe number in its low three
/// bits and the command in its high five.
pub proof fn lemma_word_with_pipe(word: u8, pipe: u8)
    by (bit_vector)
    requires
        word & 0b0000_0111 == 0,
        pipe <= 0b0000_0111,
    ensures
        (word | pipe) & 0b0000_0111 == pipe,
        (word | pipe) & 0b1111_1000 == word,
        word | pipe == word + pipe,
{
}

proof fn lemma_words()
    by (bit_vector)
    ensures
        0b0000_0000u8 & 0b0001_1111 == 0,
        0b0010_0000u8 & 0b0001_1111 == 0,
        0b1010_1000u8 & 0b0000_0111 == 0,
{
}

/// # R_REGISTER command
/// Read a register.
///
/// #### Type Parameter `R`
/// Register type.
///
/// ## Example
/// ```rust
/// use nrf24l01_commands::{registers, commands};
///
/// // Generate SPI byte sequence for R_REGISTER on FIFO_STATUS register.
/// let bytes = commands::RRegister::<registers::FifoStatus>::bytes();
/// assert_eq!(bytes, [0 | 0x17, 0]);
/// ```
pub struct RRegister<R>(PhantomData<R>);

/// # W_REGISTER command
/// Write a register.
///
/// ## Example
/// ```rust
/// use nrf24l01_commands::{registers, registers::AddressRegister, commands};
///
/// // Generate SPI byte sequence for W_REGISTER on RF_CH register.
/// let rf_ch = registers::RfCh::new().with_rf_ch(85);
/// let bytes = commands::WRegister(rf_ch).bytes();
/// assert_eq!(bytes, [0b0010_0000 | 0x05, 85]);
///
/// // Generate SPI byte sequence for W_REGISTER on TX_ADDR register.
/// let tx_addr = registers::TxAddr::<5>::new().with_tx_addr(0x61DE7C320B);
/// let bytes = commands::WRegister(tx_addr).bytes();
/// assert_eq!(bytes, [0b0010_0000 | 0x10, 0x0B, 0x32, 0x7C, 0xDE, 0x61]);
/// ```
pub struct WRegister<R>(
    /// Register to write.
    pub R,
);

/// # R_RX_PAYLOAD command
/// Read RX payload.
///
/// #### Const Parameter `N`
/// Width of RX payload. Must be 1 to 32 bytes.
///
/// ## Example
/// ```rust
/// use nrf24l01_commands::commands;
///
/// // Generate SPI byte sequence for R_RX_PAYLOAD with 17 byte payload.
/// let bytes = commands::RRxPayload::<17>::bytes().unwrap();
/// let mut expected_bytes = [0; 18];
/// expected_bytes[0] = 0b0110_0001;
/// assert_eq!(bytes, expected_bytes);
/// ```
pub struct RRxPayload<const N: usize>();

/// # W_TX_PAYLOAD command
/// Write TX payload. The payload bytes are sent in the order given.
///
/// ## Example
/// ```rust
/// use nrf24l01_commands::commands;
///
/// let payload = [1, 2, 3, 4, 5, 6, 7, 8, 9];
/// let bytes = commands::WTxPayload(payload).bytes().unwrap();
/// assert_eq!(bytes, [0b1010_0000, 1, 2, 3, 4, 5, 6, 7, 8, 9]);
/// ```
pub struct WTxPayload<const N: usize>(
    /// Payload to write. Must be 1 to 32 bytes.
    pub [u8; N],
);

/// # FLUSH_TX command
/// Flush TX FIFO. Used in TX mode.
///
/// ## Example
/// ```rust
/// use nrf24l01_commands::commands::{self, Command};
///
/// assert_eq!(commands::FlushTx::WORD, 0b1110_0001);
/// assert_eq!(commands::FlushTx::bytes(), [0b1110_0001]);
/// ```
pub struct FlushTx();

/// # FLUSH_RX command
/// Flush RX FIFO. Used in RX mode.
///
/// ## Example
/// ```rust
/// use nrf24l01_commands::commands::{self, Command};
///
/// assert_eq!(commands::FlushRx::WORD, 0b1110_0010);
/// assert_eq!(commands::FlushRx::bytes(), [0b1110_0010]);
/// ```
pub struct FlushRx();

/// # REUSE_TX_PL command
/// Reuse last transmitted payload. Packets are repeatedly transmitted as long
/// as CE is high. TX payload reuse is active until [`W_TX_PAYLOAD`][WTxPayload]
/// or [`FLUSH_TX`][FlushTx] is executed.
///
/// ## Example
/// ```rust
/// use nrf24l01_commands::commands::{self, Command};
///
/// assert_eq!(commands::ReuseTxPl::WORD, 0b1110_0011);
/// assert_eq!(commands::ReuseTxPl::bytes(), [0b1110_0011]);
/// ```
pub struct ReuseTxPl();

/// # ACTIVATE command
/// Switches the R_RX_PL_WID, W_ACK_PAYLOAD and W_TX_PAYLOAD_NOACK commands
/// and the registers behind them on or off. The command word is always
/// followed by the one data byte `0x73`.
///
/// ## Example
/// ```rust
/// use nrf24l01_commands::commands;
///
/// assert_eq!(commands::Activate::bytes(), [0b0101_0000, 0x73]);
/// ```
pub struct Activate();

/// # R_RX_PL_WID command
/// Read RX payload width for the top payload in RX FIFO.
///
/// ## Example
/// ```rust
/// use nrf24l01_commands::commands;
///
/// let bytes = commands::RRxPlWid::bytes();
/// assert_eq!(bytes, [0b0110_0000, 0]);
/// ```
pub struct RRxPlWid();

/// # W_ACK_PAYLOAD command
/// Write payload to be transmitted with ACK packet on a data
/// [`pipe`][WAckPayload::pipe]. Used in RX mode. Maximum three ACK packet
/// payloads can be pending. Payloads with the same [`pipe`][WAckPayload::pipe]
/// are handled first-in-first-out. The payload bytes are sent in the order
/// given.
///
/// ## Example
/// ```rust
/// use nrf24l01_commands::commands;
///
/// let pipe = 4;
/// let payload = [1, 2, 3, 4, 5, 6, 7, 8, 9];
/// let bytes = commands::WAckPayload { pipe, payload }.bytes().unwrap();
/// assert_eq!(bytes, [0b1010_1000 | pipe, 1, 2, 3, 4, 5, 6, 7, 8, 9]);
/// ```
pub struct WAckPayload<const N: usize> {
    /// Data pipe this ACK payload is designated to. Must be 0 to 5.
    pub pipe: u8,
    /// Payload to send with ACK. Must be 1 to 32 bytes.
    pub payload: [u8; N],
}

/// # W_TX_PAYLOAD_NOACK command
/// Write TX payload with AUTOACK disabled. The payload bytes are sent in the
/// order given.
///
/// ## Example
/// ```rust
/// use nrf24l01_commands::commands;
///
/// let payload = [1, 2, 3, 4, 5, 6, 7, 8, 9];
/// let bytes = commands::WTxPayloadNoack(payload).bytes().unwrap();
/// assert_eq!(bytes, [0b1011_0000, 1, 2, 3, 4, 5, 6, 7, 8, 9]);
/// ```
pub struct WTxPayloadNoack<const N: usize>(
    /// Payload to write. Must be 1 to 32 bytes.
    pub [u8; N],
);

/// # NOP command
/// No operation. Used to read the status register.
///
/// ## Example
/// ```rust
/// use nrf24l01_commands::commands::{self, Command};
///
/// assert_eq!(commands::Nop::WORD, 0xFF);
/// assert_eq!(commands::Nop::bytes(), [0xFF]);
/// ```
pub struct Nop();

impl<R> Command for RRegister<R> {
    const WORD: u8 = 0b0000_0000;

    open spec fn spec_word() -> u8 {
        0b0000_0000
    }

    proof fn lemma_word() {
    }
}

impl<R> Command for WRegister<R> {
    const WORD: u8 = 0b0010_0000;

    open spec fn spec_word() -> u8 {
        0b0010_0000
    }

    proof fn lemma_word() {
    }
}

impl<const N: usize> Command for RRxPayload<N> {
    const WORD: u8 = 0b0110_0001;

    open spec fn spec_word() -> u8 {
        0b0110_0001
    }

    proof fn lemma_word() {
    }
}

impl<const N: usize> Command for WTxPayload<N> {
    const WORD: u8 = 0b1010_0000;

    open spec fn spec_word() -> u8 {
        0b1010_0000
    }

    proof fn lemma_word() {
    }
}

impl Command for FlushTx {
    const WORD: u8 = 0b1110_0001;

    open spec fn spec_word() -> u8 {
        0b1110_0001
    }

    proof fn lemma_word() {
    }
}

impl Command for FlushRx {
    const WORD: u8 = 0b1110_0010;

    open spec fn spec_word() -> u8 {
        0b1110_0010
    }

    proof fn lemma_word() {
    }
}

impl Command for ReuseTxPl {
    const WORD: u8 = 0b1110_0011;

    open spec fn spec_word() -> u8 {
        0b1110_0011
    }

    proof fn lemma_word() {
    }
}

impl Command for Activate {
    const WORD: u8 = 0b0101_0000;

    open spec fn spec_word() -> u8 {
        0b0101_0000
    }

    proof fn lemma_word() {
    }
}

impl Command for RRxPlWid {
    const WORD: u8 = 0b0110_0000;

    open spec fn spec_word() -> u8 {
        0b0110_0000
    }

    proof fn lemma_word() {
    }
}

impl<const N: usize> Command for WAckPayload<N> {
    const WORD: u8 = 0b1010_1000;

    open spec fn spec_word() -> u8 {
        0b1010_1000
    }

    proof fn lemma_word() {
    }
}

impl<const N: usize> Command for WTxPayloadNoack<N> {
    const WORD: u8 = 0b1011_0000;

    open spec fn spec_word() -> u8 {
        0b1011_0000
    }

    proof fn lemma_word() {
    }
}

impl Command for Nop {
    const WORD: u8 = 0b1111_1111;

    open spec fn spec_word() -> u8 {
        0b1111_1111
    }

    proof fn lemma_word() {
    }
}

/// The command word followed by `count` zero bytes.
fn concat_word_zeros(word: u8, count: usize) -> (bytes: Vec<u8>)
    ensures
        bytes@ == frame(word, zeros(count as nat)),
{
    let mut bytes: Vec<u8> = Vec::new();
    bytes.push(word);
    let mut i: usize = 0;
    while i < count
        invariant
            i <= count,
            bytes@ == frame(word, zeros(i as nat)),
        decreases count - i,
    {
        bytes.push(0);
        i += 1;
        assert(bytes@ =~= frame(word, zeros(i as nat)));
    }
    bytes
}

/// Concatenate the command word and address bytes into a byte sequence.
fn concat_word_addr<const N: usize>(word: u8, addr: [u8; N]) -> (bytes: Vec<u8>)
    ensures
        bytes@ == frame(word, addr@),
{
    let mut bytes: Vec<u8> = Vec::new();
    bytes.push(word);
    // Addr is already in little-endian byte-order
    let mut i: usize = 0;
    while i < N
        invariant
            i <= N,
            addr@.len() == N,
            bytes@ == frame(word, addr@.take(i as int)),
        decreases N - i,
    {
        bytes.push(addr[i]);
        i += 1;
        assert(bytes@ =~= frame(word, addr@.take(i as int)));
    }
    assert(addr@.take(N as int) =~= addr@);
    bytes
}

/// Concatenate the command word and payload bytes into a byte sequence. The
/// payload keeps its order.
fn concat_word_payload<const N: usize>(word: u8, payload: [u8; N]) -> (bytes: Vec<u8>)
    ensures
        bytes@ == frame(word, payload_on_wire(payload@)),
{
    let mut bytes: Vec<u8> = Vec::new();
    bytes.push(word);
    let mut i: usize = 0;
    while i < N
        invariant
            i <= N,
            payload@.len() == N,
            bytes@ == frame(word, payload@.take(i as int)),
        decreases N - i,
    {
        bytes.push(payload[i]);
        i += 1;
        assert(bytes@ =~= frame(word, payload@.take(i as int)));
    }
    assert(payload@.take(N as int) =~= payload@);
    bytes
}

impl<R: Register> RRegister<R> {
    /// Get the command's _command word_: the address of the register.
    pub fn word() -> (word: u8)
        ensures
            word == Self::spec_word() | R::spec_address(),
            word == R::spec_address(),
    {
        proof {
            R::lemma_address();
            lemma_words();
            lemma_word_with_address(Self::WORD, R::ADDRESS);
        }
        Self::WORD | R::ADDRESS
    }

    /// Generate the command's SPI byte sequence: the command word and one
    /// zero byte, in whose place the register's byte comes back.
    pub fn bytes() -> (bytes: [u8; 2])
        ensures
            bytes@ == frame(Self::spec_word() | R::spec_address(), zeros(1)),
            bytes@ == seq![R::spec_address(), 0u8],
    {
        let bytes = [Self::word(), 0];
        assert(bytes@ =~= frame(Self::spec_word() | R::spec_address(), zeros(1)));
        assert(bytes@ =~= seq![R::spec_address(), 0u8]);
        bytes
    }
}

impl<const N: usize> RRegister<RxAddrP0<N>> where [u8; N]: WireWidth<N> {
    /// Get the command's _command word_: the address of the register.
    pub fn word() -> (word: u8)
        ensures
            word == Self::spec_word() | <RxAddrP0<N> as AddressRegister<N>>::spec_address(),
            word == 0x0A,
    {
        proof {
            <RxAddrP0<N> as AddressRegister<N>>::lemma_address();
            lemma_words();
            lemma_word_with_address(Self::WORD, <RxAddrP0<N> as AddressRegister<N>>::ADDRESS);
        }
        Self::WORD | <RxAddrP0<N> as AddressRegister<N>>::ADDRESS
    }

    /// Generate the command's SPI byte sequence: the command word and `N`
    /// zero bytes, in whose place the address comes back, least significant
    /// byte first.
    pub fn bytes() -> (bytes: Vec<u8>)
        ensures
            bytes@ == frame(0x0A, zeros(N as nat)),
    {
        concat_word_zeros(Self::word(), N)
    }
}

impl<const N: usize> RRegister<RxAddrP1<N>> where [u8; N]: WireWidth<N> {
    /// Get the command's _command word_: the address of the register.
    pub fn word() -> (word: u8)
        ensures
            word == Self::spec_word() | <RxAddrP1<N> as AddressRegister<N>>::spec_address(),
            word == 0x0B,
    {
        proof {
            <RxAddrP1<N> as AddressRegister<N>>::lemma_address();
            lemma_words();
            lemma_word_with_address(Self::WORD, <RxAddrP1<N> as AddressRegister<N>>::ADDRESS);
        }
        Self::WORD | <RxAddrP1<N> as AddressRegister<N>>::ADDRESS
    }

    /// Generate the command's SPI byte sequence: the command word and `N`
    /// zero bytes, in whose place the address comes back, least significant
    /// byte first.
    pub fn bytes() -> (bytes: Vec<u8>)
        ensures
            bytes@ == frame(0x0B, zeros(N as nat)),
    {
        concat_word_zeros(Self::word(), N)
    }
}

impl<const N: usize> RRegister<TxAddr<N>> where [u8; N]: WireWidth<N> {
    /// Get the command's _command word_: the address of the register.
    pub fn word() -> (word: u8)
        ensures
            word == Self::spec_word() | <TxAddr<N> as AddressRegister<N>>::spec_address(),
            word == 0x10,
    {
        proof {
            <TxAddr<N> as AddressRegister<N>>::lemma_address();
            lemma_words();
            lemma_word_with_address(Self::WORD, <TxAddr<N> as AddressRegister<N>>::ADDRESS);
        }
        Self::WORD | <TxAddr<N> as AddressRegister<N>>::ADDRESS
    }

    /// Generate the command's SPI byte sequence: the command word and `N`
    /// zero bytes, in whose place the address comes back, least significant
    /// byte first.
    pub fn bytes() -> (bytes: Vec<u8>)
        ensures
            bytes@ == frame(0x10, zeros(N as nat)),
    {
        concat_word_zeros(Self::word(), N)
    }
}

impl<R: Register> WRegister<R> {
    /// Get the command's _command word_: the command's pattern with the
    /// address of the register in the low five bits.
    pub fn word() -> (word: u8)
        ensures
            word == Self::spec_word() | R::spec_address(),
            word == Self::spec_word() + R::spec_address(),
    {
        proof {
            R::lemma_address();
            lemma_words();
            lemma_word_with_address(Self::WORD, R::ADDRESS);
        }
        Self::WORD | R::ADDRESS
    }

    /// Generate the command's SPI byte sequence: the command word and the
    /// register's byte.
    pub fn bytes(&self) -> (bytes: [u8; 2])
        ensures
            bytes@ == frame(Self::spec_word() | R::spec_address(), seq![self.0.spec_into_bits()]),
            bytes@ == seq![(Self::spec_word() + R::spec_address()) as u8, self.0.spec_into_bits()],
    {
        let bytes = [Self::word(), self.0.into_bits()];
        assert(bytes@ =~= frame(
            Self::spec_word() | R::spec_address(),
            seq![self.0.spec_into_bits()],
        ));
        assert(bytes@ =~= seq![
            (Self::spec_word() + R::spec_address()) as u8,
            self.0.spec_into_bits(),
        ]);
        bytes
    }
}

impl<const N: usize> WRegister<RxAddrP0<N>> where [u8; N]: WireWidth<N> {
    /// Get the command's _command word_: the command's pattern with the
    /// address of the register in the low five bits.
    pub fn word() -> (word: u8)
        ensures
            word == Self::spec_word() | <RxAddrP0<N> as AddressRegister<N>>::spec_address(),
            word == 0x2A,
    {
        proof {
            <RxAddrP0<N> as AddressRegister<N>>::lemma_address();
            lemma_words();
            lemma_word_with_address(Self::WORD, <RxAddrP0<N> as AddressRegister<N>>::ADDRESS);
        }
        Self::WORD | <RxAddrP0<N> as AddressRegister<N>>::ADDRESS
    }

    /// Generate the command's SPI byte sequence: the command word and the
    /// `N` low-order bytes of the address, least significant byte first.
    pub fn bytes(&self) -> (bytes: Vec<u8>)
        ensures
            bytes@ == frame(0x2A, le_bytes(self.0@, N as nat)),
    {
        concat_word_addr(Self::word(), self.0.into_bytes())
    }
}

impl<const N: usize> WRegister<RxAddrP1<N>> where [u8; N]: WireWidth<N> {
    /// Get the command's _command word_: the command's pattern with the
    /// address of the register in the low five bits.
    pub fn word() -> (word: u8)
        ensures
            word == Self::spec_word() | <RxAddrP1<N> as AddressRegister<N>>::spec_address(),
            word == 0x2B,
    {
        proof {
            <RxAddrP1<N> as AddressRegister<N>>::lemma_address();
            lemma_words();
            lemma_word_with_address(Self::WORD, <RxAddrP1<N> as AddressRegister<N>>::ADDRESS);
        }
        Self::WORD | <RxAddrP1<N> as AddressRegister<N>>::ADDRESS
    }

    /// Generate the command's SPI byte sequence: the command word and the
    /// `N` low-order bytes of the address, least significant byte first.
    pub fn bytes(&self) -> (bytes: Vec<u8>)
        ensures
            bytes@ == frame(0x2B, le_bytes(self.0@, N as nat)),
    {
        concat_word_addr(Self::word(), self.0.into_bytes())
    }
}

impl<const N: usize> WRegister<TxAddr<N>> where [u8; N]: WireWidth<N> {
    /// Get the command's _command word_: the command's pattern with the
    /// address of the register in the low five bits.
    pub fn word() -> (word: u8)
        ensures
            word == Self::spec_word() | <TxAddr<N> as AddressRegister<N>>::spec_address(),
            word == 0x30,
    {
        proof {
            <TxAddr<N> as AddressRegister<N>>::lemma_address();
            lemma_words();
            lemma_word_with_address(Self::WORD, <TxAddr<N> as AddressRegister<N>>::ADDRESS);
        }
        Self::WORD | <TxAddr<N> as AddressRegister<N>>::ADDRESS
    }

    /// Generate the command's SPI byte sequence: the command word and the
    /// `N` low-order bytes of the address, least significant byte first.
    pub fn bytes(&self) -> (bytes: Vec<u8>)
        ensures
            bytes@ == frame(0x30, le_bytes(self.0@, N as nat)),
    {
        concat_word_addr(Self::word(), self.0.into_bytes())
    }
}

impl<const N: usize> RRxPayload<N> {
    /// Generate the command's SPI byte sequence: the command word and `N`
    /// zero bytes, in whose place the payload comes back.
    ///
    /// Fails with [`CommandError::InvalidLength`] if `N` is not 1 to 32.
    pub fn bytes() -> (result: Result<Vec<u8>, CommandError>)
        ensures
            result is Ok <==> valid_payload_len(N as nat),
            result matches Ok(bytes) ==> bytes@ == frame(Self::spec_word(), zeros(N as nat)),
            result matches Err(error) ==> error == CommandError::InvalidLength,
    {
        if N < MIN_PAYLOAD_LEN || N > MAX_PAYLOAD_LEN {
            return Err(CommandError::InvalidLength);
        }
        Ok(concat_word_zeros(Self::WORD, N))
    }
}

impl<const N: usize> WTxPayload<N> {
    /// Generate the command's SPI byte sequence: the command word and the
    /// payload.
    ///
    /// Fails with [`CommandError::InvalidLength`] if the payload is not 1 to
    /// 32 bytes long.
    pub fn bytes(&self) -> (result: Result<Vec<u8>, CommandError>)
        ensures
            result is Ok <==> valid_payload_len(N as nat),
            result matches Ok(bytes) ==> bytes@ == frame(
                Self::spec_word(),
                payload_on_wire(self.0@),
            ),
            result matches Err(error) ==> error == CommandError::InvalidLength,
    {
        if N < MIN_PAYLOAD_LEN || N > MAX_PAYLOAD_LEN {
            return Err(CommandError::InvalidLength);
        }
        Ok(concat_word_payload(Self::WORD, self.0))
    }
}

impl FlushTx {
    /// Generate the command's SPI byte sequence.
    pub fn bytes() -> (bytes: [u8; 1])
        ensures
            bytes@ == seq![0b1110_0001u8],
    {
        let bytes = [Self::WORD];
        assert(bytes@ =~= seq![0b1110_0001u8]);
        bytes
    }
}

impl FlushRx {
    /// Generate the command's SPI byte sequence.
    pub fn bytes() -> (bytes: [u8; 1])
        ensures
            bytes@ == seq![0b1110_0010u8],
    {
        let bytes = [Self::WORD];
        assert(bytes@ =~= seq![0b1110_0010u8]);
        bytes
    }
}

impl ReuseTxPl {
    /// Generate the command's SPI byte sequence.
    pub fn bytes() -> (bytes: [u8; 1])
        ensures
            bytes@ == seq![0b1110_0011u8],
    {
        let bytes = [Self::WORD];
        assert(bytes@ =~= seq![0b1110_0011u8]);
        bytes
    }
}

impl Activate {
    /// The data byte that follows the command word.
    pub const DATA: u8 = 0x73;

    /// Generate the command's SPI byte sequence. The command takes no
    /// parameter: the sequence is always the same.
    pub fn bytes() -> (bytes: [u8; 2])
        ensures
            bytes@ == seq![0b0101_0000u8, 0x73u8],
    {
        let bytes = [Self::WORD, Self::DATA];
        assert(bytes@ =~= seq![0b0101_0000u8, 0x73u8]);
        bytes
    }
}

impl RRxPlWid {
    /// Generate the command's SPI byte sequence: the command word and one
    /// zero byte, in whose place the width comes back.
    pub fn bytes() -> (bytes: [u8; 2])
        ensures
            bytes@ == frame(0b0110_0000u8, zeros(1)),
            bytes@ == seq![0b0110_0000u8, 0u8],
    {
        let bytes = [Self::WORD, 0];
        assert(bytes@ =~= frame(0b0110_0000u8, zeros(1)));
        assert(bytes@ =~= seq![0b0110_0000u8, 0u8]);
        bytes
    }
}

impl<const N: usize> WAckPayload<N> {
    /// Generate the command's SPI byte sequence: the command word with the
    /// pipe number in its low three bits, and the payload.
    ///
    /// Fails with [`CommandError::InvalidLength`] if the payload is not 1 to
    /// 32 bytes long; else with [`CommandError::InvalidPipe`] if the pipe is
    /// not one of 0 to 5.
    pub fn bytes(&self) -> (result: Result<Vec<u8>, CommandError>)
        ensures
            result is Ok <==> valid_payload_len(N as nat) && valid_pipe(self.pipe),
            result matches Ok(bytes) ==> {
                &&& bytes@ == frame(Self::spec_word() | self.pipe, payload_on_wire(self.payload@))
                &&& bytes@[0] == Self::spec_word() + self.pipe
            },
            result matches Err(error) ==> error == if valid_payload_len(N as nat) {
                CommandError::InvalidPipe
            } else {
                CommandError::InvalidLength
            },
    {
        if N < MIN_PAYLOAD_LEN || N > MAX_PAYLOAD_LEN {
            return Err(CommandError::InvalidLength);
        }
        if self.pipe > MAX_PIPE {
            return Err(CommandError::InvalidPipe);
        }
        proof {
            lemma_words();
            lemma_word_with_pipe(Self::WORD, self.pipe);
        }
        Ok(concat_word_payload(Self::WORD | self.pipe, self.payload))
    }
}

impl<const N: usize> WTxPayloadNoack<N> {
    /// Generate the command's SPI byte sequence: the command word and the
    /// payload.
    ///
    /// Fails with [`CommandError::InvalidLength`] if the payload is not 1 to
    /// 32 bytes long.
    pub fn bytes(&self) -> (result: Result<Vec<u8>, CommandError>)
        ensures
            result is Ok <==> valid_payload_len(N as nat),
            result matches Ok(bytes) ==> bytes@ == frame(
                Self::spec_word(),
                payload_on_wire(self.0@),
            ),
            result matches Err(error) ==> error == CommandError::InvalidLength,
    {
        if N < MIN_PAYLOAD_LEN || N > MAX_PAYLOAD_LEN {
            return Err(CommandError::InvalidLength);
        }
        Ok(concat_word_payload(Self::WORD, self.0))
    }
}

impl Nop {
    /// Generate the command's SPI byte sequence.
    pub fn bytes() -> (bytes: [u8; 1])
        ensures
            bytes@ == seq![0b1111_1111u8],
    {
        let bytes = [Self::WORD];
        assert(bytes@ =~= seq![0b1111_1111u8]);
        bytes
    }
}

} // verus!
