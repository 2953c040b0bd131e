use nrf24l01_commands::commands::{
    Activate, Command, CommandError, FlushRx, FlushTx, Nop, RRegister, RRxPayload, RRxPlWid,
    ReuseTxPl, WAckPayload, WRegister, WTxPayload, WTxPayloadNoack,
};
use nrf24l01_commands::registers;
use nrf24l01_commands::registers::AddressRegister;

#[test]
fn test_read_address_registers() {
    let read_rx_addr_p0_bytes = RRegister::<registers::RxAddrP0<4>>::bytes();
    assert_eq!(read_rx_addr_p0_bytes, [0x0A, 0, 0, 0, 0]);

    let read_rx_addr_p1_bytes = RRegister::<registers::RxAddrP1<3>>::bytes();
    assert_eq!(read_rx_addr_p1_bytes, [0x0B, 0, 0, 0]);

    let read_tx_addr_bytes = RRegister::<registers::TxAddr<5>>::bytes();
    assert_eq!(read_tx_addr_bytes, [0x10, 0, 0, 0, 0, 0]);
}

#[test]
fn test_write_address_registers() {
    let rx_addr_p0: registers::RxAddrP0<5> =
        registers::RxAddrP0::<5>::new().with_rx_addr_p0(0x8106310AC0);
    let rx_addr_p0_bytes = WRegister(rx_addr_p0).bytes();
    assert_eq!(
        rx_addr_p0_bytes,
        [0b0010_0000 | 0x0A, 0xC0, 0x0A, 0x31, 0x06, 0x81]
    );

    let rx_addr_p1: registers::RxAddrP1<4> =
        registers::RxAddrP1::<4>::new().with_rx_addr_p1(0x605F4459BF);
    let rx_addr_p1_bytes = WRegister(rx_addr_p1).bytes();
    assert_eq!(
        rx_addr_p1_bytes,
        [0b0010_0000 | 0x0B, 0xBF, 0x59, 0x44, 0x5F]
    );

    let tx_addr: registers::TxAddr<3> = registers::TxAddr::<3>::new().with_tx_addr(0xFF32C8ED07);
    let tx_addr_bytes = WRegister(tx_addr).bytes();
    assert_eq!(tx_addr_bytes, [0b0010_0000 | 0x10, 0x07, 0xED, 0xC8]);
}

#[test]
fn command_words_match_the_opcode_table() {
    assert_eq!(RRegister::<registers::Config>::WORD, 0b0000_0000);
    assert_eq!(WRegister::<registers::Config>::WORD, 0b0010_0000);
    assert_eq!(RRxPayload::<1>::WORD, 0b0110_0001);
    assert_eq!(WTxPayload::<1>::WORD, 0b1010_0000);
    assert_eq!(FlushTx::WORD, 0b1110_0001);
    assert_eq!(FlushRx::WORD, 0b1110_0010);
    assert_eq!(ReuseTxPl::WORD, 0b1110_0011);
    assert_eq!(Activate::WORD, 0b0101_0000);
    assert_eq!(RRxPlWid::WORD, 0b0110_0000);
    assert_eq!(WAckPayload::<1>::WORD, 0b1010_1000);
    assert_eq!(WTxPayloadNoack::<1>::WORD, 0b1011_0000);
    assert_eq!(Nop::WORD, 0b1111_1111);
}

#[test]
fn write_register_rf_ch_channel_85() {
    let rf_ch = registers::RfCh::new().with_rf_ch(85);
    assert_eq!(WRegister(rf_ch).bytes(), [0x25, 85]);
    assert_eq!(WRegister::<registers::RfCh>::word(), 0x25);
}

#[test]
fn read_register_fifo_status() {
    assert_eq!(RRegister::<registers::FifoStatus>::bytes(), [0x17, 0x00]);
    assert_eq!(RRegister::<registers::FifoStatus>::word(), 0x17);
}

#[test]
fn write_register_config_example() {
    let config = registers::Config::new()
        .with_mask_rx_dr(true)
        .with_mask_tx_ds(false)
        .with_mask_max_rt(false)
        .with_en_crc(false)
        .with_crco(nrf24l01_commands::fields::Crco::TwoByte)
        .with_pwr_up(true)
        .with_prim_rx(false);
    assert_eq!(WRegister(config).bytes(), [0b0010_0000, 0b0100_0110]);
}

#[test]
fn register_command_words_carry_the_address() {
    assert_eq!(RRegister::<registers::Config>::word(), 0x00);
    assert_eq!(RRegister::<registers::EnAa>::word(), 0x01);
    assert_eq!(RRegister::<registers::EnRxaddr>::word(), 0x02);
    assert_eq!(RRegister::<registers::SetupAw>::word(), 0x03);
    assert_eq!(RRegister::<registers::SetupRetr>::word(), 0x04);
    assert_eq!(RRegister::<registers::RfCh>::word(), 0x05);
    assert_eq!(RRegister::<registers::RfSetup>::word(), 0x06);
    assert_eq!(RRegister::<registers::Status>::word(), 0x07);
    assert_eq!(RRegister::<registers::ObserveTx>::word(), 0x08);
    assert_eq!(RRegister::<registers::Rpd>::word(), 0x09);
    assert_eq!(RRegister::<registers::RxAddrP0<5>>::word(), 0x0A);
    assert_eq!(RRegister::<registers::RxAddrP1<5>>::word(), 0x0B);
    assert_eq!(RRegister::<registers::RxAddrP2>::word(), 0x0C);
    assert_eq!(RRegister::<registers::RxAddrP3>::word(), 0x0D);
    assert_eq!(RRegister::<registers::RxAddrP4>::word(), 0x0E);
    assert_eq!(RRegister::<registers::RxAddrP5>::word(), 0x0F);
    assert_eq!(RRegister::<registers::TxAddr<5>>::word(), 0x10);
    assert_eq!(RRegister::<registers::RxPwP0>::word(), 0x11);
    assert_eq!(RRegister::<registers::RxPwP1>::word(), 0x12);
    assert_eq!(RRegister::<registers::RxPwP2>::word(), 0x13);
    assert_eq!(RRegister::<registers::RxPwP3>::word(), 0x14);
    assert_eq!(RRegister::<registers::RxPwP4>::word(), 0x15);
    assert_eq!(RRegister::<registers::RxPwP5>::word(), 0x16);
    assert_eq!(RRegister::<registers::FifoStatus>::word(), 0x17);
    assert_eq!(RRegister::<registers::Dynpd>::word(), 0x1C);
    assert_eq!(RRegister::<registers::Feature>::word(), 0x1D);

    assert_eq!(WRegister::<registers::Config>::word(), 0x20);
    assert_eq!(WRegister::<registers::Status>::word(), 0x27);
    assert_eq!(WRegister::<registers::RxAddrP0<3>>::word(), 0x2A);
    assert_eq!(WRegister::<registers::RxAddrP1<4>>::word(), 0x2B);
    assert_eq!(WRegister::<registers::RxAddrP5>::word(), 0x2F);
    assert_eq!(WRegister::<registers::TxAddr<5>>::word(), 0x30);
    assert_eq!(WRegister::<registers::Dynpd>::word(), 0x3C);
    assert_eq!(WRegister::<registers::Feature>::word(), 0x3D);
}

#[test]
fn read_register_sends_one_zero_for_each_byte_read() {
    assert_eq!(RRegister::<registers::RxAddrP0<3>>::bytes(), [0x0A, 0, 0, 0]);
    assert_eq!(RRegister::<registers::RxAddrP0<5>>::bytes().len(), 6);
    assert_eq!(RRegister::<registers::RxAddrP1<5>>::bytes(), [0x0B, 0, 0, 0, 0, 0]);
    assert_eq!(RRegister::<registers::TxAddr<3>>::bytes(), [0x10, 0, 0, 0]);
    assert_eq!(RRegister::<registers::ObserveTx>::bytes(), [0x08, 0]);
}

#[test]
fn write_tx_addr_example() {
    let tx_addr = registers::TxAddr::<5>::new().with_tx_addr(0x61DE7C320B);
    assert_eq!(
        WRegister(tx_addr).bytes(),
        [0b0010_0000 | 0x10, 0x0B, 0x32, 0x7C, 0xDE, 0x61]
    );
}

#[test]
fn write_address_register_sends_only_the_low_bytes() {
    let reg = registers::RxAddrP0::<3>::new().with_rx_addr_p0(0x17E73A6C58);
    assert_eq!(WRegister(reg).bytes(), [0x2A, 0x58, 0x6C, 0x3A]);
    let reg = registers::RxAddrP1::<5>::from_bits(0xABCD_EF01_2345_6789);
    assert_eq!(WRegister(reg).bytes(), [0x2B, 0x89, 0x67, 0x45, 0x23, 0x01]);
}

#[test]
fn read_rx_payload_17() {
    let bytes = RRxPayload::<17>::bytes().unwrap();
    let mut expected_bytes = [0; 18];
    expected_bytes[0] = 0b0110_0001;
    assert_eq!(bytes, expected_bytes);
}

#[test]
fn read_rx_payload_accepts_1_to_32_bytes() {
    assert_eq!(RRxPayload::<1>::bytes(), Ok(vec![0x61, 0]));
    assert_eq!(RRxPayload::<32>::bytes().unwrap().len(), 33);
    assert_eq!(RRxPayload::<0>::bytes(), Err(CommandError::InvalidLength));
    assert_eq!(RRxPayload::<33>::bytes(), Err(CommandError::InvalidLength));
    assert_eq!(RRxPayload::<255>::bytes(), Err(CommandError::InvalidLength));
}

#[test]
fn write_tx_payload_example() {
    let payload = [1, 2, 3, 4, 5, 6, 7, 8, 9];
    let bytes = WTxPayload(payload).bytes().unwrap();
    assert_eq!(bytes, [0b1010_0000, 1, 2, 3, 4, 5, 6, 7, 8, 9]);
}

#[test]
fn write_tx_payload_accepts_1_to_32_bytes() {
    assert_eq!(WTxPayload([0xAB]).bytes(), Ok(vec![0xA0, 0xAB]));
    let mut longest = [0u8; 32];
    for (i, byte) in longest.iter_mut().enumerate() {
        *byte = i as u8 + 1;
    }
    let bytes = WTxPayload(longest).bytes().unwrap();
    assert_eq!(bytes.len(), 33);
    assert_eq!(bytes[0], 0xA0);
    assert_eq!(&bytes[1..], &longest[..]);
    let empty: [u8; 0] = [];
    assert_eq!(WTxPayload(empty).bytes(), Err(CommandError::InvalidLength));
    assert_eq!(WTxPayload([0u8; 33]).bytes(), Err(CommandError::InvalidLength));
}

#[test]
fn payload_bytes_keep_the_order_given() {
    let payload = [0x10, 0x20, 0x30, 0x40];
    assert_eq!(
        WTxPayload(payload).bytes().unwrap(),
        [0xA0, 0x10, 0x20, 0x30, 0x40]
    );
    assert_eq!(
        WTxPayloadNoack(payload).bytes().unwrap(),
        [0xB0, 0x10, 0x20, 0x30, 0x40]
    );
    assert_eq!(
        WAckPayload { pipe: 0, payload }.bytes().unwrap(),
        [0xA8, 0x10, 0x20, 0x30, 0x40]
    );
}

#[test]
fn write_ack_payload_pipe_4() {
    let pipe = 4;
    let payload = [1, 2, 3, 4, 5, 6, 7, 8, 9];
    let bytes = WAckPayload { pipe, payload }.bytes().unwrap();
    assert_eq!(bytes[0], 0xAC);
    assert_eq!(bytes, [0b1010_1000 | pipe, 1, 2, 3, 4, 5, 6, 7, 8, 9]);
}

#[test]
fn write_ack_payload_accepts_pipes_0_to_5() {
    for pipe in 0..=5u8 {
        let bytes = WAckPayload { pipe, payload: [7] }.bytes().unwrap();
        assert_eq!(bytes, [0xA8 + pipe, 7]);
    }
    for pipe in 6..=255u8 {
        assert_eq!(
            WAckPayload { pipe, payload: [7] }.bytes(),
            Err(CommandError::InvalidPipe)
        );
    }
}

#[test]
fn write_ack_payload_checks_the_length_first() {
    let empty: [u8; 0] = [];
    assert_eq!(
        WAckPayload { pipe: 0, payload: empty }.bytes(),
        Err(CommandError::InvalidLength)
    );
    assert_eq!(
        WAckPayload { pipe: 9, payload: empty }.bytes(),
        Err(CommandError::InvalidLength)
    );
    assert_eq!(
        WAckPayload { pipe: 9, payload: [0u8; 33] }.bytes(),
        Err(CommandError::InvalidLength)
    );
    assert_eq!(
        WAckPayload { pipe: 5, payload: [0u8; 32] }.bytes().unwrap().len(),
        33
    );
}

#[test]
fn write_tx_payload_noack_example() {
    let payload = [1, 2, 3, 4, 5, 6, 7, 8, 9];
    let bytes = WTxPayloadNoack(payload).bytes().unwrap();
    assert_eq!(bytes, [0b1011_0000, 1, 2, 3, 4, 5, 6, 7, 8, 9]);
    let empty: [u8; 0] = [];
    assert_eq!(WTxPayloadNoack(empty).bytes(), Err(CommandError::InvalidLength));
    assert_eq!(
        WTxPayloadNoack([0u8; 40]).bytes(),
        Err(CommandError::InvalidLength)
    );
}

#[test]
fn commands_without_data() {
    assert_eq!(FlushTx::bytes(), [0xE1]);
    assert_eq!(FlushRx::bytes(), [0xE2]);
    assert_eq!(ReuseTxPl::bytes(), [0xE3]);
    assert_eq!(Nop::bytes(), [0xFF]);
}

#[test]
fn activate_is_always_the_same_two_bytes() {
    assert_eq!(Activate::bytes(), [0x50, 0x73]);
    assert_eq!(Activate::bytes(), Activate::bytes());
    assert_eq!(Activate::DATA, 0x73);
}

#[test]
fn read_rx_payload_width() {
    assert_eq!(RRxPlWid::bytes(), [0b0110_0000, 0]);
}
