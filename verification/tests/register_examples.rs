use nrf24l01_commands::fields::{
    AddressWidth, AutoRetransmitDelay, Crco, RfDrHigh, RfPower, RxPipeNo,
};
use nrf24l01_commands::registers::{
    Config, Dynpd, EnAa, EnRxaddr, Feature, FifoStatus, ObserveTx, RfCh, RfSetup, Rpd, RxAddrP2,
    RxAddrP3, RxAddrP4, RxAddrP5, RxPwP0, RxPwP5, SetupAw, SetupRetr, Status,
};

#[test]
fn config_example() {
    let reg = Config::from_bits(0b0000_0110);
    assert!(!reg.mask_rx_dr());
    assert!(!reg.mask_tx_ds());
    assert!(!reg.mask_max_rt());
    assert!(!reg.en_crc());
    assert_eq!(reg.crco(), Crco::TwoByte);
    assert!(reg.pwr_up());
    assert!(!reg.prim_rx());

    let reg = Config::new()
        .with_mask_rx_dr(true)
        .with_mask_tx_ds(false)
        .with_mask_max_rt(false)
        .with_en_crc(false)
        .with_crco(Crco::TwoByte)
        .with_pwr_up(true)
        .with_prim_rx(false);
    assert_eq!(reg.into_bits(), 0b0100_0110);
}

#[test]
fn en_aa_example() {
    let reg = EnAa::new()
        .with_enaa_p5(true)
        .with_enaa_p4(true)
        .with_enaa_p3(false)
        .with_enaa_p2(false)
        .with_enaa_p1(false)
        .with_enaa_p0(false);
    assert_eq!(reg.into_bits(), 0b0011_0000);
}

#[test]
fn en_rxaddr_example() {
    let reg = EnRxaddr::new()
        .with_erx_p5(true)
        .with_erx_p4(false)
        .with_erx_p3(false)
        .with_erx_p2(false)
        .with_erx_p1(true)
        .with_erx_p0(false);
    assert_eq!(reg.into_bits(), 0b0010_0010);
}

#[test]
fn setup_aw_example() {
    assert_eq!(SetupAw::new().aw(), AddressWidth::FiveByte);
    let reg = SetupAw::new().with_aw(AddressWidth::FourByte);
    assert_eq!(reg.into_bits(), 0b0000_0010);
}

#[test]
fn setup_retr_example() {
    let reg = SetupRetr::new()
        .with_ard(AutoRetransmitDelay::US750)
        .with_arc(0b1111);
    assert_eq!(reg.into_bits(), 0b0010_1111);
    assert_eq!(reg.ard(), AutoRetransmitDelay::US750);
    assert_eq!(reg.arc(), 15);
}

#[test]
fn rf_ch_example() {
    let reg = RfCh::new().with_rf_ch(89);
    assert_eq!(reg.into_bits(), 89);
    assert_eq!(reg.rf_ch(), 89);
}

#[test]
fn rf_setup_example() {
    let reg = RfSetup::new();
    assert_eq!(reg.into_bits(), 0b0000_1110);
    assert_eq!(reg.rf_dr_high(), RfDrHigh::Mbps2);
    assert_eq!(reg.rf_pwr(), RfPower::Dbm0);

    let reg = RfSetup::new()
        .with_pll_lock(false)
        .with_rf_dr_low(true)
        .with_rf_dr_high(RfDrHigh::Mbps1)
        .with_rf_pwr(RfPower::Neg6Dbm);
    assert_eq!(reg.into_bits(), 0b0010_0100);
    assert_eq!(reg.rf_pwr(), RfPower::Neg6Dbm);
    assert_eq!(RfSetup::new().with_cont_wave(true).into_bits(), 0b1000_1110);
}

#[test]
fn status_example() {
    let reg = Status::from_bits(0b0011_0101);
    assert!(!reg.rx_dr());
    assert!(reg.tx_ds());
    assert!(reg.max_rt());
    assert_eq!(reg.rx_p_no(), RxPipeNo::Pipe2);
    assert!(reg.tx_full());

    let reg = Status::new()
        .with_rx_dr(false)
        .with_tx_ds(true)
        .with_max_rt(false);
    assert_eq!(reg.into_bits(), 0b0010_0000);
    assert_eq!(Status::from_bits(0b0000_1110).rx_p_no(), RxPipeNo::RxFifoEmpty);
}

#[test]
fn observe_tx_example() {
    let reg = ObserveTx::from_bits(0b1010_1100);
    assert_eq!(reg.plos_cnt(), 10);
    assert_eq!(reg.arc_cnt(), 12);
}

#[test]
fn rpd_example() {
    assert!(Rpd::from_bits(1).rpd());
    assert!(!Rpd::from_bits(0b1111_1110).rpd());
}

#[test]
fn rx_addr_p2_to_p5_example() {
    assert_eq!(RxAddrP2::new().into_bits(), 0xC3);
    assert_eq!(RxAddrP3::new().into_bits(), 0xC4);
    assert_eq!(RxAddrP4::new().into_bits(), 0xC5);
    assert_eq!(RxAddrP5::new().into_bits(), 0xC6);
    assert_eq!(RxAddrP2::new().with_rx_addr_p2(172).into_bits(), 172);
    assert_eq!(RxAddrP3::new().with_rx_addr_p3(172).into_bits(), 172);
    assert_eq!(RxAddrP4::new().with_rx_addr_p4(172).into_bits(), 172);
    assert_eq!(RxAddrP5::new().with_rx_addr_p5(172).into_bits(), 172);
}

#[test]
fn rx_pw_example() {
    assert_eq!(RxPwP0::new().with_rx_pw_p0(31).into_bits(), 31);
    assert_eq!(RxPwP5::new().with_rx_pw_p5(31).into_bits(), 31);
    assert_eq!(RxPwP5::new().with_rx_pw_p5(32).rx_pw_p5(), 32);
}

#[test]
fn fifo_status_example() {
    let reg = FifoStatus::from_bits(0b0010_0010);
    assert!(!reg.tx_reuse());
    assert!(reg.tx_full());
    assert!(!reg.tx_empty());
    assert!(reg.rx_full());
    assert!(!reg.rx_empty());
}

#[test]
fn dynpd_example() {
    let reg = Dynpd::new()
        .with_dpl_p5(true)
        .with_dpl_p4(false)
        .with_dpl_p3(false)
        .with_dpl_p2(false)
        .with_dpl_p1(true)
        .with_dpl_p0(false);
    assert_eq!(reg.into_bits(), 0b0010_0010);
}

#[test]
fn feature_example() {
    let reg = Feature::new()
        .with_en_dpl(true)
        .with_en_ack_pay(true)
        .with_en_dyn_ack(false);
    assert_eq!(reg.into_bits(), 0b0000_0110);
}

#[test]
fn a_value_wider_than_its_field_is_cut() {
    assert_eq!(RfCh::new().with_rf_ch(200).rf_ch(), 200 & 0x7F);
    assert_eq!(RfCh::from_bits(0x80).with_rf_ch(0xFF).into_bits(), 0xFF);
    assert_eq!(RfCh::from_bits(0x00).with_rf_ch(0xFF).into_bits(), 0x7F);
    assert_eq!(SetupRetr::new().with_arc(0x1F).arc(), 0x0F);
    assert_eq!(SetupRetr::from_bits(0xA0).with_arc(0x1F).into_bits(), 0xAF);
    assert_eq!(RxPwP0::new().with_rx_pw_p0(0xFF).into_bits(), 0x3F);
}
