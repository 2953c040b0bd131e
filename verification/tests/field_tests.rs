use nrf24l01_commands::fields::{
    AddressWidth, AutoRetransmitDelay, Crco, EnumField, RfDrHigh, RfPower, RxPipeNo,
};

#[test]
fn crco_codes() {
    assert_eq!(Crco::OneByte.into_bits(), 0);
    assert_eq!(Crco::TwoByte.into_bits(), 1);
    assert_eq!(Crco::from_bits(0), Crco::OneByte);
    assert_eq!(Crco::from_bits(1), Crco::TwoByte);
}

#[test]
fn address_width_codes() {
    assert_eq!(AddressWidth::Illegal.into_bits(), 0b00);
    assert_eq!(AddressWidth::ThreeByte.into_bits(), 0b01);
    assert_eq!(AddressWidth::FourByte.into_bits(), 0b10);
    assert_eq!(AddressWidth::FiveByte.into_bits(), 0b11);
    assert_eq!(AddressWidth::from_bits(0b00), AddressWidth::Illegal);
    assert_eq!(AddressWidth::from_bits(0b01), AddressWidth::ThreeByte);
    assert_eq!(AddressWidth::from_bits(0b10), AddressWidth::FourByte);
    assert_eq!(AddressWidth::from_bits(0b11), AddressWidth::FiveByte);
}

#[test]
fn auto_retransmit_delay_codes() {
    let variants = [
        AutoRetransmitDelay::US250,
        AutoRetransmitDelay::US500,
        AutoRetransmitDelay::US750,
        AutoRetransmitDelay::US1000,
        AutoRetransmitDelay::US1250,
        AutoRetransmitDelay::US1500,
        AutoRetransmitDelay::US1750,
        AutoRetransmitDelay::US2000,
        AutoRetransmitDelay::US2250,
        AutoRetransmitDelay::US2500,
        AutoRetransmitDelay::US2750,
        AutoRetransmitDelay::US3000,
        AutoRetransmitDelay::US3250,
        AutoRetransmitDelay::US3500,
        AutoRetransmitDelay::US3750,
        AutoRetransmitDelay::US4000,
    ];
    for (code, variant) in variants.iter().enumerate() {
        assert_eq!(variant.into_bits(), code as u8);
        assert_eq!(AutoRetransmitDelay::from_bits(code as u8), *variant);
    }
}

#[test]
fn rf_dr_high_codes() {
    assert_eq!(RfDrHigh::Mbps1.into_bits(), 0);
    assert_eq!(RfDrHigh::Mbps2.into_bits(), 1);
    assert_eq!(RfDrHigh::from_bits(0), RfDrHigh::Mbps1);
    assert_eq!(RfDrHigh::from_bits(1), RfDrHigh::Mbps2);
}

#[test]
fn rf_power_codes() {
    assert_eq!(RfPower::Neg18Dbm.into_bits(), 0b00);
    assert_eq!(RfPower::Neg12Dbm.into_bits(), 0b01);
    assert_eq!(RfPower::Neg6Dbm.into_bits(), 0b10);
    assert_eq!(RfPower::Dbm0.into_bits(), 0b11);
    assert_eq!(RfPower::from_bits(0b00), RfPower::Neg18Dbm);
    assert_eq!(RfPower::from_bits(0b01), RfPower::Neg12Dbm);
    assert_eq!(RfPower::from_bits(0b10), RfPower::Neg6Dbm);
    assert_eq!(RfPower::from_bits(0b11), RfPower::Dbm0);
}

#[test]
fn rx_pipe_no_codes() {
    let variants = [
        RxPipeNo::Pipe0,
        RxPipeNo::Pipe1,
        RxPipeNo::Pipe2,
        RxPipeNo::Pipe3,
        RxPipeNo::Pipe4,
        RxPipeNo::Pipe5,
        RxPipeNo::NotUsed,
        RxPipeNo::RxFifoEmpty,
    ];
    for (code, variant) in variants.iter().enumerate() {
        assert_eq!(variant.into_bits(), code as u8);
        assert_eq!(RxPipeNo::from_bits(code as u8), *variant);
    }
    assert_eq!(RxPipeNo::NotUsed.into_bits(), 0b110);
    assert_eq!(RxPipeNo::RxFifoEmpty.into_bits(), 0b111);
}

#[test]
fn every_byte_decodes_to_the_variant_of_its_low_bits() {
    for bits in 0..=255u8 {
        assert_eq!(Crco::from_bits(bits).into_bits(), bits & 0b1);
        assert_eq!(AddressWidth::from_bits(bits).into_bits(), bits & 0b11);
        assert_eq!(AutoRetransmitDelay::from_bits(bits).into_bits(), bits & 0b1111);
        assert_eq!(RfDrHigh::from_bits(bits).into_bits(), bits & 0b1);
        assert_eq!(RfPower::from_bits(bits).into_bits(), bits & 0b11);
        assert_eq!(RxPipeNo::from_bits(bits).into_bits(), bits & 0b111);
    }
}

#[test]
fn bits_above_the_width_are_ignored() {
    assert_eq!(Crco::from_bits(0b1111_1110), Crco::OneByte);
    assert_eq!(Crco::from_bits(0b1000_0001), Crco::TwoByte);
    assert_eq!(AddressWidth::from_bits(0b1111_1101), AddressWidth::ThreeByte);
    assert_eq!(AutoRetransmitDelay::from_bits(0b1010_0010), AutoRetransmitDelay::US750);
    assert_eq!(RfPower::from_bits(0b0000_0110), RfPower::Neg6Dbm);
    assert_eq!(RxPipeNo::from_bits(0b1111_1011), RxPipeNo::Pipe3);
}
