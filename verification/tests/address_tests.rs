use nrf24l01_commands::registers::{
    address_into_bytes, AddressRegister, RxAddrP0, RxAddrP1, TxAddr, ADDRESS_MASK,
};

#[test]
fn address_registers_reset_values() {
    assert_eq!(RxAddrP0::<3>::new().into_bits(), 0xE7E7E7E7E7);
    assert_eq!(RxAddrP0::<4>::new().into_bits(), 0xE7E7E7E7E7);
    assert_eq!(RxAddrP0::<5>::new().into_bits(), 0xE7E7E7E7E7);
    assert_eq!(RxAddrP1::<3>::new().into_bits(), 0xC2C2C2C2C2);
    assert_eq!(RxAddrP1::<4>::new().into_bits(), 0xC2C2C2C2C2);
    assert_eq!(RxAddrP1::<5>::new().into_bits(), 0xC2C2C2C2C2);
    assert_eq!(TxAddr::<3>::new().into_bits(), 0xE7E7E7E7E7);
    assert_eq!(TxAddr::<4>::new().into_bits(), 0xE7E7E7E7E7);
    assert_eq!(TxAddr::<5>::new().into_bits(), 0xE7E7E7E7E7);
    assert_eq!(RxAddrP0::<5>::default(), RxAddrP0::<5>::new());
    assert_eq!(RxAddrP1::<4>::default(), RxAddrP1::<4>::new());
    assert_eq!(TxAddr::<3>::default(), TxAddr::<3>::new());
}

#[test]
fn address_registers_addresses() {
    assert_eq!(<RxAddrP0<5> as AddressRegister<5>>::ADDRESS, 0x0A);
    assert_eq!(<RxAddrP1<4> as AddressRegister<4>>::ADDRESS, 0x0B);
    assert_eq!(<TxAddr<3> as AddressRegister<3>>::ADDRESS, 0x10);
}

#[test]
fn address_truncation_to_three_bytes() {
    let reg = RxAddrP0::<3>::new().with_rx_addr_p0(0x17E73A6C58);
    assert_eq!(reg.into_bytes(), [0x58, 0x6C, 0x3A]);
    assert_eq!(reg.into_bits(), 0x17E73A6C58);
    assert_eq!(reg.rx_addr_p0(), 0x17E73A6C58);
}

#[test]
fn address_bytes_are_least_significant_first() {
    let reg = RxAddrP0::<5>::new().with_rx_addr_p0(0xC2840DF659);
    assert_eq!(reg.into_bits(), 0xC2840DF659);
    assert_eq!(reg.into_bytes(), [0x59, 0xF6, 0x0D, 0x84, 0xC2]);
    let reg = RxAddrP1::<5>::new().with_rx_addr_p1(0xC2840DF659);
    assert_eq!(reg.into_bytes(), [0x59, 0xF6, 0x0D, 0x84, 0xC2]);
    let reg = TxAddr::<5>::new().with_tx_addr(0xC2840DF659);
    assert_eq!(reg.into_bytes(), [0x59, 0xF6, 0x0D, 0x84, 0xC2]);
    let reg = RxAddrP1::<3>::new().with_rx_addr_p1(0xC2840DF659);
    assert_eq!(reg.into_bytes(), [0x59, 0xF6, 0x0D]);
    let reg = TxAddr::<4>::new().with_tx_addr(0xC2840DF659);
    assert_eq!(reg.into_bytes(), [0x59, 0xF6, 0x0D, 0x84]);
}

#[test]
fn a_narrower_form_is_the_start_of_a_wider_one() {
    for value in [0u64, 0x17E73A6C58, 0xFFFFFFFFFF, 0x0102030405, 0xE7E7E7E7E7] {
        let five = TxAddr::<5>::from_bits(value).into_bytes();
        let four = TxAddr::<4>::from_bits(value).into_bytes();
        let three = TxAddr::<3>::from_bits(value).into_bytes();
        assert_eq!(&five[..4], &four[..]);
        assert_eq!(&five[..3], &three[..]);
    }
}

#[test]
fn address_into_bytes_takes_the_low_bytes() {
    assert_eq!(address_into_bytes::<3>(0x17E73A6C58), [0x58, 0x6C, 0x3A]);
    assert_eq!(address_into_bytes::<4>(0x17E73A6C58), [0x58, 0x6C, 0x3A, 0xE7]);
    assert_eq!(address_into_bytes::<5>(0x17E73A6C58), [0x58, 0x6C, 0x3A, 0xE7, 0x17]);
    assert_eq!(address_into_bytes::<5>(0), [0, 0, 0, 0, 0]);
    assert_eq!(
        address_into_bytes::<5>(0xFFFF_FF01_0203_0405),
        [0x05, 0x04, 0x03, 0x02, 0x01]
    );
}

#[test]
fn address_registers_keep_all_bits_given() {
    for bits in [0u64, 1, 0xE7E7E7E7E7, 0xFFFF_FFFF_FFFF_FFFF, 0x0123_4567_89AB_CDEF] {
        let reg = RxAddrP0::<4>::from_bits(bits);
        assert_eq!(reg.into_bits(), bits);
        assert_eq!(RxAddrP0::<4>::from_bits(reg.into_bits()), reg);
        assert_eq!(reg.rx_addr_p0(), bits & ADDRESS_MASK);
        let reg = RxAddrP1::<5>::from_bits(bits);
        assert_eq!(reg.into_bits(), bits);
        assert_eq!(RxAddrP1::<5>::from_bits(reg.into_bits()), reg);
        assert_eq!(reg.rx_addr_p1(), bits & ADDRESS_MASK);
        let reg = TxAddr::<3>::from_bits(bits);
        assert_eq!(reg.into_bits(), bits);
        assert_eq!(TxAddr::<3>::from_bits(reg.into_bits()), reg);
        assert_eq!(reg.tx_addr(), bits & ADDRESS_MASK);
    }
}

#[test]
fn a_written_address_reads_back() {
    for raw in [0u64, 0xE7E7E7E7E7, 0xFFFF_FFFF_FFFF_FFFF, 0xABCD_EF00_0000_0000] {
        for value in [0u64, 1, 0xA2891FFF6A, 0xFF_FFFF_FFFF] {
            let reg = TxAddr::<5>::from_bits(raw).with_tx_addr(value);
            assert_eq!(reg.tx_addr(), value);
            assert_eq!(reg.into_bits() & !ADDRESS_MASK, raw & !ADDRESS_MASK);
            assert_eq!(reg.into_bytes(), address_into_bytes::<5>(value));
            let reg = RxAddrP0::<4>::from_bits(raw).with_rx_addr_p0(value);
            assert_eq!(reg.rx_addr_p0(), value);
            let reg = RxAddrP1::<3>::from_bits(raw).with_rx_addr_p1(value);
            assert_eq!(reg.rx_addr_p1(), value);
        }
    }
}

#[test]
fn an_address_above_40_bits_is_cut() {
    let reg = TxAddr::<5>::new().with_tx_addr(0x0123_4567_89AB_CDEF);
    assert_eq!(reg.tx_addr(), 0x67_89AB_CDEF);
    assert_eq!(reg.into_bits(), 0x67_89AB_CDEF);
    assert_eq!(reg.into_bytes(), [0xEF, 0xCD, 0xAB, 0x89, 0x67]);
}
