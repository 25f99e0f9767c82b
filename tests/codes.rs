use sam4l_dma::hw::{DMAChannelNum, DMAPeripheral, DMAWidth};

#[test]
fn peripheral_codes_round_trip() {
    let mut found = 0;
    for c in 0u8..=255 {
        if let Some(p) = DMAPeripheral::from_code(c) {
            assert_eq!(p.code(), c);
            found += 1;
        }
    }
    assert_eq!(found, 38);
    assert_eq!(DMAPeripheral::from_code(13), None);
    assert_eq!(DMAPeripheral::from_code(39), None);
    assert_eq!(DMAPeripheral::SPI_TX.code(), 22);
    assert_eq!(DMAPeripheral::IISC_CH0_RX.code(), 14);
    assert_eq!(DMAPeripheral::LCDCA_ABMDR_TX.code(), 38);
}

#[test]
fn width_codes_and_sizes() {
    assert_eq!(DMAWidth::Width8Bit.code(), 0);
    assert_eq!(DMAWidth::Width16Bit.code(), 1);
    assert_eq!(DMAWidth::Width32Bit.code(), 2);
    assert_eq!(DMAWidth::Width8Bit.element_size(), 1);
    assert_eq!(DMAWidth::Width16Bit.element_size(), 2);
    assert_eq!(DMAWidth::Width32Bit.element_size(), 4);
}

#[test]
fn channel_indices() {
    assert_eq!(DMAChannelNum::DMAChannel00.index(), 0);
    assert_eq!(DMAChannelNum::DMAChannel09.index(), 9);
    assert_eq!(DMAChannelNum::DMAChannel15.index(), 15);
}

