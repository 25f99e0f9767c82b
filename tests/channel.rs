use sam4l_dma::clock::{ClockInterface, NoClockControl};
use sam4l_dma::dma::{DMAChannel, DMAClient, SharedEnableCounter};
use sam4l_dma::hw::{DMAChannelNum, DMAPeripheral, DMAWidth};
use sam4l_dma::registers::{DMARegisters, INT_RCZ, INT_TERR, INT_TRC, SR_TEN};
use std::cell::RefCell;

struct Recorder {
    seen: RefCell<Vec<DMAPeripheral>>,
}

impl Recorder {
    fn new() -> Recorder {
        Recorder { seen: RefCell::new(Vec::new()) }
    }
}

impl DMAClient for Recorder {
    fn transfer_done(&self, pid: DMAPeripheral) {
        self.seen.borrow_mut().push(pid);
    }
}

fn channel<'a>(num: DMAChannelNum, client: &'a Recorder, width: DMAWidth) -> DMAChannel<'a, Recorder> {
    let mut ch = DMAChannel::new(num);
    ch.initialize(client, width);
    ch
}

#[test]
fn word_transfer_is_clamped_to_buffer() {
    let client = Recorder::new();
    let mut ch = channel(DMAChannelNum::DMAChannel00, &client, DMAWidth::Width32Bit);
    let prev = ch.prepare_transfer(DMAPeripheral::USART0_TX, vec![0u8; 40], 100);
    assert!(prev.is_none());
    assert_eq!(ch.registers().tcrr, 10);
    assert_eq!(ch.registers().mr, 2);
}

#[test]
fn reload_count_is_min_of_request_and_capacity() {
    let client = Recorder::new();
    let widths = [(DMAWidth::Width8Bit, 1usize), (DMAWidth::Width16Bit, 2), (DMAWidth::Width32Bit, 4)];
    for (width, size) in widths {
        for len in [0usize, 1, 3, 7, 8, 33] {
            for req in [0usize, 1, 2, 5, 9, 100] {
                let mut ch = channel(DMAChannelNum::DMAChannel05, &client, width);
                ch.prepare_transfer(DMAPeripheral::SPI_RX, vec![0u8; len], req);
                assert_eq!(ch.registers().tcrr as usize, std::cmp::min(req, len / size));
            }
        }
    }
}

#[test]
fn halfword_odd_buffer_rounds_down() {
    let client = Recorder::new();
    let mut ch = channel(DMAChannelNum::DMAChannel01, &client, DMAWidth::Width16Bit);
    ch.prepare_transfer(DMAPeripheral::TWIM0_RX, vec![0u8; 7], 50);
    assert_eq!(ch.registers().tcrr, 3);
    assert_eq!(ch.registers().mr, 1);
}

#[test]
fn reload_count_capped_at_field_maximum() {
    let client = Recorder::new();
    let mut ch = channel(DMAChannelNum::DMAChannel02, &client, DMAWidth::Width8Bit);
    ch.prepare_transfer(DMAPeripheral::DACC_TX, vec![0u8; 70000], 70000);
    assert_eq!(ch.registers().tcrr, 65535);
    ch.prepare_transfer(DMAPeripheral::DACC_TX, vec![0u8; 65536], 65536);
    assert_eq!(ch.registers().tcrr, 65535);
    ch.prepare_transfer(DMAPeripheral::DACC_TX, vec![0u8; 65535], 65536);
    assert_eq!(ch.registers().tcrr, 65535);
    ch.prepare_transfer(DMAPeripheral::DACC_TX, vec![0u8; 65534], 65536);
    assert_eq!(ch.registers().tcrr, 65534);
}

#[test]
fn initialize_again_replaces_client() {
    let first = Recorder::new();
    let second = Recorder::new();
    let mut ch = channel(DMAChannelNum::DMAChannel04, &first, DMAWidth::Width8Bit);
    ch.initialize(&second, DMAWidth::Width8Bit);
    ch.prepare_transfer(DMAPeripheral::TWIS1_TX, vec![0u8; 4], 4);
    assert_eq!(ch.handle_interrupt(), Some(DMAPeripheral::TWIS1_TX));
    assert!(first.seen.borrow().is_empty());
    assert_eq!(*second.seen.borrow(), vec![DMAPeripheral::TWIS1_TX]);
}

#[test]
fn disable_with_counter_at_zero_stays_at_zero() {
    let client = Recorder::new();
    let mut shared = SharedEnableCounter::new();
    let mut other = SharedEnableCounter::new();
    let mut ch = channel(DMAChannelNum::DMAChannel05, &client, DMAWidth::Width8Bit);
    ch.enable(&mut shared);
    assert!(!ch.disable(&mut other));
    assert_eq!(other.count(), 0);
    assert!(!ch.is_enabled());
}

#[test]
fn enable_twice_counts_once() {
    let client = Recorder::new();
    let mut counter = SharedEnableCounter::new();
    let mut ch = channel(DMAChannelNum::DMAChannel03, &client, DMAWidth::Width8Bit);
    ch.enable(&mut counter);
    assert!(ch.is_enabled());
    ch.enable(&mut counter);
    assert_eq!(counter.count(), 1);
    assert!(ch.is_enabled());
    assert!(counter.hsb_clock_enabled());
    assert!(counter.pbb_clock_enabled());
}

#[test]
fn two_channels_share_the_clocks() {
    let client = Recorder::new();
    let mut counter = SharedEnableCounter::new();
    let mut a = channel(DMAChannelNum::DMAChannel00, &client, DMAWidth::Width8Bit);
    let mut b = channel(DMAChannelNum::DMAChannel01, &client, DMAWidth::Width8Bit);
    a.enable(&mut counter);
    b.enable(&mut counter);
    assert_eq!(counter.count(), 2);
    assert!(!a.disable(&mut counter));
    assert_eq!(counter.count(), 1);
    assert!(counter.hsb_clock_enabled() && counter.pbb_clock_enabled());
    assert!(b.disable(&mut counter));
    assert_eq!(counter.count(), 0);
    assert!(!counter.hsb_clock_enabled() && !counter.pbb_clock_enabled());
}

#[test]
fn disable_twice_uncounts_once() {
    let client = Recorder::new();
    let mut counter = SharedEnableCounter::new();
    let mut a = channel(DMAChannelNum::DMAChannel07, &client, DMAWidth::Width8Bit);
    let mut b = channel(DMAChannelNum::DMAChannel08, &client, DMAWidth::Width8Bit);
    a.enable(&mut counter);
    b.enable(&mut counter);
    assert!(!a.disable(&mut counter));
    assert!(!a.disable(&mut counter));
    assert_eq!(counter.count(), 1);
    assert!(!a.is_enabled());
    assert!(b.is_enabled());
}

#[test]
fn disable_on_disabled_channel_does_nothing() {
    let client = Recorder::new();
    let mut counter = SharedEnableCounter::new();
    let mut ch = channel(DMAChannelNum::DMAChannel09, &client, DMAWidth::Width8Bit);
    assert!(!ch.disable(&mut counter));
    assert_eq!(counter.count(), 0);
    assert!(!ch.is_enabled());
}

#[test]
fn disable_stops_transfers() {
    let client = Recorder::new();
    let mut counter = SharedEnableCounter::new();
    let mut ch = channel(DMAChannelNum::DMAChannel04, &client, DMAWidth::Width8Bit);
    ch.enable(&mut counter);
    ch.do_transfer(DMAPeripheral::USART1_TX, vec![1u8; 4], 4);
    assert_eq!(ch.registers().sr, SR_TEN);
    ch.disable(&mut counter);
    assert_eq!(ch.registers().sr, 0);
}

#[test]
fn enable_masks_interrupts() {
    let client = Recorder::new();
    let mut counter = SharedEnableCounter::new();
    let mut ch = channel(DMAChannelNum::DMAChannel06, &client, DMAWidth::Width8Bit);
    ch.prepare_transfer(DMAPeripheral::SPI_RX, vec![0u8; 2], 2);
    assert_eq!(ch.registers().imr, INT_TRC);
    ch.enable(&mut counter);
    assert_eq!(ch.registers().imr, 0);
}

#[test]
fn spi_tx_byte_transfer_unmasks_only_complete() {
    let client = Recorder::new();
    let mut ch = channel(DMAChannelNum::DMAChannel10, &client, DMAWidth::Width8Bit);
    ch.prepare_transfer(DMAPeripheral::SPI_TX, vec![0u8; 64], 64);
    let regs = ch.registers();
    assert_eq!(regs.tcrr, 64);
    assert_eq!(regs.psr, 22);
    assert_eq!(regs.mr, 0);
    assert!(regs.imr & INT_TRC != 0);
    assert!(regs.imr & INT_TERR == 0);
    assert!(regs.imr & INT_RCZ == 0);
}

#[test]
fn prepare_programs_buffer_address() {
    let client = Recorder::new();
    let mut ch = channel(DMAChannelNum::DMAChannel11, &client, DMAWidth::Width8Bit);
    let buf = vec![5u8; 16];
    let addr = buf.as_ptr() as usize as u32;
    assert_ne!(addr, 0);
    ch.prepare_transfer(DMAPeripheral::AESA_TX, buf, 16);
    assert_eq!(ch.registers().marr, addr);
}

#[test]
fn abort_after_prepare_returns_buffer() {
    let client = Recorder::new();
    let mut ch = channel(DMAChannelNum::DMAChannel12, &client, DMAWidth::Width8Bit);
    let buf: Vec<u8> = (0u8..32).collect();
    let ptr = buf.as_ptr();
    ch.prepare_transfer(DMAPeripheral::USART2_RX, buf, 32);
    assert!(ch.has_buffer());
    let back = ch.abort_transfer().unwrap();
    assert_eq!(back.as_ptr(), ptr);
    assert_eq!(back, (0u8..32).collect::<Vec<u8>>());
    assert!(!ch.has_buffer());
    assert!(ch.abort_transfer().is_none());
    assert_eq!(ch.registers().imr, 0);
}

#[test]
fn abort_without_buffer() {
    let client = Recorder::new();
    let mut ch = channel(DMAChannelNum::DMAChannel13, &client, DMAWidth::Width8Bit);
    let before = *ch.registers();
    assert!(ch.abort_transfer().is_none());
    assert_eq!(ch.transfer_counter(), 0);
    assert_eq!(*ch.registers(), before);
    assert_eq!(before, DMARegisters::reset());
    assert!(!ch.is_enabled());
}

#[test]
fn prepare_over_held_buffer_hands_it_back() {
    let client = Recorder::new();
    let mut ch = channel(DMAChannelNum::DMAChannel14, &client, DMAWidth::Width8Bit);
    assert!(ch.prepare_transfer(DMAPeripheral::SPI_TX, vec![1u8; 3], 3).is_none());
    let prev = ch.prepare_transfer(DMAPeripheral::SPI_TX, vec![2u8; 5], 5);
    assert_eq!(prev, Some(vec![1u8; 3]));
    assert_eq!(ch.abort_transfer(), Some(vec![2u8; 5]));
}

#[test]
fn interrupt_reports_programmed_peripheral() {
    let client = Recorder::new();
    let mut ch = channel(DMAChannelNum::DMAChannel15, &client, DMAWidth::Width8Bit);
    ch.prepare_transfer(DMAPeripheral::LCDCA_ABMDR_TX, vec![0u8; 8], 8);
    ch.start_transfer();
    assert_eq!(ch.handle_interrupt(), Some(DMAPeripheral::LCDCA_ABMDR_TX));
    assert_eq!(ch.registers().imr, 0);
    ch.prepare_transfer(DMAPeripheral::IISC_CH0_RX, vec![0u8; 8], 8);
    assert_eq!(ch.handle_interrupt(), Some(DMAPeripheral::IISC_CH0_RX));
    assert_eq!(*client.seen.borrow(), vec![DMAPeripheral::LCDCA_ABMDR_TX, DMAPeripheral::IISC_CH0_RX]);
    assert!(ch.has_buffer());
}

#[test]
fn interrupt_without_client_is_dropped() {
    let mut ch: DMAChannel<Recorder> = DMAChannel::new(DMAChannelNum::DMAChannel00);
    ch.prepare_transfer(DMAPeripheral::SPI_TX, vec![0u8; 8], 8);
    assert_eq!(ch.handle_interrupt(), None);
    assert_eq!(ch.registers().imr, 0);
}

#[test]
fn transfer_counter_reads_live_counter() {
    let client = Recorder::new();
    let mut ch = channel(DMAChannelNum::DMAChannel03, &client, DMAWidth::Width8Bit);
    ch.do_transfer(DMAPeripheral::CATB_RX, vec![0u8; 8], 8);
    ch.abort_transfer();
    assert_eq!(ch.transfer_counter(), 0);
}

#[test]
fn base_addresses() {
    let c0: DMAChannel<Recorder> = DMAChannel::new(DMAChannelNum::DMAChannel00);
    let c15: DMAChannel<Recorder> = DMAChannel::new(DMAChannelNum::DMAChannel15);
    assert_eq!(c0.base_address(), 0x400A2000);
    assert_eq!(c15.base_address(), 0x400A2000 + 15 * 0x40);
}

#[test]
fn initialize_again_replaces_width() {
    let client = Recorder::new();
    let mut ch = channel(DMAChannelNum::DMAChannel01, &client, DMAWidth::Width32Bit);
    ch.initialize(&client, DMAWidth::Width16Bit);
    ch.prepare_transfer(DMAPeripheral::ADCIFE_RX, vec![0u8; 8], 8);
    assert_eq!(ch.registers().tcrr, 4);
}

#[test]
fn no_clock_control_is_always_on() {
    let c = NoClockControl {};
    c.enable();
    c.disable();
    assert!(c.is_enabled());
}
