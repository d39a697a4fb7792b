//! The peripheral-facing transfer shapes: read, write, and full duplex.

use imxrt_dma::channel::MUX_ENBL;
use imxrt_dma::element::{Buffer, ElementSize};
use imxrt_dma::engine::{service, Memory};
use imxrt_dma::interrupt::TransferPoll;
use imxrt_dma::peripheral::{full_duplex, read, MemoryPeripheral};
use imxrt_dma::Dma;

#[test]
fn read_fills_the_buffer_from_the_data_register() {
    let mut dma: Dma<u32> = Dma::new(32);
    let mut mem = Memory::new(1024);
    // The peripheral's receive register lives at 512 and holds a word.
    mem.write_element(512, ElementSize::Four, 0xCAFE);
    let peripheral = MemoryPeripheral::new(14, 15, 512, ElementSize::Four);
    let buffer = Buffer { address: 0, len: 4, size: ElementSize::Four };
    let mut ch = dma.channel(7).expect("channel free");
    ch.reset(&mut dma);
    let rx = read(ch, peripheral, buffer, &mut dma);
    // The channel routes the peripheral's receive request signal.
    assert_eq!(dma.channels[7].chcfg, 14 | MUX_ENBL);
    assert!(dma.channels[7].tcd.dreq);
    assert_eq!(dma.channels[7].tcd.citer, 4);
    assert_eq!(rx.poll(&mut dma, 3), TransferPoll::Pending);
    for _ in 0..4 {
        service(&mut dma, &mut mem, 7);
    }
    assert_eq!(rx.poll(&mut dma, 3), TransferPoll::Complete);
    for i in 0..4 {
        assert_eq!(mem.read_element(4 * i, ElementSize::Four), 0xCAFE);
    }
    let (ch, peripheral) = rx.cancel(&mut dma);
    assert!(!ch.is_enabled(&dma));
    assert!(!peripheral.is_source_enabled());
}

#[test]
fn write_drains_the_buffer_into_the_data_register() {
    let mut dma: Dma<u32> = Dma::new(32);
    let mut mem = Memory::new(1024);
    for i in 0..4 {
        mem.write_element(4 * i, ElementSize::Four, 0x30 + i);
    }
    let peripheral = MemoryPeripheral::new(14, 15, 640, ElementSize::Four);
    let buffer = Buffer { address: 0, len: 4, size: ElementSize::Four };
    let mut ch = dma.channel(9).expect("channel free");
    ch.reset(&mut dma);
    let tx = imxrt_dma::peripheral::write(ch, buffer, peripheral, &mut dma);
    // The channel routes the peripheral's transmit request signal.
    assert_eq!(dma.channels[9].chcfg, 15 | MUX_ENBL);
    assert_eq!(tx.poll(&mut dma, 4), TransferPoll::Pending);
    for step in 0..4 {
        service(&mut dma, &mut mem, 9);
        // Each service hands the register the next element.
        assert_eq!(mem.read_element(640, ElementSize::Four), 0x30 + step);
    }
    assert_eq!(tx.poll(&mut dma, 4), TransferPoll::Complete);
    // The restoring adjustment wound the source back to the buffer base.
    assert_eq!(dma.channels[9].tcd.saddr, 0);
    let (ch, peripheral) = tx.cancel(&mut dma);
    assert!(!ch.is_enabled(&dma));
    assert!(!peripheral.is_destination_enabled());
}

#[test]
fn full_duplex_completes_only_when_both_sides_finish() {
    let mut dma: Dma<u32> = Dma::new(32);
    let mut mem = Memory::new(1024);
    for i in 0..4 {
        mem.write_element(4 * i, ElementSize::Four, 0x50 + i);
    }
    let peripheral = MemoryPeripheral::new(20, 21, 768, ElementSize::Four);
    let buffer = Buffer { address: 0, len: 4, size: ElementSize::Four };
    let mut rx_channel = dma.channel(1).expect("channel free");
    let mut tx_channel = dma.channel(2).expect("channel free");
    rx_channel.reset(&mut dma);
    tx_channel.reset(&mut dma);
    let mut fd = full_duplex(rx_channel, tx_channel, peripheral, buffer, &mut dma);
    assert_eq!(fd.poll(&mut dma, 11, 12), TransferPoll::Pending);
    // The transmit side drives the receive side: element by element, the
    // word goes out to the register and comes back into the same slot.
    for _ in 0..4 {
        service(&mut dma, &mut mem, 2);
        service(&mut dma, &mut mem, 1);
        // Until the last exchange the whole transfer is incomplete.
    }
    assert_eq!(fd.poll(&mut dma, 11, 12), TransferPoll::Complete);
    for i in 0..4 {
        assert_eq!(mem.read_element(4 * i, ElementSize::Four), 0x50 + i);
    }
    let (rx, tx, peripheral) = fd.cancel(&mut dma);
    assert!(!rx.is_enabled(&dma));
    assert!(!tx.is_enabled(&dma));
    assert!(!peripheral.is_source_enabled());
}

#[test]
fn full_duplex_stays_pending_while_one_side_runs() {
    let mut dma: Dma<u32> = Dma::new(32);
    let mut mem = Memory::new(1024);
    let peripheral = MemoryPeripheral::new(20, 21, 768, ElementSize::Four);
    let buffer = Buffer { address: 0, len: 2, size: ElementSize::Four };
    let mut rx_channel = dma.channel(3).expect("channel free");
    let mut tx_channel = dma.channel(4).expect("channel free");
    rx_channel.reset(&mut dma);
    tx_channel.reset(&mut dma);
    let mut fd = full_duplex(rx_channel, tx_channel, peripheral, buffer, &mut dma);
    assert_eq!(fd.poll(&mut dma, 11, 12), TransferPoll::Pending);
    // Only the transmit side runs to completion.
    service(&mut dma, &mut mem, 4);
    service(&mut dma, &mut mem, 4);
    assert_eq!(fd.poll(&mut dma, 11, 12), TransferPoll::Pending);
    // The receive side finishes: now the exchange is complete.
    service(&mut dma, &mut mem, 3);
    service(&mut dma, &mut mem, 3);
    assert_eq!(fd.poll(&mut dma, 11, 12), TransferPoll::Complete);
    fd.cancel(&mut dma);
}

#[test]
fn full_duplex_surfaces_an_error_and_still_tears_down() {
    let mut dma: Dma<u32> = Dma::new(32);
    let peripheral = MemoryPeripheral::new(20, 21, 768, ElementSize::Four);
    let buffer = Buffer { address: 0, len: 2, size: ElementSize::Four };
    let mut rx_channel = dma.channel(5).expect("channel free");
    let mut tx_channel = dma.channel(6).expect("channel free");
    rx_channel.reset(&mut dma);
    tx_channel.reset(&mut dma);
    let mut fd = full_duplex(rx_channel, tx_channel, peripheral, buffer, &mut dma);
    assert_eq!(fd.poll(&mut dma, 11, 12), TransferPoll::Pending);
    // The receive channel faults.
    dma.channels[5].err = true;
    dma.es = 0x8000_0000 | (5 << 8) | 0x2;
    match fd.poll(&mut dma, 11, 12) {
        TransferPoll::Failed(status) => {
            assert_eq!(status.error_channel(), 5);
            assert!(status.source_bus_error());
        }
        other => panic!("expected a failed poll, got {:?}", other),
    }
    // Cancellation still quiesces both channels.
    let (rx, tx, peripheral) = fd.cancel(&mut dma);
    assert!(!rx.is_enabled(&dma));
    assert!(!rx.is_error(&dma));
    assert!(!tx.is_enabled(&dma));
    assert!(!tx.is_hardware_signaling(&dma));
    assert!(!peripheral.is_source_enabled());
    assert_eq!(dma.wakers[5], None);
    assert_eq!(dma.wakers[6], None);
}
