//! The memcpy shape, the controller's data movement, and its fault checks.

use imxrt_dma::channel::circular_buffer_supported;
use imxrt_dma::element::{Buffer, ElementSize};
use imxrt_dma::engine::{service, Memory};
use imxrt_dma::error::Error;
use imxrt_dma::interrupt::TransferPoll;
use imxrt_dma::memcpy::memcpy;
use imxrt_dma::Dma;

#[test]
fn memory_elements_round_trip() {
    let mut mem = Memory::new(64);
    mem.write_element(0, ElementSize::Four, 0xA1B2_C3D4);
    assert_eq!(mem.read_element(0, ElementSize::Four), 0xA1B2_C3D4);
    // Little-endian byte order.
    assert_eq!(mem.read_byte(0), 0xD4);
    assert_eq!(mem.read_byte(3), 0xA1);
    mem.write_element(8, ElementSize::Two, 0x1234);
    assert_eq!(mem.read_element(8, ElementSize::Two), 0x1234);
    mem.write_element(12, ElementSize::One, 0x56);
    assert_eq!(mem.read_element(12, ElementSize::One), 0x56);
    mem.write_byte(20, 0x7F);
    assert_eq!(mem.read_byte(20), 0x7F);
}

#[test]
fn memcpy_round_trip_restores_addresses() {
    let mut dma: Dma<u32> = Dma::new(32);
    let mut mem = Memory::new(1024);
    for i in 0..16 {
        mem.write_element(4 * i, ElementSize::Four, 100 + i);
    }
    let source = Buffer { address: 0, len: 16, size: ElementSize::Four };
    let destination = Buffer { address: 256, len: 16, size: ElementSize::Four };
    let mut ch = dma.channel(5).expect("channel free");
    ch.reset(&mut dma);
    let copy = memcpy(source, destination, ch, &mut dma);
    assert_eq!(copy.poll(&mut dma, 8), TransferPoll::Pending);
    service(&mut dma, &mut mem, 5);
    assert_eq!(copy.poll(&mut dma, 8), TransferPoll::Complete);
    for i in 0..16 {
        assert_eq!(mem.read_element(256 + 4 * i, ElementSize::Four), 100 + i);
        // The source buffer is untouched.
        assert_eq!(mem.read_element(4 * i, ElementSize::Four), 100 + i);
    }
    // The restoring last-address adjustments wound both addresses back, the
    // request line dropped automatically, and no error was flagged.
    assert_eq!(dma.channels[5].tcd.saddr, 0);
    assert_eq!(dma.channels[5].tcd.daddr, 256);
    assert!(!dma.channels[5].erq);
    assert!(!dma.channels[5].err);
    let ch = copy.cancel(&mut dma);
    assert!(!ch.is_enabled(&dma));
}

#[test]
fn memcpy_of_256_words_on_channel_7() {
    let mut dma: Dma<u32> = Dma::new(32);
    let mut mem = Memory::new(4096);
    for i in 0..256 {
        mem.write_element(4 * i, ElementSize::Four, 42);
    }
    let source = Buffer { address: 0, len: 256, size: ElementSize::Four };
    let destination = Buffer { address: 1024, len: 256, size: ElementSize::Four };
    let mut ch = dma.channel(7).expect("channel free");
    ch.reset(&mut dma);
    let copy = memcpy(source, destination, ch, &mut dma);
    assert_eq!(copy.poll(&mut dma, 1), TransferPoll::Pending);
    service(&mut dma, &mut mem, 7);
    assert_eq!(copy.poll(&mut dma, 1), TransferPoll::Complete);
    for i in 0..256 {
        assert_eq!(mem.read_element(1024 + 4 * i, ElementSize::Four), 42);
    }
    assert!(!dma.channels[7].err);
}

#[test]
fn memcpy_copies_the_shorter_buffer() {
    let mut dma: Dma<u32> = Dma::new(32);
    let mut mem = Memory::new(256);
    for a in 0..8 {
        mem.write_byte(a, 0x40 + a as u8);
    }
    let source = Buffer { address: 0, len: 8, size: ElementSize::One };
    let destination = Buffer { address: 128, len: 5, size: ElementSize::One };
    let mut ch = dma.channel(0).expect("channel free");
    ch.reset(&mut dma);
    let copy = memcpy(source, destination, ch, &mut dma);
    assert_eq!(dma.channels[0].tcd.nbytes, 5);
    assert_eq!(copy.poll(&mut dma, 2), TransferPoll::Pending);
    service(&mut dma, &mut mem, 0);
    assert_eq!(copy.poll(&mut dma, 2), TransferPoll::Complete);
    for a in 0..5 {
        assert_eq!(mem.read_byte(128 + a), 0x40 + a as u8);
    }
    // Bytes past the shorter buffer's end are untouched.
    assert_eq!(mem.read_byte(133), 0);
}

#[test]
fn unserviced_channel_stays_put() {
    let mut dma: Dma<u32> = Dma::new(32);
    let mut mem = Memory::new(64);
    mem.write_byte(0, 0xAB);
    let mut ch = dma.channel(12).expect("channel free");
    ch.reset(&mut dma);
    ch.set_minor_loop_bytes(&mut dma, 1);
    ch.set_transfer_iterations(&mut dma, 1);
    // Neither the request line nor the start flag is raised: no service.
    service(&mut dma, &mut mem, 12);
    assert!(!dma.channels[12].tcd.done);
    assert!(!dma.channels[12].err);
    assert_eq!(mem.read_byte(0), 0xAB);
}

fn faulted_status(dma: &mut Dma<u32>, mem: &mut Memory, ch: usize) -> Error {
    service(dma, mem, ch);
    assert!(dma.channels[ch].err);
    Error::new(dma.es)
}

#[test]
fn fault_reporting_names_cause_and_channel() {
    let mut mem = Memory::new(64);

    // Unusable byte count.
    let mut dma: Dma<u32> = Dma::new(32);
    let mut ch = dma.channel(3).expect("channel free");
    ch.reset(&mut dma);
    ch.set_transfer_iterations(&mut dma, 1);
    ch.start(&mut dma);
    let status = faulted_status(&mut dma, &mut mem, 3);
    assert!(status.is_valid());
    assert!(status.nbytes_citer_error());
    assert_eq!(status.error_channel(), 3);

    // Misaligned source address for four-byte elements.
    let mut dma: Dma<u32> = Dma::new(32);
    let mut ch = dma.channel(4).expect("channel free");
    ch.reset(&mut dma);
    ch.set_source_address(&mut dma, 2);
    ch.set_source_attributes(&mut dma, ElementSize::Four, 0);
    ch.set_destination_attributes(&mut dma, ElementSize::Four, 0);
    ch.set_source_offset(&mut dma, 4);
    ch.set_destination_offset(&mut dma, 4);
    ch.set_minor_loop_bytes(&mut dma, 4);
    ch.set_transfer_iterations(&mut dma, 1);
    ch.start(&mut dma);
    let status = faulted_status(&mut dma, &mut mem, 4);
    assert!(status.source_address_error());

    // Source span runs past the end of memory.
    let mut dma: Dma<u32> = Dma::new(32);
    let mut ch = dma.channel(6).expect("channel free");
    ch.reset(&mut dma);
    ch.set_source_address(&mut dma, 60);
    ch.set_source_offset(&mut dma, 1);
    ch.set_destination_offset(&mut dma, 1);
    ch.set_minor_loop_bytes(&mut dma, 8);
    ch.set_transfer_iterations(&mut dma, 1);
    ch.start(&mut dma);
    let status = faulted_status(&mut dma, &mut mem, 6);
    assert!(status.source_bus_error());

    // Destination span runs past the end of memory.
    let mut dma: Dma<u32> = Dma::new(32);
    let mut ch = dma.channel(8).expect("channel free");
    ch.reset(&mut dma);
    ch.set_source_offset(&mut dma, 1);
    ch.set_destination_address(&mut dma, 62);
    ch.set_destination_offset(&mut dma, 1);
    ch.set_minor_loop_bytes(&mut dma, 8);
    ch.set_transfer_iterations(&mut dma, 1);
    ch.start(&mut dma);
    let status = faulted_status(&mut dma, &mut mem, 8);
    assert!(status.destination_bus_error());
}

#[test]
fn error_status_decodes_every_flag() {
    let status = Error::new(0x8000_0000 | (9 << 8) | 0x80 | 0x2);
    assert_eq!(status.raw(), 0x8000_0982);
    assert!(status.is_valid());
    assert_eq!(status.error_channel(), 9);
    assert!(status.source_address_error());
    assert!(status.source_bus_error());
    assert!(!status.transfer_cancelled());
    assert!(!status.group_priority_error());
    assert!(!status.channel_priority_error());
    assert!(!status.source_offset_error());
    assert!(!status.destination_address_error());
    assert!(!status.destination_offset_error());
    assert!(!status.nbytes_citer_error());
    assert!(!status.scatter_gather_error());
    assert!(!status.destination_bus_error());

    let status = Error::new(0x0001_0000 | 0x8000 | 0x4000 | 0x40 | 0x20 | 0x10 | 0x8 | 0x4 | 0x1);
    assert!(!status.is_valid());
    assert!(status.transfer_cancelled());
    assert!(status.group_priority_error());
    assert!(status.channel_priority_error());
    assert!(status.source_offset_error());
    assert!(status.destination_address_error());
    assert!(status.destination_offset_error());
    assert!(status.nbytes_citer_error());
    assert!(status.scatter_gather_error());
    assert!(status.destination_bus_error());
}

#[test]
fn circular_buffers_demand_power_of_two_and_alignment() {
    // 64 one-byte elements at an aligned base: supported.
    let good = Buffer { address: 0x100, len: 64, size: ElementSize::One };
    assert!(circular_buffer_supported(good));
    // 8 four-byte elements are 32 bytes at a 32-byte boundary: supported.
    let good_words = Buffer { address: 0x120, len: 8, size: ElementSize::Four };
    assert!(circular_buffer_supported(good_words));
    // A non-power-of-two length is rejected.
    let bad_len = Buffer { address: 0x100, len: 48, size: ElementSize::One };
    assert!(!circular_buffer_supported(bad_len));
    // A misaligned base address is rejected.
    let misaligned = Buffer { address: 0x104, len: 64, size: ElementSize::One };
    assert!(!circular_buffer_supported(misaligned));
    // The empty region is rejected.
    let empty = Buffer { address: 0x100, len: 0, size: ElementSize::Four };
    assert!(!circular_buffer_supported(empty));
}

#[test]
fn circular_destination_wraps_inside_the_block() {
    let mut dma: Dma<u32> = Dma::new(32);
    let mut mem = Memory::new(256);
    for a in 0..8 {
        mem.write_byte(a, 0x10 + a as u8);
    }
    let mut ch = dma.channel(10).expect("channel free");
    ch.reset(&mut dma);
    // Source: 8 linear bytes at 0. Destination: a 4-byte ring at 64.
    let source = Buffer { address: 0, len: 8, size: ElementSize::One };
    let ring = Buffer { address: 64, len: 4, size: ElementSize::One };
    assert!(circular_buffer_supported(ring));
    imxrt_dma::channel::set_source_linear_buffer(&ch, &mut dma, source);
    imxrt_dma::channel::set_destination_circular_buffer(&ch, &mut dma, ring);
    assert_eq!(dma.channels[10].tcd.dmod, 2);
    ch.set_minor_loop_bytes(&mut dma, 8);
    ch.set_transfer_iterations(&mut dma, 1);
    ch.start(&mut dma);
    service(&mut dma, &mut mem, 10);
    assert!(!dma.channels[10].err);
    assert!(dma.channels[10].tcd.done);
    // The eight source bytes wrapped twice around the four-byte ring: the
    // ring holds the last four.
    for a in 0..4 {
        assert_eq!(mem.read_byte(64 + a), 0x14 + a as u8);
    }
    assert_eq!(mem.read_byte(68), 0);
}
