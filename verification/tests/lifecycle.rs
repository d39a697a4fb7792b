//! Channel allocation, the transfer life-cycle, and interrupt dispatch.

use imxrt_dma::channel::{BandwidthControl, ChannelConfiguration, MUX_A_ON, MUX_ENBL, MUX_TRIG};
use imxrt_dma::element::{Buffer, ElementSize};
use imxrt_dma::engine::{service, set_hardware_request, Memory};
use imxrt_dma::interrupt::{Transfer, TransferPoll};
use imxrt_dma::memcpy::memcpy;
use imxrt_dma::Dma;

#[test]
fn channel_allocation_is_exclusive() {
    let mut dma: Dma<u32> = Dma::new(32);
    let five = dma.channel(5).expect("channel 5 free");
    assert_eq!(five.channel(), 5);
    assert!(dma.channel(5).is_none());
    let other = dma.channel(6).expect("channel 6 free");
    assert_eq!(other.channel(), 6);
    dma.release_channel(five);
    assert!(dma.channel(5).is_some());
    assert!(dma.channel(32).is_none());
    assert!(dma.channel(99).is_none());
}

#[test]
fn reset_reports_idle_on_every_channel() {
    let mut dma: Dma<u32> = Dma::new(32);
    for index in 0..32 {
        let mut ch = dma.channel(index).expect("channel free");
        // Dirty the channel first so the reset has something to clear.
        ch.enable(&mut dma);
        ch.set_minor_loop_bytes(&mut dma, 64);
        ch.reset(&mut dma);
        assert!(!ch.is_enabled(&dma));
        assert!(!ch.is_active(&dma));
        assert!(!ch.is_complete(&dma));
        assert!(!ch.is_error(&dma));
        dma.release_channel(ch);
    }
}

#[test]
fn first_poll_arms_and_suspends() {
    let mut dma: Dma<u32> = Dma::new(32);
    let mut ch = dma.channel(3).expect("channel free");
    ch.reset(&mut dma);
    let transfer = Transfer::new(ch);
    assert_eq!(transfer.poll(&mut dma, 71), TransferPoll::Pending);
    assert!(transfer.channel().is_enabled(&dma));
    assert_eq!(dma.wakers[3], Some(71));
    // A second poll of the armed, still-running transfer suspends again and
    // re-registers the caller's waker, last writer wins.
    assert_eq!(transfer.poll(&mut dma, 72), TransferPoll::Pending);
    assert_eq!(dma.wakers[3], Some(72));
}

#[test]
fn cancelling_a_pending_transfer_quiesces_the_channel() {
    let mut dma: Dma<u32> = Dma::new(32);
    let mut ch = dma.channel(4).expect("channel free");
    ch.reset(&mut dma);
    let transfer = Transfer::new(ch);
    assert_eq!(transfer.poll(&mut dma, 9), TransferPoll::Pending);
    let ch = transfer.cancel(&mut dma);
    assert!(!ch.is_enabled(&dma));
    assert!(!ch.is_complete(&dma));
    assert!(!ch.is_error(&dma));
    assert_eq!(dma.wakers[4], None);
}

#[test]
fn cancelling_a_faulted_transfer_clears_the_flags() {
    let mut dma: Dma<u32> = Dma::new(32);
    let mut mem = Memory::new(256);
    let mut ch = dma.channel(6).expect("channel free");
    ch.reset(&mut dma);
    // A zero minor-loop byte count is unexecutable: the controller flags it.
    ch.set_transfer_iterations(&mut dma, 1);
    let transfer = Transfer::new(ch);
    assert_eq!(transfer.poll(&mut dma, 1), TransferPoll::Pending);
    service(&mut dma, &mut mem, 6);
    assert!(transfer.channel().is_error(&dma));
    let ch = transfer.cancel(&mut dma);
    assert!(!ch.is_enabled(&dma));
    assert!(!ch.is_complete(&dma));
    assert!(!ch.is_error(&dma));
    assert_eq!(dma.wakers[6], None);
}

#[test]
fn interrupt_without_event_is_a_no_op() {
    let mut dma: Dma<u32> = Dma::new(32);
    let mut ch = dma.channel(2).expect("channel free");
    ch.reset(&mut dma);
    let transfer = Transfer::new(ch);
    assert_eq!(transfer.poll(&mut dma, 33), TransferPoll::Pending);
    // Neither completion nor error: nobody is woken, the slot is untouched.
    assert_eq!(dma.on_interrupt(2), None);
    assert_eq!(dma.on_interrupt(2), None);
    assert_eq!(dma.wakers[2], Some(33));
}

#[test]
fn interrupt_on_completion_wakes_exactly_once() {
    let mut dma: Dma<u32> = Dma::new(32);
    let mut mem = Memory::new(512);
    for a in 0..16 {
        mem.write_byte(a, a as u8 + 1);
    }
    let source = Buffer { address: 0, len: 16, size: ElementSize::One };
    let destination = Buffer { address: 64, len: 16, size: ElementSize::One };
    let mut ch = dma.channel(2).expect("channel free");
    ch.reset(&mut dma);
    ch.set_interrupt_on_completion(&mut dma, true);
    let copy = memcpy(source, destination, ch, &mut dma);
    assert_eq!(copy.poll(&mut dma, 55), TransferPoll::Pending);
    service(&mut dma, &mut mem, 2);
    // The transfer completed and raised the interrupt flag; the dispatch
    // routine hands the registered waker back exactly once.
    assert!(dma.channels[2].int);
    assert_eq!(dma.on_interrupt(2), Some(55));
    assert!(!dma.channels[2].int);
    assert_eq!(dma.wakers[2], None);
    assert_eq!(dma.on_interrupt(2), None);
    assert_eq!(copy.poll(&mut dma, 56), TransferPoll::Complete);
}

#[test]
fn shared_error_interrupt_wakes_every_faulted_channel() {
    let mut dma: Dma<u32> = Dma::new(32);
    let mut mem = Memory::new(64);
    let mut faulted = Vec::new();
    for (slot, index) in [(101, 1), (103, 3), (107, 7)] {
        let mut ch = dma.channel(index).expect("channel free");
        ch.reset(&mut dma);
        ch.set_transfer_iterations(&mut dma, 1);
        // Minor loop of zero bytes: the service faults the channel.
        let transfer = Transfer::new(ch);
        assert_eq!(transfer.poll(&mut dma, slot), TransferPoll::Pending);
        service(&mut dma, &mut mem, index as usize);
        faulted.push(transfer);
    }
    let woken = dma.on_error(32);
    assert_eq!(woken, vec![101, 103, 107]);
    assert_eq!(dma.wakers[1], None);
    assert_eq!(dma.wakers[3], None);
    assert_eq!(dma.wakers[7], None);
    // A second scan finds the slots empty and wakes nobody.
    assert_eq!(dma.on_error(32), Vec::<u32>::new());
    for transfer in faulted {
        transfer.cancel(&mut dma);
    }
}

#[test]
fn error_poll_reports_the_status_snapshot() {
    let mut dma: Dma<u32> = Dma::new(32);
    let mut mem = Memory::new(64);
    let mut ch = dma.channel(9).expect("channel free");
    ch.reset(&mut dma);
    ch.set_transfer_iterations(&mut dma, 1);
    let transfer = Transfer::new(ch);
    assert_eq!(transfer.poll(&mut dma, 5), TransferPoll::Pending);
    service(&mut dma, &mut mem, 9);
    match transfer.poll(&mut dma, 5) {
        TransferPoll::Failed(status) => {
            assert!(status.is_valid());
            assert_eq!(status.error_channel(), 9);
            assert!(status.nbytes_citer_error());
            assert!(!status.source_bus_error());
        }
        other => panic!("expected a failed poll, got {:?}", other),
    }
    // The error flag was consumed by the poll that reported it.
    assert!(!transfer.channel().is_error(&dma));
}

#[test]
fn hardware_request_line_is_observable() {
    let mut dma: Dma<u32> = Dma::new(32);
    let mut ch = dma.channel(11).expect("channel free");
    ch.reset(&mut dma);
    assert!(!ch.is_hardware_signaling(&dma));
    set_hardware_request(&mut dma, 11, true);
    assert!(ch.is_hardware_signaling(&dma));
    set_hardware_request(&mut dma, 11, false);
    assert!(!ch.is_hardware_signaling(&dma));
}

#[test]
fn multiplexer_configuration_encodings() {
    let mut dma: Dma<u32> = Dma::new(32);
    let ch = dma.channel(1).expect("channel free");
    ch.set_channel_configuration(&mut dma, ChannelConfiguration::Off);
    assert_eq!(dma.channels[1].chcfg, 0);
    ch.set_channel_configuration(&mut dma, ChannelConfiguration::enable(17));
    assert_eq!(dma.channels[1].chcfg, 17 | MUX_ENBL);
    ch.set_channel_configuration(
        &mut dma,
        ChannelConfiguration::Enable { source: 9, periodic: true },
    );
    assert_eq!(dma.channels[1].chcfg, 9 | MUX_ENBL | MUX_TRIG);
    ch.set_channel_configuration(&mut dma, ChannelConfiguration::AlwaysOn);
    assert_eq!(dma.channels[1].chcfg, MUX_ENBL | MUX_A_ON);
}

#[test]
fn bandwidth_control_encodings() {
    assert_eq!(BandwidthControl::raw(None), 0);
    assert_eq!(BandwidthControl::raw(Some(BandwidthControl::Stall4)), 2);
    assert_eq!(BandwidthControl::raw(Some(BandwidthControl::Stall8)), 3);
    let mut dma: Dma<u32> = Dma::new(32);
    let mut ch = dma.channel(0).expect("channel free");
    ch.set_bandwidth_control(&mut dma, Some(BandwidthControl::Stall8));
    assert_eq!(dma.channels[0].tcd.bwc, 3);
    ch.set_bandwidth_control(&mut dma, None);
    assert_eq!(dma.channels[0].tcd.bwc, 0);
}

#[test]
fn element_size_encodings() {
    assert_eq!(ElementSize::One.bytes(), 1);
    assert_eq!(ElementSize::Two.bytes(), 2);
    assert_eq!(ElementSize::Four.bytes(), 4);
    assert_eq!(ElementSize::One.data_transfer_id(), 0);
    assert_eq!(ElementSize::Two.data_transfer_id(), 1);
    assert_eq!(ElementSize::Four.data_transfer_id(), 2);
}
