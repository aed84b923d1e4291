use thermostat_eem::adc::Adc;
use thermostat_eem::adc::AdcFault;
use thermostat_eem::adc::AdcPins;
use thermostat_eem::adc::ChipSelect;
use thermostat_eem::adc::InputBank;
use thermostat_eem::adc::InputChannel;

fn pins() -> AdcPins {
    AdcPins {
        cs: (
            ChipSelect { line: 0, asserted: false },
            ChipSelect { line: 1, asserted: false },
            ChipSelect { line: 3, asserted: false },
            ChipSelect { line: 4, asserted: false },
        ),
    }
}

// A status word whose ready flag (active low, bit 7) says a conversion waits.
const READY: u8 = 0x00;
const NOT_READY: u8 = 0x80;

#[test]
fn setup_writes_the_fixed_register_sequence() {
    let adc = Adc::new(pins());
    let expected: Vec<(u8, u16)> = vec![
        (0x01, 0x800c), // mode: reference on, continuous, external clock
        (0x02, 0x0040), // interface: status byte appended to data
        (0x10, 0x8001), // channel 0: setup 0, pins 0 and 1
        (0x11, 0x8043), // channel 1: setup 0, pins 2 and 3
        (0x20, 0x0f00), // setup 0: unipolar, all buffers, external reference
        (0x28, 0x0013), // filter 0: sinc5+sinc1 at 10 Hz
    ];
    assert_eq!(adc.adcs.0.log, expected);
    assert_eq!(adc.adcs.1.log, expected);
    assert_eq!(adc.adcs.2.log, expected);
    assert_eq!(adc.adcs.3.log, expected);
    assert_eq!(adc.adcs.0.cache[0], Some(0x800c));
    assert_eq!(adc.adcs.0.cache[5], Some(0x0013));
}

#[test]
fn setup_acknowledgement_failure_is_fatal_for_the_device() {
    let mut adc = Adc::new(pins());
    assert_eq!(adc.confirm_setup(0, &[true; 6]), Ok(()));
    assert!(adc.adcs.0.usable);

    let acks = [true, true, false, true, true, true];
    assert_eq!(adc.confirm_setup(1, &acks), Err(AdcFault::Setup));
    assert!(!adc.adcs.1.usable);
    assert!(adc.adcs.0.usable, "a setup fault on one device leaves the others alone");
}

#[test]
fn poll_returns_nothing_when_no_conversion_is_ready() {
    let mut adc = Adc::new(pins());
    let r = adc.poll(0, NOT_READY, Some([0, 0, 0, 0]), None);
    assert_eq!(r, Ok(None));
}

#[test]
fn poll_decodes_value_and_channel_tag_in_one_read() {
    let mut adc = Adc::new(pins());
    // Device 1, tag 1: thermostat input channel 3; code 0x123456.
    let r = adc.poll(1, READY, Some([0x12, 0x34, 0x56, 0x01]), None);
    let reading = r.unwrap().unwrap();
    assert_eq!(reading.channel, InputChannel::Three);
    assert_eq!(reading.raw_code, 0x123456);
    assert!(reading.data_ready);
}

#[test]
fn poll_retries_a_failed_transaction_once() {
    let mut adc = Adc::new(pins());
    // First transaction lost, retry delivers: the reading comes through.
    let r = adc.poll(2, READY, None, Some([0x00, 0x00, 0x2a, 0x00]));
    let reading = r.unwrap().unwrap();
    assert_eq!(reading.channel, InputChannel::Four);
    assert_eq!(reading.raw_code, 0x2a);
    assert!(adc.adcs.2.usable);

    // Both attempts lost: fatal for this device, and only this device.
    let r = adc.poll(2, READY, None, None);
    assert_eq!(r, Err(AdcFault::Transport));
    assert!(!adc.adcs.2.usable);
    assert!(adc.adcs.0.usable);
    assert!(adc.adcs.1.usable);
    assert!(adc.adcs.3.usable);
}

#[test]
fn malformed_tag_is_a_protocol_fault_and_only_discards_that_sample() {
    let mut adc = Adc::new(pins());
    let mut bank = InputBank::new([0; 8]);
    bank.begin_tick();

    // Channel 3 (device 1, tag 1) delivers a malformed tag of 3.
    let bad = adc.poll(1, READY, Some([0x10, 0x00, 0x00, 0x03]), None);
    assert_eq!(bad, Err(AdcFault::Protocol));
    assert!(adc.adcs.1.usable, "a protocol fault is not fatal");
    bank.apply(&bad, 999);

    // Channels 0..2 and 4..7 still produce readings in the same tick.
    for (device, tag, index) in [
        (0usize, 0u8, 0usize),
        (0, 1, 1),
        (1, 0, 2),
        (2, 0, 4),
        (2, 1, 5),
        (3, 0, 6),
        (3, 1, 7),
    ] {
        let r = adc.poll(device, READY, Some([0, 0, 0x11, tag]), None);
        let reading = r.unwrap().unwrap();
        assert_eq!(reading.channel.index(), index);
        bank.apply(&r, (index as i32 + 1) * 65536);
    }

    for index in 0..8usize {
        if index == 3 {
            assert!(bank.is_stale(InputChannel::try_from(index).unwrap()));
            assert_eq!(bank.temperatures()[index], 0, "the faulted channel keeps its fallback");
        } else {
            assert!(!bank.is_stale(InputChannel::try_from(index).unwrap()));
            assert_eq!(bank.temperatures()[index], (index as i32 + 1) * 65536);
        }
    }

    // And channel 3 recovers in a subsequent tick.
    let r = adc.poll(1, READY, Some([0, 0, 0x22, 0x01]), None);
    assert_eq!(r.unwrap().unwrap().channel, InputChannel::Three);
}

#[test]
fn bus_windows_of_two_devices_never_overlap() {
    let mut adc = Adc::new(pins());

    // Simulate two contexts polling two devices: each tries to open a bus
    // window before the other closed its own. At every step at most one chip
    // select may be asserted.
    assert!(adc.claim_bus(0));
    assert!(!adc.claim_bus(1), "the bus is busy: device 1 must wait");
    assert!(adc.adcs.0.cs.asserted);
    assert!(!adc.adcs.1.cs.asserted);

    adc.release_bus(0);
    assert!(adc.claim_bus(1));
    assert!(!adc.claim_bus(0));
    assert!(!adc.adcs.0.cs.asserted);
    assert!(adc.adcs.1.cs.asserted);
    adc.release_bus(1);

    // Interleaved polling with transactions granted one at a time.
    for step in 0..8 {
        let device = step % 2;
        let r = adc.poll(device, READY, Some([0, 0, step as u8, 0]), None);
        assert!(r.is_ok());
        assert!(!adc.adcs.0.cs.asserted && !adc.adcs.1.cs.asserted);
    }
}

#[test]
fn input_channel_indices_round_trip() {
    for index in 0..8usize {
        let channel = InputChannel::try_from(index).unwrap();
        assert_eq!(channel.index(), index);
    }
    assert_eq!(InputChannel::try_from(8), None);
    assert_eq!(InputChannel::try_from(1000), None);
}

#[test]
fn input_bank_holds_last_known_good_values_across_ticks() {
    let mut bank = InputBank::new([7, 7, 7, 7, 7, 7, 7, 7]);
    bank.record(InputChannel::Five, 42);
    assert_eq!(bank.temperatures(), [7, 7, 7, 7, 7, 42, 7, 7]);
    assert!(!bank.is_stale(InputChannel::Five));
    assert!(bank.is_stale(InputChannel::Zero));

    bank.begin_tick();
    assert_eq!(bank.temperatures(), [7, 7, 7, 7, 7, 42, 7, 7], "values survive a new tick");
    assert!(bank.is_stale(InputChannel::Five), "but staleness is flagged until a fresh reading");
}
