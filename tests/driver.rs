use dynamic_traits::consumer::{
    parse, Driver, Event, FeatureState, Pulse, Work, PULSE_HIGH_US, PULSE_LOW_US, RESPONSE_LEN,
};
use dynamic_traits::uart::StreamError;

fn at_full_bus() -> Driver {
    let mut d = Driver::new();
    assert_eq!(d.advance(Event::Degaussed), None);
    assert_eq!(d.state(), FeatureState::FullBus);
    d
}

#[test]
fn driver_starts_powered_on_and_degausses() {
    let d = Driver::new();
    assert_eq!(d.state(), FeatureState::PowerOn);
    assert!(matches!(d.work(), Work::Degauss));
}

#[test]
fn full_bus_writes_startup_sequence_then_reads_four() {
    let d = at_full_bus();
    match d.work() {
        Work::Handshake { payload, read_len } => {
            assert_eq!(payload, vec![0x01, 0x02, 0x03, 0xff]);
            assert_eq!(read_len, 4);
            assert_eq!(RESPONSE_LEN, 4);
        }
        _ => panic!("full bus must hand over the handshake"),
    }
}

#[test]
fn zero_reply_falls_back_to_bit_banging() {
    let mut d = at_full_bus();
    assert_eq!(d.advance(Event::Exchanged(Ok(vec![0, 0, 0, 0]))), None);
    assert_eq!(d.state(), FeatureState::BitBanging);
    assert!(matches!(d.work(), Work::BitBang));
}

#[test]
fn accepted_reply_goes_to_low_power() {
    let mut d = at_full_bus();
    assert_eq!(d.advance(Event::Exchanged(Ok(vec![0x01, 0x02, 0x03, 0xff]))), None);
    assert_eq!(d.state(), FeatureState::LowPower);
    assert!(matches!(d.work(), Work::Idle));
}

#[test]
fn stream_error_falls_back_to_bit_banging() {
    let mut d = at_full_bus();
    d.advance(Event::Exchanged(Err(StreamError)));
    assert_eq!(d.state(), FeatureState::BitBanging);
}

#[test]
fn short_reply_falls_back_to_bit_banging() {
    let mut d = at_full_bus();
    d.advance(Event::Exchanged(Ok(vec![0xff, 0xff])));
    assert_eq!(d.state(), FeatureState::BitBanging);
}

#[test]
fn low_power_wakes_into_full_bus() {
    let mut d = at_full_bus();
    d.advance(Event::Exchanged(Ok(vec![0, 0, 7, 0])));
    assert_eq!(d.state(), FeatureState::LowPower);
    assert_eq!(d.advance(Event::Woken), None);
    assert_eq!(d.state(), FeatureState::FullBus);
}

#[test]
fn events_of_another_phase_change_nothing() {
    let mut d = Driver::new();
    assert_eq!(d.advance(Event::Woken), None);
    assert_eq!(d.advance(Event::RxLevel(false)), None);
    assert_eq!(d.advance(Event::Exchanged(Ok(vec![1, 1, 1, 1]))), None);
    assert_eq!(d.state(), FeatureState::PowerOn);
}

fn pulses_until_asserted(n: usize) -> usize {
    let mut d = at_full_bus();
    d.advance(Event::Exchanged(Ok(vec![0, 0, 0, 0])));
    let mut polls = 0usize;
    let mut pulses = 0usize;
    loop {
        let asserted = polls >= n;
        polls += 1;
        match d.advance(Event::RxLevel(asserted)) {
            Some(p) => {
                assert_eq!(p, Pulse { high_us: 150, low_us: 273 });
                pulses += 1;
            }
            None => break,
        }
        assert!(polls <= n + 1);
    }
    assert_eq!(d.state(), FeatureState::FullBus);
    pulses
}

#[test]
fn bit_banging_pulses_once_per_deasserted_poll() {
    assert_eq!(pulses_until_asserted(0), 0);
    assert_eq!(pulses_until_asserted(1), 1);
    assert_eq!(pulses_until_asserted(5), 5);
    assert_eq!(PULSE_HIGH_US, 150);
    assert_eq!(PULSE_LOW_US, 273);
}

#[test]
fn parse_accepts_only_complete_driven_replies() {
    assert!(parse(&[0, 0, 0, 0]).is_err());
    assert!(parse(&[0, 0, 0, 1]).is_ok());
    assert!(parse(&[0x01, 0x02, 0x03, 0xff]).is_ok());
    assert!(parse(&[1, 2, 3]).is_err());
    assert!(parse(&[1, 2, 3, 4, 5]).is_err());
    assert!(parse(&[]).is_err());
}
