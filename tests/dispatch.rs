use sx12xx::dispatch::{DispatchError, Dispatcher, Pending, QUEUE_CAPACITY};
use sx12xx::phy::{LorawanRadio, PhyEvent, PhyResponse, RadioConfig, State, Step};
use sx12xx::radio::{DriverState, Event, Bandwidth, LoRaCodingRate, LoRaSpreadingFactor, RxMetadata, Sx12xx};
use sx12xx::timer::TimerControl;

fn dispatcher() -> Dispatcher {
    Dispatcher::new(LorawanRadio::new(Sx12xx::new()))
}

#[test]
fn radio_interrupt_starts_count_and_queues_timestamp() {
    let mut d = dispatcher();
    assert_eq!(d.on_radio_interrupt(), Ok(()));
    assert!(d.timer().is_enabled());
    assert_eq!(d.on_tick(), Ok(TimerControl::Restart));
    assert_eq!(d.on_tick(), Ok(TimerControl::Continue));
    assert_eq!(d.on_radio_interrupt(), Ok(()));
    assert_eq!(d.next_pending(), Some(Pending::Radio(Event::DIO0(0))));
    assert_eq!(d.next_pending(), Some(Pending::Radio(Event::DIO0(2))));
    assert_eq!(d.next_pending(), None);
}

#[test]
fn armed_timeout_is_queued_once() {
    let mut d = dispatcher();
    d.arm_timeout(2);
    d.on_tick().unwrap();
    assert_eq!(d.pending_len(), 0);
    d.on_tick().unwrap();
    assert_eq!(d.pending_len(), 1);
    d.on_tick().unwrap();
    assert_eq!(d.pending_len(), 1);
    assert_eq!(d.next_pending(), Some(Pending::TimeoutFired));
}

#[test]
fn disabled_timeout_stops_ticks() {
    let mut d = dispatcher();
    d.arm_timeout(2);
    d.on_tick().unwrap();
    d.disable_timeout();
    assert_eq!(d.on_tick(), Ok(TimerControl::Stop));
    assert_eq!(d.on_tick(), Ok(TimerControl::Stop));
    assert_eq!(d.pending_len(), 0);
}

#[test]
fn full_queue_refuses_events() {
    let mut d = dispatcher();
    for _ in 0..QUEUE_CAPACITY {
        assert_eq!(d.on_radio_interrupt(), Ok(()));
    }
    assert_eq!(d.on_radio_interrupt(), Err(DispatchError::QueueFull));
    assert_eq!(d.pending_len(), QUEUE_CAPACITY);
    d.arm_timeout(0);
    assert_eq!(d.on_tick(), Err(DispatchError::QueueFull));
    assert_eq!(d.pending_len(), QUEUE_CAPACITY);
}

#[test]
fn events_run_through_state_machine() {
    let mut d = dispatcher();
    let cfg = RadioConfig {
        frequency: 868_100_000,
        power: 14,
        bandwidth: Bandwidth::Khz125,
        spreading_factor: LoRaSpreadingFactor::Sf7,
        coding_rate: LoRaCodingRate::Cr45,
    };
    match d.handle_event(PhyEvent::TxRequest(cfg, vec![1, 2, 3])) {
        Step::Settled(r, commands) => {
            assert_eq!(r, Ok(PhyResponse::Txing));
            assert_eq!(commands.len(), 3);
        }
        other => panic!("unexpected {:?}", other),
    }
    d.on_radio_interrupt().unwrap();
    let irq = match d.next_pending() {
        Some(Pending::Radio(e)) => e,
        other => panic!("unexpected {:?}", other),
    };
    let md = RxMetadata { rx_len: 0, rssi: 0, snr: 0 };
    match d.handle_event(PhyEvent::PhyInterrupt(irq)) {
        Step::QueryOutcome(e) => {
            assert_eq!(d.handle_driver_report(e, DriverState::TxDone, md, &[]), Ok(PhyResponse::TxDone(0)));
        }
        other => panic!("unexpected {:?}", other),
    }
    assert_eq!(d.radio().state(), State::Idle);
}
