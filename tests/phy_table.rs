use sx12xx::phy::{LorawanRadio, PhyError, PhyEvent, PhyResponse, RadioCommand, RadioConfig, State, Step};
use sx12xx::radio::{
    DriverState, Event, Bandwidth, LoRaCodingRate, LoRaSpreadingFactor, Response, RxMetadata,
    RxQuality, Sx12xx,
};

fn cfg() -> RadioConfig {
    RadioConfig {
        frequency: 902_300_000,
        power: 14,
        bandwidth: Bandwidth::Khz125,
        spreading_factor: LoRaSpreadingFactor::Sf10,
        coding_rate: LoRaCodingRate::Cr45,
    }
}

fn radio_in(state: State) -> LorawanRadio {
    let mut radio = LorawanRadio::new(Sx12xx::new());
    match state {
        State::Idle => {}
        State::Txing => {
            radio.handle_event(PhyEvent::TxRequest(cfg(), vec![1]));
        }
        State::Rxing => {
            radio.handle_event(PhyEvent::RxRequest(cfg()));
        }
    }
    assert_eq!(radio.state(), state);
    radio
}

fn settled(step: Step) -> (Result<PhyResponse, PhyError>, Vec<RadioCommand>) {
    match step {
        Step::Settled(result, commands) => (result, commands),
        Step::QueryOutcome(e) => panic!("unexpected query for {:?}", e),
    }
}

fn check_rejected(state: State, event: PhyEvent, error: PhyError) {
    let mut radio = radio_in(state);
    let (result, commands) = settled(radio.handle_event(event));
    assert_eq!(result, Err(error));
    assert!(commands.is_empty());
    assert_eq!(radio.state(), state);
}

#[test]
fn idle_tx_request_starts_transmission() {
    let mut radio = radio_in(State::Idle);
    let (result, commands) = settled(radio.handle_event(PhyEvent::TxRequest(cfg(), vec![9, 8])));
    assert_eq!(result, Ok(PhyResponse::Txing));
    assert_eq!(radio.state(), State::Txing);
    assert_eq!(commands.len(), 3);
    assert!(matches!(commands[0], RadioCommand::SetFrequency(902_300_000)));
    match &commands[1] {
        RadioCommand::ConfigureTx(p) => {
            assert_eq!(p.power, 14);
            assert_eq!(p.bandwidth, 0);
            assert_eq!(p.datarate, 10);
            assert_eq!(p.coderate, 1);
        }
        other => panic!("unexpected {:?}", other),
    }
    match &commands[2] {
        RadioCommand::Send(payload) => assert_eq!(payload, &vec![9, 8]),
        other => panic!("unexpected {:?}", other),
    }
}

#[test]
fn idle_rx_request_starts_reception() {
    let mut radio = radio_in(State::Idle);
    let (result, commands) = settled(radio.handle_event(PhyEvent::RxRequest(cfg())));
    assert_eq!(result, Ok(PhyResponse::Rxing));
    assert_eq!(radio.state(), State::Rxing);
    assert_eq!(commands.len(), 3);
    assert!(matches!(commands[0], RadioCommand::SetFrequency(902_300_000)));
    match &commands[1] {
        RadioCommand::ConfigureRx(p) => {
            assert_eq!(p.bandwidth, 0);
            assert_eq!(p.datarate, 10);
            assert_eq!(p.coderate, 1);
            assert_eq!(p.symb_timeout, 5);
            assert!(p.iq_inverted);
            assert!(p.rx_continuous);
        }
        other => panic!("unexpected {:?}", other),
    }
    assert!(matches!(commands[2], RadioCommand::StartRx));
}

#[test]
fn idle_interrupt_is_unexpected() {
    check_rejected(State::Idle, PhyEvent::PhyInterrupt(Event::DIO0(3)), PhyError::UnexpectedPhyEvent);
}

#[test]
fn idle_cancel_rx_is_rejected() {
    check_rejected(State::Idle, PhyEvent::CancelRx, PhyError::CancelRxWhileIdle);
}

#[test]
fn txing_interrupt_queries_driver() {
    let mut radio = radio_in(State::Txing);
    match radio.handle_event(PhyEvent::PhyInterrupt(Event::DIO0(7))) {
        Step::QueryOutcome(e) => assert_eq!(e, Event::DIO0(7)),
        other => panic!("unexpected {:?}", other),
    }
    assert_eq!(radio.state(), State::Txing);
    assert_eq!(radio.complete(Response::TxDone(7)), Ok(PhyResponse::TxDone(7)));
    assert_eq!(radio.state(), State::Idle);
}

#[test]
fn txing_interrupt_without_completion_stays() {
    for outcome in [Response::Busy, Response::TxTimeout, Response::RxTimeout, Response::RxError] {
        let mut radio = radio_in(State::Txing);
        assert_eq!(radio.complete(outcome), Ok(PhyResponse::Txing));
        assert_eq!(radio.state(), State::Txing);
    }
    let mut radio = radio_in(State::Txing);
    let q = RxQuality::new(-80, 5);
    assert_eq!(radio.complete(Response::RxDone(1, q)), Ok(PhyResponse::Txing));
    assert_eq!(radio.state(), State::Txing);
}

#[test]
fn txing_tx_request_is_rejected() {
    check_rejected(State::Txing, PhyEvent::TxRequest(cfg(), vec![1, 2]), PhyError::TxRequestDuringTx);
}

#[test]
fn txing_rx_request_is_rejected() {
    check_rejected(State::Txing, PhyEvent::RxRequest(cfg()), PhyError::RxRequestDuringTx);
}

#[test]
fn txing_cancel_rx_is_rejected() {
    check_rejected(State::Txing, PhyEvent::CancelRx, PhyError::CancelRxDuringTx);
}

#[test]
fn rxing_interrupt_queries_driver() {
    let mut radio = radio_in(State::Rxing);
    match radio.handle_event(PhyEvent::PhyInterrupt(Event::DIO0(11))) {
        Step::QueryOutcome(e) => assert_eq!(e, Event::DIO0(11)),
        other => panic!("unexpected {:?}", other),
    }
    assert_eq!(radio.state(), State::Rxing);
    let q = RxQuality::new(-101, -3);
    assert_eq!(radio.complete(Response::RxDone(11, q)), Ok(PhyResponse::RxDone(q)));
    assert_eq!(radio.state(), State::Idle);
}

#[test]
fn rxing_interrupt_without_completion_stays() {
    for outcome in [Response::Busy, Response::TxDone(4), Response::RxTimeout, Response::RxError] {
        let mut radio = radio_in(State::Rxing);
        assert_eq!(radio.complete(outcome), Ok(PhyResponse::Rxing));
        assert_eq!(radio.state(), State::Rxing);
    }
}

#[test]
fn rxing_cancel_rx_returns_to_idle() {
    let mut radio = radio_in(State::Rxing);
    let (result, commands) = settled(radio.handle_event(PhyEvent::CancelRx));
    assert_eq!(result, Ok(PhyResponse::Idle));
    assert!(commands.is_empty());
    assert_eq!(radio.state(), State::Idle);
}

#[test]
fn rxing_tx_request_is_rejected() {
    check_rejected(State::Rxing, PhyEvent::TxRequest(cfg(), vec![]), PhyError::TxRequestDuringTx);
}

#[test]
fn rxing_rx_request_is_rejected() {
    check_rejected(State::Rxing, PhyEvent::RxRequest(cfg()), PhyError::RxRequestDuringRx);
}

#[test]
fn complete_while_idle_is_unexpected() {
    let mut radio = radio_in(State::Idle);
    assert_eq!(radio.complete(Response::TxDone(1)), Err(PhyError::UnexpectedPhyEvent));
    assert_eq!(radio.state(), State::Idle);
}

#[test]
fn cancel_rx_while_idle_repeatedly() {
    let mut radio = radio_in(State::Idle);
    for _ in 0..10 {
        let (result, commands) = settled(radio.handle_event(PhyEvent::CancelRx));
        assert_eq!(result, Err(PhyError::CancelRxWhileIdle));
        assert!(commands.is_empty());
        assert_eq!(radio.state(), State::Idle);
    }
}

#[test]
fn transmit_then_tx_done() {
    let mut radio = LorawanRadio::new(Sx12xx::new());
    let (result, commands) =
        settled(radio.handle_event(PhyEvent::TxRequest(cfg(), vec![0xDE, 0xAD, 0xBE, 0xEF])));
    assert_eq!(result, Ok(PhyResponse::Txing));
    assert_eq!(radio.state(), State::Txing);
    match &commands[2] {
        RadioCommand::Send(payload) => assert_eq!(payload, &vec![0xDE, 0xAD, 0xBE, 0xEF]),
        other => panic!("unexpected {:?}", other),
    }
    let irq = match radio.handle_event(PhyEvent::PhyInterrupt(Event::DIO0(42))) {
        Step::QueryOutcome(e) => e,
        other => panic!("unexpected {:?}", other),
    };
    let none = RxMetadata { rx_len: 0, rssi: 0, snr: 0 };
    let result = radio.handle_driver_report(irq, DriverState::TxDone, none, &[]);
    assert_eq!(result, Ok(PhyResponse::TxDone(42)));
    assert_eq!(radio.state(), State::Idle);
}

#[test]
fn receive_then_cancel() {
    let mut radio = LorawanRadio::new(Sx12xx::new());
    let (result, _) = settled(radio.handle_event(PhyEvent::RxRequest(cfg())));
    assert_eq!(result, Ok(PhyResponse::Rxing));
    assert_eq!(radio.state(), State::Rxing);
    let (result, commands) = settled(radio.handle_event(PhyEvent::CancelRx));
    assert_eq!(result, Ok(PhyResponse::Idle));
    assert!(commands.is_empty());
    assert_eq!(radio.state(), State::Idle);
    assert!(radio.get_received_packet().is_empty());
}

#[test]
fn receive_packet_through_driver_report() {
    let mut radio = radio_in(State::Rxing);
    let raw = [1u8, 2, 3, 4, 5, 6];
    let md = RxMetadata { rx_len: 4, rssi: -90, snr: 7 };
    let result = radio.handle_driver_report(Event::DIO0(100), DriverState::RxDone, md, &raw);
    assert_eq!(result, Ok(PhyResponse::RxDone(RxQuality::new(-90, 7))));
    assert_eq!(radio.state(), State::Idle);
    assert_eq!(radio.get_received_packet(), &[1, 2, 3, 4]);
}

#[test]
fn rx_window_timings() {
    let radio = LorawanRadio::new(Sx12xx::new());
    assert_eq!(radio.get_rx_window_offset_ms(), -500);
    assert_eq!(radio.get_rx_window_duration_ms(), 750);
}

#[test]
fn spurious_completion_keeps_transmission_pending() {
    let mut radio = radio_in(State::Txing);
    let none = RxMetadata { rx_len: 0, rssi: 0, snr: 0 };
    let result = radio.handle_driver_report(Event::DIO2(5), DriverState::TxDone, none, &[]);
    assert_eq!(result, Ok(PhyResponse::Txing));
    assert_eq!(radio.state(), State::Txing);
}
