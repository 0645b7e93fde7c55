//! The PHY state machine: the single half-duplex radio is idle, sending or
//! receiving, and every (state, event) pair has one defined outcome.
use vstd::prelude::*;
use crate::radio::{
    keeps_packet, lora_bandwidth, lora_rx_params, lora_tx_params, outcome_response, Bandwidth,
    DriverState, Event, LoRaCodingRate, LoRaSpreadingFactor, Response, RxMetadata, RxParams,
    RxQuality, Settings, Sx12xx, TxParams,
};

verus! {

/// What the radio is engaged in.
#[derive(Clone, Copy, Debug, PartialEq, Eq, Structural)]
pub enum State {
    Idle,
    Txing,
    Rxing,
}

/// The radio configuration of one transmission or reception.
#[derive(Clone, Copy, Debug, PartialEq, Eq, Structural)]
pub struct RadioConfig {
    /// Channel frequency in Hz.
    pub frequency: u32,
    /// Transmit power in dBm; not used when receiving.
    pub power: i8,
    pub bandwidth: Bandwidth,
    pub spreading_factor: LoRaSpreadingFactor,
    pub coding_rate: LoRaCodingRate,
}

/// A request of the upper layer, or a radio interrupt.
#[derive(Clone, Debug)]
pub enum PhyEvent {
    TxRequest(RadioConfig, Vec<u8>),
    RxRequest(RadioConfig),
    CancelRx,
    PhyInterrupt(Event),
}

/// What the state machine reports to the upper layer.
#[derive(Clone, Copy, Debug, PartialEq, Eq, Structural)]
pub enum PhyResponse {
    Txing,
    TxDone(u32),
    Rxing,
    RxDone(RxQuality),
    Idle,
}

/// A request that the current state does not allow, or an interrupt while
/// idle. None of them changes the state.
#[derive(Clone, Copy, Debug, PartialEq, Eq, Structural)]
pub enum PhyError {
    UnexpectedPhyEvent,
    CancelRxWhileIdle,
    TxRequestDuringTx,
    RxRequestDuringTx,
    CancelRxDuringTx,
    RxRequestDuringRx,
}

/// A call that the driver is to make, in the order given.
#[derive(Clone, Debug)]
pub enum RadioCommand {
    SetFrequency(u32),
    ConfigureTx(TxParams),
    Send(Vec<u8>),
    ConfigureRx(RxParams),
    StartRx,
}

/// The first half of handling an event.
#[derive(Debug)]
pub enum Step {
    /// The event is handled: its result, and the driver calls to make.
    Settled(Result<PhyResponse, PhyError>, Vec<RadioCommand>),
    /// The driver must be asked what this interrupt means; its answer goes to
    /// `LorawanRadio::complete`.
    QueryOutcome(Event),
}

/// An interrupt during a transmission or reception is settled by the
/// driver's outcome.
pub open spec fn awaits_outcome(s: State, e: PhyEvent) -> bool {
    e is PhyInterrupt && !(s is Idle)
}

/// The state after an event that does not await an outcome.
pub open spec fn settled_state(s: State, e: PhyEvent) -> State {
    match (s, e) {
        (State::Idle, PhyEvent::TxRequest(_, _)) => State::Txing,
        (State::Idle, PhyEvent::RxRequest(_)) => State::Rxing,
        (State::Rxing, PhyEvent::CancelRx) => State::Idle,
        _ => s,
    }
}

/// The result of an event that does not await an outcome.
pub open spec fn settled_result(s: State, e: PhyEvent) -> Result<PhyResponse, PhyError> {
    match s {
        State::Idle => match e {
            PhyEvent::TxRequest(_, _) => Ok(PhyResponse::Txing),
            PhyEvent::RxRequest(_) => Ok(PhyResponse::Rxing),
            PhyEvent::PhyInterrupt(_) => Err(PhyError::UnexpectedPhyEvent),
            PhyEvent::CancelRx => Err(PhyError::CancelRxWhileIdle),
        },
        State::Txing => match e {
            PhyEvent::TxRequest(_, _) => Err(PhyError::TxRequestDuringTx),
            PhyEvent::RxRequest(_) => Err(PhyError::RxRequestDuringTx),
            PhyEvent::CancelRx => Err(PhyError::CancelRxDuringTx),
            PhyEvent::PhyInterrupt(_) => Ok(PhyResponse::Txing),
        },
        State::Rxing => match e {
            PhyEvent::TxRequest(_, _) => Err(PhyError::TxRequestDuringTx),
            PhyEvent::RxRequest(_) => Err(PhyError::RxRequestDuringRx),
            PhyEvent::CancelRx => Ok(PhyResponse::Idle),
            PhyEvent::PhyInterrupt(_) => Ok(PhyResponse::Rxing),
        },
    }
}

/// The driver calls of an event that does not await an outcome: only a
/// request while idle engages the radio.
pub open spec fn settled_commands(settings: Settings, s: State, e: PhyEvent) -> Seq<RadioCommand> {
    match (s, e) {
        (State::Idle, PhyEvent::TxRequest(cfg, payload)) => seq![
            RadioCommand::SetFrequency(cfg.frequency),
            RadioCommand::ConfigureTx(
                lora_tx_params(
                    settings,
                    cfg.power,
                    lora_bandwidth(cfg.bandwidth),
                    cfg.spreading_factor,
                    cfg.coding_rate,
                ),
            ),
            RadioCommand::Send(payload),
        ],
        (State::Idle, PhyEvent::RxRequest(cfg)) => seq![
            RadioCommand::SetFrequency(cfg.frequency),
            RadioCommand::ConfigureRx(
                lora_rx_params(
                    settings,
                    lora_bandwidth(cfg.bandwidth),
                    cfg.spreading_factor,
                    cfg.coding_rate,
                ),
            ),
            RadioCommand::StartRx,
        ],
        _ => Seq::empty(),
    }
}

/// The state after the driver reported `outcome` on an interrupt. A fault or
/// a spurious interrupt leaves the operation pending.
pub open spec fn completed_state(s: State, outcome: Response) -> State {
    match (s, outcome) {
        (State::Txing, Response::TxDone(_)) => State::Idle,
        (State::Rxing, Response::RxDone(_, _)) => State::Idle,
        _ => s,
    }
}

/// The result once the driver reported `outcome` on an interrupt.
pub open spec fn completed_result(s: State, outcome: Response) -> Result<PhyResponse, PhyError> {
    match s {
        State::Idle => Err(PhyError::UnexpectedPhyEvent),
        State::Txing => match outcome {
            Response::TxDone(t) => Ok(PhyResponse::TxDone(t)),
            _ => Ok(PhyResponse::Txing),
        },
        State::Rxing => match outcome {
            Response::RxDone(_, q) => Ok(PhyResponse::RxDone(q)),
            _ => Ok(PhyResponse::Rxing),
        },
    }
}


/// The driver adapter together with the state of the radio.
pub struct LorawanRadio {
    sx12xx: Sx12xx,
    radio_state: State,
}

impl LorawanRadio {
    /// What the radio is engaged in.
    pub closed spec fn state_spec(&self) -> State {
        self.radio_state
    }

    /// The driver adapter.
    pub closed spec fn sx12xx_spec(&self) -> Sx12xx {
        self.sx12xx
    }

    /// An idle radio over the given driver adapter.
    pub fn new(sx12xx: Sx12xx) -> (r: LorawanRadio)
        ensures
            r.state_spec() is Idle,
            r.sx12xx_spec() == sx12xx,
    {
        LorawanRadio { sx12xx, radio_state: State::Idle }
    }

    /// What the radio is engaged in.
    pub fn state(&self) -> (r: State)
        ensures
            r == self.state_spec(),
    {
        self.radio_state
    }

    /// The driver adapter, to change its settings.
    pub fn get_sx12xx(&mut self) -> (r: &mut Sx12xx)
        ensures
            *r == old(self).sx12xx_spec(),
            final(self).sx12xx_spec() == *final(r),
            final(self).state_spec() == old(self).state_spec(),
    {
        &mut self.sx12xx
    }

    /// The bytes of the last received packet.
    pub fn get_received_packet(&self) -> (r: &[u8])
        ensures
            r@ == self.sx12xx_spec().received(),
            r@.len() <= 256,
    {
        self.sx12xx.get_rx()
    }

    /// Offset, in milliseconds, of a receive window from its nominal start.
    pub fn get_rx_window_offset_ms(&self) -> (r: i32)
        ensures
            r == -500,
    {
        -500
    }

    /// Length of a receive window in milliseconds.
    pub fn get_rx_window_duration_ms(&self) -> (r: u32)
        ensures
            r == 750,
    {
        750
    }

    /// Handles an event. A request while idle engages the radio and lists the
    /// driver calls that do so; an interrupt during a transmission or
    /// reception asks for the driver's outcome; every other pair is answered
    /// at once and changes nothing.
    pub fn handle_event(&mut self, event: PhyEvent) -> (r: Step)
        ensures
            final(self).sx12xx_spec() == old(self).sx12xx_spec(),
            awaits_outcome(old(self).state_spec(), event) ==> {
                &&& r == Step::QueryOutcome(event->PhyInterrupt_0)
                &&& final(self).state_spec() == old(self).state_spec()
            },
            !awaits_outcome(old(self).state_spec(), event) ==> {
                &&& r matches Step::Settled(result, commands)
                &&& result == settled_result(old(self).state_spec(), event)
                &&& commands@ == settled_commands(
                    old(self).sx12xx_spec().settings_spec(),
                    old(self).state_spec(),
                    event,
                )
                &&& final(self).state_spec() == settled_state(old(self).state_spec(), event)
            },
    {
        match self.radio_state {
            State::Idle => match event {
                PhyEvent::TxRequest(cfg, payload) => {
                    let params = self.sx12xx.configure_lora_tx(
                        cfg.power,
                        cfg.bandwidth.to_lora(),
                        cfg.spreading_factor,
                        cfg.coding_rate,
                    );
                    let mut commands: Vec<RadioCommand> = Vec::new();
                    commands.push(RadioCommand::SetFrequency(cfg.frequency));
                    commands.push(RadioCommand::ConfigureTx(params));
                    commands.push(RadioCommand::Send(payload));
                    self.radio_state = State::Txing;
                    Step::Settled(Ok(PhyResponse::Txing), commands)
                },
                PhyEvent::RxRequest(cfg) => {
                    let params = self.sx12xx.configure_lora_rx(
                        cfg.bandwidth.to_lora(),
                        cfg.spreading_factor,
                        cfg.coding_rate,
                    );
                    let mut commands: Vec<RadioCommand> = Vec::new();
                    commands.push(RadioCommand::SetFrequency(cfg.frequency));
                    commands.push(RadioCommand::ConfigureRx(params));
                    commands.push(RadioCommand::StartRx);
                    self.radio_state = State::Rxing;
                    Step::Settled(Ok(PhyResponse::Rxing), commands)
                },
                PhyEvent::PhyInterrupt(_) => Step::Settled(
                    Err(PhyError::UnexpectedPhyEvent),
                    Vec::new(),
                ),
                PhyEvent::CancelRx => Step::Settled(Err(PhyError::CancelRxWhileIdle), Vec::new()),
            },
            State::Txing => match event {
                PhyEvent::PhyInterrupt(irq) => Step::QueryOutcome(irq),
                PhyEvent::TxRequest(_, _) => Step::Settled(
                    Err(PhyError::TxRequestDuringTx),
                    Vec::new(),
                ),
                PhyEvent::RxRequest(_) => Step::Settled(Err(PhyError::RxRequestDuringTx), Vec::new()),
                PhyEvent::CancelRx => Step::Settled(Err(PhyError::CancelRxDuringTx), Vec::new()),
            },
            State::Rxing => match event {
                PhyEvent::PhyInterrupt(irq) => Step::QueryOutcome(irq),
                PhyEvent::CancelRx => {
                    self.radio_state = State::Idle;
                    Step::Settled(Ok(PhyResponse::Idle), Vec::new())
                },
                PhyEvent::TxRequest(_, _) => Step::Settled(
                    Err(PhyError::TxRequestDuringTx),
                    Vec::new(),
                ),
                PhyEvent::RxRequest(_) => Step::Settled(Err(PhyError::RxRequestDuringRx), Vec::new()),
            },
        }
    }

    /// Settles an interrupt with the driver's outcome: a completion of the
    /// kind in progress returns the radio to idle; anything else leaves the
    /// operation pending. While idle no interrupt is expected.
    pub fn complete(&mut self, outcome: Response) -> (r: Result<PhyResponse, PhyError>)
        ensures
            r == completed_result(old(self).state_spec(), outcome),
            final(self).state_spec() == completed_state(old(self).state_spec(), outcome),
            final(self).sx12xx_spec() == old(self).sx12xx_spec(),
    {
        match self.radio_state {
            State::Idle => Err(PhyError::UnexpectedPhyEvent),
            State::Txing => match outcome {
                Response::TxDone(t) => {
                    self.radio_state = State::Idle;
                    Ok(PhyResponse::TxDone(t))
                },
                _ => Ok(PhyResponse::Txing),
            },
            State::Rxing => match outcome {
                Response::RxDone(_, quality) => {
                    self.radio_state = State::Idle;
                    Ok(PhyResponse::RxDone(quality))
                },
                _ => Ok(PhyResponse::Rxing),
            },
        }
    }

    /// Settles an interrupt with what the driver reported on it: the report
    /// becomes a `Response` (keeping a received packet), which then settles
    /// the state as `complete` does.
    pub fn handle_driver_report(
        &mut self,
        irq: Event,
        state: DriverState,
        metadata: RxMetadata,
        received: &[u8],
    ) -> (r: Result<PhyResponse, PhyError>)
        ensures
            r == completed_result(
                old(self).state_spec(),
                outcome_response(irq, state, metadata, received@.len()),
            ),
            final(self).state_spec() == completed_state(
                old(self).state_spec(),
                outcome_response(irq, state, metadata, received@.len()),
            ),
            final(self).sx12xx_spec().settings_spec() == old(self).sx12xx_spec().settings_spec(),
            keeps_packet(irq, state, metadata, received@.len()) ==> final(self).sx12xx_spec().received()
                == received@.subrange(0, metadata.rx_len as int),
            !keeps_packet(irq, state, metadata, received@.len()) ==> final(self).sx12xx_spec().received()
                == old(self).sx12xx_spec().received(),
    {
        let outcome = self.sx12xx.handle_event(irq, state, metadata, received);
        self.complete(outcome)
    }
}

/// The state after a sequence of events none of which awaits an outcome.
pub open spec fn settle_all(s: State, events: Seq<PhyEvent>) -> State
    decreases events.len(),
{
    if events.len() == 0 {
        s
    } else {
        settled_state(settle_all(s, events.drop_last()), events.last())
    }
}

/// `n` cancellations in a row.
pub open spec fn cancellations(n: nat) -> Seq<PhyEvent> {
    Seq::new(n, |i: int| PhyEvent::CancelRx)
}

/// A rejected event changes nothing: the state stays and no driver call is
/// made. Only a request while idle calls the driver, and it then starts a
/// transmission or a reception.
pub proof fn rejected_events_change_nothing(settings: Settings, s: State, e: PhyEvent)
    requires
        !awaits_outcome(s, e),
    ensures
        settled_result(s, e) is Err ==> settled_state(s, e) == s && settled_commands(
            settings,
            s,
            e,
        ).len() == 0,
        settled_commands(settings, s, e).len() > 0 ==> s is Idle && (settled_state(s, e) is Txing
            || settled_state(s, e) is Rxing),
{
}

/// Cancelling a reception while idle fails every time and never moves the
/// state: after any number of such calls the next one fails the same way,
/// with no driver call.
pub proof fn cancel_rx_while_idle_is_idempotent(settings: Settings, n: nat)
    ensures
        settle_all(State::Idle, cancellations(n)) is Idle,
        settled_result(settle_all(State::Idle, cancellations(n)), PhyEvent::CancelRx) == Err::<
            PhyResponse,
            PhyError,
        >(PhyError::CancelRxWhileIdle),
        settled_commands(
            settings,
            settle_all(State::Idle, cancellations(n)),
            PhyEvent::CancelRx,
        ).len() == 0,
    decreases n,
{
    if n > 0 {
        assert(cancellations(n).drop_last() =~= cancellations((n - 1) as nat));
        cancel_rx_while_idle_is_idempotent(settings, (n - 1) as nat);
    }
}

/// A transmission requested while idle is reported as under way, waits for
/// the driver on the next interrupt, and the driver's completion returns the
/// radio to idle with the completion's timestamp.
pub proof fn transmission_round_trip(cfg: RadioConfig, payload: Vec<u8>, irq: Event, t: u32)
    ensures
        settled_state(State::Idle, PhyEvent::TxRequest(cfg, payload)) is Txing,
        settled_result(State::Idle, PhyEvent::TxRequest(cfg, payload)) == Ok::<
            PhyResponse,
            PhyError,
        >(PhyResponse::Txing),
        awaits_outcome(State::Txing, PhyEvent::PhyInterrupt(irq)),
        completed_state(State::Txing, Response::TxDone(t)) is Idle,
        completed_result(State::Txing, Response::TxDone(t)) == Ok::<PhyResponse, PhyError>(
            PhyResponse::TxDone(t),
        ),
{
}

/// A reception requested while idle is reported as under way, and
/// cancelling it returns the radio to idle at once, with no driver call.
pub proof fn reception_cancel_round_trip(settings: Settings, cfg: RadioConfig)
    ensures
        settled_state(State::Idle, PhyEvent::RxRequest(cfg)) is Rxing,
        settled_result(State::Idle, PhyEvent::RxRequest(cfg)) == Ok::<PhyResponse, PhyError>(
            PhyResponse::Rxing,
        ),
        !awaits_outcome(State::Rxing, PhyEvent::CancelRx),
        settled_state(State::Rxing, PhyEvent::CancelRx) is Idle,
        settled_result(State::Rxing, PhyEvent::CancelRx) == Ok::<PhyResponse, PhyError>(
            PhyResponse::Idle,
        ),
        settled_commands(settings, State::Rxing, PhyEvent::CancelRx).len() == 0,
{
}

/// The radio is never configured with the reserved bandwidth code: every
/// configuration that a request hands the driver uses 125, 250 or 500 kHz.
pub proof fn requests_never_use_reserved_bandwidth(settings: Settings, s: State, e: PhyEvent)
    ensures
        forall|i: int|
            0 <= i < settled_commands(settings, s, e).len() ==> {
                &&& #[trigger] settled_commands(settings, s, e)[i] matches RadioCommand::ConfigureTx(p)
                    ==> p.bandwidth <= 2
                &&& settled_commands(settings, s, e)[i] matches RadioCommand::ConfigureRx(p) ==> p.bandwidth
                    <= 2
            },
{
}

} // verus!
