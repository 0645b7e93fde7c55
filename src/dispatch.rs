//! Interrupt dispatch: the tick and radio interrupts latch their effect at
//! once into the timing state and a queue of pending events; the state
//! machine runs later, at a lower priority, on what the queue hands out.
use vstd::prelude::*;
use crate::phy::{
    awaits_outcome, completed_result, completed_state, settled_commands, settled_result,
    settled_state, LorawanRadio, PhyError, PhyEvent, PhyResponse, Step,
};
use crate::radio::{keeps_packet, outcome_response, DriverState, Event, RxMetadata};
use crate::timer::{
    armed_timer, disabled_timer, latched_timer, tick_control, tick_fires, ticked_timer,
    TimerContext, TimerControl, TimerView,
};

verus! {

/// How many events may wait for the protocol handler.
pub const QUEUE_CAPACITY: usize = 4;

/// An event latched by an interrupt, waiting for the protocol handler.
#[derive(Clone, Copy, Debug, PartialEq, Eq, Structural)]
pub enum Pending {
    /// The radio raised its interrupt line.
    Radio(Event),
    /// The armed timeout fired.
    TimeoutFired,
}

/// The queue of pending events is full; the event was not queued.
#[derive(Clone, Copy, Debug, PartialEq, Eq, Structural)]
pub enum DispatchError {
    QueueFull,
}

/// Owns the radio state machine, the timing state and the pending events.
pub struct Dispatcher {
    radio: LorawanRadio,
    timer: TimerContext,
    queue: Vec<Pending>,
}

impl Dispatcher {
    pub closed spec fn radio_spec(&self) -> LorawanRadio {
        self.radio
    }

    pub closed spec fn timer_spec(&self) -> TimerView {
        self.timer@
    }

    /// The pending events, oldest first.
    pub closed spec fn pending(&self) -> Seq<Pending> {
        self.queue@
    }

    pub closed spec fn wf(&self) -> bool {
        &&& self.timer.wf()
        &&& self.queue@.len() <= QUEUE_CAPACITY
    }

    pub fn new(radio: LorawanRadio) -> (r: Dispatcher)
        ensures
            r.wf(),
            r.radio_spec() == radio,
            r.timer_spec() == crate::timer::initial_timer(),
            r.pending() == Seq::<Pending>::empty(),
    {
        Dispatcher { radio, timer: TimerContext::new(), queue: Vec::new() }
    }

    /// The radio state machine.
    pub fn radio(&self) -> (r: &LorawanRadio)
        ensures
            *r == self.radio_spec(),
    {
        &self.radio
    }

    /// The timing state.
    pub fn timer(&self) -> (r: &TimerContext)
        ensures
            r@ == self.timer_spec(),
    {
        &self.timer
    }

    /// The number of pending events.
    pub fn pending_len(&self) -> (r: usize)
        ensures
            r == self.pending().len(),
    {
        self.queue.len()
    }

    fn enqueue(&mut self, p: Pending) -> (r: Result<(), DispatchError>)
        requires
            old(self).wf(),
        ensures
            final(self).wf(),
            final(self).radio_spec() == old(self).radio_spec(),
            final(self).timer_spec() == old(self).timer_spec(),
            old(self).pending().len() < QUEUE_CAPACITY ==> r is Ok && final(self).pending()
                == old(self).pending().push(p),
            old(self).pending().len() >= QUEUE_CAPACITY ==> r == Err::<(), DispatchError>(
                DispatchError::QueueFull,
            ) && final(self).pending() == old(self).pending(),
    {
        if self.queue.len() < QUEUE_CAPACITY {
            self.queue.push(p);
            Ok(())
        } else {
            Err(DispatchError::QueueFull)
        }
    }

    /// The radio interrupt: latches the running tick count (starting the
    /// count if it was off) and queues the interrupt with that timestamp.
    pub fn on_radio_interrupt(&mut self) -> (r: Result<(), DispatchError>)
        requires
            old(self).wf(),
        ensures
            final(self).wf(),
            final(self).radio_spec() == old(self).radio_spec(),
            final(self).timer_spec() == latched_timer(old(self).timer_spec()).0,
            old(self).pending().len() < QUEUE_CAPACITY ==> r is Ok && final(self).pending()
                == old(self).pending().push(
                Pending::Radio(Event::DIO0(latched_timer(old(self).timer_spec()).1)),
            ),
            old(self).pending().len() >= QUEUE_CAPACITY ==> r == Err::<(), DispatchError>(
                DispatchError::QueueFull,
            ) && final(self).pending() == old(self).pending(),
    {
        let timestamp = self.timer.latch_radio_interrupt();
        self.enqueue(Pending::Radio(Event::DIO0(timestamp)))
    }

    /// The tick interrupt: advances the timing state and queues a fired
    /// timeout. Returns what the hardware timer is to do.
    pub fn on_tick(&mut self) -> (r: Result<TimerControl, DispatchError>)
        requires
            old(self).wf(),
        ensures
            final(self).wf(),
            final(self).radio_spec() == old(self).radio_spec(),
            final(self).timer_spec() == ticked_timer(old(self).timer_spec()),
            !tick_fires(old(self).timer_spec()) ==> r == Ok::<TimerControl, DispatchError>(
                tick_control(old(self).timer_spec()),
            ) && final(self).pending() == old(self).pending(),
            tick_fires(old(self).timer_spec()) && old(self).pending().len() < QUEUE_CAPACITY ==> r
                == Ok::<TimerControl, DispatchError>(tick_control(old(self).timer_spec()))
                && final(self).pending() == old(self).pending().push(Pending::TimeoutFired),
            tick_fires(old(self).timer_spec()) && old(self).pending().len() >= QUEUE_CAPACITY ==> r
                == Err::<TimerControl, DispatchError>(DispatchError::QueueFull) && final(self).pending() == old(self).pending(),
    {
        let outcome = self.timer.tick();
        if outcome.timeout {
            match self.enqueue(Pending::TimeoutFired) {
                Ok(()) => Ok(outcome.control),
                Err(e) => Err(e),
            }
        } else {
            Ok(outcome.control)
        }
    }

    /// Hands out the oldest pending event.
    pub fn next_pending(&mut self) -> (r: Option<Pending>)
        requires
            old(self).wf(),
        ensures
            final(self).wf(),
            final(self).radio_spec() == old(self).radio_spec(),
            final(self).timer_spec() == old(self).timer_spec(),
            old(self).pending().len() == 0 ==> r is None && final(self).pending() == old(self).pending(),
            old(self).pending().len() > 0 ==> r == Some(old(self).pending()[0]) && final(self).pending() == old(self).pending().subrange(1, old(self).pending().len() as int),
    {
        if self.queue.len() == 0 {
            None
        } else {
            let p = self.queue.remove(0);
            assert(self.queue@ =~= old(self).queue@.subrange(1, old(self).queue@.len() as int));
            Some(p)
        }
    }

    /// Arms the timeout `target` ticks from now, replacing any earlier one.
    pub fn arm_timeout(&mut self, target: u32)
        requires
            old(self).wf(),
        ensures
            final(self).wf(),
            final(self).timer_spec() == armed_timer(target),
            final(self).radio_spec() == old(self).radio_spec(),
            final(self).pending() == old(self).pending(),
    {
        self.timer.arm(target);
    }

    /// Stops the timeout count.
    pub fn disable_timeout(&mut self)
        requires
            old(self).wf(),
        ensures
            final(self).wf(),
            final(self).timer_spec() == disabled_timer(),
            final(self).radio_spec() == old(self).radio_spec(),
            final(self).pending() == old(self).pending(),
    {
        self.timer.disable();
    }

    /// Runs the state machine on an event; the timing state is not touched.
    pub fn handle_event(&mut self, event: PhyEvent) -> (r: Step)
        requires
            old(self).wf(),
        ensures
            final(self).wf(),
            final(self).timer_spec() == old(self).timer_spec(),
            final(self).pending() == old(self).pending(),
            final(self).radio_spec().sx12xx_spec() == old(self).radio_spec().sx12xx_spec(),
            awaits_outcome(old(self).radio_spec().state_spec(), event) ==> {
                &&& r == Step::QueryOutcome(event->PhyInterrupt_0)
                &&& final(self).radio_spec().state_spec() == old(self).radio_spec().state_spec()
            },
            !awaits_outcome(old(self).radio_spec().state_spec(), event) ==> {
                &&& r matches Step::Settled(result, commands)
                &&& result == settled_result(old(self).radio_spec().state_spec(), event)
                &&& commands@ == settled_commands(
                    old(self).radio_spec().sx12xx_spec().settings_spec(),
                    old(self).radio_spec().state_spec(),
                    event,
                )
                &&& final(self).radio_spec().state_spec() == settled_state(
                    old(self).radio_spec().state_spec(),
                    event,
                )
            },
    {
        self.radio.handle_event(event)
    }

    /// Settles an interrupt with the driver's report on it.
    pub fn handle_driver_report(
        &mut self,
        irq: Event,
        state: DriverState,
        metadata: RxMetadata,
        received: &[u8],
    ) -> (r: Result<PhyResponse, PhyError>)
        requires
            old(self).wf(),
        ensures
            final(self).wf(),
            final(self).timer_spec() == old(self).timer_spec(),
            final(self).pending() == old(self).pending(),
            r == completed_result(
                old(self).radio_spec().state_spec(),
                outcome_response(irq, state, metadata, received@.len()),
            ),
            final(self).radio_spec().state_spec() == completed_state(
                old(self).radio_spec().state_spec(),
                outcome_response(irq, state, metadata, received@.len()),
            ),
            final(self).radio_spec().sx12xx_spec().settings_spec() == old(self).radio_spec().sx12xx_spec().settings_spec(),
            keeps_packet(irq, state, metadata, received@.len()) ==> final(self).radio_spec().sx12xx_spec().received() == received@.subrange(
                0,
                metadata.rx_len as int,
            ),
            !keeps_packet(irq, state, metadata, received@.len()) ==> final(self).radio_spec().sx12xx_spec().received()
                == old(self).radio_spec().sx12xx_spec().received(),
    {
        self.radio.handle_driver_report(irq, state, metadata, received)
    }
}

} // verus!
