//! The timeout coordinator: a tick-counted timeout that fires once per arm.
use vstd::prelude::*;

verus! {

/// The target set when a radio interrupt starts the count with no timeout
/// armed: far enough that counting alone does not reach it.
pub const IDLE_TARGET: u32 = 0xFFFF_FFFF;

/// The timing state shared by the tick and radio interrupts.
pub struct TimerView {
    pub target: u32,
    pub count: u32,
    pub enabled: bool,
    pub armed: bool,
}

/// What the hardware tick timer is to do after a tick.
#[derive(Clone, Copy, Debug, PartialEq, Eq, Structural)]
pub enum TimerControl {
    /// Counting starts: restart the hardware timer and listen to its ticks.
    Restart,
    /// Counting goes on.
    Continue,
    /// Counting is off: stop listening to ticks.
    Stop,
}

/// The effect of one tick.
#[derive(Clone, Copy, Debug, PartialEq, Eq, Structural)]
pub struct TickOutcome {
    /// A timeout fired on this tick.
    pub timeout: bool,
    pub control: TimerControl,
}

/// The state at power-up: everything zero and off.
pub open spec fn initial_timer() -> TimerView {
    TimerView { target: 0, count: 0, enabled: false, armed: false }
}

/// Arming sets the target and starts a fresh count, whatever came before.
pub open spec fn armed_timer(target: u32) -> TimerView {
    TimerView { target, count: 0, enabled: true, armed: true }
}

/// Disabling zeroes the count and target, stops counting and drops a
/// timeout that has not fired.
pub open spec fn disabled_timer() -> TimerView {
    TimerView { target: 0, count: 0, enabled: false, armed: false }
}

/// The count after one more tick; it stops at the largest value.
pub open spec fn next_count(count: u32) -> u32 {
    if count == u32::MAX {
        count
    } else {
        (count + 1) as u32
    }
}

/// Whether a tick on `v` fires a timeout.
pub open spec fn tick_fires(v: TimerView) -> bool {
    v.enabled && v.armed && next_count(v.count) >= v.target
}

/// The state after one tick.
pub open spec fn ticked_timer(v: TimerView) -> TimerView {
    if !v.enabled {
        TimerView { target: 0, count: 0, ..v }
    } else {
        TimerView { count: next_count(v.count), armed: v.armed && !tick_fires(v), ..v }
    }
}

/// What the hardware timer is to do on a tick.
pub open spec fn tick_control(v: TimerView) -> TimerControl {
    if !v.enabled {
        TimerControl::Stop
    } else if v.count == 0 {
        TimerControl::Restart
    } else {
        TimerControl::Continue
    }
}

/// A radio interrupt reads the running count, or starts counting from zero.
pub open spec fn latched_timer(v: TimerView) -> (TimerView, u32) {
    if v.enabled {
        (v, v.count)
    } else {
        (TimerView { target: IDLE_TARGET, count: 0, enabled: true, armed: v.armed }, 0)
    }
}

/// The tick-counted timeout. Its fields are only changed by the methods below,
/// each of which is one short read-modify-write.
pub struct TimerContext {
    target: u32,
    count: u32,
    enabled: bool,
    armed: bool,
}

impl View for TimerContext {
    type V = TimerView;

    closed spec fn view(&self) -> TimerView {
        TimerView {
            target: self.target,
            count: self.count,
            enabled: self.enabled,
            armed: self.armed,
        }
    }
}

impl TimerContext {
    /// While counting is off the count and target stay zero and no timeout
    /// is armed.
    pub open spec fn wf(&self) -> bool {
        !self@.enabled ==> self@.count == 0 && self@.target == 0 && !self@.armed
    }

    pub fn new() -> (r: TimerContext)
        ensures
            r@ == initial_timer(),
            r.wf(),
    {
        TimerContext { target: 0, count: 0, enabled: false, armed: false }
    }

    /// Ticks to count before the timeout fires.
    pub fn target(&self) -> (r: u32)
        ensures
            r == self@.target,
    {
        self.target
    }

    /// Ticks counted since the timeout was armed or counting started.
    pub fn count(&self) -> (r: u32)
        ensures
            r == self@.count,
    {
        self.count
    }

    pub fn is_enabled(&self) -> (r: bool)
        ensures
            r == self@.enabled,
    {
        self.enabled
    }

    /// Whether a timeout is still to fire.
    pub fn is_armed(&self) -> (r: bool)
        ensures
            r == self@.armed,
    {
        self.armed
    }

    /// Arms a timeout `target` ticks from now, replacing any earlier one.
    pub fn arm(&mut self, target: u32)
        ensures
            final(self)@ == armed_timer(target),
            final(self).wf(),
    {
        self.target = target;
        self.count = 0;
        self.enabled = true;
        self.armed = true;
    }

    /// Stops counting. A timeout that has not fired will not fire.
    pub fn disable(&mut self)
        ensures
            final(self)@ == disabled_timer(),
            final(self).wf(),
    {
        self.target = 0;
        self.count = 0;
        self.enabled = false;
        self.armed = false;
    }

    /// One tick of the hardware timer. While counting it advances the count
    /// and fires the armed timeout once the target is reached; otherwise it
    /// only clears stale state.
    pub fn tick(&mut self) -> (r: TickOutcome)
        requires
            old(self).wf(),
        ensures
            r.timeout == tick_fires(old(self)@),
            r.control == tick_control(old(self)@),
            final(self)@ == ticked_timer(old(self)@),
            final(self).wf(),
    {
        if !self.enabled {
            self.target = 0;
            self.count = 0;
            return TickOutcome { timeout: false, control: TimerControl::Stop };
        }
        let control = if self.count == 0 {
            TimerControl::Restart
        } else {
            TimerControl::Continue
        };
        if self.count < u32::MAX {
            self.count = self.count + 1;
        }
        let timeout = self.armed && self.count >= self.target;
        if timeout {
            self.armed = false;
        }
        TickOutcome { timeout, control }
    }

    /// A radio interrupt: returns the ticks counted so far, or starts
    /// counting from zero when counting was off.
    pub fn latch_radio_interrupt(&mut self) -> (r: u32)
        requires
            old(self).wf(),
        ensures
            (final(self)@, r) == latched_timer(old(self)@),
            final(self).wf(),
    {
        if self.enabled {
            self.count
        } else {
            self.target = IDLE_TARGET;
            self.count = 0;
            self.enabled = true;
            0
        }
    }

    /// Applies one operation; returns whether it fired a timeout.
    pub fn apply(&mut self, op: TimerOp) -> (r: bool)
        requires
            old(self).wf(),
        ensures
            r == op_fires(old(self)@, op),
            final(self)@ == applied_timer(old(self)@, op),
            final(self).wf(),
    {
        match op {
            TimerOp::Arm(target) => {
                self.arm(target);
                false
            },
            TimerOp::Tick => self.tick().timeout,
            TimerOp::Disable => {
                self.disable();
                false
            },
        }
    }
}


/// An operation on the timeout coordinator.
#[derive(Clone, Copy, Debug, PartialEq, Eq, Structural)]
pub enum TimerOp {
    Arm(u32),
    Tick,
    Disable,
}

/// The state after one operation.
pub open spec fn applied_timer(v: TimerView, op: TimerOp) -> TimerView {
    match op {
        TimerOp::Arm(target) => armed_timer(target),
        TimerOp::Tick => ticked_timer(v),
        TimerOp::Disable => disabled_timer(),
    }
}

/// Whether one operation fires a timeout.
pub open spec fn op_fires(v: TimerView, op: TimerOp) -> bool {
    op is Tick && tick_fires(v)
}

/// The state after a sequence of operations.
pub open spec fn run_timer(v: TimerView, ops: Seq<TimerOp>) -> TimerView
    decreases ops.len(),
{
    if ops.len() == 0 {
        v
    } else {
        applied_timer(run_timer(v, ops.drop_last()), ops.last())
    }
}

/// The number of timeouts that a sequence of operations fires.
pub open spec fn timeouts_fired(v: TimerView, ops: Seq<TimerOp>) -> nat
    decreases ops.len(),
{
    if ops.len() == 0 {
        0
    } else {
        timeouts_fired(v, ops.drop_last()) + if op_fires(run_timer(v, ops.drop_last()), ops.last()) {
            1nat
        } else {
            0nat
        }
    }
}

/// `n` ticks in a row.
pub open spec fn ticks(n: nat) -> Seq<TimerOp> {
    Seq::new(n, |i: int| TimerOp::Tick)
}

proof fn lemma_run_append(v: TimerView, a: Seq<TimerOp>, b: Seq<TimerOp>)
    ensures
        run_timer(v, a + b) == run_timer(run_timer(v, a), b),
        timeouts_fired(v, a + b) == timeouts_fired(v, a) + timeouts_fired(run_timer(v, a), b),
    decreases b.len(),
{
    if b.len() == 0 {
        assert(a + b =~= a);
    } else {
        lemma_run_append(v, a, b.drop_last());
        assert((a + b).drop_last() =~= a + b.drop_last());
        assert((a + b).last() == b.last());
    }
}

proof fn lemma_ticks_drop_last(n: nat)
    requires
        n > 0,
    ensures
        ticks(n).drop_last() =~= ticks((n - 1) as nat),
        ticks(n).last() == TimerOp::Tick,
{
}

/// The state `n` ticks after arming.
proof fn lemma_ticks_after_arm(target: u32, n: nat)
    ensures
        run_timer(armed_timer(target), ticks(n)) == (TimerView {
            target,
            count: if n <= u32::MAX {
                n as u32
            } else {
                u32::MAX
            },
            enabled: true,
            armed: n == 0 || n < target,
        }),
        timeouts_fired(armed_timer(target), ticks(n)) == if n >= 1 && n >= target {
            1nat
        } else {
            0nat
        },
    decreases n,
{
    if n > 0 {
        lemma_ticks_drop_last(n);
        lemma_ticks_after_arm(target, (n - 1) as nat);
    }
}

/// Exactly one timeout per arm: after `arm(target)`, ticks fire nothing until
/// the count reaches the target (at least one tick), fire once on that tick,
/// and fire nothing after it.
pub proof fn one_timeout_per_arm(v: TimerView, target: u32, n: nat)
    ensures
        timeouts_fired(v, seq![TimerOp::Arm(target)] + ticks(n)) == if n >= 1 && n >= target {
            1nat
        } else {
            0nat
        },
        n >= 1 ==> (op_fires(
            run_timer(v, seq![TimerOp::Arm(target)] + ticks((n - 1) as nat)),
            TimerOp::Tick,
        ) <==> n == target || (n == 1 && target == 0)),
{
    let arm = seq![TimerOp::Arm(target)];
    assert(run_timer(v, arm) == armed_timer(target)) by {
        assert(arm.drop_last() =~= Seq::<TimerOp>::empty());
    }
    assert(timeouts_fired(v, arm) == 0) by {
        assert(arm.drop_last() =~= Seq::<TimerOp>::empty());
        assert(arm.last() == TimerOp::Arm(target));
        assert(timeouts_fired(v, Seq::<TimerOp>::empty()) == 0);
    }
    lemma_run_append(v, arm, ticks(n));
    lemma_ticks_after_arm(target, n);
    if n >= 1 {
        lemma_run_append(v, arm, ticks((n - 1) as nat));
        lemma_ticks_after_arm(target, (n - 1) as nat);
    }
}

/// Re-arming replaces the earlier target: from any state, arming, some
/// ticks, and arming again with `target` is followed by exactly the timeouts
/// of a fresh `arm(target)`; none fires before the re-arm while the first
/// target has not been reached.
pub proof fn rearm_replaces_target(v: TimerView, first: u32, k: nat, target: u32, n: nat)
    requires
        k < first,
    ensures
        timeouts_fired(
            v,
            seq![TimerOp::Arm(first)] + ticks(k) + seq![TimerOp::Arm(target)] + ticks(n),
        ) == if n >= 1 && n >= target {
            1nat
        } else {
            0nat
        },
{
    let before = seq![TimerOp::Arm(first)] + ticks(k);
    let after = seq![TimerOp::Arm(target)] + ticks(n);
    assert(before + seq![TimerOp::Arm(target)] + ticks(n) =~= before + after);
    one_timeout_per_arm(v, first, k);
    one_timeout_per_arm(run_timer(v, before), target, n);
    lemma_run_append(v, before, after);
}

/// Disabling suppresses the timeout: from any state, arming, fewer ticks than
/// the target, disabling, and any number of ticks fire no timeout.
pub proof fn disable_suppresses_timeout(v: TimerView, target: u32, k: nat, n: nat)
    requires
        k < target,
    ensures
        timeouts_fired(
            v,
            seq![TimerOp::Arm(target)] + ticks(k) + seq![TimerOp::Disable] + ticks(n),
        ) == 0,
{
    let before = seq![TimerOp::Arm(target)] + ticks(k);
    let off = seq![TimerOp::Disable];
    one_timeout_per_arm(v, target, k);
    lemma_run_append(v, before, off);
    let d = run_timer(v, before + off);
    assert(run_timer(run_timer(v, before), off) == disabled_timer()) by {
        assert(off.drop_last() =~= Seq::<TimerOp>::empty());
    }
    assert(timeouts_fired(run_timer(v, before), off) == 0) by {
        assert(off.drop_last() =~= Seq::<TimerOp>::empty());
        assert(off.last() == TimerOp::Disable);
        assert(timeouts_fired(run_timer(v, before), Seq::<TimerOp>::empty()) == 0);
    }
    lemma_ticks_while_disabled(d, n);
    lemma_run_append(v, before + off, ticks(n));
}

/// Ticks while counting is off fire nothing and keep it off.
proof fn lemma_ticks_while_disabled(v: TimerView, n: nat)
    requires
        !v.enabled,
    ensures
        timeouts_fired(v, ticks(n)) == 0,
        !run_timer(v, ticks(n)).enabled,
    decreases n,
{
    if n > 0 {
        lemma_ticks_drop_last(n);
        lemma_ticks_while_disabled(v, (n - 1) as nat);
    }
}

} // verus!
