//! The timed output controller: the state that a device's owner and its
//! background task share, and the decisions both of them take on it.
//!
//! Each task started gets a fresh id. A task keeps running only while it is
//! the controller's current task: `on`, `off`, `toggle` and a new `blink`
//! cancel it, and from then on every step it asks for is refused.
use vstd::prelude::*;
use crate::device::OutputDeviceR;
use crate::task::{RepeatPolicy, Task, finite_task_replays_exactly, policy_of_count, repeated, run};
use crate::waveform::{
    Duty, Step, all_valid, blink_cycle, blink_sequence, fade_cycle, fade_sequence, full_duty, zero_duty,
};

verus! {

/// Misuse of the controller.
#[derive(Clone, Copy, Debug, PartialEq, Eq, Structural)]
pub enum ControlError {
    /// `wait` was called while no task was outstanding.
    NoTask,
}

#[derive(Debug)]
pub struct TimedOutput {
    /// The output primitive.
    pub device: OutputDeviceR,
    /// The duty cycle last set on a PWM output.
    pub duty: Duty,
    /// How many times the next task replays its waveform.
    pub repeat: RepeatPolicy,
    /// The current task, until it is cancelled or has finished.
    pub task: Option<Task>,
    /// The id of the task started last.
    pub generation: u64,
    /// A task has been started and not waited for yet.
    pub outstanding: bool,
}

impl TimedOutput {
    pub open spec fn wf(&self) -> bool {
        &&& self.device.wf()
        &&& self.duty.valid()
        &&& (self.task is Some ==> self.task->Some_0.wf() && all_valid(
            self.task->Some_0.steps@,
        ))
    }

    /// The task with id `id` is the current one and has not been cancelled.
    pub open spec fn running(&self, id: u64) -> bool {
        self.task is Some && self.generation == id
    }

    /// The controller after the current task is cancelled and the output is
    /// driven to the logical `value`: fully on, or inactive with a zero duty
    /// cycle.
    pub open spec fn set_to(self, value: bool) -> TimedOutput {
        TimedOutput {
            task: None,
            device: self.device.written(value),
            duty: if value {
                full_duty()
            } else {
                zero_duty()
            },
            ..self
        }
    }

    /// The controller after the task `id` has asked for its next step.
    pub open spec fn ticked(self, id: u64) -> TimedOutput {
        if !self.running(id) {
            self
        } else if self.task->Some_0.finished() {
            TimedOutput { task: None, ..self }
        } else {
            let t = self.task->Some_0;
            let s = t.steps@[t.index as int];
            TimedOutput {
                task: Some(t.advanced()),
                device: self.device.written(s.duty.is_on()),
                duty: s.duty,
                ..self
            }
        }
    }

    /// The step handed to the task `id` when it asks for its next one.
    pub open spec fn tick_step(self, id: u64) -> Option<Step> {
        if !self.running(id) || self.task->Some_0.finished() {
            None
        } else {
            Some(self.task->Some_0.steps@[self.task->Some_0.index as int])
        }
    }

    /// An active-high output on line `pin`, off, with no task and an unbounded
    /// repeat count.
    pub fn new(pin: u8) -> (r: TimedOutput)
        ensures
            r.wf(),
            r.device.pin == pin,
            r.device.active_state,
            !r.device.logical(),
            r.duty == zero_duty(),
            r.repeat == RepeatPolicy::Infinite,
            r.task is None,
            !r.outstanding,
    {
        TimedOutput {
            device: OutputDeviceR::new(pin),
            duty: Duty::zero(),
            repeat: RepeatPolicy::Infinite,
            task: None,
            generation: 0,
            outstanding: false,
        }
    }

    /// Sets how many times later tasks replay their waveform; a negative
    /// count replays nothing.
    pub fn set_blink_count(&mut self, n: i32)
        ensures
            *final(self) == (TimedOutput { repeat: policy_of_count(n), ..*old(self) }),
    {
        self.repeat = RepeatPolicy::from_count(n);
    }

    /// Cancels the current task, if any, and drives the output inactive.
    pub fn stop(&mut self)
        requires
            old(self).wf(),
        ensures
            *final(self) == old(self).set_to(false),
            final(self).wf(),
    {
        self.task = None;
        self.device.write_state(false);
        self.duty = Duty::zero();
    }

    /// Cancels the current task and turns the output on.
    pub fn on(&mut self)
        requires
            old(self).wf(),
        ensures
            *final(self) == old(self).set_to(true),
            final(self).wf(),
            final(self).device.logical(),
    {
        self.stop();
        self.device.write_state(true);
        self.duty = Duty::full();
    }

    /// Cancels the current task and turns the output off.
    pub fn off(&mut self)
        requires
            old(self).wf(),
        ensures
            *final(self) == old(self).set_to(false),
            final(self).wf(),
            !final(self).device.logical(),
            final(self).duty == zero_duty(),
    {
        self.stop();
    }

    /// Turns the output off if it is on, and on if it is off.
    pub fn toggle(&mut self)
        requires
            old(self).wf(),
        ensures
            *final(self) == old(self).set_to(!old(self).device.logical()),
            final(self).wf(),
            final(self).device.logical() == !old(self).device.logical(),
    {
        if self.device.is_active() {
            self.off()
        } else {
            self.on()
        }
    }

    /// True if the output is currently active.
    pub fn value(&self) -> (r: bool)
        ensures
            r == self.device.logical(),
    {
        self.device.value()
    }

    /// True if the output is currently active.
    pub fn is_active(&self) -> (r: bool)
        ensures
            r == self.device.logical(),
    {
        self.device.is_active()
    }

    /// Whether a high level is the active one.
    pub fn active_high(&self) -> (r: bool)
        ensures
            r == self.device.active_state,
    {
        self.device.active_high()
    }

    /// Chooses which level is active, without changing the level driven.
    pub fn set_active_high(&mut self, value: bool)
        requires
            old(self).wf(),
        ensures
            *final(self) == (TimedOutput {
                device: OutputDeviceR {
                    active_state: value,
                    inactive_state: !value,
                    ..old(self).device
                },
                ..*old(self)
            }),
            final(self).wf(),
    {
        self.device.set_active_high(value)
    }

    /// The line the output is attached to.
    pub fn pin(&self) -> (r: u8)
        ensures
            r == self.device.pin,
    {
        self.device.pin()
    }

    /// The electrical level the output drives.
    pub fn level(&self) -> (r: bool)
        ensures
            r == self.device.level,
    {
        self.device.level()
    }

    /// The duty cycle last set.
    pub fn duty(&self) -> (r: Duty)
        ensures
            r == self.duty,
    {
        self.duty
    }

    /// Sets the duty cycle directly. A running fade is not cancelled and
    /// overrides this on its next step.
    pub fn set_value(&mut self, duty: Duty)
        requires
            old(self).wf(),
            duty.valid(),
        ensures
            *final(self) == (TimedOutput { duty, ..*old(self) }),
            final(self).wf(),
    {
        self.duty = duty;
    }

    /// Cancels the current task, drives the output inactive, and makes a task
    /// that replays `steps` as `repeat` says the current one. Returns its id.
    fn start(&mut self, steps: Vec<Step>, repeat: RepeatPolicy) -> (id: u64)
        requires
            old(self).wf(),
            steps@.len() > 0,
            all_valid(steps@),
        ensures
            final(self).wf(),
            id == final(self).generation,
            id != old(self).generation,
            final(self).task matches Some(t) && t.steps@ == steps@ && t.remaining == repeat
                && t.index == 0,
            final(self).device == old(self).device.written(false),
            final(self).duty == zero_duty(),
            final(self).repeat == old(self).repeat,
            final(self).outstanding,
    {
        self.stop();
        self.generation = self.generation.wrapping_add(1);
        self.task = Some(Task::new(steps, repeat));
        self.outstanding = true;
        self.generation
    }

    /// Starts a task that turns the output on for `on_ms` and off for
    /// `off_ms` milliseconds, as many times as the repeat count says. Any
    /// earlier task is cancelled first. Returns the new task's id.
    pub fn blink(&mut self, on_ms: u64, off_ms: u64) -> (id: u64)
        requires
            old(self).wf(),
        ensures
            final(self).wf(),
            id == final(self).generation,
            id != old(self).generation,
            final(self).task matches Some(t) && t.steps@ == blink_cycle(on_ms, off_ms)
                && t.remaining == old(self).repeat && t.index == 0,
            final(self).device == old(self).device.written(false),
            final(self).duty == zero_duty(),
            final(self).repeat == old(self).repeat,
            final(self).outstanding,
    {
        let steps = blink_sequence(on_ms, off_ms);
        self.start(steps, self.repeat)
    }

    /// Starts a task that replays the fade cycle of `fade_sequence` as
    /// `repeat` says; the stored repeat count is left as it is. Any earlier
    /// task is cancelled first. Returns the new task's id.
    pub fn fade(
        &mut self,
        on_ms: u64,
        off_ms: u64,
        fade_in_ms: u64,
        fade_out_ms: u64,
        repeat: RepeatPolicy,
    ) -> (id: u64)
        requires
            old(self).wf(),
        ensures
            final(self).wf(),
            id == final(self).generation,
            id != old(self).generation,
            final(self).task matches Some(t) && t.steps@ == fade_cycle(
                on_ms,
                off_ms,
                fade_in_ms,
                fade_out_ms,
            ) && t.remaining == repeat && t.index == 0,
            final(self).device == old(self).device.written(false),
            final(self).duty == zero_duty(),
            final(self).repeat == old(self).repeat,
            final(self).outstanding,
    {
        let steps = fade_sequence(on_ms, off_ms, fade_in_ms, fade_out_ms);
        self.start(steps, repeat)
    }

    /// Called by the task `id` before each step. Returns the step to perform,
    /// after recording on the output the duty and logical value it sets, or
    /// `None` when the task must end: it was cancelled, another task replaced
    /// it, or every cycle has been replayed.
    pub fn tick(&mut self, id: u64) -> (r: Option<Step>)
        requires
            old(self).wf(),
        ensures
            final(self).wf(),
            *final(self) == old(self).ticked(id),
            r == old(self).tick_step(id),
    {
        if self.generation != id || self.task.is_none() {
            return None;
        }
        let mut t = self.task.take().unwrap();
        let r = t.next();
        if let Some(s) = r {
            self.task = Some(t);
            self.device.write_state(s.duty.is_positive());
            self.duty = s.duty;
        }
        r
    }

    /// Marks the outstanding task as waited for. Fails with `NoTask` when no
    /// task has been started since the last wait.
    pub fn wait(&mut self) -> (r: Result<(), ControlError>)
        ensures
            r is Err <==> !old(self).outstanding,
            r is Err ==> r == Err::<(), ControlError>(ControlError::NoTask),
            *final(self) == (TimedOutput { outstanding: false, ..*old(self) }),
    {
        if self.outstanding {
            self.outstanding = false;
            Ok(())
        } else {
            Err(ControlError::NoTask)
        }
    }
}

/// The controller after the ticks `ids` are asked for, in order.
pub open spec fn run_ticks(c: TimedOutput, ids: Seq<u64>) -> TimedOutput
    decreases ids.len(),
{
    if ids.len() == 0 {
        c
    } else {
        run_ticks(c.ticked(ids[0]), ids.drop_first())
    }
}

/// The steps handed out while the ticks `ids` are asked for, in order.
pub open spec fn steps_of(c: TimedOutput, ids: Seq<u64>) -> Seq<Step>
    decreases ids.len(),
{
    if ids.len() == 0 {
        seq![]
    } else {
        let rest = steps_of(c.ticked(ids[0]), ids.drop_first());
        match c.tick_step(ids[0]) {
            Some(s) => seq![s] + rest,
            None => rest,
        }
    }
}

proof fn idle_ticks(c: TimedOutput, ids: Seq<u64>)
    requires
        c.task is None,
    ensures
        run_ticks(c, ids) == c,
        steps_of(c, ids) == Seq::<Step>::empty(),
    decreases ids.len(),
{
    if ids.len() > 0 {
        idle_ticks(c, ids.drop_first());
    }
}

/// Turning the output on cancels any task: no task is handed another step,
/// and the output stays on whatever ticks come later.
pub proof fn on_cancels_task(c: TimedOutput, ids: Seq<u64>)
    requires
        c.wf(),
    ensures
        steps_of(c.set_to(true), ids) == Seq::<Step>::empty(),
        run_ticks(c.set_to(true), ids) == c.set_to(true),
        run_ticks(c.set_to(true), ids).device.logical(),
{
    idle_ticks(c.set_to(true), ids);
}

/// Cancelling a task with `off` or `stop` leaves the output inactive with a
/// zero duty cycle, and no later tick hands the task another step.
pub proof fn cancel_leaves_output_off(c: TimedOutput, ids: Seq<u64>)
    requires
        c.wf(),
    ensures
        steps_of(c.set_to(false), ids) == Seq::<Step>::empty(),
        run_ticks(c.set_to(false), ids) == c.set_to(false),
        !run_ticks(c.set_to(false), ids).device.logical(),
        run_ticks(c.set_to(false), ids).duty == zero_duty(),
{
    idle_ticks(c.set_to(false), ids);
}

/// A blink started with a repeat count of zero performs no step, and the
/// output, driven inactive when the blink started, stays inactive.
pub proof fn zero_count_blink_stays_off(c0: TimedOutput, c: TimedOutput, ids: Seq<u64>)
    requires
        c0.wf(),
        c0.repeat == RepeatPolicy::Finite(0),
        c.wf(),
        c.task matches Some(t) && t.remaining == c0.repeat,
        c.device == c0.device.written(false),
    ensures
        steps_of(c, ids) == Seq::<Step>::empty(),
        !run_ticks(c, ids).device.logical(),
    decreases ids.len(),
{
    if ids.len() > 0 {
        let c1 = c.ticked(ids[0]);
        if c.running(ids[0]) {
            idle_ticks(c1, ids.drop_first());
        } else {
            zero_count_blink_stays_off(c0, c1, ids.drop_first());
        }
    }
}

/// `n` ticks, all asked for by the task `id`.
pub open spec fn ticks_of(id: u64, n: nat) -> Seq<u64> {
    Seq::new(n, |i: int| id)
}

proof fn ticks_follow_task(c: TimedOutput, id: u64, n: nat)
    requires
        c.running(id),
        c.task->Some_0.wf(),
    ensures
        steps_of(c, ticks_of(id, n)) == run(c.task->Some_0, n),
        run(c.task->Some_0, n).len() == 0 ==> run_ticks(c, ticks_of(id, n)).device == c.device,
        run(c.task->Some_0, n).len() > 0 ==> run_ticks(c, ticks_of(id, n)).device.logical()
            == run(c.task->Some_0, n).last().duty.is_on(),
    decreases n,
{
    let t = c.task->Some_0;
    let ids = ticks_of(id, n);
    if n > 0 {
        assert(ids.drop_first() =~= ticks_of(id, (n - 1) as nat));
        let c1 = c.ticked(id);
        if t.finished() {
            idle_ticks(c1, ids.drop_first());
        } else {
            ticks_follow_task(c1, id, (n - 1) as nat);
            let rest = run(t.advanced(), (n - 1) as nat);
            assert(run(t, n) == seq![t.steps@[t.index as int]] + rest);
            if rest.len() > 0 {
                assert(run(t, n).last() == rest.last());
            }
        }
    }
}

proof fn repeated_last(s: Seq<Step>, k: nat)
    requires
        s.len() > 0,
        k > 0,
    ensures
        repeated(s, k).len() > 0,
        repeated(s, k).last() == s.last(),
    decreases k,
{
    let r = repeated(s, (k - 1) as nat);
    if k > 1 {
        repeated_last(s, (k - 1) as nat);
        assert((s + r).last() == r.last());
    } else {
        assert(s + r =~= s);
    }
}

/// A blink started with a repeat count of `k`, once its task has asked for
/// at least `2 * k` steps, has turned the output on and off exactly `k` times
/// and left it inactive.
pub proof fn finite_blink_cycles(c: TimedOutput, id: u64, on_ms: u64, off_ms: u64, k: u32, n: nat)
    requires
        c.wf(),
        c.generation == id,
        c.task matches Some(t) && t.steps@ == blink_cycle(on_ms, off_ms) && t.remaining
            == RepeatPolicy::Finite(k) && t.index == 0,
        !c.device.logical(),
        n >= 2 * k,
    ensures
        steps_of(c, ticks_of(id, n)) == repeated(blink_cycle(on_ms, off_ms), k as nat),
        !run_ticks(c, ticks_of(id, n)).device.logical(),
{
    let t = c.task->Some_0;
    assert(t.steps@.len() == 2);
    assert(n >= k * t.steps@.len()) by (nonlinear_arith)
        requires n >= 2 * k, t.steps@.len() == 2;
    finite_task_replays_exactly(t, k, n);
    ticks_follow_task(c, id, n);
    if k > 0 {
        repeated_last(blink_cycle(on_ms, off_ms), k as nat);
    }
}

} // verus!
