//! The schedule of a background task: a waveform replayed a finite number of
//! times or without end, one step at a time.
use vstd::prelude::*;
use crate::waveform::Step;

verus! {

/// How many times a task replays its waveform.
#[derive(Clone, Copy, Debug, PartialEq, Eq, Structural)]
pub enum RepeatPolicy {
    Infinite,
    Finite(u32),
}

/// The policy of a repeat count given as a signed number: a negative count
/// replays nothing.
pub open spec fn policy_of_count(n: i32) -> RepeatPolicy {
    if n < 0 {
        RepeatPolicy::Finite(0)
    } else {
        RepeatPolicy::Finite(n as u32)
    }
}

impl RepeatPolicy {
    /// The finite policy of the count `n`; a negative count replays nothing.
    pub fn from_count(n: i32) -> (r: RepeatPolicy)
        ensures
            r == policy_of_count(n),
    {
        if n < 0 {
            RepeatPolicy::Finite(0)
        } else {
            RepeatPolicy::Finite(n as u32)
        }
    }
}

/// A task in progress: `remaining` counts the cycles left, the current one
/// included, and `index` is the next step of the current cycle.
#[derive(Debug)]
pub struct Task {
    pub steps: Vec<Step>,
    pub remaining: RepeatPolicy,
    pub index: usize,
}

impl Task {
    pub open spec fn wf(&self) -> bool {
        0 < self.steps@.len() <= usize::MAX && self.index < self.steps@.len()
    }

    /// No cycle is left to replay.
    pub open spec fn finished(&self) -> bool {
        self.remaining == RepeatPolicy::Finite(0)
    }

    /// The task after it has handed out its next step.
    pub open spec fn advanced(self) -> Task {
        if self.index + 1 == self.steps@.len() {
            Task {
                index: 0,
                remaining: match self.remaining {
                    RepeatPolicy::Infinite => RepeatPolicy::Infinite,
                    RepeatPolicy::Finite(k) => RepeatPolicy::Finite((k - 1) as u32),
                },
                ..self
            }
        } else {
            Task { index: (self.index + 1) as usize, ..self }
        }
    }

    /// A task that replays `steps` as `policy` says, from the first step.
    pub fn new(steps: Vec<Step>, policy: RepeatPolicy) -> (r: Task)
        requires
            steps@.len() > 0,
        ensures
            r.wf(),
            r.steps@ == steps@,
            r.remaining == policy,
            r.index == 0,
    {
        // the call makes the bound on a vector's length known
        let _len: usize = steps.len();
        Task { steps, remaining: policy, index: 0 }
    }

    /// Hands out the next step, or `None` once every cycle has been replayed.
    pub fn next(&mut self) -> (r: Option<Step>)
        requires
            old(self).wf(),
        ensures
            final(self).wf(),
            old(self).finished() ==> r is None && *final(self) == *old(self),
            !old(self).finished() ==> r == Some(old(self).steps@[old(self).index as int])
                && *final(self) == old(self).advanced(),
    {
        if self.remaining == RepeatPolicy::Finite(0) {
            return None;
        }
        let step = self.steps[self.index];
        if self.index == self.steps.len() - 1 {
            self.index = 0;
            self.remaining = match self.remaining {
                RepeatPolicy::Infinite => RepeatPolicy::Infinite,
                RepeatPolicy::Finite(k) => RepeatPolicy::Finite(k - 1),
            };
        } else {
            self.index = self.index + 1;
        }
        Some(step)
    }
}

/// The steps handed out by `n` calls of `next`, starting from `t`.
pub open spec fn run(t: Task, n: nat) -> Seq<Step>
    decreases n,
{
    if n == 0 || t.finished() {
        seq![]
    } else {
        seq![t.steps@[t.index as int]] + run(t.advanced(), (n - 1) as nat)
    }
}

/// `s` replayed `k` times.
pub open spec fn repeated(s: Seq<Step>, k: nat) -> Seq<Step>
    decreases k,
{
    if k == 0 {
        seq![]
    } else {
        s + repeated(s, (k - 1) as nat)
    }
}

proof fn run_rest_of_cycles(t: Task, k: u32, n: nat)
    requires
        t.wf(),
        k >= 1,
        t.remaining == RepeatPolicy::Finite(k),
        n >= (t.steps@.len() - t.index) + (k - 1) * t.steps@.len(),
    ensures
        run(t, n) == t.steps@.subrange(t.index as int, t.steps@.len() as int) + repeated(
            t.steps@,
            (k - 1) as nat,
        ),
    decreases k, t.steps@.len() - t.index,
{
    let s = t.steps@;
    let a = t.advanced();
    assert(n >= 1) by (nonlinear_arith)
        requires n >= (s.len() - t.index) + (k - 1) * s.len(), t.index < s.len(), k >= 1;
    if t.index + 1 == s.len() {
        if k == 1 {
            assert(a.finished());
            assert(run(a, (n - 1) as nat) == Seq::<Step>::empty());
            assert(run(t, n) =~= s.subrange(t.index as int, s.len() as int) + repeated(s, 0));
        } else {
            assert((n - 1) >= s.len() + (k - 2) * s.len()) by (nonlinear_arith)
                requires n >= (s.len() - t.index) + (k - 1) * s.len(), t.index + 1 == s.len(), k >= 2;
            run_rest_of_cycles(a, (k - 1) as u32, (n - 1) as nat);
            assert(a.steps@ == s);
            assert(s.subrange(0, s.len() as int) =~= s);
            assert(repeated(s, (k - 1) as nat) == s + repeated(s, (k - 2) as nat));
            assert(run(t, n) =~= s.subrange(t.index as int, s.len() as int) + repeated(
                s,
                (k - 1) as nat,
            ));
        }
    } else {
        assert(a.steps@ == s && a.index == t.index + 1 && a.remaining == t.remaining);
        let m = (k - 1) * s.len();
        assert((n - 1) >= (s.len() - a.index) + m);
        run_rest_of_cycles(a, k, (n - 1) as nat);
        assert(run(t, n) =~= s.subrange(t.index as int, s.len() as int) + repeated(
            s,
            (k - 1) as nat,
        ));
    }
}

/// A task started with `Finite(k)` hands out its waveform exactly `k` times
/// over and then nothing more, however often it is asked.
pub proof fn finite_task_replays_exactly(t: Task, k: u32, n: nat)
    requires
        t.wf(),
        t.index == 0,
        t.remaining == RepeatPolicy::Finite(k),
        n >= k * t.steps@.len(),
    ensures
        run(t, n) == repeated(t.steps@, k as nat),
{
    if k == 0 {
        assert(run(t, n) =~= repeated(t.steps@, 0));
    } else {
        assert(n >= (t.steps@.len() - t.index) + (k - 1) * t.steps@.len()) by (nonlinear_arith)
            requires n >= k * t.steps@.len(), t.index == 0, k >= 1;
        run_rest_of_cycles(t, k, n);
        assert(t.steps@.subrange(0, t.steps@.len() as int) =~= t.steps@);
        assert(repeated(t.steps@, k as nat) == t.steps@ + repeated(t.steps@, (k - 1) as nat));
    }
}

/// A task with no cycle left hands out no step at all.
pub proof fn finished_task_runs_nothing(t: Task, n: nat)
    requires
        t.finished(),
    ensures
        run(t, n) == Seq::<Step>::empty(),
{
}

} // verus!
