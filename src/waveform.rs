//! Step sequences replayed by a background task: a plain on/off blink and
//! a PWM fade cycle (fade in, hold on, fade out, hold off).
use vstd::prelude::*;

verus! {

/// Length of one frame of a fade, in milliseconds (25 frames per second).
pub const FRAME_MS: u64 = 40;

/// A duty cycle as the fraction `num / den`.
#[derive(Clone, Copy, Debug, PartialEq, Eq, Structural)]
pub struct Duty {
    pub num: u64,
    pub den: u64,
}

impl Duty {
    /// A fraction between 0 and 1 with a nonzero denominator.
    pub open spec fn valid(self) -> bool {
        0 < self.den && self.num <= self.den
    }

    /// The output is driven at all during this duty cycle.
    pub open spec fn is_on(self) -> bool {
        self.num > 0
    }

    pub fn full() -> (r: Duty)
        ensures
            r == full_duty(),
    {
        Duty { num: 1, den: 1 }
    }

    pub fn zero() -> (r: Duty)
        ensures
            r == zero_duty(),
    {
        Duty { num: 0, den: 1 }
    }

    pub fn is_positive(&self) -> (r: bool)
        ensures
            r == self.is_on(),
    {
        self.num > 0
    }
}

pub open spec fn full_duty() -> Duty {
    Duty { num: 1, den: 1 }
}

pub open spec fn zero_duty() -> Duty {
    Duty { num: 0, den: 1 }
}

/// One step of a waveform: hold `duty` for `duration_ms` milliseconds.
#[derive(Clone, Copy, Debug, PartialEq, Eq, Structural)]
pub struct Step {
    pub duty: Duty,
    pub duration_ms: u64,
}

/// Frames of a fade in over `ms`: frame `i` has intensity `i * FRAME_MS / ms`.
pub open spec fn fade_in_steps(ms: u64) -> Seq<Step> {
    Seq::new(
        (ms / FRAME_MS) as nat,
        |i: int| Step { duty: Duty { num: (FRAME_MS * i) as u64, den: ms }, duration_ms: FRAME_MS },
    )
}

/// Frames of a fade out over `ms`: frame `i` has intensity `1 - i * FRAME_MS / ms`.
pub open spec fn fade_out_steps(ms: u64) -> Seq<Step> {
    Seq::new(
        (ms / FRAME_MS) as nat,
        |i: int|
            Step { duty: Duty { num: (ms - FRAME_MS * i) as u64, den: ms }, duration_ms: FRAME_MS },
    )
}

/// One full fade cycle.
pub open spec fn fade_cycle(on_ms: u64, off_ms: u64, fade_in_ms: u64, fade_out_ms: u64) -> Seq<
    Step,
> {
    fade_in_steps(fade_in_ms) + seq![Step { duty: full_duty(), duration_ms: on_ms }]
        + fade_out_steps(fade_out_ms) + seq![Step { duty: zero_duty(), duration_ms: off_ms }]
}

/// One on/off cycle of a plain blink.
pub open spec fn blink_cycle(on_ms: u64, off_ms: u64) -> Seq<Step> {
    seq![
        Step { duty: full_duty(), duration_ms: on_ms },
        Step { duty: zero_duty(), duration_ms: off_ms },
    ]
}

/// Every step of the sequence has a valid duty cycle.
pub open spec fn all_valid(s: Seq<Step>) -> bool {
    forall|i: int| 0 <= i < s.len() ==> (#[trigger] s[i]).duty.valid()
}

/// The waveform of one on/off blink cycle.
pub fn blink_sequence(on_ms: u64, off_ms: u64) -> (r: Vec<Step>)
    ensures
        r@ == blink_cycle(on_ms, off_ms),
        all_valid(r@),
{
    let r = vec![
        Step { duty: Duty::full(), duration_ms: on_ms },
        Step { duty: Duty::zero(), duration_ms: off_ms },
    ];
    assert(r@ =~= blink_cycle(on_ms, off_ms));
    r
}

/// The waveform of one fade cycle: a frame every `FRAME_MS` while fading in,
/// full intensity for `on_ms`, a frame every `FRAME_MS` while fading out, and
/// off for `off_ms`. A fade shorter than one frame contributes no step.
pub fn fade_sequence(on_ms: u64, off_ms: u64, fade_in_ms: u64, fade_out_ms: u64) -> (r: Vec<Step>)
    ensures
        r@ == fade_cycle(on_ms, off_ms, fade_in_ms, fade_out_ms),
        all_valid(r@),
        r@.len() >= 2,
{
    let mut r: Vec<Step> = Vec::new();
    let n_in: u64 = fade_in_ms / FRAME_MS;
    let mut i: u64 = 0;
    while i < n_in
        invariant
            n_in == fade_in_ms / FRAME_MS,
            i <= n_in,
            r@ =~= fade_in_steps(fade_in_ms).take(i as int),
        decreases n_in - i,
    {
        assert(FRAME_MS * i < fade_in_ms) by (nonlinear_arith)
            requires i < n_in, n_in == fade_in_ms / 40, FRAME_MS == 40;
        r.push(Step { duty: Duty { num: FRAME_MS * i, den: fade_in_ms }, duration_ms: FRAME_MS });
        i = i + 1;
    }
    r.push(Step { duty: Duty::full(), duration_ms: on_ms });
    let ghost head = r@;
    let n_out: u64 = fade_out_ms / FRAME_MS;
    let mut j: u64 = 0;
    while j < n_out
        invariant
            n_out == fade_out_ms / FRAME_MS,
            j <= n_out,
            r@ =~= head + fade_out_steps(fade_out_ms).take(j as int),
        decreases n_out - j,
    {
        assert(FRAME_MS * j < fade_out_ms) by (nonlinear_arith)
            requires j < n_out, n_out == fade_out_ms / 40, FRAME_MS == 40;
        r.push(
            Step { duty: Duty { num: fade_out_ms - FRAME_MS * j, den: fade_out_ms }, duration_ms: FRAME_MS },
        );
        j = j + 1;
    }
    r.push(Step { duty: Duty::zero(), duration_ms: off_ms });
    assert(fade_in_steps(fade_in_ms).take(n_in as int) =~= fade_in_steps(fade_in_ms));
    assert(fade_out_steps(fade_out_ms).take(n_out as int) =~= fade_out_steps(fade_out_ms));
    assert(r@ =~= fade_cycle(on_ms, off_ms, fade_in_ms, fade_out_ms));
    assert forall|k: int| 0 <= k < r@.len() implies (#[trigger] r@[k]).duty.valid() by {
        let a = n_in as int;
        let b = n_out as int;
        if k < a {
            assert(FRAME_MS * k < fade_in_ms) by (nonlinear_arith)
                requires 0 <= k < a, a == fade_in_ms / 40, FRAME_MS == 40;
        } else if a < k && k < a + 1 + b {
            assert(FRAME_MS * (k - a - 1) < fade_out_ms) by (nonlinear_arith)
                requires 0 <= k - a - 1 < b, b == fade_out_ms / 40, FRAME_MS == 40;
        }
    }
    r
}

} // verus!
