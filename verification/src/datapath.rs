//! Control datapath: eight per-channel temperatures are combined through
//! per-channel weights into one input of a stateful IIR filter whose output is
//! clamped to a configured interval on every call. A `hold` flag re-emits the
//! last committed output without touching the stored filter history.

use vstd::prelude::*;

use crate::fixed::clamp;
use crate::fixed::div_q16;
use crate::fixed::mul_i32;
use crate::fixed::scale_down_q16;

verus! {

/// Filter history: `[x1, x2, y0, y1, y2]` where `x1`, `x2` are the two most
/// recent weighted inputs (newest first), `y0` is the last committed output
/// and `y1`, `y2` are the two outputs before it.
pub type Vec5 = [i32; 5];

/// One control loop's configuration: the filter gain, the hard output
/// saturation interval and the eight input channel weights, all Q16.16.
///
/// Configuration is settable from outside the control tick; `update` itself
/// never changes it.
pub struct Datapath {
    /// Filter gain applied to the weighted input.
    pub gain: i32,
    /// Lower output saturation bound.
    pub y_min: i32,
    /// Upper output saturation bound.
    pub y_max: i32,
    /// Per-channel input weights; each temperature is multiplied by its
    /// weight and the sum is fed to the filter.
    pub weights: [i32; 8],
}

impl Datapath {
    /// A usable configuration: the saturation interval is non-empty.
    pub open spec fn wf(self) -> bool {
        self.y_min <= self.y_max
    }

    /// The weighted sum of the eight channel temperatures, in Q32.32
    /// (a product of two Q16.16 words), summed in ascending channel order.
    pub open spec fn weighted_sum(self, t: [i32; 8]) -> int {
        t[0] * self.weights[0] + t[1] * self.weights[1] + t[2] * self.weights[2]
            + t[3] * self.weights[3] + t[4] * self.weights[4] + t[5] * self.weights[5]
            + t[6] * self.weights[6] + t[7] * self.weights[7]
    }

    /// The filter input: the weighted sum brought back to Q16.16.
    pub open spec fn weighted_input(self, t: [i32; 8]) -> int {
        div_q16(self.weighted_sum(t))
    }

    /// The filter output before saturation: gain times the weighted input.
    pub open spec fn raw_output(self, t: [i32; 8]) -> int {
        div_q16(self.gain * self.weighted_input(t))
    }

    /// The committed output of one non-held update: the raw output saturated
    /// to `[y_min, y_max]`.
    pub open spec fn output(self, t: [i32; 8]) -> int {
        clamp(self.raw_output(t), self.y_min as int, self.y_max as int)
    }

    /// What `update` returns for given temperatures, prior state and hold
    /// flag.
    pub open spec fn result_of(self, t: [i32; 8], s: [i32; 5], hold: bool) -> int {
        if hold {
            s[2] as int
        } else {
            self.output(t)
        }
    }

    /// A filter state whose committed outputs all lie in the saturation
    /// interval; every state `update` produces satisfies this.
    pub open spec fn state_wf(self, s: [i32; 5]) -> bool {
        &&& self.y_min <= s[2] <= self.y_max
        &&& self.y_min <= s[3] <= self.y_max
        &&& self.y_min <= s[4] <= self.y_max
    }

    /// A datapath with the given gain, output bounds and channel weights.
    pub fn new(gain: i32, y_min: i32, y_max: i32, weights: [i32; 8]) -> (dp: Datapath)
        ensures
            dp.gain == gain,
            dp.y_min == y_min,
            dp.y_max == y_max,
            dp.weights == weights,
    {
        Datapath { gain, y_min, y_max, weights }
    }

    /// One control tick: weigh the eight temperatures, feed the sum to the
    /// filter, saturate the output and commit it to the history — unless
    /// `hold` is set, in which case the last committed output is re-emitted
    /// and the history is left exactly as it was.
    pub fn update(&mut self, channel_temperatures: &[i32; 8], iir_state: &mut Vec5, hold: bool)
        -> (y: i32)
        requires
            old(self).wf(),
            -0x8000_0000 <= old(self).weighted_input(*channel_temperatures) <= 0x7fff_ffff,
        ensures
            *final(self) == *old(self),
            y == old(self).result_of(*channel_temperatures, *old(iir_state), hold),
            hold ==> *final(iir_state) == *old(iir_state),
            !hold ==> old(self).y_min <= y <= old(self).y_max,
            !hold ==> final(iir_state)[0] == old(self).weighted_input(*channel_temperatures)
                && final(iir_state)[1] == old(iir_state)[0]
                && final(iir_state)[2] == y
                && final(iir_state)[3] == old(iir_state)[2]
                && final(iir_state)[4] == old(iir_state)[3],
            old(self).state_wf(*old(iir_state)) ==> old(self).state_wf(*final(iir_state)),
    {
        if hold {
            iir_state[2]
        } else {
            let t = channel_temperatures;
            let p0 = mul_i32(t[0], self.weights[0]);
            let p1 = mul_i32(t[1], self.weights[1]);
            let p2 = mul_i32(t[2], self.weights[2]);
            let p3 = mul_i32(t[3], self.weights[3]);
            let p4 = mul_i32(t[4], self.weights[4]);
            let p5 = mul_i32(t[5], self.weights[5]);
            let p6 = mul_i32(t[6], self.weights[6]);
            let p7 = mul_i32(t[7], self.weights[7]);
            let acc: i128 = p0 + p1 + p2 + p3 + p4 + p5 + p6 + p7;
            let x0_wide = scale_down_q16(acc);
            let x0 = x0_wide as i32;
            let raw = scale_down_q16(mul_i32(self.gain, x0));
            let y: i32 = if raw < self.y_min as i128 {
                self.y_min
            } else if raw > self.y_max as i128 {
                self.y_max
            } else {
                raw as i32
            };
            let s0 = iir_state[0];
            let s2 = iir_state[2];
            let s3 = iir_state[3];
            *iir_state = [x0, s0, y, s2, s3];
            y
        }
    }
}

/// The update is a pure function of configuration, temperatures, prior state
/// and the hold flag: equal inputs give equal outputs.
pub proof fn lemma_update_deterministic(
    dp: Datapath,
    t1: [i32; 8],
    t2: [i32; 8],
    s1: [i32; 5],
    s2: [i32; 5],
    hold: bool,
)
    requires
        t1 == t2,
        s1 == s2,
    ensures
        dp.result_of(t1, s1, hold) == dp.result_of(t2, s2, hold),
{
}

/// A held update returns exactly what the prior non-held update committed:
/// any state whose committed output entry came from `output` re-emits that
/// output under hold, for any temperatures.
pub proof fn lemma_hold_returns_prior_output(
    dp: Datapath,
    t_prior: [i32; 8],
    t_held: [i32; 8],
    s: [i32; 5],
)
    requires
        s[2] == dp.output(t_prior),
    ensures
        dp.result_of(t_held, s, true) == dp.output(t_prior),
{
}

/// The returned output always lies in `[y_min, y_max]`: directly by
/// saturation for a non-held update, and by the state's well-formedness for a
/// held one.
pub proof fn lemma_output_clamped(dp: Datapath, t: [i32; 8], s: [i32; 5], hold: bool)
    requires
        dp.wf(),
        dp.state_wf(s),
    ensures
        dp.y_min <= dp.result_of(t, s, hold) <= dp.y_max,
{
}

/// Temperatures enter the filter only through their weighted sum: two
/// temperature vectors with equal weighted sums give the same output and the
/// same committed input, whatever the prior state and hold flag.
pub proof fn lemma_weight_linearity(
    dp: Datapath,
    t1: [i32; 8],
    t2: [i32; 8],
    s: [i32; 5],
    hold: bool,
)
    requires
        dp.weighted_sum(t1) == dp.weighted_sum(t2),
    ensures
        dp.result_of(t1, s, hold) == dp.result_of(t2, s, hold),
        dp.weighted_input(t1) == dp.weighted_input(t2),
{
}

} // verus!
