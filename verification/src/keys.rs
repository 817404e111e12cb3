//! Per-key analog state: adaptive smoothing, auto-ranging and hysteretic
//! on/off detection, plus the mux-phase addressing types.
//!
//! All analog arithmetic is fixed point.  A raw ADC reading (an `i16`) is
//! shifted by [`SAMPLE_OFFSET`] into an unsigned range and scaled by
//! [`SAMPLE_UNIT`] sub-units per ADC count; the smoothed value and the
//! running extremes are kept in those units.  Normalized values live on a
//! second scale, [`NORM_UNIT`] units for the full observed travel range.

use vstd::prelude::*;

verus! {

/// Fixed-point sub-units per raw ADC count.
pub const SAMPLE_UNIT: u64 = 1000;

/// Shift applied to a raw `i16` sample so every reading is nonnegative.
pub const SAMPLE_OFFSET: u64 = 32768;

/// Largest scaled sample value: `(i16::MAX + SAMPLE_OFFSET) * SAMPLE_UNIT`.
pub const MAX_SCALED: u64 = 65_535_000;

/// Reciprocal of the low-pass smoothing factor: alpha = 1/20 = 0.05.
pub const ALPHA_DEN: u64 = 20;

/// A normalized value ranges over `0 ..= NORM_UNIT` (so 1000 means 1.0).
pub const NORM_UNIT: u64 = 1000;

/// The midpoint of the normalized range, 0.5.
pub const NORM_MIDPOINT: u64 = 500;

/// Default hysteresis offset, 0.1 of the normalized range.
pub const DEFAULT_HYSTERESIS: u64 = 100;

/// Default minimum observed travel range (in scaled sample units, so
/// 100 raw ADC counts) below which no normalized value is reported.
pub const DEFAULT_NORM_VALID_RANGE: u64 = 100_000;

/// The single active keymap layer set.
#[derive(Debug, PartialEq, Eq, Hash, Clone, Copy)]
pub enum Layer {
    Default,
}

/// A transient key-toggle event: key `keynumber` switched to on or to off.
#[derive(Debug, Clone, Copy, PartialEq, Eq, Structural)]
pub struct KeySignal {
    pub toggle_on: bool,
    pub keynumber: u8,
}

/// The adaptive filter state of one physical key.
///
/// `value`, `max_value` and `min_value` are scaled sample units (see the
/// module doc).  `switch_threshold` and `switch_hysteresis_fraction` are on
/// the normalized scale.  `max_value`/`min_value` only ever widen; the
/// normalized value exists only once their span reaches `norm_valid_range`.
#[derive(Debug, Clone, Copy, PartialEq, Eq, Structural)]
pub struct AnalogKey {
    /// The key's name: `channel * 10 + mux phase`, so not sequential.
    pub keynumber: u8,
    /// The most recent smoothed analog reading for this key.
    pub value: Option<u64>,
    /// The largest smoothed reading seen so far.
    pub max_value: Option<u64>,
    /// The smallest smoothed reading seen so far.
    pub min_value: Option<u64>,
    /// The normalized level whose crossing toggles the key.
    pub switch_threshold: u64,
    /// How far the threshold is displaced from the midpoint after a crossing.
    pub switch_hysteresis_fraction: u64,
    /// Polarity: whether a high normalized value means the key is on.
    pub high_is_on: bool,
    /// Minimum max-min span (scaled sample units) for a valid normalized value.
    pub norm_valid_range: u64,
}

/// A raw ADC sample shifted into the unsigned range and scaled.
pub open spec fn spec_sample_scaled(raw: i16) -> u64 {
    ((raw + SAMPLE_OFFSET) * SAMPLE_UNIT) as u64
}

/// Shift a raw ADC sample into the unsigned range and scale it.
pub fn sample_scaled(raw: i16) -> (r: u64)
    ensures
        r == spec_sample_scaled(raw),
        r <= MAX_SCALED,
{
    ((raw as i64 + SAMPLE_OFFSET as i64) as u64) * SAMPLE_UNIT
}

/// One step of the first-order low pass: `(1 - alpha) * old + alpha * new`
/// with `alpha = 1/ALPHA_DEN`, rounded down to a whole sub-unit.
pub open spec fn spec_smooth(oldval: u64, raw: i16) -> u64 {
    (((ALPHA_DEN - 1) * oldval + spec_sample_scaled(raw)) / (ALPHA_DEN as int)) as u64
}

impl AnalogKey {
    /// Well-formedness: bounded fields, extremes present together and
    /// bracketing the smoothed value, threshold within the hysteresis band.
    pub open spec fn wf(self) -> bool {
        &&& self.switch_hysteresis_fraction <= NORM_MIDPOINT
        &&& NORM_MIDPOINT - self.switch_hysteresis_fraction <= self.switch_threshold
        &&& self.switch_threshold <= NORM_MIDPOINT + self.switch_hysteresis_fraction
        &&& match self.value {
            Some(v) => v <= MAX_SCALED,
            None => true,
        }
        &&& match (self.min_value, self.max_value) {
            (Some(mn), Some(mx)) => match self.value {
                Some(v) => mn <= v && v <= mx && mx <= MAX_SCALED,
                None => false,
            },
            (None, None) => true,
            _ => false,
        }
    }

    /// Where the smoothed value sits in the observed travel range, if that
    /// range is wide enough to be meaningful.
    pub open spec fn spec_normalized(self) -> Option<u64> {
        match (self.value, self.min_value, self.max_value) {
            (Some(v), Some(mn), Some(mx)) => {
                if mx > mn && mx - mn >= self.norm_valid_range {
                    Some((((v - mn) * NORM_UNIT) / ((mx - mn) as int)) as u64)
                } else {
                    None
                }
            },
            _ => None,
        }
    }

    /// The on/off reading: defined exactly when the normalized value is,
    /// with the threshold comparison XOR-ed with the polarity flag.
    pub open spec fn spec_is_on(self) -> Option<bool> {
        match self.spec_normalized() {
            Some(n) => Some((n >= self.switch_threshold) == self.high_is_on),
            None => None,
        }
    }

    /// The filter state after one raw sample.
    ///
    /// The first sample seeds the smoothed value; later samples low-pass it,
    /// widen the running extremes, and move the threshold to the opposite
    /// hysteresis offset whenever the normalized value crosses it.
    pub open spec fn spec_updated(self, raw: i16) -> AnalogKey {
        match self.value {
            None => AnalogKey { value: Some(spec_sample_scaled(raw)), ..self },
            Some(oldval) => {
                let newval = spec_smooth(oldval, raw);
                let newmax = match self.max_value {
                    Some(mx) => if newval > mx { newval } else { mx },
                    None => newval,
                };
                let newmin = match self.min_value {
                    Some(mn) => if newval < mn { newval } else { mn },
                    None => newval,
                };
                let widened = AnalogKey {
                    value: Some(newval),
                    max_value: Some(newmax),
                    min_value: Some(newmin),
                    ..self
                };
                let newth = match (self.spec_normalized(), widened.spec_normalized()) {
                    (Some(oldn), Some(newn)) => {
                        if oldn < self.switch_threshold && newn >= self.switch_threshold {
                            (NORM_MIDPOINT - self.switch_hysteresis_fraction) as u64
                        } else if oldn >= self.switch_threshold && newn < self.switch_threshold {
                            (NORM_MIDPOINT + self.switch_hysteresis_fraction) as u64
                        } else {
                            self.switch_threshold
                        }
                    },
                    _ => self.switch_threshold,
                };
                AnalogKey { switch_threshold: newth, ..widened }
            },
        }
    }

    /// The toggle event one raw sample produces: emitted exactly when the
    /// on/off reading is defined both before and after and has flipped.
    pub open spec fn spec_toggle(self, raw: i16) -> Option<KeySignal> {
        let after = self.spec_updated(raw);
        match (self.spec_is_on(), after.spec_is_on()) {
            (Some(o), Some(n)) => {
                if o != n {
                    Some(KeySignal { toggle_on: n, keynumber: self.keynumber })
                } else {
                    None
                }
            },
            _ => None,
        }
    }

    /// The state `AnalogKey::new` constructs: no reading yet, default tuning.
    pub open spec fn spec_new(keynumber: u8) -> AnalogKey {
        AnalogKey {
            keynumber,
            value: None,
            max_value: None,
            min_value: None,
            switch_threshold: NORM_MIDPOINT,
            switch_hysteresis_fraction: DEFAULT_HYSTERESIS,
            high_is_on: false,
            norm_valid_range: DEFAULT_NORM_VALID_RANGE,
        }
    }

    /// A fresh key filter with no reading yet and the default tuning.
    pub fn new(keynumber: u8) -> (r: AnalogKey)
        ensures
            r == AnalogKey::spec_new(keynumber),
            r.wf(),
    {
        AnalogKey {
            keynumber,
            value: None,
            max_value: None,
            min_value: None,
            switch_threshold: NORM_MIDPOINT,
            switch_hysteresis_fraction: DEFAULT_HYSTERESIS,
            high_is_on: false,
            norm_valid_range: DEFAULT_NORM_VALID_RANGE,
        }
    }

    /// Feed one raw ADC sample through the filter.
    ///
    /// The first sample seeds the smoothed value.  Later samples low-pass it
    /// with `alpha = 1/ALPHA_DEN`, widen the running extremes monotonically,
    /// and relocate the threshold to the opposite hysteresis offset when the
    /// normalized value crosses it.  Returns the toggle event when the
    /// on/off reading flipped, and `None` otherwise.
    pub fn update_value_adc(&mut self, new_adc_value: i16) -> (r: Option<KeySignal>)
        requires
            old(self).wf(),
        ensures
            final(self).wf(),
            *final(self) == old(self).spec_updated(new_adc_value),
            r == old(self).spec_toggle(new_adc_value),
    {
        let oldon = self.is_on();
        match self.value {
            None => {
                self.value = Some(sample_scaled(new_adc_value));
                assert(self.spec_is_on() is None);
                None
            },
            Some(oldval) => {
                let old_norm = self.normalized_value();
                let scaled = sample_scaled(new_adc_value);
                let newval = ((ALPHA_DEN - 1) * oldval + scaled) / ALPHA_DEN;
                proof {
                    vstd::arithmetic::div_mod::lemma_div_is_ordered(
                        ((ALPHA_DEN - 1) * oldval + scaled) as int,
                        (ALPHA_DEN * MAX_SCALED) as int,
                        ALPHA_DEN as int,
                    );
                    vstd::arithmetic::div_mod::lemma_div_multiples_vanish(
                        MAX_SCALED as int,
                        ALPHA_DEN as int,
                    );
                }
                self.max_value = Some(
                    match self.max_value {
                        Some(mx) => if newval > mx { newval } else { mx },
                        None => newval,
                    },
                );
                self.min_value = Some(
                    match self.min_value {
                        Some(mn) => if newval < mn { newval } else { mn },
                        None => newval,
                    },
                );
                self.value = Some(newval);
                assert(self.wf());
                let new_norm = self.normalized_value();
                match (old_norm, new_norm) {
                    (Some(oldn), Some(newn)) => {
                        if oldn < self.switch_threshold && newn >= self.switch_threshold {
                            self.switch_threshold = NORM_MIDPOINT
                                - self.switch_hysteresis_fraction;
                        } else if oldn >= self.switch_threshold && newn < self.switch_threshold {
                            self.switch_threshold = NORM_MIDPOINT
                                + self.switch_hysteresis_fraction;
                        }
                    },
                    _ => {},
                }
                assert(*self == old(self).spec_updated(new_adc_value));
                let newon = self.is_on();
                match (oldon, newon) {
                    (Some(o), Some(n)) => {
                        if o != n {
                            Some(KeySignal { toggle_on: n, keynumber: self.keynumber })
                        } else {
                            None
                        }
                    },
                    _ => None,
                }
            },
        }
    }

    /// Where the smoothed value sits in the observed range, absent whenever
    /// the observed span is still narrower than `norm_valid_range`.
    pub fn normalized_value(&self) -> (r: Option<u64>)
        requires
            self.wf(),
        ensures
            r == self.spec_normalized(),
            r matches Some(n) ==> n <= NORM_UNIT,
    {
        match (self.value, self.min_value, self.max_value) {
            (Some(v), Some(mn), Some(mx)) => {
                if mx > mn && mx - mn >= self.norm_valid_range {
                    proof {
                        vstd::arithmetic::div_mod::lemma_div_is_ordered(
                            (v - mn) * NORM_UNIT,
                            (mx - mn) * (NORM_UNIT as int),
                            (mx - mn) as int,
                        );
                        vstd::arithmetic::div_mod::lemma_div_multiples_vanish(
                            NORM_UNIT as int,
                            (mx - mn) as int,
                        );
                    }
                    Some(((v - mn) * NORM_UNIT) / (mx - mn))
                } else {
                    None
                }
            },
            _ => None,
        }
    }

    /// The debounced on/off reading of the key, if calibrated.
    pub fn is_on(&self) -> (r: Option<bool>)
        requires
            self.wf(),
        ensures
            r == self.spec_is_on(),
    {
        match self.normalized_value() {
            Some(n) => Some((n >= self.switch_threshold) == self.high_is_on),
            None => None,
        }
    }
}

impl Default for AnalogKey {
    /// Same as `AnalogKey::new(0)`.
    fn default() -> (r: Self)
        ensures
            r == AnalogKey::spec_new(0),
    {
        AnalogKey::new(0)
    }
}

/// One of the two logic levels of a mux address line.
#[derive(Debug, Clone, Copy, PartialEq, Eq, Structural)]
pub enum LineLevel {
    Low,
    High,
}

/// The two-bit mux address-line configuration selecting one scan phase.
#[derive(Debug, Clone, Copy, PartialEq, Eq, Structural)]
pub struct MuxSpec {
    /// Level driven onto the first address line.
    pub a: LineLevel,
    /// Level driven onto the second address line.
    pub b: LineLevel,
}

impl MuxSpec {
    /// The fixed index of this address combination, `a` being the low bit.
    pub open spec fn spec_index(self) -> u8 {
        match (self.a, self.b) {
            (LineLevel::Low, LineLevel::Low) => 0,
            (LineLevel::High, LineLevel::Low) => 1,
            (LineLevel::Low, LineLevel::High) => 2,
            (LineLevel::High, LineLevel::High) => 3,
        }
    }

    /// All four mux phases, in scan order.
    pub fn iterator() -> (r: [MuxSpec; 4])
        ensures
            forall|i: int| 0 <= i < 4 ==> #[trigger] r@[i].spec_index() == i,
    {
        let all: [MuxSpec; 4] = [
            MuxSpec { a: LineLevel::Low, b: LineLevel::Low },
            MuxSpec { a: LineLevel::High, b: LineLevel::Low },
            MuxSpec { a: LineLevel::Low, b: LineLevel::High },
            MuxSpec { a: LineLevel::High, b: LineLevel::High },
        ];
        all
    }

    /// The fixed index of this address combination.
    pub fn index(&self) -> (r: u8)
        ensures
            r == self.spec_index(),
            r < 4,
    {
        match (self.a, self.b) {
            (LineLevel::Low, LineLevel::Low) => 0,
            (LineLevel::High, LineLevel::Low) => 1,
            (LineLevel::Low, LineLevel::High) => 2,
            (LineLevel::High, LineLevel::High) => 3,
        }
    }
}

impl Default for MuxSpec {
    /// The first scan phase: both address lines low.
    fn default() -> (r: Self)
        ensures
            r.spec_index() == 0,
    {
        MuxSpec { a: LineLevel::Low, b: LineLevel::Low }
    }
}

/// Law: one filter step preserves well-formedness, and the smoothed value,
/// once seeded, is never cleared.
pub proof fn lemma_updated_wf(k: AnalogKey, raw: i16)
    requires
        k.wf(),
    ensures
        k.spec_updated(raw).wf(),
        k.spec_updated(raw).value is Some,
{
    match k.value {
        None => {},
        Some(v0) => {
            let t = spec_sample_scaled(raw);
            vstd::arithmetic::div_mod::lemma_div_is_ordered(
                (ALPHA_DEN - 1) * v0 + t,
                (ALPHA_DEN * MAX_SCALED) as int,
                ALPHA_DEN as int,
            );
            vstd::arithmetic::div_mod::lemma_div_multiples_vanish(
                MAX_SCALED as int,
                ALPHA_DEN as int,
            );
            vstd::arithmetic::div_mod::lemma_div_pos_is_pos(
                (ALPHA_DEN - 1) * v0 + t,
                ALPHA_DEN as int,
            );
        },
    }
}

/// Law: once set, `max_value` and `min_value` only ever widen (the maximum
/// never shrinks, the minimum never grows), and whenever the maximum exists
/// the minimum exists too and does not exceed it.
pub proof fn lemma_range_monotone(k: AnalogKey, raw: i16)
    requires
        k.wf(),
    ensures
        k.max_value matches Some(m0) ==> (k.spec_updated(raw).max_value matches Some(m1)
            && m1 >= m0),
        k.min_value matches Some(n0) ==> (k.spec_updated(raw).min_value matches Some(n1)
            && n1 <= n0),
        k.spec_updated(raw).max_value matches Some(m1) ==> (k.spec_updated(
            raw,
        ).min_value matches Some(n1) && n1 <= m1),
{
}

/// Law: the normalized value is absent whenever the observed travel range
/// has not yet spanned the key's minimum valid range.
pub proof fn lemma_normalized_absent_below_range(k: AnalogKey)
    requires
        match (k.min_value, k.max_value) {
            (Some(mn), Some(mx)) => mx - mn < k.norm_valid_range,
            _ => true,
        },
    ensures
        k.spec_normalized() is None,
{
}

/// Law: with high-is-on polarity, an off-to-on toggle leaves the threshold
/// exactly at `NORM_MIDPOINT - switch_hysteresis_fraction`, and an on-to-off
/// toggle exactly at `NORM_MIDPOINT + switch_hysteresis_fraction`.
///
/// With the inverted polarity the two offsets trade places, so the equality
/// below is stated for the high-is-on orientation only.
pub proof fn lemma_threshold_after_toggle(k: AnalogKey, raw: i16)
    requires
        k.wf(),
        k.high_is_on == true,
    ensures
        k.spec_toggle(raw) matches Some(sig) && sig.toggle_on ==> k.spec_updated(
            raw,
        ).switch_threshold == NORM_MIDPOINT - k.switch_hysteresis_fraction,
        k.spec_toggle(raw) matches Some(sig) && !sig.toggle_on ==> k.spec_updated(
            raw,
        ).switch_threshold == NORM_MIDPOINT + k.switch_hysteresis_fraction,
{
}

/// Distance between a smoothed value and a target, as a mathematical integer.
pub open spec fn spec_dist(v: u64, target: u64) -> int {
    if v >= target {
        v - target
    } else {
        target - v
    }
}

/// Law: one smoothing step is a contraction toward the sample's fixed point:
/// the distance to the scaled sample never grows, it shrinks by at least one
/// sub-unit while it is at least `ALPHA_DEN`, and the fixed point is exact.
pub proof fn lemma_smooth_step_contracts(v0: u64, raw: i16)
    ensures
        spec_dist(spec_smooth(v0, raw), spec_sample_scaled(raw)) <= spec_dist(
            v0,
            spec_sample_scaled(raw),
        ),
        spec_dist(spec_smooth(v0, raw), spec_sample_scaled(raw)) <= vstd::math::max(
            spec_dist(v0, spec_sample_scaled(raw)) - 1,
            (ALPHA_DEN - 1) as int,
        ),
        spec_dist(spec_smooth(v0, raw), v0) <= spec_dist(v0, spec_sample_scaled(raw)),
        v0 == spec_sample_scaled(raw) ==> spec_smooth(v0, raw) == v0,
{
    let t = spec_sample_scaled(raw);
    let num: int = (ALPHA_DEN - 1) * v0 + t;
    let d: int = ALPHA_DEN as int;
    assert(num == 19 * v0 + t);
    assert(num <= d * (u64::MAX as int));
    vstd::arithmetic::div_mod::lemma_fundamental_div_mod(num, d);
    vstd::arithmetic::div_mod::lemma_mod_bound(num, d);
    vstd::arithmetic::div_mod::lemma_div_pos_is_pos(num, d);
    vstd::arithmetic::div_mod::lemma_div_is_ordered(num, d * (u64::MAX as int), d);
    vstd::arithmetic::div_mod::lemma_div_multiples_vanish(u64::MAX as int, d);
    assert(0 <= num / d <= u64::MAX);
    assert(spec_smooth(v0, raw) == num / d);
}

/// The filter state after feeding the same raw sample `n` times over.
pub open spec fn spec_iter_updated(k: AnalogKey, raw: i16, n: nat) -> AnalogKey
    decreases n,
{
    if n == 0 {
        k
    } else {
        spec_iter_updated(k, raw, (n - 1) as nat).spec_updated(raw)
    }
}

/// Law (exponential convergence): feeding one raw value `n` times brings the
/// smoothed value within `max(d0 - n, ALPHA_DEN - 1)` sub-units of the
/// sample's fixed point, `d0` being the starting distance.  Once `n` reaches
/// `d0` the smoothed value therefore sits within `ALPHA_DEN` sub-units (two
/// hundredths of a raw ADC count) of the fixed point and stays there.
pub proof fn lemma_repeated_sample_converges(k: AnalogKey, raw: i16, n: nat)
    requires
        k.wf(),
        k.value is Some,
    ensures
        spec_iter_updated(k, raw, n).wf(),
        spec_iter_updated(k, raw, n).value matches Some(v) && spec_dist(
            v,
            spec_sample_scaled(raw),
        ) <= vstd::math::max(spec_dist(k.value->0, spec_sample_scaled(raw)) - n, (ALPHA_DEN
            - 1) as int),
    decreases n,
{
    if n == 0 {
    } else {
        lemma_repeated_sample_converges(k, raw, (n - 1) as nat);
        let kprev = spec_iter_updated(k, raw, (n - 1) as nat);
        lemma_updated_wf(kprev, raw);
        lemma_smooth_step_contracts(kprev.value->0, raw);
    }
}

} // verus!
