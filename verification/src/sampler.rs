//! The physical input samplers' decision logic.
//!
//! The button sampler turns debounced falling edges of a button into
//! power-toggle commands. The level sampler filters periodic analog readings
//! of a potentiometer with an exponential moving average, maps the filtered
//! value onto the level range, and applies a hysteresis threshold so sensor
//! noise neither chatters nor switches the fixture on by accident. The
//! waiting — edge events, debounce delays, the sampling timer — is the
//! caller's: these functions decide, from one reading at a time, what command
//! to synthesize, if any.

use vstd::prelude::*;

use crate::level_control::{MAX_LEVEL, MIN_LEVEL};

verus! {

/// The smallest raw reading the potentiometer produces, measured.
pub const ADC_RAW_MIN: u32 = 2300;

/// The largest raw reading the potentiometer produces, measured.
pub const ADC_RAW_MAX: u32 = 4081;

/// Numerator of the moving-average weight of a new sample.
pub const EMA_ALPHA_NUM: u32 = 2;

/// Denominator of the moving-average weight: a new sample weighs
/// `EMA_ALPHA_NUM / EMA_ALPHA_DEN`.
pub const EMA_ALPHA_DEN: u32 = 10;

/// The smallest level change the sampler reports while the fixture is off:
/// smaller changes are noise and must not power the fixture on.
pub const LEVEL_HYSTERESIS: u32 = 5;

/// How long the samplers wait between readings, and after an edge before
/// re-arming edge detection.
pub const SAMPLE_INTERVAL_MS: u64 = 50;

/// Decide what a debounced button edge does: a pressed (low) button toggles
/// the power state, anything else is contact noise and does nothing.
pub fn button_decision(pressed: bool, on_off: bool) -> (target: Option<bool>)
    ensures
        target == (if pressed {
            Some(!on_off)
        } else {
            None::<bool>
        }),
{
    if pressed {
        Some(!on_off)
    } else {
        None
    }
}

/// The moving average after one sample: the sample weighted by
/// `EMA_ALPHA_NUM / EMA_ALPHA_DEN` against the previous average.
pub open spec fn spec_ema_next(ema: u32, sample: u16) -> int {
    (EMA_ALPHA_NUM * sample + (EMA_ALPHA_DEN - EMA_ALPHA_NUM) * ema) / (EMA_ALPHA_DEN as int)
}

/// The level a filtered reading maps to: the reading's position in the
/// measured raw range, scaled linearly onto the level range and clamped into
/// it.
pub open spec fn spec_level_of_ema(ema: int) -> int {
    let shifted = if ema > ADC_RAW_MIN {
        ema - ADC_RAW_MIN
    } else {
        0int
    };
    let scaled = (shifted * (MAX_LEVEL - MIN_LEVEL)) / (ADC_RAW_MAX - ADC_RAW_MIN) + MIN_LEVEL;
    if scaled < MIN_LEVEL {
        MIN_LEVEL as int
    } else if scaled > MAX_LEVEL {
        MAX_LEVEL as int
    } else {
        scaled
    }
}

/// The filtered analog sampler: the moving average and the last level it
/// reported.
pub struct LevelSampler {
    /// The exponential moving average of the raw readings.
    pub ema: u32,
    /// The last level reported; zero before the first report, which no
    /// mapped reading equals, so the first reading is always reported.
    pub last_level: u8,
}

/// The sampler's transition on one raw reading. The average always absorbs
/// the sample. The mapped level is reported when it differs from the last
/// reported level — except that, while the fixture is off, a change smaller
/// than the hysteresis threshold is suppressed without being remembered, so
/// noise cannot power the fixture on.
pub open spec fn spec_sampler_poll(s: LevelSampler, sample: u16, fixture_on: bool) -> (
    LevelSampler,
    Option<u8>,
) {
    let ema2 = spec_ema_next(s.ema, sample) as u32;
    let level = spec_level_of_ema(ema2 as int) as u8;
    let diff = if level >= s.last_level {
        level - s.last_level
    } else {
        s.last_level - level
    };
    if level == s.last_level {
        (LevelSampler { ema: ema2, ..s }, None::<u8>)
    } else if diff < LEVEL_HYSTERESIS && !fixture_on {
        (LevelSampler { ema: ema2, ..s }, None::<u8>)
    } else {
        (LevelSampler { ema: ema2, last_level: level }, Some(level))
    }
}

impl LevelSampler {
    /// The sampler's invariant: the average stays within the raw reading
    /// range's width, so the filter arithmetic cannot overflow.
    pub open spec fn wf(self) -> bool {
        self.ema <= 65535
    }

    /// A fresh sampler: empty average, nothing reported yet.
    pub fn new() -> (s: LevelSampler)
        ensures
            s == (LevelSampler { ema: 0, last_level: 0 }),
            s.wf(),
    {
        LevelSampler { ema: 0, last_level: 0 }
    }

    /// Absorb one raw reading and decide whether to synthesize a
    /// level command. The returned level, if any, lies in
    /// `MIN_LEVEL..=MAX_LEVEL` and is what a "move to level with on/off"
    /// command should carry.
    pub fn poll(&mut self, sample: u16, fixture_on: bool) -> (report: Option<u8>)
        requires
            old(self).wf(),
        ensures
            final(self).wf(),
            ({
                let (s2, rep) = spec_sampler_poll(*old(self), sample, fixture_on);
                *final(self) == s2 && report == rep
            }),
            report matches Some(level) ==> MIN_LEVEL <= level <= MAX_LEVEL,
    {
        // The filter weights and ranges are written as literals so the
        // overflow checks stay within linear arithmetic; the assertions tie
        // them to the named constants of the specification.
        let num: u32 = 2 * (sample as u32) + 8 * self.ema;
        let ema2: u32 = num / 10;
        proof {
            assert(num == EMA_ALPHA_NUM * sample + (EMA_ALPHA_DEN - EMA_ALPHA_NUM) * old(self).ema);
            assert(ema2 == spec_ema_next(old(self).ema, sample));
            vstd::arithmetic::div_mod::lemma_div_is_ordered(num as int, 655350, 10);
        }
        self.ema = ema2;
        let shifted: u32 = if ema2 > ADC_RAW_MIN {
            ema2 - ADC_RAW_MIN
        } else {
            0
        };
        let scaled: u32 = (shifted * 254) / 1781 + 1;
        proof {
            assert(shifted * 254 == shifted * (MAX_LEVEL - MIN_LEVEL));
            assert(scaled == (shifted * (MAX_LEVEL - MIN_LEVEL)) / (ADC_RAW_MAX - ADC_RAW_MIN)
                + MIN_LEVEL);
            vstd::arithmetic::div_mod::lemma_div_pos_is_pos((shifted * 254) as int, 1781);
        }
        let level: u8 = if scaled < MIN_LEVEL as u32 {
            MIN_LEVEL
        } else if scaled > MAX_LEVEL as u32 {
            MAX_LEVEL
        } else {
            scaled as u8
        };
        let diff: u8 = if level >= self.last_level {
            level - self.last_level
        } else {
            self.last_level - level
        };
        if level == self.last_level {
            None
        } else if (diff as u32) < LEVEL_HYSTERESIS && !fixture_on {
            None
        } else {
            self.last_level = level;
            Some(level)
        }
    }
}

} // verus!
