use matter_rgb_lamp::sampler::{button_decision, LevelSampler};

#[test]
fn button_press_toggles() {
    assert_eq!(button_decision(true, false), Some(true));
    assert_eq!(button_decision(true, true), Some(false));
    assert_eq!(button_decision(false, false), None);
    assert_eq!(button_decision(false, true), None);
}

#[test]
fn filter_converges_and_reports() {
    // A fresh sampler fed a high raw reading, fixture on: the moving average
    // climbs by exactly the documented filter arithmetic.
    let mut s = LevelSampler::new();
    assert_eq!(s.poll(4081, true), Some(1));
    assert_eq!(s.ema, 816);
    assert_eq!(s.poll(4081, true), None); // still maps to level 1
    assert_eq!(s.ema, 1469);
    assert_eq!(s.poll(4081, true), None);
    assert_eq!(s.ema, 1991);
    assert_eq!(s.poll(4081, true), Some(16));
    assert_eq!(s.ema, 2409);
    assert_eq!(s.poll(4081, true), Some(64));
    assert_eq!(s.poll(4081, true), Some(102));
    assert_eq!(s.poll(4081, true), Some(132));
}

#[test]
fn small_changes_suppressed_while_off() {
    // A steady average of 3011 maps to level 102; the last reported level is
    // 100, a change of 2, under the hysteresis threshold of 5.
    let mut s = LevelSampler {
        ema: 3011,
        last_level: 100,
    };
    assert_eq!(s.poll(3011, false), None);
    // The suppressed change is not remembered: the last level stays 100.
    assert_eq!(s.last_level, 100);
    // The same change is reported while the fixture is on.
    assert_eq!(s.poll(3011, true), Some(102));
    assert_eq!(s.last_level, 102);
}

#[test]
fn unchanged_level_not_reported() {
    let mut s = LevelSampler {
        ema: 3000,
        last_level: 100,
    };
    // The average stays at 3000, which maps to the last reported level.
    assert_eq!(s.poll(3000, true), None);
    assert_eq!(s.poll(3000, false), None);
}

#[test]
fn large_change_reported_even_while_off() {
    let mut s = LevelSampler {
        ema: 3000,
        last_level: 1,
    };
    // Level 100 against a last report of 1: well past the threshold.
    assert_eq!(s.poll(3000, false), Some(100));
    assert_eq!(s.last_level, 100);
}

#[test]
fn mapping_clamps_to_level_range() {
    // Below the measured raw minimum: the minimum level.
    let mut low = LevelSampler {
        ema: 1000,
        last_level: 200,
    };
    assert_eq!(low.poll(1000, true), Some(1));
    // At the measured raw maximum: the maximum level.
    let mut high = LevelSampler {
        ema: 4081,
        last_level: 1,
    };
    assert_eq!(high.poll(4081, true), Some(255));
    // Far above the measured maximum still clamps to the maximum.
    let mut over = LevelSampler {
        ema: 65535,
        last_level: 1,
    };
    assert_eq!(over.poll(65535, true), Some(255));
}
