use matter_rgb_lamp::channel::CommandQueue;
use matter_rgb_lamp::color::Rgb;
use matter_rgb_lamp::led::{ControlMessage, Driver, Mode};

#[test]
fn fresh_driver_defaults() {
    let d = Driver::new();
    assert_eq!(d.rendered_colour(), Rgb { r: 239, g: 235, b: 216 });
    assert_eq!(d.rendered_level(), 150);
    assert_eq!(d.mode(), Mode::Solid);
}

#[test]
fn brightness_and_color_commands_update_rendering() {
    let mut d = Driver::new();
    assert!(d.handle_command(ControlMessage::SetBrightness(9)));
    assert_eq!(d.rendered_level(), 9);
    assert!(d.handle_command(ControlMessage::SetColor { r: 1, g: 2, b: 3 }));
    assert_eq!(d.rendered_colour(), Rgb { r: 1, g: 2, b: 3 });
}

#[test]
fn power_commands_gate_rendering() {
    let mut d = Driver::new();
    assert!(d.handle_command(ControlMessage::SetPower {
        on: false,
        recall: None
    }));
    assert_eq!(d.rendered_level(), 0);
    assert!(d.handle_command(ControlMessage::SetPower {
        on: true,
        recall: Some(99)
    }));
    assert_eq!(d.rendered_level(), 99);
    assert!(d.handle_command(ControlMessage::SetPower {
        on: false,
        recall: None
    }));
    assert!(d.handle_command(ControlMessage::SetPower {
        on: true,
        recall: None
    }));
    // Turning on without a recall level keeps the stored brightness.
    assert_eq!(d.rendered_level(), 99);
}

#[test]
fn reset_restores_defaults() {
    let mut d = Driver::new();
    let _ = d.handle_command(ControlMessage::SetBrightness(9));
    let _ = d.handle_command(ControlMessage::SetColor { r: 1, g: 2, b: 3 });
    let _ = d.handle_command(ControlMessage::SetMode(Mode::Pulse { period_ms: 1000 }));
    assert!(d.handle_command(ControlMessage::Reset));
    assert_eq!(d.rendered_colour(), Rgb { r: 220, g: 100, b: 20 });
    assert_eq!(d.rendered_level(), 255);
    assert_eq!(d.mode(), Mode::Solid);
}

#[test]
fn mode_switch_writes_no_hardware() {
    let mut d = Driver::new();
    // A mode switch takes effect at the next scheduler iteration; it does not
    // itself rewrite the hardware.
    assert!(!d.handle_command(ControlMessage::SetMode(Mode::Pulse { period_ms: 800 })));
    assert_eq!(d.mode(), Mode::Pulse { period_ms: 800 });
}

#[test]
fn pulse_ramps_down_from_peak_and_back() {
    let mut d = Driver::new();
    let _ = d.handle_command(ControlMessage::SetBrightness(3));
    let _ = d.handle_command(ControlMessage::SetMode(Mode::Pulse { period_ms: 1000 }));
    // The peak is the brightness at the mode switch. The ramp overshoots the
    // peak by one step before turning, exactly as a saturating step does.
    assert!(d.animation_tick());
    assert_eq!(d.rendered_level(), 4);
    assert!(d.animation_tick());
    assert_eq!(d.rendered_level(), 3);
    assert!(d.animation_tick());
    assert_eq!(d.rendered_level(), 2);
    assert!(d.animation_tick());
    assert_eq!(d.rendered_level(), 1);
    // At the bottom the direction turns up again.
    assert!(d.animation_tick());
    assert_eq!(d.rendered_level(), 2);
    assert!(d.animation_tick());
    assert_eq!(d.rendered_level(), 3);
    // At the peak the direction turns down again.
    assert!(d.animation_tick());
    assert_eq!(d.rendered_level(), 2);
    assert!(d.animation_tick());
    assert_eq!(d.rendered_level(), 1);
}

#[test]
fn solid_mode_never_ticks() {
    let mut d = Driver::new();
    assert!(!d.animation_tick());
    assert_eq!(d.rendered_level(), 150);
    assert_eq!(d.frame_period_ms(), None);
}

#[test]
fn color_cycle_matches_hsv_conversion() {
    let mut d = Driver::new();
    let _ = d.handle_command(ControlMessage::SetMode(Mode::ColorCycle { period_ms: 2000 }));
    for hue in 1..=16u8 {
        assert!(d.animation_tick());
        let expected = smart_leds::hsv::hsv2rgb(smart_leds::hsv::Hsv {
            hue,
            sat: 255,
            val: 255,
        });
        assert_eq!(
            d.rendered_colour(),
            Rgb {
                r: expected.r,
                g: expected.g,
                b: expected.b
            },
            "hue {}",
            hue
        );
    }
}

#[test]
fn frame_periods() {
    let mut d = Driver::new();
    let _ = d.handle_command(ControlMessage::SetBrightness(100));
    let _ = d.handle_command(ControlMessage::SetMode(Mode::Pulse { period_ms: 1000 }));
    assert_eq!(d.frame_period_ms(), Some(10));
    // Short periods are floored at half a second.
    let _ = d.handle_command(ControlMessage::SetMode(Mode::Pulse { period_ms: 100 }));
    assert_eq!(d.frame_period_ms(), Some(5));
    let _ = d.handle_command(ControlMessage::SetMode(Mode::ColorCycle { period_ms: 2550 }));
    assert_eq!(d.frame_period_ms(), Some(10));
    let _ = d.handle_command(ControlMessage::SetMode(Mode::ColorCycle { period_ms: 0 }));
    assert_eq!(d.frame_period_ms(), Some(1));
}

#[test]
fn poll_channel_applies_in_arrival_order() {
    let mut d = Driver::new();
    let mut q = CommandQueue::new();
    assert_eq!(d.poll_channel(&mut q), None);
    assert_eq!(q.try_send(ControlMessage::SetBrightness(10)), Ok(()));
    assert_eq!(q.try_send(ControlMessage::SetBrightness(20)), Ok(()));
    assert_eq!(
        q.try_send(ControlMessage::SetMode(Mode::Pulse { period_ms: 700 })),
        Ok(())
    );
    // Each message is applied fully and independently: the superseded
    // brightness still lands before the next one.
    assert_eq!(d.poll_channel(&mut q), Some(true));
    assert_eq!(d.rendered_level(), 10);
    assert_eq!(d.poll_channel(&mut q), Some(true));
    assert_eq!(d.rendered_level(), 20);
    assert_eq!(d.poll_channel(&mut q), Some(false));
    assert_eq!(d.mode(), Mode::Pulse { period_ms: 700 });
    assert_eq!(d.poll_channel(&mut q), None);
}
