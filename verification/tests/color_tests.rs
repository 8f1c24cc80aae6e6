use matter_rgb_lamp::channel::CommandQueue;
use matter_rgb_lamp::color::xy_to_rgb;
use matter_rgb_lamp::color_control::{ColorControlCluster, ColorMode};
use matter_rgb_lamp::error::Error;
use matter_rgb_lamp::led::ControlMessage;

#[test]
fn white_point_is_near_neutral() {
    // The D65 white point's chromaticity, as fractions of 65536.
    let (r, g, b) = xy_to_rgb(20493, 21564);
    let lo = r.min(g).min(b);
    let hi = r.max(g).max(b);
    assert!(hi - lo <= 8, "channels spread too far: {} {} {}", r, g, b);
    assert!(hi >= 200, "white point should be bright: {} {} {}", r, g, b);
}

#[test]
fn known_conversions() {
    assert_eq!(xy_to_rgb(20493, 21564), (254, 255, 254));
    assert_eq!(xy_to_rgb(39518, 21233), (255, 72, 94));
    assert_eq!(xy_to_rgb(21845, 21845), (255, 248, 243));
    assert_eq!(xy_to_rgb(0, 65535), (0, 255, 0));
}

#[test]
fn zero_y_yields_black() {
    assert_eq!(xy_to_rgb(0, 0), (0, 0, 0));
    assert_eq!(xy_to_rgb(39518, 0), (0, 0, 0));
}

#[test]
fn out_of_gamut_clamps() {
    // Coordinates summing past one: the negative Z clamps away silently.
    assert_eq!(xy_to_rgb(50000, 30000), (255, 125, 0));
    assert_eq!(xy_to_rgb(65535, 1), (255, 0, 255));
}

#[test]
fn conversion_is_deterministic() {
    for &(x, y) in &[(100u16, 200u16), (30000, 30000), (65535, 65535)] {
        assert_eq!(xy_to_rgb(x, y), xy_to_rgb(x, y));
    }
}

#[test]
fn move_to_color_commits_and_emits() {
    let mut c = ColorControlCluster::new(0);
    let mut q = CommandQueue::new();
    assert_eq!(c.current_x(), 39518);
    assert_eq!(c.current_y(), 21233);
    assert_eq!(c.color_mode(), ColorMode::CurrentXAndCurrentY);
    assert_eq!(c.handle_move_to_color(20493, 21564, &mut q), Ok(()));
    assert_eq!(c.current_x(), 20493);
    assert_eq!(c.current_y(), 21564);
    assert_eq!(c.dataver, 1);
    assert_eq!(
        q.try_receive(),
        Some(ControlMessage::SetColor {
            r: 254,
            g: 255,
            b: 254
        })
    );
}

#[test]
fn move_to_color_busy_commits_nothing() {
    let mut c = ColorControlCluster::new(0);
    let mut q = CommandQueue::new();
    for _ in 0..4 {
        assert_eq!(c.handle_move_to_color(100, 100, &mut q), Ok(()));
    }
    assert_eq!(c.handle_move_to_color(20493, 21564, &mut q), Err(Error::Busy));
    assert_eq!(c.current_x(), 100);
    assert_eq!(c.current_y(), 100);
}

#[test]
fn unsupported_color_commands_rejected() {
    let c = ColorControlCluster::new(0);
    assert_eq!(c.handle_move_to_hue(), Err(Error::InvalidCommand));
    assert_eq!(c.handle_move_hue(), Err(Error::InvalidCommand));
    assert_eq!(c.handle_step_hue(), Err(Error::InvalidCommand));
    assert_eq!(c.handle_move_to_saturation(), Err(Error::InvalidCommand));
    assert_eq!(c.handle_move_saturation(), Err(Error::InvalidCommand));
    assert_eq!(c.handle_step_saturation(), Err(Error::InvalidCommand));
    assert_eq!(
        c.handle_move_to_hue_and_saturation(),
        Err(Error::InvalidCommand)
    );
    assert_eq!(c.handle_enhanced_move_to_hue(), Err(Error::InvalidCommand));
    assert_eq!(c.handle_enhanced_move_hue(), Err(Error::InvalidCommand));
    assert_eq!(c.handle_enhanced_step_hue(), Err(Error::InvalidCommand));
    assert_eq!(
        c.handle_enhanced_move_to_hue_and_saturation(),
        Err(Error::InvalidCommand)
    );
    assert_eq!(c.handle_color_loop_set(), Err(Error::InvalidCommand));
}

#[test]
fn inert_color_commands_acknowledge() {
    let c = ColorControlCluster::new(0);
    assert_eq!(c.handle_move_color(), Ok(()));
    assert_eq!(c.handle_step_color(), Ok(()));
    assert_eq!(c.handle_move_to_color_temperature(), Ok(()));
    assert_eq!(c.handle_stop_move_step(), Ok(()));
    assert_eq!(c.handle_move_color_temperature(), Ok(()));
    assert_eq!(c.handle_step_color_temperature(), Ok(()));
    assert_eq!(c.set_options(3), Ok(()));
}

#[test]
fn color_capabilities_declare_xy_and_temperature() {
    let c = ColorControlCluster::new(0);
    assert_eq!(c.color_capabilities(), 24);
    assert_eq!(c.number_of_primaries, 3);
}
