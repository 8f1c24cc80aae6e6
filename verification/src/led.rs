//! Hardware-facing control messages and the animation scheduler.
//!
//! The attribute clusters and the input samplers produce [`ControlMessage`]
//! values; the single consumer is the animation scheduler [`Driver`], which
//! owns the rendered color/brightness pair and the active animation mode.

use vstd::prelude::*;

use crate::channel::{queue_contents, CommandQueue};
use crate::color::Rgb;

verus! {

/// The animation mode of the fixture. Exactly one mode is active at a time;
/// switching modes restarts the new mode's generator.
#[derive(Clone, Copy, Debug, PartialEq, Eq)]
pub enum Mode {
    /// Hold the current color and brightness.
    Solid,
    /// Ramp brightness down from its peak and back up, one full traversal of
    /// the brightness range per period.
    Pulse { period_ms: u64 },
    /// Rotate the hue through a full color wheel once per period.
    ColorCycle { period_ms: u64 },
}

/// A command for the hardware driver, produced by the attribute clusters and
/// the input samplers, consumed exactly once by the animation scheduler.
#[derive(Clone, Copy, Debug, PartialEq, Eq)]
pub enum ControlMessage {
    /// Power the light on or off. When turning on, `recall` carries the
    /// stored on-level to restore, if one is set.
    SetPower { on: bool, recall: Option<u8> },
    /// Set the rendered brightness.
    SetBrightness(u8),
    /// Set the rendered color.
    SetColor { r: u8, g: u8, b: u8 },
    /// Switch the animation mode.
    SetMode(Mode),
    /// Restore the fixed default color, brightness and mode.
    Reset,
}

/// The color triple that a hue rotation renders at the given hue, full
/// saturation and value.
pub uninterp spec fn rgb_of_hsv(hue: u8, sat: u8, val: u8) -> (u8, u8, u8);

/// Relies on `smart_leds::hsv::hsv2rgb`: the conversion is a pure function of
/// hue, saturation and value; its source shows every output channel bounded
/// by the value, and a zero saturation giving the gray `(val, val, val)`.
#[verifier::external_body]
fn hsv_to_rgb(hue: u8, sat: u8, val: u8) -> (rgb: Rgb)
    ensures
        (rgb.r, rgb.g, rgb.b) == rgb_of_hsv(hue, sat, val),
        rgb.r <= val && rgb.g <= val && rgb.b <= val,
        sat == 0 ==> rgb.r == val && rgb.g == val && rgb.b == val,
{
    let converted = smart_leds::hsv::hsv2rgb(smart_leds::hsv::Hsv { hue, sat, val });
    Rgb { r: converted.r, g: converted.g, b: converted.b }
}

/// The default rendered color of a fresh scheduler.
pub open spec fn spec_default_colour() -> Rgb {
    Rgb { r: 239, g: 235, b: 216 }
}

/// The color restored by a reset command.
pub open spec fn spec_reset_colour() -> Rgb {
    Rgb { r: 220, g: 100, b: 20 }
}

/// The animation scheduler: the single consumer of the command channel. It
/// exclusively owns the rendered color/brightness pair and the active
/// animation mode; it never reaches into the attribute clusters — it only
/// receives [`ControlMessage`] values and generates animation frames.
pub struct Driver {
    /// The rendered color.
    pub colour: Rgb,
    /// The stored brightness; rendered while the light is on.
    pub level: u8,
    /// Whether the light renders at all.
    pub on: bool,
    /// The active animation mode.
    pub mode: Mode,
    /// Pulse bookkeeping: whether the brightness is ramping up.
    pub direction_up: bool,
    /// Pulse bookkeeping: the brightness the ramp turns around at, captured
    /// when the pulse mode was set; at least one, so a frame period is always
    /// computable.
    pub pulse_peak: u8,
    /// Hue rotation bookkeeping: the current hue.
    pub hue: u8,
}

/// The scheduler state after applying one control message.
///
/// A power message switches rendering on or off, restoring the carried
/// recall level when turning on; a brightness or color message overwrites the
/// stored value; a mode switch restarts the animation bookkeeping for the new
/// mode (the pulse peak is the current brightness, floored at one); a reset
/// restores the fixed default color, full brightness and the solid mode.
pub open spec fn spec_apply_command(d: Driver, message: ControlMessage) -> Driver {
    match message {
        ControlMessage::SetPower { on, recall } => match recall {
            Some(l) => if on {
                Driver { on, level: l, ..d }
            } else {
                Driver { on, ..d }
            },
            None => Driver { on, ..d },
        },
        ControlMessage::SetBrightness(level) => Driver { level, ..d },
        ControlMessage::SetColor { r, g, b } => Driver { colour: (Rgb { r, g, b }), ..d },
        ControlMessage::SetMode(mode) => Driver {
            mode,
            direction_up: true,
            pulse_peak: if d.level >= 1 {
                d.level
            } else {
                1
            },
            hue: 0,
            ..d
        },
        ControlMessage::Reset => Driver {
            colour: spec_reset_colour(),
            level: 255,
            mode: Mode::Solid,
            direction_up: true,
            pulse_peak: 255,
            hue: 0,
            ..d
        },
    }
}

/// One frame of the pulse animation: the brightness steps by one, saturating,
/// and the direction turns around at the peak and at the minimum.
pub open spec fn spec_pulse_step(d: Driver) -> Driver {
    if d.direction_up {
        let level = if d.level == 255 {
            255u8
        } else {
            (d.level + 1) as u8
        };
        Driver { level, direction_up: !(level >= d.pulse_peak), ..d }
    } else {
        let level = if d.level == 0 {
            0u8
        } else {
            (d.level - 1) as u8
        };
        Driver { level, direction_up: level <= 1, ..d }
    }
}

/// The hue after one frame of the hue rotation: one step around the wheel,
/// wrapping.
pub open spec fn spec_hue_next(hue: u8) -> u8 {
    if hue == 255 {
        0
    } else {
        (hue + 1) as u8
    }
}

/// The scheduler state after one animation frame: solid mode holds, a pulse
/// steps the brightness, a hue rotation advances the hue and renders it at
/// full saturation and value.
pub open spec fn spec_animation_tick(d: Driver) -> Driver {
    match d.mode {
        Mode::Solid => d,
        Mode::Pulse { .. } => spec_pulse_step(d),
        Mode::ColorCycle { .. } => {
            let hue = spec_hue_next(d.hue);
            let rgb = rgb_of_hsv(hue, 255, 255);
            Driver { hue, colour: (Rgb { r: rgb.0, g: rgb.1, b: rgb.2 }), ..d }
        },
    }
}

/// The delay until the next animation frame: none while solid (the scheduler
/// then blocks on the channel alone), one brightness step of the pulse ramp,
/// or one hue step of the rotation. The period is floored at half a second.
pub open spec fn spec_frame_period_ms(d: Driver) -> Option<u64> {
    match d.mode {
        Mode::Solid => None,
        Mode::Pulse { period_ms } => {
            let p = if period_ms >= 500 {
                period_ms as int
            } else {
                500int
            };
            Some((p / d.pulse_peak as int) as u64)
        },
        Mode::ColorCycle { period_ms } => {
            let p = if period_ms >= 500 {
                period_ms as int
            } else {
                500int
            };
            Some((p / 255) as u64)
        },
    }
}

impl Driver {
    /// The scheduler's invariant: the pulse peak is at least one.
    pub open spec fn wf(self) -> bool {
        self.pulse_peak >= 1
    }

    /// A fresh scheduler: the default color at brightness 150, rendering,
    /// solid mode.
    pub fn new() -> (d: Driver)
        ensures
            d == (Driver {
                colour: spec_default_colour(),
                level: 150,
                on: true,
                mode: Mode::Solid,
                direction_up: true,
                pulse_peak: 150,
                hue: 0,
            }),
            d.wf(),
    {
        Driver {
            colour: Rgb { r: 239, g: 235, b: 216 },
            level: 150,
            on: true,
            mode: Mode::Solid,
            direction_up: true,
            pulse_peak: 150,
            hue: 0,
        }
    }

    /// The active animation mode.
    pub fn mode(&self) -> (m: Mode)
        ensures
            m == self.mode,
    {
        self.mode
    }

    /// The color the hardware is asked to render.
    pub fn rendered_colour(&self) -> (c: Rgb)
        ensures
            c == self.colour,
    {
        self.colour
    }

    /// The brightness the hardware is asked to render: the stored brightness
    /// while on, darkness while off.
    pub fn rendered_level(&self) -> (level: u8)
        ensures
            level == (if self.on {
                self.level
            } else {
                0u8
            }),
    {
        if self.on {
            self.level
        } else {
            0
        }
    }

    /// Apply one control message to the scheduler state. Returns whether the
    /// rendered output changed, i.e. whether the hardware must be rewritten:
    /// every message but a mode switch triggers exactly one hardware write.
    pub fn handle_command(&mut self, message: ControlMessage) -> (update: bool)
        requires
            old(self).wf(),
        ensures
            final(self).wf(),
            *final(self) == spec_apply_command(*old(self), message),
            update == !(message is SetMode),
    {
        match message {
            ControlMessage::SetPower { on, recall } => {
                self.on = on;
                if on {
                    if let Some(l) = recall {
                        self.level = l;
                    }
                }
                true
            },
            ControlMessage::SetBrightness(level) => {
                self.level = level;
                true
            },
            ControlMessage::SetColor { r, g, b } => {
                self.colour = Rgb { r, g, b };
                true
            },
            ControlMessage::SetMode(mode) => {
                self.mode = mode;
                self.direction_up = true;
                self.pulse_peak = if self.level >= 1 {
                    self.level
                } else {
                    1
                };
                self.hue = 0;
                false
            },
            ControlMessage::Reset => {
                self.colour = Rgb { r: 220, g: 100, b: 20 };
                self.level = 255;
                self.mode = Mode::Solid;
                self.direction_up = true;
                self.pulse_peak = 255;
                self.hue = 0;
                true
            },
        }
    }

    /// Advance the active animation by one frame. Returns whether the
    /// rendered output changed: a solid fixture never ticks, an animating one
    /// writes the hardware once per frame.
    pub fn animation_tick(&mut self) -> (update: bool)
        requires
            old(self).wf(),
        ensures
            final(self).wf(),
            *final(self) == spec_animation_tick(*old(self)),
            update == !(old(self).mode is Solid),
    {
        match self.mode {
            Mode::Solid => false,
            Mode::Pulse { .. } => {
                if self.direction_up {
                    self.level = if self.level == 255 {
                        255
                    } else {
                        self.level + 1
                    };
                    self.direction_up = !(self.level >= self.pulse_peak);
                } else {
                    self.level = if self.level == 0 {
                        0
                    } else {
                        self.level - 1
                    };
                    self.direction_up = self.level <= 1;
                }
                true
            },
            Mode::ColorCycle { .. } => {
                self.hue = if self.hue == 255 {
                    0
                } else {
                    self.hue + 1
                };
                self.colour = hsv_to_rgb(self.hue, 255, 255);
                true
            },
        }
    }

    /// The delay until the next animation frame, or nothing while solid.
    pub fn frame_period_ms(&self) -> (period: Option<u64>)
        requires
            self.wf(),
        ensures
            period == spec_frame_period_ms(*self),
    {
        match self.mode {
            Mode::Solid => None,
            Mode::Pulse { period_ms } => {
                let p = if period_ms >= 500 {
                    period_ms
                } else {
                    500
                };
                Some(p / (self.pulse_peak as u64))
            },
            Mode::ColorCycle { period_ms } => {
                let p = if period_ms >= 500 {
                    period_ms
                } else {
                    500
                };
                Some(p / 255)
            },
        }
    }

    /// Consume the oldest buffered command, if any, and apply it. Returns
    /// nothing when the channel is empty, else whether the rendered output
    /// changed. Messages are processed in arrival order, each applied fully
    /// and independently — no coalescing of superseded commands.
    pub fn poll_channel(&mut self, queue: &mut CommandQueue) -> (update: Option<bool>)
        requires
            old(self).wf(),
        ensures
            final(self).wf(),
            queue_contents(*old(queue)).len() == 0 ==> (update is None && *final(self) == *old(self)
                && queue_contents(*final(queue)) == queue_contents(*old(queue))),
            queue_contents(*old(queue)).len() > 0 ==> ({
                let message = queue_contents(*old(queue))[0];
                &&& queue_contents(*final(queue)) == queue_contents(*old(queue)).drop_first()
                &&& *final(self) == spec_apply_command(*old(self), message)
                &&& update == Some(!(message is SetMode))
            }),
    {
        match queue.try_receive() {
            None => None,
            Some(message) => Some(self.handle_command(message)),
        }
    }
}

} // verus!
