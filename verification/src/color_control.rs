//! The color cluster: the fixture's chromaticity state and the color
//! commands.
//!
//! Only the chromaticity (x/y) color mode is functionally implemented: a
//! move-to-color command converts the coordinate pair to a color triple,
//! emits it to the hardware channel and commits the pair only if the emission
//! succeeded. Hue/saturation commands and their enhanced variants are
//! rejected; color-temperature moves, color moves/steps and stop commands are
//! accepted but inert — they acknowledge without any hardware effect, so
//! protocol-level command sequences are not broken.

use vstd::prelude::*;

use crate::channel::{queue_contents, CommandQueue, CHANNEL_CAPACITY};
use crate::color::spec_xy_to_rgb;
use crate::color::xy_to_rgb;
use crate::error::Error;
use crate::led::ControlMessage;
use crate::spec_dataver_next;

verus! {

/// Which representation the current color was last set through.
#[derive(Clone, Copy, Debug, PartialEq, Eq, Structural)]
pub enum ColorMode {
    /// Hue and saturation (declared, not functionally implemented).
    CurrentHueAndCurrentSaturation,
    /// Chromaticity coordinates — the implemented mode.
    CurrentXAndCurrentY,
    /// Color temperature in mireds (declared, not functionally implemented).
    ColorTemperatureMireds,
}

/// Color capability bit: the chromaticity attributes are supported.
pub const COLOR_CAP_XY: u16 = 8;

/// Color capability bit: color temperature is supported (as metadata).
pub const COLOR_CAP_COLOR_TEMPERATURE: u16 = 16;

/// The default chromaticity coordinates of a fresh fixture.
pub const DEFAULT_CURRENT_X: u16 = 39518;

pub const DEFAULT_CURRENT_Y: u16 = 21233;

/// The color cluster: the chromaticity pair, the color mode, and the
/// declared cluster metadata (primaries, color-temperature range).
pub struct ColorControlCluster {
    /// Bumped once per accepted mutation; stands for the change notification.
    pub dataver: u32,
    /// The current chromaticity x coordinate, a fraction of 65536.
    pub current_x: u16,
    /// The current chromaticity y coordinate, a fraction of 65536.
    pub current_y: u16,
    /// The representation the color was last set through; fixed to
    /// chromaticity.
    pub color_mode: ColorMode,
    /// The stored color options bitmap; writes to it are accepted but inert.
    pub options: u8,
    /// Declared metadata: the number of color primaries.
    pub number_of_primaries: u8,
    pub primary_1_x: u16,
    pub primary_1_y: u16,
    pub primary_1_intensity: u8,
    pub primary_2_x: u16,
    pub primary_2_y: u16,
    pub primary_2_intensity: u8,
    pub primary_3_x: u16,
    pub primary_3_y: u16,
    pub primary_3_intensity: u8,
    /// Remaining transition time; always zero, transitions are step changes.
    pub remaining_time: u16,
    /// Declared color-temperature metadata; color temperature is not
    /// functionally implemented.
    pub color_temperature_mireds: u16,
    pub color_temp_physical_max_mireds: u16,
    pub color_temp_physical_min_mireds: u16,
    pub couple_color_temp_to_level_min_mireds: u16,
    pub start_up_color_temperature_mireds: u16,
}

/// The chromaticity of a fresh color cluster with the given data version:
/// the default coordinate pair, chromaticity mode, three declared primaries
/// all zero, empty options, and zeroed color-temperature metadata.
pub open spec fn spec_color_cluster_new(dataver: u32) -> ColorControlCluster {
    ColorControlCluster {
        dataver,
        current_x: DEFAULT_CURRENT_X,
        current_y: DEFAULT_CURRENT_Y,
        color_mode: ColorMode::CurrentXAndCurrentY,
        options: 0,
        number_of_primaries: 3,
        primary_1_x: 0,
        primary_1_y: 0,
        primary_1_intensity: 0,
        primary_2_x: 0,
        primary_2_y: 0,
        primary_2_intensity: 0,
        primary_3_x: 0,
        primary_3_y: 0,
        primary_3_intensity: 0,
        remaining_time: 0,
        color_temperature_mireds: 0,
        color_temp_physical_max_mireds: 0,
        color_temp_physical_min_mireds: 0,
        couple_color_temp_to_level_min_mireds: 0,
        start_up_color_temperature_mireds: 0,
    }
}

/// The move-to-color transition: the converted color triple is emitted, and
/// the chromaticity pair is committed only if the emission succeeded; a full
/// channel leaves the cluster unchanged and reports [`Error::Busy`].
pub open spec fn spec_move_to_color(
    c: ColorControlCluster,
    q: Seq<ControlMessage>,
    x: u16,
    y: u16,
) -> (ColorControlCluster, Seq<ControlMessage>, Result<(), Error>) {
    if q.len() >= CHANNEL_CAPACITY {
        (c, q, Err(Error::Busy))
    } else {
        let rgb = spec_xy_to_rgb(x, y);
        (
            ColorControlCluster {
                dataver: spec_dataver_next(c.dataver),
                current_x: x,
                current_y: y,
                ..c
            },
            q.push(ControlMessage::SetColor { r: rgb.0, g: rgb.1, b: rgb.2 }),
            Ok(()),
        )
    }
}

impl ColorControlCluster {
    /// A fresh color cluster showing the default chromaticity.
    pub fn new(dataver: u32) -> (c: ColorControlCluster)
        ensures
            c == spec_color_cluster_new(dataver),
    {
        ColorControlCluster {
            dataver,
            current_x: DEFAULT_CURRENT_X,
            current_y: DEFAULT_CURRENT_Y,
            color_mode: ColorMode::CurrentXAndCurrentY,
            options: 0,
            number_of_primaries: 3,
            primary_1_x: 0,
            primary_1_y: 0,
            primary_1_intensity: 0,
            primary_2_x: 0,
            primary_2_y: 0,
            primary_2_intensity: 0,
            primary_3_x: 0,
            primary_3_y: 0,
            primary_3_intensity: 0,
            remaining_time: 0,
            color_temperature_mireds: 0,
            color_temp_physical_max_mireds: 0,
            color_temp_physical_min_mireds: 0,
            couple_color_temp_to_level_min_mireds: 0,
            start_up_color_temperature_mireds: 0,
        }
    }

    /// The current chromaticity x coordinate.
    pub fn current_x(&self) -> (x: u16)
        ensures
            x == self.current_x,
    {
        self.current_x
    }

    /// The current chromaticity y coordinate.
    pub fn current_y(&self) -> (y: u16)
        ensures
            y == self.current_y,
    {
        self.current_y
    }

    /// The color mode the cluster operates in.
    pub fn color_mode(&self) -> (m: ColorMode)
        ensures
            m == self.color_mode,
    {
        self.color_mode
    }

    /// The declared color capabilities: chromaticity and color temperature.
    pub fn color_capabilities(&self) -> (caps: u16)
        ensures
            caps == COLOR_CAP_XY | COLOR_CAP_COLOR_TEMPERATURE,
    {
        COLOR_CAP_XY | COLOR_CAP_COLOR_TEMPERATURE
    }

    /// Handle a move-to-color command: convert the chromaticity pair, emit
    /// the converted color, and commit the pair only if the emission
    /// succeeded. Any 16-bit coordinate pair is accepted; out-of-gamut pairs
    /// clamp in the conversion.
    pub fn handle_move_to_color(&mut self, x: u16, y: u16, queue: &mut CommandQueue) -> (r: Result<
        (),
        Error,
    >)
        ensures
            ({
                let (c2, q2, res) = spec_move_to_color(
                    *old(self),
                    queue_contents(*old(queue)),
                    x,
                    y,
                );
                *final(self) == c2 && queue_contents(*final(queue)) == q2 && r == res
            }),
    {
        let (red, green, blue) = xy_to_rgb(x, y);
        match queue.try_send(ControlMessage::SetColor { r: red, g: green, b: blue }) {
            Err(e) => Err(e),
            Ok(()) => {
                self.current_x = x;
                self.current_y = y;
                self.dataver = crate::dataver_next(self.dataver);
                Ok(())
            },
        }
    }

    /// Write the color options. Accepted and inert: color options are not
    /// yet implemented, so nothing changes.
    pub fn set_options(&self, _value: u8) -> (r: Result<(), Error>)
        ensures
            r == Ok::<(), Error>(()),
    {
        Ok(())
    }

    /// Handle a move-to-hue command: rejected, hue/saturation is not
    /// supported.
    pub fn handle_move_to_hue(&self) -> (r: Result<(), Error>)
        ensures
            r == Err::<(), Error>(Error::InvalidCommand),
    {
        Err(Error::InvalidCommand)
    }

    /// Handle a move-hue command: rejected, hue/saturation is not supported.
    pub fn handle_move_hue(&self) -> (r: Result<(), Error>)
        ensures
            r == Err::<(), Error>(Error::InvalidCommand),
    {
        Err(Error::InvalidCommand)
    }

    /// Handle a step-hue command: rejected, hue/saturation is not supported.
    pub fn handle_step_hue(&self) -> (r: Result<(), Error>)
        ensures
            r == Err::<(), Error>(Error::InvalidCommand),
    {
        Err(Error::InvalidCommand)
    }

    /// Handle a move-to-saturation command: rejected, hue/saturation is not
    /// supported.
    pub fn handle_move_to_saturation(&self) -> (r: Result<(), Error>)
        ensures
            r == Err::<(), Error>(Error::InvalidCommand),
    {
        Err(Error::InvalidCommand)
    }

    /// Handle a move-saturation command: rejected, hue/saturation is not
    /// supported.
    pub fn handle_move_saturation(&self) -> (r: Result<(), Error>)
        ensures
            r == Err::<(), Error>(Error::InvalidCommand),
    {
        Err(Error::InvalidCommand)
    }

    /// Handle a step-saturation command: rejected, hue/saturation is not
    /// supported.
    pub fn handle_step_saturation(&self) -> (r: Result<(), Error>)
        ensures
            r == Err::<(), Error>(Error::InvalidCommand),
    {
        Err(Error::InvalidCommand)
    }

    /// Handle a move-to-hue-and-saturation command: rejected, hue/saturation
    /// is not supported.
    pub fn handle_move_to_hue_and_saturation(&self) -> (r: Result<(), Error>)
        ensures
            r == Err::<(), Error>(Error::InvalidCommand),
    {
        Err(Error::InvalidCommand)
    }

    /// Handle an enhanced move-to-hue command: rejected, enhanced hue is not
    /// supported.
    pub fn handle_enhanced_move_to_hue(&self) -> (r: Result<(), Error>)
        ensures
            r == Err::<(), Error>(Error::InvalidCommand),
    {
        Err(Error::InvalidCommand)
    }

    /// Handle an enhanced move-hue command: rejected, enhanced hue is not
    /// supported.
    pub fn handle_enhanced_move_hue(&self) -> (r: Result<(), Error>)
        ensures
            r == Err::<(), Error>(Error::InvalidCommand),
    {
        Err(Error::InvalidCommand)
    }

    /// Handle an enhanced step-hue command: rejected, enhanced hue is not
    /// supported.
    pub fn handle_enhanced_step_hue(&self) -> (r: Result<(), Error>)
        ensures
            r == Err::<(), Error>(Error::InvalidCommand),
    {
        Err(Error::InvalidCommand)
    }

    /// Handle an enhanced move-to-hue-and-saturation command: rejected,
    /// enhanced hue is not supported.
    pub fn handle_enhanced_move_to_hue_and_saturation(&self) -> (r: Result<(), Error>)
        ensures
            r == Err::<(), Error>(Error::InvalidCommand),
    {
        Err(Error::InvalidCommand)
    }

    /// Handle a color-loop-set command: rejected, color loops are not
    /// supported.
    pub fn handle_color_loop_set(&self) -> (r: Result<(), Error>)
        ensures
            r == Err::<(), Error>(Error::InvalidCommand),
    {
        Err(Error::InvalidCommand)
    }

    /// Handle a move-color command: accepted and inert, continuous color
    /// moves are not implemented.
    pub fn handle_move_color(&self) -> (r: Result<(), Error>)
        ensures
            r == Ok::<(), Error>(()),
    {
        Ok(())
    }

    /// Handle a step-color command: accepted and inert, color steps are not
    /// implemented.
    pub fn handle_step_color(&self) -> (r: Result<(), Error>)
        ensures
            r == Ok::<(), Error>(()),
    {
        Ok(())
    }

    /// Handle a move-to-color-temperature command: accepted and inert, color
    /// temperature is not implemented.
    pub fn handle_move_to_color_temperature(&self) -> (r: Result<(), Error>)
        ensures
            r == Ok::<(), Error>(()),
    {
        Ok(())
    }

    /// Handle a stop-move-step command: accepted and inert, there is never a
    /// continuous color change in progress to stop.
    pub fn handle_stop_move_step(&self) -> (r: Result<(), Error>)
        ensures
            r == Ok::<(), Error>(()),
    {
        Ok(())
    }

    /// Handle a move-color-temperature command: accepted and inert, color
    /// temperature is not implemented.
    pub fn handle_move_color_temperature(&self) -> (r: Result<(), Error>)
        ensures
            r == Ok::<(), Error>(()),
    {
        Ok(())
    }

    /// Handle a step-color-temperature command: accepted and inert, color
    /// temperature is not implemented.
    pub fn handle_step_color_temperature(&self) -> (r: Result<(), Error>)
        ensures
            r == Ok::<(), Error>(()),
    {
        Ok(())
    }
}

} // verus!
