//! The brightness (level control) cluster: the fixture's brightness
//! attributes and the non-coupled brightness operations.
//!
//! [`UserLevelControlLogic`] is the raw attribute store; [`LevelControlCluster`]
//! owns it together with a data version. The brightness invariant holds
//! always: the current level lies in `MIN_LEVEL..=MAX_LEVEL`, and a stored
//! on-level or startup level, when set, lies in the same range, so that
//! recalling it can never break the invariant.
//!
//! The level-set operation couples with the power cluster, so it lives on
//! [`crate::engine::AttributeCouplingEngine`].

use vstd::prelude::*;

use crate::error::Error;
use crate::options::{should_execute, spec_should_execute};
use crate::spec_dataver_next;

verus! {

/// The smallest brightness a powered fixture renders.
pub const MIN_LEVEL: u8 = 1;

/// The largest brightness.
pub const MAX_LEVEL: u8 = 255;

/// The stored on-level a fresh brightness store starts with.
pub const DEFAULT_ON_LEVEL: u8 = 42;

/// Whether a level is acceptable for the current level or a stored recall
/// level.
pub open spec fn spec_level_valid(level: u8) -> bool {
    MIN_LEVEL <= level <= MAX_LEVEL
}

/// Raw storage for the brightness attributes. The accessors perform no
/// checks; validation and coupling live in the cluster and engine operations.
pub struct UserLevelControlLogic {
    /// The brightness the fixture renders while on.
    pub current_level: u8,
    /// The brightness recalled when the fixture turns on; unset means "keep
    /// the current brightness".
    pub on_level: Option<u8>,
    /// The brightness restored at power-up; unset means the hardware default.
    pub startup_level: Option<u8>,
    /// The stored options bitmap; see [`crate::options`].
    pub options: u8,
    /// Remaining transition time. Transitions are performed as step changes,
    /// so this stays zero.
    pub remaining_time: u16,
}

impl UserLevelControlLogic {
    /// The brightness invariant: every stored level is in range, and no
    /// transition is ever in progress.
    pub open spec fn wf(self) -> bool {
        &&& spec_level_valid(self.current_level)
        &&& (self.on_level matches Some(l) ==> spec_level_valid(l))
        &&& (self.startup_level matches Some(l) ==> spec_level_valid(l))
        &&& self.remaining_time == 0
    }

    /// A fresh brightness store: minimum brightness, the default stored
    /// on-level, no startup level, empty options.
    pub fn new() -> (s: UserLevelControlLogic)
        ensures
            s == (UserLevelControlLogic {
                current_level: MIN_LEVEL,
                on_level: Some(DEFAULT_ON_LEVEL),
                startup_level: None,
                options: 0,
                remaining_time: 0,
            }),
            s.wf(),
    {
        UserLevelControlLogic {
            current_level: MIN_LEVEL,
            on_level: Some(DEFAULT_ON_LEVEL),
            startup_level: None,
            options: 0,
            remaining_time: 0,
        }
    }

    /// Read the current level.
    pub fn raw_get_level(&self) -> (level: u8)
        ensures
            level == self.current_level,
    {
        self.current_level
    }

    /// Overwrite the current level.
    pub fn raw_set_level(&mut self, level: u8)
        ensures
            *final(self) == (UserLevelControlLogic { current_level: level, ..*old(self) }),
    {
        self.current_level = level;
    }

    /// Read the stored on-level.
    pub fn raw_get_on_level(&self) -> (level: Option<u8>)
        ensures
            level == self.on_level,
    {
        self.on_level
    }

    /// Overwrite the stored on-level.
    pub fn raw_set_on_level(&mut self, level: Option<u8>)
        ensures
            *final(self) == (UserLevelControlLogic { on_level: level, ..*old(self) }),
    {
        self.on_level = level;
    }
}

/// The brightness cluster: the brightness store plus its data version.
pub struct LevelControlCluster {
    /// Bumped once per accepted mutation; stands for the change notification.
    pub dataver: u32,
    /// The brightness attribute store.
    pub state: UserLevelControlLogic,
}

/// The transition of a direct attribute write of an optional level (the
/// stored on-level or the startup level): a set value out of the level range
/// is rejected and nothing changes; otherwise the value is stored and the
/// data version is bumped.
pub open spec fn spec_optional_level_write(value: Option<u8>) -> Result<(), Error> {
    match value {
        Some(l) => if spec_level_valid(l) {
            Ok(())
        } else {
            Err(Error::InvalidCommand)
        },
        None => Ok(()),
    }
}

impl LevelControlCluster {
    /// A brightness cluster over the given store, with the given data
    /// version.
    pub fn new(dataver: u32, state: UserLevelControlLogic) -> (c: LevelControlCluster)
        ensures
            c == (LevelControlCluster { dataver, state }),
    {
        LevelControlCluster { dataver, state }
    }

    /// The brightness the fixture renders while on.
    pub fn current_level(&self) -> (level: u8)
        ensures
            level == self.state.current_level,
    {
        self.state.raw_get_level()
    }

    /// The stored on-level.
    pub fn on_level(&self) -> (level: Option<u8>)
        ensures
            level == self.state.on_level,
    {
        self.state.raw_get_on_level()
    }

    /// The stored options bitmap.
    pub fn options(&self) -> (options: u8)
        ensures
            options == self.state.options,
    {
        self.state.options
    }

    /// The remaining transition time; always zero, since transitions are
    /// performed as step changes.
    pub fn remaining_time(&self) -> (t: u16)
        ensures
            t == self.state.remaining_time,
    {
        self.state.remaining_time
    }

    /// The largest level the fixture accepts.
    pub fn max_level(&self) -> (level: u8)
        ensures
            level == MAX_LEVEL,
    {
        MAX_LEVEL
    }

    /// The smallest level the fixture accepts.
    pub fn min_level(&self) -> (level: u8)
        ensures
            level == MIN_LEVEL,
    {
        MIN_LEVEL
    }

    /// The stored startup level.
    pub fn start_up_current_level(&self) -> (level: Option<u8>)
        ensures
            level == self.state.startup_level,
    {
        self.state.startup_level
    }

    /// Write the stored options bitmap and notify.
    pub fn set_options(&mut self, value: u8)
        ensures
            *final(self) == (LevelControlCluster {
                dataver: spec_dataver_next(old(self).dataver),
                state: UserLevelControlLogic { options: value, ..old(self).state },
            }),
    {
        self.state.options = value;
        self.dataver = crate::dataver_next(self.dataver);
    }

    /// Write the stored on-level and notify. A set value out of the level
    /// range is rejected with [`Error::InvalidCommand`] and nothing changes,
    /// so that recalling the on-level always yields a valid level.
    pub fn set_on_level(&mut self, value: Option<u8>) -> (r: Result<(), Error>)
        ensures
            r == spec_optional_level_write(value),
            r is Ok ==> *final(self) == (LevelControlCluster {
                dataver: spec_dataver_next(old(self).dataver),
                state: UserLevelControlLogic { on_level: value, ..old(self).state },
            }),
            r is Err ==> *final(self) == *old(self),
            old(self).state.wf() ==> final(self).state.wf(),
    {
        if let Some(l) = value {
            if l < MIN_LEVEL || l > MAX_LEVEL {
                return Err(Error::InvalidCommand);
            }
        }
        self.state.raw_set_on_level(value);
        self.dataver = crate::dataver_next(self.dataver);
        Ok(())
    }

    /// Write the stored startup level and notify. A set value out of the
    /// level range is rejected with [`Error::InvalidCommand`] and nothing
    /// changes.
    pub fn set_start_up_current_level(&mut self, value: Option<u8>) -> (r: Result<(), Error>)
        ensures
            r == spec_optional_level_write(value),
            r is Ok ==> *final(self) == (LevelControlCluster {
                dataver: spec_dataver_next(old(self).dataver),
                state: UserLevelControlLogic { startup_level: value, ..old(self).state },
            }),
            r is Err ==> *final(self) == *old(self),
            old(self).state.wf() ==> final(self).state.wf(),
    {
        if let Some(l) = value {
            if l < MIN_LEVEL || l > MAX_LEVEL {
                return Err(Error::InvalidCommand);
            }
        }
        self.state.startup_level = value;
        self.dataver = crate::dataver_next(self.dataver);
        Ok(())
    }

    /// Handle a move command: start ramping the level at the given rate.
    ///
    /// The command is suppressed (success, no effect) while the stored and
    /// supplied options say not to execute; a missing or zero rate is
    /// rejected; an accepted command currently performs no ramp (ramping is
    /// not implemented), so the cluster never changes.
    pub fn handle_move(&mut self, rate: Option<u8>, options_mask: u8, options_override: u8) -> (r:
        Result<(), Error>)
        ensures
            *final(self) == *old(self),
            r == (if !spec_should_execute(options_mask, options_override, old(self).state.options) {
                Ok::<(), Error>(())
            } else if (rate matches Some(v) && v > 0) {
                Ok::<(), Error>(())
            } else {
                Err::<(), Error>(Error::InvalidCommand)
            }),
    {
        if !should_execute(options_mask, options_override, self.state.options) {
            return Ok(());
        }
        match rate {
            None | Some(0u8) => Err(Error::InvalidCommand),
            Some(_) => Ok(()),
        }
    }

    /// Handle a step command. The command is accepted whatever the options
    /// say and performs no effect: stepping is not implemented.
    pub fn handle_step(&mut self, _options_mask: u8, _options_override: u8) -> (r: Result<
        (),
        Error,
    >)
        ensures
            *final(self) == *old(self),
            r == Ok::<(), Error>(()),
    {
        Ok(())
    }

    /// Handle a stop command. The command is accepted whatever the options
    /// say and performs no effect: there is never a ramp in progress to stop.
    pub fn handle_stop(&mut self, _options_mask: u8, _options_override: u8) -> (r: Result<
        (),
        Error,
    >)
        ensures
            *final(self) == *old(self),
            r == Ok::<(), Error>(()),
    {
        Ok(())
    }

    /// Handle a move command of the with-on/off class: accepted and inert,
    /// ramping is not implemented.
    pub fn handle_move_with_on_off(&mut self) -> (r: Result<(), Error>)
        ensures
            *final(self) == *old(self),
            r == Ok::<(), Error>(()),
    {
        Ok(())
    }

    /// Handle a step command of the with-on/off class: accepted and inert,
    /// stepping is not implemented.
    pub fn handle_step_with_on_off(&mut self) -> (r: Result<(), Error>)
        ensures
            *final(self) == *old(self),
            r == Ok::<(), Error>(()),
    {
        Ok(())
    }

    /// Handle a stop command of the with-on/off class: accepted and inert,
    /// there is never a ramp in progress to stop.
    pub fn handle_stop_with_on_off(&mut self) -> (r: Result<(), Error>)
        ensures
            *final(self) == *old(self),
            r == Ok::<(), Error>(()),
    {
        Ok(())
    }

    /// Handle a move-to-closest-frequency command: accepted and inert,
    /// frequency control is not supported.
    pub fn handle_move_to_closest_frequency(&mut self, _frequency: u16) -> (r: Result<(), Error>)
        ensures
            *final(self) == *old(self),
            r == Ok::<(), Error>(()),
    {
        Ok(())
    }
}

} // verus!
