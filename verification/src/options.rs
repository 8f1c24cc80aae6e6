//! Per-command option evaluation for brightness commands.
//!
//! A brightness command carries an options mask and an options override; the
//! fixture stores a persistent options bitmap. The three combine to decide
//! whether a command is executed while the fixture is off.

use vstd::prelude::*;

verus! {

/// Bit of the options bitmap: execute brightness commands even while the
/// fixture is off.
pub const EXECUTE_IF_OFF: u8 = 1;

/// The effective options of a single command: the stored options, with the
/// bits selected by `options_mask` replaced by the bits of
/// `options_override`.
pub open spec fn spec_effective_options(
    options_mask: u8,
    options_override: u8,
    stored_options: u8,
) -> u8 {
    (options_mask & options_override) | stored_options
}

/// Whether a command should execute while the fixture is off.
pub open spec fn spec_should_execute(
    options_mask: u8,
    options_override: u8,
    stored_options: u8,
) -> bool {
    spec_effective_options(options_mask, options_override, stored_options) & EXECUTE_IF_OFF != 0
}

/// Decide whether a brightness command is executed while the fixture is off:
/// the command's mask/override pair is merged with the stored options, and the
/// command executes exactly when the merged options contain
/// [`EXECUTE_IF_OFF`].
pub fn should_execute(options_mask: u8, options_override: u8, stored_options: u8) -> (r: bool)
    ensures
        r == spec_should_execute(options_mask, options_override, stored_options),
        r == (((options_mask & options_override) | stored_options) & EXECUTE_IF_OFF != 0),
{
    ((options_mask & options_override) | stored_options) & EXECUTE_IF_OFF != 0
}

} // verus!
