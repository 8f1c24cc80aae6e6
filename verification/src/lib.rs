//! Logical control core of a smart-lighting fixture.
//!
//! The crate keeps the fixture's power, brightness and color state, enforces
//! the cross-attribute coupling rules of the attribute model (turning a light
//! on recalls its stored on-level; a brightness command may imply powering
//! on; brightness commands may be suppressed while the fixture is off), and
//! feeds a bounded channel of hardware control messages that an animation
//! scheduler consumes.

use vstd::prelude::*;

pub mod channel;
pub mod color;
pub mod color_control;
pub mod engine;
pub mod error;
pub mod led;
pub mod level_control;
pub mod on_off;
pub mod options;
pub mod sampler;

verus! {

/// The data version after one attribute change: a wrapping counter. Each
/// accepted mutation of a cluster bumps its data version exactly once, which
/// stands for the cluster's change notification to subscribers.
pub open spec fn spec_dataver_next(d: u32) -> u32 {
    if d == u32::MAX {
        0
    } else {
        (d + 1) as u32
    }
}

/// Bump a cluster's data version, wrapping at the type's maximum.
pub fn dataver_next(d: u32) -> (r: u32)
    ensures
        r == spec_dataver_next(d),
{
    if d == u32::MAX {
        0
    } else {
        d + 1
    }
}

} // verus!
