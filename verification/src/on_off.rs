//! The power (on/off) cluster: the fixture's power state and the power-set
//! transition.
//!
//! [`UserOnOffLogic`] is the raw attribute store; [`OnOffCluster`] owns it
//! together with a data version and implements the power-set operation, which
//! emits one hardware message per accepted change and commits the state only
//! if the emission succeeded.

use vstd::prelude::*;

use crate::channel::{queue_contents, CommandQueue, CHANNEL_CAPACITY};
use crate::error::Error;
use crate::led::ControlMessage;
use crate::spec_dataver_next;

verus! {

/// What the fixture does at power-up.
#[derive(Clone, Copy, Debug, PartialEq, Eq, Structural)]
pub enum StartUpOnOff {
    /// Start powered off.
    Off,
    /// Start powered on.
    On,
    /// Start in the opposite of the state before power loss.
    Toggle,
}

/// Raw storage for the power attributes. The accessors perform no checks;
/// validation and coupling live in the cluster operations.
pub struct UserOnOffLogic {
    /// Whether the fixture is powered on.
    pub on_off: bool,
    /// The power-up behavior; unset means the hardware default.
    pub start_up_on_off: Option<StartUpOnOff>,
}

impl UserOnOffLogic {
    /// A fresh power store: powered off, power-up behavior unset.
    pub fn new() -> (s: UserOnOffLogic)
        ensures
            s == (UserOnOffLogic { on_off: false, start_up_on_off: None }),
    {
        UserOnOffLogic { on_off: false, start_up_on_off: None }
    }

    /// Read the stored power state.
    pub fn raw_get_on_off(&self) -> (on: bool)
        ensures
            on == self.on_off,
    {
        self.on_off
    }

    /// Overwrite the stored power state.
    pub fn raw_set_on_off(&mut self, on: bool)
        ensures
            *final(self) == (UserOnOffLogic { on_off: on, ..*old(self) }),
    {
        self.on_off = on;
    }

    /// Read the stored power-up behavior.
    pub fn raw_get_start_up_on_off(&self) -> (v: Option<StartUpOnOff>)
        ensures
            v == self.start_up_on_off,
    {
        self.start_up_on_off
    }

    /// Overwrite the stored power-up behavior.
    pub fn raw_set_start_up_on_off(&mut self, v: Option<StartUpOnOff>)
        ensures
            *final(self) == (UserOnOffLogic { start_up_on_off: v, ..*old(self) }),
    {
        self.start_up_on_off = v;
    }
}

/// The power cluster: the power store plus its data version.
pub struct OnOffCluster {
    /// Bumped once per accepted mutation; stands for the change notification.
    pub dataver: u32,
    /// The power attribute store.
    pub state: UserOnOffLogic,
}

/// The power-set transition: the cluster, the channel contents and the result
/// after `set(on, recall)`.
///
/// A command equal to the current state is a no-op. Otherwise one
/// [`ControlMessage::SetPower`] is emitted, carrying the recall level, and
/// the state is committed only if the emission succeeded: a full channel
/// leaves the cluster unchanged and reports [`Error::Busy`].
pub open spec fn spec_on_off_set(
    c: OnOffCluster,
    q: Seq<ControlMessage>,
    on: bool,
    recall: Option<u8>,
) -> (OnOffCluster, Seq<ControlMessage>, Result<(), Error>) {
    if c.state.on_off == on {
        (c, q, Ok(()))
    } else if q.len() >= CHANNEL_CAPACITY {
        (c, q, Err(Error::Busy))
    } else {
        (
            OnOffCluster {
                dataver: spec_dataver_next(c.dataver),
                state: UserOnOffLogic { on_off: on, ..c.state },
            },
            q.push(ControlMessage::SetPower { on, recall }),
            Ok(()),
        )
    }
}

impl OnOffCluster {
    /// A power cluster over the given store, with the given data version.
    pub fn new(dataver: u32, state: UserOnOffLogic) -> (c: OnOffCluster)
        ensures
            c == (OnOffCluster { dataver, state }),
    {
        OnOffCluster { dataver, state }
    }

    /// The current power state.
    pub fn on_off(&self) -> (on: bool)
        ensures
            on == self.state.on_off,
    {
        self.state.raw_get_on_off()
    }

    /// Set the power state, emitting one hardware message per accepted
    /// change. `recall` is the on-level to restore when turning on; the
    /// caller supplies it so the emitted message carries the recall level of
    /// the coupled brightness cluster.
    pub fn set(&mut self, on: bool, recall: Option<u8>, queue: &mut CommandQueue) -> (r: Result<
        (),
        Error,
    >)
        ensures
            ({
                let (c2, q2, res) = spec_on_off_set(
                    *old(self),
                    queue_contents(*old(queue)),
                    on,
                    recall,
                );
                *final(self) == c2 && queue_contents(*final(queue)) == q2 && r == res
            }),
    {
        if self.state.raw_get_on_off() == on {
            return Ok(());
        }
        match queue.try_send(ControlMessage::SetPower { on, recall }) {
            Err(e) => Err(e),
            Ok(()) => {
                self.state.raw_set_on_off(on);
                self.dataver = crate::dataver_next(self.dataver);
                Ok(())
            },
        }
    }

    /// Handle an off-with-effect command: rejected, timed effects are not
    /// supported.
    pub fn handle_off_with_effect(&self) -> (r: Result<(), Error>)
        ensures
            r == Err::<(), Error>(Error::InvalidCommand),
    {
        Err(Error::InvalidCommand)
    }

    /// Handle an on-with-recall-global-scene command: rejected, scenes are
    /// not supported.
    pub fn handle_on_with_recall_global_scene(&self) -> (r: Result<(), Error>)
        ensures
            r == Err::<(), Error>(Error::InvalidCommand),
    {
        Err(Error::InvalidCommand)
    }

    /// Handle an on-with-timed-off command: rejected, timed power is not
    /// supported.
    pub fn handle_on_with_timed_off(&self) -> (r: Result<(), Error>)
        ensures
            r == Err::<(), Error>(Error::InvalidCommand),
    {
        Err(Error::InvalidCommand)
    }
}

} // verus!
