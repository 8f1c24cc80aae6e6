//! The attribute coupling engine: the single owner of the fixture's power and
//! brightness state, implementing the cross-cluster coupling rules.
//!
//! Coupling rules:
//! - turning the fixture on recalls the stored on-level into the current
//!   level (the emitted power message carries the recall level); turning off
//!   leaves the current level untouched;
//! - a "with on/off" level command implies powering the fixture on;
//! - a "with on/off" level command is suppressed (silently, per the attribute
//!   model) while the per-command options say not to execute.
//!
//! Every operation is atomic: it either emits all its hardware messages and
//! commits the state, or emits nothing, changes nothing and reports the
//! failure. State is committed only if emission succeeded.

use vstd::prelude::*;

use crate::channel::{queue_contents, CommandQueue, CHANNEL_CAPACITY};
use crate::color_control::{spec_color_cluster_new, spec_move_to_color, ColorControlCluster};
use crate::error::Error;
use crate::led::ControlMessage;
use crate::level_control::{
    spec_level_valid, LevelControlCluster, UserLevelControlLogic, MAX_LEVEL, MIN_LEVEL,
};
use crate::on_off::{OnOffCluster, UserOnOffLogic};
use crate::options::{should_execute, spec_should_execute};
use crate::spec_dataver_next;

verus! {

/// The owner of the fixture's logical state: the power cluster and the
/// brightness cluster, mutated only through the engine's operations.
pub struct AttributeCouplingEngine {
    /// The power cluster.
    pub on_off: OnOffCluster,
    /// The brightness cluster.
    pub level: LevelControlCluster,
    /// The color cluster.
    pub color: ColorControlCluster,
}

impl AttributeCouplingEngine {
    /// The engine's invariant: the brightness invariant of the level store.
    pub open spec fn wf(self) -> bool {
        self.level.state.wf()
    }
}

/// The power-set transition of the whole engine: the power cluster changes as
/// [`crate::on_off::spec_on_off_set`] says, with the recall level taken from the brightness
/// cluster when turning on; on an accepted power-on the recalled level also
/// becomes the current level. One message is emitted per accepted change; a
/// repeated command is a no-op and a full channel changes nothing.
pub open spec fn spec_set_power(
    e: AttributeCouplingEngine,
    q: Seq<ControlMessage>,
    on: bool,
) -> (AttributeCouplingEngine, Seq<ControlMessage>, Result<(), Error>) {
    if e.on_off.state.on_off == on {
        (e, q, Ok(()))
    } else if q.len() >= CHANNEL_CAPACITY {
        (e, q, Err(Error::Busy))
    } else {
        let recall = if on {
            e.level.state.on_level
        } else {
            None::<u8>
        };
        let on_off2 = OnOffCluster {
            dataver: spec_dataver_next(e.on_off.dataver),
            state: UserOnOffLogic { on_off: on, ..e.on_off.state },
        };
        let level2 = match recall {
            Some(l) => LevelControlCluster {
                state: UserLevelControlLogic { current_level: l, ..e.level.state },
                ..e.level
            },
            None => e.level,
        };
        (
            AttributeCouplingEngine { on_off: on_off2, level: level2, ..e },
            q.push(ControlMessage::SetPower { on, recall }),
            Ok(()),
        )
    }
}

/// The level-set transition of the whole engine. An out-of-range level is
/// rejected; a suppressed "with on/off" command succeeds without effect; an
/// executed command emits a brightness message — preceded by a power-on
/// message when the command implies powering on — and commits the level (and
/// the power state) only if the channel has room for every message.
pub open spec fn spec_set_level(
    e: AttributeCouplingEngine,
    q: Seq<ControlMessage>,
    level: u8,
    options_mask: u8,
    options_override: u8,
    with_on_off: bool,
) -> (AttributeCouplingEngine, Seq<ControlMessage>, Result<(), Error>) {
    if !spec_level_valid(level) {
        (e, q, Err(Error::InvalidCommand))
    } else if with_on_off && !spec_should_execute(
        options_mask,
        options_override,
        e.level.state.options,
    ) {
        (e, q, Ok(()))
    } else {
        let implies_on = with_on_off && !e.on_off.state.on_off;
        let needed = if implies_on {
            2int
        } else {
            1int
        };
        if q.len() + needed > CHANNEL_CAPACITY {
            (e, q, Err(Error::Busy))
        } else {
            let on_off2 = if implies_on {
                OnOffCluster {
                    dataver: spec_dataver_next(e.on_off.dataver),
                    state: UserOnOffLogic { on_off: true, ..e.on_off.state },
                }
            } else {
                e.on_off
            };
            let level2 = LevelControlCluster {
                dataver: spec_dataver_next(e.level.dataver),
                state: UserLevelControlLogic { current_level: level, ..e.level.state },
            };
            let q1 = if implies_on {
                q.push(ControlMessage::SetPower { on: true, recall: None })
            } else {
                q
            };
            (
                AttributeCouplingEngine { on_off: on_off2, level: level2, ..e },
                q1.push(ControlMessage::SetBrightness(level)),
                Ok(()),
            )
        }
    }
}

/// Power idempotence: an accepted power change emits exactly one hardware
/// message and bumps the power cluster's data version (one notification)
/// exactly once, and an immediately repeated identical command succeeds while
/// changing nothing — no further emission, no further notification.
pub proof fn lemma_set_power_idempotent(
    e: AttributeCouplingEngine,
    q: Seq<ControlMessage>,
    on: bool,
)
    requires
        e.wf(),
        e.on_off.state.on_off != on,
        q.len() < CHANNEL_CAPACITY,
    ensures
        ({
            let (e1, q1, r1) = spec_set_power(e, q, on);
            let (e2, q2, r2) = spec_set_power(e1, q1, on);
            &&& r1 == Ok::<(), Error>(())
            &&& q1.len() == q.len() + 1
            &&& e1.on_off.dataver == spec_dataver_next(e.on_off.dataver)
            &&& e2 == e1
            &&& q2 == q1
            &&& r2 == Ok::<(), Error>(())
        }),
{
}

/// Level round trip: a level command carrying an in-range level succeeds
/// whenever the channel has room and the options do not suppress it, and a
/// subsequent read of the current level returns exactly that level.
pub proof fn lemma_set_level_roundtrip(
    e: AttributeCouplingEngine,
    q: Seq<ControlMessage>,
    level: u8,
    options_mask: u8,
    options_override: u8,
    with_on_off: bool,
)
    requires
        e.wf(),
        MIN_LEVEL <= level <= MAX_LEVEL,
        q.len() + 2 <= CHANNEL_CAPACITY,
        with_on_off ==> spec_should_execute(options_mask, options_override, e.level.state.options),
    ensures
        ({
            let (e1, q1, r1) = spec_set_level(
                e,
                q,
                level,
                options_mask,
                options_override,
                with_on_off,
            );
            r1 == Ok::<(), Error>(()) && e1.level.state.current_level == level
        }),
{
}

/// Backpressure: while the consumer is stalled, an executed level command
/// arriving at a channel without room for its messages fails with
/// [`Error::Busy`], and neither the state nor the channel changes — the
/// rejection is reported to the caller, never silent.
pub proof fn lemma_set_level_backpressure(
    e: AttributeCouplingEngine,
    q: Seq<ControlMessage>,
    level: u8,
    options_mask: u8,
    options_override: u8,
    with_on_off: bool,
)
    requires
        spec_level_valid(level),
        with_on_off ==> spec_should_execute(options_mask, options_override, e.level.state.options),
        q.len() >= CHANNEL_CAPACITY,
    ensures
        ({
            let (e1, q1, r1) = spec_set_level(
                e,
                q,
                level,
                options_mask,
                options_override,
                with_on_off,
            );
            r1 == Err::<(), Error>(Error::Busy) && e1 == e && q1 == q
        }),
{
}

/// Level validation: a level command carrying an out-of-range level is
/// rejected with [`Error::InvalidCommand`], and neither the state nor the
/// channel changes.
pub proof fn lemma_set_level_rejects_invalid(
    e: AttributeCouplingEngine,
    q: Seq<ControlMessage>,
    level: u8,
    options_mask: u8,
    options_override: u8,
    with_on_off: bool,
)
    requires
        !spec_level_valid(level),
    ensures
        ({
            let (e1, q1, r1) = spec_set_level(
                e,
                q,
                level,
                options_mask,
                options_override,
                with_on_off,
            );
            r1 == Err::<(), Error>(Error::InvalidCommand) && e1 == e && q1 == q
        }),
{
}

/// Power/brightness coupling: an accepted power-on recalls the stored
/// on-level into the current level when one is set and keeps the current
/// level otherwise; an accepted power-off never changes the current level.
pub proof fn lemma_power_coupling(e: AttributeCouplingEngine, q: Seq<ControlMessage>)
    requires
        e.wf(),
        q.len() < CHANNEL_CAPACITY,
    ensures
        !e.on_off.state.on_off ==> ({
            let (e1, q1, r1) = spec_set_power(e, q, true);
            &&& r1 == Ok::<(), Error>(())
            &&& (e.level.state.on_level matches Some(l) ==> e1.level.state.current_level == l)
            &&& (e.level.state.on_level is None ==> e1.level.state.current_level
                == e.level.state.current_level)
        }),
        e.on_off.state.on_off ==> ({
            let (e1, q1, r1) = spec_set_power(e, q, false);
            &&& r1 == Ok::<(), Error>(())
            &&& e1.level.state.current_level == e.level.state.current_level
            &&& e1.level.state.on_level == e.level.state.on_level
        }),
{
}

impl AttributeCouplingEngine {
    /// A fresh engine: powered off, brightness at its defaults, data versions
    /// at zero.
    pub fn new() -> (e: AttributeCouplingEngine)
        ensures
            e == (AttributeCouplingEngine {
                on_off: OnOffCluster {
                    dataver: 0,
                    state: UserOnOffLogic { on_off: false, start_up_on_off: None },
                },
                level: LevelControlCluster {
                    dataver: 0,
                    state: UserLevelControlLogic {
                        current_level: MIN_LEVEL,
                        on_level: Some(crate::level_control::DEFAULT_ON_LEVEL),
                        startup_level: None,
                        options: 0,
                        remaining_time: 0,
                    },
                },
                color: spec_color_cluster_new(0),
            }),
            e.wf(),
    {
        AttributeCouplingEngine {
            on_off: OnOffCluster::new(0, UserOnOffLogic::new()),
            level: LevelControlCluster::new(0, UserLevelControlLogic::new()),
            color: ColorControlCluster::new(0),
        }
    }

    /// The current power state.
    pub fn on_off(&self) -> (on: bool)
        ensures
            on == self.on_off.state.on_off,
    {
        self.on_off.on_off()
    }

    /// The current brightness.
    pub fn current_level(&self) -> (level: u8)
        ensures
            level == self.level.state.current_level,
    {
        self.level.current_level()
    }

    /// The stored on-level.
    pub fn on_level(&self) -> (level: Option<u8>)
        ensures
            level == self.level.state.on_level,
    {
        self.level.on_level()
    }

    /// Set the power state. A repeated command is a no-op; an accepted change
    /// emits exactly one power message and notifies once; turning on recalls
    /// the stored on-level.
    pub fn set_power(&mut self, on: bool, queue: &mut CommandQueue) -> (r: Result<(), Error>)
        requires
            old(self).wf(),
        ensures
            final(self).wf(),
            ({
                let (e2, q2, res) = spec_set_power(*old(self), queue_contents(*old(queue)), on);
                *final(self) == e2 && queue_contents(*final(queue)) == q2 && r == res
            }),
    {
        if self.on_off.on_off() == on {
            return Ok(());
        }
        let recall = if on {
            self.level.on_level()
        } else {
            None
        };
        match self.on_off.set(on, recall, queue) {
            Err(e) => Err(e),
            Ok(()) => {
                if on {
                    if let Some(l) = recall {
                        self.level.state.raw_set_level(l);
                    }
                }
                Ok(())
            },
        }
    }

    /// Toggle the power state.
    pub fn toggle(&mut self, queue: &mut CommandQueue) -> (r: Result<(), Error>)
        requires
            old(self).wf(),
        ensures
            final(self).wf(),
            ({
                let (e2, q2, res) = spec_set_power(
                    *old(self),
                    queue_contents(*old(queue)),
                    !old(self).on_off.state.on_off,
                );
                *final(self) == e2 && queue_contents(*final(queue)) == q2 && r == res
            }),
    {
        let target = !self.on_off.on_off();
        self.set_power(target, queue)
    }

    /// Set the brightness. The level must lie in `MIN_LEVEL..=MAX_LEVEL`,
    /// else the command is rejected with [`Error::InvalidCommand`] and
    /// nothing changes. A "with on/off" command is suppressed while the
    /// options say not to execute, and implies powering on otherwise. A
    /// transition time is accepted but the change is applied as a single
    /// step: transitions are not implemented.
    pub fn set_level(
        &mut self,
        level: u8,
        _transition_time: Option<u16>,
        options_mask: u8,
        options_override: u8,
        with_on_off: bool,
        queue: &mut CommandQueue,
    ) -> (r: Result<(), Error>)
        requires
            old(self).wf(),
        ensures
            final(self).wf(),
            ({
                let (e2, q2, res) = spec_set_level(
                    *old(self),
                    queue_contents(*old(queue)),
                    level,
                    options_mask,
                    options_override,
                    with_on_off,
                );
                *final(self) == e2 && queue_contents(*final(queue)) == q2 && r == res
            }),
    {
        if level < MIN_LEVEL || level > MAX_LEVEL {
            return Err(Error::InvalidCommand);
        }
        if with_on_off && !should_execute(options_mask, options_override, self.level.options()) {
            return Ok(());
        }
        let implies_on = with_on_off && !self.on_off.on_off();
        let needed: usize = if implies_on {
            2
        } else {
            1
        };
        if queue.len() > CHANNEL_CAPACITY - needed {
            return Err(Error::Busy);
        }
        if implies_on {
            let _ = queue.try_send(ControlMessage::SetPower { on: true, recall: None });
            self.on_off.state.raw_set_on_off(true);
            self.on_off.dataver = crate::dataver_next(self.on_off.dataver);
        }
        let _ = queue.try_send(ControlMessage::SetBrightness(level));
        self.level.state.raw_set_level(level);
        self.level.dataver = crate::dataver_next(self.level.dataver);
        Ok(())
    }

    /// Set the color from a chromaticity coordinate pair: the converted
    /// color triple is emitted and the pair committed only if the emission
    /// succeeded.
    pub fn set_color(&mut self, x: u16, y: u16, queue: &mut CommandQueue) -> (r: Result<(), Error>)
        requires
            old(self).wf(),
        ensures
            final(self).wf(),
            ({
                let (c2, q2, res) = spec_move_to_color(
                    old(self).color,
                    queue_contents(*old(queue)),
                    x,
                    y,
                );
                *final(self) == (AttributeCouplingEngine { color: c2, ..*old(self) })
                    && queue_contents(*final(queue)) == q2 && r == res
            }),
    {
        self.color.handle_move_to_color(x, y, queue)
    }

    /// Write the stored on-level: a direct attribute write, validated so the
    /// recall coupling can never store an out-of-range level.
    pub fn set_on_level(&mut self, value: Option<u8>) -> (r: Result<(), Error>)
        requires
            old(self).wf(),
        ensures
            final(self).wf(),
            r == crate::level_control::spec_optional_level_write(value),
            r is Ok ==> *final(self) == (AttributeCouplingEngine {
                level: LevelControlCluster {
                    dataver: spec_dataver_next(old(self).level.dataver),
                    state: UserLevelControlLogic { on_level: value, ..old(self).level.state },
                },
                ..*old(self)
            }),
            r is Err ==> *final(self) == *old(self),
    {
        self.level.set_on_level(value)
    }

    /// Write the stored startup level: a direct attribute write, validated
    /// like the on-level.
    pub fn set_startup_level(&mut self, value: Option<u8>) -> (r: Result<(), Error>)
        requires
            old(self).wf(),
        ensures
            final(self).wf(),
            r == crate::level_control::spec_optional_level_write(value),
            r is Ok ==> *final(self) == (AttributeCouplingEngine {
                level: LevelControlCluster {
                    dataver: spec_dataver_next(old(self).level.dataver),
                    state: UserLevelControlLogic { startup_level: value, ..old(self).level.state },
                },
                ..*old(self)
            }),
            r is Err ==> *final(self) == *old(self),
    {
        self.level.set_start_up_current_level(value)
    }

    /// Write the stored options bitmap: a direct attribute write, never
    /// rejected.
    pub fn set_options(&mut self, value: u8)
        requires
            old(self).wf(),
        ensures
            final(self).wf(),
            *final(self) == (AttributeCouplingEngine {
                level: LevelControlCluster {
                    dataver: spec_dataver_next(old(self).level.dataver),
                    state: UserLevelControlLogic { options: value, ..old(self).level.state },
                },
                ..*old(self)
            }),
    {
        self.level.set_options(value)
    }

    /// The stored options bitmap.
    pub fn options(&self) -> (options: u8)
        ensures
            options == self.level.state.options,
    {
        self.level.options()
    }
}

} // verus!
