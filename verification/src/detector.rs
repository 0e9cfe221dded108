//! The activity detector: a trigger with two thresholds.
//!
//! An inactive detector turns active when a block is at least as loud as the
//! turn-on level. An active one turns inactive only when a block is quieter
//! than the turn-off level, which lies lower; in between it keeps its state,
//! so that a level hovering near one threshold cannot make it chatter.
//!
//! For each block the detector says what the capture thread has to do: which
//! events to hand to the interface, and, in flicker mode, how long to wait
//! between them. While it is active it also keeps the samples it was shown,
//! up to a limit fixed when it was made.

use rand::Rng;
use vstd::prelude::*;

use crate::config::ChibiConfig;
use crate::level::{block_level, rms_level, CaptureError};

verus! {

/// The shortest pause of a flicker pulse, in milliseconds.
pub const FLICKER_MIN_MS: u64 = 30;

/// The longest pause of a flicker pulse, in milliseconds.
pub const FLICKER_MAX_MS: u64 = 100;

/// One thing for the capture thread to do, in the order given.
#[derive(Clone, Copy, Debug, PartialEq, Eq, Structural)]
pub enum Action {
    /// Hand this activity event to the interface.
    Emit(bool),
    /// Wait this many milliseconds.
    Pause(u64),
}

/// The state of the trigger after a block of the given level.
pub open spec fn next_active(active: bool, level: int, config: ChibiConfig) -> bool {
    if active {
        level >= config.off_level()
    } else {
        level >= config.on_level()
    }
}

/// The state of the trigger after blocks of the given levels, in turn.
pub open spec fn state_after(start: bool, levels: Seq<int>, config: ChibiConfig) -> bool
    decreases levels.len(),
{
    if levels.len() == 0 {
        start
    } else {
        next_active(state_after(start, levels.drop_last(), config), levels.last(), config)
    }
}

/// In how many of the blocks the trigger is active once it has seen them.
pub open spec fn active_frames(start: bool, levels: Seq<int>, config: ChibiConfig) -> nat
    decreases levels.len(),
{
    if levels.len() == 0 {
        0
    } else {
        active_frames(start, levels.drop_last(), config) + if state_after(
            start,
            levels,
            config,
        ) {
            1nat
        } else {
            0nat
        }
    }
}

/// What is to be done after a block that leaves the trigger in the state
/// `active`: an inactive trigger reports `false`; an active one reports
/// `true`, and in flicker mode takes it back after `pause_ms`.
pub open spec fn plan_for(active: bool, flicker: bool, pause_ms: u64) -> Seq<Action> {
    if !active {
        seq![Action::Emit(false)]
    } else if flicker {
        seq![Action::Emit(true), Action::Pause(pause_ms), Action::Emit(false)]
    } else {
        seq![Action::Emit(true)]
    }
}

/// The events among the actions, in their order.
pub open spec fn emitted(actions: Seq<Action>) -> Seq<bool>
    decreases actions.len(),
{
    if actions.len() == 0 {
        Seq::<bool>::empty()
    } else {
        match actions.last() {
            Action::Emit(event) => emitted(actions.drop_last()).push(event),
            Action::Pause(_) => emitted(actions.drop_last()),
        }
    }
}

/// The events that one block gives rise to.
pub open spec fn events_for(active: bool, flicker: bool) -> Seq<bool> {
    if !active {
        seq![false]
    } else if flicker {
        seq![true, false]
    } else {
        seq![true]
    }
}

/// The events that blocks of the given levels give rise to, in turn.
pub open spec fn events_of_run(start: bool, levels: Seq<int>, config: ChibiConfig) -> Seq<bool>
    decreases levels.len(),
{
    if levels.len() == 0 {
        Seq::<bool>::empty()
    } else {
        events_of_run(start, levels.drop_last(), config) + events_for(
            state_after(start, levels, config),
            config.flicker_input,
        )
    }
}

/// What the detector holds after it was shown `samples` while active: what it
/// held, then as many of the new samples, from the first on, as the limit
/// leaves room for.
pub open spec fn kept(recorded: Seq<i16>, limit: nat, samples: Seq<i16>) -> Seq<i16> {
    let room = limit - recorded.len();
    if samples.len() <= room {
        recorded + samples
    } else if room <= 0 {
        recorded
    } else {
        recorded + samples.take(room)
    }
}

/// Calls `rand::rng` for the generator of the running thread and
/// `Rng::random_range` on it with the inclusive range from `low` to `high`.
/// For such a range of `u64` the call panics only if the range is empty and
/// otherwise returns a member of it; which one is left open.
#[verifier::external_body]
fn random_between(low: u64, high: u64) -> (picked: u64)
    requires
        low <= high,
    ensures
        low <= picked <= high,
{
    rand::rng().random_range(low..=high)
}

/// The actions after a block that leaves the trigger in the state `active`.
pub fn plan(active: bool, flicker: bool, pause_ms: u64) -> (actions: Vec<Action>)
    ensures
        actions@ == plan_for(active, flicker, pause_ms),
{
    let mut actions: Vec<Action> = Vec::new();
    if !active {
        actions.push(Action::Emit(false));
    } else if flicker {
        actions.push(Action::Emit(true));
        actions.push(Action::Pause(pause_ms));
        actions.push(Action::Emit(false));
    } else {
        actions.push(Action::Emit(true));
    }
    assert(actions@ =~= plan_for(active, flicker, pause_ms));
    actions
}

/// The trigger and the samples kept while it was active.
pub struct Detector {
    active: bool,
    recorded: Vec<i16>,
    limit: usize,
}

impl Detector {
    #[verifier::type_invariant]
    spec fn within_limit(self) -> bool {
        self.recorded@.len() <= self.limit
    }

    /// Whether the microphone counts as active.
    pub closed spec fn active(self) -> bool {
        self.active
    }

    /// The samples kept so far, oldest first.
    pub closed spec fn recorded(self) -> Seq<i16> {
        self.recorded@
    }

    /// How many samples are kept at most.
    pub closed spec fn limit(self) -> nat {
        self.limit as nat
    }

    /// An inactive detector that has kept nothing yet and will keep at most
    /// `limit` samples.
    pub fn new(limit: usize) -> (detector: Self)
        ensures
            !detector.active(),
            detector.recorded() == Seq::<i16>::empty(),
            detector.limit() == limit,
    {
        Detector { active: false, recorded: Vec::new(), limit }
    }

    /// Whether the microphone counts as active.
    pub fn is_active(&self) -> (active: bool)
        ensures
            active == self.active(),
    {
        self.active
    }

    /// The samples kept so far, oldest first.
    pub fn recorded_samples(&self) -> (samples: &Vec<i16>)
        ensures
            samples@ == self.recorded(),
            samples@.len() <= self.limit(),
    {
        proof {
            use_type_invariant(self);
        }
        &self.recorded
    }

    /// How many samples are kept at most.
    pub fn record_limit(&self) -> (limit: usize)
        ensures
            limit == self.limit(),
    {
        self.limit
    }

    /// Moves the trigger by one block of the given level and returns its new
    /// state. The samples kept are not touched.
    pub fn advance(&mut self, level: u32, config: &ChibiConfig) -> (active: bool)
        ensures
            active == next_active(old(self).active(), level as int, *config),
            final(self).active() == active,
            final(self).recorded() == old(self).recorded(),
            final(self).limit() == old(self).limit(),
    {
        proof {
            use_type_invariant(&*self);
        }
        if self.active {
            if level < config.turn_off_level() {
                self.active = false;
            }
        } else {
            if level >= config.turn_on_level() {
                self.active = true;
            }
        }
        self.active
    }

    /// Keeps the samples, as far as the limit leaves room: see [`kept`].
    pub fn record(&mut self, samples: &[i16])
        ensures
            final(self).recorded() == kept(old(self).recorded(), old(self).limit(), samples@),
            final(self).active() == old(self).active(),
            final(self).limit() == old(self).limit(),
    {
        proof {
            use_type_invariant(&*self);
        }
        let room: usize = self.limit - self.recorded.len();
        let count: usize = if samples.len() <= room {
            samples.len()
        } else {
            room
        };
        let mut buffer: Vec<i16> = Vec::new();
        core::mem::swap(&mut self.recorded, &mut buffer);
        let mut i: usize = 0;
        while i < count
            invariant
                i <= count,
                count <= samples@.len(),
                old(self).recorded@.len() + count <= self.limit,
                self.limit == old(self).limit,
                self.active == old(self).active,
                self.recorded@.len() == 0,
                buffer@ == old(self).recorded@ + samples@.take(i as int),
            decreases count - i,
        {
            buffer.push(samples[i]);
            proof {
                assert(samples@.take(i + 1) =~= samples@.take(i as int).push(samples@[i as int]));
                assert(buffer@ =~= old(self).recorded@ + samples@.take(i + 1));
            }
            i = i + 1;
        }
        proof {
            assert(samples@.take(samples@.len() as int) =~= samples@);
            assert(samples@.take(0) =~= Seq::<i16>::empty());
            assert(old(self).recorded@ + Seq::<i16>::empty() =~= old(self).recorded@);
        }
        self.recorded = buffer;
    }

    /// Takes in one block from the microphone.
    ///
    /// The block's level moves the trigger; the answer lists what to do about
    /// it, as [`plan_for`] says, with a pause picked at random between
    /// [`FLICKER_MIN_MS`] and [`FLICKER_MAX_MS`]. If the trigger is then
    /// active, the block is kept. An empty block is refused and changes
    /// nothing.
    pub fn process(&mut self, samples: &[i16], config: &ChibiConfig) -> (result: Result<
        Vec<Action>,
        CaptureError,
    >)
        ensures
            samples@.len() == 0 ==> result == Err::<Vec<Action>, CaptureError>(
                CaptureError::EmptyBuffer,
            ) && *final(self) == *old(self),
            samples@.len() > 0 ==> result is Ok,
            result matches Ok(actions) ==> {
                let now = next_active(old(self).active(), rms_level(samples@), *config);
                &&& final(self).active() == now
                &&& final(self).limit() == old(self).limit()
                &&& final(self).recorded() == if now {
                    kept(old(self).recorded(), old(self).limit(), samples@)
                } else {
                    old(self).recorded()
                }
                &&& exists|pause_ms: u64|
                    FLICKER_MIN_MS <= pause_ms <= FLICKER_MAX_MS && actions@ == #[trigger] plan_for(
                        now,
                        config.flicker_input,
                        pause_ms,
                    )
            },
    {
        let level: u32 = match block_level(samples) {
            Ok(level) => level,
            Err(error) => {
                return Err(error);
            },
        };
        let now: bool = self.advance(level, config);
        let pause_ms: u64 = if now && config.flicker_input {
            random_between(FLICKER_MIN_MS, FLICKER_MAX_MS)
        } else {
            FLICKER_MIN_MS
        };
        let actions: Vec<Action> = plan(now, config.flicker_input, pause_ms);
        if now {
            self.record(samples);
        }
        Ok(actions)
    }
}

} // verus!
