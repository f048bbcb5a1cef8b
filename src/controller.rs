//! The on/off state controller: the logical state, the power-on policy it
//! holds, and the level to which the actuator is driven after each change.
//!
//! The logical state is the source of truth. Each entry point that sets the
//! state returns the level the caller must drive the actuator to; what the
//! actuator reports never changes the state.
use vstd::prelude::*;

use crate::policy::{encode_record, record_of, StartupBehavior, StorageError};

verus! {

/// The commands of the on/off cluster that set the state.
#[derive(Clone, Copy, Debug, PartialEq, Eq, Structural)]
pub enum OnOffCommand {
    Off,
    On,
    Toggle,
}

/// How an "off with effect" command asks the load to go off.
#[derive(Clone, Copy, Debug, PartialEq, Eq, Structural)]
pub enum EffectKind {
    DelayedAllOff,
    DyingLight,
}

/// A failed write to the output line.
#[derive(Clone, Copy, Debug, PartialEq, Eq, Structural)]
pub struct ActuatorError {
    /// The level that was to be written.
    pub level: bool,
    /// The hardware error code.
    pub code: i32,
}

/// The state after one command.
pub open spec fn step(s: bool, c: OnOffCommand) -> bool {
    match c {
        OnOffCommand::Off => false,
        OnOffCommand::On => true,
        OnOffCommand::Toggle => !s,
    }
}

/// The state after a sequence of commands, starting from `s`.
pub open spec fn run(s: bool, cmds: Seq<OnOffCommand>) -> bool
    decreases cmds.len(),
{
    if cmds.len() == 0 {
        s
    } else {
        step(run(s, cmds.drop_last()), cmds.last())
    }
}

/// The value set by the last `On` or `Off` of the sequence, or `s` if there is none.
pub open spec fn last_absolute(s: bool, cmds: Seq<OnOffCommand>) -> bool
    decreases cmds.len(),
{
    if cmds.len() == 0 {
        s
    } else if cmds.last() == OnOffCommand::Toggle {
        last_absolute(s, cmds.drop_last())
    } else {
        cmds.last() == OnOffCommand::On
    }
}

/// The number of `Toggle`s after the last `On` or `Off` of the sequence.
pub open spec fn trailing_toggles(cmds: Seq<OnOffCommand>) -> nat
    decreases cmds.len(),
{
    if cmds.len() == 0 {
        0
    } else if cmds.last() == OnOffCommand::Toggle {
        1 + trailing_toggles(cmds.drop_last())
    } else {
        0
    }
}

/// The data version after a mutation.
pub open spec fn next_version(v: u32) -> u32 {
    if v == u32::MAX {
        0
    } else {
        (v + 1) as u32
    }
}

/// The state that a startup policy gives, with the last known state if any.
pub open spec fn startup_state(p: Option<StartupBehavior>, last_known: Option<bool>) -> bool {
    match p {
        Some(StartupBehavior::ForceOn) => true,
        Some(StartupBehavior::Restore) => match last_known {
            Some(s) => s,
            None => false,
        },
        _ => false,
    }
}

/// Owns the logical on/off state of the load and its power-on policy.
pub struct GarlandController {
    state: bool,
    startup: Option<StartupBehavior>,
    data_version: u32,
}

impl GarlandController {
    /// The logical state.
    pub closed spec fn on(&self) -> bool {
        self.state
    }

    /// The configured power-on policy.
    pub closed spec fn policy(&self) -> Option<StartupBehavior> {
        self.startup
    }

    /// The cluster's data version.
    pub closed spec fn version(&self) -> u32 {
        self.data_version
    }

    /// Off, with no power-on preference and data version 0.
    pub fn new() -> (r: Self)
        ensures
            !r.on(),
            r.policy() == None::<StartupBehavior>,
            r.version() == 0,
    {
        GarlandController { state: false, startup: None, data_version: 0 }
    }

    /// Off, with no power-on preference and the given initial data version.
    pub fn with_data_version(data_version: u32) -> (r: Self)
        ensures
            !r.on(),
            r.policy() == None::<StartupBehavior>,
            r.version() == data_version,
    {
        GarlandController { state: false, startup: None, data_version }
    }

    /// The current logical state.
    pub fn get_state(&self) -> (r: bool)
        ensures
            r == self.on(),
    {
        self.state
    }

    /// The current data version.
    pub fn data_version(&self) -> (r: u32)
        ensures
            r == self.version(),
    {
        self.data_version
    }

    /// Sets the logical state and returns the level to drive the actuator to.
    /// The data version advances when the state changes.
    pub fn set_state(&mut self, target: bool) -> (level: bool)
        ensures
            level == target,
            final(self).on() == target,
            final(self).policy() == old(self).policy(),
            final(self).version() == if old(self).on() == target {
                old(self).version()
            } else {
                next_version(old(self).version())
            },
    {
        if self.state != target {
            self.data_version = self.data_version.wrapping_add(1);
        }
        self.state = target;
        target
    }

    /// Inverts the logical state and returns the level to drive the actuator to.
    pub fn toggle(&mut self) -> (level: bool)
        ensures
            level == !old(self).on(),
            final(self).on() == !old(self).on(),
            final(self).policy() == old(self).policy(),
            final(self).version() == next_version(old(self).version()),
    {
        let target = !self.state;
        self.set_state(target)
    }

    /// Applies one command and returns the level to drive the actuator to.
    pub fn apply(&mut self, cmd: OnOffCommand) -> (level: bool)
        ensures
            level == step(old(self).on(), cmd),
            final(self).on() == step(old(self).on(), cmd),
            final(self).policy() == old(self).policy(),
    {
        match cmd {
            OnOffCommand::Off => self.set_state(false),
            OnOffCommand::On => self.set_state(true),
            OnOffCommand::Toggle => self.toggle(),
        }
    }

    /// Applies the commands in order and returns the level of each actuator write.
    pub fn apply_all(&mut self, cmds: &Vec<OnOffCommand>) -> (levels: Vec<bool>)
        ensures
            final(self).on() == run(old(self).on(), cmds@),
            final(self).policy() == old(self).policy(),
            levels@.len() == cmds@.len(),
            forall|i: int|
                0 <= i < cmds@.len() ==> levels@[i] == run(old(self).on(), cmds@.take(i + 1)),
    {
        let mut levels: Vec<bool> = Vec::new();
        let mut i: usize = 0;
        while i < cmds.len()
            invariant
                i <= cmds@.len(),
                self.on() == run(old(self).on(), cmds@.take(i as int)),
                self.policy() == old(self).policy(),
                levels@.len() == i,
                forall|k: int| 0 <= k < i ==> levels@[k] == run(old(self).on(), cmds@.take(k + 1)),
            decreases cmds@.len() - i,
        {
            assert(cmds@.take(i + 1).drop_last() == cmds@.take(i as int));
            let level = self.apply(cmds[i]);
            levels.push(level);
            i = i + 1;
        }
        assert(cmds@.take(cmds@.len() as int) == cmds@);
        levels
    }

    /// Every effect variant degrades to an immediate off.
    pub fn handle_off_with_effect(&mut self, _effect: EffectKind) -> (level: bool)
        ensures
            !level,
            !final(self).on(),
            final(self).policy() == old(self).policy(),
    {
        self.set_state(false)
    }

    /// The configured power-on policy; `None` means no preference (off).
    pub fn get_startup_behavior(&self) -> (r: Option<StartupBehavior>)
        ensures
            r == self.policy(),
    {
        self.startup
    }

    /// Stores any policy, and returns the record to persist for it.
    pub fn set_startup_behavior(&mut self, value: Option<StartupBehavior>) -> (record: Vec<u8>)
        ensures
            record@ == record_of(value),
            final(self).policy() == value,
            final(self).on() == old(self).on(),
            final(self).version() == if old(self).policy() == value {
                old(self).version()
            } else {
                next_version(old(self).version())
            },
    {
        if self.startup != value {
            self.data_version = self.data_version.wrapping_add(1);
        }
        self.startup = value;
        encode_record(value)
    }

    /// Applies the persisted policy at startup. On success the policy is held
    /// and the level for the one actuator write is returned. A storage error
    /// leaves the controller off, keeps its policy, and is passed on.
    pub fn start_up(
        &mut self,
        loaded: Result<Option<StartupBehavior>, StorageError>,
        last_known: Option<bool>,
    ) -> (r: Result<bool, StorageError>)
        ensures
            match loaded {
                Ok(p) => {
                    &&& r == Ok::<bool, StorageError>(startup_state(p, last_known))
                    &&& final(self).on() == startup_state(p, last_known)
                    &&& final(self).policy() == p
                },
                Err(e) => {
                    &&& r == Err::<bool, StorageError>(e)
                    &&& !final(self).on()
                    &&& final(self).policy() == old(self).policy()
                },
            },
    {
        match loaded {
            Err(e) => {
                self.set_state(false);
                Err(e)
            },
            Ok(p) => {
                self.startup = p;
                let target = match p {
                    Some(StartupBehavior::ForceOn) => true,
                    Some(StartupBehavior::Restore) => match last_known {
                        Some(s) => s,
                        None => false,
                    },
                    _ => false,
                };
                Ok(self.set_state(target))
            },
        }
    }
}

/// What the actuator's return code means: 0 is success, any other is a fault.
pub fn drive_outcome(level: bool, code: i32) -> (r: Result<(), ActuatorError>)
    ensures
        r == if code == 0 {
            Ok::<(), ActuatorError>(())
        } else {
            Err(ActuatorError { level, code })
        },
{
    if code == 0 {
        Ok(())
    } else {
        Err(ActuatorError { level, code })
    }
}

/// After any sequence of on, off and toggle commands the state is the value
/// set by the last on or off (or the initial state if none), inverted once
/// for each toggle that follows it.
pub proof fn lemma_toggle_semantics(s: bool, cmds: Seq<OnOffCommand>)
    ensures
        run(s, cmds) == (last_absolute(s, cmds) != (trailing_toggles(cmds) % 2 == 1)),
    decreases cmds.len(),
{
    if cmds.len() > 0 {
        lemma_toggle_semantics(s, cmds.drop_last());
    }
}

} // verus!
