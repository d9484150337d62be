//! Overrides of the network's activation heights at run time.
//!
//! An override comes from a call or from the environment. Whichever takes effect first stays in
//! force: the environment is read at most once, and only where no call has set a height before.
use vstd::prelude::*;

use crate::text::{parse_u32, unsigned_value};

verus! {

/// What reading an environment variable gave.
#[derive(Debug, Clone)]
pub enum EnvRead {
    Present(String),
    NotPresent,
    /// The variable is there but its value is not text.
    Unreadable,
}

/// The override of one activation height.
#[derive(Debug, Clone, Copy, PartialEq, Eq, Structural)]
pub struct HeightOverride {
    /// The height that a call has set.
    pub manual: Option<u32>,
    /// What the environment said, once it has been read.
    pub environment: Option<Option<u32>>,
}

/// The overrides of the activation heights of Sapling and of NU5 (Orchard).
#[derive(Debug, Clone, Copy, PartialEq, Eq, Structural)]
pub struct ActivationOverrides {
    pub sapling: HeightOverride,
    pub orchard: HeightOverride,
}

/// What became of a height that was to be set.
#[derive(Debug, Clone, Copy, PartialEq, Eq, Structural)]
pub enum SetOutcome {
    /// The height is in force from now on.
    InForce,
    /// The same height was in force already.
    AlreadyInForce,
    /// An earlier call has set another height, which stays.
    ManualKept { existing: u32 },
    /// The environment gives another height, which stays.
    EnvironmentKept { env_height: u32 },
}

/// The height that an environment variable gives: its value where that is a decimal number of
/// 32 bits, else none.
pub open spec fn override_of(read: EnvRead) -> Option<u32> {
    match read {
        EnvRead::Present(value) => match unsigned_value(value@) {
            Some(number) => if number <= u32::MAX {
                Some(number as u32)
            } else {
                None
            },
            None => None,
        },
        _ => None,
    }
}

/// Reads a height from what an environment variable holds.
pub fn parse_override(read: &EnvRead) -> (height: Option<u32>)
    ensures
        height == override_of(*read),
{
    match read {
        EnvRead::Present(value) => match parse_u32(value.as_str()) {
            Ok(height) => Some(height),
            Err(_) => None,
        },
        EnvRead::NotPresent => None,
        EnvRead::Unreadable => None,
    }
}

impl HeightOverride {
    /// What the environment says: what it said when it was first read, or `read` where it has
    /// not been read yet.
    pub open spec fn environment_height(self, read: EnvRead) -> Option<u32> {
        match self.environment {
            Some(cached) => cached,
            None => override_of(read),
        }
    }

    /// The override in force, if any: a height that a call has set goes before the environment.
    pub open spec fn in_force(self, read: EnvRead) -> Option<u32> {
        match self.manual {
            Some(height) => Some(height),
            None => self.environment_height(read),
        }
    }

    /// The override once the environment has been consulted.
    pub open spec fn consulted(self, read: EnvRead) -> HeightOverride {
        match self.manual {
            Some(_) => self,
            None => HeightOverride { environment: Some(self.environment_height(read)), ..self },
        }
    }

    /// The override after a call that was to set `height`: it takes effect where no other is in
    /// force.
    pub open spec fn after_set(self, height: u32, read: EnvRead) -> HeightOverride {
        match self.in_force(read) {
            Some(_) => self.consulted(read),
            None => HeightOverride { manual: Some(height), ..self.consulted(read) },
        }
    }

    /// No override.
    pub fn new() -> (state: HeightOverride)
        ensures
            state.manual is None,
            state.environment is None,
    {
        HeightOverride { manual: None, environment: None }
    }

    /// Whether the next question or call depends on what the environment holds.
    pub fn needs_environment(&self) -> (result: bool)
        ensures
            result == (self.manual is None && self.environment is None),
    {
        self.manual.is_none() && self.environment.is_none()
    }

    fn consult(&mut self, read: &EnvRead) -> (height: Option<u32>)
        requires
            old(self).manual is None,
        ensures
            height == old(self).environment_height(*read),
            *final(self) == old(self).consulted(*read),
    {
        match self.environment {
            Some(cached) => cached,
            None => {
                let height = parse_override(read);
                self.environment = Some(height);
                height
            },
        }
    }

    /// The override in force, if any. `read` is what the environment holds now.
    pub fn current(&mut self, read: &EnvRead) -> (height: Option<u32>)
        ensures
            height == old(self).in_force(*read),
            *final(self) == old(self).consulted(*read),
    {
        match self.manual {
            Some(height) => Some(height),
            None => self.consult(read),
        }
    }

    /// Sets the height, unless an override is in force.
    pub fn set(&mut self, height: u32, read: &EnvRead) -> (outcome: SetOutcome)
        ensures
            *final(self) == old(self).after_set(height, *read),
            outcome == set_outcome(*old(self), height, *read),
    {
        if let Some(existing) = self.manual {
            if existing != height {
                return SetOutcome::ManualKept { existing };
            }
            return SetOutcome::AlreadyInForce;
        }
        if let Some(env_height) = self.consult(read) {
            if env_height != height {
                return SetOutcome::EnvironmentKept { env_height };
            }
            return SetOutcome::AlreadyInForce;
        }
        self.manual = Some(height);
        SetOutcome::InForce
    }
}

impl ActivationOverrides {
    /// No overrides.
    pub fn new() -> (overrides: ActivationOverrides)
        ensures
            overrides.sapling.manual is None,
            overrides.sapling.environment is None,
            overrides.orchard.manual is None,
            overrides.orchard.environment is None,
    {
        ActivationOverrides { sapling: HeightOverride::new(), orchard: HeightOverride::new() }
    }
}

/// The environment variable with the override for Sapling.
pub fn sapling_variable() -> (name: &'static str)
    ensures
        name@ == "ZINGO_SAPLING_ACTIVATION_HEIGHT"@,
{
    "ZINGO_SAPLING_ACTIVATION_HEIGHT"
}

/// The environment variable with the override for NU5 (Orchard).
pub fn orchard_variable() -> (name: &'static str)
    ensures
        name@ == "ZINGO_ORCHARD_ACTIVATION_HEIGHT"@,
{
    "ZINGO_ORCHARD_ACTIVATION_HEIGHT"
}

/// The override of the activation height of Sapling, where one is in force.
pub fn sapling_override(overrides: &mut ActivationOverrides, read: &EnvRead) -> (height: Option<
    u32,
>)
    ensures
        height == old(overrides).sapling.in_force(*read),
        final(overrides).sapling == old(overrides).sapling.consulted(*read),
        final(overrides).orchard == old(overrides).orchard,
{
    overrides.sapling.current(read)
}

/// The override of the activation height of NU5 (Orchard), where one is in force.
pub fn orchard_override(overrides: &mut ActivationOverrides, read: &EnvRead) -> (height: Option<
    u32,
>)
    ensures
        height == old(overrides).orchard.in_force(*read),
        final(overrides).orchard == old(overrides).orchard.consulted(*read),
        final(overrides).sapling == old(overrides).sapling,
{
    overrides.orchard.current(read)
}

/// The activation height of Sapling: the override where one is in force, else the one that the
/// network's parameters give, which has to be there then.
pub fn sapling_activation_height(
    overrides: &mut ActivationOverrides,
    read: &EnvRead,
    network_height: Option<u32>,
) -> (height: u32)
    requires
        old(overrides).sapling.in_force(*read) is Some || network_height is Some,
    ensures
        Some(height) == (match old(overrides).sapling.in_force(*read) {
            Some(override_height) => Some(override_height),
            None => network_height,
        }),
        final(overrides).sapling == old(overrides).sapling.consulted(*read),
        final(overrides).orchard == old(overrides).orchard,
{
    match sapling_override(overrides, read) {
        Some(height) => height,
        None => network_height.unwrap(),
    }
}

/// The activation height of NU5 (Orchard): the override where one is in force, else the one
/// that the network's parameters give, which has to be there then.
pub fn orchard_activation_height(
    overrides: &mut ActivationOverrides,
    read: &EnvRead,
    network_height: Option<u32>,
) -> (height: u32)
    requires
        old(overrides).orchard.in_force(*read) is Some || network_height is Some,
    ensures
        Some(height) == (match old(overrides).orchard.in_force(*read) {
            Some(override_height) => Some(override_height),
            None => network_height,
        }),
        final(overrides).orchard == old(overrides).orchard.consulted(*read),
        final(overrides).sapling == old(overrides).sapling,
{
    match orchard_override(overrides, read) {
        Some(height) => height,
        None => network_height.unwrap(),
    }
}

/// Sets a runtime override for the Sapling activation height, unless one is in force.
pub fn set_sapling_activation_height(
    overrides: &mut ActivationOverrides,
    height: u32,
    read: &EnvRead,
) -> (outcome: SetOutcome)
    ensures
        final(overrides).sapling == old(overrides).sapling.after_set(height, *read),
        final(overrides).orchard == old(overrides).orchard,
        outcome == set_outcome(old(overrides).sapling, height, *read),
{
    overrides.sapling.set(height, read)
}

/// Sets a runtime override for the NU5 (Orchard) activation height, unless one is in force.
pub fn set_orchard_activation_height(
    overrides: &mut ActivationOverrides,
    height: u32,
    read: &EnvRead,
) -> (outcome: SetOutcome)
    ensures
        final(overrides).orchard == old(overrides).orchard.after_set(height, *read),
        final(overrides).sapling == old(overrides).sapling,
        outcome == set_outcome(old(overrides).orchard, height, *read),
{
    overrides.orchard.set(height, read)
}

/// What becomes of a height that is to be set.
pub open spec fn set_outcome(state: HeightOverride, height: u32, read: EnvRead) -> SetOutcome {
    match state.in_force(read) {
        None => SetOutcome::InForce,
        Some(existing) => if existing == height {
            SetOutcome::AlreadyInForce
        } else if state.manual is Some {
            SetOutcome::ManualKept { existing }
        } else {
            SetOutcome::EnvironmentKept { env_height: existing }
        },
    }
}

/// A height that was once in force stays in force, whatever heights are set later and whatever
/// the environment holds then.
pub proof fn height_in_force_is_final(
    state: HeightOverride,
    read: EnvRead,
    later_height: u32,
    later_read: EnvRead,
    last_read: EnvRead,
)
    ensures
        state.in_force(read) is Some ==> {
            &&& state.consulted(read).in_force(later_read) == state.in_force(read)
            &&& state.consulted(read).consulted(later_read).in_force(last_read) == state.in_force(
                read,
            )
            &&& state.consulted(read).after_set(later_height, later_read).in_force(last_read)
                == state.in_force(read)
        },
{
}

/// Setting a height twice is the same as setting it once, and the first of two heights wins.
pub proof fn first_height_wins(
    state: HeightOverride,
    first: u32,
    second: u32,
    read: EnvRead,
    later_read: EnvRead,
)
    ensures
        state.after_set(first, read).after_set(second, later_read) == state.after_set(first, read),
        state.in_force(read) is None ==> state.after_set(first, read).in_force(later_read) == Some(
            first,
        ),
{
}

/// The environment is read at most once: after the first question or call, what it holds no
/// longer matters.
pub proof fn environment_is_read_once(
    state: HeightOverride,
    height: u32,
    read: EnvRead,
    one: EnvRead,
    other: EnvRead,
)
    ensures
        state.consulted(read).in_force(one) == state.consulted(read).in_force(other),
        state.consulted(read).after_set(height, one) == state.consulted(read).after_set(
            height,
            other,
        ),
        state.after_set(height, read).in_force(one) == state.after_set(height, read).in_force(
            other,
        ),
{
}

} // verus!
