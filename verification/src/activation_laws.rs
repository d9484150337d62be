//! What holds of the overrides of activation heights, in terms of what was set and what the
//! environment says.
use vstd::prelude::*;

use crate::activation::{
    orchard_activation_height, orchard_override, override_of, parse_override,
    sapling_activation_height, sapling_override, set_orchard_activation_height, set_outcome,
    set_sapling_activation_height, ActivationOverrides, EnvRead, HeightOverride, SetOutcome,
};
use crate::text::unsigned_value;

verus! {

/// The height that the environment gives is the number that its text is, where 32 bits hold it;
/// a text that is no such number, and a variable that is missing or unreadable, give none.
pub proof fn the_environment_gives_the_number_it_holds(read: EnvRead, height: Option<u32>)
    requires
        call_ensures(parse_override, (&read,), height),
    ensures
        height matches Some(number) ==> (read matches EnvRead::Present(text) && unsigned_value(
            text@,
        ) == Some(number as nat)),
        height is Some <==> (read matches EnvRead::Present(text) && (unsigned_value(
            text@,
        ) matches Some(number) && number <= u32::MAX)),
        override_of(read) == height,
{
}

/// What a height that was set overrides: it is in force, whatever the environment says. Without
/// one, what the environment said when it was read first is, or else what it says now.
pub proof fn set_heights_go_before_the_environment(state: HeightOverride, read: EnvRead)
    ensures
        state.manual matches Some(height) ==> state.in_force(read) == Some(height),
        state.manual is None && state.environment is Some ==> state.in_force(read)
            == state.environment->0,
        state.manual is None && state.environment is None ==> state.in_force(read) == override_of(
            read,
        ),
{
}

/// A question remembers what the environment says where nothing was set and it was not asked
/// before, and changes nothing otherwise.
pub proof fn questions_remember_the_environment(state: HeightOverride, read: EnvRead)
    ensures
        state.consulted(read).manual == state.manual,
        state.manual is Some || state.environment is Some ==> state.consulted(read) == state,
        state.manual is None && state.environment is None ==> state.consulted(read).environment
            == Some(override_of(read)),
{
}

/// A height is set exactly if no height is in force, and what is in force stays otherwise.
pub proof fn heights_are_set_where_none_is_in_force(
    state: HeightOverride,
    height: u32,
    read: EnvRead,
)
    ensures
        state.in_force(read) is None ==> state.after_set(height, read).manual == Some(height),
        state.in_force(read) is Some ==> state.after_set(height, read).manual == state.manual
            && state.after_set(height, read).in_force(read) == state.in_force(read),
        set_outcome(state, height, read) == SetOutcome::InForce <==> state.in_force(read) is None,
        set_outcome(state, height, read) == SetOutcome::AlreadyInForce <==> state.in_force(read)
            == Some(height),
        state.manual matches Some(existing) ==> existing != height ==> set_outcome(
            state,
            height,
            read,
        ) == (SetOutcome::ManualKept { existing }),
        state.manual is None ==> (state.in_force(read) matches Some(env_height) ==> env_height
            != height ==> set_outcome(state, height, read) == (SetOutcome::EnvironmentKept {
            env_height,
        })),
{
}

/// Setting a height for Sapling leaves the one for Orchard alone, and takes effect where none was
/// in force.
pub proof fn setting_sapling_leaves_orchard_alone(
    overrides: &mut ActivationOverrides,
    height: u32,
    read: EnvRead,
    later: EnvRead,
    outcome: SetOutcome,
)
    requires
        call_ensures(set_sapling_activation_height, (overrides, height, &read), outcome),
    ensures
        final(overrides).orchard == old(overrides).orchard,
        old(overrides).sapling.in_force(read) is None ==> outcome == SetOutcome::InForce
            && final(overrides).sapling.in_force(later) == Some(height),
        old(overrides).sapling.in_force(read) is Some ==> outcome != SetOutcome::InForce
            && final(overrides).sapling.in_force(later) == old(overrides).sapling.in_force(read),
{
}

/// Setting a height for Orchard leaves the one for Sapling alone, and takes effect where none was
/// in force.
pub proof fn setting_orchard_leaves_sapling_alone(
    overrides: &mut ActivationOverrides,
    height: u32,
    read: EnvRead,
    later: EnvRead,
    outcome: SetOutcome,
)
    requires
        call_ensures(set_orchard_activation_height, (overrides, height, &read), outcome),
    ensures
        final(overrides).sapling == old(overrides).sapling,
        old(overrides).orchard.in_force(read) is None ==> outcome == SetOutcome::InForce
            && final(overrides).orchard.in_force(later) == Some(height),
        old(overrides).orchard.in_force(read) is Some ==> outcome != SetOutcome::InForce
            && final(overrides).orchard.in_force(later) == old(overrides).orchard.in_force(read),
{
}

/// A question for Sapling gives what is in force, keeps it in force, and leaves Orchard alone.
pub proof fn asking_for_sapling_keeps_the_answer(
    overrides: &mut ActivationOverrides,
    read: EnvRead,
    later: EnvRead,
    height: Option<u32>,
)
    requires
        call_ensures(sapling_override, (overrides, &read), height),
    ensures
        old(overrides).sapling.manual is Some ==> height == old(overrides).sapling.manual,
        old(overrides).sapling.manual is None && old(overrides).sapling.environment is None
            ==> height == override_of(read),
        final(overrides).sapling.in_force(later) == height,
        final(overrides).orchard == old(overrides).orchard,
{
}

/// A question for Orchard gives what is in force, keeps it in force, and leaves Sapling alone.
pub proof fn asking_for_orchard_keeps_the_answer(
    overrides: &mut ActivationOverrides,
    read: EnvRead,
    later: EnvRead,
    height: Option<u32>,
)
    requires
        call_ensures(orchard_override, (overrides, &read), height),
    ensures
        old(overrides).orchard.manual is Some ==> height == old(overrides).orchard.manual,
        old(overrides).orchard.manual is None && old(overrides).orchard.environment is None
            ==> height == override_of(read),
        final(overrides).orchard.in_force(later) == height,
        final(overrides).sapling == old(overrides).sapling,
{
}

/// The activation height of Sapling is the override in force, and the network's without one.
pub proof fn the_sapling_height_is_the_override_or_the_networks(
    overrides: &mut ActivationOverrides,
    read: EnvRead,
    network_height: Option<u32>,
    height: u32,
)
    requires
        old(overrides).sapling.in_force(read) is Some || network_height is Some,
        call_ensures(sapling_activation_height, (overrides, &read, network_height), height),
    ensures
        old(overrides).sapling.in_force(read) matches Some(given) ==> height == given,
        old(overrides).sapling.in_force(read) is None ==> network_height == Some(height),
        final(overrides).orchard == old(overrides).orchard,
{
}

/// The activation height of Orchard is the override in force, and the network's without one.
pub proof fn the_orchard_height_is_the_override_or_the_networks(
    overrides: &mut ActivationOverrides,
    read: EnvRead,
    network_height: Option<u32>,
    height: u32,
)
    requires
        old(overrides).orchard.in_force(read) is Some || network_height is Some,
        call_ensures(orchard_activation_height, (overrides, &read, network_height), height),
    ensures
        old(overrides).orchard.in_force(read) matches Some(given) ==> height == given,
        old(overrides).orchard.in_force(read) is None ==> network_height == Some(height),
        final(overrides).sapling == old(overrides).sapling,
{
}

/// The environment is needed exactly where what it holds can matter: without need for it, every
/// answer and every call come out alike, whatever it holds.
pub proof fn the_environment_is_needed_where_it_matters(
    state: HeightOverride,
    result: bool,
    one: EnvRead,
    other: EnvRead,
    height: u32,
)
    requires
        call_ensures(HeightOverride::needs_environment, (&state,), result),
    ensures
        !result ==> state.in_force(one) == state.in_force(other) && state.after_set(height, one)
            == state.after_set(height, other),
        result ==> state.in_force(one) == override_of(one),
{
}

/// Without overrides nothing is in force but what the environment says.
pub proof fn nothing_is_in_force_at_first(overrides: ActivationOverrides, read: EnvRead)
    requires
        call_ensures(ActivationOverrides::new, (), overrides),
    ensures
        overrides.sapling.in_force(read) == override_of(read),
        overrides.orchard.in_force(read) == override_of(read),
{
}

} // verus!
