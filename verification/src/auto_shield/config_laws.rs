//! What holds of a configuration that is read from a file.
use vstd::prelude::*;

use crate::activation::{
    set_outcome, ActivationOverrides, EnvRead, HeightOverride, SetOutcome,
};
use crate::auto_shield::config::{
    or_default, outcome_of, override_behind, AutoShieldConfig, ConfigError, DelayWindow,
    FileConfig, StatePaths,
};
use crate::auto_shield::mnemonic::{
    configured_phrase, entropy_outcome, is_phrase_of, phrase_entropy, prompt_for_mnemonic,
    wallet_entropy, PhraseError, PhraseErrorModel,
};
use crate::auto_shield::queue_step_laws::delays_are_whole_minutes_of_the_window;
use crate::text::{is_blank, trimmed};

verus! {

/// What a file gives stays, and a default stands in where it gives nothing.
pub proof fn given_values_go_before_defaults(given: u32, default: u32)
    ensures
        or_default(Some(given), default) == given,
        or_default(None, default) == default,
{
}

/// Whether `chosen` is what a file gives, or `default` where it gives nothing.
pub open spec fn is_given_or(value: Option<u32>, default: u32, chosen: u32) -> bool {
    match value {
        Some(given) => chosen == given,
        None => chosen == default,
    }
}

/// The windows of a file have the ends that it gives, and else 200 and 500 minutes for shields,
/// and 200 minutes and ten days for payments.
pub proof fn windows_have_the_given_ends(file: FileConfig)
    ensures
        is_given_or(file.delay_min_minutes, 200, file.window().min_minutes),
        is_given_or(file.delay_max_minutes, 500, file.window().max_minutes),
        is_given_or(
            file.post_shield_send_delay_min_minutes,
            200,
            file.post_shield_window().min_minutes,
        ),
        is_given_or(
            file.post_shield_send_delay_max_minutes,
            14_400,
            file.post_shield_window().max_minutes,
        ),
{
}

/// Whether a window can be drawn from: its shortest delay is not zero, and its longest is not
/// shorter.
pub open spec fn is_drawable(window: DelayWindow) -> bool {
    window.min_minutes > 0 && window.max_minutes >= window.min_minutes
}

/// A file is refused exactly if its window for shields cannot be drawn from, or the one for
/// payments where it has an address for payments. A shortest delay of zero is reported before a
/// longest delay below it, and the shields before the payments.
pub proof fn files_are_refused_for_their_windows(file: FileConfig)
    ensures
        file.error() is None <==> is_drawable(file.window()) && (
        file.post_shield_send_address is Some ==> is_drawable(file.post_shield_window())),
        file.error() == Some(ConfigError::DelayMinZero) <==> file.window().min_minutes == 0,
        file.window().min_minutes > 0 && file.window().max_minutes < file.window().min_minutes
            ==> file.error() == Some(
            ConfigError::DelayMaxBelowMin {
                max_minutes: file.window().max_minutes,
                min_minutes: file.window().min_minutes,
            },
        ),
        is_drawable(file.window()) && file.post_shield_send_address is Some
            && file.post_shield_window().min_minutes == 0 ==> file.error() == Some(
            ConfigError::PostShieldDelayMinZero,
        ),
        is_drawable(file.window()) && file.post_shield_send_address is Some
            && file.post_shield_window().min_minutes > 0 && !is_drawable(
            file.post_shield_window(),
        ) ==> file.error() == Some(
            ConfigError::PostShieldDelayMaxBelowMin {
                max_minutes: file.post_shield_window().max_minutes,
                min_minutes: file.post_shield_window().min_minutes,
            },
        ),
{
}

/// A configuration that is accepted is the one of the file, completed: a grace period in seconds,
/// five minutes where none is given; an interval of at least a second, and of a minute where none
/// is given; one confirmation at least, and three for what the wallet spends. A phrase of white
/// space alone is none, and payments follow a shield only where an address for them is given.
pub proof fn a_file_is_completed_with_defaults(
    file: FileConfig,
    paths: StatePaths,
    config: AutoShieldConfig,
)
    requires
        call_ensures(
            AutoShieldConfig::from_file_config,
            (file, paths),
            Ok::<AutoShieldConfig, ConfigError>(config),
        ),
    ensures
        is_given_or(file.delay_min_minutes, 200, config.delay.min_minutes),
        is_given_or(file.delay_max_minutes, 500, config.delay.max_minutes),
        is_drawable(config.delay),
        file.reschedule_grace_minutes matches Some(minutes) ==> config.reschedule_grace_secs
            == minutes * 60,
        file.reschedule_grace_minutes is None ==> config.reschedule_grace_secs == 300,
        file.poll_interval_seconds matches Some(seconds) ==> seconds > 0
            ==> config.poll_interval_secs == seconds,
        file.poll_interval_seconds == Some(0u64) ==> config.poll_interval_secs == 1,
        file.poll_interval_seconds is None ==> config.poll_interval_secs == 60,
        file.confirmations > 0 ==> config.confirmations == file.confirmations,
        config.confirmations >= 1,
        file.confirmations == 0 ==> config.confirmations == 1,
        config.wallet_min_confirmations == 3,
        config.birthday == file.birthday,
        config.start_height == file.start_height,
        config.chain == file.chain,
        config.lightwalletd_server == file.lightwalletd_server,
        config.rpc_url == file.rpc_url,
        config.paths == paths,
        config.post_shield_send is Some <==> file.post_shield_send_address is Some,
        config.post_shield_send matches Some(send) ==> {
            &&& file.post_shield_send_address == Some(send.address)
            &&& is_given_or(file.post_shield_send_delay_min_minutes, 200, send.delay.min_minutes)
            &&& is_given_or(
                file.post_shield_send_delay_max_minutes,
                14_400,
                send.delay.max_minutes,
            )
            &&& is_drawable(send.delay)
        },
        config.mnemonic matches Some(phrase) ==> file.mnemonic == Some(phrase) && !is_blank(
            phrase@,
        ),
        file.mnemonic matches Some(phrase) ==> !is_blank(phrase@) ==> config.mnemonic == Some(
            phrase,
        ),
{
    files_are_refused_for_their_windows(file);
    windows_have_the_given_ends(file);
}

/// A file is refused exactly if a window that it needs cannot be drawn from.
pub proof fn files_with_windows_are_accepted(
    file: FileConfig,
    paths: StatePaths,
    config: Result<AutoShieldConfig, ConfigError>,
)
    requires
        call_ensures(AutoShieldConfig::from_file_config, (file, paths), config),
    ensures
        config is Ok <==> is_drawable(file.window()) && (file.post_shield_send_address is Some
            ==> is_drawable(file.post_shield_window())),
        config == Err::<AutoShieldConfig, ConfigError>(ConfigError::DelayMinZero)
            <==> file.window().min_minutes == 0,
{
    files_are_refused_for_their_windows(file);
}

/// A delay that is drawn is a number of whole minutes out of the window.
pub proof fn drawn_delays_are_of_the_window(window: DelayWindow, seconds: u64)
    requires
        call_ensures(DelayWindow::random_delay_secs, (&window,), seconds),
    ensures
        seconds % 60 == 0,
        window.min_minutes * 60 <= seconds <= window.max_minutes * 60,
{
    delays_are_whole_minutes_of_the_window(window, seconds);
}

/// A configuration can be worked with exactly if its windows can be drawn from, and a
/// confirmation and a second are asked for at least.
pub proof fn configurations_that_can_be_worked_with(config: AutoShieldConfig)
    ensures
        config.wf() <==> {
            &&& is_drawable(config.delay)
            &&& config.confirmations > 0
            &&& config.poll_interval_secs > 0
            &&& config.post_shield_send matches Some(send) ==> is_drawable(send.delay)
        },
{
}

/// A height that the file gives is set, and without one nothing happens.
pub proof fn heights_are_set_where_they_are_given(
    state: HeightOverride,
    height: u32,
    read: EnvRead,
)
    ensures
        override_behind(state, Some(height), read) == state.after_set(height, read),
        override_behind(state, None, read) == state,
        outcome_of(state, Some(height), read) == Some(set_outcome(state, height, read)),
        outcome_of(state, None, read) is None,
{
}

/// The heights of a file are set for the upgrades that it gives them for, each by what the
/// environment says of that upgrade, and an upgrade without one is left alone.
pub proof fn each_upgrade_gets_its_own_height(
    file: FileConfig,
    overrides: &mut ActivationOverrides,
    sapling_read: EnvRead,
    orchard_read: EnvRead,
    outcomes: (Option<SetOutcome>, Option<SetOutcome>),
)
    requires
        call_ensures(
            FileConfig::set_activation_heights,
            (&file, overrides, &sapling_read, &orchard_read),
            outcomes,
        ),
    ensures
        file.sapling_activation_height is None ==> final(overrides).sapling == old(
            overrides
        ).sapling && outcomes.0 is None,
        file.orchard_activation_height is None ==> final(overrides).orchard == old(
            overrides
        ).orchard && outcomes.1 is None,
        file.sapling_activation_height matches Some(height) ==> final(overrides).sapling == old(
            overrides
        ).sapling.after_set(height, sapling_read) && outcomes.0 is Some,
        file.orchard_activation_height matches Some(height) ==> final(overrides).orchard == old(
            overrides
        ).orchard.after_set(height, orchard_read) && outcomes.1 is Some,
{
}

/// The phrase is taken out of the configuration without the white space around it, once.
pub proof fn the_phrase_is_taken_once(config: &mut AutoShieldConfig, phrase: Option<String>)
    requires
        call_ensures(AutoShieldConfig::take_phrase, (config,), phrase),
    ensures
        final(config).mnemonic is None,
        phrase is Some <==> old(config).mnemonic is Some && !is_blank(old(config).mnemonic->0@),
        phrase matches Some(text) ==> text@ == trimmed(old(config).mnemonic->0@),
        final(config).delay == old(config).delay,
        final(config).start_height == old(config).start_height,
        final(config).confirmations == old(config).confirmations,
        final(config).reschedule_grace_secs == old(config).reschedule_grace_secs,
        final(config).poll_interval_secs == old(config).poll_interval_secs,
        final(config).post_shield_send == old(config).post_shield_send,
        final(config).birthday == old(config).birthday,
        final(config).paths == old(config).paths,
{
}

/// A phrase is its text without the white space around it, and a text of white space alone is no
/// phrase, whether it is configured or typed in.
pub proof fn a_phrase_is_its_trimmed_text(
    mnemonic: Option<String>,
    phrase: Option<String>,
    input: &str,
    typed: Result<String, PhraseError>,
)
    requires
        call_ensures(configured_phrase, (mnemonic,), phrase),
        call_ensures(prompt_for_mnemonic, (input,), typed),
    ensures
        phrase is Some <==> mnemonic is Some && !is_blank(mnemonic->0@),
        phrase matches Some(text) ==> text@ == trimmed(mnemonic->0@),
        typed is Ok <==> !is_blank(input@),
        typed matches Ok(text) ==> text@ == trimmed(input@),
        typed matches Err(error) ==> error is Empty,
        is_phrase_of(mnemonic, phrase),
{
    if let Err(error) = typed {
        assert(error is Empty <==> error@ is Empty);
    }
}

/// The entropy of a phrase is what the word list makes of it, and a text that is no phrase is
/// refused with the reason.
pub proof fn entropy_is_what_the_phrase_says(
    phrase: &str,
    entropy: Result<Vec<u8>, PhraseError>,
)
    requires
        call_ensures(wallet_entropy, (phrase,), entropy),
    ensures
        match phrase_entropy(phrase@) {
            Ok(bytes) => entropy matches Ok(found) && found@ == bytes,
            Err(reason) => entropy matches Err(PhraseError::Invalid(text)) && text@ == reason,
        },
        phrase_entropy(phrase@) matches Ok(bytes) ==> (entropy_outcome(phrase@) matches Ok(found)
            && found == bytes),
        phrase_entropy(phrase@) matches Err(reason) ==> (entropy_outcome(phrase@) matches Err(
            found,
        ) && found == PhraseErrorModel::Invalid(reason)),
{
}

} // verus!
