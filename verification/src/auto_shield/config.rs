//! The configuration of the daemon.
use vstd::prelude::*;

use crate::activation::{
    set_orchard_activation_height, set_outcome, set_sapling_activation_height,
    ActivationOverrides, EnvRead, HeightOverride, SetOutcome,
};
use crate::auto_shield::mnemonic::{configured_phrase, is_phrase_of};
use crate::text::{is_blank, trim_text, trimmed_is_empty_iff_blank};

verus! {

/// The confirmations that the wallet waits for before it spends.
pub const WALLET_MIN_CONFIRMATIONS: u32 = 3;

/// The configuration file, as it stands.
#[derive(Debug)]
pub struct FileConfig {
    pub mnemonic: Option<String>,
    pub birthday: u32,
    pub chain: String,
    pub lightwalletd_server: String,
    pub rpc_url: String,
    pub start_height: u32,
    pub confirmations: u32,
    pub state_dir: Option<String>,
    pub processed_log: Option<String>,
    pub rewards_log: Option<String>,
    pub queue_log: Option<String>,
    pub log_file: Option<String>,
    pub sapling_activation_height: Option<u32>,
    pub orchard_activation_height: Option<u32>,
    pub delay_min_minutes: Option<u32>,
    pub delay_max_minutes: Option<u32>,
    pub reschedule_grace_minutes: Option<u32>,
    pub poll_interval_seconds: Option<u64>,
    pub post_shield_send_address: Option<String>,
    pub post_shield_send_log: Option<String>,
    pub post_shield_send_queue_log: Option<String>,
    pub post_shield_send_delay_min_minutes: Option<u32>,
    pub post_shield_send_delay_max_minutes: Option<u32>,
}

/// The names of the files that the daemon keeps, as the configuration gives them. Relative names
/// are meant below the state directory.
#[derive(Debug, Clone)]
pub struct FileNames {
    pub processed_log: String,
    pub rewards_log: String,
    pub queue_log: String,
    pub log_file: String,
    pub post_shield_send_log: String,
    pub post_shield_send_queue_log: String,
}

/// Where the daemon keeps its files.
#[derive(Debug, Clone)]
pub struct StatePaths {
    pub wallet_dir: String,
    pub processed_log: String,
    pub rewards_log: String,
    pub queue_log: String,
    pub log_file: String,
    pub post_shield_send_log: String,
    pub post_shield_send_queue_log: String,
}

/// A window of minutes out of which a delay is drawn.
#[derive(Debug, Clone, Copy, PartialEq, Eq, Structural)]
pub struct DelayWindow {
    pub min_minutes: u32,
    pub max_minutes: u32,
}

/// The payment that follows every shield.
#[derive(Debug, Clone)]
pub struct PostShieldSend {
    pub address: String,
    pub delay: DelayWindow,
}

/// The configuration of the daemon.
#[derive(Debug, Clone)]
pub struct AutoShieldConfig {
    pub mnemonic: Option<String>,
    pub birthday: u32,
    pub chain: String,
    pub lightwalletd_server: String,
    pub rpc_url: String,
    pub start_height: u32,
    pub confirmations: u32,
    pub paths: StatePaths,
    pub wallet_min_confirmations: u32,
    pub delay: DelayWindow,
    pub reschedule_grace_secs: u64,
    pub poll_interval_secs: u64,
    pub post_shield_send: Option<PostShieldSend>,
}

/// What can be wrong with a configuration.
#[derive(Debug, Clone, Copy, PartialEq, Eq, Structural)]
pub enum ConfigError {
    /// The shortest delay is zero.
    DelayMinZero,
    /// The longest delay is shorter than the shortest.
    DelayMaxBelowMin { max_minutes: u32, min_minutes: u32 },
    /// The shortest delay of the payments after a shield is zero.
    PostShieldDelayMinZero,
    /// The longest delay of the payments after a shield is shorter than the shortest.
    PostShieldDelayMaxBelowMin { max_minutes: u32, min_minutes: u32 },
}

impl DelayWindow {
    pub open spec fn wf(self) -> bool {
        0 < self.min_minutes <= self.max_minutes
    }

    /// Whether a number of seconds is a delay out of the window: whole minutes between the ends,
    /// both included.
    pub open spec fn holds(self, seconds: u64) -> bool {
        exists|minutes: u32|
            self.min_minutes <= minutes <= self.max_minutes && seconds == #[trigger] (minutes
                * 60)
    }

    /// Draws a delay out of the window, in seconds.
    pub fn random_delay_secs(&self) -> (seconds: u64)
        requires
            self.wf(),
        ensures
            self.holds(seconds),
            self.min_minutes * 60 <= seconds <= self.max_minutes * 60,
    {
        let minutes: u32 = random_minutes(self.min_minutes, self.max_minutes);
        assert(minutes * 60 == minutes as u64 * 60);
        minutes as u64 * 60
    }
}

/// `Rng::gen_range` of the generator of `rand::thread_rng`, over a range with both ends
/// included: some number of the range.
#[verifier::external_body]
fn random_minutes(min: u32, max: u32) -> (minutes: u32)
    requires
        min <= max,
    ensures
        min <= minutes <= max,
{
    rand::Rng::gen_range(&mut rand::thread_rng(), min..=max)
}

pub open spec fn or_default(value: Option<u32>, default: u32) -> u32 {
    match value {
        Some(given) => given,
        None => default,
    }
}

/// An override behind the height that a file gives for it, if any.
pub open spec fn override_behind(
    state: HeightOverride,
    height: Option<u32>,
    read: EnvRead,
) -> HeightOverride {
    match height {
        Some(height) => state.after_set(height, read),
        None => state,
    }
}

/// What becomes of the height that a file gives, if any.
pub open spec fn outcome_of(
    state: HeightOverride,
    height: Option<u32>,
    read: EnvRead,
) -> Option<SetOutcome> {
    match height {
        Some(height) => Some(set_outcome(state, height, read)),
        None => None,
    }
}

/// A height that the file gives is in force from then on, whatever the environment holds later,
/// where no height was in force before. Without one, nothing changes.
pub proof fn heights_of_the_file_are_in_force(
    state: HeightOverride,
    height: Option<u32>,
    read: EnvRead,
    later: EnvRead,
)
    ensures
        height is Some && state.in_force(read) is None ==> override_behind(
            state,
            height,
            read,
        ).in_force(later) == height,
        height is None ==> override_behind(state, height, read) == state,
{
}

impl FileConfig {
    /// The window for shields: 200 to 500 minutes where the file gives no other.
    pub open spec fn window(self) -> DelayWindow {
        DelayWindow {
            min_minutes: or_default(self.delay_min_minutes, 200),
            max_minutes: or_default(self.delay_max_minutes, 500),
        }
    }

    /// The window for the payments after a shield: 200 to 14,400 minutes where the file gives no
    /// other.
    pub open spec fn post_shield_window(self) -> DelayWindow {
        DelayWindow {
            min_minutes: or_default(self.post_shield_send_delay_min_minutes, 200),
            max_minutes: or_default(self.post_shield_send_delay_max_minutes, 14_400),
        }
    }

    /// Sets the overrides of the activation heights that the file gives, and leaves the others
    /// alone. Each of `sapling_read` and `orchard_read` is what the environment holds now.
    pub fn set_activation_heights(
        &self,
        overrides: &mut ActivationOverrides,
        sapling_read: &EnvRead,
        orchard_read: &EnvRead,
    ) -> (outcomes: (Option<SetOutcome>, Option<SetOutcome>))
        ensures
            final(overrides).sapling == override_behind(
                old(overrides).sapling,
                self.sapling_activation_height,
                *sapling_read,
            ),
            final(overrides).orchard == override_behind(
                old(overrides).orchard,
                self.orchard_activation_height,
                *orchard_read,
            ),
            outcomes.0 == outcome_of(
                old(overrides).sapling,
                self.sapling_activation_height,
                *sapling_read,
            ),
            outcomes.1 == outcome_of(
                old(overrides).orchard,
                self.orchard_activation_height,
                *orchard_read,
            ),
    {
        let sapling = match self.sapling_activation_height {
            Some(height) => Some(set_sapling_activation_height(overrides, height, sapling_read)),
            None => None,
        };
        let orchard = match self.orchard_activation_height {
            Some(height) => Some(set_orchard_activation_height(overrides, height, orchard_read)),
            None => None,
        };
        (sapling, orchard)
    }

    /// What is wrong with the file, if anything.
    pub open spec fn error(self) -> Option<ConfigError> {
        let window = self.window();
        let post = self.post_shield_window();
        if window.min_minutes == 0 {
            Some(ConfigError::DelayMinZero)
        } else if window.max_minutes < window.min_minutes {
            Some(
                ConfigError::DelayMaxBelowMin {
                    max_minutes: window.max_minutes,
                    min_minutes: window.min_minutes,
                },
            )
        } else if self.post_shield_send_address is None {
            None
        } else if post.min_minutes == 0 {
            Some(ConfigError::PostShieldDelayMinZero)
        } else if post.max_minutes < post.min_minutes {
            Some(
                ConfigError::PostShieldDelayMaxBelowMin {
                    max_minutes: post.max_minutes,
                    min_minutes: post.min_minutes,
                },
            )
        } else {
            None
        }
    }
}

impl AutoShieldConfig {
    pub open spec fn wf(self) -> bool {
        &&& self.delay.wf()
        &&& self.confirmations >= 1
        &&& self.poll_interval_secs >= 1
        &&& self.post_shield_send matches Some(send) ==> send.delay.wf()
    }

    /// Checks a configuration file and completes it with the defaults.
    pub fn from_file_config(file: FileConfig, paths: StatePaths) -> (config: Result<
        AutoShieldConfig,
        ConfigError,
    >)
        ensures
            match config {
                Err(error) => file.error() == Some(error),
                Ok(config) => {
                    &&& file.error() is None
                    &&& config.wf()
                    &&& config.mnemonic == (if file.mnemonic is Some && !is_blank(
                        file.mnemonic->0@,
                    ) {
                        file.mnemonic
                    } else {
                        None
                    })
                    &&& config.birthday == file.birthday
                    &&& config.chain == file.chain
                    &&& config.lightwalletd_server == file.lightwalletd_server
                    &&& config.rpc_url == file.rpc_url
                    &&& config.start_height == file.start_height
                    &&& config.confirmations == (if file.confirmations == 0 {
                        1
                    } else {
                        file.confirmations
                    })
                    &&& config.paths == paths
                    &&& config.wallet_min_confirmations == WALLET_MIN_CONFIRMATIONS
                    &&& config.delay == file.window()
                    &&& config.reschedule_grace_secs == or_default(
                        file.reschedule_grace_minutes,
                        5,
                    ) * 60
                    &&& config.poll_interval_secs == (match file.poll_interval_seconds {
                        None => 60,
                        Some(0) => 1,
                        Some(seconds) => seconds,
                    })
                    &&& match file.post_shield_send_address {
                        None => config.post_shield_send is None,
                        Some(address) => config.post_shield_send == Some(
                            PostShieldSend { address, delay: file.post_shield_window() },
                        ),
                    }
                },
            },
    {
        let delay = DelayWindow {
            min_minutes: file.delay_min_minutes.unwrap_or(200),
            max_minutes: file.delay_max_minutes.unwrap_or(500),
        };
        if delay.min_minutes == 0 {
            return Err(ConfigError::DelayMinZero);
        }
        if delay.max_minutes < delay.min_minutes {
            return Err(
                ConfigError::DelayMaxBelowMin {
                    max_minutes: delay.max_minutes,
                    min_minutes: delay.min_minutes,
                },
            );
        }
        let post_delay = DelayWindow {
            min_minutes: file.post_shield_send_delay_min_minutes.unwrap_or(200),
            max_minutes: file.post_shield_send_delay_max_minutes.unwrap_or(14_400),
        };
        if file.post_shield_send_address.is_some() {
            if post_delay.min_minutes == 0 {
                return Err(ConfigError::PostShieldDelayMinZero);
            }
            if post_delay.max_minutes < post_delay.min_minutes {
                return Err(
                    ConfigError::PostShieldDelayMaxBelowMin {
                        max_minutes: post_delay.max_minutes,
                        min_minutes: post_delay.min_minutes,
                    },
                );
            }
        }
        let post_shield_send = match file.post_shield_send_address {
            Some(address) => Some(PostShieldSend { address, delay: post_delay }),
            None => None,
        };
        let grace_minutes: u32 = file.reschedule_grace_minutes.unwrap_or(5);
        let poll_interval: u64 = file.poll_interval_seconds.unwrap_or(60);
        let mnemonic = match file.mnemonic {
            Some(phrase) => {
                proof {
                    trimmed_is_empty_iff_blank(phrase@);
                }
                if trim_text(phrase.as_str()).is_empty() {
                    None
                } else {
                    Some(phrase)
                }
            },
            None => None,
        };
        Ok(
            AutoShieldConfig {
                mnemonic,
                birthday: file.birthday,
                chain: file.chain,
                lightwalletd_server: file.lightwalletd_server,
                rpc_url: file.rpc_url,
                start_height: file.start_height,
                confirmations: if file.confirmations == 0 {
                    1
                } else {
                    file.confirmations
                },
                paths,
                wallet_min_confirmations: WALLET_MIN_CONFIRMATIONS,
                delay,
                reschedule_grace_secs: grace_minutes as u64 * 60,
                poll_interval_secs: if poll_interval == 0 {
                    1
                } else {
                    poll_interval
                },
                post_shield_send,
            },
        )
    }

    /// Takes the mnemonic phrase out of the configuration, without the white space around it. The
    /// configuration holds none then.
    pub fn take_phrase(&mut self) -> (phrase: Option<String>)
        ensures
            *final(self) == (AutoShieldConfig { mnemonic: None, ..*old(self) }),
            is_phrase_of(old(self).mnemonic, phrase),
    {
        let mut mnemonic: Option<String> = None;
        std::mem::swap(&mut mnemonic, &mut self.mnemonic);
        configured_phrase(mnemonic)
    }

    /// Draws the delay of a shield, in seconds.
    pub fn random_delay_secs(&self) -> (seconds: u64)
        requires
            self.wf(),
        ensures
            self.delay.holds(seconds),
            self.delay.min_minutes * 60 <= seconds <= self.delay.max_minutes * 60,
    {
        self.delay.random_delay_secs()
    }
}

} // verus!
