//! The settings of the process and the rule that they must meet.

use vstd::prelude::*;

verus! {

/// Why the settings could not be had.
#[derive(Clone, Copy, Debug, PartialEq, Eq)]
pub enum ConfigError {
    /// The settings contradict each other.
    Invalid(&'static str),
}

/// The settings, as the text they were given in.
pub struct Settings {
    pub bot_token: String,
    pub forum_id: i64,
    pub sqlite_path: String,
    pub redis_url: String,
    pub webhook_url: Option<String>,
    pub webhook_listener: Option<String>,
}

/// What `validate` says of a webhook without a listener.
pub open spec fn webhook_without_listener() -> Seq<char> {
    "WEBHOOK_URL is set, but the address that the bot will listen to (WEBHOOK_LISTENER) is not"@
}

impl Settings {
    /// Whether the settings agree with each other: a webhook needs the
    /// address to listen on.
    pub open spec fn valid(&self) -> bool {
        self.webhook_url.is_some() ==> self.webhook_listener.is_some()
    }

    /// Hands the settings back where they are valid.
    pub fn validate(self) -> (r: Result<Settings, ConfigError>)
        ensures
            self.valid() ==> r == Ok::<Settings, ConfigError>(self),
            !self.valid() ==> (r matches Err(ConfigError::Invalid(why)) && why@
                == webhook_without_listener()),
    {
        if self.webhook_url.is_some() && self.webhook_listener.is_none() {
            proof {
                reveal_strlit(
                    "WEBHOOK_URL is set, but the address that the bot will listen to (WEBHOOK_LISTENER) is not",
                );
            }
            return Err(
                ConfigError::Invalid(
                    "WEBHOOK_URL is set, but the address that the bot will listen to (WEBHOOK_LISTENER) is not",
                ),
            );
        }
        Ok(self)
    }
}

} // verus!
