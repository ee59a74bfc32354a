//! Startup configuration: the externally supplied credentials and
//! identifiers, read once, and the fixed daily trigger time.

use vstd::prelude::*;
use crate::errors::ConfigError;

verus! {

/// Everything the engine is configured with. The tokens and identifiers
/// are opaque to the core and never mutated.
pub struct Config {
    pub calendar_token: String,
    pub tracked_user: String,
    pub messaging_token: String,
    pub recipient: String,
    pub trigger_hour: u32,
    pub trigger_minute: u32,
}

impl Config {
    /// The configured trigger time is a valid wall-clock time of day.
    pub open spec fn wf(self) -> bool {
        self.trigger_hour < 24 && self.trigger_minute < 60
    }
}

/// Assemble the configuration from what was supplied at startup. Succeeds
/// exactly when every required credential and identifier is present;
/// otherwise the process must not start.
pub fn build_config(
    calendar_token: Option<String>,
    tracked_user: Option<String>,
    messaging_token: Option<String>,
    recipient: Option<String>,
    trigger_hour: u32,
    trigger_minute: u32,
) -> (r: Result<Config, ConfigError>)
    requires
        trigger_hour < 24,
        trigger_minute < 60,
    ensures
        r is Ok <==> (calendar_token is Some && tracked_user is Some && messaging_token is Some
            && recipient is Some),
        r matches Ok(c) ==> calendar_token == Some(c.calendar_token) && tracked_user == Some(
            c.tracked_user,
        ) && messaging_token == Some(c.messaging_token) && recipient == Some(c.recipient)
            && c.trigger_hour == trigger_hour && c.trigger_minute == trigger_minute && c.wf(),
        r matches Err(e) ==> e == ConfigError::ConfigurationMissing,
{
    let ct = match calendar_token {
        Some(s) => s,
        None => {
            return Err(ConfigError::ConfigurationMissing);
        },
    };
    let tu = match tracked_user {
        Some(s) => s,
        None => {
            return Err(ConfigError::ConfigurationMissing);
        },
    };
    let mt = match messaging_token {
        Some(s) => s,
        None => {
            return Err(ConfigError::ConfigurationMissing);
        },
    };
    let rc = match recipient {
        Some(s) => s,
        None => {
            return Err(ConfigError::ConfigurationMissing);
        },
    };
    Ok(
        Config {
            calendar_token: ct,
            tracked_user: tu,
            messaging_token: mt,
            recipient: rc,
            trigger_hour,
            trigger_minute,
        },
    )
}

} // verus!
