//! What the bot needs before it may start.

use vstd::prelude::*;

verus! {

/// Why the bot cannot start.
#[derive(Clone, Copy, Debug, PartialEq, Eq, Structural)]
pub enum ConfigError {
    /// The environment holds no bot token.
    MissingToken,
}

/// The configuration the bot runs with.
#[derive(Clone, Debug, PartialEq, Eq)]
pub struct BotConfig {
    /// The secret that authenticates the bot to the chat platform.
    pub token: String,
}

/// The variable of the process environment that holds the bot token.
pub const TOKEN_VARIABLE: &'static str = "TELOXIDE_TOKEN";

/// The audio file, beside the running bot, that is sent in reply to every
/// voice message.
pub const REPLY_AUDIO_FILE: &'static str = "reply.ogg";

impl ConfigError {
    /// The failure in words, for the operator.
    pub fn message(&self) -> (text: &'static str)
        ensures
            text@ == "TELOXIDE_TOKEN is empty"@,
    {
        match self {
            ConfigError::MissingToken => "TELOXIDE_TOKEN is empty",
        }
    }
}

impl BotConfig {
    /// Builds the configuration from what the environment held under
    /// [`TOKEN_VARIABLE`], read once at startup: `None` where the variable
    /// was not set. Without a token there is no configuration, and the bot
    /// must not begin to take messages.
    pub fn from_token(token: Option<String>) -> (config: Result<BotConfig, ConfigError>)
        ensures
            match token {
                Some(secret) => config == Ok::<BotConfig, ConfigError>(BotConfig { token: secret }),
                None => config == Err::<BotConfig, ConfigError>(ConfigError::MissingToken),
            },
    {
        match token {
            Some(secret) => Ok(BotConfig { token: secret }),
            None => Err(ConfigError::MissingToken),
        }
    }
}

} // verus!
