//! The secrets the relay needs before it may start.

use vstd::prelude::*;
use vstd::string::StringExecFns;

verus! {

/// One of the required secrets.
#[derive(Clone, Copy, Debug, PartialEq, Eq)]
pub enum Secret {
    /// The session token of the chat platform.
    DiscordToken,
    /// The API key of the link shortener.
    ShortenerKey,
    /// The bearer token of the notification service.
    NotifyToken,
}

/// All secrets, each present.
#[derive(Clone, Debug, PartialEq, Eq)]
pub struct Secrets {
    pub discord_token: String,
    pub shortener_key: String,
    pub notify_token: String,
}

/// The name of the variable that holds a secret.
pub open spec fn variable_name(secret: Secret) -> Seq<char> {
    match secret {
        Secret::DiscordToken => "DISCORD_TOKEN"@,
        Secret::ShortenerKey => "XGD_API_KEY"@,
        Secret::NotifyToken => "NOTIFY_TOKEN"@,
    }
}

/// What is said when a secret is missing.
pub open spec fn missing_text(secret: Secret) -> Seq<char> {
    match secret {
        Secret::DiscordToken => "Failed getting DISCORD_TOKEN "@,
        Secret::ShortenerKey => "Expected an API key in the environment"@,
        Secret::NotifyToken => "Failed getting NOTIFY_TOKEN"@,
    }
}

/// The first secret that is missing, in the order session token, shortener
/// key, notification token; `None` where all are present.
pub open spec fn first_missing(
    discord_token: Option<String>,
    shortener_key: Option<String>,
    notify_token: Option<String>,
) -> Option<Secret> {
    if discord_token is None {
        Some(Secret::DiscordToken)
    } else if shortener_key is None {
        Some(Secret::ShortenerKey)
    } else if notify_token is None {
        Some(Secret::NotifyToken)
    } else {
        None
    }
}

impl Secret {
    /// The name of the variable that holds this secret.
    pub fn variable(&self) -> (name: &'static str)
        ensures
            name@ == variable_name(*self),
    {
        match self {
            Secret::DiscordToken => "DISCORD_TOKEN",
            Secret::ShortenerKey => "XGD_API_KEY",
            Secret::NotifyToken => "NOTIFY_TOKEN",
        }
    }

    /// What to say when this secret is missing.
    pub fn missing_message(&self) -> (text: String)
        ensures
            text@ == missing_text(*self),
    {
        match self {
            Secret::DiscordToken => String::from_str("Failed getting DISCORD_TOKEN "),
            Secret::ShortenerKey => String::from_str("Expected an API key in the environment"),
            Secret::NotifyToken => String::from_str("Failed getting NOTIFY_TOKEN"),
        }
    }
}

/// Gathers the secrets from the values found for them. The relay may only
/// start when each is present; otherwise the first missing one is named.
pub fn load(
    discord_token: Option<String>,
    shortener_key: Option<String>,
    notify_token: Option<String>,
) -> (loaded: Result<Secrets, Secret>)
    ensures
        match loaded {
            Ok(secrets) => {
                &&& discord_token == Some(secrets.discord_token)
                &&& shortener_key == Some(secrets.shortener_key)
                &&& notify_token == Some(secrets.notify_token)
            },
            Err(missing) => first_missing(discord_token, shortener_key, notify_token) == Some(
                missing,
            ),
        },
{
    let discord_token = match discord_token {
        Some(value) => value,
        None => {
            return Err(Secret::DiscordToken);
        },
    };
    let shortener_key = match shortener_key {
        Some(value) => value,
        None => {
            return Err(Secret::ShortenerKey);
        },
    };
    let notify_token = match notify_token {
        Some(value) => value,
        None => {
            return Err(Secret::NotifyToken);
        },
    };
    Ok(Secrets { discord_token, shortener_key, notify_token })
}

} // verus!
