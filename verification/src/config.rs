//! The runtime configuration of the daemon and its validation.
use crate::text::{is_blank, is_blank_str};
use vstd::prelude::*;
use vstd::string::*;

verus! {

/// The media provider that the user selected.
#[derive(Debug, Clone, Copy, PartialEq, Eq, Structural)]
pub enum ProviderKind {
    Browser,
    System,
}

/// Settings of the system provider.
#[derive(Debug, Clone, Default, PartialEq, Eq)]
pub struct SystemConfig {
    /// On Linux, the MPRIS bus name of the player to observe.
    pub player: Option<String>,
}

/// Settings of the Discord publisher.
#[derive(Debug, Clone, Default, PartialEq, Eq)]
pub struct DiscordConfig {
    pub client_id: Option<String>,
}

/// The whole runtime configuration.
#[derive(Debug, Clone, PartialEq, Eq)]
pub struct RuntimeConfig {
    pub provider: ProviderKind,
    pub system: SystemConfig,
    pub discord: DiscordConfig,
}

/// Why the configuration cannot be used.
#[derive(Debug, Clone, PartialEq, Eq)]
pub enum ConfigError {
    /// The configuration file could not be read.
    Read { path: String, reason: String },
    /// The configuration file is not valid TOML for a configuration.
    Parse { path: String, reason: String },
    /// The system provider on Linux has no player to observe.
    MissingSystemPlayer,
    /// No Discord client id is configured.
    MissingDiscordClientId,
}

/// Whether an optional text is absent or blank.
pub open spec fn absent_or_blank(o: Option<String>) -> bool {
    match o {
        Some(s) => is_blank(s@),
        None => true,
    }
}

fn absent_or_blank_text(o: &Option<String>) -> (b: bool)
    ensures
        b == absent_or_blank(*o),
{
    match o {
        Some(s) => is_blank_str(s.as_str()),
        None => true,
    }
}

/// The Discord client id in force: the configured one, else the one from
/// the environment.
pub open spec fn client_id_of(config: RuntimeConfig, env_client_id: Option<String>) -> Option<String> {
    match config.discord.client_id {
        Some(id) => Some(id),
        None => env_client_id,
    }
}

/// What validation finds: on Linux the system provider needs a player, and
/// a Discord client id is always needed, checked in that order.
pub open spec fn validation_of(config: RuntimeConfig, env_client_id: Option<String>, on_linux: bool) -> Result<(), ConfigError> {
    if config.provider == ProviderKind::System && on_linux && absent_or_blank(config.system.player) {
        Err(ConfigError::MissingSystemPlayer)
    } else if absent_or_blank(client_id_of(config, env_client_id)) {
        Err(ConfigError::MissingDiscordClientId)
    } else {
        Ok(())
    }
}

impl RuntimeConfig {
    /// The Discord client id in force: `discord.client_id`, else the value
    /// of `SONATA_DISCORD_CLIENT_ID` that the caller read from the
    /// environment.
    pub fn discord_client_id(&self, env_client_id: &Option<String>) -> (id: Option<String>)
        ensures
            id == client_id_of(*self, *env_client_id),
    {
        match &self.discord.client_id {
            Some(id) => Some(id.clone()),
            None => env_client_id.clone(),
        }
    }

    /// Checks that the configuration can be used; `on_linux` tells whether
    /// the daemon runs on Linux, where the system provider needs a player.
    pub fn validate(&self, env_client_id: &Option<String>, on_linux: bool) -> (r: Result<(), ConfigError>)
        ensures
            r == validation_of(*self, *env_client_id, on_linux),
    {
        if self.provider == ProviderKind::System && on_linux && absent_or_blank_text(&self.system.player) {
            return Err(ConfigError::MissingSystemPlayer);
        }
        if absent_or_blank_text(&self.discord_client_id(env_client_id)) {
            return Err(ConfigError::MissingDiscordClientId);
        }
        Ok(())
    }
}

impl ConfigError {
    /// The text that describes this error, as its `Display` would.
    pub fn message(&self) -> (s: String)
        ensures
            self is MissingSystemPlayer ==> s@ == "the selected provider requires system.player to be set on Linux"@,
            self is MissingDiscordClientId ==> s@ == "discord client id is missing; set discord.client_id or SONATA_DISCORD_CLIENT_ID"@,
            self matches ConfigError::Read { path, reason } ==> s@ == "could not read runtime config at "@ + path@ + ": "@ + reason@,
            self matches ConfigError::Parse { path, reason } ==> s@ == "could not parse runtime config at "@ + path@ + ": "@ + reason@,
    {
        match self {
            ConfigError::Read { path, reason } => String::from_str("could not read runtime config at ").concat(path.as_str()).concat(": ").concat(reason.as_str()),
            ConfigError::Parse { path, reason } => String::from_str("could not parse runtime config at ").concat(path.as_str()).concat(": ").concat(reason.as_str()),
            ConfigError::MissingSystemPlayer => String::from_str("the selected provider requires system.player to be set on Linux"),
            ConfigError::MissingDiscordClientId => String::from_str("discord client id is missing; set discord.client_id or SONATA_DISCORD_CLIENT_ID"),
        }
    }
}

/// A configuration with a player and a client id, neither blank, is
/// accepted; the missing-player error comes only for the system provider on
/// Linux without a player, and the missing-id error only without a client
/// id; the configured id wins over the environment's.
pub proof fn lemma_validation_exactly(config: RuntimeConfig, env_client_id: Option<String>, on_linux: bool)
    ensures
        absent_or_blank(config.system.player) <==> (config.system.player is None || is_blank(
            config.system.player->0@,
        )),
        config.discord.client_id is Some ==> client_id_of(config, env_client_id) == config.discord.client_id,
        config.discord.client_id is None ==> client_id_of(config, env_client_id) == env_client_id,
        !absent_or_blank(config.system.player) && !absent_or_blank(client_id_of(config, env_client_id))
            ==> validation_of(config, env_client_id, on_linux) == Ok::<(), ConfigError>(()),
        config.provider == ProviderKind::Browser && !absent_or_blank(client_id_of(config, env_client_id))
            ==> validation_of(config, env_client_id, on_linux) == Ok::<(), ConfigError>(()),
        !on_linux && !absent_or_blank(client_id_of(config, env_client_id)) ==> validation_of(
            config,
            env_client_id,
            on_linux,
        ) == Ok::<(), ConfigError>(()),
        validation_of(config, env_client_id, on_linux) == Err::<(), ConfigError>(ConfigError::MissingSystemPlayer)
            ==> config.provider == ProviderKind::System && on_linux && absent_or_blank(config.system.player),
        validation_of(config, env_client_id, on_linux) == Err::<(), ConfigError>(ConfigError::MissingDiscordClientId)
            ==> absent_or_blank(client_id_of(config, env_client_id)),
        validation_of(config, env_client_id, on_linux) is Ok ==> !absent_or_blank(client_id_of(config, env_client_id)),
{
}

} // verus!
