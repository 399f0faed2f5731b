//! Configuration of the Paradise feature.

use crate::env_vars::ReadVarError;
use crate::id::Id;
use crate::views::result_option_view;
use vstd::prelude::*;
use vstd::string::*;

verus! {

/// Whom to alert, about which game server, and the token that the HTTP
/// interface asks for. It holds that token and so has no `Debug` form.
pub struct Config {
    id: Id,
    alert_channel_id: Id,
    alert_role_id: Id,
    sanctuary_addr: String,
    sanctuary_port: u16,
    token: String,
}

/// The configuration of the feature could not be loaded.
#[derive(Debug, Clone, Copy, PartialEq, Eq)]
pub struct ConfigLoadError;

impl ConfigLoadError {
    /// The message of the error.
    pub fn to_string(&self) -> (message: String)
        ensures
            message@ == "Could not load Paradise configuration"@,
    {
        "Could not load Paradise configuration".to_owned()
    }
}

/// Port of the game server where none is configured.
pub const DEFAULT_SANCTUARY_PORT: u16 = 25565;

/// What a `Config` stands for.
pub struct ConfigView {
    /// The guild of the community.
    pub id: Id,
    /// The channel that alerts are sent to.
    pub alert_channel_id: Id,
    /// The role that alerts mention.
    pub alert_role_id: Id,
    /// Host name of the game server.
    pub sanctuary_addr: Seq<char>,
    /// Port of the game server.
    pub sanctuary_port: u16,
    /// The token that a caller of the HTTP interface presents.
    pub token: Seq<char>,
}

impl View for Config {
    type V = ConfigView;

    closed spec fn view(&self) -> ConfigView {
        ConfigView {
            id: self.id,
            alert_channel_id: self.alert_channel_id,
            alert_role_id: self.alert_role_id,
            sanctuary_addr: self.sanctuary_addr@,
            sanctuary_port: self.sanctuary_port,
            token: self.token@,
        }
    }
}

impl Clone for Config {
    fn clone(&self) -> (copy: Self)
        ensures
            copy@ == self@,
    {
        Config {
            id: self.id,
            alert_channel_id: self.alert_channel_id,
            alert_role_id: self.alert_role_id,
            sanctuary_addr: self.sanctuary_addr.clone(),
            sanctuary_port: self.sanctuary_port,
            token: self.token.clone(),
        }
    }
}

impl Config {
    /// The configuration that the looked-up variables give.
    pub open spec fn from_env_spec(
        id: Result<Option<Id>, ReadVarError>,
        alert_channel_id: Result<Id, ReadVarError>,
        alert_role_id: Result<Id, ReadVarError>,
        sanctuary_addr: Result<String, ReadVarError>,
        sanctuary_port: Result<Option<u16>, ReadVarError>,
        token: Result<String, ReadVarError>,
    ) -> Result<Option<ConfigView>, ConfigLoadError> {
        match id {
            Err(_) => Err(ConfigLoadError),
            Ok(None) => Ok(None),
            Ok(Some(id)) => match (
                alert_channel_id,
                alert_role_id,
                sanctuary_addr,
                sanctuary_port,
                token,
            ) {
                (
                    Ok(alert_channel_id),
                    Ok(alert_role_id),
                    Ok(sanctuary_addr),
                    Ok(sanctuary_port),
                    Ok(token),
                ) => Ok(
                    Some(
                        ConfigView {
                            id,
                            alert_channel_id,
                            alert_role_id,
                            sanctuary_addr: sanctuary_addr@,
                            sanctuary_port: match sanctuary_port {
                                Some(port) => port,
                                None => DEFAULT_SANCTUARY_PORT,
                            },
                            token: token@,
                        },
                    ),
                ),
                _ => Err(ConfigLoadError),
            },
        }
    }

    /// The configuration of the feature, from its variables as they were
    /// looked up. Without a guild the feature is off and there is no
    /// configuration, whatever the other variables hold. With one, every
    /// other variable must have been read and parsed, and all but the port
    /// must be set: a missing port is 25565.
    pub fn from_env(
        id: Result<Option<Id>, ReadVarError>,
        alert_channel_id: Result<Id, ReadVarError>,
        alert_role_id: Result<Id, ReadVarError>,
        sanctuary_addr: Result<String, ReadVarError>,
        sanctuary_port: Result<Option<u16>, ReadVarError>,
        token: Result<String, ReadVarError>,
    ) -> (config: Result<Option<Config>, ConfigLoadError>)
        ensures
            result_option_view(config) == Self::from_env_spec(
                id,
                alert_channel_id,
                alert_role_id,
                sanctuary_addr,
                sanctuary_port,
                token,
            ),
    {
        let id = match id {
            Ok(Some(id)) => id,
            Ok(None) => { return Ok(None); },
            Err(_) => { return Err(ConfigLoadError); },
        };
        let alert_channel_id = match alert_channel_id {
            Ok(found) => found,
            Err(_) => { return Err(ConfigLoadError); },
        };
        let alert_role_id = match alert_role_id {
            Ok(found) => found,
            Err(_) => { return Err(ConfigLoadError); },
        };
        let sanctuary_addr = match sanctuary_addr {
            Ok(found) => found,
            Err(_) => { return Err(ConfigLoadError); },
        };
        let sanctuary_port = match sanctuary_port {
            Ok(Some(port)) => port,
            Ok(None) => DEFAULT_SANCTUARY_PORT,
            Err(_) => { return Err(ConfigLoadError); },
        };
        let token = match token {
            Ok(found) => found,
            Err(_) => { return Err(ConfigLoadError); },
        };
        Ok(
            Some(
                Config {
                    id,
                    alert_channel_id,
                    alert_role_id,
                    sanctuary_addr,
                    sanctuary_port,
                    token,
                },
            ),
        )
    }

    /// The guild of the community.
    pub fn id(&self) -> (id: Id)
        ensures
            id == self@.id,
    {
        self.id
    }

    /// The channel that alerts are sent to.
    pub fn alert_channel_id(&self) -> (id: Id)
        ensures
            id == self@.alert_channel_id,
    {
        self.alert_channel_id
    }

    /// The role that alerts mention.
    pub fn alert_role_id(&self) -> (id: Id)
        ensures
            id == self@.alert_role_id,
    {
        self.alert_role_id
    }

    /// Host name of the game server.
    pub fn sanctuary_addr(&self) -> (addr: &str)
        ensures
            addr@ == self@.sanctuary_addr,
    {
        self.sanctuary_addr.as_str()
    }

    /// Port of the game server.
    pub fn sanctuary_port(&self) -> (port: u16)
        ensures
            port == self@.sanctuary_port,
    {
        self.sanctuary_port
    }

    /// The token that a caller of the HTTP interface presents.
    pub fn token(&self) -> (token: &str)
        ensures
            token@ == self@.token,
    {
        self.token.as_str()
    }
}

} // verus!
