//! Where the HTTP interface listens.

use crate::env_vars::ReadVarError;
use crate::views::result_view;
use vstd::prelude::*;

verus! {

/// An internet address, held as the bits of its number.
#[derive(Debug, Clone, Copy, PartialEq, Eq)]
pub enum IpAddress {
    /// The 32 bits of an IPv4 address.
    V4(u32),
    /// The 128 bits of an IPv6 address.
    V6(u128),
}

/// Address and port of the HTTP interface.
#[derive(Debug, Clone, Copy, PartialEq, Eq)]
pub struct ApiConfig {
    address: IpAddress,
    port: u16,
}

/// The configuration of the HTTP interface could not be loaded.
#[derive(Debug, Clone, Copy, PartialEq, Eq)]
pub struct ApiConfigLoadError;

impl ApiConfigLoadError {
    /// The message of the error.
    pub fn to_string(&self) -> (message: String)
        ensures
            message@ == "Could not load memobot API configuration"@,
    {
        "Could not load memobot API configuration".to_owned()
    }
}

/// Port of the HTTP interface where none is configured.
pub const DEFAULT_API_PORT: u16 = 6500;

impl View for ApiConfig {
    type V = (IpAddress, u16);

    closed spec fn view(&self) -> (IpAddress, u16) {
        (self.address, self.port)
    }
}

impl ApiConfig {
    /// The configuration that two looked-up variables give.
    pub open spec fn from_env_spec(
        address: Result<Option<IpAddress>, ReadVarError>,
        port: Result<Option<u16>, ReadVarError>,
    ) -> Result<(IpAddress, u16), ApiConfigLoadError> {
        match (address, port) {
            (Ok(address), Ok(port)) => Ok(
                (
                    match address {
                        Some(address) => address,
                        None => IpAddress::V4(0),
                    },
                    match port {
                        Some(port) => port,
                        None => DEFAULT_API_PORT,
                    },
                ),
            ),
            _ => Err(ApiConfigLoadError),
        }
    }

    /// The configuration of the HTTP interface, from the variables for its
    /// address and its port as they were looked up. A missing address is
    /// `0.0.0.0`, a missing port 6500; a variable that could not be read or
    /// parsed fails the load.
    pub fn from_env(
        address: Result<Option<IpAddress>, ReadVarError>,
        port: Result<Option<u16>, ReadVarError>,
    ) -> (config: Result<ApiConfig, ApiConfigLoadError>)
        ensures
            config is Ok <==> address is Ok && port is Ok,
            result_view(config) == Self::from_env_spec(address, port),
    {
        let address = match address {
            Ok(Some(address)) => address,
            Ok(None) => IpAddress::V4(0),
            Err(_) => { return Err(ApiConfigLoadError); },
        };
        let port = match port {
            Ok(Some(port)) => port,
            Ok(None) => DEFAULT_API_PORT,
            Err(_) => { return Err(ApiConfigLoadError); },
        };
        Ok(ApiConfig { address, port })
    }

    /// The address on which the interface listens.
    pub fn address(&self) -> (address: IpAddress)
        ensures
            address == self@.0,
    {
        self.address
    }

    /// The port on which the interface listens.
    pub fn port(&self) -> (port: u16)
        ensures
            port == self@.1,
    {
        self.port
    }
}

} // verus!
