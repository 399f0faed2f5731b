//! The Paradise feature, switched on.

use crate::paradise::config::{Config, ConfigView};
use vstd::prelude::*;

verus! {

/// The feature with its configuration. The kernel, which every component
/// shares, is handed to the feature's functions beside it.
pub struct Service {
    config: Config,
}

impl View for Service {
    type V = ConfigView;

    closed spec fn view(&self) -> ConfigView {
        self.config@
    }
}

impl Clone for Service {
    fn clone(&self) -> (copy: Self)
        ensures
            copy@ == self@,
    {
        Service { config: self.config.clone() }
    }
}

impl Service {
    /// The feature with this configuration.
    pub fn new(config: Config) -> (service: Service)
        ensures
            service@ == config@,
    {
        Service { config }
    }

    /// The feature's configuration.
    pub fn config(&self) -> (config: &Config)
        ensures
            config@ == self@,
    {
        &self.config
    }
}

} // verus!
