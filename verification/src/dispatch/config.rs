//! Settings of the providers that the library knows.
use crate::config::AxleConfig;
use vstd::prelude::*;

verus! {

/// Provider-specific configuration stays inside the library.
#[derive(Debug)]
pub struct ProviderConfig {
    pub axle: AxleConfig,
}

impl Clone for ProviderConfig {
    fn clone(&self) -> (r: ProviderConfig)
        ensures
            r == *self,
    {
        ProviderConfig {
            axle: self.axle.clone(),
        }
    }
}

impl Default for ProviderConfig {
    fn default() -> (r: ProviderConfig)
        ensures
            r.axle.is_default(),
    {
        ProviderConfig { axle: AxleConfig::default() }
    }
}

impl ProviderConfig {
    /// Check the settings of every provider.
    pub fn validate(&self) -> (r: Result<(), String>)
        ensures
            r is Ok <==> self.axle.is_usable(),
            r matches Err(message) ==> message@ == self.axle.complaint(),
    {
        self.axle.validate()
    }

    /// Events are dispatched here: the feed is enabled and the member opted in.
    pub open spec fn is_local(self) -> bool {
        self.axle.enabled && self.axle.self_dispatch
    }

    /// Whether events are dispatched here, as a snapshot reports it.
    pub fn self_dispatch(&self) -> (r: bool)
        ensures
            r == self.is_local(),
    {
        self.axle.enabled && self.axle.self_dispatch
    }
}

} // verus!
