//! Settings for the connection to the message broker.
use vstd::prelude::*;

verus! {

use core::time::Duration;

/// How to reach and identify against the broker, and how the client
/// behaves once connected.
#[derive(Clone, Debug)]
pub struct MqttConfig {
    pub host: String,
    pub port: u16,
    pub client_id: String,
    pub credentials: Option<Credentials>,
    pub keepalive: Duration,
    pub capacity: usize,
    pub topic_prefix: String,
}

/// The account the client signs in with.
#[derive(Clone, Debug)]
pub struct Credentials {
    pub username: String,
    pub password: String,
}

/// Relies on the std Clone for core::time::Duration, a Copy type:
/// cloning gives the value itself; vstd leaves it unspecified.
pub assume_specification[ <core::time::Duration as core::clone::Clone>::clone ](
    v: &core::time::Duration,
) -> (r: core::time::Duration)
    ensures
        r == *v,
;

/// Relies on core::time::Duration::from_secs: a duration of the given
/// number of whole seconds; vstd leaves Duration unspecified.
pub assume_specification[ core::time::Duration::from_secs ](
    secs: u64,
) -> core::time::Duration;

/// The keep-alive interval used when the settings name none: thirty
/// seconds.
pub fn default_keepalive() -> Duration {
    Duration::from_secs(30)
}

/// The event-channel capacity used when the settings name none.
pub fn default_capacity() -> (n: usize)
    ensures
        n == 10,
{
    10
}

} // verus!
