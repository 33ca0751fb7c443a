//! The categories an entity can be filed under.
use vstd::prelude::*;

verus! {

/// https://developers.home-assistant.io/docs/core/entity/#generic-properties
#[derive(Clone, Copy, Debug, Eq, PartialEq, Structural)]
pub enum EntityCategory {
    Config,
    Diagnostic,
}

impl EntityCategory {
    /// The name this value is published under in a discovery payload.
    pub open spec fn spec_name(&self) -> Seq<char> {
        match self {
            EntityCategory::Config => "config"@,
            EntityCategory::Diagnostic => "diagnostic"@,
        }
    }

    /// The published name, in place of a serializer.
    pub fn as_str(&self) -> (r: &'static str)
        ensures
            r@ == self.spec_name(),
    {
        match self {
            EntityCategory::Config => "config",
            EntityCategory::Diagnostic => "diagnostic",
        }
    }
}

} // verus!
