//! How a sensor's numeric state is to be interpreted over time.
use vstd::prelude::*;

verus! {

/// https://developers.home-assistant.io/docs/core/entity/sensor/#available-state-classes
#[derive(Clone, Copy, Debug, Eq, PartialEq, Structural)]
pub enum StateClass {
    Measurement,
    Total,
    TotalIncreasing,
}

impl StateClass {
    /// The name this value is published under in a discovery payload.
    pub open spec fn spec_name(&self) -> Seq<char> {
        match self {
            StateClass::Measurement => "measurement"@,
            StateClass::Total => "total"@,
            StateClass::TotalIncreasing => "total_increasing"@,
        }
    }

    /// The published name, in place of a serializer.
    pub fn as_str(&self) -> (r: &'static str)
        ensures
            r@ == self.spec_name(),
    {
        match self {
            StateClass::Measurement => "measurement",
            StateClass::Total => "total",
            StateClass::TotalIncreasing => "total_increasing",
        }
    }
}

} // verus!
