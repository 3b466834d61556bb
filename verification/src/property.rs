//! The properties of the display device that the applet observes.

use vstd::prelude::*;

verus! {

/// An observed property of the display device.
#[derive(Clone, Copy, Debug, PartialEq, Eq, Structural)]
pub enum Property {
    IconName,
    Percentage,
    TimeToEmpty,
}

impl Property {
    /// The name under which the power service publishes the property.
    pub open spec fn bus_name(self) -> Seq<char> {
        match self {
            Property::IconName => "IconName"@,
            Property::Percentage => "Percentage"@,
            Property::TimeToEmpty => "TimeToEmpty"@,
        }
    }

    /// The name under which the power service publishes the property.
    pub fn name(self) -> (name: &'static str)
        ensures
            name@ == self.bus_name(),
    {
        match self {
            Property::IconName => "IconName",
            Property::Percentage => "Percentage",
            Property::TimeToEmpty => "TimeToEmpty",
        }
    }
}

} // verus!
