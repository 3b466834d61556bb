//! Reads of the display device's cached properties.
//!
//! The device is a `zbus::Proxy` that keeps a local copy of the remote
//! object's properties.  What a read gives depends on what the bus has
//! delivered so far, so nothing is claimed here about any outcome: the
//! rules in [`crate::snapshot`] hold for every one of them.
//!
//! The three readers are not verified: each is one call into zbus and the
//! sorting of its result.  Each asks for the name of its own property.
//! zbus panics in these calls if the cache's lock is poisoned.

use vstd::prelude::*;
use crate::percent::Percent;
use crate::property::Property;
use crate::snapshot::{ReadOutcome, Readings};

verus! {

/// `zbus::Proxy`, held and handed on as an opaque value.
#[verifier::external_type_specification]
#[verifier::external_body]
pub struct ExProxy<'a>(zbus::Proxy<'a>);

/// Reads the icon's name with `zbus::Proxy::cached_property`: a value if a
/// string is cached under `name`, absent if nothing is, else failed.
#[verifier::external_body]
fn cached_text(device: &zbus::Proxy<'static>, name: &str) -> (outcome: ReadOutcome<String>)
    requires
        name@ == Property::IconName.bus_name(),
{
    match device.cached_property::<String>(name) {
        Ok(Some(value)) => ReadOutcome::Value(value),
        Ok(None) => ReadOutcome::Absent,
        Err(_) => ReadOutcome::Failed,
    }
}

/// Reads the time to empty with `zbus::Proxy::cached_property`: a value
/// if the cache holds a signed 64-bit integer under `name`, absent if it
/// holds nothing there, failed if zbus reports an error.
#[verifier::external_body]
fn cached_seconds(device: &zbus::Proxy<'static>, name: &str) -> (outcome: ReadOutcome<i64>)
    requires
        name@ == Property::TimeToEmpty.bus_name(),
{
    match device.cached_property::<i64>(name) {
        Ok(Some(value)) => ReadOutcome::Value(value),
        Ok(None) => ReadOutcome::Absent,
        Err(_) => ReadOutcome::Failed,
    }
}

/// Reads the percentage with `zbus::Proxy::cached_property_raw`, by its
/// bits: a value if the cache holds a double under `name`, absent if it
/// holds nothing there, failed if it holds a value of another type.
#[verifier::external_body]
fn cached_percent(device: &zbus::Proxy<'static>, name: &str) -> (outcome: ReadOutcome<Percent>)
    requires
        name@ == Property::Percentage.bus_name(),
{
    match device.cached_property_raw(name).as_deref() {
        Some(zbus::Variant::F64(value)) => ReadOutcome::Value(Percent { bits: value.to_bits() }),
        Some(_) => ReadOutcome::Failed,
        None => ReadOutcome::Absent,
    }
}

/// Reads the three observed properties from the device's cache, each under
/// its own name and each on its own: no read has a bearing on another.
pub(crate) fn read_properties(device: &zbus::Proxy<'static>) -> Readings {
    let percentage = cached_percent(device, Property::Percentage.name());
    let icon_name = cached_text(device, Property::IconName.name());
    let time_to_empty = cached_seconds(device, Property::TimeToEmpty.name());
    Readings { icon_name, percentage, time_to_empty }
}

} // verus!
