//! The fixed tokens of the hub's discovery convention.

use vstd::prelude::*;

verus! {

/// First segment of every discovery topic.
pub const HA_DISCOVERY_PREFIX: &'static str = "homeassistant";

pub const HA_DOMAIN_SENSOR: &'static str = "sensor";

pub const HA_DOMAIN_NUMBER: &'static str = "number";

pub const HA_DEVICE_CLASS_SENSOR_TEMPERATURE: &'static str = "temperature";

pub const HA_STATE_CLASS_MEASUREMENT: &'static str = "measurement";

pub const HA_STATE_CLASS_TOTAL: &'static str = "total";

pub const HA_STATE_CLASS_TOTAL_INCREASING: &'static str = "total_increasing";

} // verus!
