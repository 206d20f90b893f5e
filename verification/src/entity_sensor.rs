//! The temperature sensor: its configuration and the handle through which
//! readings are published.

use vstd::prelude::*;
use crate::constants;
use crate::device::Device;
use crate::entity::{Entity, EntityCommonConfig, EntityConfig};
use crate::model::DeviceView;
use crate::unit::TemperatureUnit;

verus! {

/// How the hub is to treat the succession of a sensor's values.
#[derive(Debug, Default, Clone, Copy, PartialEq, Eq)]
pub enum StateClass {
    #[default]
    Measurement,
    Total,
    TotalIncreasing,
}

impl StateClass {
    /// The token of this class, as the hub's discovery schema spells it.
    pub open spec fn token(self) -> &'static str {
        match self {
            StateClass::Measurement => constants::HA_STATE_CLASS_MEASUREMENT,
            StateClass::Total => constants::HA_STATE_CLASS_TOTAL,
            StateClass::TotalIncreasing => constants::HA_STATE_CLASS_TOTAL_INCREASING,
        }
    }

    pub fn as_str(&self) -> (token: &'static str)
        ensures
            token == self.token(),
    {
        match self {
            StateClass::Measurement => constants::HA_STATE_CLASS_MEASUREMENT,
            StateClass::Total => constants::HA_STATE_CLASS_TOTAL,
            StateClass::TotalIncreasing => constants::HA_STATE_CLASS_TOTAL_INCREASING,
        }
    }
}

/// Configuration of a temperature sensor.
#[derive(Debug, Clone, Copy)]
pub struct TemperatureSensorConfig {
    pub common: EntityCommonConfig,
    pub unit: TemperatureUnit,
}

impl TemperatureSensorConfig {
    /// `config` with what makes it the metadata of this temperature sensor:
    /// the name, the sensor domain, the temperature class and the unit.
    pub open spec fn applied(self, config: EntityConfig) -> EntityConfig {
        EntityConfig {
            name: self.common.name,
            domain: constants::HA_DOMAIN_SENSOR,
            device_class: Some(constants::HA_DEVICE_CLASS_SENSOR_TEMPERATURE),
            measurement_unit: Some(self.unit.token()),
            ..config
        }
    }

    /// Fills an entity's metadata in from this configuration.
    pub fn populate(&self, config: &mut EntityConfig)
        ensures
            *final(config) == self.applied(*old(config)),
    {
        self.common.populate(config);
        config.domain = constants::HA_DOMAIN_SENSOR;
        config.device_class = Some(constants::HA_DEVICE_CLASS_SENSOR_TEMPERATURE);
        config.measurement_unit = Some(self.unit.as_str());
    }
}

/// Handle of a temperature sensor.
#[derive(Debug, Clone, Copy)]
pub struct TemperatureSensor(Entity);

impl TemperatureSensor {
    /// The slot that this handle refers to.
    pub closed spec fn entity(self) -> Entity {
        self.0
    }

    /// Whether this handle refers to a numeric sensor of the device `d`.
    pub open spec fn belongs_to(self, d: DeviceView) -> bool {
        &&& d.has(self.entity().index)
        &&& d.entities[self.entity().index as int].storage is NumericSensor
    }

    pub fn new(entity: Entity) -> (sensor: Self)
        ensures
            sensor.entity() == entity,
    {
        Self(entity)
    }

    /// The index of the sensor's slot in the registry.
    pub fn index(&self) -> (index: usize)
        ensures
            index == self.entity().index,
    {
        self.0.index
    }

    /// Records a reading taken at `timestamp`.
    ///
    /// The reading replaces the stored one in any case. If its bits differ
    /// from those of the stored one, or if none was stored, the sensor is
    /// pending and, unless it already was, joins the end of the publish
    /// queue.
    pub fn publish_at(&mut self, device: &mut Device, temperature: u32, timestamp: u64)
        requires
            old(device)@.wf(),
            old(self).belongs_to(old(device)@),
        ensures
            final(device)@ == old(device)@.publish(
                old(self).entity().index,
                temperature,
                timestamp,
            ),
            final(device)@.wf(),
            old(device)@.grows_into(final(device)@),
            *final(self) == *old(self),
            final(self).belongs_to(final(device)@),
    {
        device.set_state(self.0.index, temperature, timestamp);
    }

    /// Records a reading taken now. As `publish_at`, with the clock's
    /// reading for the time.
    pub fn publish(&mut self, device: &mut Device, temperature: u32)
        requires
            old(device)@.wf(),
            old(self).belongs_to(old(device)@),
        ensures
            exists|timestamp: u64|
                final(device)@ == old(device)@.publish(
                    old(self).entity().index,
                    temperature,
                    timestamp,
                ),
            final(device)@.wf(),
            old(device)@.grows_into(final(device)@),
            *final(self) == *old(self),
            final(self).belongs_to(final(device)@),
    {
        device.set_state_now(self.0.index, temperature);
    }
}

} // verus!
