//! Home Assistant entities for a small device: a bounded registry of typed
//! entities, change detection with a publish queue, discovery documents and
//! routing of inbound commands.
//!
//! The device is a state machine. Producers record values on it through the
//! handles of their entities; a run loop asks it what to do next on the
//! transport and hands it what comes in. The library itself does no I/O.

pub mod action;
mod clock;
pub mod constants;
pub mod device;
pub mod discovery;
pub mod entity;
pub mod entity_number;
pub mod entity_sensor;
pub mod laws;
pub mod model;
pub mod text;
pub mod unit;

pub use action::{Action, Announcement, Dispatch, Fatal, StateUpdate, TransportEvent};
pub use device::{Device, DeviceResources, ENTITY_LIMIT};
pub use discovery::DeviceConfig;
pub use entity::{
    Entity, EntityCommonConfig, EntityConfig, EntityData, EntityStorage, NumberCommand,
    NumberState, NumberStorage, NumericSensorState, NumericSensorStorage,
};
pub use entity_number::{Number, NumberConfig};
pub use entity_sensor::{StateClass, TemperatureSensor, TemperatureSensorConfig};
pub use model::{CreateError, DeviceView, Phase};
pub use unit::{BatteryUnit, EnergyUnit, HumidityUnit, LightUnit, PressureUnit, TemperatureUnit};
