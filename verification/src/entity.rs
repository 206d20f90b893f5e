//! What the registry keeps for one entity: its metadata, fixed at creation,
//! and its value storage, a closed set of kinds.

use vstd::prelude::*;

verus! {

/// Metadata of an entity, as the hub is told of it. Nothing here changes
/// after the entity has been created.
#[derive(Debug, Clone, Copy, PartialEq, Eq)]
pub struct EntityConfig {
    /// Identifier, unique among the entities of one device.
    pub id: &'static str,
    /// Display name.
    pub name: &'static str,
    /// The hub's name for the kind of entity.
    pub domain: &'static str,
    /// Rendering hint for the hub.
    pub device_class: Option<&'static str>,
    pub measurement_unit: Option<&'static str>,
    pub state_class: Option<&'static str>,
}

impl EntityConfig {
    /// Metadata with the given identifier and nothing else filled in.
    pub open spec fn blank(id: &'static str) -> EntityConfig {
        EntityConfig {
            id,
            name: "",
            domain: "",
            device_class: None,
            measurement_unit: None,
            state_class: None,
        }
    }

    pub fn new(id: &'static str) -> (config: EntityConfig)
        ensures
            config == Self::blank(id),
    {
        EntityConfig {
            id,
            name: "",
            domain: "",
            device_class: None,
            measurement_unit: None,
            state_class: None,
        }
    }
}

/// The part of an entity's configuration that every kind shares.
#[derive(Debug, Clone, Copy, PartialEq, Eq)]
pub struct EntityCommonConfig {
    pub name: &'static str,
}

impl EntityCommonConfig {
    pub fn populate(&self, config: &mut EntityConfig)
        ensures
            *final(config) == (EntityConfig { name: self.name, ..*old(config) }),
    {
        config.name = self.name;
    }
}

/// Last observed reading of a numeric sensor. The value is the bit pattern
/// of the reading; two readings are the same when their bits are.
#[derive(Debug, Clone, Copy, PartialEq, Eq, Structural)]
pub struct NumericSensorState {
    pub value: u32,
    /// Clock ticks at which the reading was taken.
    pub timestamp: u64,
}

#[derive(Debug, Clone, Copy, PartialEq, Eq, Structural)]
pub struct NumericSensorStorage {
    pub state: Option<NumericSensorState>,
}

/// Last value that the device reported for a settable number.
#[derive(Debug, Clone, Copy, PartialEq, Eq, Structural)]
pub struct NumberState {
    pub value: u32,
    pub timestamp: u64,
}

/// A value that the hub asked a settable number to take.
#[derive(Debug, Clone, Copy, PartialEq, Eq, Structural)]
pub struct NumberCommand {
    pub value: u32,
    pub timestamp: u64,
}

#[derive(Debug, Clone, Copy, PartialEq, Eq, Structural)]
pub struct NumberStorage {
    pub state: Option<NumberState>,
    /// The command that has arrived and has not been taken yet.
    pub command: Option<NumberCommand>,
    /// Token of the task that waits for the next command.
    pub waiter: Option<u64>,
}

/// Value storage of an entity, by kind.
#[derive(Debug, Clone, Copy, PartialEq, Eq, Structural)]
pub enum EntityStorage {
    NumericSensor(NumericSensorStorage),
    Number(NumberStorage),
}

impl EntityStorage {
    /// The value last stored, whatever the kind.
    pub open spec fn value(self) -> Option<u32> {
        match self {
            EntityStorage::NumericSensor(s) => match s.state {
                Some(state) => Some(state.value),
                None => None,
            },
            EntityStorage::Number(n) => match n.state {
                Some(state) => Some(state.value),
                None => None,
            },
        }
    }

    /// Reads the value last stored.
    pub fn current_value(&self) -> (value: Option<u32>)
        ensures
            value == self.value(),
    {
        match self {
            EntityStorage::NumericSensor(s) => match s.state {
                Some(state) => Some(state.value),
                None => None,
            },
            EntityStorage::Number(n) => match n.state {
                Some(state) => Some(state.value),
                None => None,
            },
        }
    }

    /// This storage with `value`, observed at `timestamp`, as its state.
    pub open spec fn with_state(self, value: u32, timestamp: u64) -> EntityStorage {
        match self {
            EntityStorage::NumericSensor(s) => EntityStorage::NumericSensor(
                NumericSensorStorage { state: Some(NumericSensorState { value, timestamp }) },
            ),
            EntityStorage::Number(n) => EntityStorage::Number(
                NumberStorage { state: Some(NumberState { value, timestamp }), ..n },
            ),
        }
    }

    /// Storage of a numeric sensor that has not been read yet.
    pub fn numeric_sensor() -> (storage: EntityStorage)
        ensures
            storage == EntityStorage::NumericSensor(NumericSensorStorage { state: None }),
    {
        EntityStorage::NumericSensor(NumericSensorStorage { state: None })
    }

    /// Storage of a settable number with no state, no command and no waiter.
    pub fn number() -> (storage: EntityStorage)
        ensures
            storage == EntityStorage::Number(
                NumberStorage { state: None, command: None, waiter: None },
            ),
    {
        EntityStorage::Number(NumberStorage { state: None, command: None, waiter: None })
    }

    /// The storage of a numeric sensor. The caller knows the kind.
    pub fn as_numeric_sensor(&self) -> (sensor: NumericSensorStorage)
        requires
            self is NumericSensor,
        ensures
            *self == EntityStorage::NumericSensor(sensor),
    {
        match self {
            EntityStorage::NumericSensor(s) => *s,
            EntityStorage::Number(_) => {
                assert(false);
                NumericSensorStorage { state: None }
            },
        }
    }

    /// The storage of a settable number. The caller knows the kind.
    pub fn as_number(&self) -> (number: NumberStorage)
        requires
            self is Number,
        ensures
            *self == EntityStorage::Number(number),
    {
        match self {
            EntityStorage::Number(n) => *n,
            EntityStorage::NumericSensor(_) => {
                assert(false);
                NumberStorage { state: None, command: None, waiter: None }
            },
        }
    }

    /// Replaces the state by `value` at `timestamp` and says whether the
    /// value differs from the one stored before. No stored value counts as a
    /// difference.
    pub fn replace_state(&mut self, value: u32, timestamp: u64) -> (changed: bool)
        ensures
            *final(self) == old(self).with_state(value, timestamp),
            changed == (old(self).value() != Some(value)),
    {
        let changed = match self.current_value() {
            Some(stored) => stored != value,
            None => true,
        };
        match *self {
            EntityStorage::NumericSensor(_) => {
                *self = EntityStorage::NumericSensor(
                    NumericSensorStorage { state: Some(NumericSensorState { value, timestamp }) },
                );
                changed
            },
            EntityStorage::Number(n) => {
                *self = EntityStorage::Number(
                    NumberStorage {
                        state: Some(NumberState { value, timestamp }),
                        command: n.command,
                        waiter: n.waiter,
                    },
                );
                changed
            },
        }
    }
}

/// One slot of the registry.
#[derive(Debug, Clone, Copy, PartialEq, Eq)]
pub struct EntityData {
    pub config: EntityConfig,
    pub storage: EntityStorage,
    /// True from the change of the value until its message is handed to the
    /// transport.
    pub publish_pending: bool,
}

/// A stable reference to one slot of a device's registry. It is given out
/// when the entity is created and stays good for as long as the device lives.
#[derive(Debug, Clone, Copy, PartialEq, Eq, Structural)]
pub struct Entity {
    pub index: usize,
}

} // verus!
