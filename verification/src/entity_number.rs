//! The settable number: its configuration and the handle through which the
//! device reports the value and takes the hub's commands.

use vstd::prelude::*;
use crate::constants;
use crate::device::Device;
use crate::entity::{Entity, EntityCommonConfig, EntityConfig};
use crate::model::DeviceView;

verus! {

/// Configuration of a settable number.
#[derive(Debug, Clone, Copy)]
pub struct NumberConfig {
    pub common: EntityCommonConfig,
}

impl NumberConfig {
    /// `config` with what makes it the metadata of this number: the name and
    /// the number domain.
    pub open spec fn applied(self, config: EntityConfig) -> EntityConfig {
        EntityConfig { name: self.common.name, domain: constants::HA_DOMAIN_NUMBER, ..config }
    }

    /// Fills an entity's metadata in from this configuration.
    pub fn populate(&self, config: &mut EntityConfig)
        ensures
            *final(config) == self.applied(*old(config)),
    {
        self.common.populate(config);
        config.domain = constants::HA_DOMAIN_NUMBER;
    }
}

/// Handle of a settable number.
#[derive(Debug, Clone, Copy)]
pub struct Number(Entity);

impl Number {
    /// The slot that this handle refers to.
    pub closed spec fn entity(self) -> Entity {
        self.0
    }

    /// Whether this handle refers to a settable number of the device `d`.
    pub open spec fn belongs_to(self, d: DeviceView) -> bool {
        &&& d.has(self.entity().index)
        &&& d.takes_commands(self.entity().index)
    }

    pub fn new(entity: Entity) -> (number: Self)
        ensures
            number.entity() == entity,
    {
        Self(entity)
    }

    /// The index of the number's slot in the registry.
    pub fn index(&self) -> (index: usize)
        ensures
            index == self.entity().index,
    {
        self.0.index
    }

    /// Reports the value that the device has taken at `timestamp`. The value
    /// goes the way of a sensor's reading: stored in any case, queued when it
    /// has changed.
    pub fn value_set_at(&mut self, device: &mut Device, value: u32, timestamp: u64)
        requires
            old(device)@.wf(),
            old(self).belongs_to(old(device)@),
        ensures
            final(device)@ == old(device)@.publish(old(self).entity().index, value, timestamp),
            final(device)@.wf(),
            old(device)@.grows_into(final(device)@),
            *final(self) == *old(self),
            final(self).belongs_to(final(device)@),
    {
        device.set_state(self.0.index, value, timestamp);
    }

    /// Reports the value that the device has taken now. As `value_set_at`,
    /// with the clock's reading for the time.
    pub fn value_set(&mut self, device: &mut Device, value: u32)
        requires
            old(device)@.wf(),
            old(self).belongs_to(old(device)@),
        ensures
            exists|timestamp: u64|
                final(device)@ == old(device)@.publish(
                    old(self).entity().index,
                    value,
                    timestamp,
                ),
            final(device)@.wf(),
            old(device)@.grows_into(final(device)@),
            *final(self) == *old(self),
            final(self).belongs_to(final(device)@),
    {
        device.set_state_now(self.0.index, value);
    }

    /// One turn of waiting for the hub's next command, on behalf of the task
    /// `waiter`.
    ///
    /// If a command has arrived since the last one was taken, its value is
    /// returned and the slot is empty again. If not, `None` is returned and
    /// `waiter` is the task that the next command wakes. No other task may be
    /// waiting on the entity.
    pub fn value_wait(&mut self, device: &mut Device, waiter: u64) -> (value: Option<u32>)
        requires
            old(device)@.wf(),
            old(self).belongs_to(old(device)@),
            old(device)@.waiter(old(self).entity().index) is None || old(device)@.waiter(
                old(self).entity().index,
            ) == Some(waiter),
        ensures
            value == old(device)@.wait_outcome(old(self).entity().index),
            final(device)@ == old(device)@.wait(old(self).entity().index, waiter),
            final(device)@.wf(),
            old(device)@.grows_into(final(device)@),
            *final(self) == *old(self),
            final(self).belongs_to(final(device)@),
    {
        device.take_command(self.0.index, waiter)
    }
}

} // verus!
