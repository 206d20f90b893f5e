//! The device: a bounded registry of entities, the queue of entities whose
//! value waits to be sent, and the phase of the run loop.

use vstd::prelude::*;
use crate::action::{Action, Announcement, Dispatch, Fatal, StateUpdate, TransportEvent};
use crate::clock::now_ticks;
use crate::discovery::{
    build_command_topic, build_config_topic, build_discovery_payload, build_state_topic,
    lemma_command_topic_injective, DeviceConfig,
};
use crate::entity::{
    Entity, EntityCommonConfig, EntityConfig, EntityData, EntityStorage, NumberCommand,
    NumberStorage, NumericSensorStorage,
};
use crate::entity_number::{Number, NumberConfig};
use crate::entity_sensor::{TemperatureSensor, TemperatureSensorConfig};
use crate::model::{
    lemma_create_wf, lemma_drained_wf, lemma_publish_wf, lemma_with_number_wf, CreateError,
    DeviceView, Phase,
};
use crate::text::{bytes_eq, str_eq};
use crate::unit::TemperatureUnit;

verus! {

/// Number of entities that a device holds when nothing else is asked for.
pub const ENTITY_LIMIT: usize = 16;

/// What a device is built on: room for a number of entities that is settled
/// before the device exists and never changes.
pub struct DeviceResources {
    capacity: usize,
}

impl DeviceResources {
    /// How many entities a device built on these resources can hold.
    pub closed spec fn capacity(&self) -> nat {
        self.capacity as nat
    }

    /// Room for up to `capacity` entities.
    pub fn new(capacity: usize) -> (resources: DeviceResources)
        ensures
            resources.capacity() == capacity,
    {
        DeviceResources { capacity }
    }
}

impl Default for DeviceResources {
    fn default() -> (resources: DeviceResources)
        ensures
            resources.capacity() == ENTITY_LIMIT,
    {
        DeviceResources::new(ENTITY_LIMIT)
    }
}

/// The metadata of a temperature sensor that is created with an identifier,
/// a name and a unit.
pub open spec fn temperature_sensor_config(
    id: &'static str,
    name: &'static str,
    unit: TemperatureUnit,
) -> EntityConfig {
    (TemperatureSensorConfig { common: EntityCommonConfig { name }, unit }).applied(
        EntityConfig::blank(id),
    )
}

/// The metadata of a settable number that is created with an identifier and
/// a name.
pub open spec fn number_config(id: &'static str, name: &'static str) -> EntityConfig {
    (NumberConfig { common: EntityCommonConfig { name } }).applied(EntityConfig::blank(id))
}

/// A device and its entities.
pub struct Device {
    config: DeviceConfig,
    capacity: usize,
    entities: Vec<EntityData>,
    queue: Vec<usize>,
    phase: Phase,
    announced: usize,
}

impl View for Device {
    type V = DeviceView;

    closed spec fn view(&self) -> DeviceView {
        DeviceView {
            config: self.config,
            capacity: self.capacity as nat,
            entities: self.entities@,
            queue: self.queue@,
            phase: self.phase,
            announced: self.announced as nat,
        }
    }
}

impl Device {
    /// A device without entities, waiting for a transport.
    pub fn new(resources: DeviceResources, config: DeviceConfig) -> (device: Device)
        ensures
            device@ == DeviceView::empty(config, resources.capacity()),
            device@.wf(),
    {
        let device = Device {
            config,
            capacity: resources.capacity,
            entities: Vec::new(),
            queue: Vec::new(),
            phase: Phase::Connecting,
            announced: 0,
        };
        device
    }

    /// The ceiling on the number of entities.
    pub fn capacity(&self) -> (capacity: usize)
        ensures
            capacity == self@.capacity,
    {
        self.capacity
    }

    /// The number of entities created so far.
    pub fn len(&self) -> (len: usize)
        ensures
            len == self@.entities.len(),
    {
        self.entities.len()
    }

    pub fn phase(&self) -> (phase: Phase)
        ensures
            phase == self@.phase,
    {
        self.phase
    }

    /// How many entities have been announced since the run loop started.
    pub fn announced(&self) -> (announced: usize)
        ensures
            announced == self@.announced,
    {
        self.announced
    }

    pub fn config(&self) -> (config: DeviceConfig)
        ensures
            config == self@.config,
    {
        self.config
    }

    /// The slot of an entity, if `index` names one.
    pub fn entity(&self, index: usize) -> (data: Option<EntityData>)
        ensures
            data == (if self@.has(index) {
                Some(self@.entities[index as int])
            } else {
                None
            }),
    {
        if index < self.entities.len() {
            Some(self.entities[index])
        } else {
            None
        }
    }

    /// The indices of the entities whose value waits to be sent, oldest
    /// first.
    pub fn pending(&self) -> (queue: Vec<usize>)
        ensures
            queue@ == self@.queue,
    {
        self.queue.clone()
    }

    fn id_in_use(&self, id: &str) -> (taken: bool)
        ensures
            taken == self@.id_taken(id),
    {
        let mut i: usize = 0;
        while i < self.entities.len()
            invariant
                i <= self.entities.len(),
                forall|k: int| 0 <= k < i ==> (#[trigger] self.entities@[k]).config.id@ != id@,
            decreases self.entities.len() - i,
        {
            if str_eq(self.entities[i].config.id, id) {
                return true;
            }
            i += 1;
        }
        false
    }

    /// Puts a new entity into the next free slot and returns its handle.
    ///
    /// Fails, and changes nothing, when the registry is full or when the
    /// identifier is in use.
    pub fn create_entity(&mut self, config: EntityConfig, storage: EntityStorage) -> (created:
        Result<Entity, CreateError>)
        requires
            old(self)@.wf(),
            old(self)@.phase is Connecting,
        ensures
            created == old(self)@.create_outcome(config.id),
            created is Ok ==> final(self)@ == old(self)@.create(config, storage),
            created is Err ==> final(self)@ == old(self)@,
            final(self)@.wf(),
            old(self)@.grows_into(final(self)@),
    {
        if self.entities.len() >= self.capacity {
            return Err(CreateError::CapacityExceeded);
        }
        if self.id_in_use(config.id) {
            return Err(CreateError::DuplicateId);
        }
        let index = self.entities.len();
        self.entities.push(EntityData { config, storage, publish_pending: false });
        proof {
            lemma_create_wf(old(self)@, config, storage);
        }
        Ok(Entity { index })
    }

    /// Creates a temperature sensor that has not been read yet.
    ///
    /// Fails, and changes nothing, when the registry is full or when the
    /// identifier is in use.
    pub fn create_temperature_sensor(
        &mut self,
        id: &'static str,
        name: &'static str,
        unit: TemperatureUnit,
    ) -> (created: Result<TemperatureSensor, CreateError>)
        requires
            old(self)@.wf(),
            old(self)@.phase is Connecting,
        ensures
            match created {
                Ok(sensor) => {
                    &&& old(self)@.create_outcome(id) == Ok::<Entity, CreateError>(sensor.entity())
                    &&& final(self)@ == old(self)@.create(
                        temperature_sensor_config(id, name, unit),
                        EntityStorage::NumericSensor(NumericSensorStorage { state: None }),
                    )
                    &&& sensor.belongs_to(final(self)@)
                },
                Err(e) => {
                    &&& old(self)@.create_outcome(id) == Err::<Entity, CreateError>(e)
                    &&& final(self)@ == old(self)@
                },
            },
            final(self)@.wf(),
            old(self)@.grows_into(final(self)@),
    {
        let mut config = EntityConfig::new(id);
        let sensor = TemperatureSensorConfig { common: EntityCommonConfig { name }, unit };
        sensor.populate(&mut config);
        match self.create_entity(config, EntityStorage::numeric_sensor()) {
            Ok(entity) => Ok(TemperatureSensor::new(entity)),
            Err(e) => Err(e),
        }
    }

    /// Creates a settable number with no state, no command and no waiter.
    ///
    /// Fails, and changes nothing, when the registry is full or when the
    /// identifier is in use.
    pub fn create_number(&mut self, id: &'static str, name: &'static str) -> (created: Result<
        Number,
        CreateError,
    >)
        requires
            old(self)@.wf(),
            old(self)@.phase is Connecting,
        ensures
            match created {
                Ok(number) => {
                    &&& old(self)@.create_outcome(id) == Ok::<Entity, CreateError>(number.entity())
                    &&& final(self)@ == old(self)@.create(
                        number_config(id, name),
                        EntityStorage::Number(
                            NumberStorage { state: None, command: None, waiter: None },
                        ),
                    )
                    &&& number.belongs_to(final(self)@)
                },
                Err(e) => {
                    &&& old(self)@.create_outcome(id) == Err::<Entity, CreateError>(e)
                    &&& final(self)@ == old(self)@
                },
            },
            final(self)@.wf(),
            old(self)@.grows_into(final(self)@),
    {
        let mut config = EntityConfig::new(id);
        let number = NumberConfig { common: EntityCommonConfig { name } };
        number.populate(&mut config);
        match self.create_entity(config, EntityStorage::number()) {
            Ok(entity) => Ok(Number::new(entity)),
            Err(e) => Err(e),
        }
    }

    /// Stores a value that an entity has observed, and queues the entity
    /// when the value has changed.
    pub fn set_state(&mut self, index: usize, value: u32, timestamp: u64)
        requires
            old(self)@.wf(),
            old(self)@.has(index),
        ensures
            final(self)@ == old(self)@.publish(index, value, timestamp),
            final(self)@.wf(),
            old(self)@.grows_into(final(self)@),
    {
        let mut e = self.entities[index];
        let changed = e.storage.replace_state(value, timestamp);
        if changed && !e.publish_pending {
            e.publish_pending = true;
            self.queue.push(index);
        }
        self.entities.set(index, e);
        proof {
            lemma_publish_wf(old(self)@, index, value, timestamp);
        }
    }

    /// Stores a value that an entity has observed now. As `set_state`, with
    /// the clock's reading for the time.
    pub fn set_state_now(&mut self, index: usize, value: u32)
        requires
            old(self)@.wf(),
            old(self)@.has(index),
        ensures
            exists|timestamp: u64| final(self)@ == old(self)@.publish(index, value, timestamp),
            final(self)@.wf(),
            old(self)@.grows_into(final(self)@),
    {
        let timestamp = now_ticks();
        self.set_state(index, value, timestamp);
    }

    /// Takes the command that has arrived for a settable number, or makes
    /// the task `waiter` the one that is woken by the next command.
    ///
    /// One task at a time may wait for the commands of an entity.
    pub fn take_command(&mut self, index: usize, waiter: u64) -> (value: Option<u32>)
        requires
            old(self)@.wf(),
            old(self)@.has(index),
            old(self)@.takes_commands(index),
            old(self)@.waiter(index) is None || old(self)@.waiter(index) == Some(waiter),
        ensures
            value == old(self)@.wait_outcome(index),
            final(self)@ == old(self)@.wait(index, waiter),
            final(self)@.wf(),
            old(self)@.grows_into(final(self)@),
    {
        let mut e = self.entities[index];
        let n = e.storage.as_number();
        let (value, next) = match n.command {
            Some(c) => (
                Some(c.value),
                NumberStorage { state: n.state, command: None, waiter: None },
            ),
            None => (
                None,
                NumberStorage { state: n.state, command: None, waiter: Some(waiter) },
            ),
        };
        e.storage = EntityStorage::Number(next);
        self.entities.set(index, e);
        proof {
            lemma_with_number_wf(old(self)@, index, next);
        }
        value
    }

    /// Whether a task waits for the commands of an entity, and which.
    pub fn waiter(&self, index: usize) -> (waiter: Option<u64>)
        requires
            self@.has(index),
        ensures
            waiter == self@.waiter(index),
    {
        match self.entities[index].storage {
            EntityStorage::Number(n) => n.waiter,
            EntityStorage::NumericSensor(_) => None,
        }
    }

    /// Hands the run loop a transport: the entities are announced next, from
    /// the first.
    pub fn start(&mut self)
        requires
            old(self)@.wf(),
        ensures
            final(self)@ == old(self)@.started(),
            final(self)@.wf(),
            old(self)@.grows_into(final(self)@),
    {
        self.phase = Phase::Announcing;
        self.announced = 0;
    }

    /// Records that the transport has failed. The run loop is over; the next
    /// one announces every entity again.
    pub fn fail(&mut self)
        requires
            old(self)@.wf(),
        ensures
            final(self)@ == old(self)@.failed(),
            final(self)@.wf(),
            old(self)@.grows_into(final(self)@),
    {
        self.phase = Phase::Connecting;
        self.announced = 0;
    }

    /// Takes note of what the transport answered to a read or a write.
    ///
    /// A failed read, a failed write and a read of no bytes end the run
    /// loop, and the failure is returned. After anything else the loop goes
    /// on, and nothing has changed.
    pub fn transport_event(&mut self, event: TransportEvent) -> (fatal: Option<Fatal>)
        requires
            old(self)@.wf(),
        ensures
            fatal == event.fatal(),
            final(self)@ == old(self)@.after_transport(event),
            final(self)@.wf(),
            old(self)@.grows_into(final(self)@),
    {
        let fatal = match event {
            TransportEvent::Written => None,
            TransportEvent::WriteFailed => Some(Fatal::WriteFailed),
            TransportEvent::Read(n) => if n == 0 {
                Some(Fatal::Closed)
            } else {
                None
            },
            TransportEvent::ReadFailed => Some(Fatal::ReadFailed),
        };
        if fatal.is_some() {
            self.fail();
        }
        fatal
    }

    /// The discovery message of an entity.
    pub fn announcement(&self, index: usize) -> (message: Announcement)
        requires
            self@.has(index),
        ensures
            message@ == self@.announcement(index),
    {
        let e = self.entities[index];
        let commands = match e.storage {
            EntityStorage::Number(_) => true,
            EntityStorage::NumericSensor(_) => false,
        };
        let topic = build_config_topic(e.config.domain, self.config.device_id, e.config.id);
        let payload = build_discovery_payload(&self.config, &e.config, commands);
        let subscribe = if commands {
            Some(build_command_topic(self.config.device_id, e.config.id))
        } else {
            None
        };
        Announcement { index, topic, payload, subscribe }
    }

    /// Tells a running loop what to do next on the transport.
    ///
    /// While entities are left to announce, the next one is announced. After
    /// that the loop is steady: the entity at the head of the queue leaves it
    /// and stops being pending as its state message is handed out; with an
    /// empty queue the loop is sent to wait for inbound bytes.
    pub fn next_action(&mut self) -> (action: Action)
        requires
            old(self)@.wf(),
            !(old(self)@.phase is Connecting),
        ensures
            action@ == old(self)@.next_action(),
            final(self)@ == old(self)@.after_action(),
            final(self)@.wf(),
            old(self)@.grows_into(final(self)@),
    {
        let announcing = match self.phase {
            Phase::Announcing => self.announced < self.entities.len(),
            _ => false,
        };
        if announcing {
            let message = self.announcement(self.announced);
            self.announced = self.announced + 1;
            return Action::Announce(message);
        }
        self.phase = Phase::Steady;
        if self.queue.len() > 0 {
            let index = self.queue.remove(0);
            let mut e = self.entities[index];
            let value = match e.storage.current_value() {
                Some(value) => value,
                None => {
                    assert(old(self)@.queue.contains(index));
                    assert(false);
                    0
                },
            };
            let topic = build_state_topic(self.config.device_id, e.config.id);
            e.publish_pending = false;
            self.entities.set(index, e);
            proof {
                lemma_drained_wf(old(self)@);
            }
            return Action::Publish(StateUpdate { index, topic, value });
        }
        Action::Receive
    }

    /// The entity that takes commands on `topic`, if one does.
    pub fn route(&self, topic: &[u8]) -> (target: Option<usize>)
        ensures
            match target {
                Some(index) => self@.commanded(index, topic@),
                None => forall|i: usize| !self@.commanded(i, topic@),
            },
    {
        let mut i: usize = 0;
        while i < self.entities.len()
            invariant
                i <= self.entities.len(),
                forall|k: usize| k < i ==> !self@.commanded(k, topic@),
            decreases self.entities.len() - i,
        {
            let e = self.entities[i];
            let commands = match e.storage {
                EntityStorage::Number(_) => true,
                EntityStorage::NumericSensor(_) => false,
            };
            if commands {
                let own = build_command_topic(self.config.device_id, e.config.id);
                if bytes_eq(topic, own.as_slice()) {
                    return Some(i);
                }
            }
            i += 1;
        }
        None
    }

    /// Takes in an inbound message that arrived at `timestamp`: its topic
    /// and the value that its payload held, if it held one.
    ///
    /// A message on a topic that is no entity's command topic changes
    /// nothing, and neither does one without a value. Otherwise the value
    /// goes into the entity's command slot, and the task that waited for it
    /// is the one to wake.
    pub fn dispatch_at(&mut self, topic: &[u8], value: Option<u32>, timestamp: u64) -> (outcome:
        Dispatch)
        requires
            old(self)@.wf(),
        ensures
            (forall|i: usize| !old(self)@.commanded(i, topic@)) ==> outcome == Dispatch::Unmatched
                && final(self)@ == old(self)@,
            forall|i: usize| #[trigger]
                old(self)@.commanded(i, topic@) ==> outcome == old(self)@.dispatch_outcome(i, value)
                    && final(self)@ == old(self)@.dispatch(i, value, timestamp),
            final(self)@.wf(),
            old(self)@.grows_into(final(self)@),
    {
        let index = match self.route(topic) {
            Some(index) => index,
            None => {
                return Dispatch::Unmatched;
            },
        };
        proof {
            lemma_one_target(self@, topic@, index);
        }
        let v = match value {
            Some(v) => v,
            None => {
                return Dispatch::Malformed { index };
            },
        };
        let mut e = self.entities[index];
        let n = e.storage.as_number();
        let next = NumberStorage {
            state: n.state,
            command: Some(NumberCommand { value: v, timestamp }),
            waiter: None,
        };
        e.storage = EntityStorage::Number(next);
        self.entities.set(index, e);
        proof {
            lemma_with_number_wf(old(self)@, index, next);
        }
        Dispatch::Delivered { index, wake: n.waiter }
    }

    /// Takes in an inbound message that has just arrived. As `dispatch_at`,
    /// with the clock's reading for the time.
    pub fn dispatch(&mut self, topic: &[u8], value: Option<u32>) -> (outcome: Dispatch)
        requires
            old(self)@.wf(),
        ensures
            (forall|i: usize| !old(self)@.commanded(i, topic@)) ==> outcome == Dispatch::Unmatched
                && final(self)@ == old(self)@,
            forall|i: usize| #[trigger]
                old(self)@.commanded(i, topic@) ==> outcome == old(self)@.dispatch_outcome(i, value)
                    && exists|timestamp: u64|
                    final(self)@ == old(self)@.dispatch(i, value, timestamp),
            final(self)@.wf(),
            old(self)@.grows_into(final(self)@),
    {
        let timestamp = now_ticks();
        self.dispatch_at(topic, value, timestamp)
    }
}

/// At most one entity of a device takes commands on a topic.
pub proof fn lemma_one_target(d: DeviceView, topic: Seq<u8>, index: usize)
    requires
        d.wf(),
        d.commanded(index, topic),
    ensures
        forall|i: usize| #[trigger] d.commanded(i, topic) ==> i == index,
{
    assert forall|i: usize| #[trigger] d.commanded(i, topic) implies i == index by {
        lemma_command_topic_injective(
            d.config.device_id,
            d.entities[i as int].config.id,
            d.entities[index as int].config.id,
        );
    }
}

} // verus!
