//! The state of a device as a mathematical value, and what each operation
//! makes of it.

use vstd::prelude::*;
use crate::action::{ActionView, AnnouncementView, Dispatch, StateUpdateView, TransportEvent};
use crate::discovery::{command_topic, config_topic, discovery_payload, state_topic, DeviceConfig};
use crate::entity::{
    Entity, EntityConfig, EntityData, EntityStorage, NumberCommand, NumberStorage,
};

verus! {

/// Where the run loop stands.
#[derive(Debug, Clone, Copy, PartialEq, Eq, Structural)]
pub enum Phase {
    /// No transport is in use; entities may be created.
    Connecting,
    /// The entities are being announced to the hub, in registry order.
    Announcing,
    /// Every entity has been announced; values go out and commands come in.
    Steady,
}

/// Why an entity could not be created.
#[derive(Debug, Clone, Copy, PartialEq, Eq, Structural)]
pub enum CreateError {
    /// The registry already holds as many entities as it was made for.
    CapacityExceeded,
    /// Another entity of the device has the same identifier.
    DuplicateId,
}

/// The state of a device, as mathematics sees it.
pub struct DeviceView {
    pub config: DeviceConfig,
    /// Ceiling on the number of entities, fixed at construction.
    pub capacity: nat,
    /// The registry, indexed by the entities' handles.
    pub entities: Seq<EntityData>,
    /// Indices of the entities whose value waits to be sent, oldest first.
    pub queue: Seq<usize>,
    pub phase: Phase,
    /// How many entities have been announced since the run loop started.
    pub announced: nat,
}

impl DeviceView {
    /// Whether `index` names an entity of the registry.
    pub open spec fn has(self, index: usize) -> bool {
        (index as int) < self.entities.len()
    }

    /// What holds of every device, whatever has been done with it.
    pub open spec fn wf(self) -> bool {
        &&& self.entities.len() <= self.capacity <= usize::MAX
        &&& self.announced <= self.entities.len()
        &&& (self.phase is Connecting ==> self.announced == 0)
        &&& (self.phase is Steady ==> self.announced == self.entities.len())
        &&& self.queue.no_duplicates()
        &&& forall|k: int| 0 <= k < self.queue.len() ==> self.has(#[trigger] self.queue[k])
        &&& forall|i: usize|
            self.has(i) ==> ((#[trigger] self.entities[i as int]).publish_pending
                <==> self.queue.contains(i))
        &&& forall|i: usize|
            self.has(i) && (#[trigger] self.entities[i as int]).publish_pending
                ==> self.entities[i as int].storage.value() is Some
        &&& forall|i: int, j: int|
            0 <= i < j < self.entities.len() ==> (#[trigger] self.entities[i]).config.id@
                != (#[trigger] self.entities[j]).config.id@
    }

    /// Whether an entity of the registry has the identifier `id`.
    pub open spec fn id_taken(self, id: &str) -> bool {
        exists|i: int|
            0 <= i < self.entities.len() && (#[trigger] self.entities[i]).config.id@ == id@
    }

    /// Whether `later` can be a later state of the device `self`: the same
    /// identity and ceiling, every entity still in its slot with the metadata
    /// and the kind it was created with.
    pub open spec fn grows_into(self, later: DeviceView) -> bool {
        &&& later.config == self.config
        &&& later.capacity == self.capacity
        &&& self.entities.len() <= later.entities.len()
        &&& forall|i: int|
            0 <= i < self.entities.len() ==> {
                &&& (#[trigger] later.entities[i]).config == self.entities[i].config
                &&& (later.entities[i].storage is NumericSensor
                    <==> self.entities[i].storage is NumericSensor)
            }
    }

    /// A device with nothing in it.
    pub open spec fn empty(config: DeviceConfig, capacity: nat) -> DeviceView {
        DeviceView {
            config,
            capacity,
            entities: Seq::empty(),
            queue: Seq::empty(),
            phase: Phase::Connecting,
            announced: 0,
        }
    }

    /// The device with one more entity, in the next free slot.
    pub open spec fn create(self, config: EntityConfig, storage: EntityStorage) -> DeviceView {
        DeviceView {
            entities: self.entities.push(EntityData { config, storage, publish_pending: false }),
            ..self
        }
    }

    /// What creating an entity with the identifier `id` answers.
    pub open spec fn create_outcome(self, id: &str) -> Result<Entity, CreateError> {
        if self.entities.len() >= self.capacity {
            Err(CreateError::CapacityExceeded)
        } else if self.id_taken(id) {
            Err(CreateError::DuplicateId)
        } else {
            Ok(Entity { index: self.entities.len() as usize })
        }
    }

    /// The device after entity `index` has observed `value` at `timestamp`.
    ///
    /// The value and the time are stored in any case. If the value differs
    /// from the one stored before (or none was stored), the entity is
    /// pending from now on, and joins the end of the queue unless it was
    /// pending already.
    pub open spec fn publish(self, index: usize, value: u32, timestamp: u64) -> DeviceView {
        let e = self.entities[index as int];
        let changed = e.storage.value() != Some(value);
        DeviceView {
            entities: self.entities.update(
                index as int,
                EntityData {
                    storage: e.storage.with_state(value, timestamp),
                    publish_pending: e.publish_pending || changed,
                    ..e
                },
            ),
            queue: if changed && !e.publish_pending {
                self.queue.push(index)
            } else {
                self.queue
            },
            ..self
        }
    }

    /// Whether entity `index` takes commands from the hub.
    pub open spec fn takes_commands(self, index: usize) -> bool {
        self.entities[index as int].storage is Number
    }

    /// The discovery message of entity `index`.
    pub open spec fn announcement(self, index: usize) -> AnnouncementView {
        let e = self.entities[index as int].config;
        let commands = self.takes_commands(index);
        AnnouncementView {
            index,
            topic: config_topic(e.domain, self.config.device_id, e.id),
            payload: discovery_payload(self.config, e, commands),
            subscribe: if commands {
                Some(command_topic(self.config.device_id, e.id))
            } else {
                None
            },
        }
    }

    /// The state message of entity `index`: its topic and the value that
    /// the entity holds now.
    pub open spec fn state_update(self, index: usize) -> StateUpdateView {
        let e = self.entities[index as int];
        StateUpdateView {
            index,
            topic: state_topic(self.config.device_id, e.config.id),
            value: e.storage.value()->0,
        }
    }

    /// The state messages that draining the whole queue would send, in the
    /// order in which they would go out.
    pub open spec fn outbox(self) -> Seq<StateUpdateView> {
        Seq::new(self.queue.len(), |k: int| self.state_update(self.queue[k]))
    }

    /// The device after the head of the queue has been handed to the
    /// transport: the entity is no longer pending and has left the queue.
    pub open spec fn drained(self) -> DeviceView {
        let index = self.queue[0];
        DeviceView {
            entities: self.entities.update(
                index as int,
                EntityData { publish_pending: false, ..self.entities[index as int] },
            ),
            queue: self.queue.drop_first(),
            ..self
        }
    }

    /// The device once a transport has been handed to the run loop: nothing
    /// has been announced yet.
    pub open spec fn started(self) -> DeviceView {
        DeviceView { phase: Phase::Announcing, announced: 0, ..self }
    }

    /// The device after the transport has failed: the run loop is over, and
    /// a new one begins by announcing again. Values and the queue stay.
    pub open spec fn failed(self) -> DeviceView {
        DeviceView { phase: Phase::Connecting, announced: 0, ..self }
    }

    /// The device after the transport has answered: a failure ends the run
    /// loop, anything else leaves the device as it is.
    pub open spec fn after_transport(self, event: TransportEvent) -> DeviceView {
        if event.fatal() is Some {
            self.failed()
        } else {
            self
        }
    }

    /// Whether the run loop still has an entity to announce.
    pub open spec fn announcing(self) -> bool {
        self.phase is Announcing && self.announced < self.entities.len()
    }

    /// What a running loop does next: announce the next entity while one is
    /// left, else send the state of the entity at the head of the queue, else
    /// wait for inbound bytes.
    pub open spec fn next_action(self) -> ActionView {
        if self.announcing() {
            ActionView::Announce(self.announcement(self.announced as usize))
        } else if self.queue.len() > 0 {
            ActionView::Publish(self.state_update(self.queue[0]))
        } else {
            ActionView::Receive
        }
    }

    /// The device after the run loop has been given its next action.
    pub open spec fn after_action(self) -> DeviceView {
        if self.announcing() {
            DeviceView { announced: self.announced + 1, ..self }
        } else if self.queue.len() > 0 {
            DeviceView { phase: Phase::Steady, ..self.drained() }
        } else {
            DeviceView { phase: Phase::Steady, ..self }
        }
    }

    /// Whether entity `index` takes commands on `topic`.
    pub open spec fn commanded(self, index: usize, topic: Seq<u8>) -> bool {
        &&& self.has(index)
        &&& self.takes_commands(index)
        &&& command_topic(self.config.device_id, self.entities[index as int].config.id) == topic
    }

    /// The token of the task that waits for a command of entity `index`.
    pub open spec fn waiter(self, index: usize) -> Option<u64> {
        match self.entities[index as int].storage {
            EntityStorage::Number(n) => n.waiter,
            EntityStorage::NumericSensor(_) => None,
        }
    }

    /// The command that has arrived for entity `index` and has not been
    /// taken.
    pub open spec fn command(self, index: usize) -> Option<NumberCommand> {
        match self.entities[index as int].storage {
            EntityStorage::Number(n) => n.command,
            EntityStorage::NumericSensor(_) => None,
        }
    }

    /// The device with the number storage of entity `index` replaced.
    pub open spec fn with_number(self, index: usize, number: NumberStorage) -> DeviceView {
        DeviceView {
            entities: self.entities.update(
                index as int,
                EntityData {
                    storage: EntityStorage::Number(number),
                    ..self.entities[index as int]
                },
            ),
            ..self
        }
    }

    /// The device after a command for entity `index` has arrived: the value
    /// is in the command slot, where it replaces one that was not taken, and
    /// no task waits any more.
    pub open spec fn deliver(self, index: usize, value: u32, timestamp: u64) -> DeviceView {
        match self.entities[index as int].storage {
            EntityStorage::Number(n) => self.with_number(
                index,
                NumberStorage {
                    command: Some(NumberCommand { value, timestamp }),
                    waiter: None,
                    ..n
                },
            ),
            EntityStorage::NumericSensor(_) => self,
        }
    }

    /// The device after the task `waiter` has asked for the next command of
    /// entity `index`: a command that was there has been taken, else the
    /// task is the one that waits.
    pub open spec fn wait(self, index: usize, waiter: u64) -> DeviceView {
        match self.entities[index as int].storage {
            EntityStorage::Number(n) => self.with_number(
                index,
                if n.command is Some {
                    NumberStorage { command: None, waiter: None, ..n }
                } else {
                    NumberStorage { waiter: Some(waiter), ..n }
                },
            ),
            EntityStorage::NumericSensor(_) => self,
        }
    }

    /// What the task that asks for the next command of entity `index` is
    /// given: the value of the command that is there, if one is.
    pub open spec fn wait_outcome(self, index: usize) -> Option<u32> {
        match self.command(index) {
            Some(c) => Some(c.value),
            None => None,
        }
    }

    /// What becomes of an inbound message whose topic is that of entity
    /// `index`.
    pub open spec fn dispatch_outcome(self, index: usize, value: Option<u32>) -> Dispatch {
        match value {
            Some(_) => Dispatch::Delivered { index, wake: self.waiter(index) },
            None => Dispatch::Malformed { index },
        }
    }

    /// The device after an inbound message whose topic is that of entity
    /// `index`.
    pub open spec fn dispatch(
        self,
        index: usize,
        value: Option<u32>,
        timestamp: u64,
    ) -> DeviceView {
        match value {
            Some(v) => self.deliver(index, v, timestamp),
            None => self,
        }
    }
}

/// A new entity with a new identifier, in a registry with room, keeps a
/// device well formed and every entity in place.
pub proof fn lemma_create_wf(d: DeviceView, config: EntityConfig, storage: EntityStorage)
    requires
        d.wf(),
        d.phase is Connecting,
        d.entities.len() < d.capacity,
        !d.id_taken(config.id),
    ensures
        d.create(config, storage).wf(),
        d.grows_into(d.create(config, storage)),
{
}

/// Replacing the number storage of an entity keeps a device well formed
/// when the reported state stays as it is.
pub proof fn lemma_with_number_wf(d: DeviceView, index: usize, number: NumberStorage)
    requires
        d.wf(),
        d.has(index),
        d.takes_commands(index),
        number.state == d.entities[index as int].storage->Number_0.state,
    ensures
        d.with_number(index, number).wf(),
        d.grows_into(d.with_number(index, number)),
{
}

/// Handing the head of the queue to the transport keeps a device well
/// formed.
pub proof fn lemma_drained_wf(d: DeviceView)
    requires
        d.wf(),
        d.queue.len() > 0,
    ensures
        d.drained().wf(),
        d.grows_into(d.drained()),
{
    let after = d.drained();
    assert forall|i: usize|
        after.has(i) && i != d.queue[0] && d.queue.contains(i) implies after.queue.contains(
        i,
    ) by {
        let k = choose|k: int| 0 <= k < d.queue.len() && d.queue[k] == i;
        assert(after.queue[k - 1] == i);
    }
}

/// Observing a value keeps a device well formed and every entity in place.
pub proof fn lemma_publish_wf(d: DeviceView, index: usize, value: u32, timestamp: u64)
    requires
        d.wf(),
        d.has(index),
    ensures
        d.publish(index, value, timestamp).wf(),
        d.grows_into(d.publish(index, value, timestamp)),
{
    let after = d.publish(index, value, timestamp);
    let changed = d.entities[index as int].storage.value() != Some(value);
    assert forall|i: usize| d.has(i) implies (after.queue.contains(i) <==> d.queue.contains(i) || (i
        == index && changed)) by {
        lemma_contains_push(d.queue, index, i);
    }
}

/// What a sequence holds after one more item has been put at its end.
pub proof fn lemma_contains_push(s: Seq<usize>, pushed: usize, x: usize)
    ensures
        s.push(pushed).contains(x) <==> (s.contains(x) || x == pushed),
{
    if s.contains(x) {
        let k = choose|k: int| 0 <= k < s.len() && s[k] == x;
        assert(s.push(pushed)[k] == x);
    }
    if x == pushed {
        assert(s.push(pushed)[s.len() as int] == x);
    }
}

} // verus!
