//! What holds of a device over several operations.

use vstd::prelude::*;
use crate::action::{ActionView, Dispatch, Fatal, TransportEvent};
use crate::discovery::{
    command_topic, config_topic, lemma_command_topic_injective, lemma_config_topic_injective,
    lemma_state_topic_injective, lemma_state_topic_is_no_command_topic, state_topic,
};
use crate::entity::{Entity, EntityConfig, EntityStorage};
use crate::model::{lemma_drained_wf, lemma_publish_wf, CreateError, DeviceView};
use crate::text::utf8;

verus! {

impl DeviceView {
    /// The device after entity `index` has observed the values of `values`
    /// one after the other, the k-th at the k-th of `times`, with nothing
    /// sent in between.
    pub open spec fn publish_all(
        self,
        index: usize,
        values: Seq<u32>,
        times: Seq<u64>,
    ) -> DeviceView
        decreases values.len(),
    {
        if values.len() == 0 {
            self
        } else {
            self.publish_all(index, values.drop_last(), times.drop_last()).publish(
                index,
                values.last(),
                times.last(),
            )
        }
    }
}

/// A full registry takes no further entity, whatever its identifier.
pub proof fn lemma_capacity_ceiling(d: DeviceView, id: &str)
    requires
        d.wf(),
        d.entities.len() == d.capacity,
    ensures
        d.create_outcome(id) == Err::<Entity, CreateError>(CreateError::CapacityExceeded),
{
}

/// A registry with room takes an entity exactly when its identifier is new,
/// gives it the next slot, and leaves the entities that are there as they
/// are.
pub proof fn lemma_create_keeps_entities(
    d: DeviceView,
    config: EntityConfig,
    storage: EntityStorage,
)
    requires
        d.wf(),
        d.entities.len() < d.capacity,
    ensures
        d.create_outcome(config.id) is Ok <==> !d.id_taken(config.id),
        d.create_outcome(config.id) is Ok ==> d.create_outcome(config.id)->Ok_0.index
            == d.entities.len(),
        d.create(config, storage).entities.len() == d.entities.len() + 1,
        forall|i: int|
            0 <= i < d.entities.len() ==> d.create(config, storage).entities[i] == d.entities[i],
        d.create(config, storage).queue == d.queue,
{
}

/// A run of observations on one entity, with nothing sent in between,
/// leaves at most one message for the entity to send, and that message
/// carries the last value observed.
///
/// If the last value differs from the one stored before the run, there is
/// such a message. If the entity was not pending and every value equals the
/// stored one, there is none, and the queue is as it was. The other entities
/// are untouched either way.
pub proof fn lemma_publish_sequence(d: DeviceView, index: usize, values: Seq<u32>, times: Seq<u64>)
    requires
        d.wf(),
        d.has(index),
        values.len() > 0,
        times.len() == values.len(),
    ensures
        ({
            let e = d.publish_all(index, values, times);
            let out = e.outbox();
            let stored = d.entities[index as int].storage.value();
            let was_pending = d.entities[index as int].publish_pending;
            &&& e.wf()
            &&& d.grows_into(e)
            &&& e.entities.len() == d.entities.len()
            &&& e.entities[index as int].storage.value() == Some(values.last())
            &&& forall|a: int, b: int|
                0 <= a < out.len() && 0 <= b < out.len() && out[a].index == index && out[b].index
                    == index ==> a == b
            &&& forall|k: int|
                0 <= k < out.len() && out[k].index == index ==> out[k].value == values.last()
            &&& (stored != Some(values.last()) ==> exists|k: int|
                0 <= k < out.len() && out[k].index == index)
            &&& (!was_pending && (forall|k: int|
                0 <= k < values.len() ==> stored == Some(values[k])) ==> e.queue == d.queue
                && forall|k: int| 0 <= k < out.len() ==> out[k].index != index)
            &&& (e.queue == d.queue || (!was_pending && e.queue == d.queue.push(index)))
            &&& forall|j: usize|
                d.has(j) && j != index ==> e.entities[j as int] == d.entities[j as int]
        }),
    decreases values.len(),
{
    let head = values.drop_last();
    let mid = d.publish_all(index, head, times.drop_last());
    let e = d.publish_all(index, values, times);
    if head.len() > 0 {
        lemma_publish_sequence(d, index, head, times.drop_last());
    }
    lemma_publish_wf(mid, index, values.last(), times.last());
    lemma_grows_into_transitive(d, mid, e);
    if mid.queue != d.queue {
        assert(mid.queue[mid.queue.len() - 1] == index);
    }
    if d.entities[index as int].storage.value() != Some(values.last()) {
        let k = choose|k: int| 0 <= k < e.queue.len() && e.queue[k] == index;
        assert(e.outbox()[k].index == index);
    }
}

/// The same value observed twice in a row is queued at most once: the
/// second observation leaves the queue as the first one made it. Where no
/// value was stored before, the first observation puts the entity at the end
/// of the queue.
pub proof fn lemma_publish_twice(d: DeviceView, index: usize, value: u32, first: u64, second: u64)
    requires
        d.wf(),
        d.has(index),
    ensures
        ({
            let once = d.publish(index, value, first);
            let twice = once.publish(index, value, second);
            &&& twice.queue == once.queue
            &&& twice.entities[index as int].publish_pending
                == once.entities[index as int].publish_pending
            &&& (d.entities[index as int].storage.value() is None ==> once.queue == d.queue.push(
                index,
            ))
        }),
{
}

/// Observations on two different entities do not disturb each other: each
/// leaves the other entity as it was, and where both values are new and
/// neither entity was pending, both are queued, in the order of the
/// observations, each once.
pub proof fn lemma_publish_two_entities(
    d: DeviceView,
    a: usize,
    value_a: u32,
    time_a: u64,
    b: usize,
    value_b: u32,
    time_b: u64,
)
    requires
        d.wf(),
        d.has(a),
        d.has(b),
        a != b,
    ensures
        ({
            let one = d.publish(a, value_a, time_a);
            let both = one.publish(b, value_b, time_b);
            let other = d.publish(b, value_b, time_b).publish(a, value_a, time_a);
            let new_a = d.entities[a as int].storage.value() != Some(value_a)
                && !d.entities[a as int].publish_pending;
            let new_b = d.entities[b as int].storage.value() != Some(value_b)
                && !d.entities[b as int].publish_pending;
            &&& one.entities[b as int] == d.entities[b as int]
            &&& both.entities[a as int] == one.entities[a as int]
            &&& both.wf()
            &&& both.entities == other.entities
            &&& (new_a && new_b ==> both.queue == d.queue.push(a).push(b))
            &&& forall|x: usize| both.queue.contains(x) <==> other.queue.contains(x)
        }),
{
    let one = d.publish(a, value_a, time_a);
    let both = one.publish(b, value_b, time_b);
    let first = d.publish(b, value_b, time_b);
    let other = first.publish(a, value_a, time_a);
    lemma_publish_wf(d, a, value_a, time_a);
    lemma_publish_wf(one, b, value_b, time_b);
    lemma_publish_wf(d, b, value_b, time_b);
    lemma_publish_wf(first, a, value_a, time_a);
    assert forall|x: usize| both.queue.contains(x) <==> other.queue.contains(x) by {
        if both.has(x) {
            assert(both.entities[x as int].publish_pending <==> both.queue.contains(x));
            assert(other.entities[x as int].publish_pending <==> other.queue.contains(x));
        }
    }
}

/// A command makes its way from the hub to the task that waits for it.
///
/// A task that asks for the next command of an entity with an empty slot is
/// told to wait and becomes the entity's waiter. The command that arrives
/// then names that task as the one to wake and leaves no waiter behind. The
/// task's next turn gets the command's value and empties the slot, so that
/// the turn after that waits again.
pub proof fn lemma_command_round_trip(
    d: DeviceView,
    index: usize,
    waiter: u64,
    value: u32,
    timestamp: u64,
)
    requires
        d.wf(),
        d.has(index),
        d.takes_commands(index),
        d.command(index) is None,
    ensures
        ({
            let waiting = d.wait(index, waiter);
            let arrived = waiting.dispatch(index, Some(value), timestamp);
            let taken = arrived.wait(index, waiter);
            let again = taken.wait(index, waiter);
            &&& d.wait_outcome(index) is None
            &&& waiting.waiter(index) == Some(waiter)
            &&& waiting.dispatch_outcome(index, Some(value)) == (Dispatch::Delivered {
                index,
                wake: Some(waiter),
            })
            &&& arrived.waiter(index) is None
            &&& arrived.wait_outcome(index) == Some(value)
            &&& taken.command(index) is None
            &&& taken.waiter(index) is None
            &&& taken.wait_outcome(index) is None
            &&& again.waiter(index) == Some(waiter)
            &&& again.wf()
            &&& again.queue == d.queue
        }),
{
}

/// An entity is announced in the same bytes whenever it is announced: the
/// discovery message of an entity in any later state of the device is the
/// one of the state in which the entity was created.
pub proof fn lemma_announcement_fixed(d: DeviceView, later: DeviceView, index: usize)
    requires
        d.has(index),
        d.grows_into(later),
    ensures
        later.announcement(index) == d.announcement(index),
{
}

/// The topics of a device do not collide: two different entities report
/// their state on different topics and take commands on different topics, no
/// entity's state topic is another's command topic, and two entities whose
/// domains have names of one length are announced on different topics.
pub proof fn lemma_topics_distinct(d: DeviceView, i: usize, j: usize)
    requires
        d.wf(),
        d.has(i),
        d.has(j),
        i != j,
    ensures
        ({
            let device = d.config.device_id;
            let a = d.entities[i as int].config;
            let b = d.entities[j as int].config;
            &&& state_topic(device, a.id) != state_topic(device, b.id)
            &&& command_topic(device, a.id) != command_topic(device, b.id)
            &&& state_topic(device, a.id) != command_topic(device, b.id)
            &&& (utf8(a.domain).len() == utf8(b.domain).len() ==> config_topic(
                a.domain,
                device,
                a.id,
            ) != config_topic(b.domain, device, b.id))
        }),
{
    let device = d.config.device_id;
    let a = d.entities[i as int].config;
    let b = d.entities[j as int].config;
    if state_topic(device, a.id) == state_topic(device, b.id) {
        lemma_state_topic_injective(device, a.id, b.id);
    }
    if command_topic(device, a.id) == command_topic(device, b.id) {
        lemma_command_topic_injective(device, a.id, b.id);
    }
    lemma_state_topic_is_no_command_topic(device, a.id, b.id);
    if utf8(a.domain).len() == utf8(b.domain).len() && config_topic(a.domain, device, a.id)
        == config_topic(b.domain, device, b.id) {
        lemma_config_topic_injective(a.domain, b.domain, device, a.id, b.id);
    }
}

/// A later state of a later state is a later state.
pub proof fn lemma_grows_into_transitive(a: DeviceView, b: DeviceView, c: DeviceView)
    requires
        a.grows_into(b),
        b.grows_into(c),
    ensures
        a.grows_into(c),
{
}

/// State messages leave in the order in which their entities were queued:
/// a steady loop with a queue sends the first message of the outbox, and the
/// rest of the outbox is what is left to send.
pub proof fn lemma_drain_in_order(d: DeviceView)
    requires
        d.wf(),
        !(d.phase is Connecting),
        !d.announcing(),
        d.queue.len() > 0,
    ensures
        d.next_action() == ActionView::Publish(d.outbox()[0]),
        d.after_action().outbox() == d.outbox().drop_first(),
        d.after_action().phase is Steady,
        !d.after_action().entities[d.queue[0] as int].publish_pending,
        d.after_action().wf(),
{
    lemma_drained_wf(d);
}

/// An observation on an entity that is not pending and holds another value
/// adds the entity's message, with the new value, to the end of the outbox.
pub proof fn lemma_publish_joins_outbox(d: DeviceView, index: usize, value: u32, timestamp: u64)
    requires
        d.wf(),
        d.has(index),
        !d.entities[index as int].publish_pending,
        d.entities[index as int].storage.value() != Some(value),
    ensures
        ({
            let e = d.publish(index, value, timestamp);
            &&& e.outbox() == d.outbox().push(e.state_update(index))
            &&& e.state_update(index).value == value
        }),
{
}

/// Whatever the transport answers, a running loop either goes on unchanged
/// or is over: no answer takes it from the steady phase back to announcing.
pub proof fn lemma_transport_failure_is_final(d: DeviceView, event: TransportEvent)
    requires
        d.wf(),
    ensures
        event.fatal() is None ==> d.after_transport(event) == d,
        event.fatal() is Some ==> d.after_transport(event).phase is Connecting,
        event == TransportEvent::Read(0) ==> event.fatal() == Some(Fatal::Closed),
        d.after_transport(event).wf(),
        d.after_transport(event).entities == d.entities,
        d.after_transport(event).queue == d.queue,
{
}

/// After a transport failure the run loop starts over with the
/// announcements, never in the steady phase: the first action of the new
/// loop announces the first entity, and values that were waiting to be sent
/// still wait.
pub proof fn lemma_restart_announces(d: DeviceView)
    requires
        d.wf(),
    ensures
        d.failed().phase is Connecting,
        d.failed().started().phase is Announcing,
        d.failed().started().wf(),
        d.failed().started().queue == d.queue,
        d.failed().started().entities == d.entities,
        d.entities.len() > 0 ==> d.failed().started().next_action() == ActionView::Announce(
            d.announcement(0),
        ),
{
}

/// The run loop turns steady only when every entity has been announced:
/// from the start it takes one announcement per entity, in registry order,
/// before the first action of another kind.
pub proof fn lemma_announce_all_first(d: DeviceView, k: nat)
    requires
        d.wf(),
        d.phase is Announcing,
        d.announced + k <= d.entities.len(),
    ensures
        ({
            let e = after_actions(d, k);
            &&& e.wf()
            &&& e.phase is Announcing
            &&& e.announced == d.announced + k
            &&& e.entities == d.entities
            &&& e.queue == d.queue
            &&& (e.announced < e.entities.len() ==> e.next_action() == ActionView::Announce(
                e.announcement(e.announced as usize),
            ))
            &&& (e.announced == e.entities.len() ==> e.after_action().phase is Steady
                && !(e.next_action() is Announce))
        }),
    decreases k,
{
    if k > 0 {
        lemma_announce_all_first(d, (k - 1) as nat);
        lemma_announce_one(after_actions(d, (k - 1) as nat));
    }
    lemma_announce_one(after_actions(d, k));
}

/// One action of a loop that is announcing: the next entity's discovery
/// message while one is left, and the turn to the steady phase when none is.
pub proof fn lemma_announce_one(d: DeviceView)
    requires
        d.wf(),
        d.phase is Announcing,
    ensures
        d.after_action().wf(),
        d.announced < d.entities.len() ==> d.next_action() == ActionView::Announce(
            d.announcement(d.announced as usize),
        ) && d.after_action() == (DeviceView { announced: d.announced + 1, ..d }),
        d.announced == d.entities.len() ==> d.after_action().phase is Steady && !(d.next_action()
            is Announce),
{
    if !d.announcing() && d.queue.len() > 0 {
        lemma_drained_wf(d);
    }
}

/// The device after `k` actions have been handed to the run loop.
pub open spec fn after_actions(d: DeviceView, k: nat) -> DeviceView
    decreases k,
{
    if k == 0 {
        d
    } else {
        after_actions(d, (k - 1) as nat).after_action()
    }
}

} // verus!
