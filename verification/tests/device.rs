use embassy_ha::action::{Action, Dispatch, Fatal, TransportEvent};
use embassy_ha::device::{Device, DeviceResources, ENTITY_LIMIT};
use embassy_ha::discovery::DeviceConfig;
use embassy_ha::entity::{EntityConfig, EntityStorage};
use embassy_ha::entity_number::Number;
use embassy_ha::entity_sensor::TemperatureSensor;
use embassy_ha::model::{CreateError, Phase};
use embassy_ha::unit::TemperatureUnit;

fn config() -> DeviceConfig {
    DeviceConfig {
        device_id: "dev",
        device_name: "Device",
        manufacturer: "Maker",
        model: "Model",
    }
}

fn device(capacity: usize) -> Device {
    Device::new(DeviceResources::new(capacity), config())
}

fn sensor(device: &mut Device, id: &'static str) -> TemperatureSensor {
    device.create_temperature_sensor(id, "Sensor", TemperatureUnit::Celcius).unwrap()
}

fn number(device: &mut Device, id: &'static str) -> Number {
    device.create_number(id, "Number").unwrap()
}

fn value_of(device: &Device, index: usize) -> Option<u32> {
    device.entity(index).unwrap().storage.current_value()
}

fn published(action: Action) -> (usize, Vec<u8>, u32) {
    match action {
        Action::Publish(update) => (update.index, update.topic, update.value),
        other => panic!("expected a state message, got {:?}", other),
    }
}

fn run_to_steady(device: &mut Device) {
    device.start();
    for _ in 0..device.len() {
        assert!(matches!(device.next_action(), Action::Announce(_)));
    }
}

#[test]
fn new_device_is_empty_and_connecting() {
    let d = device(4);
    assert_eq!(d.len(), 0);
    assert_eq!(d.capacity(), 4);
    assert_eq!(d.phase(), Phase::Connecting);
    assert_eq!(d.announced(), 0);
    assert_eq!(d.pending(), Vec::<usize>::new());
    assert_eq!(d.entity(0), None);
    assert_eq!(d.config().device_id, "dev");
}

#[test]
fn default_resources_hold_the_entity_limit() {
    let mut d = Device::new(DeviceResources::default(), config());
    assert_eq!(d.capacity(), ENTITY_LIMIT);
    assert_eq!(ENTITY_LIMIT, 16);
    let ids = [
        "a", "b", "c", "d", "e", "f", "g", "h", "i", "j", "k", "l", "m", "n", "o", "p",
    ];
    for id in ids {
        assert!(d.create_number(id, "N").is_ok());
    }
    assert_eq!(d.create_number("q", "N").err(), Some(CreateError::CapacityExceeded));
    assert_eq!(d.len(), 16);
}

#[test]
fn created_entities_get_consecutive_slots() {
    let mut d = device(3);
    let a = sensor(&mut d, "a");
    let b = number(&mut d, "b");
    let c = sensor(&mut d, "c");
    assert_eq!(a.index(), 0);
    assert_eq!(b.index(), 1);
    assert_eq!(c.index(), 2);
    assert_eq!(d.len(), 3);
    assert_eq!(d.entity(3), None);
}

#[test]
fn temperature_sensor_is_created_with_its_metadata() {
    let mut d = device(1);
    let s = d.create_temperature_sensor("temp", "Temperature", TemperatureUnit::Kelvin).unwrap();
    let data = d.entity(s.index()).unwrap();
    assert_eq!(data.config.id, "temp");
    assert_eq!(data.config.name, "Temperature");
    assert_eq!(data.config.domain, "sensor");
    assert_eq!(data.config.device_class, Some("temperature"));
    assert_eq!(data.config.measurement_unit, Some("k"));
    assert_eq!(data.config.state_class, None);
    assert_eq!(data.storage, EntityStorage::numeric_sensor());
    assert!(!data.publish_pending);
}

#[test]
fn number_is_created_with_its_metadata() {
    let mut d = device(1);
    let n = d.create_number("dial", "Dial").unwrap();
    let data = d.entity(n.index()).unwrap();
    assert_eq!(data.config.id, "dial");
    assert_eq!(data.config.name, "Dial");
    assert_eq!(data.config.domain, "number");
    assert_eq!(data.config.device_class, None);
    assert_eq!(data.config.measurement_unit, None);
    assert_eq!(data.storage, EntityStorage::number());
    assert!(!data.publish_pending);
}

#[test]
fn create_entity_takes_any_metadata() {
    let mut d = device(2);
    let mut config = EntityConfig::new("counter");
    config.name = "Counter";
    config.domain = "sensor";
    config.state_class = Some("total_increasing");
    let e = d.create_entity(config, EntityStorage::numeric_sensor()).unwrap();
    assert_eq!(e.index, 0);
    assert_eq!(d.entity(0).unwrap().config.state_class, Some("total_increasing"));
}

#[test]
fn capacity_ceiling_rejects_one_more_and_keeps_the_rest() {
    let mut d = device(2);
    let mut a = sensor(&mut d, "a");
    let _b = number(&mut d, "b");
    a.publish_at(&mut d, 11, 1);
    let first = d.entity(0).unwrap();
    let second = d.entity(1).unwrap();
    let queue = d.pending();
    let failed = d.create_temperature_sensor("c", "C", TemperatureUnit::Celcius);
    assert_eq!(failed.err(), Some(CreateError::CapacityExceeded));
    assert_eq!(d.create_number("d", "D").err(), Some(CreateError::CapacityExceeded));
    assert_eq!(d.len(), 2);
    let after_first = d.entity(0).unwrap();
    let after_second = d.entity(1).unwrap();
    assert_eq!(after_first.config.id, first.config.id);
    assert_eq!(after_first.storage, first.storage);
    assert_eq!(after_first.publish_pending, first.publish_pending);
    assert_eq!(after_second.config.id, second.config.id);
    assert_eq!(after_second.storage, second.storage);
    assert_eq!(d.pending(), queue);
    assert_eq!(d.phase(), Phase::Connecting);
}

#[test]
fn zero_capacity_holds_nothing() {
    let mut d = device(0);
    assert_eq!(d.create_number("a", "A").err(), Some(CreateError::CapacityExceeded));
    assert_eq!(d.len(), 0);
}

#[test]
fn duplicate_id_is_rejected_and_changes_nothing() {
    let mut d = device(4);
    let _a = sensor(&mut d, "same");
    assert_eq!(d.create_number("same", "Other").err(), Some(CreateError::DuplicateId));
    assert_eq!(
        d.create_temperature_sensor("same", "Other", TemperatureUnit::Kelvin).err(),
        Some(CreateError::DuplicateId)
    );
    assert_eq!(d.len(), 1);
    assert_eq!(d.entity(0).unwrap().config.name, "Sensor");
    assert!(d.create_number("Same", "Other").is_ok());
}

#[test]
fn full_registry_is_reported_before_a_duplicate_id() {
    let mut d = device(1);
    let _a = sensor(&mut d, "same");
    assert_eq!(d.create_number("same", "N").err(), Some(CreateError::CapacityExceeded));
}

#[test]
fn first_publish_queues_the_entity() {
    let mut d = device(2);
    let mut s = sensor(&mut d, "t");
    s.publish_at(&mut d, 42, 7);
    assert_eq!(d.pending(), vec![0]);
    let data = d.entity(0).unwrap();
    assert!(data.publish_pending);
    let state = data.storage.as_numeric_sensor().state.unwrap();
    assert_eq!(state.value, 42);
    assert_eq!(state.timestamp, 7);
}

#[test]
fn same_value_twice_queues_once() {
    let mut d = device(2);
    let mut s = sensor(&mut d, "t");
    s.publish_at(&mut d, 42, 1);
    s.publish_at(&mut d, 42, 2);
    assert_eq!(d.pending(), vec![0]);
    run_to_steady(&mut d);
    assert_eq!(published(d.next_action()), (0, b"dev/t/state".to_vec(), 42));
    assert_eq!(d.next_action(), Action::Receive);
}

#[test]
fn same_value_after_a_drain_is_not_queued_again() {
    let mut d = device(1);
    let mut s = sensor(&mut d, "t");
    s.publish_at(&mut d, 42, 1);
    run_to_steady(&mut d);
    assert!(matches!(d.next_action(), Action::Publish(_)));
    s.publish_at(&mut d, 42, 2);
    s.publish_at(&mut d, 42, 3);
    assert_eq!(d.pending(), Vec::<usize>::new());
    assert!(!d.entity(0).unwrap().publish_pending);
    assert_eq!(d.next_action(), Action::Receive);
    assert_eq!(d.entity(0).unwrap().storage.as_numeric_sensor().state.unwrap().timestamp, 3);
}

#[test]
fn the_latest_value_is_the_one_that_is_sent() {
    let mut d = device(1);
    let mut s = sensor(&mut d, "t");
    s.publish_at(&mut d, 1, 1);
    s.publish_at(&mut d, 2, 2);
    s.publish_at(&mut d, 3, 3);
    assert_eq!(d.pending(), vec![0]);
    run_to_steady(&mut d);
    assert_eq!(published(d.next_action()), (0, b"dev/t/state".to_vec(), 3));
    assert_eq!(d.next_action(), Action::Receive);
}

#[test]
fn a_value_that_returns_to_the_sent_one_is_still_sent() {
    let mut d = device(1);
    let mut s = sensor(&mut d, "t");
    s.publish_at(&mut d, 1, 1);
    run_to_steady(&mut d);
    assert_eq!(published(d.next_action()).2, 1);
    s.publish_at(&mut d, 2, 2);
    s.publish_at(&mut d, 1, 3);
    assert_eq!(d.pending(), vec![0]);
    assert_eq!(published(d.next_action()).2, 1);
    assert_eq!(d.next_action(), Action::Receive);
}

#[test]
fn two_entities_queue_independently_in_order() {
    let mut d = device(3);
    let mut a = sensor(&mut d, "a");
    let mut b = sensor(&mut d, "b");
    let mut c = number(&mut d, "c");
    b.publish_at(&mut d, 20, 1);
    a.publish_at(&mut d, 10, 2);
    b.publish_at(&mut d, 21, 3);
    c.value_set_at(&mut d, 30, 4);
    a.publish_at(&mut d, 11, 5);
    assert_eq!(d.pending(), vec![1, 0, 2]);
    run_to_steady(&mut d);
    assert_eq!(published(d.next_action()), (1, b"dev/b/state".to_vec(), 21));
    assert_eq!(d.pending(), vec![0, 2]);
    assert_eq!(published(d.next_action()), (0, b"dev/a/state".to_vec(), 11));
    assert_eq!(published(d.next_action()), (2, b"dev/c/state".to_vec(), 30));
    assert_eq!(d.next_action(), Action::Receive);
    assert_eq!(d.pending(), Vec::<usize>::new());
}

#[test]
fn publishing_on_one_entity_leaves_the_other_alone() {
    let mut d = device(2);
    let mut a = sensor(&mut d, "a");
    let _b = sensor(&mut d, "b");
    let before = d.entity(1).unwrap();
    a.publish_at(&mut d, 10, 2);
    let after = d.entity(1).unwrap();
    assert_eq!(after.storage, before.storage);
    assert_eq!(after.publish_pending, before.publish_pending);
    assert_eq!(value_of(&d, 1), None);
}

#[test]
fn draining_clears_the_pending_flag() {
    let mut d = device(1);
    let mut s = sensor(&mut d, "t");
    s.publish_at(&mut d, 5, 1);
    run_to_steady(&mut d);
    assert!(d.entity(0).unwrap().publish_pending);
    let _ = d.next_action();
    assert!(!d.entity(0).unwrap().publish_pending);
    assert_eq!(value_of(&d, 0), Some(5));
}

#[test]
fn an_entity_queued_again_after_a_drain_goes_to_the_end() {
    let mut d = device(2);
    let mut a = sensor(&mut d, "a");
    let mut b = sensor(&mut d, "b");
    a.publish_at(&mut d, 1, 1);
    b.publish_at(&mut d, 2, 2);
    run_to_steady(&mut d);
    assert_eq!(published(d.next_action()).0, 0);
    a.publish_at(&mut d, 3, 3);
    assert_eq!(d.pending(), vec![1, 0]);
    assert_eq!(published(d.next_action()), (1, b"dev/b/state".to_vec(), 2));
    assert_eq!(published(d.next_action()), (0, b"dev/a/state".to_vec(), 3));
}

#[test]
fn publish_with_the_clock_stores_and_queues() {
    let mut d = device(1);
    let mut s = sensor(&mut d, "t");
    s.publish(&mut d, 42.0f32.to_bits());
    assert_eq!(d.pending(), vec![0]);
    assert_eq!(value_of(&d, 0), Some(42.0f32.to_bits()));
    s.publish(&mut d, 42.0f32.to_bits());
    assert_eq!(d.pending(), vec![0]);
    let first = d.entity(0).unwrap().storage.as_numeric_sensor().state.unwrap().timestamp;
    s.publish(&mut d, 43.5f32.to_bits());
    let second = d.entity(0).unwrap().storage.as_numeric_sensor().state.unwrap().timestamp;
    assert!(second >= first);
    assert_eq!(value_of(&d, 0), Some(43.5f32.to_bits()));
}

#[test]
fn value_set_with_the_clock_stores_and_queues() {
    let mut d = device(1);
    let mut n = number(&mut d, "dial");
    n.value_set(&mut d, 1.5f32.to_bits());
    assert_eq!(d.pending(), vec![0]);
    assert_eq!(value_of(&d, 0), Some(1.5f32.to_bits()));
}

#[test]
fn set_state_now_stores_and_queues() {
    let mut d = device(2);
    let _a = sensor(&mut d, "a");
    let _b = number(&mut d, "b");
    d.set_state_now(1, 9);
    d.set_state_now(0, 8);
    assert_eq!(d.pending(), vec![1, 0]);
    assert_eq!(value_of(&d, 0), Some(8));
    assert_eq!(value_of(&d, 1), Some(9));
}

#[test]
fn publishing_before_the_announcement_is_kept_for_later() {
    let mut d = device(2);
    let mut a = sensor(&mut d, "a");
    let _b = number(&mut d, "b");
    d.start();
    a.publish_at(&mut d, 5, 1);
    assert!(matches!(d.next_action(), Action::Announce(_)));
    assert_eq!(d.pending(), vec![0]);
    assert!(matches!(d.next_action(), Action::Announce(_)));
    assert_eq!(d.phase(), Phase::Announcing);
    assert_eq!(published(d.next_action()), (0, b"dev/a/state".to_vec(), 5));
    assert_eq!(d.phase(), Phase::Steady);
}

#[test]
fn announcements_come_first_in_registry_order() {
    let mut d = device(3);
    let _a = sensor(&mut d, "a");
    let _b = number(&mut d, "b");
    d.start();
    assert_eq!(d.phase(), Phase::Announcing);
    assert_eq!(d.announced(), 0);
    let first = match d.next_action() {
        Action::Announce(m) => m,
        other => panic!("expected an announcement, got {:?}", other),
    };
    assert_eq!(first.index, 0);
    assert_eq!(first.topic, b"homeassistant/sensor/dev/a/config".to_vec());
    assert_eq!(first.subscribe, None);
    assert_eq!(first, d.announcement(0));
    assert_eq!(d.announced(), 1);
    let second = match d.next_action() {
        Action::Announce(m) => m,
        other => panic!("expected an announcement, got {:?}", other),
    };
    assert_eq!(second.index, 1);
    assert_eq!(second.topic, b"homeassistant/number/dev/b/config".to_vec());
    assert_eq!(second.subscribe, Some(b"dev/b/set".to_vec()));
    assert_eq!(second, d.announcement(1));
    assert_eq!(d.phase(), Phase::Announcing);
    assert_eq!(d.announced(), 2);
    assert_eq!(d.next_action(), Action::Receive);
    assert_eq!(d.phase(), Phase::Steady);
    assert_eq!(d.next_action(), Action::Receive);
}

#[test]
fn announcement_holds_the_discovery_document() {
    let mut d = device(1);
    let _n = d.create_number("dial", "Dial").unwrap();
    let message = d.announcement(0);
    let expected = "{\"name\":\"Dial\",\"unique_id\":\"dev_dial\",\
\"device\":{\"identifiers\":[\"dev\"],\"name\":\"Device\",\"manufacturer\":\"Maker\",\"model\":\"Model\"},\
\"state_topic\":\"dev/dial/state\",\"command_topic\":\"dev/dial/set\"}";
    assert_eq!(String::from_utf8(message.payload).unwrap(), expected);
}

#[test]
fn announcing_twice_gives_identical_bytes() {
    let mut d = device(2);
    let mut s = sensor(&mut d, "t");
    let mut n = number(&mut d, "dial");
    let sensor_before = d.announcement(0);
    let number_before = d.announcement(1);
    assert_eq!(d.announcement(0), sensor_before);
    s.publish_at(&mut d, 1, 1);
    n.value_set_at(&mut d, 2, 2);
    run_to_steady(&mut d);
    let _ = d.next_action();
    let _ = d.dispatch_at(b"dev/dial/set", Some(3), 3);
    let _ = n.value_wait(&mut d, 1);
    assert_eq!(d.announcement(0), sensor_before);
    assert_eq!(d.announcement(1), number_before);
    assert_eq!(d.announcement(0).payload, sensor_before.payload);
}

#[test]
fn an_empty_device_goes_straight_to_steady() {
    let mut d = device(2);
    d.start();
    assert_eq!(d.phase(), Phase::Announcing);
    assert_eq!(d.next_action(), Action::Receive);
    assert_eq!(d.phase(), Phase::Steady);
}

#[test]
fn a_failure_ends_the_loop_and_a_restart_announces_again() {
    let mut d = device(2);
    let mut a = sensor(&mut d, "a");
    run_to_steady(&mut d);
    assert_eq!(d.next_action(), Action::Receive);
    assert_eq!(d.phase(), Phase::Steady);
    a.publish_at(&mut d, 5, 1);
    d.fail();
    assert_eq!(d.phase(), Phase::Connecting);
    assert_eq!(d.announced(), 0);
    assert_eq!(d.pending(), vec![0]);
    let _b = number(&mut d, "b");
    d.start();
    assert_eq!(d.phase(), Phase::Announcing);
    let first = d.next_action();
    assert_eq!(first, Action::Announce(d.announcement(0)));
    let second = d.next_action();
    assert_eq!(second, Action::Announce(d.announcement(1)));
    assert_eq!(published(d.next_action()), (0, b"dev/a/state".to_vec(), 5));
    assert_eq!(d.phase(), Phase::Steady);
}

#[test]
fn a_failure_while_announcing_starts_over() {
    let mut d = device(2);
    let _a = sensor(&mut d, "a");
    let _b = sensor(&mut d, "b");
    d.start();
    let first = d.next_action();
    d.fail();
    d.start();
    assert_eq!(d.announced(), 0);
    assert_eq!(d.next_action(), first);
}

#[test]
fn route_finds_the_entity_of_a_command_topic() {
    let mut d = device(3);
    let _a = sensor(&mut d, "a");
    let _b = number(&mut d, "b");
    let _c = number(&mut d, "c");
    assert_eq!(d.route(b"dev/b/set"), Some(1));
    assert_eq!(d.route(b"dev/c/set"), Some(2));
    assert_eq!(d.route(b"dev/a/set"), None);
    assert_eq!(d.route(b"dev/b/state"), None);
    assert_eq!(d.route(b"dev/b/set/"), None);
    assert_eq!(d.route(b"other/b/set"), None);
    assert_eq!(d.route(b""), None);
}

#[test]
fn unmatched_topic_changes_nothing() {
    let mut d = device(2);
    let mut s = sensor(&mut d, "a");
    let mut n = number(&mut d, "b");
    s.publish_at(&mut d, 1, 1);
    run_to_steady(&mut d);
    assert_eq!(n.value_wait(&mut d, 77), None);
    let first = d.entity(0).unwrap();
    let second = d.entity(1).unwrap();
    let queue = d.pending();
    assert_eq!(d.dispatch_at(b"dev/unknown/set", Some(5), 9), Dispatch::Unmatched);
    assert_eq!(d.dispatch_at(b"dev/a/set", Some(5), 9), Dispatch::Unmatched);
    assert_eq!(d.dispatch(b"elsewhere", Some(5)), Dispatch::Unmatched);
    assert_eq!(d.entity(0).unwrap().storage, first.storage);
    assert_eq!(d.entity(1).unwrap().storage, second.storage);
    assert_eq!(d.waiter(1), Some(77));
    assert_eq!(d.pending(), queue);
    assert_eq!(d.phase(), Phase::Announcing);
    assert_eq!(
        d.dispatch_at(b"dev/b/set", Some(6), 10),
        Dispatch::Delivered { index: 1, wake: Some(77) }
    );
}

#[test]
fn payload_without_a_value_is_dropped() {
    let mut d = device(1);
    let mut n = number(&mut d, "b");
    assert_eq!(n.value_wait(&mut d, 4), None);
    let before = d.entity(0).unwrap();
    assert_eq!(d.dispatch_at(b"dev/b/set", None, 9), Dispatch::Malformed { index: 0 });
    assert_eq!(d.entity(0).unwrap().storage, before.storage);
    assert_eq!(d.waiter(0), Some(4));
    assert_eq!(n.value_wait(&mut d, 4), None);
}

#[test]
fn command_round_trip() {
    let mut d = device(2);
    let _s = sensor(&mut d, "a");
    let mut n = number(&mut d, "dial");
    run_to_steady(&mut d);
    assert_eq!(n.value_wait(&mut d, 9), None);
    assert_eq!(d.waiter(1), Some(9));
    let value = "73".parse::<f32>().ok().map(f32::to_bits);
    let outcome = d.dispatch(b"dev/dial/set", value);
    assert_eq!(outcome, Dispatch::Delivered { index: 1, wake: Some(9) });
    assert_eq!(d.waiter(1), None);
    let got = n.value_wait(&mut d, 9);
    assert_eq!(got.map(f32::from_bits), Some(73.0));
    assert_eq!(d.entity(1).unwrap().storage.as_number().command, None);
    assert_eq!(n.value_wait(&mut d, 9), None);
    assert_eq!(d.waiter(1), Some(9));
    let next = d.dispatch_at(b"dev/dial/set", Some(74.0f32.to_bits()), 5);
    assert_eq!(next, Dispatch::Delivered { index: 1, wake: Some(9) });
    assert_eq!(n.value_wait(&mut d, 9).map(f32::from_bits), Some(74.0));
}

#[test]
fn a_command_without_a_waiter_is_kept_for_the_next_wait() {
    let mut d = device(1);
    let mut n = number(&mut d, "dial");
    assert_eq!(
        d.dispatch_at(b"dev/dial/set", Some(5), 11),
        Dispatch::Delivered { index: 0, wake: None }
    );
    let command = d.entity(0).unwrap().storage.as_number().command.unwrap();
    assert_eq!(command.value, 5);
    assert_eq!(command.timestamp, 11);
    assert_eq!(n.value_wait(&mut d, 1), Some(5));
    assert_eq!(d.waiter(0), None);
}

#[test]
fn the_latest_command_replaces_one_not_taken() {
    let mut d = device(1);
    let mut n = number(&mut d, "dial");
    let _ = d.dispatch_at(b"dev/dial/set", Some(5), 1);
    let _ = d.dispatch_at(b"dev/dial/set", Some(6), 2);
    assert_eq!(n.value_wait(&mut d, 1), Some(6));
    assert_eq!(n.value_wait(&mut d, 1), None);
}

#[test]
fn a_command_does_not_touch_the_reported_state_or_the_queue() {
    let mut d = device(1);
    let mut n = number(&mut d, "dial");
    n.value_set_at(&mut d, 3, 1);
    let _ = d.dispatch_at(b"dev/dial/set", Some(5), 2);
    assert_eq!(value_of(&d, 0), Some(3));
    assert_eq!(d.pending(), vec![0]);
    assert_eq!(n.value_wait(&mut d, 1), Some(5));
    n.value_set_at(&mut d, 5, 3);
    assert_eq!(value_of(&d, 0), Some(5));
    assert_eq!(d.pending(), vec![0]);
}

#[test]
fn the_same_waiter_may_ask_again() {
    let mut d = device(1);
    let mut n = number(&mut d, "dial");
    assert_eq!(n.value_wait(&mut d, 3), None);
    assert_eq!(n.value_wait(&mut d, 3), None);
    assert_eq!(d.waiter(0), Some(3));
    assert_eq!(d.take_command(0, 3), None);
}

#[test]
fn a_sensor_has_no_waiter() {
    let mut d = device(1);
    let _s = sensor(&mut d, "a");
    assert_eq!(d.waiter(0), None);
}

#[test]
fn handles_can_be_rebuilt_from_their_slot() {
    let mut d = device(2);
    let s = sensor(&mut d, "a");
    let n = number(&mut d, "b");
    let e = embassy_ha::entity::Entity { index: s.index() };
    let mut again = TemperatureSensor::new(e);
    again.publish_at(&mut d, 4, 1);
    assert_eq!(value_of(&d, 0), Some(4));
    let mut dial = Number::new(embassy_ha::entity::Entity { index: n.index() });
    dial.value_set_at(&mut d, 6, 2);
    assert_eq!(value_of(&d, 1), Some(6));
    assert_eq!(d.pending(), vec![0, 1]);
}

#[test]
fn a_read_of_no_bytes_is_the_end_of_the_connection() {
    let mut d = device(1);
    let mut s = sensor(&mut d, "a");
    run_to_steady(&mut d);
    assert_eq!(d.next_action(), Action::Receive);
    s.publish_at(&mut d, 5, 1);
    assert_eq!(d.transport_event(TransportEvent::Read(0)), Some(Fatal::Closed));
    assert_eq!(d.phase(), Phase::Connecting);
    assert_eq!(d.announced(), 0);
    assert_eq!(d.pending(), vec![0]);
}

#[test]
fn failed_reads_and_writes_end_the_loop() {
    let mut d = device(1);
    let _s = sensor(&mut d, "a");
    d.start();
    let _ = d.next_action();
    assert_eq!(d.transport_event(TransportEvent::WriteFailed), Some(Fatal::WriteFailed));
    assert_eq!(d.phase(), Phase::Connecting);
    run_to_steady(&mut d);
    assert_eq!(d.next_action(), Action::Receive);
    assert_eq!(d.transport_event(TransportEvent::ReadFailed), Some(Fatal::ReadFailed));
    assert_eq!(d.phase(), Phase::Connecting);
}

#[test]
fn successful_reads_and_writes_change_nothing() {
    let mut d = device(1);
    let _s = sensor(&mut d, "a");
    d.start();
    let _ = d.next_action();
    assert_eq!(d.transport_event(TransportEvent::Written), None);
    assert_eq!(d.phase(), Phase::Announcing);
    assert_eq!(d.announced(), 1);
    assert_eq!(d.next_action(), Action::Receive);
    assert_eq!(d.transport_event(TransportEvent::Read(1)), None);
    assert_eq!(d.transport_event(TransportEvent::Read(usize::MAX)), None);
    assert_eq!(d.phase(), Phase::Steady);
    assert_eq!(d.announced(), 1);
}
