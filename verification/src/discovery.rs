//! Topic names and the discovery document of an entity.
//!
//! All of them are functions of the device's identity and of the entity's
//! metadata alone, so an entity is announced in the same bytes every time.

use vstd::prelude::*;
use crate::constants::HA_DISCOVERY_PREFIX;
use crate::entity::EntityConfig;
use crate::text::{push_escaped, push_quoted, push_str, quoted, utf8};

verus! {

/// The identity under which a device presents itself to the hub.
#[derive(Debug, Clone, Copy, PartialEq, Eq)]
pub struct DeviceConfig {
    pub device_id: &'static str,
    pub device_name: &'static str,
    pub manufacturer: &'static str,
    pub model: &'static str,
}

/// Topic on which an entity reports its state: `{device_id}/{entity_id}/state`.
pub open spec fn state_topic(device_id: &str, entity_id: &str) -> Seq<u8> {
    utf8(device_id) + utf8("/") + utf8(entity_id) + utf8("/state")
}

/// Topic on which an entity takes commands: `{device_id}/{entity_id}/set`.
pub open spec fn command_topic(device_id: &str, entity_id: &str) -> Seq<u8> {
    utf8(device_id) + utf8("/") + utf8(entity_id) + utf8("/set")
}

/// Topic on which an entity is announced:
/// `homeassistant/{domain}/{device_id}/{entity_id}/config`.
pub open spec fn config_topic(domain: &str, device_id: &str, entity_id: &str) -> Seq<u8> {
    utf8(HA_DISCOVERY_PREFIX) + utf8("/") + utf8(domain) + utf8("/") + utf8(device_id) + utf8("/")
        + utf8(entity_id) + utf8("/config")
}

/// Identifier of an entity across devices: `{device_id}_{entity_id}`.
pub open spec fn unique_id(device_id: &str, entity_id: &str) -> Seq<u8> {
    utf8(device_id) + utf8("_") + utf8(entity_id)
}

/// One member of an object: the key, a colon and the value, both quoted.
pub open spec fn member(key: &str, value: Seq<u8>) -> Seq<u8> {
    quoted(utf8(key)) + utf8(":") + quoted(value)
}

/// A member that is written, after a comma, only when it has a value.
pub open spec fn optional_member(key: &str, value: Option<&'static str>) -> Seq<u8> {
    match value {
        Some(v) => utf8(",") + member(key, utf8(v)),
        None => Seq::empty(),
    }
}

/// The object that describes the device inside a discovery document.
pub open spec fn device_block(device: DeviceConfig) -> Seq<u8> {
    utf8("{") + quoted(utf8("identifiers")) + utf8(":[") + quoted(utf8(device.device_id)) + utf8(
        "],",
    ) + member("name", utf8(device.device_name)) + utf8(",") + member(
        "manufacturer",
        utf8(device.manufacturer),
    ) + utf8(",") + member("model", utf8(device.model)) + utf8("}")
}

/// The discovery document of an entity. `commands` says whether the entity
/// takes commands, and so whether the document names a command topic.
pub open spec fn discovery_payload(
    device: DeviceConfig,
    entity: EntityConfig,
    commands: bool,
) -> Seq<u8> {
    utf8("{") + member("name", utf8(entity.name)) + utf8(",") + member(
        "unique_id",
        unique_id(device.device_id, entity.id),
    ) + utf8(",") + quoted(utf8("device")) + utf8(":") + device_block(device) + utf8(",") + member(
        "state_topic",
        state_topic(device.device_id, entity.id),
    ) + (if commands {
        utf8(",") + member("command_topic", command_topic(device.device_id, entity.id))
    } else {
        Seq::empty()
    }) + optional_member("unit_of_measurement", entity.measurement_unit) + optional_member(
        "device_class",
        entity.device_class,
    ) + optional_member("state_class", entity.state_class) + utf8("}")
}

/// Two entities of one device that take commands on the same topic have the
/// same identifier.
pub proof fn lemma_command_topic_injective(device_id: &str, a: &str, b: &str)
    requires
        command_topic(device_id, a) == command_topic(device_id, b),
    ensures
        a@ == b@,
{
    let head = utf8(device_id) + utf8("/");
    let tail = utf8("/set");
    lemma_middle_cancels(head, utf8(a), tail, head, utf8(b), tail);
    vstd::utf8::encode_utf8_decode_utf8(a@);
    vstd::utf8::encode_utf8_decode_utf8(b@);
}

/// Two entities of one device that report their state on the same topic
/// have the same identifier.
pub proof fn lemma_state_topic_injective(device_id: &str, a: &str, b: &str)
    requires
        state_topic(device_id, a) == state_topic(device_id, b),
    ensures
        a@ == b@,
{
    let head = utf8(device_id) + utf8("/");
    let tail = utf8("/state");
    lemma_middle_cancels(head, utf8(a), tail, head, utf8(b), tail);
    vstd::utf8::encode_utf8_decode_utf8(a@);
    vstd::utf8::encode_utf8_decode_utf8(b@);
}

/// Two entities of one device that are announced on the same topic, under
/// domains whose names are equally long, have the same identifier.
pub proof fn lemma_config_topic_injective(
    domain_a: &str,
    domain_b: &str,
    device_id: &str,
    a: &str,
    b: &str,
)
    requires
        utf8(domain_a).len() == utf8(domain_b).len(),
        config_topic(domain_a, device_id, a) == config_topic(domain_b, device_id, b),
    ensures
        a@ == b@,
{
    let prefix = utf8(HA_DISCOVERY_PREFIX) + utf8("/");
    let head_a = prefix + utf8(domain_a) + utf8("/") + utf8(device_id) + utf8("/");
    let head_b = prefix + utf8(domain_b) + utf8("/") + utf8(device_id) + utf8("/");
    let tail = utf8("/config");
    lemma_middle_cancels(head_a, utf8(a), tail, head_b, utf8(b), tail);
    vstd::utf8::encode_utf8_decode_utf8(a@);
    vstd::utf8::encode_utf8_decode_utf8(b@);
}

/// No state topic is a command topic.
pub proof fn lemma_state_topic_is_no_command_topic(device_id: &str, a: &str, b: &str)
    ensures
        state_topic(device_id, a) != command_topic(device_id, b),
{
    reveal_strlit("/state");
    reveal_strlit("/set");
    vstd::string::is_ascii_spec_bytes("/state");
    vstd::string::is_ascii_spec_bytes("/set");
    let s = state_topic(device_id, a);
    let c = command_topic(device_id, b);
    assert(s[s.len() - 1] == utf8("/state")[5]);
    assert(c[c.len() - 1] == utf8("/set")[3]);
}

/// Of two equal texts whose heads are equally long and whose tails are
/// equally long, the middles are equal.
proof fn lemma_middle_cancels(
    head_x: Seq<u8>,
    x: Seq<u8>,
    tail_x: Seq<u8>,
    head_y: Seq<u8>,
    y: Seq<u8>,
    tail_y: Seq<u8>,
)
    requires
        head_x.len() == head_y.len(),
        tail_x.len() == tail_y.len(),
        head_x + x + tail_x == head_y + y + tail_y,
    ensures
        x == y,
{
    let left = head_x + x + tail_x;
    let right = head_y + y + tail_y;
    assert(left.len() == right.len());
    assert forall|k: int| 0 <= k < x.len() implies x[k] == y[k] by {
        assert(left[head_x.len() + k] == x[k]);
        assert(right[head_y.len() + k] == y[k]);
    }
    assert(x =~= y);
}

pub fn build_state_topic(device_id: &str, entity_id: &str) -> (topic: Vec<u8>)
    ensures
        topic@ == state_topic(device_id, entity_id),
{
    let mut topic: Vec<u8> = Vec::new();
    push_str(&mut topic, device_id);
    push_str(&mut topic, "/");
    push_str(&mut topic, entity_id);
    push_str(&mut topic, "/state");
    topic
}

pub fn build_command_topic(device_id: &str, entity_id: &str) -> (topic: Vec<u8>)
    ensures
        topic@ == command_topic(device_id, entity_id),
{
    let mut topic: Vec<u8> = Vec::new();
    push_str(&mut topic, device_id);
    push_str(&mut topic, "/");
    push_str(&mut topic, entity_id);
    push_str(&mut topic, "/set");
    topic
}

pub fn build_config_topic(domain: &str, device_id: &str, entity_id: &str) -> (topic: Vec<u8>)
    ensures
        topic@ == config_topic(domain, device_id, entity_id),
{
    let mut topic: Vec<u8> = Vec::new();
    push_str(&mut topic, HA_DISCOVERY_PREFIX);
    push_str(&mut topic, "/");
    push_str(&mut topic, domain);
    push_str(&mut topic, "/");
    push_str(&mut topic, device_id);
    push_str(&mut topic, "/");
    push_str(&mut topic, entity_id);
    push_str(&mut topic, "/config");
    topic
}

pub fn build_unique_id(device_id: &str, entity_id: &str) -> (id: Vec<u8>)
    ensures
        id@ == unique_id(device_id, entity_id),
{
    let mut id: Vec<u8> = Vec::new();
    push_str(&mut id, device_id);
    push_str(&mut id, "_");
    push_str(&mut id, entity_id);
    id
}

fn push_member(out: &mut Vec<u8>, key: &str, value: &[u8])
    ensures
        final(out)@ == old(out)@ + member(key, value@),
{
    push_quoted(out, key);
    push_str(out, ":");
    out.push(crate::text::QUOTE);
    push_escaped(out, value);
    out.push(crate::text::QUOTE);
}

fn push_optional_member(out: &mut Vec<u8>, key: &str, value: Option<&'static str>)
    ensures
        final(out)@ == old(out)@ + optional_member(key, value),
{
    match value {
        Some(v) => {
            push_str(out, ",");
            push_member(out, key, v.as_bytes());
        },
        None => {
        },
    }
}

fn push_device_block(out: &mut Vec<u8>, device: &DeviceConfig)
    ensures
        final(out)@ == old(out)@ + device_block(*device),
{
    push_str(out, "{");
    push_quoted(out, "identifiers");
    push_str(out, ":[");
    push_quoted(out, device.device_id);
    push_str(out, "],");
    push_member(out, "name", device.device_name.as_bytes());
    push_str(out, ",");
    push_member(out, "manufacturer", device.manufacturer.as_bytes());
    push_str(out, ",");
    push_member(out, "model", device.model.as_bytes());
    push_str(out, "}");
}

/// Writes the discovery document of an entity.
pub fn build_discovery_payload(
    device: &DeviceConfig,
    entity: &EntityConfig,
    commands: bool,
) -> (payload: Vec<u8>)
    ensures
        payload@ == discovery_payload(*device, *entity, commands),
{
    let mut out: Vec<u8> = Vec::new();
    push_str(&mut out, "{");
    push_member(&mut out, "name", entity.name.as_bytes());
    push_str(&mut out, ",");
    let unique = build_unique_id(device.device_id, entity.id);
    push_member(&mut out, "unique_id", unique.as_slice());
    push_str(&mut out, ",");
    push_quoted(&mut out, "device");
    push_str(&mut out, ":");
    push_device_block(&mut out, device);
    push_str(&mut out, ",");
    let state = build_state_topic(device.device_id, entity.id);
    push_member(&mut out, "state_topic", state.as_slice());
    if commands {
        push_str(&mut out, ",");
        let command = build_command_topic(device.device_id, entity.id);
        push_member(&mut out, "command_topic", command.as_slice());
    }
    push_optional_member(&mut out, "unit_of_measurement", entity.measurement_unit);
    push_optional_member(&mut out, "device_class", entity.device_class);
    push_optional_member(&mut out, "state_class", entity.state_class);
    push_str(&mut out, "}");
    out
}

} // verus!
