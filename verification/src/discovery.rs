//! The discovery payloads that announce the meter's two sensors.
//!
//! Both sensors belong to one device. Their payloads share a base descriptor
//! and differ in three fields only. The base says, among other things, where
//! the readings arrive and how to tell whether the sensors are available.

use vstd::prelude::*;

use crate::encoding::{json_object, json_string, object_members};
use crate::payload::{put_object, put_string, Members};
use crate::text::join2;

verus! {

/// A device descriptor, as mathematical sequences.
pub struct DeviceView {
    pub identifiers: Seq<char>,
    pub manufacturer: Seq<char>,
    pub model: Seq<char>,
    pub name: Seq<char>,
}

/// The shared base of the discovery payloads, as mathematical sequences.
pub struct DiscoveryView {
    pub schema: Seq<char>,
    pub state_topic: Seq<char>,
    pub availability_topic: Seq<char>,
    pub availability_template: Seq<char>,
    pub payload_available: Seq<char>,
    pub payload_not_available: Seq<char>,
    pub unit_of_measurement: Seq<char>,
    pub device_class: Seq<char>,
    pub device: DeviceView,
}

/// The discovery payload of one sensor, as mathematical sequences.
pub struct SensorView {
    pub base: DiscoveryView,
    pub unique_id: Seq<char>,
    pub name: Seq<char>,
    pub value_template: Seq<char>,
}

/// The stable identifier of the device: `d0bby_{identifier}`.
pub open spec fn device_identifier(identifier: Seq<char>) -> Seq<char> {
    "d0bby_"@ + identifier
}

/// The descriptor of the device with the given instance identifier.
pub open spec fn device_of(identifier: Seq<char>) -> DeviceView {
    DeviceView {
        identifiers: device_identifier(identifier),
        manufacturer: "Marcel Kummer"@,
        model: "d0bby"@,
        name: "d0bby"@,
    }
}

/// The base descriptor for the given instance, whose readings arrive on
/// `state_topic`: JSON schema, energy in kWh, and the device. Availability
/// is read from the state messages: their field `state` says `ON` while the
/// sensors are available, and `OFF` when they are not.
pub open spec fn discovery_of(identifier: Seq<char>, state_topic: Seq<char>) -> DiscoveryView {
    DiscoveryView {
        schema: "json"@,
        state_topic: state_topic,
        availability_topic: state_topic,
        availability_template: "{{ value_json.state }}"@,
        payload_available: "ON"@,
        payload_not_available: "OFF"@,
        unit_of_measurement: "kWh"@,
        device_class: "energy"@,
        device: device_of(identifier),
    }
}

impl DiscoveryView {
    /// The base with the three sensor fields set.
    pub open spec fn variant(
        self,
        unique_id: Seq<char>,
        name: Seq<char>,
        value_template: Seq<char>,
    ) -> SensorView {
        SensorView { base: self, unique_id: unique_id, name: name, value_template: value_template }
    }

    /// The sensor of imported energy: it reads `in_kwh` from the state payload.
    pub open spec fn input(self) -> SensorView {
        self.variant(self.device.identifiers + "_in"@, "Input"@, "{{ value_json.in_kwh }}"@)
    }

    /// The sensor of exported energy: it reads `out_kwh` from the state payload.
    pub open spec fn output(self) -> SensorView {
        self.variant(self.device.identifiers + "_out"@, "Output"@, "{{ value_json.out_kwh }}"@)
    }
}

/// Members of the device object.
pub open spec fn device_members(device: DeviceView) -> Members {
    seq![
        ("identifiers"@, json_string(device.identifiers)),
        ("manufacturer"@, json_string(device.manufacturer)),
        ("model"@, json_string(device.model)),
        ("name"@, json_string(device.name)),
    ]
}

/// Members of the base descriptor; the device is a nested object.
pub open spec fn discovery_members(base: DiscoveryView) -> Members {
    seq![
        ("schema"@, json_string(base.schema)),
        ("state_topic"@, json_string(base.state_topic)),
        ("availability_topic"@, json_string(base.availability_topic)),
        ("availability_template"@, json_string(base.availability_template)),
        ("payload_available"@, json_string(base.payload_available)),
        ("payload_not_available"@, json_string(base.payload_not_available)),
        ("unit_of_measurement"@, json_string(base.unit_of_measurement)),
        ("device_class"@, json_string(base.device_class)),
        ("device"@, json_object(device_members(base.device))),
    ]
}

/// Members of a sensor's payload: those of the base, then the three fields
/// of the sensor.
pub open spec fn sensor_members(sensor: SensorView) -> Members {
    discovery_members(sensor.base) + seq![
        ("unique_id"@, json_string(sensor.unique_id)),
        ("name"@, json_string(sensor.name)),
        ("value_template"@, json_string(sensor.value_template)),
    ]
}

/// The discovery payload of a sensor.
pub open spec fn sensor_text(sensor: SensorView) -> Seq<char> {
    json_object(sensor_members(sensor))
}

/// Describes the device that the sensors belong to.
pub struct Device {
    pub identifiers: String,
    pub manufacturer: String,
    pub model: String,
    pub name: String,
}

/// The fields that the discovery payloads of both sensors share.
pub struct Discovery {
    pub schema: String,
    /// Topic on which the readings arrive.
    pub state_topic: String,
    /// Topic whose messages say whether the sensors are available.
    pub availability_topic: String,
    /// Template that takes the availability out of such a message.
    pub availability_template: String,
    /// What the template gives while the sensors are available.
    pub payload_available: String,
    /// What the template gives when the sensors are not available.
    pub payload_not_available: String,
    pub unit_of_measurement: String,
    pub device_class: String,
    pub device: Device,
}

/// The discovery payload of one sensor: the base and the sensor's own fields.
pub struct Sensor {
    pub base: Discovery,
    pub unique_id: String,
    pub name: String,
    pub value_template: String,
}

impl View for Device {
    type V = DeviceView;

    open spec fn view(&self) -> DeviceView {
        DeviceView {
            identifiers: self.identifiers@,
            manufacturer: self.manufacturer@,
            model: self.model@,
            name: self.name@,
        }
    }
}

impl View for Discovery {
    type V = DiscoveryView;

    open spec fn view(&self) -> DiscoveryView {
        DiscoveryView {
            schema: self.schema@,
            state_topic: self.state_topic@,
            availability_topic: self.availability_topic@,
            availability_template: self.availability_template@,
            payload_available: self.payload_available@,
            payload_not_available: self.payload_not_available@,
            unit_of_measurement: self.unit_of_measurement@,
            device_class: self.device_class@,
            device: self.device@,
        }
    }
}

impl View for Sensor {
    type V = SensorView;

    open spec fn view(&self) -> SensorView {
        SensorView {
            base: self.base@,
            unique_id: self.unique_id@,
            name: self.name@,
            value_template: self.value_template@,
        }
    }
}

/// The keys of the device object, by their lengths: no two of them are the
/// same.
proof fn lemma_device_keys()
    ensures
        "identifiers"@.len() == 11,
        "manufacturer"@.len() == 12,
        "model"@.len() == 5,
        "name"@.len() == 4,
{
    reveal_strlit("identifiers");
    reveal_strlit("manufacturer");
    reveal_strlit("model");
    reveal_strlit("name");
}

impl Device {
    /// The descriptor of the device with the given instance identifier.
    pub fn new(identifier: &str) -> (device: Device)
        ensures
            device@ == device_of(identifier@),
    {
        Device {
            identifiers: join2("d0bby_", identifier),
            manufacturer: "Marcel Kummer".to_owned(),
            model: "d0bby".to_owned(),
            name: "d0bby".to_owned(),
        }
    }

    /// A copy with the same fields.
    pub fn copy(&self) -> (device: Device)
        ensures
            device@ == self@,
    {
        Device {
            identifiers: self.identifiers.clone(),
            manufacturer: self.manufacturer.clone(),
            model: self.model.clone(),
            name: self.name.clone(),
        }
    }

    /// The device as a JSON object.
    fn to_object(&self) -> (object: json::object::Object)
        ensures
            object_members(object) == device_members(self@),
    {
        let mut object = json::object::Object::new();
        proof {
            lemma_device_keys();
        }
        put_string(&mut object, "identifiers", self.identifiers.as_str());
        put_string(&mut object, "manufacturer", self.manufacturer.as_str());
        put_string(&mut object, "model", self.model.as_str());
        put_string(&mut object, "name", self.name.as_str());
        object
    }
}

/// The keys of a sensor's payload, by their lengths and, where two are of
/// one length, by their first characters: no two of them are the same.
proof fn lemma_sensor_keys()
    ensures
        "schema"@.len() == 6,
        "schema"@[0] == 's',
        "state_topic"@.len() == 11,
        "availability_topic"@.len() == 18,
        "availability_template"@.len() == 21,
        "availability_template"@[0] == 'a',
        "payload_available"@.len() == 17,
        "payload_not_available"@.len() == 21,
        "payload_not_available"@[0] == 'p',
        "unit_of_measurement"@.len() == 19,
        "device_class"@.len() == 12,
        "device"@.len() == 6,
        "device"@[0] == 'd',
        "unique_id"@.len() == 9,
        "name"@.len() == 4,
        "value_template"@.len() == 14,
{
    reveal_strlit("schema");
    reveal_strlit("state_topic");
    reveal_strlit("availability_topic");
    reveal_strlit("availability_template");
    reveal_strlit("payload_available");
    reveal_strlit("payload_not_available");
    reveal_strlit("unit_of_measurement");
    reveal_strlit("device_class");
    reveal_strlit("device");
    reveal_strlit("unique_id");
    reveal_strlit("name");
    reveal_strlit("value_template");
}

impl Discovery {
    /// The base descriptor for the given instance, whose readings arrive on
    /// `state_topic`.
    pub fn new(identifier: &str, state_topic: &str) -> (base: Discovery)
        ensures
            base@ == discovery_of(identifier@, state_topic@),
    {
        Discovery {
            schema: "json".to_owned(),
            state_topic: state_topic.to_owned(),
            availability_topic: state_topic.to_owned(),
            availability_template: "{{ value_json.state }}".to_owned(),
            payload_available: "ON".to_owned(),
            payload_not_available: "OFF".to_owned(),
            unit_of_measurement: "kWh".to_owned(),
            device_class: "energy".to_owned(),
            device: Device::new(identifier),
        }
    }

    /// A copy with the same fields.
    pub fn copy(&self) -> (base: Discovery)
        ensures
            base@ == self@,
    {
        Discovery {
            schema: self.schema.clone(),
            state_topic: self.state_topic.clone(),
            availability_topic: self.availability_topic.clone(),
            availability_template: self.availability_template.clone(),
            payload_available: self.payload_available.clone(),
            payload_not_available: self.payload_not_available.clone(),
            unit_of_measurement: self.unit_of_measurement.clone(),
            device_class: self.device_class.clone(),
            device: self.device.copy(),
        }
    }

    /// A sensor's payload: a copy of the base with the three sensor fields set.
    /// The base itself stays as it is.
    pub fn variant(&self, unique_id: &str, name: &str, value_template: &str) -> (sensor: Sensor)
        ensures
            sensor@ == self@.variant(unique_id@, name@, value_template@),
    {
        Sensor {
            base: self.copy(),
            unique_id: unique_id.to_owned(),
            name: name.to_owned(),
            value_template: value_template.to_owned(),
        }
    }

    /// The payload for the sensor of imported energy.
    pub fn input(&self) -> (sensor: Sensor)
        ensures
            sensor@ == self@.input(),
    {
        let unique_id = join2(self.device.identifiers.as_str(), "_in");
        self.variant(unique_id.as_str(), "Input", "{{ value_json.in_kwh }}")
    }

    /// The payload for the sensor of exported energy.
    pub fn output(&self) -> (sensor: Sensor)
        ensures
            sensor@ == self@.output(),
    {
        let unique_id = join2(self.device.identifiers.as_str(), "_out");
        self.variant(unique_id.as_str(), "Output", "{{ value_json.out_kwh }}")
    }

    /// The base as a JSON object.
    fn to_object(&self) -> (object: json::object::Object)
        ensures
            object_members(object) == discovery_members(self@),
    {
        let mut object = json::object::Object::new();
        proof {
            lemma_sensor_keys();
        }
        put_string(&mut object, "schema", self.schema.as_str());
        put_string(&mut object, "state_topic", self.state_topic.as_str());
        put_string(&mut object, "availability_topic", self.availability_topic.as_str());
        put_string(&mut object, "availability_template", self.availability_template.as_str());
        put_string(&mut object, "payload_available", self.payload_available.as_str());
        put_string(&mut object, "payload_not_available", self.payload_not_available.as_str());
        put_string(&mut object, "unit_of_measurement", self.unit_of_measurement.as_str());
        put_string(&mut object, "device_class", self.device_class.as_str());
        put_object(&mut object, "device", self.device.to_object());
        object
    }
}

impl Sensor {
    /// Serialises the payload: the members of the base in their order, then
    /// `unique_id`, `name` and `value_template`.
    pub fn to_json(&self) -> (payload: String)
        ensures
            payload@ == sensor_text(self@),
    {
        let mut object = self.base.to_object();
        proof {
            lemma_sensor_keys();
        }
        put_string(&mut object, "unique_id", self.unique_id.as_str());
        put_string(&mut object, "name", self.name.as_str());
        put_string(&mut object, "value_template", self.value_template.as_str());
        assert(object_members(object) =~= sensor_members(self@));
        object.dump()
    }
}

/// The payloads of the two sensors differ in `unique_id`, `name` and
/// `value_template`, and in nothing else: each holds the base unchanged, and
/// their JSON objects have the same keys in the same order, with the members
/// of the base, text for text, in front of the three fields of the sensor.
pub proof fn lemma_variants_differ_in_three_fields(base: DiscoveryView)
    ensures
        base.input().base == base,
        base.output().base == base,
        base.input().unique_id != base.output().unique_id,
        base.input().name != base.output().name,
        base.input().value_template != base.output().value_template,
        sensor_members(base.input()).len() == discovery_members(base).len() + 3,
        sensor_members(base.output()).len() == discovery_members(base).len() + 3,
        forall|i: int|
            0 <= i < discovery_members(base).len() ==> sensor_members(base.input())[i]
                == discovery_members(base)[i] && sensor_members(base.output())[i]
                == discovery_members(base)[i],
        forall|i: int|
            0 <= i < sensor_members(base.input()).len() ==> sensor_members(base.input())[i].0
                == sensor_members(base.output())[i].0,
        forall|i: int|
            0 <= i < discovery_members(base).len() ==> discovery_members(base)[i].0
                != "unique_id"@ && discovery_members(base)[i].0 != "name"@
                && discovery_members(base)[i].0 != "value_template"@,
{
    reveal_strlit("_in");
    reveal_strlit("_out");
    reveal_strlit("Input");
    reveal_strlit("Output");
    reveal_strlit("{{ value_json.in_kwh }}");
    reveal_strlit("{{ value_json.out_kwh }}");
    assert("_in"@.len() == 3);
    assert("_out"@.len() == 4);
    assert("Input"@.len() == 5);
    assert("Output"@.len() == 6);
    assert("{{ value_json.in_kwh }}"@.len() == 23);
    assert("{{ value_json.out_kwh }}"@.len() == 24);
    assert((base.device.identifiers + "_in"@).len() != (base.device.identifiers + "_out"@).len());
    lemma_sensor_keys();
}

} // verus!
