//! The discovery publisher: the registrations that tell the hub which
//! entities this desktop has.

use crate::config::{Config, ConfigView, HomeAssistantConfig, HomeAssistantConfigView, IdleModuleConfig, SensorType};
use crate::mqtt::Publication;
use crate::sensors::{sensor_count, sensors_of, lemma_sensor_count, Sensor, SensorClass, SensorView, SensorsModule};
use crate::text::{join2, join3};
use crate::topics::{discovery_topic, make_discovery_topic, make_state_topic, state_topic};
use vstd::prelude::*;

verus! {

/// The device that all entities of this desktop belong to.
#[derive(Debug, PartialEq, Eq)]
pub struct Device {
    pub identifiers: String,
    pub name: String,
    pub manufacturer: String,
    pub model: String,
    pub sw_version: String,
}

pub struct DeviceView {
    pub identifiers: Seq<char>,
    pub name: Seq<char>,
    pub manufacturer: Seq<char>,
    pub model: Seq<char>,
    pub sw_version: Seq<char>,
}

impl View for Device {
    type V = DeviceView;

    open spec fn view(&self) -> DeviceView {
        DeviceView {
            identifiers: self.identifiers@,
            name: self.name@,
            manufacturer: self.manufacturer@,
            model: self.model@,
            sw_version: self.sw_version@,
        }
    }
}

impl Clone for Device {
    fn clone(&self) -> (copy: Device)
        ensures
            copy@ == self@,
    {
        Device {
            identifiers: self.identifiers.clone(),
            name: self.name.clone(),
            manufacturer: self.manufacturer.clone(),
            model: self.model.clone(),
            sw_version: self.sw_version.clone(),
        }
    }
}

/// The device with the given identifier and display name.
pub open spec fn device_of(id: Seq<char>, name: Seq<char>) -> DeviceView {
    DeviceView {
        identifiers: id,
        name,
        manufacturer: "Max Jöhnk"@,
        model: "desktop2mqtt"@,
        sw_version: "0.1.0"@,
    }
}

impl Device {
    pub fn new(id: String, name: String) -> (device: Device)
        ensures
            device@ == device_of(id@, name@),
    {
        Device {
            identifiers: id,
            name,
            manufacturer: "Max Jöhnk".to_owned(),
            model: "desktop2mqtt".to_owned(),
            sw_version: "0.1.0".to_owned(),
        }
    }
}

/// What a registration says of a binary sensor.
#[derive(Debug, PartialEq, Eq)]
pub struct BinarySensorConfig {
    pub device_class: Option<String>,
    pub value_template: String,
    pub payload_off: bool,
    pub payload_on: bool,
    /// The seconds after which the state counts as unknown if it is not
    /// updated.
    pub expire_after: Option<u64>,
}

pub struct BinarySensorConfigView {
    pub device_class: Option<Seq<char>>,
    pub value_template: Seq<char>,
    pub payload_off: bool,
    pub payload_on: bool,
    pub expire_after: Option<u64>,
}

impl View for BinarySensorConfig {
    type V = BinarySensorConfigView;

    open spec fn view(&self) -> BinarySensorConfigView {
        BinarySensorConfigView {
            device_class: self.device_class.deep_view(),
            value_template: self.value_template@,
            payload_off: self.payload_off,
            payload_on: self.payload_on,
            expire_after: self.expire_after,
        }
    }
}

impl DeepView for BinarySensorConfig {
    type V = BinarySensorConfigView;

    open spec fn deep_view(&self) -> BinarySensorConfigView {
        self@
    }
}

impl Default for BinarySensorConfig {
    fn default() -> (config: BinarySensorConfig)
        ensures
            config@ == (BinarySensorConfigView {
                device_class: None,
                value_template: Seq::empty(),
                payload_off: false,
                payload_on: true,
                expire_after: None,
            }),
    {
        BinarySensorConfig {
            device_class: None,
            value_template: String::new(),
            payload_on: true,
            payload_off: false,
            expire_after: None,
        }
    }
}

/// What a registration says of a sensor.
#[derive(Debug, PartialEq, Eq)]
pub struct SensorConfig {
    pub device_class: Option<String>,
    pub value_template: String,
    /// The seconds after which the state counts as unknown if it is not
    /// updated.
    pub expire_after: Option<u64>,
    pub unit_of_measurement: Option<String>,
    pub icon: Option<String>,
}

pub struct SensorConfigView {
    pub device_class: Option<Seq<char>>,
    pub value_template: Seq<char>,
    pub expire_after: Option<u64>,
    pub unit_of_measurement: Option<Seq<char>>,
    pub icon: Option<Seq<char>>,
}

impl View for SensorConfig {
    type V = SensorConfigView;

    open spec fn view(&self) -> SensorConfigView {
        SensorConfigView {
            device_class: self.device_class.deep_view(),
            value_template: self.value_template@,
            expire_after: self.expire_after,
            unit_of_measurement: self.unit_of_measurement.deep_view(),
            icon: self.icon.deep_view(),
        }
    }
}

impl DeepView for SensorConfig {
    type V = SensorConfigView;

    open spec fn deep_view(&self) -> SensorConfigView {
        self@
    }
}

impl Default for SensorConfig {
    fn default() -> (config: SensorConfig)
        ensures
            config@ == (SensorConfigView {
                device_class: None,
                value_template: Seq::empty(),
                expire_after: None,
                unit_of_measurement: None,
                icon: None,
            }),
    {
        SensorConfig {
            device_class: None,
            value_template: String::new(),
            expire_after: None,
            unit_of_measurement: None,
            icon: None,
        }
    }
}

/// What a registration says of a light.
#[derive(Debug, PartialEq, Eq)]
pub struct LightConfig {
    pub command_topic: String,
    pub brightness: bool,
    pub schema: String,
}

pub struct LightConfigView {
    pub command_topic: Seq<char>,
    pub brightness: bool,
    pub schema: Seq<char>,
}

impl View for LightConfig {
    type V = LightConfigView;

    open spec fn view(&self) -> LightConfigView {
        LightConfigView {
            command_topic: self.command_topic@,
            brightness: self.brightness,
            schema: self.schema@,
        }
    }
}

impl DeepView for LightConfig {
    type V = LightConfigView;

    open spec fn deep_view(&self) -> LightConfigView {
        self@
    }
}

/// The registration of one entity. Exactly one of the three last fields
/// is filled in by the constructors below.
#[derive(Debug, PartialEq, Eq)]
pub struct ConfigMessage {
    pub availability_topic: String,
    pub name: String,
    pub unique_id: String,
    pub state_topic: String,
    pub device: Device,
    pub json_attributes_topic: String,
    pub binary_sensor: Option<BinarySensorConfig>,
    pub sensor: Option<SensorConfig>,
    pub light: Option<LightConfig>,
}

pub struct ConfigMessageView {
    pub availability_topic: Seq<char>,
    pub name: Seq<char>,
    pub unique_id: Seq<char>,
    pub state_topic: Seq<char>,
    pub device: DeviceView,
    pub json_attributes_topic: Seq<char>,
    pub binary_sensor: Option<BinarySensorConfigView>,
    pub sensor: Option<SensorConfigView>,
    pub light: Option<LightConfigView>,
}

impl View for ConfigMessage {
    type V = ConfigMessageView;

    open spec fn view(&self) -> ConfigMessageView {
        ConfigMessageView {
            availability_topic: self.availability_topic@,
            name: self.name@,
            unique_id: self.unique_id@,
            state_topic: self.state_topic@,
            device: self.device@,
            json_attributes_topic: self.json_attributes_topic@,
            binary_sensor: self.binary_sensor.deep_view(),
            sensor: self.sensor.deep_view(),
            light: self.light.deep_view(),
        }
    }
}

/// What all registrations share: the entity reads its state and its
/// attributes from the one state topic, and its availability from the topic
/// below it.
pub open spec fn message_of(
    name: Seq<char>,
    id: Seq<char>,
    device: DeviceView,
    topic: Seq<char>,
) -> ConfigMessageView {
    ConfigMessageView {
        availability_topic: topic + "/availability"@,
        name,
        unique_id: id,
        state_topic: topic,
        device,
        json_attributes_topic: topic,
        binary_sensor: None,
        sensor: None,
        light: None,
    }
}

impl ConfigMessage {
    fn common(name: String, id: String, device: Device, topic: String) -> (message: ConfigMessage)
        ensures
            message@ == message_of(name@, id@, device@, topic@),
    {
        ConfigMessage {
            availability_topic: join2(topic.as_str(), "/availability"),
            name,
            unique_id: id,
            device,
            state_topic: topic.clone(),
            json_attributes_topic: topic,
            binary_sensor: None,
            sensor: None,
            light: None,
        }
    }

    /// The registration of a binary sensor.
    pub fn binary_sensor(
        name: String,
        id: String,
        device: Device,
        topic: String,
        config: BinarySensorConfig,
    ) -> (message: ConfigMessage)
        ensures
            message@ == (ConfigMessageView {
                binary_sensor: Some(config@),
                ..message_of(name@, id@, device@, topic@)
            }),
    {
        let mut message = Self::common(name, id, device, topic);
        message.binary_sensor = Some(config);
        message
    }

    /// The registration of a sensor.
    pub fn sensor(
        name: String,
        id: String,
        device: Device,
        topic: String,
        config: SensorConfig,
    ) -> (message: ConfigMessage)
        ensures
            message@ == (ConfigMessageView {
                sensor: Some(config@),
                ..message_of(name@, id@, device@, topic@)
            }),
    {
        let mut message = Self::common(name, id, device, topic);
        message.sensor = Some(config);
        message
    }

    /// The registration of a light.
    pub fn light(
        name: String,
        id: String,
        device: Device,
        topic: String,
        config: LightConfig,
    ) -> (message: ConfigMessage)
        ensures
            message@ == (ConfigMessageView {
                light: Some(config@),
                ..message_of(name@, id@, device@, topic@)
            }),
    {
        let mut message = Self::common(name, id, device, topic);
        message.light = Some(config);
        message
    }
}

impl SensorClass {
    /// The device class the hub knows this class by, if it knows it.
    pub open spec fn hass_class(self) -> Option<Seq<char>> {
        match self {
            SensorClass::Generic => None,
            SensorClass::Battery => Some("battery"@),
            SensorClass::Temperature => Some("temperature"@),
        }
    }

    /// The unit the readings of this class are in.
    pub open spec fn unit(self) -> Option<Seq<char>> {
        match self {
            SensorClass::Generic => Some("%"@),
            SensorClass::Battery => Some("%"@),
            SensorClass::Temperature => Some("°C"@),
        }
    }

    pub fn to_hass_class(&self) -> (class: Option<String>)
        ensures
            class.deep_view() == self.hass_class(),
    {
        match self {
            SensorClass::Generic => None,
            SensorClass::Battery => Some("battery".to_owned()),
            SensorClass::Temperature => Some("temperature".to_owned()),
        }
    }

    pub fn to_unit(&self) -> (unit: Option<String>)
        ensures
            unit.deep_view() == self.unit(),
    {
        match self {
            SensorClass::Generic => Some("%".to_owned()),
            SensorClass::Battery => Some("%".to_owned()),
            SensorClass::Temperature => Some("°C".to_owned()),
        }
    }
}

/// One step of the discovery: listen on a topic, or register an entity
/// by publishing its registration, retained, on its discovery topic.
#[derive(Debug)]
pub enum Announcement {
    Subscribe(String),
    Register(Publication<ConfigMessage>),
}

pub enum AnnouncementView {
    Subscribe(Seq<char>),
    Register { topic: Seq<char>, message: ConfigMessageView },
}

impl View for Announcement {
    type V = AnnouncementView;

    open spec fn view(&self) -> AnnouncementView {
        match self {
            Announcement::Subscribe(topic) => AnnouncementView::Subscribe(topic@),
            Announcement::Register(publication) => AnnouncementView::Register {
                topic: publication.topic@,
                message: publication.payload@,
            },
        }
    }
}

impl DeepView for Announcement {
    type V = AnnouncementView;

    open spec fn deep_view(&self) -> AnnouncementView {
        self@
    }
}

/// The identifier of the device of an entity.
pub open spec fn device_id(entity_id: Seq<char>) -> Seq<char> {
    "desktop2mqtt_"@ + entity_id
}

/// The unique id of the entity `object` of a desktop.
pub open spec fn unique_id(entity_id: Seq<char>, object: Seq<char>) -> Seq<char> {
    entity_id + "_"@ + object + "_desktop2mqtt"@
}

pub fn make_unique_id(entity_id: &str, object: &str) -> (id: String)
    ensures
        id@ == unique_id(entity_id@, object@),
{
    let mut id = join3(entity_id, "_", object);
    id.append("_desktop2mqtt");
    id
}

/// The registration of the occupancy sensor.
pub open spec fn occupancy_registration(
    hass: HomeAssistantConfigView,
    topic: Seq<char>,
    device: DeviceView,
    expire_after: Option<u64>,
) -> AnnouncementView {
    AnnouncementView::Register {
        topic: discovery_topic("binary_sensor"@, hass.entity_id, "occupancy"@),
        message: ConfigMessageView {
            binary_sensor: Some(
                BinarySensorConfigView {
                    device_class: Some("occupancy"@),
                    value_template: "{{ value_json.occupancy }}"@,
                    payload_off: false,
                    payload_on: true,
                    expire_after,
                },
            ),
            ..message_of(
                hass.name + " Occupancy"@,
                unique_id(hass.entity_id, "occupancy"@),
                device,
                topic,
            )
        },
    }
}

/// The registration of the backlight.
pub open spec fn backlight_registration(
    hass: HomeAssistantConfigView,
    topic: Seq<char>,
    device: DeviceView,
) -> AnnouncementView {
    AnnouncementView::Register {
        topic: discovery_topic("light"@, hass.entity_id, "backlight"@),
        message: ConfigMessageView {
            light: Some(
                LightConfigView {
                    command_topic: topic + "/set"@,
                    brightness: true,
                    schema: "json"@,
                },
            ),
            ..message_of(
                hass.name + " Backlight"@,
                unique_id(hass.entity_id, "backlight"@),
                device,
                topic,
            )
        },
    }
}

/// What announcing the backlight takes: listening for its commands, then
/// its registration.
pub open spec fn backlight_announcements(
    hass: HomeAssistantConfigView,
    topic: Seq<char>,
    device: DeviceView,
) -> Seq<AnnouncementView> {
    seq![
        AnnouncementView::Subscribe(topic + "/set"@),
        backlight_registration(hass, topic, device),
    ]
}

/// The registration of one sensor entity.
pub open spec fn sensor_registration(
    hass: HomeAssistantConfigView,
    topic: Seq<char>,
    device: DeviceView,
    sensor: SensorView,
) -> AnnouncementView {
    AnnouncementView::Register {
        topic: discovery_topic("sensor"@, hass.entity_id, sensor.id),
        message: ConfigMessageView {
            sensor: Some(
                SensorConfigView {
                    device_class: sensor.class.hass_class(),
                    value_template: "{{ value_json.sensors."@ + sensor.id + " }}"@,
                    expire_after: None,
                    unit_of_measurement: sensor.class.unit(),
                    icon: sensor.icon,
                },
            ),
            ..message_of(
                hass.name + " "@ + sensor.name,
                unique_id(hass.entity_id, sensor.id),
                device,
                topic,
            )
        },
    }
}

/// The registrations of a list of sensor entities, in order.
pub open spec fn sensor_announcements(
    hass: HomeAssistantConfigView,
    topic: Seq<char>,
    device: DeviceView,
    sensors: Seq<SensorView>,
) -> Seq<AnnouncementView> {
    Seq::new(sensors.len(), |i: int| sensor_registration(hass, topic, device, sensors[i]))
}

/// The seconds after which the hub forgets the occupancy: twice the poll
/// rate of the idle module, or nothing where that module is off.
pub open spec fn expiry_of(idle: Option<IdleModuleConfig>) -> Option<u64> {
    match idle {
        Some(idle) => Some(idle.poll_rate.doubled_secs() as u64),
        None => None,
    }
}

/// The whole discovery for a configuration: the occupancy sensor always,
/// the backlight where one is configured, and every sensor entity of the
/// kinds that are switched on.
pub open spec fn discovery(config: ConfigView) -> Seq<AnnouncementView> {
    let topic = state_topic(config.hass.entity_id);
    let device = device_of(device_id(config.hass.entity_id), config.hass.name);
    seq![occupancy_registration(config.hass, topic, device, expiry_of(config.modules.idle))] + (
    if config.modules.backlight is Some {
        backlight_announcements(config.hass, topic, device)
    } else {
        Seq::empty()
    }) + sensor_announcements(config.hass, topic, device, sensors_of(config.modules.sensors.types))
}

/// How many of the announcements register an entity.
pub open spec fn registrations(announcements: Seq<AnnouncementView>) -> nat
    decreases announcements.len(),
{
    if announcements.len() == 0 {
        0
    } else {
        registrations(announcements.drop_last()) + (if announcements.last() is Register {
            1nat
        } else {
            0nat
        })
    }
}

/// Counting registrations goes part by part.
pub proof fn lemma_registrations_concat(a: Seq<AnnouncementView>, b: Seq<AnnouncementView>)
    ensures
        registrations(a + b) == registrations(a) + registrations(b),
    decreases b.len(),
{
    if b.len() == 0 {
        assert(a + b == a);
    } else {
        lemma_registrations_concat(a, b.drop_last());
        assert((a + b).drop_last() == a + b.drop_last());
        assert((a + b).last() == b.last());
    }
}

/// A list that only registers entities has as many registrations as items.
pub proof fn lemma_registrations_all(list: Seq<AnnouncementView>)
    requires
        forall|i: int| 0 <= i < list.len() ==> (#[trigger] list[i]) is Register,
    ensures
        registrations(list) == list.len(),
    decreases list.len(),
{
    if list.len() > 0 {
        lemma_registrations_all(list.drop_last());
    }
}

/// The discovery registers one occupancy sensor, one light where a
/// backlight is configured, and one sensor per entity of the kinds that are
/// switched on: nothing else, and nothing twice.
pub proof fn lemma_discovery_is_complete(config: ConfigView)
    ensures
        registrations(discovery(config)) == 1 + (if config.modules.backlight is Some {
            1nat
        } else {
            0nat
        }) + sensor_count(config.modules.sensors.types),
{
    let topic = state_topic(config.hass.entity_id);
    let device = device_of(device_id(config.hass.entity_id), config.hass.name);
    let first = seq![
        occupancy_registration(config.hass, topic, device, expiry_of(config.modules.idle)),
    ];
    let second = if config.modules.backlight is Some {
        backlight_announcements(config.hass, topic, device)
    } else {
        Seq::empty()
    };
    let third = sensor_announcements(
        config.hass,
        topic,
        device,
        sensors_of(config.modules.sensors.types),
    );
    lemma_sensor_count(config.modules.sensors.types);
    lemma_registrations_all(first);
    lemma_registrations_all(third);
    if config.modules.backlight is Some {
        let listen = seq![AnnouncementView::Subscribe(topic + "/set"@)];
        let register = seq![backlight_registration(config.hass, topic, device)];
        assert(second == listen + register);
        assert(listen.drop_last() == Seq::<AnnouncementView>::empty());
        assert(registrations(listen) == 0) by {
            assert(registrations(listen.drop_last()) == 0);
        }
        lemma_registrations_all(register);
        lemma_registrations_concat(listen, register);
    }
    lemma_registrations_concat(first, second);
    lemma_registrations_concat(first + second, third);
}

/// Every registration of a discovery names the same device and reads its
/// state, its attributes and its availability from the same topics.
pub proof fn lemma_discovery_shares_device(config: ConfigView, at: int)
    requires
        0 <= at < discovery(config).len(),
    ensures
        discovery(config)[at] matches AnnouncementView::Register { message, .. } ==> {
            &&& message.device == device_of(device_id(config.hass.entity_id), config.hass.name)
            &&& message.state_topic == state_topic(config.hass.entity_id)
            &&& message.json_attributes_topic == state_topic(config.hass.entity_id)
            &&& message.availability_topic == state_topic(config.hass.entity_id)
                + "/availability"@
        },
{
}

/// Two entities of one desktop have the same unique id only if they are
/// the same object.
pub proof fn lemma_unique_id_is_injective(entity_id: Seq<char>, a: Seq<char>, b: Seq<char>)
    requires
        unique_id(entity_id, a) == unique_id(entity_id, b),
    ensures
        a == b,
{
    let x = unique_id(entity_id, a);
    let y = unique_id(entity_id, b);
    let prefix = entity_id + "_"@;
    assert(x.len() == prefix.len() + a.len() + "_desktop2mqtt"@.len());
    assert(y.len() == prefix.len() + b.len() + "_desktop2mqtt"@.len());
    assert forall|i: int| 0 <= i < a.len() implies a[i] == b[i] by {
        assert(x[prefix.len() + i] == a[i]);
        assert(y[prefix.len() + i] == b[i]);
    }
    assert(a =~= b);
}

/// Where the sensor entities have ids of their own, different from one
/// another and from `occupancy` and `backlight`, no two registrations of a
/// discovery carry the same unique id.
pub proof fn lemma_discovery_ids_are_unique(config: ConfigView, i: int, j: int)
    requires
        0 <= i < j < discovery(config).len(),
        discovery(config)[i] is Register,
        discovery(config)[j] is Register,
        forall|a: int, b: int|
            0 <= a < b < sensors_of(config.modules.sensors.types).len() ==> (#[trigger] sensors_of(
                config.modules.sensors.types,
            )[a]).id != (#[trigger] sensors_of(config.modules.sensors.types)[b]).id,
        forall|a: int|
            0 <= a < sensors_of(config.modules.sensors.types).len() ==> (#[trigger] sensors_of(
                config.modules.sensors.types,
            )[a]).id != "occupancy"@ && sensors_of(config.modules.sensors.types)[a].id
                != "backlight"@,
    ensures
        discovery(config)[i]->message.unique_id != discovery(config)[j]->message.unique_id,
{
    let entity = config.hass.entity_id;
    let sensors = sensors_of(config.modules.sensors.types);
    let offset: int = if config.modules.backlight is Some {
        3
    } else {
        1
    };
    let x = discovery(config)[i]->message.unique_id;
    let y = discovery(config)[j]->message.unique_id;
    assert("occupancy"@ != "backlight"@) by {
        reveal_strlit("occupancy");
        reveal_strlit("backlight");
        assert("occupancy"@[0] != "backlight"@[0]);
    }
    if j >= offset {
        assert(y == unique_id(entity, sensors[j - offset].id));
        if i >= offset {
            assert(x == unique_id(entity, sensors[i - offset].id));
            assert(sensors[i - offset].id != sensors[j - offset].id);
            if x == y {
                lemma_unique_id_is_injective(entity, sensors[i - offset].id, sensors[j - offset].id);
            }
        } else if i == 0 {
            assert(x == unique_id(entity, "occupancy"@));
            if x == y {
                lemma_unique_id_is_injective(entity, "occupancy"@, sensors[j - offset].id);
            }
        } else {
            assert(x == unique_id(entity, "backlight"@));
            if x == y {
                lemma_unique_id_is_injective(entity, "backlight"@, sensors[j - offset].id);
            }
        }
    } else {
        assert(i == 0 && j == 2);
        assert(x == unique_id(entity, "occupancy"@));
        assert(y == unique_id(entity, "backlight"@));
        if x == y {
            lemma_unique_id_is_injective(entity, "occupancy"@, "backlight"@);
        }
    }
}

/// The worker that announces the entities, once, at start.
#[derive(Debug)]
pub struct HomeAssistantWorker;

impl HomeAssistantWorker {
    pub fn new() -> (worker: HomeAssistantWorker) {
        HomeAssistantWorker
    }

    /// Announces the backlight.
    pub fn announce_backlight(config: &HomeAssistantConfig, topic: String, device: Device) -> (out:
        Vec<Announcement>)
        ensures
            out.deep_view() == backlight_announcements(config@, topic@, device@),
    {
        let config_topic = make_discovery_topic("light", config.entity_id.as_str(), "backlight");
        let command_topic = join2(topic.as_str(), "/set");
        let message = ConfigMessage::light(
            join2(config.name.as_str(), " Backlight"),
            make_unique_id(config.entity_id.as_str(), "backlight"),
            device,
            topic,
            LightConfig {
                command_topic: command_topic.clone(),
                brightness: true,
                schema: "json".to_owned(),
            },
        );
        let mut out: Vec<Announcement> = Vec::new();
        out.push(Announcement::Subscribe(command_topic));
        out.push(Announcement::Register(Publication { topic: config_topic, payload: message }));
        assert(out.deep_view() == backlight_announcements(config@, topic@, device@));
        out
    }

    /// Announces the occupancy sensor.
    pub fn announce_occupancy(
        config: &HomeAssistantConfig,
        topic: String,
        device: Device,
        expire_after: Option<u64>,
    ) -> (out: Announcement)
        ensures
            out@ == occupancy_registration(config@, topic@, device@, expire_after),
    {
        let config_topic = make_discovery_topic(
            "binary_sensor",
            config.entity_id.as_str(),
            "occupancy",
        );
        let mut section = BinarySensorConfig::default();
        section.device_class = Some("occupancy".to_owned());
        section.value_template = "{{ value_json.occupancy }}".to_owned();
        section.expire_after = expire_after;
        let message = ConfigMessage::binary_sensor(
            join2(config.name.as_str(), " Occupancy"),
            make_unique_id(config.entity_id.as_str(), "occupancy"),
            device,
            topic,
            section,
        );
        Announcement::Register(Publication { topic: config_topic, payload: message })
    }

    /// Announces one sensor entity.
    pub fn announce_sensor(
        config: &HomeAssistantConfig,
        topic: String,
        device: Device,
        sensor: Sensor,
    ) -> (out: Announcement)
        ensures
            out@ == sensor_registration(config@, topic@, device@, sensor@),
    {
        let config_topic = make_discovery_topic(
            "sensor",
            config.entity_id.as_str(),
            sensor.id.as_str(),
        );
        let mut section = SensorConfig::default();
        section.device_class = sensor.class.to_hass_class();
        section.value_template = join3("{{ value_json.sensors.", sensor.id.as_str(), " }}");
        section.unit_of_measurement = sensor.class.to_unit();
        let unique = make_unique_id(config.entity_id.as_str(), sensor.id.as_str());
        let name = join3(config.name.as_str(), " ", sensor.name.as_str());
        section.icon = sensor.icon;
        let message = ConfigMessage::sensor(name, unique, device, topic, section);
        Announcement::Register(Publication { topic: config_topic, payload: message })
    }

    /// Announces every sensor entity of the kinds that are switched on.
    #[verifier::loop_isolation(false)]
    pub fn announce_sensors(
        config: &HomeAssistantConfig,
        topic: String,
        device: Device,
        enabled_sensors: &[SensorType],
    ) -> (out: Vec<Announcement>)
        ensures
            out.deep_view() == sensor_announcements(
                config@,
                topic@,
                device@,
                sensors_of(Seq::new(enabled_sensors@.len(), |i: int| enabled_sensors@[i]@)),
            ),
    {
        let sensors = SensorsModule::get_sensors(enabled_sensors);
        let ghost items = sensors@;
        let ghost all = sensors.deep_view();
        let mut out: Vec<Announcement> = Vec::new();
        assert(out.deep_view() == sensor_announcements(config@, topic@, device@, all.subrange(0, 0)));
        for sensor in it: sensors
            invariant
                it.seq() == items,
                all == Seq::new(items.len(), |k: int| items[k]@),
                out.deep_view() == sensor_announcements(
                    config@,
                    topic@,
                    device@,
                    all.subrange(0, it.index() as int),
                ),
        {
            let ghost at = it.index() as int;
            let ghost before = out.deep_view();
            assert(sensor@ == all[at]);
            let announcement = Self::announce_sensor(config, topic.clone(), device.clone(), sensor);
            out.push(announcement);
            assert(out.deep_view() == before.push(announcement@));
            assert(before.push(announcement@) == sensor_announcements(
                config@,
                topic@,
                device@,
                all.subrange(0, at + 1),
            ));
        }
        assert(all.subrange(0, all.len() as int) == all);
        out
    }

    /// The whole discovery, in the order in which it is sent.
    pub fn run(&self, config: &Config) -> (out: Vec<Announcement>)
        requires
            config.valid(),
        ensures
            out.deep_view() == discovery(config@),
    {
        let topic = make_state_topic(config.hass.entity_id.as_str());
        let device = Device::new(
            join2("desktop2mqtt_", config.hass.entity_id.as_str()),
            config.hass.name.clone(),
        );
        let expire_after = match config.modules.idle {
            Some(idle) => {
                let twice = idle.poll_rate.checked_double();
                Some(twice.unwrap().as_secs())
            },
            None => None,
        };
        let mut out: Vec<Announcement> = Vec::new();
        out.push(Self::announce_occupancy(&config.hass, topic.clone(), device.clone(), expire_after));
        let ghost first = out.deep_view();
        assert(first == seq![
            occupancy_registration(
                config@.hass,
                topic@,
                device@,
                expiry_of(config@.modules.idle),
            ),
        ]);
        if config.modules.backlight.is_some() {
            let mut backlight = Self::announce_backlight(&config.hass, topic.clone(), device.clone());
            let ghost added = backlight.deep_view();
            out.append(&mut backlight);
            assert(out.deep_view() == first + added);
        }
        let ghost second = out.deep_view();
        let mut sensors = Self::announce_sensors(
            &config.hass,
            topic,
            device,
            config.modules.sensors.types.as_slice(),
        );
        let ghost added = sensors.deep_view();
        out.append(&mut sensors);
        assert(out.deep_view() == second + added);
        assert(Seq::new(
            config.modules.sensors.types@.len(),
            |i: int| config.modules.sensors.types@[i]@,
        ) == config@.modules.sensors.types);
        proof {
            if config.modules.backlight is None {
                assert(first + Seq::<AnnouncementView>::empty() == first);
            }
        }
        out
    }
}

} // verus!
