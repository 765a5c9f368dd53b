//! The sensors that can be switched on, and the entities each of them
//! stands for in the hub.

use crate::config::{Config, SensorType, SensorTypeView};
use crate::state::StateChange;
use crate::text::{join2, replace_char, replaced};
use vstd::prelude::*;

verus! {

/// What kind of quantity a sensor measures.
#[derive(Debug, Clone, Copy, PartialEq, Eq, Structural)]
pub enum SensorClass {
    Generic,
    Temperature,
    Battery,
}

/// One sensor entity: its display name, its id, its class and its icon.
#[derive(Debug, PartialEq, Eq)]
pub struct Sensor {
    pub name: String,
    pub id: String,
    pub class: SensorClass,
    pub icon: Option<String>,
}

pub struct SensorView {
    pub name: Seq<char>,
    pub id: Seq<char>,
    pub class: SensorClass,
    pub icon: Option<Seq<char>>,
}

impl View for Sensor {
    type V = SensorView;

    open spec fn view(&self) -> SensorView {
        SensorView {
            name: self.name@,
            id: self.id@,
            class: self.class,
            icon: self.icon.deep_view(),
        }
    }
}

impl DeepView for Sensor {
    type V = SensorView;

    open spec fn deep_view(&self) -> SensorView {
        self@
    }
}

/// The id of the sensor that watches the disk mounted at `disk`: the path
/// with `_` for every `/`, behind `disk_usage_`.
pub open spec fn disk_usage_id(disk: Seq<char>) -> Seq<char> {
    "disk_usage_"@ + replaced(disk, '/', "_"@)
}

/// The sensor that watches the disk mounted at `disk`.
pub open spec fn disk_sensor(disk: Seq<char>) -> SensorView {
    SensorView {
        name: "Disk Usage "@ + disk,
        id: disk_usage_id(disk),
        class: SensorClass::Generic,
        icon: Some("mdi:harddisk"@),
    }
}

/// The entities one kind of sensor stands for. Every kind is one entity,
/// but for disk usage, which is one entity per disk, in the order given.
pub open spec fn meta_of(sensor_type: SensorTypeView) -> Seq<SensorView> {
    match sensor_type {
        SensorTypeView::CoreTemperature => seq![
            SensorView {
                name: "Core Temperature"@,
                id: "core_temp"@,
                class: SensorClass::Temperature,
                icon: None,
            },
        ],
        SensorTypeView::Load => seq![
            SensorView {
                name: "CPU Load"@,
                id: "cpu_load"@,
                class: SensorClass::Generic,
                icon: None,
            },
        ],
        SensorTypeView::Memory => seq![
            SensorView {
                name: "Memory Usage"@,
                id: "memory_usage"@,
                class: SensorClass::Generic,
                icon: None,
            },
        ],
        SensorTypeView::Battery => seq![
            SensorView {
                name: ""@,
                id: "battery_usage"@,
                class: SensorClass::Battery,
                icon: None,
            },
        ],
        SensorTypeView::DiskUsage { disks } => Seq::new(disks.len(), |i: int| disk_sensor(disks[i])),
    }
}

/// The entities of all the kinds that are switched on, kind by kind.
pub open spec fn sensors_of(enabled: Seq<SensorTypeView>) -> Seq<SensorView>
    decreases enabled.len(),
{
    if enabled.len() == 0 {
        Seq::empty()
    } else {
        sensors_of(enabled.drop_last()) + meta_of(enabled.last())
    }
}

/// How many entities the kinds that are switched on stand for.
pub open spec fn sensor_count(enabled: Seq<SensorTypeView>) -> nat
    decreases enabled.len(),
{
    if enabled.len() == 0 {
        0
    } else {
        sensor_count(enabled.drop_last()) + match enabled.last() {
            SensorTypeView::DiskUsage { disks } => disks.len(),
            _ => 1,
        }
    }
}

/// There is one entity per kind, and one per disk for disk usage.
pub proof fn lemma_sensor_count(enabled: Seq<SensorTypeView>)
    ensures
        sensors_of(enabled).len() == sensor_count(enabled),
    decreases enabled.len(),
{
    if enabled.len() > 0 {
        lemma_sensor_count(enabled.drop_last());
    }
}

pub fn get_disk_usage_id(disk: &str) -> (id: String)
    ensures
        id@ == disk_usage_id(disk@),
{
    let path = replace_char(disk, '/', "_");
    join2("disk_usage_", path.as_str())
}

fn single(name: &str, id: &str, class: SensorClass) -> (sensors: Vec<Sensor>)
    ensures
        sensors.deep_view() == seq![
            SensorView { name: name@, id: id@, class, icon: None },
        ],
{
    let mut sensors: Vec<Sensor> = Vec::new();
    sensors.push(Sensor { name: name.to_owned(), id: id.to_owned(), class, icon: None });
    assert(sensors.deep_view() == seq![
        SensorView { name: name@, id: id@, class, icon: None },
    ]);
    sensors
}

impl SensorType {
    /// The entities this kind of sensor stands for.
    pub fn get_meta(&self) -> (sensors: Vec<Sensor>)
        ensures
            sensors.deep_view() == meta_of(self@),
    {
        match self {
            SensorType::CoreTemperature => single(
                "Core Temperature",
                "core_temp",
                SensorClass::Temperature,
            ),
            SensorType::Load => single("CPU Load", "cpu_load", SensorClass::Generic),
            SensorType::Memory => single("Memory Usage", "memory_usage", SensorClass::Generic),
            SensorType::Battery => single("", "battery_usage", SensorClass::Battery),
            SensorType::DiskUsage { disks } => {
                let mut sensors: Vec<Sensor> = Vec::new();
                let mut i: usize = 0;
                while i < disks.len()
                    invariant
                        i <= disks.len(),
                        sensors.deep_view() == Seq::new(
                            i as nat,
                            |k: int| disk_sensor(disks.deep_view()[k]),
                        ),
                    decreases disks.len() - i,
                {
                    let disk = disks[i].as_str();
                    let ghost before = sensors.deep_view();
                    let sensor = Sensor {
                        name: join2("Disk Usage ", disk),
                        id: get_disk_usage_id(disk),
                        class: SensorClass::Generic,
                        icon: Some("mdi:harddisk".to_owned()),
                    };
                    assert(sensor@ == disk_sensor(disks.deep_view()[i as int]));
                    sensors.push(sensor);
                    assert(sensors.deep_view() == before.push(sensor@));
                    i += 1;
                }
                assert(sensors.deep_view() == meta_of(self@));
                sensors
            },
        }
    }
}

/// The names under which the readings of one kind of sensor are reported:
/// the ids of its entities, in their order.
pub open spec fn value_ids_of(sensor_type: SensorTypeView) -> Seq<Seq<char>> {
    Seq::new(meta_of(sensor_type).len(), |i: int| meta_of(sensor_type)[i].id)
}

impl SensorType {
    /// The names under which the readings of this kind are reported. The
    /// i-th name is the id of the i-th entity of the kind, so every reading
    /// lands where a registration looks for it.
    pub fn value_ids(&self) -> (ids: Vec<String>)
        ensures
            ids.deep_view() == value_ids_of(self@),
    {
        let meta = self.get_meta();
        let mut ids: Vec<String> = Vec::new();
        let mut i: usize = 0;
        while i < meta.len()
            invariant
                i <= meta.len(),
                meta.deep_view() == meta_of(self@),
                ids.deep_view() == Seq::new(i as nat, |k: int| meta_of(self@)[k].id),
            decreases meta.len() - i,
        {
            let ghost before = ids.deep_view();
            let id = meta[i].id.clone();
            assert(id@ == meta.deep_view()[i as int].id);
            ids.push(id);
            assert(ids.deep_view() == before.push(id@));
            i += 1;
        }
        ids
    }
}

/// The worker that reads the sensors.
#[derive(Debug)]
pub struct SensorsModule;

impl SensorsModule {
    pub fn new() -> (module: SensorsModule) {
        SensorsModule
    }

    /// Whether there is anything to read.
    pub fn enabled(&self, config: &Config) -> (enabled: bool)
        ensures
            enabled == (config.modules.sensors.types@.len() > 0),
    {
        config.modules.sensors.types.len() > 0
    }

    /// The entities of all the kinds that are switched on, kind by kind.
    pub fn get_sensors(enabled: &[SensorType]) -> (sensors: Vec<Sensor>)
        ensures
            sensors.deep_view() == sensors_of(Seq::new(enabled@.len(), |i: int| enabled@[i]@)),
    {
        let ghost kinds = Seq::new(enabled@.len(), |i: int| enabled@[i]@);
        let mut sensors: Vec<Sensor> = Vec::new();
        let mut i: usize = 0;
        assert(kinds.subrange(0, 0) == Seq::<SensorTypeView>::empty());
        assert(sensors.deep_view() == Seq::<SensorView>::empty());
        while i < enabled.len()
            invariant
                i <= enabled.len(),
                kinds == Seq::new(enabled@.len(), |i: int| enabled@[i]@),
                sensors.deep_view() == sensors_of(kinds.subrange(0, i as int)),
            decreases enabled.len() - i,
        {
            let mut meta = enabled[i].get_meta();
            let ghost before = sensors.deep_view();
            let ghost added = meta.deep_view();
            sensors.append(&mut meta);
            assert(sensors.deep_view() == before + added);
            assert(kinds.subrange(0, i + 1).drop_last() == kinds.subrange(0, i as int));
            assert(kinds.subrange(0, i + 1).last() == enabled@[i as int]@);
            i += 1;
        }
        assert(kinds.subrange(0, i as int) == kinds);
        sensors
    }

    /// The report of one reading; `value` holds the bits of the number
    /// after it was rounded to two decimals.
    pub fn change(name: String, value: u32) -> (change: StateChange)
        ensures
            change == (StateChange::Sensor { name, value }),
    {
        StateChange::Sensor { name, value }
    }
}

} // verus!
