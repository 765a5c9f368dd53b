use desktop2mqtt::config::{Config, HomeAssistantConfig, Modules, MqttConfig};
use desktop2mqtt::state::{
    BacklightState, DesktopState, PowerState, Sensors, State, StateChange,
};

fn config(entity: &str) -> Config {
    Config {
        mqtt: MqttConfig { url: "mqtt://localhost".to_string() },
        hass: HomeAssistantConfig { entity_id: entity.to_string(), name: "Desk".to_string() },
        modules: Modules::default(),
    }
}

fn rounded(value: f32) -> u32 {
    ((value * 100.0).round() / 100.0).to_bits()
}

#[test]
fn default_snapshot_is_all_defaults() {
    let state = DesktopState::default();
    assert_eq!(state.occupancy, None);
    assert_eq!(state.backlight_power, PowerState::On);
    assert_eq!(state.backlight_brightness, 0);
    assert!(state.sensors.readings().is_empty());
}

#[test]
fn power_state_defaults_to_on() {
    assert_eq!(PowerState::default(), PowerState::On);
}

#[test]
fn power_state_from_bool_and_back() {
    assert_eq!(PowerState::from(true), PowerState::On);
    assert_eq!(PowerState::from(false), PowerState::Off);
    assert!(bool::from(PowerState::On));
    assert!(!bool::from(PowerState::Off));
}

#[test]
fn backlight_state_holds_power_and_brightness() {
    let state = BacklightState { power: PowerState::Off, brightness: 7 };
    assert_eq!(state, BacklightState { power: PowerState::Off, brightness: 7 });
}

#[test]
fn idle_sets_occupancy_to_its_negation() {
    let mut state = DesktopState::default();
    state.apply(StateChange::Idle(true));
    assert_eq!(state.occupancy, Some(false));
    state.apply(StateChange::Idle(false));
    assert_eq!(state.occupancy, Some(true));
    assert_eq!(state.backlight_power, PowerState::On);
    assert_eq!(state.backlight_brightness, 0);
}

#[test]
fn backlight_overwrites_both_fields() {
    let mut state = DesktopState::default();
    state.apply(StateChange::Backlight { power: false, brightness: 200 });
    assert_eq!(state.backlight_power, PowerState::Off);
    assert_eq!(state.backlight_brightness, 200);
    assert_eq!(state.occupancy, None);
    state.apply(StateChange::Backlight { power: true, brightness: 3 });
    assert_eq!(state.backlight_power, PowerState::On);
    assert_eq!(state.backlight_brightness, 3);
}

#[test]
fn sensor_upserts_by_name() {
    let mut state = DesktopState::default();
    state.apply(StateChange::Sensor { name: "cpu_load".to_string(), value: rounded(10.0) });
    state.apply(StateChange::Sensor { name: "core_temp".to_string(), value: rounded(50.5) });
    state.apply(StateChange::Sensor { name: "cpu_load".to_string(), value: rounded(20.25) });
    assert_eq!(state.sensors.get("cpu_load"), Some(20.25f32.to_bits()));
    assert_eq!(state.sensors.get("core_temp"), Some(50.5f32.to_bits()));
    assert_eq!(state.sensors.get("memory_usage"), None);
    assert_eq!(state.sensors.readings().len(), 2);
}

#[test]
fn sensors_list_each_name_once() {
    let mut sensors = Sensors::new();
    sensors.insert("a".to_string(), 1);
    sensors.insert("b".to_string(), 2);
    sensors.insert("a".to_string(), 3);
    let names: Vec<&str> = sensors.readings().iter().map(|r| r.name.as_str()).collect();
    assert_eq!(names, vec!["a", "b"]);
    assert_eq!(sensors.get("a"), Some(3));
    let copy = sensors.clone();
    assert_eq!(copy.get("a"), Some(3));
    assert_eq!(copy.get("b"), Some(2));
}

#[test]
fn same_change_twice_repeats_the_publish() {
    let changes = vec![
        StateChange::Idle(true),
        StateChange::Backlight { power: false, brightness: 9 },
        StateChange::Sensor { name: "cpu_load".to_string(), value: rounded(1.5) },
    ];
    for change in changes {
        let mut state = State::new(&config("desk"));
        let first = state.handle(change.clone());
        let second = state.handle(change);
        assert_eq!(first.topic, second.topic);
        assert_eq!(first.payload.occupancy, second.payload.occupancy);
        assert_eq!(first.payload.backlight_power, second.payload.backlight_power);
        assert_eq!(first.payload.backlight_brightness, second.payload.backlight_brightness);
        assert_eq!(first.payload.sensors.readings(), second.payload.sensors.readings());
    }
}

#[test]
fn merge_keeps_the_latest_of_each_field() {
    let mut state = State::new(&config("desk"));
    let changes = vec![
        StateChange::Sensor { name: "a".to_string(), value: 1 },
        StateChange::Idle(false),
        StateChange::Backlight { power: true, brightness: 10 },
        StateChange::Sensor { name: "b".to_string(), value: 2 },
        StateChange::Idle(true),
        StateChange::Sensor { name: "a".to_string(), value: 3 },
        StateChange::Backlight { power: false, brightness: 20 },
    ];
    state.run(changes);
    let snapshot = state.state();
    assert_eq!(snapshot.occupancy, Some(false));
    assert_eq!(snapshot.backlight_power, PowerState::Off);
    assert_eq!(snapshot.backlight_brightness, 20);
    assert_eq!(snapshot.sensors.get("a"), Some(3));
    assert_eq!(snapshot.sensors.get("b"), Some(2));
}

#[test]
fn merge_does_not_depend_on_interleaving_of_fields() {
    let one = vec![
        StateChange::Idle(true),
        StateChange::Backlight { power: false, brightness: 1 },
        StateChange::Sensor { name: "a".to_string(), value: 5 },
    ];
    let other = vec![
        StateChange::Sensor { name: "a".to_string(), value: 5 },
        StateChange::Idle(true),
        StateChange::Backlight { power: false, brightness: 1 },
    ];
    let mut x = State::new(&config("desk"));
    let mut y = State::new(&config("desk"));
    x.run(one);
    y.run(other);
    assert_eq!(x.state().occupancy, y.state().occupancy);
    assert_eq!(x.state().backlight_power, y.state().backlight_power);
    assert_eq!(x.state().backlight_brightness, y.state().backlight_brightness);
    assert_eq!(x.state().sensors.get("a"), y.state().sensors.get("a"));
}

#[test]
fn example_scenario_gives_four_publishes() {
    let mut state = State::new(&config("E"));
    let publications = state.run(vec![
        StateChange::Idle(false),
        StateChange::Backlight { power: true, brightness: 128 },
        StateChange::Sensor { name: "cpu_load".to_string(), value: rounded(42.567) },
    ]);
    assert_eq!(publications.len(), 4);
    for publication in &publications {
        assert_eq!(publication.topic, "desktop2mqtt/E");
    }
    let first = &publications[0].payload;
    assert_eq!(first.occupancy, None);
    assert_eq!(first.backlight_power, PowerState::On);
    assert_eq!(first.backlight_brightness, 0);
    assert!(first.sensors.readings().is_empty());
    assert_eq!(publications[1].payload.occupancy, Some(true));
    assert_eq!(publications[2].payload.backlight_brightness, 128);
    let last = &publications[3].payload;
    assert_eq!(last.occupancy, Some(true));
    assert_eq!(last.backlight_power, PowerState::On);
    assert_eq!(last.backlight_brightness, 128);
    assert_eq!(last.sensors.readings().len(), 1);
    assert_eq!(last.sensors.get("cpu_load"), Some(42.57f32.to_bits()));
    assert_eq!(f32::from_bits(last.sensors.get("cpu_load").unwrap()), 42.57);
}

#[test]
fn every_publish_is_the_whole_snapshot() {
    let mut state = State::new(&config("desk"));
    state.handle(StateChange::Backlight { power: false, brightness: 77 });
    state.handle(StateChange::Sensor { name: "a".to_string(), value: 4 });
    let publication = state.handle(StateChange::Idle(true));
    assert_eq!(publication.topic, "desktop2mqtt/desk");
    assert_eq!(publication.payload.occupancy, Some(false));
    assert_eq!(publication.payload.backlight_power, PowerState::Off);
    assert_eq!(publication.payload.backlight_brightness, 77);
    assert_eq!(publication.payload.sensors.get("a"), Some(4));
}

#[test]
fn first_publish_is_the_default_snapshot() {
    let state = State::new(&config("desk"));
    let publication = state.publish();
    assert_eq!(publication.topic, "desktop2mqtt/desk");
    assert_eq!(publication.payload.occupancy, None);
    assert_eq!(publication.payload.backlight_power, PowerState::On);
    assert_eq!(publication.payload.backlight_brightness, 0);
}

#[test]
fn empty_queue_gives_one_publish() {
    let mut state = State::new(&config("desk"));
    let publications = state.run(Vec::new());
    assert_eq!(publications.len(), 1);
}

#[test]
fn late_reader_catches_up_from_a_snapshot() {
    let changes = vec![
        StateChange::Idle(true),
        StateChange::Sensor { name: "a".to_string(), value: 1 },
        StateChange::Backlight { power: false, brightness: 5 },
        StateChange::Sensor { name: "b".to_string(), value: 2 },
        StateChange::Idle(false),
    ];
    let mut state = State::new(&config("desk"));
    let publications = state.run(changes.clone());
    for missed in 0..=changes.len() {
        let mut reader = publications[missed].payload.clone();
        for change in &changes[missed..] {
            reader.apply(change.clone());
        }
        assert_eq!(reader.occupancy, state.state().occupancy);
        assert_eq!(reader.backlight_power, state.state().backlight_power);
        assert_eq!(reader.backlight_brightness, state.state().backlight_brightness);
        assert_eq!(reader.sensors.get("a"), state.state().sensors.get("a"));
        assert_eq!(reader.sensors.get("b"), state.state().sensors.get("b"));
    }
}
