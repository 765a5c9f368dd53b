use desktop2mqtt::config::{
    default_poll_rate, get_config_file_path, sensor_poll_rate, BacklightProvider, ButtonType,
    Config, CustomCommandConfig, HomeAssistantConfig, IdleModuleConfig, Interval, Modules,
    MqttConfig, SensorType, SensorsConfig, NANOS_PER_SEC,
};

#[test]
fn sensors_are_polled_every_second_by_default() {
    assert_eq!(sensor_poll_rate(), Interval { secs: 1, nanos: 0 });
}

#[test]
fn idle_time_is_polled_every_five_seconds_by_default() {
    assert_eq!(default_poll_rate(), Interval { secs: 5, nanos: 0 });
}

#[test]
fn interval_from_and_as_secs() {
    assert_eq!(Interval::from_secs(7).as_secs(), 7);
    assert_eq!(Interval { secs: 7, nanos: 999_999_999 }.as_secs(), 7);
    assert_eq!(NANOS_PER_SEC, 1_000_000_000);
}

#[test]
fn interval_doubles_with_carry() {
    assert_eq!(Interval::from_secs(5).checked_double(), Some(Interval::from_secs(10)));
    assert_eq!(
        Interval { secs: 0, nanos: 500_000_000 }.checked_double(),
        Some(Interval { secs: 1, nanos: 0 })
    );
    assert_eq!(
        Interval { secs: 1, nanos: 499_999_999 }.checked_double(),
        Some(Interval { secs: 2, nanos: 999_999_998 })
    );
    assert_eq!(
        Interval { secs: 2, nanos: 999_999_999 }.checked_double(),
        Some(Interval { secs: 5, nanos: 999_999_998 })
    );
}

#[test]
fn interval_that_is_not_well_formed_does_not_double() {
    assert_eq!(Interval { secs: 1, nanos: NANOS_PER_SEC }.checked_double(), None);
    assert_eq!(Interval { secs: 0, nanos: u32::MAX }.checked_double(), None);
}

#[test]
fn interval_does_not_double_past_the_limit() {
    let half = u64::MAX / 2;
    assert_eq!(
        Interval { secs: half, nanos: 499_999_999 }.checked_double(),
        Some(Interval { secs: u64::MAX - 1, nanos: 999_999_998 })
    );
    assert_eq!(
        Interval { secs: half, nanos: 500_000_000 }.checked_double(),
        Some(Interval { secs: u64::MAX, nanos: 0 })
    );
    assert_eq!(Interval { secs: half + 1, nanos: 1 }.checked_double(), None);
    assert_eq!(Interval { secs: half + 1, nanos: 0 }.checked_double(), None);
    assert_eq!(Interval { secs: u64::MAX, nanos: 0 }.checked_double(), None);
}

#[test]
fn modules_are_off_by_default() {
    let modules = Modules::default();
    assert_eq!(modules.backlight, None);
    assert_eq!(modules.idle, None);
    assert_eq!(modules.notifications, None);
    assert_eq!(modules.sensors, SensorsConfig { poll_rate: Interval::from_secs(0), types: vec![] });
    assert!(modules.custom_commands.is_empty());
    assert_eq!(SensorsConfig::default().types, Vec::<SensorType>::new());
}

#[test]
fn config_is_valid_unless_the_idle_poll_rate_cannot_double() {
    let mut config = Config {
        mqtt: MqttConfig { url: "mqtt://broker".to_string() },
        hass: HomeAssistantConfig { entity_id: "desk".to_string(), name: "Desk".to_string() },
        modules: Modules::default(),
    };
    assert!(config.is_valid());
    config.modules.backlight = Some(BacklightProvider::RaspberryPi);
    config.modules.idle = Some(IdleModuleConfig {
        timeout: Interval::from_secs(60),
        poll_rate: Interval::from_secs(5),
    });
    assert!(config.is_valid());
    config.modules.idle = Some(IdleModuleConfig {
        timeout: Interval::from_secs(60),
        poll_rate: Interval::from_secs(u64::MAX),
    });
    assert!(!config.is_valid());
    config.modules.idle = Some(IdleModuleConfig {
        timeout: Interval::from_secs(60),
        poll_rate: Interval { secs: 1, nanos: NANOS_PER_SEC },
    });
    assert!(!config.is_valid());
}

#[test]
fn named_config_file_wins() {
    assert_eq!(
        get_config_file_path(Some("/etc/d2m.yml".to_string()), true, Some("/u/config.yml".to_string()), true),
        Some("/etc/d2m.yml".to_string())
    );
    assert_eq!(
        get_config_file_path(Some("/etc/d2m.yml".to_string()), false, None, false),
        Some("/etc/d2m.yml".to_string())
    );
}

#[test]
fn local_config_file_comes_before_the_users() {
    assert_eq!(
        get_config_file_path(None, true, Some("/u/config.yml".to_string()), true),
        Some("config.yml".to_string())
    );
}

#[test]
fn users_config_file_is_the_last_resort() {
    assert_eq!(
        get_config_file_path(None, false, Some("/u/config.yml".to_string()), true),
        Some("/u/config.yml".to_string())
    );
}

#[test]
fn no_config_file_is_found() {
    assert_eq!(get_config_file_path(None, false, Some("/u/config.yml".to_string()), false), None);
    assert_eq!(get_config_file_path(None, false, None, false), None);
    assert_eq!(get_config_file_path(None, false, None, true), None);
}

#[test]
fn custom_command_config_holds_its_parts() {
    let command = CustomCommandConfig {
        name: "Reboot".to_string(),
        icon: None,
        button_type: Some(ButtonType::Restart),
        command: "systemctl reboot".to_string(),
    };
    assert_eq!(command.button_type, Some(ButtonType::Restart));
}
