use desktop2mqtt::backlight::raspberry_pi::RaspberryPiBacklight;
use desktop2mqtt::backlight::stub::StubBacklight;
use desktop2mqtt::backlight::{
    get_backlight_module, BacklightDevice, BacklightModule, BacklightPlan, BacklightUpdate,
};
use desktop2mqtt::config::{
    BacklightProvider, ButtonType, Config, CustomCommandConfig, HomeAssistantConfig, IdleModuleConfig, Interval,
    Modules, MqttConfig,
};
use desktop2mqtt::custom_command::{ButtonClass, CommandLine, CustomCommand, CustomCommandsModule};
use desktop2mqtt::idle::IdleModule;
use desktop2mqtt::mqtt::{MqttCommand, MqttMessage};
use desktop2mqtt::notifications::{Notification, NotificationData, NotificationsModule};
use desktop2mqtt::state::{PowerState, StateChange};

fn config() -> Config {
    Config {
        mqtt: MqttConfig { url: "mqtt://localhost".to_string() },
        hass: HomeAssistantConfig { entity_id: "desk".to_string(), name: "Desk".to_string() },
        modules: Modules::default(),
    }
}

fn message(topic: &str) -> MqttMessage {
    MqttMessage { topic: topic.to_string(), payload: "{}".to_string() }
}

fn command(name: &str, line: &str, button_type: Option<ButtonType>) -> CustomCommandConfig {
    CustomCommandConfig {
        name: name.to_string(),
        icon: Some("mdi:lock".to_string()),
        button_type,
        command: line.to_string(),
    }
}

#[test]
fn idle_module_is_off_without_configuration() {
    assert_eq!(IdleModule::new(&config()), None);
}

#[test]
fn idle_module_reports_presence_first() {
    let mut config = config();
    config.modules.idle = Some(IdleModuleConfig {
        timeout: Interval::from_secs(60),
        poll_rate: Interval::from_secs(5),
    });
    let module = IdleModule::new(&config).unwrap();
    assert_eq!(module.poll_rate, Interval::from_secs(5));
    assert_eq!(module.start(), StateChange::Idle(false));
}

#[test]
fn idle_starts_at_the_timeout() {
    let module = IdleModule {
        timeout: Interval { secs: 60, nanos: 999_999_999 },
        poll_rate: Interval::from_secs(5),
    };
    assert_eq!(module.poll(0), StateChange::Idle(false));
    assert_eq!(module.poll(59), StateChange::Idle(false));
    assert_eq!(module.poll(60), StateChange::Idle(true));
    assert_eq!(module.poll(61), StateChange::Idle(true));
    assert_eq!(module.poll(u64::MAX), StateChange::Idle(true));
}

#[test]
fn notifications_are_off_when_not_mentioned() {
    assert!(NotificationsModule::new(&config()).is_none());
}

#[test]
fn notifications_are_off_when_switched_off() {
    let mut config = config();
    config.modules.notifications = Some(false);
    assert!(NotificationsModule::new(&config).is_none());
}

#[test]
fn notifications_listen_on_the_notify_topic() {
    let mut config = config();
    config.modules.notifications = Some(true);
    let module = NotificationsModule::new(&config).unwrap();
    assert_eq!(module.start(), MqttCommand::Subscribe("desktop2mqtt/desk/notify".to_string()));
    assert!(module.accepts(&message("desktop2mqtt/desk/notify")));
    assert!(!module.accepts(&message("desktop2mqtt/desk/set")));
    assert!(!module.accepts(&message("desktop2mqtt/desk")));
}

#[test]
fn notification_shows_title_and_message() {
    let shown = NotificationsModule::notification(NotificationData {
        message: Some("Dinner".to_string()),
        title: "Kitchen".to_string(),
    });
    assert_eq!(
        shown,
        Notification {
            summary: "Kitchen".to_string(),
            appname: "desktop2mqtt".to_string(),
            body: Some("Dinner".to_string()),
        }
    );
    let shown =
        NotificationsModule::notification(NotificationData { message: None, title: "T".to_string() });
    assert_eq!(shown.body, None);
}

#[test]
fn backlight_reports_what_was_read() {
    let module = BacklightModule::new(&config(), true, 200);
    assert_eq!(module.report(), StateChange::Backlight { power: true, brightness: 200 });
    assert!(module.accepts(&message("desktop2mqtt/desk/set")));
    assert!(!module.accepts(&message("desktop2mqtt/desk/notify")));
    assert!(!module.accepts(&message("desktop2mqtt/other/set")));
}

#[test]
fn backlight_update_sets_what_it_names() {
    let mut module = BacklightModule::new(&config(), true, 200);
    let plan = module.update(BacklightUpdate { power: Some(PowerState::Off), brightness: None });
    assert_eq!(
        plan,
        BacklightPlan {
            set_power: Some(false),
            set_brightness: None,
            change: StateChange::Backlight { power: false, brightness: 200 },
        }
    );
    let plan = module.update(BacklightUpdate { power: None, brightness: Some(17) });
    assert_eq!(
        plan,
        BacklightPlan {
            set_power: None,
            set_brightness: Some(17),
            change: StateChange::Backlight { power: false, brightness: 17 },
        }
    );
    let plan = module.update(BacklightUpdate { power: None, brightness: None });
    assert_eq!(
        plan,
        BacklightPlan {
            set_power: None,
            set_brightness: None,
            change: StateChange::Backlight { power: false, brightness: 17 },
        }
    );
    assert_eq!(module.report(), StateChange::Backlight { power: false, brightness: 17 });
}

#[test]
fn full_update_brings_a_lagging_worker_back_in_step() {
    let full = BacklightUpdate { power: Some(PowerState::On), brightness: Some(90) };
    let mut followed = BacklightModule::new(&config(), true, 255);
    followed.update(BacklightUpdate { power: Some(PowerState::Off), brightness: None });
    followed.update(BacklightUpdate { power: None, brightness: Some(3) });
    let mut lagging = BacklightModule::new(&config(), true, 255);
    assert_eq!(followed.update(full), lagging.update(full));
    assert_eq!(followed.report(), lagging.report());
}

#[test]
fn backlight_follows_the_provider() {
    assert!(matches!(
        get_backlight_module(BacklightProvider::RaspberryPi),
        BacklightDevice::RaspberryPi(_)
    ));
    match get_backlight_module(BacklightProvider::Stub) {
        BacklightDevice::Stub(stub) => assert_eq!(stub, StubBacklight::new()),
        _ => panic!("the stub provider gives a stub"),
    }
}

#[test]
fn stub_backlight_starts_on_at_full_brightness() {
    assert_eq!(StubBacklight::new(), StubBacklight { power: true, brightness: 255 });
    assert_eq!(StubBacklight::default(), StubBacklight { power: false, brightness: 0 });
}

#[test]
fn stub_backlight_remembers_what_it_is_told() {
    let mut stub = StubBacklight::new();
    stub.set_brightness(10);
    stub.set_power(false);
    assert_eq!(stub, StubBacklight { power: false, brightness: 10 });
    assert_eq!(stub.get_brightness(), 10);
    assert_eq!(stub.get_brightness(), 10);
    assert!(!stub.get_power());
    assert!(!stub.get_power());
    assert_eq!(stub, StubBacklight { power: false, brightness: 10 });
    stub.set_brightness(256);
    stub.set_power(true);
    assert_eq!(stub.get_brightness(), 256);
    assert!(stub.get_power());
}

#[test]
fn stub_backlight_reads_what_it_started_with() {
    let stub = StubBacklight::new();
    assert_eq!(stub.get_brightness(), 255);
    assert!(stub.get_power());
    let stub = StubBacklight::default();
    assert_eq!(stub.get_brightness(), 0);
    assert!(!stub.get_power());
}

#[test]
fn raspberry_pi_power_is_inverted() {
    assert!(RaspberryPiBacklight::read_power(0));
    assert!(!RaspberryPiBacklight::read_power(1));
    assert!(RaspberryPiBacklight::read_power(4));
    assert!(RaspberryPiBacklight::read_power(-1));
    assert_eq!(RaspberryPiBacklight::set_power(true), 0);
    assert_eq!(RaspberryPiBacklight::set_power(false), 1);
}

#[test]
fn raspberry_pi_brightness_is_cast() {
    assert_eq!(RaspberryPiBacklight::read_brightness(255), 255);
    assert_eq!(RaspberryPiBacklight::read_brightness(-1), u32::MAX);
    assert_eq!(RaspberryPiBacklight::set_brightness(128), 128);
    assert_eq!(RaspberryPiBacklight::set_brightness(u32::MAX), -1);
    assert_eq!(RaspberryPiBacklight::set_brightness(1 << 31), i32::MIN);
}

#[test]
fn raspberry_pi_files_live_in_sysfs() {
    let _ = RaspberryPiBacklight::new();
    assert_eq!(
        RaspberryPiBacklight::file_path(&RaspberryPiBacklight::power_file()),
        "/sys/class/backlight/rpi_backlight/bl_power"
    );
    assert_eq!(
        RaspberryPiBacklight::file_path(&RaspberryPiBacklight::brightness_file()),
        "/sys/class/backlight/rpi_backlight/brightness"
    );
    assert_eq!(
        RaspberryPiBacklight::file_path(&RaspberryPiBacklight::actual_brightness_file()),
        "/sys/class/backlight/rpi_backlight/actual_brightness"
    );
}

#[test]
fn button_class_follows_the_button_type() {
    assert_eq!(ButtonClass::from(None), ButtonClass::Generic);
    assert_eq!(ButtonClass::from(Some(ButtonType::Restart)), ButtonClass::Restart);
    assert_eq!(ButtonClass::from(Some(ButtonType::Update)), ButtonClass::Update);
}

#[test]
fn commands_get_slug_ids_and_topics() {
    let configured = vec![
        command("Lock Screen", "loginctl lock-session", None),
        command("Reboot", "systemctl reboot", Some(ButtonType::Restart)),
    ];
    let commands = CustomCommandsModule::get_commands("desk", &configured);
    assert_eq!(
        commands,
        vec![
            CustomCommand {
                name: "Lock Screen".to_string(),
                id: "lock-screen".to_string(),
                class: ButtonClass::Generic,
                icon: Some("mdi:lock".to_string()),
                topic: "desktop2mqtt/desk/lock-screen".to_string(),
                command: "loginctl lock-session".to_string(),
            },
            CustomCommand {
                name: "Reboot".to_string(),
                id: "reboot".to_string(),
                class: ButtonClass::Restart,
                icon: Some("mdi:lock".to_string()),
                topic: "desktop2mqtt/desk/reboot".to_string(),
                command: "systemctl reboot".to_string(),
            },
        ]
    );
    assert_eq!(commands[0].clone(), commands[0]);
}

#[test]
fn commands_module_subscribes_to_every_topic() {
    let mut config = config();
    config.modules.custom_commands = vec![
        command("Lock Screen", "loginctl lock-session", None),
        command("Update", "apt upgrade", Some(ButtonType::Update)),
    ];
    let module = CustomCommandsModule::new(&config);
    assert!(module.enabled());
    assert_eq!(module.list().len(), 2);
    assert_eq!(
        module.start(),
        vec![
            MqttCommand::Subscribe("desktop2mqtt/desk/lock-screen".to_string()),
            MqttCommand::Subscribe("desktop2mqtt/desk/update".to_string()),
        ]
    );
    let empty = CustomCommandsModule::new(&Config { modules: Modules::default(), ..config });
    assert!(!empty.enabled());
    assert!(empty.start().is_empty());
}

#[test]
fn commands_module_finds_the_first_listener() {
    let mut config = config();
    config.modules.custom_commands = vec![
        command("Lock", "first", None),
        command("lock", "second", None),
        command("Other", "third", None),
    ];
    let module = CustomCommandsModule::new(&config);
    assert_eq!(module.find("desktop2mqtt/desk/lock").unwrap().command, "first");
    assert_eq!(module.find("desktop2mqtt/desk/other").unwrap().command, "third");
    assert!(module.find("desktop2mqtt/desk/missing").is_none());
    assert!(module.find("desktop2mqtt/desk").is_none());
}

#[test]
fn command_line_splits_at_spaces() {
    let commands = CustomCommandsModule::get_commands(
        "desk",
        &[command("A", "echo hello  world", None), command("B", "reboot", None), command("C", "", None)],
    );
    assert_eq!(
        commands[0].command_line(),
        CommandLine {
            program: "echo".to_string(),
            args: vec!["hello".to_string(), String::new(), "world".to_string()],
        }
    );
    assert_eq!(
        commands[1].command_line(),
        CommandLine { program: "reboot".to_string(), args: Vec::new() }
    );
    assert_eq!(commands[2].command_line(), CommandLine { program: String::new(), args: Vec::new() });
}
