//! The configuration that every worker is started with.
//!
//! The values arrive already decoded; this module holds their shape, the
//! defaults, and the choice of the file they are read from.

use vstd::prelude::*;

verus! {

/// Nanoseconds in one second.
pub const NANOS_PER_SEC: u32 = 1_000_000_000;

/// A span of time: whole seconds and the nanoseconds beyond them.
#[derive(Debug, Clone, Copy, PartialEq, Eq, Structural)]
pub struct Interval {
    pub secs: u64,
    pub nanos: u32,
}

impl Interval {
    /// The nanosecond part stays below one second.
    pub open spec fn wf(&self) -> bool {
        self.nanos < NANOS_PER_SEC
    }

    /// The whole span in nanoseconds.
    pub open spec fn total_nanos(&self) -> int {
        self.secs * NANOS_PER_SEC + self.nanos
    }

    /// Whether twice the span still has a number of seconds that fits.
    pub open spec fn can_double(&self) -> bool {
        2 * self.total_nanos() < (u64::MAX + 1) * NANOS_PER_SEC
    }

    /// The whole seconds of twice the span.
    pub open spec fn doubled_secs(&self) -> int {
        2 * self.secs + (if 2 * self.nanos >= NANOS_PER_SEC {
            1int
        } else {
            0int
        })
    }

    /// A span of `secs` whole seconds.
    pub fn from_secs(secs: u64) -> (span: Interval)
        ensures
            span == (Interval { secs, nanos: 0 }),
            span.wf(),
    {
        Interval { secs, nanos: 0 }
    }

    /// The whole seconds of the span.
    pub fn as_secs(&self) -> (secs: u64)
        ensures
            secs == self.secs,
    {
        self.secs
    }

    /// Twice the span, or `None` where the span is not well formed or the
    /// seconds of its double would not fit.
    pub fn checked_double(&self) -> (twice: Option<Interval>)
        ensures
            twice is Some <==> self.wf() && self.can_double(),
            twice matches Some(span) ==> span.wf() && span.total_nanos() == 2 * self.total_nanos()
                && span.secs == self.doubled_secs(),
    {
        if self.nanos >= NANOS_PER_SEC {
            return None;
        }
        let carry: u64 = if self.nanos >= NANOS_PER_SEC / 2 {
            1
        } else {
            0
        };
        if self.secs > (u64::MAX - carry) / 2 {
            None
        } else {
            let nanos: u32 = if carry == 1 {
                self.nanos - (NANOS_PER_SEC - self.nanos)
            } else {
                self.nanos * 2
            };
            Some(Interval { secs: self.secs * 2 + carry, nanos })
        }
    }
}

/// How often the sensors are read when the configuration does not say.
pub fn sensor_poll_rate() -> (rate: Interval)
    ensures
        rate == (Interval { secs: 1, nanos: 0 }),
{
    Interval::from_secs(1)
}

/// How often the idle time is read when the configuration does not say.
pub fn default_poll_rate() -> (rate: Interval)
    ensures
        rate == (Interval { secs: 5, nanos: 0 }),
{
    Interval::from_secs(5)
}

/// The device that drives the display's backlight.
#[derive(Debug, Clone, Copy, PartialEq, Eq, Structural)]
pub enum BacklightProvider {
    RaspberryPi,
    Stub,
}

/// When the user counts as idle, and how often that is looked at.
#[derive(Debug, Clone, Copy, PartialEq, Eq, Structural)]
pub struct IdleModuleConfig {
    pub timeout: Interval,
    pub poll_rate: Interval,
}

/// One kind of sensor that can be switched on.
#[derive(Debug, PartialEq, Eq)]
pub enum SensorType {
    Load,
    Memory,
    Battery,
    CoreTemperature,
    DiskUsage { disks: Vec<String> },
}

pub enum SensorTypeView {
    Load,
    Memory,
    Battery,
    CoreTemperature,
    DiskUsage { disks: Seq<Seq<char>> },
}

impl View for SensorType {
    type V = SensorTypeView;

    open spec fn view(&self) -> SensorTypeView {
        match self {
            SensorType::Load => SensorTypeView::Load,
            SensorType::Memory => SensorTypeView::Memory,
            SensorType::Battery => SensorTypeView::Battery,
            SensorType::CoreTemperature => SensorTypeView::CoreTemperature,
            SensorType::DiskUsage { disks } => SensorTypeView::DiskUsage {
                disks: disks.deep_view(),
            },
        }
    }
}

impl DeepView for SensorType {
    type V = SensorTypeView;

    open spec fn deep_view(&self) -> SensorTypeView {
        self@
    }
}

/// The sensors that are switched on and how often they are read.
#[derive(Debug, PartialEq, Eq)]
pub struct SensorsConfig {
    pub poll_rate: Interval,
    pub types: Vec<SensorType>,
}

pub struct SensorsConfigView {
    pub poll_rate: Interval,
    pub types: Seq<SensorTypeView>,
}

impl View for SensorsConfig {
    type V = SensorsConfigView;

    open spec fn view(&self) -> SensorsConfigView {
        SensorsConfigView { poll_rate: self.poll_rate, types: self.types.deep_view() }
    }
}

impl Default for SensorsConfig {
    fn default() -> (config: SensorsConfig)
        ensures
            config.poll_rate == (Interval { secs: 0, nanos: 0 }),
            config.types@.len() == 0,
    {
        SensorsConfig { poll_rate: Interval::from_secs(0), types: Vec::new() }
    }
}

/// What a button that runs a command stands for in the hub.
#[derive(Debug, Clone, Copy, PartialEq, Eq, Structural)]
pub enum ButtonType {
    Restart,
    Update,
}

/// A command that the hub can trigger through a button.
#[derive(Debug, PartialEq, Eq)]
pub struct CustomCommandConfig {
    pub name: String,
    pub icon: Option<String>,
    pub button_type: Option<ButtonType>,
    pub command: String,
}

pub struct CustomCommandConfigView {
    pub name: Seq<char>,
    pub icon: Option<Seq<char>>,
    pub button_type: Option<ButtonType>,
    pub command: Seq<char>,
}

impl View for CustomCommandConfig {
    type V = CustomCommandConfigView;

    open spec fn view(&self) -> CustomCommandConfigView {
        CustomCommandConfigView {
            name: self.name@,
            icon: self.icon.deep_view(),
            button_type: self.button_type,
            command: self.command@,
        }
    }
}

impl DeepView for CustomCommandConfig {
    type V = CustomCommandConfigView;

    open spec fn deep_view(&self) -> CustomCommandConfigView {
        self@
    }
}

/// The parts of the bridge that can be switched on.
#[derive(Debug)]
pub struct Modules {
    pub backlight: Option<BacklightProvider>,
    pub idle: Option<IdleModuleConfig>,
    pub notifications: Option<bool>,
    pub sensors: SensorsConfig,
    pub custom_commands: Vec<CustomCommandConfig>,
}

pub struct ModulesView {
    pub backlight: Option<BacklightProvider>,
    pub idle: Option<IdleModuleConfig>,
    pub notifications: Option<bool>,
    pub sensors: SensorsConfigView,
    pub custom_commands: Seq<CustomCommandConfigView>,
}

impl View for Modules {
    type V = ModulesView;

    open spec fn view(&self) -> ModulesView {
        ModulesView {
            backlight: self.backlight,
            idle: self.idle,
            notifications: self.notifications,
            sensors: self.sensors@,
            custom_commands: self.custom_commands.deep_view(),
        }
    }
}

impl Default for Modules {
    fn default() -> (modules: Modules)
        ensures
            modules.backlight is None,
            modules.idle is None,
            modules.notifications is None,
            modules.sensors.poll_rate == (Interval { secs: 0, nanos: 0 }),
            modules.sensors.types@.len() == 0,
            modules.custom_commands@.len() == 0,
    {
        Modules {
            backlight: None,
            idle: None,
            notifications: None,
            sensors: SensorsConfig::default(),
            custom_commands: Vec::new(),
        }
    }
}

/// Where the broker is.
#[derive(Debug)]
pub struct MqttConfig {
    pub url: String,
}

/// How the hub knows this desktop.
#[derive(Debug)]
pub struct HomeAssistantConfig {
    pub entity_id: String,
    pub name: String,
}

pub struct HomeAssistantConfigView {
    pub entity_id: Seq<char>,
    pub name: Seq<char>,
}

impl View for HomeAssistantConfig {
    type V = HomeAssistantConfigView;

    open spec fn view(&self) -> HomeAssistantConfigView {
        HomeAssistantConfigView { entity_id: self.entity_id@, name: self.name@ }
    }
}

/// The whole configuration.
#[derive(Debug)]
pub struct Config {
    pub mqtt: MqttConfig,
    pub hass: HomeAssistantConfig,
    pub modules: Modules,
}

pub struct ConfigView {
    pub url: Seq<char>,
    pub hass: HomeAssistantConfigView,
    pub modules: ModulesView,
}

impl View for Config {
    type V = ConfigView;

    open spec fn view(&self) -> ConfigView {
        ConfigView { url: self.mqtt.url@, hass: self.hass@, modules: self.modules@ }
    }
}

impl Config {
    /// The spans of the configuration are well formed, and the idle poll
    /// rate can be doubled, as the expiry of the occupancy entity needs.
    pub open spec fn valid(&self) -> bool {
        self.modules.idle matches Some(idle) ==> idle.poll_rate.wf() && idle.poll_rate.can_double()
    }

    /// Checks `valid`.
    pub fn is_valid(&self) -> (valid: bool)
        ensures
            valid == self.valid(),
    {
        match self.modules.idle {
            Some(idle) => idle.poll_rate.checked_double().is_some(),
            None => true,
        }
    }
}

/// The name of the configuration file, looked for in the working directory
/// and in the user's configuration directory.
pub open spec fn config_file_name() -> Seq<char> {
    "config.yml"@
}

/// The file the configuration is read from: the one named on the command
/// line; else `config.yml` in the working directory, if it exists; else the
/// one in the user's directory, if that exists.
pub open spec fn chosen_config_file(
    named: Option<Seq<char>>,
    local_exists: bool,
    user_file: Option<Seq<char>>,
    user_exists: bool,
) -> Option<Seq<char>> {
    if named is Some {
        named
    } else if local_exists {
        Some(config_file_name())
    } else if user_file is Some && user_exists {
        user_file
    } else {
        None
    }
}

/// Picks the configuration file. The caller says which of the candidates
/// exist; `None` means that there is no file to read.
pub fn get_config_file_path(
    named: Option<String>,
    local_exists: bool,
    user_file: Option<String>,
    user_exists: bool,
) -> (path: Option<String>)
    ensures
        path.deep_view() == chosen_config_file(
            named.deep_view(),
            local_exists,
            user_file.deep_view(),
            user_exists,
        ),
{
    if named.is_some() {
        named
    } else if local_exists {
        Some("config.yml".to_owned())
    } else if user_exists {
        user_file
    } else {
        None
    }
}

} // verus!
