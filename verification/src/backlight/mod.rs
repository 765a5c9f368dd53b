//! The backlight controller: reports the backlight and carries out what
//! the hub asks of it.

pub mod raspberry_pi;
pub mod stub;

use crate::backlight::raspberry_pi::RaspberryPiBacklight;
use crate::backlight::stub::StubBacklight;
use crate::config::{BacklightProvider, Config};
use crate::mqtt::MqttMessage;
use crate::state::{PowerState, StateChange};
use crate::topics::{command_topic, make_command_topic, make_state_topic};
use vstd::prelude::*;

verus! {

/// The backlight that a worker drives, by the provider that was configured.
#[derive(Debug)]
pub enum BacklightDevice {
    RaspberryPi(RaspberryPiBacklight),
    Stub(StubBacklight),
}

/// The backlight for a provider. A stub starts out on at full brightness.
pub fn get_backlight_module(config: BacklightProvider) -> (device: BacklightDevice)
    ensures
        match config {
            BacklightProvider::RaspberryPi => device is RaspberryPi,
            BacklightProvider::Stub => device == BacklightDevice::Stub(
                StubBacklight { power: true, brightness: 255 },
            ),
        },
{
    match config {
        BacklightProvider::RaspberryPi => BacklightDevice::RaspberryPi(RaspberryPiBacklight::new()),
        BacklightProvider::Stub => BacklightDevice::Stub(StubBacklight::new()),
    }
}

/// What the hub asks of the backlight; either part may be left out.
#[derive(Debug, Clone, Copy, PartialEq, Eq, Structural)]
pub struct BacklightUpdate {
    pub power: Option<PowerState>,
    pub brightness: Option<u32>,
}

/// What to do about an update: the values to set on the device, in this
/// order, and the report to make once they are set.
#[derive(Debug, PartialEq, Eq)]
pub struct BacklightPlan {
    pub set_power: Option<bool>,
    pub set_brightness: Option<u32>,
    pub change: StateChange,
}

/// The power after an update: what the update asks for, else what it was.
pub open spec fn next_power(power: bool, update: BacklightUpdate) -> bool {
    match update.power {
        Some(next) => next.is_on(),
        None => power,
    }
}

/// The brightness after an update: what the update asks for, else what it was.
pub open spec fn next_brightness(brightness: u32, update: BacklightUpdate) -> u32 {
    match update.brightness {
        Some(next) => next,
        None => brightness,
    }
}

/// The worker that drives the backlight. It remembers the power and the
/// brightness it has last read or set.
#[derive(Debug)]
pub struct BacklightModule {
    topic: String,
    power: bool,
    brightness: u32,
}

impl BacklightModule {
    /// The topic the worker listens on.
    pub closed spec fn topic(&self) -> Seq<char> {
        self.topic@
    }

    /// The power as last read or set.
    pub closed spec fn power(&self) -> bool {
        self.power
    }

    /// The brightness as last read or set.
    pub closed spec fn brightness(&self) -> u32 {
        self.brightness
    }

    /// The worker for a configuration, given the power and the brightness
    /// that were read from the device.
    pub fn new(config: &Config, power: bool, brightness: u32) -> (module: BacklightModule)
        ensures
            module.topic() == command_topic(config.hass.entity_id@),
            module.power() == power,
            module.brightness() == brightness,
    {
        let state_topic = make_state_topic(config.hass.entity_id.as_str());
        BacklightModule { topic: make_command_topic(state_topic.as_str()), power, brightness }
    }

    /// The report of the backlight as it stands.
    pub fn report(&self) -> (change: StateChange)
        ensures
            change == (StateChange::Backlight {
                power: self.power(),
                brightness: self.brightness(),
            }),
    {
        StateChange::Backlight { brightness: self.brightness, power: self.power }
    }

    /// Whether a message is a command for the backlight: the gateway hands
    /// every worker every message, and this one takes those on its own
    /// topic.
    pub fn accepts(&self, message: &MqttMessage) -> (accepted: bool)
        ensures
            accepted == (message.topic@ == self.topic()),
    {
        message.topic == self.topic
    }

    /// Takes an update: what it asks for is set and remembered, what it
    /// leaves out stays, and the backlight is reported in full.
    pub fn update(&mut self, update: BacklightUpdate) -> (plan: BacklightPlan)
        ensures
            final(self).topic() == old(self).topic(),
            final(self).power() == next_power(old(self).power(), update),
            final(self).brightness() == next_brightness(old(self).brightness(), update),
            plan.set_power == match update.power {
                Some(next) => Some(next.is_on()),
                None => None,
            },
            plan.set_brightness == update.brightness,
            plan.change == (StateChange::Backlight {
                power: final(self).power(),
                brightness: final(self).brightness(),
            }),
    {
        let set_power = match update.power {
            Some(PowerState::On) => Some(true),
            Some(PowerState::Off) => Some(false),
            None => None,
        };
        if let Some(next) = set_power {
            self.power = next;
        }
        if let Some(next) = update.brightness {
            self.brightness = next;
        }
        BacklightPlan { set_power, set_brightness: update.brightness, change: self.report() }
    }
}

/// An update that names both power and brightness leaves no trace of what
/// was there before: a worker that has missed earlier updates is in step
/// again after it.
pub proof fn lemma_full_update_resyncs(
    power: bool,
    brightness: u32,
    missed_power: bool,
    missed_brightness: u32,
    update: BacklightUpdate,
)
    requires
        update.power is Some,
        update.brightness is Some,
    ensures
        next_power(power, update) == next_power(missed_power, update),
        next_brightness(brightness, update) == next_brightness(missed_brightness, update),
{
}

} // verus!
