//! A backlight that is not there: it remembers what it is told.

use vstd::prelude::*;

verus! {

/// A stand-in for a backlight.
#[derive(Debug, PartialEq, Eq)]
pub struct StubBacklight {
    pub power: bool,
    pub brightness: u32,
}

impl Default for StubBacklight {
    fn default() -> (backlight: StubBacklight)
        ensures
            backlight == (StubBacklight { power: false, brightness: 0 }),
    {
        StubBacklight { power: false, brightness: 0 }
    }
}

impl StubBacklight {
    /// A backlight that is on at full brightness.
    pub fn new() -> (backlight: StubBacklight)
        ensures
            backlight == (StubBacklight { power: true, brightness: 255 }),
    {
        StubBacklight { power: true, brightness: 255 }
    }

    pub fn set_brightness(&mut self, value: u32)
        ensures
            *final(self) == (StubBacklight { brightness: value, ..*old(self) }),
    {
        self.brightness = value;
    }

    /// The brightness that was set last.
    pub fn get_brightness(&self) -> (brightness: u32)
        ensures
            brightness == self.brightness,
    {
        self.brightness
    }

    pub fn set_power(&mut self, value: bool)
        ensures
            *final(self) == (StubBacklight { power: value, ..*old(self) }),
    {
        self.power = value;
    }

    /// The power that was set last.
    pub fn get_power(&self) -> (power: bool)
        ensures
            power == self.power,
    {
        self.power
    }
}

} // verus!
