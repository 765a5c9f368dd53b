//! The backlight of the official Raspberry Pi display, driven through the
//! files the kernel offers for it.

use crate::number::{parse_i32, parsed_i32, render_i32, rendered, trimmed};
use crate::text::join3;
use vstd::prelude::*;

verus! {

/// The directory of the display's files.
pub open spec fn backlight_path() -> Seq<char> {
    "/sys/class/backlight/rpi_backlight"@
}

/// The backlight of the Raspberry Pi display.
#[derive(Debug)]
pub struct RaspberryPiBacklight;

impl RaspberryPiBacklight {
    pub fn new() -> (backlight: RaspberryPiBacklight) {
        RaspberryPiBacklight
    }

    /// The file that switches the display; it holds 1 where the display is
    /// off.
    pub fn power_file() -> (name: String)
        ensures
            name@ == "bl_power"@,
    {
        "bl_power".to_owned()
    }

    /// The file the brightness is written to.
    pub fn brightness_file() -> (name: String)
        ensures
            name@ == "brightness"@,
    {
        "brightness".to_owned()
    }

    /// The file the brightness is read from.
    pub fn actual_brightness_file() -> (name: String)
        ensures
            name@ == "actual_brightness"@,
    {
        "actual_brightness".to_owned()
    }

    /// The path of one of the display's files.
    pub fn file_path(name: &str) -> (path: String)
        ensures
            path@ == backlight_path() + "/"@ + name@,
    {
        join3("/sys/class/backlight/rpi_backlight", "/", name)
    }

    /// The number that one of the display's files holds, or `None` where
    /// the file holds no number.
    pub fn parse_value(content: &str) -> (value: Option<i32>)
        ensures
            value == parsed_i32(trimmed(content@)),
    {
        parse_i32(content)
    }

    /// The text to write to one of the display's files for a number.
    pub fn render_value(value: i32) -> (content: String)
        ensures
            content@ == rendered(value as int),
    {
        render_i32(value)
    }

    /// Whether the display is on, given what its power file holds: every
    /// value but 1 means on.
    pub fn read_power(value: i32) -> (power: bool)
        ensures
            power == (value != 1),
    {
        value != 1
    }

    /// What to write to the power file: 0 switches the display on, 1 off.
    pub fn set_power(power: bool) -> (value: i32)
        ensures
            value == (if power {
                0i32
            } else {
                1i32
            }),
    {
        if power {
            0
        } else {
            1
        }
    }

    /// The brightness, given what the brightness file holds.
    pub fn read_brightness(value: i32) -> (brightness: u32)
        ensures
            brightness == value as u32,
    {
        value as u32
    }

    /// What to write to the brightness file.
    pub fn set_brightness(brightness: u32) -> (value: i32)
        ensures
            value == brightness as i32,
    {
        brightness as i32
    }
}

} // verus!
