//! Linux sysfs GPIO output lines: where a line's files are and what text
//! drives it to a requested state.
use vstd::prelude::*;

use crate::text::{decimal, decimal_string, push_decimal};

verus! {

/// The sysfs file to which a GPIO number is written to export the line.
pub const GPIO_EXPORT_PATH: &'static str = "/sys/class/gpio/export";

/// The sysfs directory of the exported GPIO line `gpio`.
pub open spec fn gpio_dir(gpio: u32) -> Seq<char> {
    "/sys/class/gpio/gpio"@ + decimal(gpio as nat)
}

/// The text written to a line's `value` file for the electrical level `high`.
pub open spec fn level_text(high: bool) -> Seq<char> {
    if high {
        "1"@
    } else {
        "0"@
    }
}

/// Whether an output line that is active-high (or not) is driven high for
/// the request `enabled`.
pub open spec fn output_level(active_high: bool, enabled: bool) -> bool {
    active_high == enabled
}

/// Whether a reset line that is active-low (or not) is driven high for the
/// request `enabled` (enabled meaning: the hashboard is let out of reset).
pub open spec fn reset_level(active_low: bool, enabled: bool) -> bool {
    active_low == enabled
}

/// The text of the GPIO number `gpio` as the export file takes it.
pub fn gpio_export_text(gpio: u32) -> (res: String)
    ensures
        res@ == decimal(gpio as nat),
{
    decimal_string(gpio as u64)
}

/// The sysfs directory of the exported line `gpio`.
pub fn gpio_dir_path(gpio: u32) -> (res: String)
    ensures
        res@ == gpio_dir(gpio),
{
    let mut path = "/sys/class/gpio/gpio".to_owned();
    push_decimal(&mut path, gpio as u64);
    path
}

/// The `direction` file of the exported line `gpio`.
pub fn gpio_direction_path(gpio: u32) -> (res: String)
    ensures
        res@ == gpio_dir(gpio) + "/direction"@,
{
    let mut path = gpio_dir_path(gpio);
    path.append("/direction");
    path
}

/// The `value` file of the exported line `gpio`.
pub fn gpio_value_path(gpio: u32) -> (res: String)
    ensures
        res@ == gpio_dir(gpio) + "/value"@,
{
    let mut path = gpio_dir_path(gpio);
    path.append("/value");
    path
}

/// The text for the electrical level `high`.
fn level_for(high: bool) -> (res: &'static str)
    ensures
        res@ == level_text(high),
{
    if high {
        "1"
    } else {
        "0"
    }
}

/// A GPIO output that switches something on or off, such as the power
/// supply enable, with a configurable polarity.
pub struct SysfsOutputLine {
    pub gpio: u32,
    pub active_high: bool,
    pub value_path: String,
    pub label: &'static str,
}

impl SysfsOutputLine {
    /// The line `gpio`, with its `value` file at the sysfs place of the line.
    pub fn for_gpio(gpio: u32, active_high: bool, label: &'static str) -> (res: Self)
        ensures
            res.gpio == gpio,
            res.active_high == active_high,
            res.value_path@ == gpio_dir(gpio) + "/value"@,
            res.label == label,
    {
        SysfsOutputLine { gpio, active_high, value_path: gpio_value_path(gpio), label }
    }

    /// The text to write to the line's `value` file to switch it on
    /// (`enabled`) or off: `"1"` where that means a high level.
    pub fn value_for(&self, enabled: bool) -> (res: &'static str)
        ensures
            res@ == level_text(output_level(self.active_high, enabled)),
    {
        level_for(self.active_high == enabled)
    }
}

/// A GPIO output that holds the hashboard in reset or lets it run.
pub struct SysfsResetLine {
    pub gpio: u32,
    pub active_low: bool,
    pub value_path: String,
}

impl SysfsResetLine {
    /// The line `gpio`, with its `value` file at the sysfs place of the line.
    pub fn for_gpio(gpio: u32, active_low: bool) -> (res: Self)
        ensures
            res.gpio == gpio,
            res.active_low == active_low,
            res.value_path@ == gpio_dir(gpio) + "/value"@,
    {
        SysfsResetLine { gpio, active_low, value_path: gpio_value_path(gpio) }
    }

    /// The text to write to the line's `value` file to let the hashboard run
    /// (`enabled`) or hold it in reset.
    pub fn value_for(&self, enabled: bool) -> (res: &'static str)
        ensures
            res@ == level_text(reset_level(self.active_low, enabled)),
    {
        level_for(self.active_low == enabled)
    }
}

/// Switching a line on and switching it off write different texts, and two
/// lines of opposite polarity write different texts for the same request:
/// the polarity setting is what decides the electrical level.
pub proof fn lemma_levels_differ(active_high: bool, enabled: bool)
    ensures
        level_text(output_level(active_high, enabled)) != level_text(
            output_level(active_high, !enabled),
        ),
        level_text(output_level(active_high, enabled)) != level_text(
            output_level(!active_high, enabled),
        ),
        level_text(reset_level(active_high, enabled)) != level_text(
            reset_level(active_high, !enabled),
        ),
{
    reveal_strlit("1");
    reveal_strlit("0");
    assert("1"@[0] != "0"@[0]);
}

/// The text written for each request: an active-high output line (such as
/// the chain reset release) writes `1` to switch on and `0` to switch off,
/// an active-low one (such as the default PS enable) the reverse; an
/// active-low reset line writes `1` to let the hashboard run and `0` to hold
/// it in reset, an active-high one the reverse.
pub proof fn lemma_line_polarity()
    ensures
        level_text(output_level(true, true)) == "1"@,
        level_text(output_level(true, false)) == "0"@,
        level_text(output_level(false, true)) == "0"@,
        level_text(output_level(false, false)) == "1"@,
        level_text(reset_level(true, true)) == "1"@,
        level_text(reset_level(true, false)) == "0"@,
        level_text(reset_level(false, true)) == "0"@,
        level_text(reset_level(false, false)) == "1"@,
{
}

} // verus!
