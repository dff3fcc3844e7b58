//! Settings of one monitor run: brightness, colour temperature and the
//! optional light identifier and network address handed to the external
//! light-control program. The values are loaded once at startup and never
//! mutated afterwards.

use vstd::prelude::*;

verus! {

/// Immutable settings of one monitor run.
pub struct MonitorSettings {
    /// Brightness in percent, meaningful between 0 and 100.
    pub brightness: u8,
    /// Colour temperature in Kelvin.
    pub temperature: u16,
    /// Optional identifier naming which light to drive.
    pub light: Option<String>,
    /// Optional network address overriding light discovery.
    pub ip_address: Option<String>,
}

/// Brightness used when the configuration supplies none.
pub fn default_brightness() -> (b: u8)
    ensures
        b == 10,
{
    10
}

/// Colour temperature in Kelvin used when the configuration supplies none.
pub fn default_temperature() -> (t: u16)
    ensures
        t == 5000,
{
    5000
}

impl Default for MonitorSettings {
    /// The settings used when no configuration file is present or it fails
    /// to parse: default brightness and temperature, no light identifier,
    /// no address override.
    fn default() -> (s: Self)
        ensures
            s.brightness == 10,
            s.temperature == 5000,
            s.light is None,
            s.ip_address is None,
    {
        MonitorSettings {
            brightness: default_brightness(),
            temperature: default_temperature(),
            light: None,
            ip_address: None,
        }
    }
}

} // verus!
