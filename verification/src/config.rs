//! Static settings: the TCP port, the simulation update interval, and the
//! fixed register mapping. Loading and parsing the settings file happens
//! outside the verified core; when it fails, these documented defaults are
//! substituted and startup proceeds.

use vstd::prelude::*;

verus! {

/// The pair of holding-register addresses the simulation driver publishes
/// to; immutable after load.
#[derive(Clone, Copy)]
pub struct RegisterMapping {
    pub temperature_address: u16,
    pub heater_state_address: u16,
}

/// Static settings for the bridge.
#[derive(Clone, Copy)]
pub struct ModbusConfig {
    pub port: u16,
    pub update_interval_ms: u64,
    pub registers: RegisterMapping,
}

impl Default for ModbusConfig {
    /// The documented defaults, used whenever no configuration can be read:
    /// port 5502, 100 ms update interval, temperature register 40001,
    /// heater-state register 40002.
    fn default() -> (c: Self)
        ensures
            c.port == 5502,
            c.update_interval_ms == 100,
            c.registers.temperature_address == 40001,
            c.registers.heater_state_address == 40002,
    {
        ModbusConfig {
            port: 5502,
            update_interval_ms: 100,
            registers: RegisterMapping {
                temperature_address: 40001,
                heater_state_address: 40002,
            },
        }
    }
}

} // verus!
