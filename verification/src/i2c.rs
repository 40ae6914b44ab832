//! Inter-integrated-circuit bus configuration.

use vstd::prelude::*;

verus! {

/// Configuration settings.
#[derive(Debug, Clone)]
pub struct I2cConfig {
    /// Clock speed.
    pub speed: I2cSpeed,
}

impl Default for I2cConfig {
    /// Returns the default configuration: standard speed.
    fn default() -> (r: Self)
        ensures
            r == (I2cConfig { speed: I2cSpeed::Standard }),
    {
        Self { speed: I2cSpeed::Standard }
    }
}

/// Speed settings.
#[derive(Debug, Clone, Copy, PartialEq, Eq, Structural)]
pub enum I2cSpeed {
    /// Standard Mode: 100kHz.
    Standard,
    /// Fast Mode: 400kHz.
    Fast,
    /// Fast Mode Plus: 1MHz.
    FastPlus,
}

/// The bus frequency of each speed setting in Hz.
pub open spec fn spec_i2c_speed_hz(value: I2cSpeed) -> u32 {
    match value {
        I2cSpeed::Standard => 100000,
        I2cSpeed::Fast => 400000,
        I2cSpeed::FastPlus => 1000000,
    }
}

impl I2cSpeed {
    /// Returns the speed in Hz.
    pub fn hz(&self) -> (r: u32)
        ensures
            r == spec_i2c_speed_hz(*self),
    {
        match self {
            Self::Standard => 100000,
            Self::Fast => 400000,
            Self::FastPlus => 1000000,
        }
    }
}

} // verus!
