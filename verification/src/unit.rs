//! Measurement units and the tokens the hub expects for them.

use vstd::prelude::*;

verus! {

/// Unit of a temperature reading.
#[derive(Debug, Clone, Copy, PartialEq, Eq)]
pub enum TemperatureUnit {
    Celcius,
    Kelvin,
    Fahrenheit,
    /// A unit outside the enumerated set; its token is passed through verbatim.
    Other(&'static str),
}

impl TemperatureUnit {
    /// The token of this unit, as the hub's discovery schema spells it.
    pub open spec fn token(self) -> &'static str {
        match self {
            TemperatureUnit::Celcius => "C",
            TemperatureUnit::Kelvin => "k",
            TemperatureUnit::Fahrenheit => "F",
            TemperatureUnit::Other(other) => other,
        }
    }

    pub fn as_str(&self) -> (token: &'static str)
        ensures
            token == self.token(),
    {
        match self {
            TemperatureUnit::Celcius => "C",
            TemperatureUnit::Kelvin => "k",
            TemperatureUnit::Fahrenheit => "F",
            TemperatureUnit::Other(other) => other,
        }
    }
}

/// Unit of a relative-humidity reading.
#[derive(Debug, Clone, Copy, PartialEq, Eq)]
pub enum HumidityUnit {
    Percentage,
    Other(&'static str),
}

/// Unit of a battery level.
#[derive(Debug, Clone, Copy, PartialEq, Eq)]
pub enum BatteryUnit {
    Percentage,
}

/// Unit of an illuminance reading.
#[derive(Debug, Clone, Copy, PartialEq, Eq)]
pub enum LightUnit {
    Lux,
}

/// Unit of a pressure reading.
#[derive(Debug, Clone, Copy, PartialEq, Eq)]
pub enum PressureUnit {
    HectoPascal,
}

/// Unit of an energy reading.
#[derive(Debug, Clone, Copy, PartialEq, Eq)]
pub enum EnergyUnit {
    KiloWattHour,
}

} // verus!
