//! The units of measurement Home Assistant understands.
use vstd::prelude::*;

verus! {

// https://github.com/home-assistant/core/blob/master/homeassistant/const.py#L384
#[derive(Clone, Copy, Debug, Eq, PartialEq, Structural)]
pub enum UnitOfMeasurement {
    // Apparent power units
    VoltAmpere,
    // Power units
    Watt,
    KiloWatt,
    BtuPerHour,
    // Energy units
    KiloWattHours,
    MegaWattHours,
    WattHours,
    // Electric_current units
    MilliAmpere,
    Ampere,
    // Electric_potential units
    MilliVolt,
    Volt,
    // Degree units
    Degree,
    // Currency units
    Euro,
    Dollar,
    Cent,
    // Temperature units
    TempCelsius,
    TempFahrenheit,
    TempKelvin,
    // Time units
    Microseconds,
    Milliseconds,
    Seconds,
    Minutes,
    Hours,
    Days,
    Weeks,
    Months,
    Years,
    // Length units
    Millimeters,
    Centimeters,
    Meters,
    Kilometers,
    Inches,
    Feet,
    Yard,
    Miles,
    // Frequency units
    Hertz,
    Kilohertz,
    Megahertz,
    Gigahertz,
    // Pressure units
    Pa,
    Hpa,
    Kpa,
    Bar,
    Cbar,
    Mbar,
    Mmhg,
    Inhg,
    Psi,
    // Sound pressure units
    Decibel,
    WeightedDecibelA,
    // Volume units
    CubicFeet,
    CentumCubicFeet,
    CubicMeters,
    Liters,
    Milliliters,
    Gallons,
    FluidOunces,
    // Volume Flow Rate units
    CubicMetersPerHour,
    CubicFeetPerMinute,
    // Area units
    SquareMeters,
    // Mass units
    Grams,
    Kilograms,
    Milligrams,
    Micrograms,
    Ounces,
    Pounds,
    Stones,
    // Conductivity units
    Conductivity,
    // Light units
    Lux,
    // UV Index units
    UvIndex,
    // Percentage units
    Percentage,
    // Rotational speed units
    RevolutionsPerMinute,
    // Irradiance units
    WattsPerSquareMeter,
    BtusPerHourSquareFoot,
    // Volumetric flux
    InchesPerDay,
    InchesPerHour,
    MillimetersPerDay,
    MillimetersPerHour,
    // Concentration units
    MicrogramsPreCubicMeter,
    MilligramsPerCubicMeter,
    MicrogramsPerCubicFoot,
    PartsPerCubicMeter,
    PartsPerMillion,
    PartsPerBillion,
    // Speed units
    FeetPerSecond,
    MetersPerSecond,
    KilometersPerHour,
    Knots,
    MilesPerHour,
    // Signal_strength units
    DecibelsMilliwatt,
    // Data units
    Bits,
    Kilobits,
    Megabits,
    Gigabits,
    Bytes,
    Kilobytes,
    Megabytes,
    Gigabytes,
    Terabytes,
    Petabytes,
    Exabytes,
    Zettabytes,
    Yottabytes,
    Kibibytes,
    Mebibytes,
    Gibibytes,
    Tebibytes,
    Pebibytes,
    Exbibytes,
    Zebibytes,
    Yobibytes,
    // Data rate units
    BitsPerSecond,
    KiloBitsPerSecond,
    MegaBitsPerSecond,
    GigaBitsPerSecond,
    BytesPerSecond,
    KilobytesPerSecond,
    MegabytesPerSecond,
    GigabytesPerSecond,
    KibibytesPerSecond,
    MebibytesPerSecond,
    GibibytesPerSecond,
}

impl UnitOfMeasurement {
    /// The name this value is published under in a discovery payload.
    pub open spec fn spec_name(&self) -> Seq<char> {
        match self {
            UnitOfMeasurement::VoltAmpere => "VA"@,
            UnitOfMeasurement::Watt => "W"@,
            UnitOfMeasurement::KiloWatt => "kW"@,
            UnitOfMeasurement::BtuPerHour => "BTU/h"@,
            UnitOfMeasurement::KiloWattHours => "kWh"@,
            UnitOfMeasurement::MegaWattHours => "MWh"@,
            UnitOfMeasurement::WattHours => "Wh"@,
            UnitOfMeasurement::MilliAmpere => "mA"@,
            UnitOfMeasurement::Ampere => "A"@,
            UnitOfMeasurement::MilliVolt => "mV"@,
            UnitOfMeasurement::Volt => "V"@,
            UnitOfMeasurement::Degree => "°"@,
            UnitOfMeasurement::Euro => "€"@,
            UnitOfMeasurement::Dollar => "$"@,
            UnitOfMeasurement::Cent => "¢"@,
            UnitOfMeasurement::TempCelsius => "°C"@,
            UnitOfMeasurement::TempFahrenheit => "°F"@,
            UnitOfMeasurement::TempKelvin => "K"@,
            UnitOfMeasurement::Microseconds => "μs"@,
            UnitOfMeasurement::Milliseconds => "ms"@,
            UnitOfMeasurement::Seconds => "s"@,
            UnitOfMeasurement::Minutes => "min"@,
            UnitOfMeasurement::Hours => "h"@,
            UnitOfMeasurement::Days => "d"@,
            UnitOfMeasurement::Weeks => "w"@,
            UnitOfMeasurement::Months => "m"@,
            UnitOfMeasurement::Years => "y"@,
            UnitOfMeasurement::Millimeters => "mm"@,
            UnitOfMeasurement::Centimeters => "cm"@,
            UnitOfMeasurement::Meters => "m"@,
            UnitOfMeasurement::Kilometers => "km"@,
            UnitOfMeasurement::Inches => "in"@,
            UnitOfMeasurement::Feet => "ft"@,
            UnitOfMeasurement::Yard => "yd"@,
            UnitOfMeasurement::Miles => "mi"@,
            UnitOfMeasurement::Hertz => "Hz"@,
            UnitOfMeasurement::Kilohertz => "kHz"@,
            UnitOfMeasurement::Megahertz => "MHz"@,
            UnitOfMeasurement::Gigahertz => "GHz"@,
            UnitOfMeasurement::Pa => "Pa"@,
            UnitOfMeasurement::Hpa => "hPa"@,
            UnitOfMeasurement::Kpa => "kPa"@,
            UnitOfMeasurement::Bar => "bar"@,
            UnitOfMeasurement::Cbar => "cbar"@,
            UnitOfMeasurement::Mbar => "mbar"@,
            UnitOfMeasurement::Mmhg => "mmHg"@,
            UnitOfMeasurement::Inhg => "inHg"@,
            UnitOfMeasurement::Psi => "psi"@,
            UnitOfMeasurement::Decibel => "dB"@,
            UnitOfMeasurement::WeightedDecibelA => "dBA"@,
            UnitOfMeasurement::CubicFeet => "ft³"@,
            UnitOfMeasurement::CentumCubicFeet => "CCF"@,
            UnitOfMeasurement::CubicMeters => "m³"@,
            UnitOfMeasurement::Liters => "L"@,
            UnitOfMeasurement::Milliliters => "mL"@,
            UnitOfMeasurement::Gallons => "gal"@,
            UnitOfMeasurement::FluidOunces => "fl. oz."@,
            UnitOfMeasurement::CubicMetersPerHour => "m³/h"@,
            UnitOfMeasurement::CubicFeetPerMinute => "ft³/m"@,
            UnitOfMeasurement::SquareMeters => "m²"@,
            UnitOfMeasurement::Grams => "g"@,
            UnitOfMeasurement::Kilograms => "kg"@,
            UnitOfMeasurement::Milligrams => "mg"@,
            UnitOfMeasurement::Micrograms => "µg"@,
            UnitOfMeasurement::Ounces => "oz"@,
            UnitOfMeasurement::Pounds => "lb"@,
            UnitOfMeasurement::Stones => "st"@,
            UnitOfMeasurement::Conductivity => "µS/cm"@,
            UnitOfMeasurement::Lux => "lx"@,
            UnitOfMeasurement::UvIndex => "UV index"@,
            UnitOfMeasurement::Percentage => "%"@,
            UnitOfMeasurement::RevolutionsPerMinute => "rpm"@,
            UnitOfMeasurement::WattsPerSquareMeter => "W/m²"@,
            UnitOfMeasurement::BtusPerHourSquareFoot => "BTU/(h⋅ft²)"@,
            UnitOfMeasurement::InchesPerDay => "in/d"@,
            UnitOfMeasurement::InchesPerHour => "in/h"@,
            UnitOfMeasurement::MillimetersPerDay => "mm/d"@,
            UnitOfMeasurement::MillimetersPerHour => "mm/h"@,
            UnitOfMeasurement::MicrogramsPreCubicMeter => "µg/m³"@,
            UnitOfMeasurement::MilligramsPerCubicMeter => "mg/m³"@,
            UnitOfMeasurement::MicrogramsPerCubicFoot => "μg/ft³"@,
            UnitOfMeasurement::PartsPerCubicMeter => "p/m³"@,
            UnitOfMeasurement::PartsPerMillion => "ppm"@,
            UnitOfMeasurement::PartsPerBillion => "ppb"@,
            UnitOfMeasurement::FeetPerSecond => "ft/s"@,
            UnitOfMeasurement::MetersPerSecond => "m/s"@,
            UnitOfMeasurement::KilometersPerHour => "km/h"@,
            UnitOfMeasurement::Knots => "kn"@,
            UnitOfMeasurement::MilesPerHour => "mph"@,
            UnitOfMeasurement::DecibelsMilliwatt => "dBm"@,
            UnitOfMeasurement::Bits => "bit"@,
            UnitOfMeasurement::Kilobits => "kbit"@,
            UnitOfMeasurement::Megabits => "Mbit"@,
            UnitOfMeasurement::Gigabits => "Gbit"@,
            UnitOfMeasurement::Bytes => "B"@,
            UnitOfMeasurement::Kilobytes => "kB"@,
            UnitOfMeasurement::Megabytes => "MB"@,
            UnitOfMeasurement::Gigabytes => "GB"@,
            UnitOfMeasurement::Terabytes => "TB"@,
            UnitOfMeasurement::Petabytes => "PB"@,
            UnitOfMeasurement::Exabytes => "EB"@,
            UnitOfMeasurement::Zettabytes => "ZB"@,
            UnitOfMeasurement::Yottabytes => "YB"@,
            UnitOfMeasurement::Kibibytes => "KiB"@,
            UnitOfMeasurement::Mebibytes => "MiB"@,
            UnitOfMeasurement::Gibibytes => "GiB"@,
            UnitOfMeasurement::Tebibytes => "TiB"@,
            UnitOfMeasurement::Pebibytes => "PiB"@,
            UnitOfMeasurement::Exbibytes => "EiB"@,
            UnitOfMeasurement::Zebibytes => "ZiB"@,
            UnitOfMeasurement::Yobibytes => "YiB"@,
            UnitOfMeasurement::BitsPerSecond => "bit/s"@,
            UnitOfMeasurement::KiloBitsPerSecond => "kbit/s"@,
            UnitOfMeasurement::MegaBitsPerSecond => "Mbit/s"@,
            UnitOfMeasurement::GigaBitsPerSecond => "Gbit/s"@,
            UnitOfMeasurement::BytesPerSecond => "B/s"@,
            UnitOfMeasurement::KilobytesPerSecond => "kB/s"@,
            UnitOfMeasurement::MegabytesPerSecond => "MB/s"@,
            UnitOfMeasurement::GigabytesPerSecond => "GB/s"@,
            UnitOfMeasurement::KibibytesPerSecond => "KiB/s"@,
            UnitOfMeasurement::MebibytesPerSecond => "MiB/s"@,
            UnitOfMeasurement::GibibytesPerSecond => "GiB/s"@,
        }
    }

    /// The published name, in place of a serializer.
    pub fn as_str(&self) -> (r: &'static str)
        ensures
            r@ == self.spec_name(),
    {
        match self {
            UnitOfMeasurement::VoltAmpere => "VA",
            UnitOfMeasurement::Watt => "W",
            UnitOfMeasurement::KiloWatt => "kW",
            UnitOfMeasurement::BtuPerHour => "BTU/h",
            UnitOfMeasurement::KiloWattHours => "kWh",
            UnitOfMeasurement::MegaWattHours => "MWh",
            UnitOfMeasurement::WattHours => "Wh",
            UnitOfMeasurement::MilliAmpere => "mA",
            UnitOfMeasurement::Ampere => "A",
            UnitOfMeasurement::MilliVolt => "mV",
            UnitOfMeasurement::Volt => "V",
            UnitOfMeasurement::Degree => "°",
            UnitOfMeasurement::Euro => "€",
            UnitOfMeasurement::Dollar => "$",
            UnitOfMeasurement::Cent => "¢",
            UnitOfMeasurement::TempCelsius => "°C",
            UnitOfMeasurement::TempFahrenheit => "°F",
            UnitOfMeasurement::TempKelvin => "K",
            UnitOfMeasurement::Microseconds => "μs",
            UnitOfMeasurement::Milliseconds => "ms",
            UnitOfMeasurement::Seconds => "s",
            UnitOfMeasurement::Minutes => "min",
            UnitOfMeasurement::Hours => "h",
            UnitOfMeasurement::Days => "d",
            UnitOfMeasurement::Weeks => "w",
            UnitOfMeasurement::Months => "m",
            UnitOfMeasurement::Years => "y",
            UnitOfMeasurement::Millimeters => "mm",
            UnitOfMeasurement::Centimeters => "cm",
            UnitOfMeasurement::Meters => "m",
            UnitOfMeasurement::Kilometers => "km",
            UnitOfMeasurement::Inches => "in",
            UnitOfMeasurement::Feet => "ft",
            UnitOfMeasurement::Yard => "yd",
            UnitOfMeasurement::Miles => "mi",
            UnitOfMeasurement::Hertz => "Hz",
            UnitOfMeasurement::Kilohertz => "kHz",
            UnitOfMeasurement::Megahertz => "MHz",
            UnitOfMeasurement::Gigahertz => "GHz",
            UnitOfMeasurement::Pa => "Pa",
            UnitOfMeasurement::Hpa => "hPa",
            UnitOfMeasurement::Kpa => "kPa",
            UnitOfMeasurement::Bar => "bar",
            UnitOfMeasurement::Cbar => "cbar",
            UnitOfMeasurement::Mbar => "mbar",
            UnitOfMeasurement::Mmhg => "mmHg",
            UnitOfMeasurement::Inhg => "inHg",
            UnitOfMeasurement::Psi => "psi",
            UnitOfMeasurement::Decibel => "dB",
            UnitOfMeasurement::WeightedDecibelA => "dBA",
            UnitOfMeasurement::CubicFeet => "ft³",
            UnitOfMeasurement::CentumCubicFeet => "CCF",
            UnitOfMeasurement::CubicMeters => "m³",
            UnitOfMeasurement::Liters => "L",
            UnitOfMeasurement::Milliliters => "mL",
            UnitOfMeasurement::Gallons => "gal",
            UnitOfMeasurement::FluidOunces => "fl. oz.",
            UnitOfMeasurement::CubicMetersPerHour => "m³/h",
            UnitOfMeasurement::CubicFeetPerMinute => "ft³/m",
            UnitOfMeasurement::SquareMeters => "m²",
            UnitOfMeasurement::Grams => "g",
            UnitOfMeasurement::Kilograms => "kg",
            UnitOfMeasurement::Milligrams => "mg",
            UnitOfMeasurement::Micrograms => "µg",
            UnitOfMeasurement::Ounces => "oz",
            UnitOfMeasurement::Pounds => "lb",
            UnitOfMeasurement::Stones => "st",
            UnitOfMeasurement::Conductivity => "µS/cm",
            UnitOfMeasurement::Lux => "lx",
            UnitOfMeasurement::UvIndex => "UV index",
            UnitOfMeasurement::Percentage => "%",
            UnitOfMeasurement::RevolutionsPerMinute => "rpm",
            UnitOfMeasurement::WattsPerSquareMeter => "W/m²",
            UnitOfMeasurement::BtusPerHourSquareFoot => "BTU/(h⋅ft²)",
            UnitOfMeasurement::InchesPerDay => "in/d",
            UnitOfMeasurement::InchesPerHour => "in/h",
            UnitOfMeasurement::MillimetersPerDay => "mm/d",
            UnitOfMeasurement::MillimetersPerHour => "mm/h",
            UnitOfMeasurement::MicrogramsPreCubicMeter => "µg/m³",
            UnitOfMeasurement::MilligramsPerCubicMeter => "mg/m³",
            UnitOfMeasurement::MicrogramsPerCubicFoot => "μg/ft³",
            UnitOfMeasurement::PartsPerCubicMeter => "p/m³",
            UnitOfMeasurement::PartsPerMillion => "ppm",
            UnitOfMeasurement::PartsPerBillion => "ppb",
            UnitOfMeasurement::FeetPerSecond => "ft/s",
            UnitOfMeasurement::MetersPerSecond => "m/s",
            UnitOfMeasurement::KilometersPerHour => "km/h",
            UnitOfMeasurement::Knots => "kn",
            UnitOfMeasurement::MilesPerHour => "mph",
            UnitOfMeasurement::DecibelsMilliwatt => "dBm",
            UnitOfMeasurement::Bits => "bit",
            UnitOfMeasurement::Kilobits => "kbit",
            UnitOfMeasurement::Megabits => "Mbit",
            UnitOfMeasurement::Gigabits => "Gbit",
            UnitOfMeasurement::Bytes => "B",
            UnitOfMeasurement::Kilobytes => "kB",
            UnitOfMeasurement::Megabytes => "MB",
            UnitOfMeasurement::Gigabytes => "GB",
            UnitOfMeasurement::Terabytes => "TB",
            UnitOfMeasurement::Petabytes => "PB",
            UnitOfMeasurement::Exabytes => "EB",
            UnitOfMeasurement::Zettabytes => "ZB",
            UnitOfMeasurement::Yottabytes => "YB",
            UnitOfMeasurement::Kibibytes => "KiB",
            UnitOfMeasurement::Mebibytes => "MiB",
            UnitOfMeasurement::Gibibytes => "GiB",
            UnitOfMeasurement::Tebibytes => "TiB",
            UnitOfMeasurement::Pebibytes => "PiB",
            UnitOfMeasurement::Exbibytes => "EiB",
            UnitOfMeasurement::Zebibytes => "ZiB",
            UnitOfMeasurement::Yobibytes => "YiB",
            UnitOfMeasurement::BitsPerSecond => "bit/s",
            UnitOfMeasurement::KiloBitsPerSecond => "kbit/s",
            UnitOfMeasurement::MegaBitsPerSecond => "Mbit/s",
            UnitOfMeasurement::GigaBitsPerSecond => "Gbit/s",
            UnitOfMeasurement::BytesPerSecond => "B/s",
            UnitOfMeasurement::KilobytesPerSecond => "kB/s",
            UnitOfMeasurement::MegabytesPerSecond => "MB/s",
            UnitOfMeasurement::GigabytesPerSecond => "GB/s",
            UnitOfMeasurement::KibibytesPerSecond => "KiB/s",
            UnitOfMeasurement::MebibytesPerSecond => "MiB/s",
            UnitOfMeasurement::GibibytesPerSecond => "GiB/s",
        }
    }
}

} // verus!
