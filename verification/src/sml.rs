//! Settings for the meter's infrared serial port.
use vstd::prelude::*;

verus! {

/// Which serial device to read the meter telegrams from, and how
/// fast.
#[derive(Clone, Debug)]
pub struct SerialConfig {
    pub device: String,
    pub baud: u32,
}

/// The baud rate used when the settings name none.
pub fn default_baud() -> (n: u32)
    ensures
        n == 9600,
{
    9600
}

/// The meter readings the published telegrams carry, told apart by the
/// object name of each value in the list response.
#[derive(Clone, Copy, Debug, PartialEq, Eq, Structural)]
pub enum ObisKind {
    /// The momentary active power, in watts.
    ActivePower,
    /// The total energy taken from the grid.
    EnergyImport,
    /// The total energy fed into the grid.
    EnergyExport,
}

/// The reading an object name stands for: bytes two through four of
/// the name pick it, everything else is ignored.
pub open spec fn spec_obis_kind(name: Seq<u8>) -> Option<ObisKind> {
    if name.len() < 5 {
        None
    } else if name[2] == 16 && name[3] == 7 && name[4] == 0 {
        Some(ObisKind::ActivePower)
    } else if name[2] == 1 && name[3] == 8 && name[4] == 0 {
        Some(ObisKind::EnergyImport)
    } else if name[2] == 2 && name[3] == 8 && name[4] == 0 {
        Some(ObisKind::EnergyExport)
    } else {
        None
    }
}

/// Which reading a telegram value carries, by its object name.
pub fn obis_kind(name: &[u8]) -> (r: Option<ObisKind>)
    ensures
        r == spec_obis_kind(name@),
{
    if name.len() < 5 {
        None
    } else if name[2] == 16 && name[3] == 7 && name[4] == 0 {
        Some(ObisKind::ActivePower)
    } else if name[2] == 1 && name[3] == 8 && name[4] == 0 {
        Some(ObisKind::EnergyImport)
    } else if name[2] == 2 && name[3] == 8 && name[4] == 0 {
        Some(ObisKind::EnergyExport)
    } else {
        None
    }
}

} // verus!
