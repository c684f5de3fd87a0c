//! The records of a status document.
//!
//! They are data only. Every text field is a view into the buffer that the
//! response was received in, so a record lives no longer than that buffer's
//! borrow.

use vstd::prelude::*;
use crate::feed::Feed;

verus! {

/// Neptune Apex system status.
#[derive(Debug)]
pub struct SystemStatus<'a> {
    /// Hostname of the Apex system: the name that shows up in Fusion.
    pub hostname: &'a str,
    /// Software version, for example `12_8H24`.
    pub software: &'a str,
    /// Hardware version, for example `1.0`.
    pub hardware: &'a str,
    /// Serial number, for example `AC5:XXXXX`.
    pub serial: &'a str,
    /// Type of the system, for example `AC5`.
    pub ty: &'a str,
    /// Timezone as an offset from GMT, for example `-7.00`.
    pub timezone: &'a str,
    /// Time and date of the system, believed to be seconds from the Unix
    /// epoch.
    pub date: u64,
}

/// Status of an Apex module.
#[derive(Debug)]
pub struct ModuleStatus<'a> {
    /// Aquabus address.
    pub abaddr: u32,
    /// Hardware type, for example `EB832`, `TRI`, `DOS`.
    pub hwtype: &'a str,
    /// Hardware revision.
    pub hwrev: u32,
    /// Software revision.
    pub swrev: u32,
    /// Software status, for example `OK`.
    pub swstat: &'a str,
    /// "P" count.
    pub pcount: u32,
    /// "P" good count.
    pub pgood: u32,
    /// "P" error count.
    pub perror: u32,
    /// Reattempts.
    pub reatt: u32,
    /// Is in bootloader.
    pub boot: bool,
    /// Is present.
    pub present: bool,
}

/// Feed cycle status.
#[derive(Debug)]
pub struct FeedStatus {
    /// Which feed cycle is active.
    pub name: Feed,
    /// Active (use unknown).
    pub active: u32,
}

/// Power status.
#[derive(Debug)]
pub struct PowerStatus {
    /// Timestamp of the last power failure.
    pub failed: u32,
    /// Timestamp of the last power restoration.
    pub restored: u32,
}

/// Apex output status.
#[derive(Debug)]
pub struct OutputStatus<'a> {
    /// Array of output statuses; their meaning is unknown.
    pub status: Vec<&'a str>,
    /// Name of the output.
    pub name: &'a str,
    /// GID of the output.
    pub gid: &'a str,
    /// Type of the output, for example `selector`, `dos`, `outlet`.
    pub ty: &'a str,
    /// ID of the output.
    pub id: u32,
    /// Device ID of the output, generally `<bus_number>_<device_number>`.
    pub did: &'a str,
}

/// Apex input status.
#[derive(Debug)]
pub struct InputStatus<'a> {
    /// Device ID of the input, generally `<bus_number>_<device_number>`.
    pub did: &'a str,
    /// Type of the input, for example `Temp`, `pH`, `Cond`, `digital`.
    pub ty: &'a str,
    /// Name of the input.
    pub name: &'a str,
    /// Value of the input: the bit pattern of the IEEE 754 single-precision
    /// reading.
    pub value_bits: u32,
}

/// Neptune Apex status.
#[derive(Debug)]
pub struct Status<'a> {
    /// The system itself.
    pub system: SystemStatus<'a>,
    /// The modules on the bus.
    pub modules: Vec<ModuleStatus<'a>>,
    /// The feed cycle.
    pub feed: FeedStatus,
    /// The power supply.
    pub power: PowerStatus,
    /// The outputs.
    pub outputs: Vec<OutputStatus<'a>>,
    /// The inputs.
    pub inputs: Vec<InputStatus<'a>>,
}

} // verus!
