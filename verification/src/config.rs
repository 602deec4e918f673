//! Where the device and the store are named, and from which of two sources the
//! names are taken.

use crate::line::DEFAULT_BAUD_RATE;
use crate::relay::SinkConfig;
use vstd::prelude::*;

verus! {

/// The serial device and its line speed.
#[derive(Clone, Debug)]
pub struct DeviceConfig {
    pub path: String,
    pub baud_rate: u32,
}

/// All that the program is configured with.
#[derive(Clone, Debug)]
pub struct Config {
    pub device: DeviceConfig,
    pub conn: SinkConfig,
}

/// Where the configuration comes from.
#[derive(Clone, Debug)]
pub enum ConfigSource {
    /// Device and store were both named directly.
    Inline(Config),
    /// A file holds the configuration; this is its path.
    File(String),
}

/// Whether the three optional arguments select a source: device and store
/// together without a file, or a file without the other two.
pub open spec fn selects_source(
    device: Option<String>,
    conn: Option<SinkConfig>,
    config_file: Option<String>,
) -> bool {
    ||| device.is_some() && conn.is_some() && config_file.is_none()
    ||| device.is_none() && conn.is_none() && config_file.is_some()
}

impl DeviceConfig {
    /// The device at `path` with the default line speed.
    pub fn new(path: String) -> (device: DeviceConfig)
        ensures
            device == (DeviceConfig { path, baud_rate: DEFAULT_BAUD_RATE }),
    {
        DeviceConfig { path, baud_rate: DEFAULT_BAUD_RATE }
    }
}

/// Tests whether the three optional arguments select a source.
pub fn source_is_selected(
    device: &Option<String>,
    conn: &Option<SinkConfig>,
    config_file: &Option<String>,
) -> (ok: bool)
    ensures
        ok == selects_source(*device, *conn, *config_file),
{
    (device.is_some() && conn.is_some() && config_file.is_none()) || (device.is_none()
        && conn.is_none() && config_file.is_some())
}

/// The source that the three optional arguments select: device and store as
/// they were given, with the default line speed, or the file. Arguments that
/// select no source are not taken.
pub fn choose_source(
    device: Option<String>,
    conn: Option<SinkConfig>,
    config_file: Option<String>,
) -> (source: ConfigSource)
    requires
        selects_source(device, conn, config_file),
    ensures
        device.is_some() ==> source == ConfigSource::Inline(
            Config {
                device: DeviceConfig { path: device.unwrap(), baud_rate: DEFAULT_BAUD_RATE },
                conn: conn.unwrap(),
            },
        ),
        device.is_none() ==> source == ConfigSource::File(config_file.unwrap()),
{
    match device {
        Some(path) => ConfigSource::Inline(
            Config { device: DeviceConfig::new(path), conn: conn.unwrap() },
        ),
        None => ConfigSource::File(config_file.unwrap()),
    }
}

} // verus!
