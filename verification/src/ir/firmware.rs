//! Firmware of a station.
use vstd::prelude::*;
use crate::core_types::Timestamp;
use crate::ir::ids::{Id, StationId};
use crate::ocpp::json::JsonValue;

verus! {

/// Progress of a firmware update.
#[derive(Debug, Clone, Copy, PartialEq, Eq, Structural)]
pub enum FirmwareUpdateStatus {
    /// Current.
    UpToDate,
    /// A newer version exists.
    UpdateAvailable,
    /// Downloading.
    Downloading,
    /// Verifying.
    Verifying,
    /// Installing.
    Installing,
    /// Installed.
    InstallComplete,
    /// Installation failed.
    InstallFailed,
    /// Rolled back.
    Rollback,
}

/// Firmware of a station.
#[derive(Debug)]
pub struct Firmware {
    /// Identifier.
    pub id: Id,
    /// Station.
    pub station_id: StationId,
    /// Installed version.
    pub version: String,
    /// Newer version available.
    pub available_version: Option<String>,
    /// Where to get it.
    pub firmware_uri: Option<String>,
    /// Size in bytes.
    pub size: Option<u64>,
    /// When it was installed.
    pub installed_at: Option<Timestamp>,
    /// Last check for updates.
    pub last_check: Option<Timestamp>,
    /// Update progress.
    pub update_status: FirmwareUpdateStatus,
    /// Checksum.
    pub checksum: Option<String>,
    /// Release notes.
    pub release_notes: Option<String>,
    /// Further data.
    pub metadata: Vec<(String, JsonValue)>,
}

impl Firmware {
    /// Up-to-date firmware `version` of a station, with nothing else known.
    pub fn new(station_id: StationId, version: String) -> (f: Self)
        ensures
            f.station_id == station_id,
            f.version == version,
            f.update_status == FirmwareUpdateStatus::UpToDate,
            f.available_version is None && f.firmware_uri is None && f.size is None,
            f.installed_at is None && f.last_check is None,
            f.checksum is None && f.release_notes is None,
            f.metadata@.len() == 0,
    {
        Firmware {
            id: Id::new(),
            station_id,
            version,
            available_version: None,
            firmware_uri: None,
            size: None,
            installed_at: None,
            last_check: None,
            update_status: FirmwareUpdateStatus::UpToDate,
            checksum: None,
            release_notes: None,
            metadata: Vec::new(),
        }
    }
}

} // verus!
