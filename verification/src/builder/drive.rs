//! The builder of a drive.

use vstd::prelude::*;

use crate::builder::{assert_not_none, Builder, BuilderError};
use crate::models::Drive;

verus! {

/// Builds a `Drive`. Its id and its host path are required; it is neither
/// the root device nor read-only unless it is made so.
#[derive(Debug)]
pub struct DriveBuilder {
    pub drive_id: Option<String>,
    pub path_on_host: Option<String>,
    pub is_root_device: bool,
    pub is_read_only: bool,
}

impl DriveBuilder {
    pub fn new() -> (builder: DriveBuilder)
        ensures
            builder == (DriveBuilder {
                drive_id: None,
                path_on_host: None,
                is_root_device: false,
                is_read_only: false,
            }),
    {
        DriveBuilder {
            drive_id: None,
            path_on_host: None,
            is_root_device: false,
            is_read_only: false,
        }
    }

    pub fn with_drive_id(self, drive_id: String) -> (builder: DriveBuilder)
        ensures
            builder == (DriveBuilder { drive_id: Some(drive_id), ..self }),
    {
        DriveBuilder { drive_id: Some(drive_id), ..self }
    }

    pub fn with_path_on_host(self, path_on_host: String) -> (builder: DriveBuilder)
        ensures
            builder == (DriveBuilder { path_on_host: Some(path_on_host), ..self }),
    {
        DriveBuilder { path_on_host: Some(path_on_host), ..self }
    }

    pub fn as_root_device(self) -> (builder: DriveBuilder)
        ensures
            builder == (DriveBuilder { is_root_device: true, ..self }),
    {
        DriveBuilder { is_root_device: true, ..self }
    }

    pub fn as_read_only(self) -> (builder: DriveBuilder)
        ensures
            builder == (DriveBuilder { is_read_only: true, ..self }),
    {
        DriveBuilder { is_read_only: true, ..self }
    }
}

impl Builder<Drive> for DriveBuilder {
    open spec fn missing(&self) -> Option<Seq<char>> {
        if self.drive_id is None {
            Some("self.drive_id"@)
        } else if self.path_on_host is None {
            Some("self.path_on_host"@)
        } else {
            None
        }
    }

    /// The drive has the builder's id, path and flags, and nothing else set.
    fn try_build(self) -> (built: Result<Drive, BuilderError>)
        ensures
            built is Ok ==> built.unwrap() == (Drive {
                drive_id: self.drive_id.unwrap(),
                path_on_host: self.path_on_host.unwrap(),
                is_root_device: self.is_root_device,
                is_read_only: self.is_read_only,
                cache_type: None,
                partuuid: None,
                rate_limiter: None,
                io_engine: None,
            }),
    {
        match assert_not_none("self.drive_id", &self.drive_id) {
            Err(error) => {
                return Err(error);
            },
            Ok(_) => {},
        }
        match assert_not_none("self.path_on_host", &self.path_on_host) {
            Err(error) => {
                return Err(error);
            },
            Ok(_) => {},
        }
        Ok(
            Drive {
                drive_id: self.drive_id.unwrap(),
                path_on_host: self.path_on_host.unwrap(),
                is_root_device: self.is_root_device,
                is_read_only: self.is_read_only,
                cache_type: None,
                partuuid: None,
                rate_limiter: None,
                io_engine: None,
            },
        )
    }
}

} // verus!
