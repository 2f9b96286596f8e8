//! The builder of a vsock device.

use vstd::prelude::*;

use crate::builder::{assert_not_none, Builder, BuilderError};
use crate::models::Vsock;

verus! {

/// Builds a `Vsock`. The guest's context id and the path of the socket are
/// required.
#[derive(Debug)]
pub struct VsockBuilder {
    pub guest_cid: Option<i32>,
    pub uds_path: Option<String>,
}

impl Default for VsockBuilder {
    fn default() -> (builder: VsockBuilder)
        ensures
            builder == (VsockBuilder { guest_cid: None, uds_path: None }),
    {
        VsockBuilder::new()
    }
}

impl VsockBuilder {
    pub fn new() -> (builder: VsockBuilder)
        ensures
            builder == (VsockBuilder { guest_cid: None, uds_path: None }),
    {
        VsockBuilder { guest_cid: None, uds_path: None }
    }

    pub fn with_guest_cid(self, guest_cid: i32) -> (builder: VsockBuilder)
        ensures
            builder == (VsockBuilder { guest_cid: Some(guest_cid), ..self }),
    {
        VsockBuilder { guest_cid: Some(guest_cid), ..self }
    }

    pub fn with_uds_path(self, uds_path: String) -> (builder: VsockBuilder)
        ensures
            builder == (VsockBuilder { uds_path: Some(uds_path), ..self }),
    {
        VsockBuilder { uds_path: Some(uds_path), ..self }
    }
}

impl Builder<Vsock> for VsockBuilder {
    open spec fn missing(&self) -> Option<Seq<char>> {
        if self.guest_cid is None {
            Some("self.guest_cid"@)
        } else if self.uds_path is None {
            Some("self.uds_path"@)
        } else {
            None
        }
    }

    /// The device has the builder's context id and path, and no id.
    fn try_build(self) -> (built: Result<Vsock, BuilderError>)
        ensures
            built is Ok ==> built.unwrap() == (Vsock {
                guest_cid: self.guest_cid.unwrap(),
                uds_path: self.uds_path.unwrap(),
                vsock_id: None,
            }),
    {
        match assert_not_none("self.guest_cid", &self.guest_cid) {
            Err(error) => {
                return Err(error);
            },
            Ok(_) => {},
        }
        match assert_not_none("self.uds_path", &self.uds_path) {
            Err(error) => {
                return Err(error);
            },
            Ok(_) => {},
        }
        Ok(
            Vsock {
                guest_cid: self.guest_cid.unwrap(),
                uds_path: self.uds_path.unwrap(),
                vsock_id: None,
            },
        )
    }
}

} // verus!
