//! The builder of a network interface.

use vstd::prelude::*;

use crate::builder::{assert_not_none, Builder, BuilderError};
use crate::models::{NetworkInterface, RateLimiter};

verus! {

/// Builds a `NetworkInterface`. The name of the host device and the id are
/// required.
#[derive(Debug)]
pub struct NetworkInterfaceBuilder {
    pub guest_mac: Option<String>,
    pub host_dev_name: Option<String>,
    pub iface_id: Option<String>,
    pub rx_rate_limiter: Option<Box<RateLimiter>>,
    pub tx_rate_limiter: Option<Box<RateLimiter>>,
}

impl NetworkInterfaceBuilder {
    pub fn new() -> (builder: NetworkInterfaceBuilder)
        ensures
            builder == (NetworkInterfaceBuilder {
                guest_mac: None,
                host_dev_name: None,
                iface_id: None,
                rx_rate_limiter: None,
                tx_rate_limiter: None,
            }),
    {
        NetworkInterfaceBuilder {
            guest_mac: None,
            host_dev_name: None,
            iface_id: None,
            rx_rate_limiter: None,
            tx_rate_limiter: None,
        }
    }

    pub fn with_guest_mac(self, guest_mac: String) -> (builder: NetworkInterfaceBuilder)
        ensures
            builder == (NetworkInterfaceBuilder { guest_mac: Some(guest_mac), ..self }),
    {
        NetworkInterfaceBuilder { guest_mac: Some(guest_mac), ..self }
    }

    pub fn with_host_dev_name(self, host_dev_name: String) -> (builder: NetworkInterfaceBuilder)
        ensures
            builder == (NetworkInterfaceBuilder { host_dev_name: Some(host_dev_name), ..self }),
    {
        NetworkInterfaceBuilder { host_dev_name: Some(host_dev_name), ..self }
    }

    pub fn with_iface_id(self, iface_id: String) -> (builder: NetworkInterfaceBuilder)
        ensures
            builder == (NetworkInterfaceBuilder { iface_id: Some(iface_id), ..self }),
    {
        NetworkInterfaceBuilder { iface_id: Some(iface_id), ..self }
    }

    pub fn with_rx_rate_limiter(self, rx_rate_limiter: Box<RateLimiter>) -> (builder:
        NetworkInterfaceBuilder)
        ensures
            builder == (NetworkInterfaceBuilder { rx_rate_limiter: Some(rx_rate_limiter), ..self }),
    {
        NetworkInterfaceBuilder { rx_rate_limiter: Some(rx_rate_limiter), ..self }
    }

    pub fn with_tx_rate_limiter(self, tx_rate_limiter: Box<RateLimiter>) -> (builder:
        NetworkInterfaceBuilder)
        ensures
            builder == (NetworkInterfaceBuilder { tx_rate_limiter: Some(tx_rate_limiter), ..self }),
    {
        NetworkInterfaceBuilder { tx_rate_limiter: Some(tx_rate_limiter), ..self }
    }
}

impl Builder<NetworkInterface> for NetworkInterfaceBuilder {
    open spec fn missing(&self) -> Option<Seq<char>> {
        if self.host_dev_name is None {
            Some("self.host_dev_name"@)
        } else if self.iface_id is None {
            Some("self.iface_id"@)
        } else {
            None
        }
    }

    /// The interface has what the builder has.
    fn try_build(self) -> (built: Result<NetworkInterface, BuilderError>)
        ensures
            built is Ok ==> built.unwrap() == (NetworkInterface {
                guest_mac: self.guest_mac,
                host_dev_name: self.host_dev_name.unwrap(),
                iface_id: self.iface_id.unwrap(),
                rx_rate_limiter: self.rx_rate_limiter,
                tx_rate_limiter: self.tx_rate_limiter,
            }),
    {
        match assert_not_none("self.host_dev_name", &self.host_dev_name) {
            Err(error) => {
                return Err(error);
            },
            Ok(_) => {},
        }
        match assert_not_none("self.iface_id", &self.iface_id) {
            Err(error) => {
                return Err(error);
            },
            Ok(_) => {},
        }
        Ok(
            NetworkInterface {
                guest_mac: self.guest_mac,
                host_dev_name: self.host_dev_name.unwrap(),
                iface_id: self.iface_id.unwrap(),
                rx_rate_limiter: self.rx_rate_limiter,
                tx_rate_limiter: self.tx_rate_limiter,
            },
        )
    }
}

} // verus!
