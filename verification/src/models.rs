//! The objects that are sent to the supervisor, as the control socket's
//! protocol defines them.

use vstd::prelude::*;

verus! {

/// A token bucket: `size` tokens, refilled every `refill_time` milliseconds.
#[derive(Debug, Clone, Copy, PartialEq, Eq)]
pub struct TokenBucket {
    pub one_time_burst: Option<i64>,
    pub refill_time: i64,
    pub size: i64,
}

/// Limits on the bandwidth and on the operations per second of a device.
#[derive(Debug, Clone, Copy, PartialEq, Eq)]
pub struct RateLimiter {
    pub bandwidth: Option<TokenBucket>,
    pub ops: Option<TokenBucket>,
}

/// What the guest boots from.
#[derive(Debug, Clone, PartialEq, Eq)]
pub struct BootSource {
    /// Kernel boot arguments.
    pub boot_args: Option<String>,
    /// Host path of the initrd image.
    pub initrd_path: Option<String>,
    /// Host path of the kernel image.
    pub kernel_image_path: String,
}

/// A block device of the guest.
#[derive(Debug, Clone, PartialEq, Eq)]
pub struct Drive {
    pub drive_id: String,
    pub cache_type: Option<String>,
    pub is_read_only: bool,
    pub is_root_device: bool,
    pub partuuid: Option<String>,
    /// Host path of the file that backs the device.
    pub path_on_host: String,
    pub rate_limiter: Option<Box<RateLimiter>>,
    pub io_engine: Option<String>,
}

/// A network interface of the guest.
#[derive(Debug, Clone, PartialEq, Eq)]
pub struct NetworkInterface {
    pub guest_mac: Option<String>,
    /// Name of the host device that backs the interface.
    pub host_dev_name: String,
    pub iface_id: String,
    pub rx_rate_limiter: Option<Box<RateLimiter>>,
    pub tx_rate_limiter: Option<Box<RateLimiter>>,
}

/// A vsock device of the guest.
#[derive(Debug, Clone, PartialEq, Eq)]
pub struct Vsock {
    pub guest_cid: i32,
    /// Host path of the Unix socket that backs the device.
    pub uds_path: String,
    pub vsock_id: Option<String>,
}

pub struct BootSourceView {
    pub boot_args: Option<Seq<char>>,
    pub initrd_path: Option<Seq<char>>,
    pub kernel_image_path: Seq<char>,
}

pub struct DriveView {
    pub drive_id: Seq<char>,
    pub cache_type: Option<Seq<char>>,
    pub is_read_only: bool,
    pub is_root_device: bool,
    pub partuuid: Option<Seq<char>>,
    pub path_on_host: Seq<char>,
    pub rate_limiter: Option<Box<RateLimiter>>,
    pub io_engine: Option<Seq<char>>,
}

pub struct NetworkInterfaceView {
    pub guest_mac: Option<Seq<char>>,
    pub host_dev_name: Seq<char>,
    pub iface_id: Seq<char>,
    pub rx_rate_limiter: Option<Box<RateLimiter>>,
    pub tx_rate_limiter: Option<Box<RateLimiter>>,
}

pub struct VsockView {
    pub guest_cid: i32,
    pub uds_path: Seq<char>,
    pub vsock_id: Option<Seq<char>>,
}

impl View for BootSource {
    type V = BootSourceView;

    open spec fn view(&self) -> BootSourceView {
        BootSourceView {
            boot_args: self.boot_args.deep_view(),
            initrd_path: self.initrd_path.deep_view(),
            kernel_image_path: self.kernel_image_path@,
        }
    }
}

impl View for Drive {
    type V = DriveView;

    open spec fn view(&self) -> DriveView {
        DriveView {
            drive_id: self.drive_id@,
            cache_type: self.cache_type.deep_view(),
            is_read_only: self.is_read_only,
            is_root_device: self.is_root_device,
            partuuid: self.partuuid.deep_view(),
            path_on_host: self.path_on_host@,
            rate_limiter: self.rate_limiter,
            io_engine: self.io_engine.deep_view(),
        }
    }
}

impl View for NetworkInterface {
    type V = NetworkInterfaceView;

    open spec fn view(&self) -> NetworkInterfaceView {
        NetworkInterfaceView {
            guest_mac: self.guest_mac.deep_view(),
            host_dev_name: self.host_dev_name@,
            iface_id: self.iface_id@,
            rx_rate_limiter: self.rx_rate_limiter,
            tx_rate_limiter: self.tx_rate_limiter,
        }
    }
}

impl View for Vsock {
    type V = VsockView;

    open spec fn view(&self) -> VsockView {
        VsockView {
            guest_cid: self.guest_cid,
            uds_path: self.uds_path@,
            vsock_id: self.vsock_id.deep_view(),
        }
    }
}

/// The views of the drives of a list, in its order.
pub open spec fn drive_views(drives: Seq<Drive>) -> Seq<DriveView> {
    Seq::new(drives.len(), |i: int| drives[i]@)
}

/// The views of the interfaces of a list, in its order.
pub open spec fn interface_views(interfaces: Seq<NetworkInterface>) -> Seq<NetworkInterfaceView> {
    Seq::new(interfaces.len(), |i: int| interfaces[i]@)
}

} // verus!
