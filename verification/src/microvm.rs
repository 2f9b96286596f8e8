//! A microVM as it is described to a supervisor that is started with a
//! configuration file.

use vstd::prelude::*;

verus! {

/// What the guest boots from.
#[derive(Debug, Clone, PartialEq, Eq)]
pub struct BootSource {
    /// Host path of the kernel image.
    pub kernel_image_path: String,
    /// Kernel boot arguments.
    pub boot_args: Option<String>,
    /// Host path of the initrd image.
    pub initrd_path: Option<String>,
}

/// A block device of the guest.
#[derive(Debug, Clone, PartialEq, Eq)]
pub struct Drive {
    pub drive_id: String,
    /// Host path of the file that backs the device.
    pub path_on_host: String,
    pub is_root_device: bool,
    pub is_read_only: bool,
}

/// A network interface of the guest.
#[derive(Debug, Clone, PartialEq, Eq)]
pub struct NetworkInterface {
    pub iface_id: String,
    pub guest_mac: Option<String>,
    /// Name of the host device that backs the interface.
    pub host_dev_name: String,
}

/// What the configuration file holds.
#[derive(Debug, Clone, PartialEq, Eq)]
pub struct Config {
    pub boot_source: BootSource,
    pub drives: Vec<Drive>,
    pub network_interfaces: Vec<NetworkInterface>,
}

/// A configuration under a name.
#[derive(Debug, Clone, PartialEq, Eq)]
pub struct MicroVM {
    pub id: String,
    pub config: Config,
}

/// The number of characters of a generated name.
pub const ID_LENGTH: usize = 36;

/// Makes a random name with `uuid::Uuid::new_v4` and prints it.
///
/// Trusted: a UUID is printed in its hyphenated form, which has 36
/// characters. Which they are is a matter of chance.
#[verifier::external_body]
fn fresh_id() -> (id: String)
    ensures
        id@.len() == ID_LENGTH,
{
    uuid::Uuid::new_v4().to_string()
}

impl MicroVM {
    /// The configuration `config` under the name `id`.
    pub fn named(id: String, config: Config) -> (vm: MicroVM)
        ensures
            vm == (MicroVM { id, config }),
    {
        MicroVM { id, config }
    }

    /// The configuration `value` under a random name of `ID_LENGTH`
    /// characters.
    pub fn from(value: Config) -> (vm: MicroVM)
        ensures
            vm.config == value,
            vm.id@.len() == ID_LENGTH,
    {
        MicroVM::named(fresh_id(), value)
    }
}

} // verus!
