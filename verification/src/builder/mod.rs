//! Builders for the parts of a machine's configuration.
//!
//! Every field of a builder starts unset. The setters take the builder and
//! hand it back, so a builder is used once; `try_build` then checks that the
//! required fields are set and makes the object.

pub mod drive;
pub mod executor;
pub mod kernel;
pub mod network_interface;
pub mod vsock;

use vstd::prelude::*;

use crate::executor::{Executor, ExecutorView};
use crate::models::{
    drive_views, interface_views, BootSource, BootSourceView, Drive, DriveView, NetworkInterface,
    NetworkInterfaceView,
};

verus! {

/// Why a builder could not make its object.
#[derive(Debug, Clone, PartialEq, Eq)]
pub enum BuilderError {
    /// The field of this name is required and was not set.
    MissingRequiredField(String),
    /// The supervisor's binary was looked for and not found; the text says
    /// what to check.
    BinaryNotFound(String),
}

pub enum BuilderErrorView {
    MissingRequiredField(Seq<char>),
    BinaryNotFound(Seq<char>),
}

impl View for BuilderError {
    type V = BuilderErrorView;

    open spec fn view(&self) -> BuilderErrorView {
        match self {
            BuilderError::MissingRequiredField(field) => BuilderErrorView::MissingRequiredField(
                field@,
            ),
            BuilderError::BinaryNotFound(hint) => BuilderErrorView::BinaryNotFound(hint@),
        }
    }
}

/// Checks that the field named `key` is set.
pub fn assert_not_none<T>(key: &str, value: &Option<T>) -> (checked: Result<(), BuilderError>)
    ensures
        value is Some <==> checked is Ok,
        value is None ==> (checked matches Err(error) && error@
            == BuilderErrorView::MissingRequiredField(key@)),
{
    match value {
        Some(_) => Ok(()),
        None => Err(BuilderError::MissingRequiredField(key.to_owned())),
    }
}

/// A builder of a `T`.
pub trait Builder<T>: Sized {
    /// The name of the first required field that is unset, in the order in
    /// which `try_build` checks them.
    spec fn missing(&self) -> Option<Seq<char>>;

    /// Makes the object if every required field is set; else names the first
    /// that is not.
    fn try_build(self) -> (built: Result<T, BuilderError>)
        ensures
            self.missing() is None <==> built is Ok,
            self.missing() matches Some(field) ==> (built matches Err(error) && error@
                == BuilderErrorView::MissingRequiredField(field)),
    ;
}

/// What a machine is made of. It is put together from what the builders
/// make, and used up when the machine is created.
#[derive(Debug)]
pub struct Configuration {
    pub executor: Option<Executor>,
    pub kernel: Option<BootSource>,
    pub storage: Vec<Drive>,
    pub interfaces: Vec<NetworkInterface>,
    pub vm_id: String,
}

pub struct ConfigurationView {
    pub executor: Option<ExecutorView>,
    pub kernel: Option<BootSourceView>,
    pub storage: Seq<DriveView>,
    pub interfaces: Seq<NetworkInterfaceView>,
    pub vm_id: Seq<char>,
}

impl View for Configuration {
    type V = ConfigurationView;

    open spec fn view(&self) -> ConfigurationView {
        ConfigurationView {
            executor: match self.executor {
                Some(executor) => Some(executor@),
                None => None,
            },
            kernel: match self.kernel {
                Some(kernel) => Some(kernel@),
                None => None,
            },
            storage: drive_views(self.storage@),
            interfaces: interface_views(self.interfaces@),
            vm_id: self.vm_id@,
        }
    }
}

impl ConfigurationView {
    /// The configuration of a machine named `vm_id` that has nothing yet.
    pub open spec fn new(vm_id: Seq<char>) -> ConfigurationView {
        ConfigurationView {
            executor: None,
            kernel: None,
            storage: Seq::empty(),
            interfaces: Seq::empty(),
            vm_id,
        }
    }

    /// The configuration with `kernel` as what the guest boots from.
    pub open spec fn with_kernel(self, kernel: BootSourceView) -> ConfigurationView {
        ConfigurationView { kernel: Some(kernel), ..self }
    }

    /// The configuration with `executor`, which takes the machine's name.
    pub open spec fn with_executor(self, executor: ExecutorView) -> ConfigurationView {
        ConfigurationView {
            executor: Some(ExecutorView { id: self.vm_id, ..executor }),
            ..self
        }
    }

    /// The configuration with `drive` after the drives it has.
    pub open spec fn with_drive(self, drive: DriveView) -> ConfigurationView {
        ConfigurationView { storage: self.storage.push(drive), ..self }
    }

    /// The configuration with `iface` after the interfaces it has.
    pub open spec fn with_interface(self, iface: NetworkInterfaceView) -> ConfigurationView {
        ConfigurationView { interfaces: self.interfaces.push(iface), ..self }
    }
}

impl Configuration {
    /// The configuration of a machine named `vm_id` that has nothing yet.
    pub fn new(vm_id: String) -> (configuration: Configuration)
        ensures
            configuration@ == ConfigurationView::new(vm_id@),
    {
        let configuration = Configuration {
            kernel: None,
            executor: None,
            storage: Vec::new(),
            interfaces: Vec::new(),
            vm_id,
        };
        assert(configuration@.storage =~= Seq::empty());
        assert(configuration@.interfaces =~= Seq::empty());
        configuration
    }

    /// Sets what the guest boots from, in place of what was set before.
    pub fn with_kernel(self, kernel: BootSource) -> (configuration: Configuration)
        ensures
            configuration@ == self@.with_kernel(kernel@),
    {
        let mut configuration = self;
        configuration.kernel = Some(kernel);
        configuration
    }

    /// Sets the executor, in place of the one that was set before. It takes
    /// the machine's name.
    pub fn with_executor(self, executor: Executor) -> (configuration: Configuration)
        ensures
            configuration@ == self@.with_executor(executor@),
    {
        let mut configuration = self;
        let executor = executor.with_id(configuration.vm_id.clone());
        configuration.executor = Some(executor);
        configuration
    }

    /// Adds a drive after those that were added before. Nothing is checked:
    /// a drive whose id another drive has is added like any other.
    pub fn with_drive(self, drive: Drive) -> (configuration: Configuration)
        ensures
            configuration@ == self@.with_drive(drive@),
    {
        let mut configuration = self;
        configuration.storage.push(drive);
        assert(configuration@.storage =~= self@.storage.push(drive@));
        configuration
    }

    /// Adds a network interface after those that were added before.
    pub fn with_interface(self, iface: NetworkInterface) -> (configuration: Configuration)
        ensures
            configuration@ == self@.with_interface(iface@),
    {
        let mut configuration = self;
        configuration.interfaces.push(iface);
        assert(configuration@.interfaces =~= self@.interfaces.push(iface@));
        configuration
    }
}

} // verus!
