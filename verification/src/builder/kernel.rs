//! The builder of a boot source.

use vstd::prelude::*;

use crate::builder::{assert_not_none, Builder, BuilderError};
use crate::models::BootSource;

verus! {

/// Builds a `BootSource`. The path of the kernel image is required.
#[derive(Debug)]
pub struct KernelBuilder {
    pub boot_args: Option<String>,
    pub initrd_path: Option<String>,
    pub kernel_image_path: Option<String>,
}

impl KernelBuilder {
    pub fn new() -> (builder: KernelBuilder)
        ensures
            builder == (KernelBuilder {
                boot_args: None,
                initrd_path: None,
                kernel_image_path: None,
            }),
    {
        KernelBuilder { boot_args: None, initrd_path: None, kernel_image_path: None }
    }

    pub fn with_boot_args(self, boot_args: String) -> (builder: KernelBuilder)
        ensures
            builder == (KernelBuilder { boot_args: Some(boot_args), ..self }),
    {
        KernelBuilder { boot_args: Some(boot_args), ..self }
    }

    pub fn with_initrd_path(self, initrd_path: String) -> (builder: KernelBuilder)
        ensures
            builder == (KernelBuilder { initrd_path: Some(initrd_path), ..self }),
    {
        KernelBuilder { initrd_path: Some(initrd_path), ..self }
    }

    pub fn with_kernel_image_path(self, kernel_image_path: String) -> (builder: KernelBuilder)
        ensures
            builder == (KernelBuilder { kernel_image_path: Some(kernel_image_path), ..self }),
    {
        KernelBuilder { kernel_image_path: Some(kernel_image_path), ..self }
    }
}

impl Builder<BootSource> for KernelBuilder {
    open spec fn missing(&self) -> Option<Seq<char>> {
        if self.kernel_image_path is None {
            Some("self.kernel_image_path"@)
        } else {
            None
        }
    }

    /// The boot source has what the builder has.
    fn try_build(self) -> (built: Result<BootSource, BuilderError>)
        ensures
            built is Ok ==> built.unwrap() == (BootSource {
                kernel_image_path: self.kernel_image_path.unwrap(),
                initrd_path: self.initrd_path,
                boot_args: self.boot_args,
            }),
    {
        match assert_not_none("self.kernel_image_path", &self.kernel_image_path) {
            Err(error) => {
                return Err(error);
            },
            Ok(_) => {},
        }
        Ok(
            BootSource {
                kernel_image_path: self.kernel_image_path.unwrap(),
                initrd_path: self.initrd_path,
                boot_args: self.boot_args,
            },
        )
    }
}

} // verus!
