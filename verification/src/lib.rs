//! Package management and sandbox bookkeeping for running Python workloads in
//! Nanvix guests: package-name normalisation, the layout of a package
//! registry, choosing and checking wheels, planning FAT images and the
//! decisions of a package build.
use vstd::prelude::*;

pub mod text;
pub mod unicode;
pub mod names;
pub mod registry;
pub mod wheel;
pub mod interpreter;
pub mod fat;
pub mod install;
pub mod sandbox;
pub mod setup;

pub use names::normalize_name;
pub use registry::{
    list_installed_packages, package_fat_path, packages_dir,
    PACKAGE_MOUNT_POINT, SITE_PACKAGES_GUEST_PATH,
};
pub use sandbox::{SandboxConfig, WorkloadResult};

verus! {

} // verus!
