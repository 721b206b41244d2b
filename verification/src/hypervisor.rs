//! The hypervisor-agnostic interface the VMM builds on: the error taxonomy
//! of hypervisor operations and the trait a concrete hypervisor implements.
//! Error causes arrive as plain messages from the layer that talks to the
//! kernel.

use vstd::prelude::*;

verus! {

/// Failures of hypervisor operations.
pub enum HypervisorError {
    /// Creating the hypervisor handle failed.
    HypervisorCreate(String),
    /// Creating a virtual machine failed.
    VmCreate(String),
    /// Setting a virtual machine up failed.
    VmSetup(String),
    /// Reading the API version failed.
    GetApiVersion(String),
    /// Reading the supported CPU identification failed.
    GetCpuId(String),
    /// Reading the supported model-specific registers failed.
    GetMsrList(String),
    /// The kernel interface speaks an incompatible API version.
    IncompatibleApiVersion,
    /// Probing required extensions failed.
    CheckExtensions(String),
}

/// A hypervisor: it creates virtual machines and vouches for the kernel
/// extensions the VMM needs. A concrete implementation names its machine
/// type through `Vm`.
pub trait Hypervisor {
    type Vm;

    /// Creates a virtual machine.
    fn create_vm(&self) -> Result<Self::Vm, HypervisorError>;

    /// Creates a virtual machine of a specific type.
    fn create_vm_with_type(&self, vm_type: u64) -> Result<Self::Vm, HypervisorError>;

    /// Checks the kernel extensions this hypervisor requires; the default
    /// needs none.
    fn check_required_extensions(&self) -> (r: Result<(), HypervisorError>) {
        Ok(())
    }
}

} // verus!
