//! The hypervisor interface: a minimal implementation exercises the trait
//! and its error taxonomy.

use virtio_net_core::hypervisor::{Hypervisor, HypervisorError};

struct FakeHypervisor {
    healthy: bool,
}

impl Hypervisor for FakeHypervisor {
    type Vm = u32;

    fn create_vm(&self) -> Result<u32, HypervisorError> {
        if self.healthy {
            Ok(1)
        } else {
            Err(HypervisorError::VmCreate(String::from("resource exhausted")))
        }
    }

    fn create_vm_with_type(&self, vm_type: u64) -> Result<u32, HypervisorError> {
        if vm_type == 0 {
            self.create_vm()
        } else {
            Err(HypervisorError::VmSetup(String::from("unsupported type")))
        }
    }
}

#[test]
fn a_healthy_hypervisor_creates_machines() {
    let h = FakeHypervisor { healthy: true };
    assert!(matches!(h.create_vm(), Ok(1)));
    assert!(matches!(h.create_vm_with_type(0), Ok(1)));
    assert!(matches!(h.check_required_extensions(), Ok(())));
}

#[test]
fn failures_carry_their_cause() {
    let h = FakeHypervisor { healthy: false };
    assert!(matches!(h.create_vm(), Err(HypervisorError::VmCreate(_))));
    assert!(matches!(
        h.create_vm_with_type(9),
        Err(HypervisorError::VmSetup(_))
    ));
}
