//! Device-emulation dispatch layer of an x86 hypervisor.
//!
//! Every CPU trap caused by a guest touching virtualized hardware is routed
//! through this crate: a registry of emulated devices is consulted by address
//! range, and on a hit the trapped instruction's effect on the guest register
//! file is carried out with the architecture's operand-size rules.

pub mod classify;
pub mod device_list;
pub mod devices;
pub mod err;
pub mod pci;
pub mod vcpu_devices;
pub mod vm_devices;
pub mod mmio_devices;
pub mod msr_devices;
pub mod protocol;
pub mod vcpu;
pub mod vm;
