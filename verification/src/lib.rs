//! Control-flow core of a machine-mode security monitor that separates
//! confidential virtual machines from an untrusted hypervisor.
//!
//! On every physical core the monitor is in one of two phases. In the
//! confidential flow the core runs a hart of a confidential virtual machine,
//! in the non-confidential flow it runs the hypervisor. A value of
//! [`confidential_flow::ConfidentialFlow`] or of
//! [`non_confidential_flow::NonConfidentialFlow`] stands for the phase, and
//! the functions that use the value up are the only ways from one phase to the
//! other.
//!
//! The library decides and records. Whatever touches the machine itself, the
//! context switch, the control and status registers and the interrupts between
//! cores, is the work of its caller, who hands the library what it read and
//! carries out what the library returns.

pub mod architecture;
pub mod confidential_flow;
pub mod confidential_hart;
pub mod confidential_vm;
pub mod confidential_vm_id;
pub mod control_data;
pub mod convert_to_confidential_vm;
pub mod error;
pub mod hardware_hart;
pub mod memory_layout;
pub mod memory_protector;
pub mod non_confidential_flow;
pub mod ownership;
pub mod shared_page;
pub mod transformations;
