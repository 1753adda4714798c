//! A micro-VM's machine lifecycle and boot path: the guest physical memory
//! layout, guest RAM access, the x86 zero page, boot tables and kernel
//! loading, the ARM64 layout, the machine and vCPU state machines, and the
//! control channel's messages and command dispatch.

use vstd::prelude::*;

pub mod aarch64;
pub mod boot;
pub mod bootparam;
pub mod bytes;
pub mod channel;
pub mod cpu;
pub mod devices;
pub mod dispatch;
pub mod fdt;
pub mod gdt;
pub mod kernel;
pub mod layout;
pub mod machine;
pub mod memory;
pub mod parse;
pub mod qmp;
pub mod schema;

verus! {

} // verus!
