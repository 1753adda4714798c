//! The architectural state a vCPU starts the kernel with on x86_64: 64-bit
//! long mode with paging, flat segments, and the boot data in registers.

use vstd::prelude::*;

use crate::boot::X86BootLayout;
use crate::gdt::KvmSegment;

verus! {

/// Protected mode enable.
pub const X86_CR0_PE: u64 = 0x1;

/// Paging enable.
pub const X86_CR0_PG: u64 = 0x8000_0000;

/// Physical address extension.
pub const X86_CR4_PAE: u64 = 0x20;

/// Long mode enable.
pub const EFER_LME: u64 = 0x100;

/// Long mode active.
pub const EFER_LMA: u64 = 0x400;

/// What the vCPUs are started with, taken from the boot layout.
#[derive(Clone, Copy, Debug, PartialEq, Eq, Structural)]
pub struct CPUBootConfig {
    pub boot_ip: u64,
    pub boot_sp: u64,
    pub zero_page: u64,
    pub code_segment: KvmSegment,
    pub data_segment: KvmSegment,
    pub gdt_base: u64,
    pub gdt_size: u16,
    pub idt_base: u64,
    pub idt_size: u16,
    pub pml4_start: u64,
}

/// The vCPU boot configuration of boot layout `l`.
pub open spec fn boot_config_spec(l: X86BootLayout) -> CPUBootConfig {
    CPUBootConfig {
        boot_ip: l.kernel_start,
        boot_sp: l.kernel_sp,
        zero_page: l.zero_page_addr,
        code_segment: l.segments.code_segment,
        data_segment: l.segments.data_segment,
        gdt_base: l.segments.gdt_base,
        gdt_size: l.segments.gdt_limit,
        idt_base: l.segments.idt_base,
        idt_size: l.segments.idt_limit,
        pml4_start: l.boot_pml4_addr,
    }
}

impl CPUBootConfig {
    /// The vCPU boot configuration of a boot layout.
    pub fn from_layout(layout: &X86BootLayout) -> (r: Self)
        ensures
            r == boot_config_spec(*layout),
    {
        CPUBootConfig {
            boot_ip: layout.kernel_start,
            boot_sp: layout.kernel_sp,
            zero_page: layout.zero_page_addr,
            code_segment: layout.segments.code_segment,
            data_segment: layout.segments.data_segment,
            gdt_base: layout.segments.gdt_base,
            gdt_size: layout.segments.gdt_limit,
            idt_base: layout.segments.idt_base,
            idt_size: layout.segments.idt_limit,
            pml4_start: layout.boot_pml4_addr,
        }
    }
}

/// The general-purpose registers the boot sets; every other one is zero.
#[derive(Clone, Copy, Debug, PartialEq, Eq, Structural)]
pub struct X86Regs {
    pub rflags: u64,
    pub rip: u64,
    pub rsp: u64,
    pub rbp: u64,
    pub rsi: u64,
}

/// The system registers the boot sets.
#[derive(Clone, Copy, Debug, PartialEq, Eq, Structural)]
pub struct X86Sregs {
    pub cs: KvmSegment,
    pub ds: KvmSegment,
    pub es: KvmSegment,
    pub fs: KvmSegment,
    pub gs: KvmSegment,
    pub ss: KvmSegment,
    pub gdt_base: u64,
    pub gdt_limit: u16,
    pub idt_base: u64,
    pub idt_limit: u16,
    pub cr0: u64,
    pub cr3: u64,
    pub cr4: u64,
    pub efer: u64,
}

/// The general-purpose registers at the kernel entry: the entry point, the
/// boot stack, and the zero page in `rsi`; only the reserved flag set.
pub fn boot_regs(cfg: &CPUBootConfig) -> (r: X86Regs)
    ensures
        r == (X86Regs {
            rflags: 0x2,
            rip: cfg.boot_ip,
            rsp: cfg.boot_sp,
            rbp: cfg.boot_sp,
            rsi: cfg.zero_page,
        }),
{
    X86Regs { rflags: 0x2, rip: cfg.boot_ip, rsp: cfg.boot_sp, rbp: cfg.boot_sp, rsi: cfg.zero_page }
}

/// The system registers at the kernel entry, from those the vCPU has now:
/// flat code and data segments, the boot GDT and IDT, and long mode with
/// paging on the boot page tables. Bits of the control registers the boot
/// does not concern stay as they were.
pub fn boot_sregs(current: &X86Sregs, cfg: &CPUBootConfig) -> (r: X86Sregs)
    ensures
        r.cs == cfg.code_segment,
        r.ds == cfg.data_segment,
        r.es == cfg.data_segment,
        r.fs == cfg.data_segment,
        r.gs == cfg.data_segment,
        r.ss == cfg.data_segment,
        r.gdt_base == cfg.gdt_base,
        r.gdt_limit == cfg.gdt_size,
        r.idt_base == cfg.idt_base,
        r.idt_limit == cfg.idt_size,
        r.cr0 == current.cr0 | X86_CR0_PE | X86_CR0_PG,
        r.cr3 == cfg.pml4_start,
        r.cr4 == current.cr4 | X86_CR4_PAE,
        r.efer == current.efer | EFER_LME | EFER_LMA,
{
    X86Sregs {
        cs: cfg.code_segment,
        ds: cfg.data_segment,
        es: cfg.data_segment,
        fs: cfg.data_segment,
        gs: cfg.data_segment,
        ss: cfg.data_segment,
        gdt_base: cfg.gdt_base,
        gdt_limit: cfg.gdt_size,
        idt_base: cfg.idt_base,
        idt_limit: cfg.idt_size,
        cr0: current.cr0 | X86_CR0_PE | X86_CR0_PG,
        cr3: cfg.pml4_start,
        cr4: current.cr4 | X86_CR4_PAE,
        efer: current.efer | EFER_LME | EFER_LMA,
    }
}

} // verus!
