use microvm::boot::{
    load_boot_layout, setup_gdt, X86BootLoaderConfig, BOOT_GDT_OFFSET, BOOT_IDT_OFFSET,
    BOOT_LOADER_SP, PDE_START, PDPTE_START, PML4_START, ZERO_PAGE_START,
};
use microvm::cpu::{boot_regs, boot_sregs, CPUBootConfig, X86Sregs};
use microvm::gdt::{boot_gdt, gdt_entry, segment_from_gdt};
use microvm::memory::GuestMemory;

fn u64_at(m: &GuestMemory, addr: u64) -> u64 {
    let b = m.read(addr, 8).unwrap();
    let mut a = [0u8; 8];
    a.copy_from_slice(&b);
    u64::from_le_bytes(a)
}

#[test]
fn gdt_entries() {
    assert_eq!(gdt_entry(0xa09b, 0, 0xfffff), 0x00af_9b00_0000_ffff);
    assert_eq!(gdt_entry(0xc093, 0, 0xfffff), 0x00cf_9300_0000_ffff);
    assert_eq!(gdt_entry(0x808b, 0, 0xfffff), 0x008f_8b00_0000_ffff);
    assert_eq!(gdt_entry(0, 0x1234_5678, 0xabcde), 0x120a_0034_5678_bcde);
    assert_eq!(boot_gdt()[0], 0);
}

#[test]
fn segments_from_boot_gdt() {
    let gdt = boot_gdt();
    let code = segment_from_gdt(gdt[1], 1);
    assert_eq!(code.base, 0);
    assert_eq!(code.limit, 0xffff_ffff);
    assert_eq!(code.selector, 0x8);
    assert_eq!(code.type_, 0xb);
    assert_eq!((code.present, code.dpl, code.db, code.s, code.l, code.g, code.avl), (1, 0, 0, 1, 1, 1, 0));
    assert_eq!(code.unusable, 0);
    let data = segment_from_gdt(gdt[2], 2);
    assert_eq!(data.selector, 0x10);
    assert_eq!(data.type_, 3);
    assert_eq!((data.db, data.l), (1, 0));
    let null = segment_from_gdt(0, 0);
    assert_eq!((null.present, null.unusable, null.limit), (0, 1, 0));
    let odd = segment_from_gdt(gdt_entry(0x0093, 0x1234_5678, 0xabcde), 3);
    assert_eq!(odd.base, 0x1234_5678);
    assert_eq!(odd.limit, 0xabcde);
}

#[test]
fn boot_layout_writes_tables() {
    let mut m = GuestMemory::new(0x2000_0000);
    m.add_ram_region(0, 0x1000_0000).unwrap();
    let config = X86BootLoaderConfig {
        initrd_size: Some(0x1_0000),
        kernel_cmdline: String::from("console=ttyS0"),
        cpu_count: 1,
    };
    let l = load_boot_layout(&config, 0x100_0000, &mut m).unwrap();
    assert_eq!(l.kernel_start, 0x100_0000);
    assert_eq!(l.kernel_sp, BOOT_LOADER_SP);
    assert_eq!(l.zero_page_addr, ZERO_PAGE_START);
    assert_eq!(l.initrd_start, 0x0fff_0000);
    assert_eq!(l.boot_pml4_addr, PML4_START);
    assert_eq!(l.segments.gdt_base, BOOT_GDT_OFFSET);
    assert_eq!(l.segments.gdt_limit, 31);
    assert_eq!(l.segments.idt_base, BOOT_IDT_OFFSET);
    assert_eq!(l.segments.idt_limit, 7);
    assert_eq!(l.segments.code_segment.selector, 8);
    assert_eq!(u64_at(&m, PML4_START), PDPTE_START | 3);
    assert_eq!(u64_at(&m, PDPTE_START), PDE_START | 3);
    assert_eq!(u64_at(&m, PDE_START), 0x83);
    assert_eq!(u64_at(&m, PDE_START + 8), 0x20_0083);
    assert_eq!(u64_at(&m, PDE_START + 8 * 511), (511u64 << 21) | 0x83);
    assert_eq!(u64_at(&m, BOOT_GDT_OFFSET + 8), 0x00af_9b00_0000_ffff);
    assert_eq!(u64_at(&m, BOOT_GDT_OFFSET + 16), 0x00cf_9300_0000_ffff);
    assert_eq!(u64_at(&m, BOOT_IDT_OFFSET), 0);
}

#[test]
fn boot_layout_needs_low_memory() {
    let mut m = GuestMemory::new(0x2000_0000);
    m.add_ram_region(0x8000, 0x1000_0000).unwrap();
    assert!(setup_gdt(&mut m).is_err());
    let config = X86BootLoaderConfig { initrd_size: None, kernel_cmdline: String::new(), cpu_count: 1 };
    assert!(load_boot_layout(&config, 0x100_0000, &mut m).is_err());
}

#[test]
fn boot_registers() {
    let mut m = GuestMemory::new(0x2000_0000);
    m.add_ram_region(0, 0x1000_0000).unwrap();
    let config = X86BootLoaderConfig { initrd_size: None, kernel_cmdline: String::new(), cpu_count: 1 };
    let l = load_boot_layout(&config, 0x100_0000, &mut m).unwrap();
    let cfg = CPUBootConfig::from_layout(&l);
    let r = boot_regs(&cfg);
    assert_eq!((r.rflags, r.rip, r.rsp, r.rbp, r.rsi), (2, 0x100_0000, 0x8ff0, 0x8ff0, 0x7000));
    let zero = segment_from_gdt(0, 0);
    let cur = X86Sregs {
        cs: zero, ds: zero, es: zero, fs: zero, gs: zero, ss: zero,
        gdt_base: 0, gdt_limit: 0, idt_base: 0, idt_limit: 0,
        cr0: 0x10, cr3: 0, cr4: 0, efer: 0,
    };
    let s = boot_sregs(&cur, &cfg);
    assert_eq!(s.cr0, 0x8000_0011);
    assert_eq!(s.cr3, 0x9000);
    assert_eq!(s.cr4, 0x20);
    assert_eq!(s.efer, 0x500);
    assert_eq!(s.cs.selector, 8);
    assert_eq!(s.ss.selector, 0x10);
    assert_eq!((s.gdt_base, s.gdt_limit, s.idt_base, s.idt_limit), (0x500, 31, 0x520, 7));
}
