use microvm::boot::{setup_boot_params, BootError, X86BootLoaderConfig, CMDLINE_START, ZERO_PAGE_START};
use microvm::bootparam::{
    BootParams, RealModeKernelHeader, BOOT_PARAMS_SIZE, E820_ENTRIES_OFFSET, E820_RAM,
    E820_RESERVED, E820_TABLE_OFFSET, KERNEL_HEADER_OFFSET,
};
use microvm::layout::{
    arch_ram_ranges, initrd_addr, setup_e820, GAP_END, MEM_MAPPED_IO_BASE,
};
use microvm::memory::{GuestMemory, MemoryError};

fn u64_at(b: &[u8], off: usize) -> u64 {
    let mut a = [0u8; 8];
    a.copy_from_slice(&b[off..off + 8]);
    u64::from_le_bytes(a)
}

fn u32_at(b: &[u8], off: usize) -> u32 {
    let mut a = [0u8; 4];
    a.copy_from_slice(&b[off..off + 4]);
    u32::from_le_bytes(a)
}

fn u16_at(b: &[u8], off: usize) -> u16 {
    u16::from_le_bytes([b[off], b[off + 1]])
}

fn entry(b: &[u8], i: usize) -> (u64, u64, u32) {
    let off = E820_TABLE_OFFSET + 20 * i;
    (u64_at(b, off), u64_at(b, off + 8), u32_at(b, off + 16))
}

#[test]
fn test_boot_param() {
    let mut space = GuestMemory::new(0x2000_0000);
    space.add_ram_region(0, 0x1000_0000).unwrap();

    let config = X86BootLoaderConfig {
        initrd_size: Some(0x1_0000),
        kernel_cmdline: String::from("this_is_a_piece_of_test_string"),
        cpu_count: 2,
    };
    let (_, initrd_addr_tmp) = setup_boot_params(&config, &mut space).unwrap();
    assert_eq!(initrd_addr_tmp, 0xfff_0000);
    let zp = space.read(0x0000_7000, BOOT_PARAMS_SIZE as u64).unwrap();
    assert_eq!(zp[E820_ENTRIES_OFFSET], 4);

    assert_eq!(entry(&zp, 0).0, 0);
    assert_eq!(entry(&zp, 0).1, 0x0009_FC00);
    assert_eq!(entry(&zp, 0).2, 1);

    assert_eq!(entry(&zp, 1).0, 0x0009_FC00);
    assert_eq!(entry(&zp, 1).1, 0x400);
    assert_eq!(entry(&zp, 1).2, 2);

    assert_eq!(entry(&zp, 2).0, 0x000F_0000);
    assert_eq!(entry(&zp, 2).1, 0);
    assert_eq!(entry(&zp, 2).2, 2);

    assert_eq!(entry(&zp, 3).0, 0x0010_0000);
    assert_eq!(entry(&zp, 3).1, 0x0ff0_0000);
    assert_eq!(entry(&zp, 3).2, 1);
}

#[test]
fn zero_page_header_fields_at_documented_offsets() {
    let mut space = GuestMemory::new(0x2000_0000);
    space.add_ram_region(0, 0x1000_0000).unwrap();
    let config = X86BootLoaderConfig {
        initrd_size: Some(0x1_0000),
        kernel_cmdline: String::from("console=ttyS0"),
        cpu_count: 1,
    };
    let (zp_addr, initrd) = setup_boot_params(&config, &mut space).unwrap();
    assert_eq!(zp_addr, ZERO_PAGE_START);
    let zp = space.read(ZERO_PAGE_START, BOOT_PARAMS_SIZE as u64).unwrap();
    assert_eq!(KERNEL_HEADER_OFFSET, 0x1f1);
    assert_eq!(u16_at(&zp, 0x1fe), 0xaa55);
    assert_eq!(u32_at(&zp, 0x202), 0x5372_6448);
    assert_eq!(&zp[0x202..0x206], b"HdrS");
    assert_eq!(zp[0x210], 0xff);
    assert_eq!(u32_at(&zp, 0x218) as u64, initrd);
    assert_eq!(u32_at(&zp, 0x21c), 0x1_0000);
    assert_eq!(u32_at(&zp, 0x228) as u64, CMDLINE_START);
    assert_eq!(u32_at(&zp, 0x238), 13);
    // everything else in the header block is zero
    assert_eq!(zp[0x1f1], 0);
    assert_eq!(u32_at(&zp, 0x214), 0);
    let cmd = space.read(CMDLINE_START, 14).unwrap();
    assert_eq!(&cmd[..13], b"console=ttyS0");
    assert_eq!(cmd[13], 0);
}

#[test]
fn boot_without_initrd_reports_zero() {
    let mut space = GuestMemory::new(0x2000_0000);
    space.add_ram_region(0, 0x1000_0000).unwrap();
    let config = X86BootLoaderConfig { initrd_size: None, kernel_cmdline: String::new(), cpu_count: 1 };
    let (_, initrd) = setup_boot_params(&config, &mut space).unwrap();
    assert_eq!(initrd, 0);
    let zp = space.read(ZERO_PAGE_START, BOOT_PARAMS_SIZE as u64).unwrap();
    assert_eq!(u32_at(&zp, 0x218), 0);
    assert_eq!(u32_at(&zp, 0x21c), 0);
}

#[test]
fn boot_errors() {
    let mut small = GuestMemory::new(0x2000_0000);
    small.add_ram_region(0, 0x8_0000).unwrap();
    let config = X86BootLoaderConfig { initrd_size: None, kernel_cmdline: String::new(), cpu_count: 1 };
    assert_eq!(setup_boot_params(&config, &mut small), Err(BootError::MemoryTooSmall));

    let mut space = GuestMemory::new(0x2000_0000);
    space.add_ram_region(0, 0x1000_0000).unwrap();
    let big = X86BootLoaderConfig {
        initrd_size: Some(0x1000_0001),
        kernel_cmdline: String::new(),
        cpu_count: 1,
    };
    assert_eq!(setup_boot_params(&big, &mut space), Err(BootError::InitrdTooLarge));

    // RAM that starts above the zero page cannot hold it
    let mut high = GuestMemory::new(0x2000_0000);
    high.add_ram_region(0x10_0000, 0x100_0000).unwrap();
    let config = X86BootLoaderConfig { initrd_size: None, kernel_cmdline: String::new(), cpu_count: 1 };
    assert_eq!(
        setup_boot_params(&config, &mut high),
        Err(BootError::Memory(MemoryError::OutOfBounds))
    );
}

#[test]
fn ram_ranges_add_up_to_memory_size() {
    for mem in [0x10_0000u64, MEM_MAPPED_IO_BASE - 1, MEM_MAPPED_IO_BASE, MEM_MAPPED_IO_BASE + 1, 0x2_0000_0000] {
        let r = arch_ram_ranges(mem);
        let total: u64 = r.iter().map(|x| x.1).sum();
        assert_eq!(total, mem);
    }
    assert_eq!(arch_ram_ranges(0x1000_0000), vec![(0, 0x1000_0000)]);
    assert_eq!(
        arch_ram_ranges(0x1_0000_0000),
        vec![(0, 0xD000_0000), (GAP_END, 0x3000_0000)]
    );
}

fn e820_of(mem: u64) -> Vec<(u64, u64, u32)> {
    let mut p = BootParams::new(RealModeKernelHeader::new(0, 0, 0, 0));
    setup_e820(&mut p, mem);
    (0..p.e820_entries() as usize)
        .map(|i| {
            let e = p.e820_entry(i);
            (e.addr, e.size, e.type_)
        })
        .collect()
}

#[test]
fn e820_at_the_gap_boundaries() {
    let gap = MEM_MAPPED_IO_BASE;
    let below = e820_of(gap - 1);
    assert_eq!(below.len(), 4);
    assert_eq!(below[3], (0x10_0000, gap - 1 - 0x10_0000, E820_RAM));
    let at = e820_of(gap);
    assert_eq!(at.len(), 4);
    assert_eq!(at[3], (0x10_0000, gap - 0x10_0000, E820_RAM));
    let above = e820_of(gap + 1);
    assert_eq!(above.len(), 5);
    assert_eq!(above[3], (0x10_0000, gap - 0x10_0000, E820_RAM));
    assert_eq!(above[4], (0x1_0000_0000, 1, E820_RAM));
    assert_eq!(above[1], (0x9_FC00, 0x400, E820_RESERVED));
}

#[test]
fn e820_entries_sorted_and_disjoint() {
    for mem in [0x10_0000u64, 0x1000_0000, MEM_MAPPED_IO_BASE + 0x1000, 0x4_0000_0000] {
        let t = e820_of(mem);
        for i in 0..t.len() {
            for j in i + 1..t.len() {
                assert!(t[i].0 + t[i].1 <= t[j].0);
            }
        }
    }
}

#[test]
fn initrd_placement() {
    assert_eq!(initrd_addr(0x1000_0000, 0x1_0000), Some(0x0fff_0000));
    assert_eq!(initrd_addr(0x1000_0000, 0x1_0001), Some(0x0ffe_f000));
    assert_eq!(initrd_addr(0x2_0000_0000, 0x1000), Some(0xffff_e000));
    assert_eq!(initrd_addr(0x1000, 0x1001), None);
}

#[test]
fn reads_within_and_across_region_boundaries() {
    let mut m = GuestMemory::new(0x10_0000);
    m.add_ram_region(0, 0x1000).unwrap();
    m.add_ram_region(0x1000, 0x1000).unwrap();
    m.write(0xff8, &[1, 2, 3, 4, 5, 6, 7, 8]).unwrap();
    // an object that ends exactly at the boundary
    assert_eq!(m.read(0xff8, 8).unwrap(), vec![1, 2, 3, 4, 5, 6, 7, 8]);
    // one that straddles it
    assert_eq!(m.read(0xffc, 8), Err(MemoryError::OutOfBounds));
    assert_eq!(m.write(0xffc, &[0; 8]), Err(MemoryError::OutOfBounds));
    // a hole
    assert_eq!(m.read(0x3000, 1), Err(MemoryError::OutOfBounds));
    assert_eq!(m.memory_end_address(), 0x2000);
    assert_eq!(m.ram_size(), 0x2000);
}

#[test]
fn region_placement_errors() {
    let mut m = GuestMemory::new(0x10_0000);
    m.add_ram_region(0x1000, 0x1000).unwrap();
    assert_eq!(m.add_ram_region(0x1800, 0x1000), Err(MemoryError::Overlap));
    assert_eq!(m.add_ram_region(0x800, 0x1000), Err(MemoryError::Overlap));
    assert_eq!(m.add_ram_region(0xf_f000, 0x2000), Err(MemoryError::OutOfRange));
    assert_eq!(m.add_ram_region(0, 0x1000), Ok(()));
    assert_eq!(m.add_ram_region(0x2000, 0x10), Ok(()));
    assert_eq!(m.memory_end_address(), 0x2010);
}

#[test]
fn region_bytes_are_the_guest_bytes() {
    let mut m = GuestMemory::new(0x10_0000);
    m.add_ram_region(0x2000, 0x1000).unwrap();
    m.add_ram_region(0, 0x1000).unwrap();
    assert_eq!(m.region_count(), 2);
    assert_eq!(m.region_base(1), 0x2000);
    m.region_bytes_mut(1)[0x10] = 0xab;
    assert_eq!(m.read(0x2010, 1).unwrap(), vec![0xab]);
    assert_eq!(m.region_bytes_mut(0).len(), 0x1000);
}
