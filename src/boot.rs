//! Writes the x86 boot data into guest memory: the kernel command line and
//! the zero page with its E820 map, and places the initrd.

use vstd::prelude::*;
use vstd::utf8::encode_utf8;

use crate::bytes::{append_le, le_bytes};
use crate::gdt::{boot_gdt, boot_gdt_spec, segment_from_gdt, segment_spec, KvmSegment};
use crate::bootparam::{zero_page_bytes, BootParams, RealModeKernelHeader, BOOT_PARAMS_SIZE};
use crate::layout::{
    e820_spec, initrd_addr, initrd_addr_spec, min_u64, setup_e820, HIGH_MEMORY_START,
    INITRD_ADDR_MAX,
};
use crate::memory::{covers, region_end, total_len, write_spec, GuestMemory, MemoryError};

verus! {

/// Guest physical address of the zero page.
pub const ZERO_PAGE_START: u64 = 0x7000;

/// Guest physical address of the kernel command line.
pub const CMDLINE_START: u64 = 0x2_0000;

/// What the boot data of an x86 guest is built from.
pub struct X86BootLoaderConfig {
    /// Size of the initrd, where there is one.
    pub initrd_size: Option<u32>,
    pub kernel_cmdline: String,
    pub cpu_count: u8,
}

/// Why the boot data could not be written.
#[derive(Clone, Copy, Debug, PartialEq, Eq, Structural)]
pub enum BootError {
    /// The guest has less RAM than the start of high memory.
    MemoryTooSmall,
    /// The initrd does not fit below the end of memory and 4 GiB.
    InitrdTooLarge,
    /// The command line is longer than the header can describe.
    CmdlineTooLong,
    /// The kernel image is not a well-formed ELF64 file; bzImage kernels are
    /// not read.
    InvalidKernel,
    /// A write fell outside guest RAM.
    Memory(MemoryError),
}

/// Some region of `rs` holds `[addr, addr + len)`.
pub open spec fn mapped(rs: Seq<(u64, Seq<u8>)>, addr: int, len: int) -> bool {
    exists|i: int| 0 <= i < rs.len() && covers(#[trigger] rs[i], addr, len)
}

/// The command line as written to guest memory: its UTF-8 bytes and a NUL.
pub open spec fn cmdline_image(cmdline: Seq<char>) -> Seq<u8> {
    encode_utf8(cmdline).push(0u8)
}

/// Where the initrd goes, and its size, for a guest whose memory ends at `mem_end`.
pub open spec fn ramdisk_spec(initrd_size: Option<u32>, mem_end: u64) -> (int, int) {
    match initrd_size {
        Some(s) => (initrd_addr_spec(mem_end, s as u64), s as int),
        None => (0, 0),
    }
}

/// The initrd does not fit below the end of memory and `INITRD_ADDR_MAX`.
pub open spec fn initrd_too_large(initrd_size: Option<u32>, mem_end: u64) -> bool {
    match initrd_size {
        Some(s) => s > min_u64(mem_end, INITRD_ADDR_MAX),
        None => false,
    }
}

/// The kernel header for a command line of `cmdline_len` bytes and the given ramdisk.
pub open spec fn boot_header(cmdline_len: int, ramdisk: (int, int)) -> RealModeKernelHeader {
    RealModeKernelHeader {
        boot_flag: 0xaa55,
        header: 0x5372_6448,
        type_of_loader: 0xff,
        ramdisk_image: ramdisk.0 as u32,
        ramdisk_size: ramdisk.1 as u32,
        cmdline_ptr: CMDLINE_START as u32,
        cmdline_size: cmdline_len as u32,
    }
}

/// The RAM size of regions `rs`, and where they end.
pub open spec fn mem_end_of(rs: Seq<(u64, Seq<u8>)>) -> int {
    if rs.len() == 0 {
        0
    } else {
        region_end(rs.last())
    }
}

/// The boot parameters of `config` can be written into memory regions `rs`.
pub open spec fn boot_params_ok(config: &X86BootLoaderConfig, rs: Seq<(u64, Seq<u8>)>) -> bool {
    let cmd = cmdline_image(config.kernel_cmdline@);
    &&& total_len(rs) >= HIGH_MEMORY_START
    &&& !initrd_too_large(config.initrd_size, mem_end_of(rs) as u64)
    &&& cmd.len() <= u32::MAX
    &&& mapped(rs, CMDLINE_START as int, cmd.len() as int)
    &&& mapped(rs, ZERO_PAGE_START as int, BOOT_PARAMS_SIZE as int)
}

/// Memory regions `rs` with the command line and the zero page of `config` written.
pub open spec fn params_written(config: &X86BootLoaderConfig, rs: Seq<(u64, Seq<u8>)>) -> Seq<
    (u64, Seq<u8>),
> {
    let cmd = cmdline_image(config.kernel_cmdline@);
    let ramdisk = ramdisk_spec(config.initrd_size, mem_end_of(rs) as u64);
    let zp = zero_page_bytes(boot_header(cmd.len() - 1, ramdisk), e820_spec(total_len(rs) as u64));
    write_spec(write_spec(rs, CMDLINE_START as int, cmd), ZERO_PAGE_START as int, zp)
}

/// Memory regions `rs` with the boot GDT and the empty IDT written.
pub open spec fn gdt_written(rs: Seq<(u64, Seq<u8>)>) -> Seq<(u64, Seq<u8>)> {
    write_spec(
        write_spec(rs, BOOT_GDT_OFFSET as int, table_bytes(boot_gdt_spec())),
        BOOT_IDT_OFFSET as int,
        le_bytes(0, 8),
    )
}

/// Memory regions `rs` with the boot page tables written.
pub open spec fn page_tables_written(rs: Seq<(u64, Seq<u8>)>) -> Seq<(u64, Seq<u8>)> {
    write_spec(
        write_spec(
            write_spec(rs, PML4_START as int, le_bytes((PDPTE_START | 0x03) as nat, 8)),
            PDPTE_START as int,
            le_bytes((PDE_START | 0x03) as nat, 8),
        ),
        PDE_START as int,
        pde_bytes(PDE_ENTRIES as nat),
    )
}

/// Memory regions `rs` with all boot data of `config` written: command
/// line, zero page, GDT, IDT and page tables.
pub open spec fn boot_data_written(config: &X86BootLoaderConfig, rs: Seq<(u64, Seq<u8>)>) -> Seq<
    (u64, Seq<u8>),
> {
    page_tables_written(gdt_written(params_written(config, rs)))
}

/// The GDT, IDT and page tables have room in memory regions `rs`.
pub open spec fn boot_tables_mapped(rs: Seq<(u64, Seq<u8>)>) -> bool {
    &&& mapped(rs, BOOT_GDT_OFFSET as int, 32)
    &&& mapped(rs, BOOT_IDT_OFFSET as int, 8)
    &&& mapped(rs, PML4_START as int, 8)
    &&& mapped(rs, PDPTE_START as int, 8)
    &&& mapped(rs, PDE_START as int, 8 * PDE_ENTRIES)
}

/// Regions with the same places and sizes hold the same amount of RAM and
/// end at the same address.
pub proof fn lemma_same_layout_same_size(rs: Seq<(u64, Seq<u8>)>, ws: Seq<(u64, Seq<u8>)>)
    requires
        ws.len() == rs.len(),
        forall|i: int| 0 <= i < rs.len() ==> (#[trigger] ws[i]).0 == rs[i].0 && ws[i].1.len()
            == rs[i].1.len(),
    ensures
        total_len(ws) == total_len(rs),
        mem_end_of(ws) == mem_end_of(rs),
    decreases rs.len(),
{
    if rs.len() > 0 {
        let n = rs.len() - 1;
        assert(ws[n].0 == rs[n].0);
        lemma_same_layout_same_size(rs.drop_last(), ws.drop_last());
    }
}

/// Writing into memory changes neither how much RAM there is nor where it ends.
pub proof fn lemma_write_keeps_size(rs: Seq<(u64, Seq<u8>)>, addr: int, bytes: Seq<u8>)
    ensures
        total_len(write_spec(rs, addr, bytes)) == total_len(rs),
        mem_end_of(write_spec(rs, addr, bytes)) == mem_end_of(rs),
{
    lemma_write_keeps_layout(rs, addr, bytes);
    lemma_same_layout_same_size(rs, write_spec(rs, addr, bytes));
}

proof fn lemma_write_keeps_layout(rs: Seq<(u64, Seq<u8>)>, addr: int, bytes: Seq<u8>)
    ensures
        forall|i: int|
            0 <= i < rs.len() ==> (#[trigger] write_spec(rs, addr, bytes)[i]).0 == rs[i].0
                && write_spec(rs, addr, bytes)[i].1.len() == rs[i].1.len(),
        write_spec(rs, addr, bytes).len() == rs.len(),
{
}

/// Writes the command line and the zero page of `config` into `mem`, and
/// returns the zero page address and the initrd address (0 without initrd).
pub fn setup_boot_params(config: &X86BootLoaderConfig, mem: &mut GuestMemory) -> (r: Result<
    (u64, u64),
    BootError,
>)
    requires
        old(mem).wf(),
    ensures
        final(mem).wf(),
        ({
            let rs = old(mem).regions();
            let mem_size = total_len(rs);
            let mem_end = if rs.len() == 0 { 0 } else { region_end(rs.last()) };
            let cmd = cmdline_image(config.kernel_cmdline@);
            let ramdisk = ramdisk_spec(config.initrd_size, mem_end as u64);
            &&& (r == Err::<(u64, u64), BootError>(BootError::MemoryTooSmall) <==> mem_size
                < HIGH_MEMORY_START)
            &&& (r == Err::<(u64, u64), BootError>(BootError::InitrdTooLarge) <==> mem_size
                >= HIGH_MEMORY_START && initrd_too_large(config.initrd_size, mem_end as u64))
            &&& (r == Err::<(u64, u64), BootError>(BootError::CmdlineTooLong) <==> mem_size
                >= HIGH_MEMORY_START && !initrd_too_large(config.initrd_size, mem_end as u64)
                && cmd.len() > u32::MAX)
            &&& (r is Ok <==> boot_params_ok(config, rs))
            &&& (r matches Ok(p) ==> p == (ZERO_PAGE_START, ramdisk.0 as u64)
                && final(mem).regions() == params_written(config, rs))
            &&& (r matches Err(e) ==> e == BootError::MemoryTooSmall || e
                == BootError::InitrdTooLarge || e == BootError::CmdlineTooLong || e
                == BootError::Memory(MemoryError::OutOfBounds))
        }),
{
    let ghost rs = mem.regions();
    let mem_size = mem.ram_size();
    if mem_size < HIGH_MEMORY_START {
        return Err(BootError::MemoryTooSmall);
    }
    let mem_end = mem.memory_end_address();
    let (ramdisk_image, ramdisk_size) = match config.initrd_size {
        Some(size) => match initrd_addr(mem_end, size as u64) {
            Some(addr) => (addr, size),
            None => {
                return Err(BootError::InitrdTooLarge);
            },
        },
        None => (0u64, 0u32),
    };
    let text = config.kernel_cmdline.as_str().as_bytes();
    let cmdline_len = text.len();
    if cmdline_len >= 0xffff_ffff {
        return Err(BootError::CmdlineTooLong);
    }
    let mut cmdline: Vec<u8> = Vec::new();
    let mut i: usize = 0;
    while i < cmdline_len
        invariant
            0 <= i <= cmdline_len,
            cmdline_len == text@.len(),
            cmdline@ == text@.take(i as int),
        decreases cmdline_len - i,
    {
        cmdline.push(text[i]);
        i = i + 1;
        proof {
            assert(cmdline@ =~= text@.take(i as int));
        }
    }
    cmdline.push(0u8);
    let header = RealModeKernelHeader::new(
        CMDLINE_START as u32,
        cmdline_len as u32,
        ramdisk_image as u32,
        ramdisk_size,
    );
    let mut params = BootParams::new(header);
    setup_e820(&mut params, mem_size);
    let zero_page = params.as_bytes();
    proof {
        assert(text@.take(i as int) =~= text@);
        assert(cmdline@ =~= cmdline_image(config.kernel_cmdline@));
    }
    match mem.write(CMDLINE_START, cmdline.as_slice()) {
        Ok(()) => {},
        Err(e) => {
            return Err(BootError::Memory(e));
        },
    }
    proof {
        lemma_mapped_after_write(
            rs,
            CMDLINE_START as int,
            cmdline@,
            ZERO_PAGE_START as int,
            BOOT_PARAMS_SIZE as int,
        );
    }
    match mem.write(ZERO_PAGE_START, zero_page.as_slice()) {
        Ok(()) => {},
        Err(e) => {
            return Err(BootError::Memory(e));
        },
    }
    Ok((ZERO_PAGE_START, ramdisk_image))
}

/// Guest physical address of the GDT.
pub const BOOT_GDT_OFFSET: u64 = 0x500;

/// Guest physical address of the (empty) IDT.
pub const BOOT_IDT_OFFSET: u64 = 0x520;

/// Guest physical address of the top-level page table.
pub const PML4_START: u64 = 0x9000;

/// Guest physical address of the page-directory-pointer table.
pub const PDPTE_START: u64 = 0xa000;

/// Guest physical address of the page directory.
pub const PDE_START: u64 = 0xb000;

/// Initial stack pointer of the boot vCPU.
pub const BOOT_LOADER_SP: u64 = 0x8ff0;

/// Number of 2 MiB pages the boot page directory maps: the first 1 GiB.
pub const PDE_ENTRIES: u64 = 512;

/// Writing into a region changes no region's place or size, so the same
/// ranges are mapped before and after.
pub proof fn lemma_mapped_after_write(
    rs: Seq<(u64, Seq<u8>)>,
    at: int,
    bytes: Seq<u8>,
    addr: int,
    len: int,
)
    ensures
        mapped(write_spec(rs, at, bytes), addr, len) == mapped(rs, addr, len),
{
    let w = write_spec(rs, at, bytes);
    lemma_write_keeps_layout(rs, at, bytes);
    if mapped(rs, addr, len) {
        let i = choose|i: int| 0 <= i < rs.len() && covers(#[trigger] rs[i], addr, len);
        assert(covers(w[i], addr, len));
    }
    if mapped(w, addr, len) {
        let i = choose|i: int| 0 <= i < w.len() && covers(#[trigger] w[i], addr, len);
        assert(covers(rs[i], addr, len));
    }
}

/// The bytes of the descriptors of `t`, each little-endian, in order.
pub open spec fn table_bytes(t: Seq<u64>) -> Seq<u8>
    decreases t.len(),
{
    if t.len() == 0 {
        Seq::empty()
    } else {
        table_bytes(t.drop_last()) + le_bytes(t.last() as nat, 8)
    }
}

/// The page directory's first `n` entries: 2 MiB pages mapping the guest's
/// first `n * 2 MiB` bytes onto themselves, present and writable.
pub open spec fn pde_bytes(n: nat) -> Seq<u8>
    decreases n,
{
    if n == 0 {
        Seq::empty()
    } else {
        pde_bytes((n - 1) as nat) + le_bytes(((n - 1) * 0x20_0000 + 0x83) as nat, 8)
    }
}

/// Where the boot GDT and IDT are, and the segments that the vCPU loads.
#[derive(Clone, Copy, Debug, PartialEq, Eq, Structural)]
pub struct BootGdtSegment {
    pub code_segment: KvmSegment,
    pub data_segment: KvmSegment,
    pub gdt_base: u64,
    pub gdt_limit: u16,
    pub idt_base: u64,
    pub idt_limit: u16,
}

/// The segments of the boot GDT.
pub open spec fn boot_segments_spec() -> BootGdtSegment {
    BootGdtSegment {
        code_segment: segment_spec(boot_gdt_spec()[1], 1),
        data_segment: segment_spec(boot_gdt_spec()[2], 2),
        gdt_base: BOOT_GDT_OFFSET,
        gdt_limit: 31,
        idt_base: BOOT_IDT_OFFSET,
        idt_limit: 7,
    }
}

/// Writes the boot GDT and an empty IDT, and returns the segments.
pub fn setup_gdt(mem: &mut GuestMemory) -> (r: Result<BootGdtSegment, BootError>)
    requires
        old(mem).wf(),
    ensures
        final(mem).wf(),
        r is Ok <==> mapped(old(mem).regions(), BOOT_GDT_OFFSET as int, 32) && mapped(
            old(mem).regions(),
            BOOT_IDT_OFFSET as int,
            8,
        ),
        r matches Ok(s) ==> s == boot_segments_spec() && final(mem).regions() == gdt_written(
            old(mem).regions(),
        ),
        r is Err ==> r == Err::<BootGdtSegment, BootError>(BootError::Memory(MemoryError::OutOfBounds)),
{
    let ghost rs = mem.regions();
    let gdt = boot_gdt();
    let mut bytes: Vec<u8> = Vec::new();
    let mut i: usize = 0;
    while i < gdt.len()
        invariant
            gdt@ == boot_gdt_spec(),
            0 <= i <= gdt@.len(),
            bytes@ == table_bytes(gdt@.take(i as int)),
        decreases gdt@.len() - i,
    {
        proof {
            assert(gdt@.take(i + 1).drop_last() =~= gdt@.take(i as int));
        }
        append_le(&mut bytes, gdt[i], 8);
        i = i + 1;
    }
    proof {
        assert(gdt@.take(4) =~= gdt@);
        crate::bytes::lemma_le_bytes_len(0, 8);
        reveal_with_fuel(table_bytes, 5);
        crate::bytes::lemma_le_bytes_len(gdt@[0] as nat, 8);
        crate::bytes::lemma_le_bytes_len(gdt@[1] as nat, 8);
        crate::bytes::lemma_le_bytes_len(gdt@[2] as nat, 8);
        crate::bytes::lemma_le_bytes_len(gdt@[3] as nat, 8);
        assert(bytes@.len() == 32);
    }
    let mut idt: Vec<u8> = Vec::new();
    append_le(&mut idt, 0, 8);
    proof {
        lemma_mapped_after_write(rs, BOOT_GDT_OFFSET as int, bytes@, BOOT_IDT_OFFSET as int, 8);
    }
    if let Err(e) = mem.write(BOOT_GDT_OFFSET, bytes.as_slice()) {
        return Err(BootError::Memory(e));
    }
    if let Err(e) = mem.write(BOOT_IDT_OFFSET, idt.as_slice()) {
        return Err(BootError::Memory(e));
    }
    Ok(
        BootGdtSegment {
            code_segment: segment_from_gdt(gdt[1], 1),
            data_segment: segment_from_gdt(gdt[2], 2),
            gdt_base: BOOT_GDT_OFFSET,
            gdt_limit: 31,
            idt_base: BOOT_IDT_OFFSET,
            idt_limit: 7,
        },
    )
}

/// Writes page tables that map the first 1 GiB of the guest onto itself
/// with 2 MiB pages, and returns the address of the top-level table.
pub fn setup_page_tables(mem: &mut GuestMemory) -> (r: Result<u64, BootError>)
    requires
        old(mem).wf(),
    ensures
        final(mem).wf(),
        r is Ok <==> mapped(old(mem).regions(), PML4_START as int, 8) && mapped(
            old(mem).regions(),
            PDPTE_START as int,
            8,
        ) && mapped(old(mem).regions(), PDE_START as int, 8 * PDE_ENTRIES),
        r matches Ok(a) ==> a == PML4_START && final(mem).regions() == page_tables_written(
            old(mem).regions(),
        ),
        r is Err ==> r == Err::<u64, BootError>(BootError::Memory(MemoryError::OutOfBounds)),
{
    let ghost rs = mem.regions();
    let mut pml4: Vec<u8> = Vec::new();
    append_le(&mut pml4, PDPTE_START | 0x03, 8);
    let mut pdpte: Vec<u8> = Vec::new();
    append_le(&mut pdpte, PDE_START | 0x03, 8);
    let mut pde: Vec<u8> = Vec::new();
    let mut i: u64 = 0;
    while i < PDE_ENTRIES
        invariant
            0 <= i <= PDE_ENTRIES,
            pde@ == pde_bytes(i as nat),
            pde@.len() == 8 * i,
        decreases PDE_ENTRIES - i,
    {
        proof {
            crate::bytes::lemma_le_bytes_len((i * 0x20_0000 + 0x83) as nat, 8);
        }
        append_le(&mut pde, i * 0x20_0000 + 0x83, 8);
        i = i + 1;
    }
    proof {
        crate::bytes::lemma_le_bytes_len((PDPTE_START | 0x03) as nat, 8);
        crate::bytes::lemma_le_bytes_len((PDE_START | 0x03) as nat, 8);
        let w1 = write_spec(rs, PML4_START as int, pml4@);
        lemma_mapped_after_write(rs, PML4_START as int, pml4@, PDPTE_START as int, 8);
        lemma_mapped_after_write(rs, PML4_START as int, pml4@, PDE_START as int, 8 * PDE_ENTRIES);
        lemma_mapped_after_write(w1, PDPTE_START as int, pdpte@, PDE_START as int, 8 * PDE_ENTRIES);
    }
    if let Err(e) = mem.write(PML4_START, pml4.as_slice()) {
        return Err(BootError::Memory(e));
    }
    if let Err(e) = mem.write(PDPTE_START, pdpte.as_slice()) {
        return Err(BootError::Memory(e));
    }
    if let Err(e) = mem.write(PDE_START, pde.as_slice()) {
        return Err(BootError::Memory(e));
    }
    Ok(PML4_START)
}

/// Where the kernel, its stack, the zero page, the initrd and the boot
/// tables ended up.
#[derive(Clone, Copy, Debug, PartialEq, Eq, Structural)]
pub struct X86BootLayout {
    pub kernel_start: u64,
    pub kernel_sp: u64,
    pub zero_page_addr: u64,
    pub initrd_start: u64,
    pub segments: BootGdtSegment,
    pub boot_pml4_addr: u64,
}

/// Writes all boot data of `config` into `mem`, for a kernel whose entry
/// point is `kernel_start`: command line, zero page, GDT, IDT and page
/// tables. Fails where one of them has no room in RAM.
pub fn load_boot_layout(config: &X86BootLoaderConfig, kernel_start: u64, mem: &mut GuestMemory) -> (r:
    Result<X86BootLayout, BootError>)
    requires
        old(mem).wf(),
    ensures
        final(mem).wf(),
        r is Ok <==> boot_params_ok(config, old(mem).regions()) && boot_tables_mapped(
            old(mem).regions(),
        ),
        r matches Ok(l) ==> l == (X86BootLayout {
            kernel_start,
            kernel_sp: BOOT_LOADER_SP,
            zero_page_addr: ZERO_PAGE_START,
            initrd_start: ramdisk_spec(
                config.initrd_size,
                mem_end_of(old(mem).regions()) as u64,
            ).0 as u64,
            segments: boot_segments_spec(),
            boot_pml4_addr: PML4_START,
        }),
        r is Ok ==> final(mem).regions() == boot_data_written(config, old(mem).regions()),
        r matches Err(e) ==> e != BootError::InvalidKernel,
{
    let ghost rs0 = mem.regions();
    let (zero_page_addr, initrd_start) = match setup_boot_params(config, mem) {
        Ok(p) => p,
        Err(e) => {
            return Err(e);
        },
    };
    proof {
        let cmd = cmdline_image(config.kernel_cmdline@);
        let w1 = write_spec(rs0, CMDLINE_START as int, cmd);
        let rs1 = mem.regions();
        assert forall|a: int, n: int| #[trigger] mapped(rs1, a, n) == mapped(rs0, a, n) by {
            lemma_mapped_after_write(rs0, CMDLINE_START as int, cmd, a, n);
            lemma_mapped_after_write(w1, ZERO_PAGE_START as int, zero_page_bytes(
                boot_header(cmd.len() - 1, ramdisk_spec(config.initrd_size, mem_end_of(rs0) as u64)),
                e820_spec(total_len(rs0) as u64),
            ), a, n);
        }
    }
    let ghost rs1 = mem.regions();
    let segments = match setup_gdt(mem) {
        Ok(s) => s,
        Err(e) => {
            return Err(e);
        },
    };
    proof {
        let w1 = write_spec(rs1, BOOT_GDT_OFFSET as int, table_bytes(boot_gdt_spec()));
        let rs2 = mem.regions();
        assert forall|a: int, n: int| #[trigger] mapped(rs2, a, n) == mapped(rs1, a, n) by {
            lemma_mapped_after_write(rs1, BOOT_GDT_OFFSET as int, table_bytes(boot_gdt_spec()), a, n);
            lemma_mapped_after_write(w1, BOOT_IDT_OFFSET as int, le_bytes(0, 8), a, n);
        }
    }
    let boot_pml4_addr = match setup_page_tables(mem) {
        Ok(a) => a,
        Err(e) => {
            return Err(e);
        },
    };
    Ok(
        X86BootLayout {
            kernel_start,
            kernel_sp: BOOT_LOADER_SP,
            zero_page_addr,
            initrd_start,
            segments,
            boot_pml4_addr,
        },
    )
}

} // verus!
