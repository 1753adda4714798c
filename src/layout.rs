//! Guest physical memory layout of the x86_64 machine.

use vstd::prelude::*;

use crate::bootparam::{BootParams, E820Entry, E820_RAM, E820_RESERVED};

verus! {

/// Size of the MMIO hole that ends at 4 GiB.
pub const MEM_MAPPED_IO_SIZE: u64 = 0x3000_0000;

/// Start of the MMIO hole: guest RAM above this address is moved to 4 GiB.
pub const MEM_MAPPED_IO_BASE: u64 = 0xD000_0000;

/// First address after the MMIO hole.
pub const GAP_END: u64 = 0x1_0000_0000;

/// The sum of the sizes of a list of `(base, size)` ranges.
pub open spec fn total_size(ranges: Seq<(u64, u64)>) -> int
    decreases ranges.len(),
{
    if ranges.len() == 0 {
        0
    } else {
        total_size(ranges.drop_last()) + ranges.last().1
    }
}

/// The RAM ranges `(base, size)` of a guest with `mem_size` bytes of memory:
/// everything below the MMIO hole, and what is left over placed at 4 GiB.
pub open spec fn ram_ranges_spec(mem_size: u64) -> Seq<(u64, u64)> {
    if mem_size <= MEM_MAPPED_IO_BASE {
        seq![(0u64, mem_size)]
    } else {
        seq![(0u64, MEM_MAPPED_IO_BASE), (GAP_END, (mem_size - MEM_MAPPED_IO_BASE) as u64)]
    }
}

/// Computes the RAM ranges of a guest with `mem_size` bytes of memory.
pub fn arch_ram_ranges(mem_size: u64) -> (r: Vec<(u64, u64)>)
    ensures
        r@ == ram_ranges_spec(mem_size),
{
    let mut ranges: Vec<(u64, u64)> = Vec::new();
    let gap_start = MEM_MAPPED_IO_BASE;
    if mem_size < gap_start {
        ranges.push((0, mem_size));
    } else {
        ranges.push((0, gap_start));
    }
    if mem_size > gap_start {
        ranges.push((GAP_END, mem_size - gap_start));
    }
    proof {
        assert(ranges@ =~= ram_ranges_spec(mem_size));
    }
    ranges
}

/// The RAM ranges of the layout add up to the guest's memory size: the part
/// moved above the MMIO hole is counted once.
pub proof fn lemma_ram_ranges_cover_memory(mem_size: u64)
    ensures
        total_size(ram_ranges_spec(mem_size)) == mem_size,
{
    let r = ram_ranges_spec(mem_size);
    reveal_with_fuel(total_size, 3);
    if mem_size <= MEM_MAPPED_IO_BASE {
        assert(r.drop_last() =~= Seq::<(u64, u64)>::empty());
    } else {
        assert(r.drop_last() =~= seq![(0u64, MEM_MAPPED_IO_BASE)]);
        assert(r.drop_last().drop_last() =~= Seq::<(u64, u64)>::empty());
    }
}

/// End of the real-mode interrupt vector table and BIOS data: start of the EBDA.
pub const EBDA_START: u64 = 0x9fc00;

/// Start of the VGA window, the end of the EBDA.
pub const VGA_RAM_BEGIN: u64 = 0xa0000;

/// Start of the motherboard BIOS area.
pub const MB_BIOS_BEGIN: u64 = 0xf0000;

/// Start of the high memory, where the kernel is loaded.
pub const HIGH_MEMORY_START: u64 = 0x10_0000;

pub open spec fn min_u64(a: u64, b: u64) -> u64 {
    if a <= b { a } else { b }
}

/// The E820 map of a guest with `mem_size` bytes of RAM.
pub open spec fn e820_spec(mem_size: u64) -> Seq<E820Entry> {
    let low = seq![
        E820Entry { addr: 0, size: EBDA_START, type_: E820_RAM },
        E820Entry { addr: EBDA_START, size: (VGA_RAM_BEGIN - EBDA_START) as u64, type_: E820_RESERVED },
        E820Entry { addr: MB_BIOS_BEGIN, size: 0, type_: E820_RESERVED },
        E820Entry {
            addr: HIGH_MEMORY_START,
            size: (min_u64(mem_size, MEM_MAPPED_IO_BASE) - HIGH_MEMORY_START) as u64,
            type_: E820_RAM,
        },
    ];
    if mem_size > MEM_MAPPED_IO_BASE {
        low.push(E820Entry { addr: GAP_END, size: (mem_size - MEM_MAPPED_IO_BASE) as u64, type_: E820_RAM })
    } else {
        low
    }
}

/// Each entry of `t` ends at or before the start of every later one.
pub open spec fn sorted_disjoint(t: Seq<E820Entry>) -> bool {
    forall|i: int, j: int|
        #![trigger t[i], t[j]]
        0 <= i < j < t.len() ==> t[i].addr + t[i].size <= t[j].addr
}

/// The E820 map is sorted by base address and its entries do not overlap.
pub proof fn lemma_e820_sorted_disjoint(mem_size: u64)
    requires
        mem_size >= HIGH_MEMORY_START,
    ensures
        sorted_disjoint(e820_spec(mem_size)),
{
}

/// The E820 map has a fifth entry exactly when the memory reaches past the
/// start of the MMIO hole; the RAM entries then describe `mem_size` bytes less
/// what the low BIOS areas take.
pub proof fn lemma_e820_entry_count(mem_size: u64)
    requires
        mem_size >= HIGH_MEMORY_START,
    ensures
        e820_spec(mem_size).len() == if mem_size > MEM_MAPPED_IO_BASE { 5int } else { 4int },
        e820_spec(mem_size)[0].size + e820_spec(mem_size)[3].size + (if mem_size
            > MEM_MAPPED_IO_BASE {
            e820_spec(mem_size)[4].size as int
        } else {
            0int
        }) == mem_size - (HIGH_MEMORY_START - EBDA_START),
{
}

/// Fills the E820 map of `params` for a guest with `mem_size` bytes of RAM.
pub fn setup_e820(params: &mut BootParams, mem_size: u64)
    requires
        old(params).wf(),
        old(params).entries().len() == 0,
        mem_size >= HIGH_MEMORY_START,
    ensures
        final(params).wf(),
        final(params).header() == old(params).header(),
        final(params).entries() == e820_spec(mem_size),
{
    params.add_e820_entry(0, EBDA_START, E820_RAM);
    params.add_e820_entry(EBDA_START, VGA_RAM_BEGIN - EBDA_START, E820_RESERVED);
    params.add_e820_entry(MB_BIOS_BEGIN, 0, E820_RESERVED);
    let low_end = if mem_size < MEM_MAPPED_IO_BASE { mem_size } else { MEM_MAPPED_IO_BASE };
    params.add_e820_entry(HIGH_MEMORY_START, low_end - HIGH_MEMORY_START, E820_RAM);
    if mem_size > MEM_MAPPED_IO_BASE {
        params.add_e820_entry(GAP_END, mem_size - MEM_MAPPED_IO_BASE, E820_RAM);
    }
    proof {
        assert(params.entries() =~= e820_spec(mem_size));
    }
}

/// Highest address, plus one, that an initrd may reach.
pub const INITRD_ADDR_MAX: u64 = 0xffff_ffff;

/// Page size used to align the initrd.
pub const PAGE_SIZE: u64 = 0x1000;

/// Where an initrd of `size` bytes goes in a guest whose memory ends at
/// `mem_end`: the highest page-aligned address from which it ends below
/// both the memory end and `INITRD_ADDR_MAX`.
pub open spec fn initrd_addr_spec(mem_end: u64, size: u64) -> int {
    let top = min_u64(mem_end, INITRD_ADDR_MAX) - size;
    top - top % PAGE_SIZE as int
}

/// Computes where an initrd of `size` bytes goes; `None` where it does not fit
/// below `min(mem_end, INITRD_ADDR_MAX)`.
pub fn initrd_addr(mem_end: u64, size: u64) -> (r: Option<u64>)
    ensures
        r is None <==> size > min_u64(mem_end, INITRD_ADDR_MAX),
        r matches Some(a) ==> a == initrd_addr_spec(mem_end, size) && a % PAGE_SIZE == 0 && a
            + size <= min_u64(mem_end, INITRD_ADDR_MAX),
{
    let top = if mem_end < INITRD_ADDR_MAX { mem_end } else { INITRD_ADDR_MAX };
    if size > top {
        None
    } else {
        let start = top - size;
        Some(start - start % PAGE_SIZE)
    }
}

} // verus!
