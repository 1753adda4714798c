//! The boot GDT: flat 64-bit code and data descriptors, and the segment
//! registers loaded from them.

use vstd::prelude::*;

verus! {

/// The descriptor with access `flags` for `[base, base + limit]`, in the
/// x86 GDT entry layout.
pub open spec fn gdt_entry_spec(flags: u16, base: u32, limit: u32) -> u64 {
    (((base as u64) & 0xff00_0000u64) << 32u64) | (((flags as u64) & 0x0000_f0ffu64) << 40u64)
        | (((limit as u64) & 0x000f_0000u64) << 32u64) | (((base as u64) & 0x00ff_ffffu64)
        << 16u64) | ((limit as u64) & 0x0000_ffffu64)
}

/// Builds a GDT entry.
pub fn gdt_entry(flags: u16, base: u32, limit: u32) -> (r: u64)
    ensures
        r == gdt_entry_spec(flags, base, limit),
{
    (((base as u64) & 0xff00_0000u64) << 32u64) | (((flags as u64) & 0x0000_f0ffu64) << 40u64)
        | (((limit as u64) & 0x000f_0000u64) << 32u64) | (((base as u64) & 0x00ff_ffffu64)
        << 16u64) | ((limit as u64) & 0x0000_ffffu64)
}

/// The boot GDT: null, 64-bit code, data, and TSS descriptors.
pub open spec fn boot_gdt_spec() -> Seq<u64> {
    seq![
        0u64,
        gdt_entry_spec(0xa09b, 0, 0xfffff),
        gdt_entry_spec(0xc093, 0, 0xfffff),
        gdt_entry_spec(0x808b, 0, 0xfffff),
    ]
}

/// Builds the boot GDT.
pub fn boot_gdt() -> (r: Vec<u64>)
    ensures
        r@ == boot_gdt_spec(),
{
    let r = vec![0u64, gdt_entry(0xa09b, 0, 0xfffff), gdt_entry(0xc093, 0, 0xfffff), gdt_entry(0x808b, 0, 0xfffff)];
    proof {
        assert(r@ =~= boot_gdt_spec());
    }
    r
}

/// A segment register as the virtualization facility takes it.
#[derive(Clone, Copy, Debug, PartialEq, Eq, Structural)]
pub struct KvmSegment {
    pub base: u64,
    pub limit: u32,
    pub selector: u16,
    pub type_: u8,
    pub present: u8,
    pub dpl: u8,
    pub db: u8,
    pub s: u8,
    pub l: u8,
    pub g: u8,
    pub avl: u8,
    pub unusable: u8,
}

/// Limit of `entry` in bytes: its 20-bit limit, scaled to 4 KiB pages where
/// the granularity bit is set.
pub open spec fn segment_limit(entry: u64) -> u32 {
    let raw = (((entry & 0x000f_0000_0000_0000u64) >> 32u64) | (entry & 0xffffu64)) as u32;
    if (entry >> 55u64) & 1 == 1 {
        (raw << 12u32) | 0xfffu32
    } else {
        raw
    }
}

/// The segment register that descriptor `entry`, at index `index` of the
/// GDT, loads.
pub open spec fn segment_spec(entry: u64, index: u8) -> KvmSegment {
    KvmSegment {
        base: ((entry & 0xff00_0000_0000_0000u64) >> 32u64) | ((entry & 0x0000_00ff_ffff_0000u64)
            >> 16u64),
        limit: segment_limit(entry),
        selector: ((index as u16) * 8) as u16,
        type_: ((entry >> 40u64) & 0xf) as u8,
        present: ((entry >> 47u64) & 1) as u8,
        dpl: ((entry >> 45u64) & 3) as u8,
        db: ((entry >> 54u64) & 1) as u8,
        s: ((entry >> 44u64) & 1) as u8,
        l: ((entry >> 53u64) & 1) as u8,
        g: ((entry >> 55u64) & 1) as u8,
        avl: ((entry >> 52u64) & 1) as u8,
        unusable: if (entry >> 47u64) & 1 == 1 {
            0
        } else {
            1
        },
    }
}

/// Decodes descriptor `entry`, at index `index` of a GDT of at most 32 entries.
pub fn segment_from_gdt(entry: u64, index: u8) -> (r: KvmSegment)
    requires
        index < 32,
    ensures
        r == segment_spec(entry, index),
{
    let raw = (((entry & 0x000f_0000_0000_0000u64) >> 32u64) | (entry & 0xffffu64)) as u32;
    proof {
        assert((entry >> 55u64) & 1 <= 1 && (entry >> 47u64) & 1 <= 1) by (bit_vector);
    }
    let g = ((entry >> 55u64) & 1) as u8;
    let limit = if g == 1 {
        proof {
            assert(raw <= 0xfffff) by (bit_vector)
                requires
                    raw == (((entry & 0x000f_0000_0000_0000u64) >> 32u64) | (entry & 0xffffu64)) as u32,
            ;
        }
        (raw << 12u32) | 0xfffu32
    } else {
        raw
    };
    let present = ((entry >> 47u64) & 1) as u8;
    KvmSegment {
        base: ((entry & 0xff00_0000_0000_0000u64) >> 32u64) | ((entry & 0x0000_00ff_ffff_0000u64)
            >> 16u64),
        limit,
        selector: (index as u16) * 8,
        type_: ((entry >> 40u64) & 0xf) as u8,
        present,
        dpl: ((entry >> 45u64) & 3) as u8,
        db: ((entry >> 54u64) & 1) as u8,
        s: ((entry >> 44u64) & 1) as u8,
        l: ((entry >> 53u64) & 1) as u8,
        g,
        avl: ((entry >> 52u64) & 1) as u8,
        unusable: if present == 1 {
            0
        } else {
            1
        },
    }
}

} // verus!
