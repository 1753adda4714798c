//! The x86 zero page: the real-mode kernel header and the E820 memory map, and
//! their byte layout as the Linux boot protocol fixes it.

use vstd::prelude::*;

use crate::bytes::{le_bytes, lemma_le_bytes_len, put, put_le};

verus! {

pub const E820_RAM: u32 = 1;

pub const E820_RESERVED: u32 = 2;

/// Capacity of the E820 table of the zero page.
pub const E820_MAX_ENTRIES: usize = 128;

/// Size in bytes of the zero page image.
pub const BOOT_PARAMS_SIZE: usize = 0xeec;

/// Offset of the E820 entry count in the zero page.
pub const E820_ENTRIES_OFFSET: usize = 0x1e8;

/// Offset of the real-mode kernel header in the zero page.
pub const KERNEL_HEADER_OFFSET: usize = 0x1f1;

/// Offset of the E820 table in the zero page.
pub const E820_TABLE_OFFSET: usize = 0x2d0;

/// Size in bytes of one E820 entry: `addr: u64`, `size: u64`, `type: u32`.
pub const E820_ENTRY_SIZE: usize = 20;

/// The boot-protocol header fields that the loader fills in. Every other field
/// of the header block is zero.
#[derive(Clone, Copy, Debug, PartialEq, Eq, Structural)]
pub struct RealModeKernelHeader {
    pub boot_flag: u16,
    pub header: u32,
    pub type_of_loader: u8,
    pub ramdisk_image: u32,
    pub ramdisk_size: u32,
    pub cmdline_ptr: u32,
    pub cmdline_size: u32,
}

impl RealModeKernelHeader {
    /// A header with the boot flag `0xaa55`, the magic `"HdrS"`, an undefined
    /// loader type and the given command line and ramdisk.
    pub fn new(cmdline_ptr: u32, cmdline_size: u32, ramdisk_image: u32, ramdisk_size: u32) -> (r:
        Self)
        ensures
            r.boot_flag == 0xaa55,
            r.header == 0x5372_6448,
            r.type_of_loader == 0xff,
            r.cmdline_ptr == cmdline_ptr,
            r.cmdline_size == cmdline_size,
            r.ramdisk_image == ramdisk_image,
            r.ramdisk_size == ramdisk_size,
    {
        RealModeKernelHeader {
            boot_flag: 0xaa55,
            header: 0x5372_6448,
            type_of_loader: 0xff,
            ramdisk_image,
            ramdisk_size,
            cmdline_ptr,
            cmdline_size,
        }
    }
}

/// One entry of the E820 memory map.
#[derive(Clone, Copy, Debug, PartialEq, Eq, Structural)]
pub struct E820Entry {
    pub addr: u64,
    pub size: u64,
    pub type_: u32,
}

/// The zero page: the kernel header and the E820 map; every other byte is zero.
pub struct BootParams {
    kernel_header: RealModeKernelHeader,
    e820_table: Vec<E820Entry>,
}

/// `s` with the header fields written at their zero-page offsets.
pub open spec fn put_header(s: Seq<u8>, h: RealModeKernelHeader) -> Seq<u8> {
    let s = put(s, 0x1fe, le_bytes(h.boot_flag as nat, 2));
    let s = put(s, 0x202, le_bytes(h.header as nat, 4));
    let s = put(s, 0x210, le_bytes(h.type_of_loader as nat, 1));
    let s = put(s, 0x218, le_bytes(h.ramdisk_image as nat, 4));
    let s = put(s, 0x21c, le_bytes(h.ramdisk_size as nat, 4));
    let s = put(s, 0x228, le_bytes(h.cmdline_ptr as nat, 4));
    put(s, 0x238, le_bytes(h.cmdline_size as nat, 4))
}

/// `s` with entry `e` written as the `i`-th slot of the E820 table.
pub open spec fn put_entry(s: Seq<u8>, i: int, e: E820Entry) -> Seq<u8> {
    let off = E820_TABLE_OFFSET + E820_ENTRY_SIZE * i;
    let s = put(s, off, le_bytes(e.addr as nat, 8));
    let s = put(s, off + 8, le_bytes(e.size as nat, 8));
    put(s, off + 16, le_bytes(e.type_ as nat, 4))
}

/// `s` with each entry of `t` written into its slot of the E820 table.
pub open spec fn put_entries(s: Seq<u8>, t: Seq<E820Entry>) -> Seq<u8>
    decreases t.len(),
{
    if t.len() == 0 {
        s
    } else {
        put_entry(put_entries(s, t.drop_last()), t.len() - 1, t.last())
    }
}

/// The byte image of a zero page with header `h` and E820 table `t`.
pub open spec fn zero_page_bytes(h: RealModeKernelHeader, t: Seq<E820Entry>) -> Seq<u8> {
    let zeros = Seq::new(BOOT_PARAMS_SIZE as nat, |i: int| 0u8);
    let s = put(zeros, E820_ENTRIES_OFFSET as int, le_bytes(t.len(), 1));
    put_entries(put_header(s, h), t)
}

proof fn lemma_put_len(s: Seq<u8>, off: int, v: nat, n: nat)
    requires
        0 <= off,
        off + n <= s.len(),
    ensures
        put(s, off, le_bytes(v, n)).len() == s.len(),
{
    lemma_le_bytes_len(v, n);
}

proof fn lemma_put_entries_len(s: Seq<u8>, t: Seq<E820Entry>)
    requires
        s.len() == BOOT_PARAMS_SIZE,
        t.len() <= E820_MAX_ENTRIES,
    ensures
        put_entries(s, t).len() == BOOT_PARAMS_SIZE,
    decreases t.len(),
{
    if t.len() > 0 {
        let p = put_entries(s, t.drop_last());
        lemma_put_entries_len(s, t.drop_last());
        let e = t.last();
        let off = E820_TABLE_OFFSET + E820_ENTRY_SIZE * (t.len() - 1);
        lemma_put_len(p, off, e.addr as nat, 8);
        let p1 = put(p, off, le_bytes(e.addr as nat, 8));
        lemma_put_len(p1, off + 8, e.size as nat, 8);
        let p2 = put(p1, off + 8, le_bytes(e.size as nat, 8));
        lemma_put_len(p2, off + 16, e.type_ as nat, 4);
    }
}

impl BootParams {
    pub closed spec fn header(&self) -> RealModeKernelHeader {
        self.kernel_header
    }

    /// The entries of the E820 map, in the order they were added.
    pub closed spec fn entries(&self) -> Seq<E820Entry> {
        self.e820_table@
    }

    pub open spec fn wf(&self) -> bool {
        self.entries().len() <= E820_MAX_ENTRIES
    }

    /// A zero page holding `kernel_header` and an empty E820 map.
    pub fn new(kernel_header: RealModeKernelHeader) -> (r: Self)
        ensures
            r.wf(),
            r.header() == kernel_header,
            r.entries() == Seq::<E820Entry>::empty(),
    {
        BootParams { kernel_header, e820_table: Vec::new() }
    }

    /// Appends the entry `[addr, addr + size)` of type `type_` to the E820 map.
    pub fn add_e820_entry(&mut self, addr: u64, size: u64, type_: u32)
        requires
            old(self).wf(),
            old(self).entries().len() < E820_MAX_ENTRIES,
        ensures
            final(self).wf(),
            final(self).header() == old(self).header(),
            final(self).entries() == old(self).entries().push(
                E820Entry { addr, size, type_ },
            ),
    {
        self.e820_table.push(E820Entry { addr, size, type_ });
    }

    /// The header of this zero page.
    pub fn kernel_header(&self) -> (r: RealModeKernelHeader)
        ensures
            r == self.header(),
    {
        self.kernel_header
    }

    /// The number of E820 entries.
    pub fn e820_entries(&self) -> (r: u8)
        requires
            self.wf(),
        ensures
            r == self.entries().len(),
    {
        self.e820_table.len() as u8
    }

    /// The `i`-th E820 entry.
    pub fn e820_entry(&self, i: usize) -> (r: E820Entry)
        requires
            i < self.entries().len(),
        ensures
            r == self.entries()[i as int],
    {
        self.e820_table[i]
    }

    /// The byte image of this zero page, `BOOT_PARAMS_SIZE` bytes long.
    pub fn as_bytes(&self) -> (r: Vec<u8>)
        requires
            self.wf(),
        ensures
            r@ == zero_page_bytes(self.header(), self.entries()),
            r@.len() == BOOT_PARAMS_SIZE,
    {
        let mut buf: Vec<u8> = vec![0u8; BOOT_PARAMS_SIZE];
        proof {
            let zeros = Seq::new(BOOT_PARAMS_SIZE as nat, |i: int| 0u8);
            assert forall|i: int| 0 <= i < BOOT_PARAMS_SIZE implies buf@[i] == zeros[i] by {
                assert(cloned(0u8, buf@[i]));
            }
            assert(buf@ =~= zeros);
        }
        let count = self.e820_table.len() as u64;
        put_le(&mut buf, E820_ENTRIES_OFFSET, count, 1);
        let h = self.kernel_header;
        put_le(&mut buf, 0x1fe, h.boot_flag as u64, 2);
        put_le(&mut buf, 0x202, h.header as u64, 4);
        put_le(&mut buf, 0x210, h.type_of_loader as u64, 1);
        put_le(&mut buf, 0x218, h.ramdisk_image as u64, 4);
        put_le(&mut buf, 0x21c, h.ramdisk_size as u64, 4);
        put_le(&mut buf, 0x228, h.cmdline_ptr as u64, 4);
        put_le(&mut buf, 0x238, h.cmdline_size as u64, 4);
        let ghost base = buf@;
        let mut i: usize = 0;
        while i < self.e820_table.len()
            invariant
                self.wf(),
                0 <= i <= self.entries().len(),
                base.len() == BOOT_PARAMS_SIZE,
                buf@ == put_entries(base, self.entries().take(i as int)),
            decreases self.entries().len() - i,
        {
            let e = self.e820_table[i];
            let off = E820_TABLE_OFFSET + E820_ENTRY_SIZE * i;
            proof {
                lemma_put_entries_len(base, self.entries().take(i as int));
            }
            put_le(&mut buf, off, e.addr, 8);
            put_le(&mut buf, off + 8, e.size, 8);
            put_le(&mut buf, off + 16, e.type_ as u64, 4);
            proof {
                let t = self.entries().take(i + 1);
                assert(t.drop_last() =~= self.entries().take(i as int));
                assert(t.last() == e);
            }
            i = i + 1;
        }
        proof {
            assert(self.entries().take(i as int) =~= self.entries());
            lemma_put_entries_len(base, self.entries());
        }
        buf
    }
}

} // verus!
