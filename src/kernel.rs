//! Loading an ELF64 kernel image: each loadable segment is copied to its
//! physical address in guest memory. Only ELF64 images are read; a bzImage
//! is refused as `BootError::InvalidKernel`.

use vstd::prelude::*;

use crate::boot::{
    lemma_write_keeps_size,
    boot_data_written, boot_params_ok, boot_segments_spec, boot_tables_mapped, lemma_mapped_after_write,
    load_boot_layout, mapped, mem_end_of, ramdisk_spec, BootError, X86BootLayout,
    X86BootLoaderConfig, BOOT_LOADER_SP, PML4_START, ZERO_PAGE_START,
};
use crate::memory::{total_len, write_spec, GuestMemory, MemoryError};

verus! {

/// The number that the bytes `s` encode, least significant first.
pub open spec fn le_value(s: Seq<u8>) -> nat
    decreases s.len(),
{
    if s.len() == 0 {
        0
    } else {
        s[0] as nat + 256 * le_value(s.skip(1))
    }
}

/// The little-endian field of `n` bytes at `off` in `img`.
pub open spec fn field(img: Seq<u8>, off: int, n: int) -> nat {
    le_value(img.subrange(off, off + n))
}

pub open spec fn pow256(n: nat) -> nat
    decreases n,
{
    if n == 0 {
        1
    } else {
        256 * pow256((n - 1) as nat)
    }
}

proof fn lemma_le_value_bound(s: Seq<u8>)
    ensures
        le_value(s) < pow256(s.len()),
    decreases s.len(),
{
    if s.len() > 0 {
        lemma_le_value_bound(s.skip(1));
        let a = s[0] as nat;
        let b = le_value(s.skip(1));
        let p = pow256((s.len() - 1) as nat);
        assert(a + 256 * b < 256 * p) by (nonlinear_arith)
            requires
                a < 256,
                b < p,
        ;
    }
}

proof fn lemma_pow256_mono(a: nat, b: nat)
    requires
        a <= b,
    ensures
        pow256(a) <= pow256(b),
    decreases b,
{
    if a < b {
        lemma_pow256_mono(a, (b - 1) as nat);
    }
}

/// Reads the little-endian field of `n` bytes at `off`.
pub fn read_le(img: &[u8], off: usize, n: usize) -> (r: u64)
    requires
        off + n <= img@.len(),
        n <= 8,
    ensures
        r == field(img@, off as int, n as int),
{
    let ghost sub = img@.subrange(off as int, off + n);
    let _len = img.len();
    let mut acc: u64 = 0;
    let mut k: usize = n;
    proof {
        assert(sub.skip(n as int) =~= Seq::<u8>::empty());
        reveal_with_fuel(pow256, 9);
    }
    while k > 0
        invariant
            0 <= k <= n <= 8,
            off + n <= img@.len(),
            img@.len() <= usize::MAX,
            sub == img@.subrange(off as int, off + n),
            acc == le_value(sub.skip(k as int)),
            pow256(8) == 0x1_0000_0000_0000_0000,
        decreases k,
    {
        proof {
            assert(sub.skip(k - 1).skip(1) =~= sub.skip(k as int));
            assert(sub.skip(k - 1)[0] == sub[k - 1]);
            lemma_le_value_bound(sub.skip(k - 1));
            lemma_pow256_mono((n - k + 1) as nat, 8);
            assert(sub.skip(k - 1).len() == n - k + 1);
        }
        acc = img[off + k - 1] as u64 + 256 * acc;
        k = k - 1;
    }
    proof {
        assert(sub.skip(0) =~= sub);
    }
    acc
}

/// Size of the ELF64 file header.
pub const ELF_HEADER_SIZE: u64 = 64;

/// Size of an ELF64 program header.
pub const PHDR_SIZE: u64 = 56;

/// Program header type of a loadable segment.
pub const PT_LOAD: u64 = 1;

/// `img` starts with the header of a 64-bit little-endian ELF file.
pub open spec fn is_elf64(img: Seq<u8>) -> bool {
    &&& img.len() >= ELF_HEADER_SIZE
    &&& img[0] == 0x7f && img[1] == 0x45 && img[2] == 0x4c && img[3] == 0x46
    &&& img[4] == 2
    &&& img[5] == 1
}

pub open spec fn entry_point(img: Seq<u8>) -> nat {
    field(img, 24, 8)
}

pub open spec fn phoff(img: Seq<u8>) -> nat {
    field(img, 32, 8)
}

pub open spec fn phentsize(img: Seq<u8>) -> nat {
    field(img, 54, 2)
}

pub open spec fn phnum(img: Seq<u8>) -> nat {
    field(img, 56, 2)
}

/// Offset of program header `i`.
pub open spec fn phdr_at(img: Seq<u8>, i: int) -> int {
    phoff(img) + i * phentsize(img)
}

/// Type, file offset, physical address and file size of program header `i`.
pub open spec fn segment(img: Seq<u8>, i: int) -> (nat, nat, nat, nat) {
    let p = phdr_at(img, i);
    (field(img, p, 4), field(img, p + 8, 8), field(img, p + 24, 8), field(img, p + 32, 8))
}

/// Program header `i` lies in the image, and so does the file data of its
/// segment if it is loadable.
pub open spec fn segment_ok(img: Seq<u8>, i: int) -> bool {
    let s = segment(img, i);
    &&& phdr_at(img, i) + PHDR_SIZE <= img.len()
    &&& (s.0 == PT_LOAD ==> s.1 + s.3 <= img.len())
}

/// `img` is an ELF64 image whose program headers and loadable data all lie
/// within it.
pub open spec fn valid_image(img: Seq<u8>) -> bool {
    &&& is_elf64(img)
    &&& phentsize(img) >= PHDR_SIZE
    &&& forall|i: int| 0 <= i < phnum(img) ==> #[trigger] segment_ok(img, i)
}

/// Memory regions `rs` after loading the first `n` program headers' segments.
pub open spec fn loaded(rs: Seq<(u64, Seq<u8>)>, img: Seq<u8>, n: nat) -> Seq<(u64, Seq<u8>)>
    decreases n,
{
    if n == 0 {
        rs
    } else {
        let prev = loaded(rs, img, (n - 1) as nat);
        let s = segment(img, n - 1);
        if s.0 == PT_LOAD {
            write_spec(prev, s.2 as int, img.subrange(s.1 as int, (s.1 + s.3) as int))
        } else {
            prev
        }
    }
}

/// Every loadable segment among the first `n` has room in RAM.
pub open spec fn segments_mapped(rs: Seq<(u64, Seq<u8>)>, img: Seq<u8>, n: nat) -> bool {
    forall|i: int|
        0 <= i < n && (#[trigger] segment(img, i)).0 == PT_LOAD ==> mapped(
            rs,
            segment(img, i).2 as int,
            segment(img, i).3 as int,
        )
}

proof fn lemma_loaded_keeps_mapped(rs: Seq<(u64, Seq<u8>)>, img: Seq<u8>, n: nat, a: int, len: int)
    ensures
        mapped(loaded(rs, img, n), a, len) == mapped(rs, a, len),
    decreases n,
{
    if n > 0 {
        lemma_loaded_keeps_mapped(rs, img, (n - 1) as nat, a, len);
        let s = segment(img, n - 1);
        if s.0 == PT_LOAD {
            lemma_mapped_after_write(
                loaded(rs, img, (n - 1) as nat),
                s.2 as int,
                img.subrange(s.1 as int, (s.1 + s.3) as int),
                a,
                len,
            );
        }
    }
}

/// Loading the kernel changes neither how much RAM there is nor where it ends.
pub proof fn lemma_loaded_keeps_size(rs: Seq<(u64, Seq<u8>)>, img: Seq<u8>, n: nat)
    ensures
        total_len(loaded(rs, img, n)) == total_len(rs),
        mem_end_of(loaded(rs, img, n)) == mem_end_of(rs),
    decreases n,
{
    if n > 0 {
        lemma_loaded_keeps_size(rs, img, (n - 1) as nat);
        let s = segment(img, n - 1);
        if s.0 == PT_LOAD {
            lemma_write_keeps_size(
                loaded(rs, img, (n - 1) as nat),
                s.2 as int,
                img.subrange(s.1 as int, (s.1 + s.3) as int),
            );
        }
    }
}

/// A copy of `s[start..start + len]`.
fn copy_range(s: &[u8], start: usize, len: usize) -> (r: Vec<u8>)
    requires
        start + len <= s@.len(),
    ensures
        r@ == s@.subrange(start as int, start + len),
{
    let _n = s.len();
    let mut out: Vec<u8> = Vec::new();
    let mut i: usize = 0;
    while i < len
        invariant
            start + len <= s@.len(),
            s@.len() <= usize::MAX,
            0 <= i <= len,
            out@ == s@.subrange(start as int, start + i),
        decreases len - i,
    {
        out.push(s[start + i]);
        i = i + 1;
        proof {
            assert(out@ =~= s@.subrange(start as int, start + i));
        }
    }
    out
}

/// Reads program header `i`, where its end lies within the image.
fn read_segment(img: &[u8], i: u64) -> (r: Option<(u64, u64, u64, u64)>)
    requires
        is_elf64(img@),
    ensures
        r is Some <==> phdr_at(img@, i as int) + PHDR_SIZE <= img@.len(),
        r matches Some(s) ==> (s.0 as nat, s.1 as nat, s.2 as nat, s.3 as nat) == segment(
            img@,
            i as int,
        ),
{
    let phoff = read_le(img, 32, 8);
    let entsize = read_le(img, 54, 2);
    let len = img.len() as u64;
    proof {
        assert(entsize < 0x1_0000) by {
            lemma_le_value_bound(img@.subrange(54, 56));
            reveal_with_fuel(pow256, 3);
        }
    }
    let room = u64::MAX - phoff;
    if i > 0 && entsize > room / i {
        proof {
            let q = room / i;
            assert(room < i * (q + 1)) by (nonlinear_arith)
                requires
                    i > 0,
                    q == room / i,
            ;
            assert(i * entsize >= i * (q + 1)) by (nonlinear_arith)
                requires
                    i > 0,
                    entsize >= q + 1,
            ;
            assert(phdr_at(img@, i as int) > u64::MAX);
        }
        return None;
    }
    proof {
        if i > 0 {
            let q = room / i;
            assert(i * q <= room) by (nonlinear_arith)
                requires
                    i > 0,
                    q == room / i,
            ;
            assert(i * entsize <= i * q) by (nonlinear_arith)
                requires
                    i > 0,
                    entsize <= q,
            ;
        }
    }
    let p = phoff + i * entsize;
    if p > len || len - p < PHDR_SIZE {
        return None;
    }
    let p = p as usize;
    Some((read_le(img, p, 4), read_le(img, p + 8, 8), read_le(img, p + 24, 8), read_le(img, p + 32, 8)))
}

/// Copies the loadable segments of the ELF64 kernel `img` into `mem` and
/// returns its entry point. An image that is not a well-formed ELF64 file
/// (a bzImage included) is refused before anything is written.
pub fn load_elf_kernel(img: &[u8], mem: &mut GuestMemory) -> (r: Result<u64, BootError>)
    requires
        old(mem).wf(),
    ensures
        final(mem).wf(),
        r == Err::<u64, BootError>(BootError::InvalidKernel) <==> !valid_image(img@),
        r is Ok <==> valid_image(img@) && segments_mapped(old(mem).regions(), img@, phnum(img@)),
        r matches Ok(e) ==> e == entry_point(img@) && final(mem).regions() == loaded(
            old(mem).regions(),
            img@,
            phnum(img@),
        ),
        r matches Err(e) ==> e == BootError::InvalidKernel || e == BootError::Memory(
            MemoryError::OutOfBounds,
        ),
{
    let ghost rs = mem.regions();
    let len = img.len();
    if len < 64 || img[0] != 0x7f || img[1] != 0x45 || img[2] != 0x4c || img[3] != 0x46 || img[4]
        != 2 || img[5] != 1 {
        return Err(BootError::InvalidKernel);
    }
    let entsize = read_le(img, 54, 2);
    let count = read_le(img, 56, 2);
    if entsize < PHDR_SIZE {
        return Err(BootError::InvalidKernel);
    }
    let mut i: u64 = 0;
    while i < count
        invariant
            is_elf64(img@),
            count == phnum(img@),
            entsize == phentsize(img@),
            entsize >= PHDR_SIZE,
            0 <= i <= count,
            len == img@.len(),
            mem.wf(),
            mem.regions() == old(mem).regions(),
            forall|j: int| 0 <= j < i ==> #[trigger] segment_ok(img@, j),
        decreases count - i,
    {
        match read_segment(img, i) {
            None => {
                proof {
                    assert(!segment_ok(img@, i as int));
                }
                return Err(BootError::InvalidKernel);
            },
            Some((kind, offset, _paddr, filesz)) => {
                if kind == PT_LOAD && (offset > len as u64 || filesz > len as u64 - offset) {
                    proof {
                        assert(!segment_ok(img@, i as int));
                    }
                    return Err(BootError::InvalidKernel);
                }
            },
        }
        i = i + 1;
    }
    let mut k: u64 = 0;
    while k < count
        invariant
            valid_image(img@),
            count == phnum(img@),
            0 <= k <= count,
            len == img@.len(),
            rs == old(mem).regions(),
            mem.wf(),
            mem.regions() == loaded(rs, img@, k as nat),
            segments_mapped(rs, img@, k as nat),
        decreases count - k,
    {
        proof {
            assert(segment_ok(img@, k as int));
        }
        let seg = read_segment(img, k);
        if let Some((kind, offset, paddr, filesz)) = seg {
            if kind == PT_LOAD {
                let data = copy_range(img, offset as usize, filesz as usize);
                proof {
                    lemma_loaded_keeps_mapped(rs, img@, k as nat, paddr as int, filesz as int);
                }
                if let Err(e) = mem.write(paddr, data.as_slice()) {
                    proof {
                        assert(!segments_mapped(rs, img@, phnum(img@))) by {
                            assert(segment(img@, k as int).0 == PT_LOAD);
                        }
                    }
                    return Err(BootError::Memory(e));
                }
            }
        }
        k = k + 1;
    }
    Ok(read_le(img, 24, 8))
}

/// The ELF64 kernel `img` and the boot data of `config` can be loaded into
/// memory regions `rs`.
pub open spec fn kernel_loads(
    img: Seq<u8>,
    config: &X86BootLoaderConfig,
    rs: Seq<(u64, Seq<u8>)>,
) -> bool {
    let after = loaded(rs, img, phnum(img));
    &&& valid_image(img)
    &&& segments_mapped(rs, img, phnum(img))
    &&& boot_params_ok(config, after)
    &&& boot_tables_mapped(after)
}

/// The boot layout of kernel `img` with the boot data of `config`, loaded
/// into memory regions `rs`.
pub open spec fn kernel_layout_spec(
    img: Seq<u8>,
    config: &X86BootLoaderConfig,
    rs: Seq<(u64, Seq<u8>)>,
) -> X86BootLayout {
    let after = loaded(rs, img, phnum(img));
    X86BootLayout {
        kernel_start: entry_point(img) as u64,
        kernel_sp: BOOT_LOADER_SP,
        zero_page_addr: ZERO_PAGE_START,
        initrd_start: ramdisk_spec(config.initrd_size, mem_end_of(after) as u64).0 as u64,
        segments: boot_segments_spec(),
        boot_pml4_addr: PML4_START,
    }
}

/// Loads the ELF64 kernel `img` and writes the boot data of `config`: the
/// whole boot layout of an x86 guest.
pub fn load_kernel(img: &[u8], config: &X86BootLoaderConfig, mem: &mut GuestMemory) -> (r: Result<
    X86BootLayout,
    BootError,
>)
    requires
        old(mem).wf(),
    ensures
        final(mem).wf(),
        ({
            let after = loaded(old(mem).regions(), img@, phnum(img@));
            &&& (r is Ok <==> kernel_loads(img@, config, old(mem).regions()))
            &&& (r matches Ok(l) ==> l == kernel_layout_spec(img@, config, old(mem).regions()))
            &&& (r is Ok ==> final(mem).regions() == boot_data_written(config, after))
            &&& (r == Err::<X86BootLayout, BootError>(BootError::InvalidKernel) <==> !valid_image(
                img@,
            ))
        }),
{
    let entry = match load_elf_kernel(img, mem) {
        Ok(e) => e,
        Err(e) => {
            return Err(e);
        },
    };
    load_boot_layout(config, entry, mem)
}

} // verus!
