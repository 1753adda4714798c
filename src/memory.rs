//! Guest physical memory: RAM regions placed in a container of fixed size,
//! with bounds-checked reads and writes.

use vstd::prelude::*;

use crate::bytes::put;

verus! {

/// Why a guest memory operation failed.
#[derive(Clone, Copy, Debug, PartialEq, Eq, Structural)]
pub enum MemoryError {
    /// The new region overlaps a region already placed.
    Overlap,
    /// The new region does not fit in the container.
    OutOfRange,
    /// The accessed range does not lie within one RAM region.
    OutOfBounds,
}

/// A RAM region: its guest physical base and the bytes that back it.
pub struct RamRegion {
    base: u64,
    data: Vec<u8>,
}

/// A container of `size` bytes of guest physical address space, holding RAM
/// regions sorted by base address that do not overlap.
pub struct GuestMemory {
    size: u64,
    regions: Vec<RamRegion>,
}

/// `n` zero bytes.
pub open spec fn zeros(n: nat) -> Seq<u8> {
    Seq::new(n, |i: int| 0u8)
}

/// End (exclusive) of a region `(base, bytes)`.
pub open spec fn region_end(r: (u64, Seq<u8>)) -> int {
    r.0 + r.1.len()
}

/// Region `r` holds the whole range `[addr, addr + len)`.
pub open spec fn covers(r: (u64, Seq<u8>), addr: int, len: int) -> bool {
    r.0 <= addr && addr + len <= region_end(r)
}

/// The region `[base, base + len)` shares no byte with `r`.
pub open spec fn disjoint(r: (u64, Seq<u8>), base: int, len: int) -> bool {
    region_end(r) <= base || base + len <= r.0
}

/// The bytes of the RAM regions of `rs`, summed.
pub open spec fn total_len(rs: Seq<(u64, Seq<u8>)>) -> int
    decreases rs.len(),
{
    if rs.len() == 0 {
        0
    } else {
        total_len(rs.drop_last()) + rs.last().1.len()
    }
}

/// `rs` with `bytes` written at `addr` into the region that covers it.
pub open spec fn write_spec(rs: Seq<(u64, Seq<u8>)>, addr: int, bytes: Seq<u8>) -> Seq<
    (u64, Seq<u8>),
> {
    Seq::new(
        rs.len(),
        |i: int|
            if covers(rs[i], addr, bytes.len() as int) {
                (rs[i].0, put(rs[i].1, addr - rs[i].0, bytes))
            } else {
                rs[i]
            },
    )
}

impl GuestMemory {
    /// The RAM regions as `(base, bytes)`, by ascending base.
    pub closed spec fn regions(&self) -> Seq<(u64, Seq<u8>)> {
        self.regions@.map_values(|r: RamRegion| (r.base, r.data@))
    }

    /// Size of the container.
    pub closed spec fn container_size(&self) -> u64 {
        self.size
    }

    pub open spec fn wf(&self) -> bool {
        &&& forall|i: int|
            0 <= i < self.regions().len() ==> region_end(#[trigger] self.regions()[i])
                <= self.container_size()
        &&& forall|i: int, j: int|
            #![trigger self.regions()[i], self.regions()[j]]
            0 <= i < j < self.regions().len() ==> region_end(self.regions()[i])
                <= self.regions()[j].0
    }

    /// An empty container of `size` bytes.
    pub fn new(size: u64) -> (r: Self)
        ensures
            r.wf(),
            r.container_size() == size,
            r.regions() == Seq::<(u64, Seq<u8>)>::empty(),
    {
        let r = GuestMemory { size, regions: Vec::new() };
        proof {
            assert(r.regions() =~= Seq::<(u64, Seq<u8>)>::empty());
        }
        r
    }

    /// Whether region `k` ends at or before `addr`.
    fn region_ends_by(&self, k: usize, addr: u64) -> (r: bool)
        requires
            k < self.regions().len(),
        ensures
            r == (region_end(self.regions()[k as int]) <= addr),
    {
        let r = &self.regions[k];
        proof {
            assert(self.regions()[k as int] == (r.base, r.data@));
        }
        r.data.len() as u64 <= addr && r.base <= addr - r.data.len() as u64
    }

    /// Places a zero-filled RAM region of `size` bytes at `base`.
    pub fn add_ram_region(&mut self, base: u64, size: usize) -> (r: Result<(), MemoryError>)
        requires
            old(self).wf(),
        ensures
            final(self).wf(),
            final(self).container_size() == old(self).container_size(),
            r matches Err(MemoryError::OutOfRange) <==> base + size > old(self).container_size(),
            r matches Err(MemoryError::Overlap) <==> base + size <= old(self).container_size()
                && exists|i: int|
                0 <= i < old(self).regions().len() && !disjoint(
                    #[trigger] old(self).regions()[i],
                    base as int,
                    size as int,
                ),
            r is Ok <==> base + size <= old(self).container_size() && forall|i: int|
                0 <= i < old(self).regions().len() ==> disjoint(
                    #[trigger] old(self).regions()[i],
                    base as int,
                    size as int,
                ),
            r is Err ==> final(self).regions() == old(self).regions(),
            r is Ok ==> exists|k: int|
                0 <= k <= old(self).regions().len() && final(self).regions() == #[trigger] old(
                    self,
                ).regions().insert(k, (base, zeros(size as nat))),
    {
        let ghost rs = self.regions();
        if size as u64 > self.size || base > self.size - size as u64 {
            return Err(MemoryError::OutOfRange);
        }
        let end = base + size as u64;
        let mut k: usize = 0;
        while k < self.regions.len() && self.region_ends_by(k, base)
            invariant
                self.wf(),
                self.regions() == rs,
                0 <= k <= rs.len(),
                forall|i: int| 0 <= i < k ==> region_end(#[trigger] rs[i]) <= base,
            decreases rs.len() - k,
        {
            k = k + 1;
        }
        if k < self.regions.len() {
            let r = &self.regions[k];
            proof {
                assert(rs[k as int] == (r.base, r.data@));
            }
            if end > r.base {
                proof {
                    assert(!disjoint(rs[k as int], base as int, size as int));
                }
                return Err(MemoryError::Overlap);
            }
        }
        proof {
            assert forall|i: int| 0 <= i < rs.len() implies disjoint(
                #[trigger] rs[i],
                base as int,
                size as int,
            ) by {
                if i >= k {
                    assert(rs[k as int].0 <= rs[i].0) by {
                        if i > k {
                            assert(region_end(rs[k as int]) <= rs[i].0);
                        }
                    }
                }
            }
        }
        let data: Vec<u8> = vec![0u8; size];
        let ghost z = zeros(size as nat);
        proof {
            assert forall|i: int| 0 <= i < size implies data@[i] == z[i] by {
                assert(cloned(0u8, data@[i]));
            }
            assert(data@ =~= z);
        }
        self.regions.insert(k, RamRegion { base, data });
        proof {
            assert(self.regions() =~= rs.insert(k as int, (base, z)));
        }
        Ok(())
    }

    /// The number of RAM regions.
    pub fn region_count(&self) -> (r: usize)
        ensures
            r == self.regions().len(),
    {
        self.regions.len()
    }

    /// The base address of region `i`.
    pub fn region_base(&self, i: usize) -> (r: u64)
        requires
            i < self.regions().len(),
        ensures
            r == self.regions()[i as int].0,
    {
        self.regions[i].base
    }

    /// The bytes backing region `i`, for the host mapping through which the
    /// guest reaches them. A slice keeps its length, so the region keeps its
    /// place and size and takes the bytes the slice ends with.
    pub fn region_bytes_mut(&mut self, i: usize) -> (r: &mut [u8])
        requires
            old(self).wf(),
            i < old(self).regions().len(),
        ensures
            r@ == old(self).regions()[i as int].1,
            final(r)@.len() == r@.len() ==> final(self).regions() == old(self).regions().update(
                i as int,
                (old(self).regions()[i as int].0, final(r)@),
            ),
            final(self).container_size() == old(self).container_size(),
    {
        self.regions[i].data.as_mut_slice()
    }

    /// The index of the region that holds `[addr, addr + len)`, if any.
    fn find_region(&self, addr: u64, len: u64) -> (r: Option<usize>)
        requires
            self.wf(),
        ensures
            r matches Some(i) ==> i < self.regions().len() && covers(
                self.regions()[i as int],
                addr as int,
                len as int,
            ),
            r is None ==> forall|i: int|
                0 <= i < self.regions().len() ==> !covers(
                    #[trigger] self.regions()[i],
                    addr as int,
                    len as int,
                ),
    {
        let mut k: usize = 0;
        while k < self.regions.len()
            invariant
                0 <= k <= self.regions().len(),
                forall|i: int|
                    0 <= i < k ==> !covers(#[trigger] self.regions()[i], addr as int, len as int),
            decreases self.regions().len() - k,
        {
            let r = &self.regions[k];
            proof {
                assert(self.regions()[k as int] == (r.base, r.data@));
            }
            let n = r.data.len() as u64;
            if r.base <= addr && addr - r.base <= n && len <= n - (addr - r.base) {
                return Some(k);
            }
            k = k + 1;
        }
        None
    }

    /// Reads `len` bytes at `addr`; they must lie within one RAM region.
    pub fn read(&self, addr: u64, len: u64) -> (r: Result<Vec<u8>, MemoryError>)
        requires
            self.wf(),
        ensures
            r is Ok <==> exists|i: int|
                0 <= i < self.regions().len() && covers(
                    #[trigger] self.regions()[i],
                    addr as int,
                    len as int,
                ),
            forall|i: int|
                0 <= i < self.regions().len() && covers(
                    #[trigger] self.regions()[i],
                    addr as int,
                    len as int,
                ) ==> (r matches Ok(v) && v@ == self.regions()[i].1.subrange(
                    addr - self.regions()[i].0,
                    addr - self.regions()[i].0 + len,
                )),
            r is Err ==> r == Err::<Vec<u8>, MemoryError>(MemoryError::OutOfBounds),
    {
        match self.find_region(addr, len) {
            None => Err(MemoryError::OutOfBounds),
            Some(k) => {
                let region = &self.regions[k];
                proof {
                    assert(self.regions()[k as int] == (region.base, region.data@));
                    self.lemma_covering_region_unique(k as int, addr as int, len as int);
                }
                let off = (addr - region.base) as usize;
                let _dl = region.data.len();
                let n = len as usize;
                let mut out: Vec<u8> = Vec::new();
                let mut j: usize = 0;
                while j < n
                    invariant
                        n == len,
                        region.data@.len() <= usize::MAX,
                        0 <= j <= len,
                        off + len <= region.data@.len(),
                        out@ == region.data@.subrange(off as int, off + j),
                    decreases len - j,
                {
                    out.push(region.data[off + j]);
                    j = j + 1;
                    proof {
                        assert(out@ =~= region.data@.subrange(off as int, off + j));
                    }
                }
                Ok(out)
            },
        }
    }

    /// At most one region holds a non-empty range, and a region that holds an
    /// empty range at its own end holds no other.
    proof fn lemma_covering_region_unique(&self, k: int, addr: int, len: int)
        requires
            self.wf(),
            0 <= k < self.regions().len(),
            covers(self.regions()[k], addr, len),
            len >= 0,
        ensures
            forall|i: int|
                0 <= i < self.regions().len() && covers(#[trigger] self.regions()[i], addr, len)
                    ==> self.regions()[i].1.subrange(
                    addr - self.regions()[i].0,
                    addr - self.regions()[i].0 + len,
                ) == self.regions()[k].1.subrange(
                    addr - self.regions()[k].0,
                    addr - self.regions()[k].0 + len,
                ),
    {
        assert forall|i: int|
            0 <= i < self.regions().len() && covers(
                #[trigger] self.regions()[i],
                addr,
                len,
            ) implies self.regions()[i].1.subrange(
            addr - self.regions()[i].0,
            addr - self.regions()[i].0 + len,
        ) == self.regions()[k].1.subrange(
            addr - self.regions()[k].0,
            addr - self.regions()[k].0 + len,
        ) by {
            if i != k {
                // two distinct regions hold the range only when it is empty
                assert(len == 0);
                assert(self.regions()[i].1.subrange(
                    addr - self.regions()[i].0,
                    addr - self.regions()[i].0 + len,
                ) =~= Seq::<u8>::empty());
                assert(self.regions()[k].1.subrange(
                    addr - self.regions()[k].0,
                    addr - self.regions()[k].0 + len,
                ) =~= Seq::<u8>::empty());
            }
        }
    }

    /// Writes `bytes` at `addr`; they must fit within one RAM region.
    pub fn write(&mut self, addr: u64, bytes: &[u8]) -> (r: Result<(), MemoryError>)
        requires
            old(self).wf(),
        ensures
            final(self).wf(),
            final(self).container_size() == old(self).container_size(),
            r is Ok <==> exists|i: int|
                0 <= i < old(self).regions().len() && covers(
                    #[trigger] old(self).regions()[i],
                    addr as int,
                    bytes@.len() as int,
                ),
            r is Ok ==> final(self).regions() == write_spec(
                old(self).regions(),
                addr as int,
                bytes@,
            ),
            r is Err ==> final(self).regions() == old(self).regions() && r == Err::<
                (),
                MemoryError,
            >(MemoryError::OutOfBounds),
    {
        let len = bytes.len() as u64;
        match self.find_region(addr, len) {
            None => Err(MemoryError::OutOfBounds),
            Some(k) => {
                let ghost rs = self.regions();
                let base = self.regions[k].base;
                let dl = self.regions[k].data.len();
                proof {
                    assert(rs[k as int] == (base, self.regions@[k as int].data@));
                    assert(addr - base <= dl);
                }
                let off = (addr - base) as usize;
                let ghost old_v = self.regions@;
                proof {
                    assert forall|i: int|
                        0 <= i < rs.len() && i != k && covers(
                            #[trigger] rs[i],
                            addr as int,
                            bytes@.len() as int,
                        ) implies bytes@.len() == 0 by {
                        if i < k {
                            assert(region_end(self.regions()[i]) <= self.regions()[k as int].0);
                        } else {
                            assert(region_end(self.regions()[k as int]) <= self.regions()[i].0);
                        }
                    }
                }
                copy_into(&mut self.regions[k].data, off, bytes);
                proof {
                    let w = write_spec(rs, addr as int, bytes@);
                    assert(self.regions@.len() == old_v.len());
                    assert(self.regions@[k as int].base == base);
                    assert(self.regions@[k as int].data@ == put(rs[k as int].1, off as int, bytes@));
                    assert(forall|i: int| 0 <= i < rs.len() && i != k ==> self.regions@[i] == old_v[i]);
                    assert forall|i: int| 0 <= i < rs.len() implies #[trigger] self.regions()[i]
                        == w[i] by {
                        assert(self.regions()[i] == (self.regions@[i].base, self.regions@[i].data@));
                        assert(rs[i] == (old_v[i].base, old_v[i].data@));
                        if i == k {
                            assert(off == addr - rs[i].0);
                        } else if covers(rs[i], addr as int, bytes@.len() as int) {
                            assert(bytes@.len() == 0);
                            assert(put(rs[i].1, addr - rs[i].0, bytes@) =~= rs[i].1);
                        }
                    }
                    assert(self.regions() =~= w);
                }
                Ok(())
            },
        }
    }

    /// The end of the highest RAM region, or 0 where there is none.
    pub fn memory_end_address(&self) -> (r: u64)
        requires
            self.wf(),
        ensures
            self.regions().len() == 0 ==> r == 0,
            self.regions().len() > 0 ==> r == region_end(self.regions().last()),
    {
        let n = self.regions.len();
        if n == 0 {
            0
        } else {
            let r = &self.regions[n - 1];
            proof {
                assert(self.regions()[n - 1] == (r.base, r.data@));
            }
            r.base + r.data.len() as u64
        }
    }

    /// The number of bytes of RAM, over all regions.
    pub fn ram_size(&self) -> (r: u64)
        requires
            self.wf(),
        ensures
            r == total_len(self.regions()),
    {
        let mut acc: u64 = 0;
        let mut k: usize = 0;
        while k < self.regions.len()
            invariant
                self.wf(),
                0 <= k <= self.regions().len(),
                acc == total_len(self.regions().take(k as int)),
                k > 0 ==> acc <= region_end(self.regions()[k - 1]),
            decreases self.regions().len() - k,
        {
            let r = &self.regions[k];
            proof {
                assert(self.regions()[k as int] == (r.base, r.data@));
                assert(self.regions().take(k + 1).drop_last() =~= self.regions().take(k as int));
            }
            acc = acc + r.data.len() as u64;
            k = k + 1;
        }
        proof {
            assert(self.regions().take(k as int) =~= self.regions());
        }
        acc
    }
}

/// Copies `src` into `dst` from `off` on.
fn copy_into(dst: &mut Vec<u8>, off: usize, src: &[u8])
    requires
        off + src@.len() <= old(dst)@.len(),
    ensures
        final(dst)@ == put(old(dst)@, off as int, src@),
{
    let _dl = dst.len();
    let mut j: usize = 0;
    while j < src.len()
        invariant
            dst@.len() <= usize::MAX,
            0 <= j <= src@.len(),
            dst@.len() == old(dst)@.len(),
            off + src@.len() <= dst@.len(),
            dst@ == put(old(dst)@, off as int, src@.take(j as int)),
        decreases src@.len() - j,
    {
        dst.set(off + j, src[j]);
        j = j + 1;
        proof {
            assert(dst@ =~= put(old(dst)@, off as int, src@.take(j as int)));
        }
    }
    proof {
        assert(src@.take(j as int) =~= src@);
    }
}

} // verus!
