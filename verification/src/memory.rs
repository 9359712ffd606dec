//! Guest memory: one flat buffer, of which ranges are mapped.
use vstd::prelude::*;
use vstd::slice::slice_subrange;

verus! {

/// How the buffer is laid out.
#[derive(Copy, Clone, Debug)]
pub enum MemoryModel {
    /// `size` bytes from guest address 0 on.
    Flat { size: usize },
}

/// What guest code may do with a range.
#[derive(Copy, Clone, PartialEq, Eq, Structural, Debug)]
pub enum Prot {
    R,
    RW,
    RX,
    RWX,
}

/// What is behind a range.
#[derive(Copy, Clone, PartialEq, Eq, Structural, Debug)]
pub enum RegionKind {
    Ram,
    /// Accesses trap to the embedder.
    Trap,
}

/// A mapped range of guest addresses.
#[derive(Copy, Clone, Debug)]
pub struct Region {
    pub base: u64,
    pub len: u64,
    pub prot: Prot,
    pub kind: RegionKind,
}

impl Region {
    /// Whether the address lies in the region.
    pub open spec fn holds(self, a: int) -> bool {
        self.base <= a < self.base + self.len
    }

    /// Whether `len` bytes at `addr` lie in the region.
    pub open spec fn spans(self, addr: u64, len: int) -> bool {
        self.base <= addr && addr + len <= self.base + self.len
    }

    /// Whether the two ranges share an address.
    pub open spec fn overlaps(self, base: u64, len: u64) -> bool {
        self.base < base + len && base < self.base + self.len
    }
}

/// Why memory refuses.
#[derive(Copy, Clone, PartialEq, Eq, Structural, Debug)]
pub enum MemError {
    /// The range is empty or leaves the buffer.
    OutOfRange,
    /// Part of the range is mapped already.
    Overlap,
    /// The range is not mapped, or not as RAM.
    Unmapped,
}

/// Guest memory.
pub struct Memory {
    ram: Vec<u8>,
    guest_base: u64,
    regions: Vec<Region>,
}

impl Memory {
    /// The bytes of the buffer.
    pub closed spec fn bytes(&self) -> Seq<u8> {
        self.ram@
    }

    /// The guest address of the first byte.
    pub closed spec fn spec_guest_base(&self) -> u64 {
        self.guest_base
    }

    /// The mapped ranges, in the order they were mapped.
    pub closed spec fn mapped(&self) -> Seq<Region> {
        self.regions@
    }

    /// The buffer ends within the address space, and the mapped ranges are in it, not
    /// empty, and apart from each other.
    pub open spec fn wf(&self) -> bool {
        &&& self.guest_base() + self.bytes().len() <= u64::MAX
        &&& forall|i: int|
            0 <= i < self.mapped().len() ==> {
                let r = #[trigger] self.mapped()[i];
                &&& r.len > 0
                &&& self.guest_base() <= r.base
                &&& r.base + r.len <= self.guest_base() + self.bytes().len()
            }
        &&& forall|i: int, j: int|
            0 <= i < j < self.mapped().len() ==> !(#[trigger] self.mapped()[i]).overlaps(
                (#[trigger] self.mapped()[j]).base,
                self.mapped()[j].len,
            )
    }

    /// The number of the RAM region that holds `len` bytes at `addr`.
    pub open spec fn is_ram_at(&self, i: int, addr: u64, len: int) -> bool {
        &&& 0 <= i < self.mapped().len()
        &&& self.mapped()[i].kind == RegionKind::Ram
        &&& self.mapped()[i].spans(addr, len)
    }

    /// At most `max` bytes of code from `start` on, up to the end of the mapped range;
    /// nothing where no RAM is mapped.
    pub open spec fn code_at(&self, start: u64, max: nat) -> Option<Seq<u8>> {
        if exists|i: int| self.is_ram_at(i, start, 1) {
            let r = self.mapped()[choose|i: int| self.is_ram_at(i, start, 1)];
            let off = start - self.guest_base();
            let rest = r.base + r.len - start;
            Some(
                self.bytes().subrange(
                    off,
                    off + if rest < max {
                        rest
                    } else {
                        max as int
                    },
                ),
            )
        } else {
            None
        }
    }

    /// Memory with nothing mapped, all zero.
    pub fn new(model: MemoryModel) -> (r: Memory)
        ensures
            r.wf(),
            r.bytes() == Seq::new(model->size as nat, |i: int| 0u8),
            r.guest_base() == 0,
            r.mapped() == Seq::<Region>::empty(),
    {
        let MemoryModel::Flat { size } = model;
        let ram: Vec<u8> = vec![0u8; size];
        Memory { ram, guest_base: 0, regions: Vec::new() }
    }

    /// Size of the buffer in bytes.
    pub fn size(&self) -> (r: u64)
        ensures
            r == self.bytes().len(),
    {
        self.ram.len() as u64
    }

    /// The guest address of the first byte of the buffer.
    #[verifier::when_used_as_spec(spec_guest_base)]
    pub fn guest_base(&self) -> (r: u64)
        ensures
            r == self.spec_guest_base(),
    {
        self.guest_base
    }

    /// `Vec::as_ptr` of the buffer: the address in this process at which it lies, as long
    /// as the memory is not changed. Nothing is said of it.
    #[verifier::external_body]
    pub(crate) fn host_base(&self) -> (r: u64) {
        self.ram.as_ptr() as u64
    }

    /// The first RAM region that holds `len` bytes at `addr`.
    fn find_ram(&self, addr: u64, len: usize) -> (r: Option<usize>)
        requires
            self.wf(),
        ensures
            r matches Some(i) ==> self.is_ram_at(i as int, addr, len as int),
            r is None ==> forall|i: int| !self.is_ram_at(i, addr, len as int),
    {
        let mut i: usize = 0;
        while i < self.regions.len()
            invariant
                i <= self.regions.len(),
                self.wf(),
                forall|j: int| 0 <= j < i ==> !self.is_ram_at(j, addr, len as int),
            decreases self.regions.len() - i,
        {
            let r = self.regions[i];
            if r.kind == RegionKind::Ram && r.base <= addr && addr - r.base <= r.len && len as u64
                <= r.len - (addr - r.base) {
                return Some(i);
            }
            i = i + 1;
        }
        None
    }

    /// Maps `len` bytes at `base`.
    pub fn map(&mut self, base: u64, len: u64, prot: Prot, kind: RegionKind) -> (r: Result<
        (),
        MemError,
    >)
        requires
            old(self).wf(),
        ensures
            final(self).wf(),
            final(self).bytes() == old(self).bytes(),
            final(self).guest_base() == old(self).guest_base(),
            r == Err::<(), MemError>(MemError::OutOfRange) <==> (len == 0 || base < old(
                self,
            ).guest_base() || base + len > old(self).guest_base() + old(self).bytes().len()),
            r == Err::<(), MemError>(MemError::Overlap) <==> (r
                != Err::<(), MemError>(MemError::OutOfRange) && exists|i: int|
                0 <= i < old(self).mapped().len() && (#[trigger] old(self).mapped()[i]).overlaps(
                    base,
                    len,
                )),
            r is Ok || r == Err::<(), MemError>(MemError::OutOfRange) || r == Err::<
                (),
                MemError,
            >(MemError::Overlap),
            final(self).mapped() == if r is Ok {
                old(self).mapped().push(Region { base, len, prot, kind })
            } else {
                old(self).mapped()
            },
    {
        let end: u64 = self.guest_base + self.ram.len() as u64;
        if len == 0 || base < self.guest_base || base > end || len > end - base {
            return Err(MemError::OutOfRange);
        }
        let mut i: usize = 0;
        while i < self.regions.len()
            invariant
                i <= self.regions.len(),
                self.wf(),
                *self == *old(self),
                len > 0,
                self.guest_base() <= base,
                base + len <= self.guest_base() + self.bytes().len(),
                forall|j: int| 0 <= j < i ==> !(#[trigger] self.mapped()[j]).overlaps(base, len),
            decreases self.regions.len() - i,
        {
            let r = self.regions[i];
            if r.base < base + len && base < r.base + r.len {
                return Err(MemError::Overlap);
            }
            i = i + 1;
        }
        self.regions.push(Region { base, len, prot, kind });
        Ok(())
    }

    /// Copies bytes into mapped RAM; the range must lie in one region.
    pub fn write_bytes(&mut self, addr: u64, data: &[u8]) -> (r: Result<(), MemError>)
        requires
            old(self).wf(),
        ensures
            final(self).wf(),
            final(self).mapped() == old(self).mapped(),
            final(self).guest_base() == old(self).guest_base(),
            r is Ok <==> exists|i: int| old(self).is_ram_at(i, addr, data@.len() as int),
            r matches Err(e) ==> e == MemError::Unmapped,
            final(self).bytes() == if r is Ok {
                let off = addr - old(self).guest_base();
                old(self).bytes().take(off) + data@ + old(self).bytes().skip(off + data@.len())
            } else {
                old(self).bytes()
            },
    {
        if self.find_ram(addr, data.len()).is_none() {
            return Err(MemError::Unmapped);
        }
        let ghost before = self.ram@;
        let size: usize = self.ram.len();
        let off: usize = (addr - self.guest_base) as usize;
        let ghost regions = self.regions@;
        let mut i: usize = 0;
        while i < data.len()
            invariant
                i <= data.len(),
                off + data@.len() <= before.len(),
                before.len() == size,
                self.ram@.len() == before.len(),
                self.regions@ == regions,
                self.guest_base == old(self).guest_base,
                self.ram@ == before.take(off as int) + data@.take(i as int) + before.skip(off + i),
            decreases data.len() - i,
        {
            self.ram.set(off + i, data[i]);
            i = i + 1;
            assert(self.ram@ =~= before.take(off as int) + data@.take(i as int) + before.skip(
                off + i,
            ));
        }
        Ok(())
    }

    /// Code from `start` on: at most `max` bytes, up to the end of the mapped range.
    pub fn code_slice(&self, start: u64, max: usize) -> (r: Result<&[u8], MemError>)
        requires
            self.wf(),
        ensures
            r is Ok <==> self.code_at(start, max as nat) is Some,
            r matches Ok(s) ==> s@ == self.code_at(start, max as nat)->0 && s@.len() <= max,
            r matches Ok(s) ==> start + s@.len() <= u64::MAX,
            r matches Err(e) ==> e == MemError::Unmapped,
    {
        let i: usize = match self.find_ram(start, 1) {
            Some(i) => i,
            None => {
                return Err(MemError::Unmapped);
            },
        };
        let r = self.regions[i];
        proof {
            let k = choose|k: int| self.is_ram_at(k, start, 1);
            assert(k == i);
        }
        let size: usize = self.ram.len();
        let rest: usize = (r.base + r.len - start) as usize;
        let n: usize = if rest < max {
            rest
        } else {
            max
        };
        let off: usize = (start - self.guest_base) as usize;
        Ok(slice_subrange(self.ram.as_slice(), off, off + n))
    }
}

/// A range lies in a region exactly where each of its addresses does, and two ranges overlap
/// exactly where they share an address.
pub proof fn law_ranges(r: Region, base: u64, len: u64)
    requires
        r.len > 0,
        len > 0,
    ensures
        r.spans(base, len as int) <==> forall|a: int|
            base <= a < base + len ==> #[trigger] r.holds(a),
        r.overlaps(base, len) <==> exists|a: int| base <= a < base + len && #[trigger] r.holds(a),
{
    let last: int = base + len - 1;
    let both: int = if r.base > base {
        r.base as int
    } else {
        base as int
    };
    assert(r.holds(base as int) ==> r.base <= base);
    assert(r.holds(last) ==> base + len <= r.base + r.len);
    assert(r.overlaps(base, len) ==> r.holds(both));
}

/// Code is fetched byte by byte from the buffer, within one RAM region, and only there. It ends
/// after `max` bytes or with the region.
pub proof fn law_code_is_memory(mem: &Memory, start: u64, max: nat, i: int)
    requires
        mem.wf(),
        0 <= i < mem.mapped().len(),
        mem.mapped()[i].kind == RegionKind::Ram,
        mem.mapped()[i].base <= start < mem.mapped()[i].base + mem.mapped()[i].len,
    ensures
        ({
            let r = mem.mapped()[i];
            &&& mem.code_at(start, max) matches Some(code)
            &&& code.len() <= max
            &&& start + code.len() <= r.base + r.len
            &&& code.len() == max || start + code.len() == r.base + r.len
            &&& forall|k: int|
                0 <= k < code.len() ==> #[trigger] code[k] == mem.bytes()[start + k
                    - mem.guest_base()]
        }),
{
    assert(mem.is_ram_at(i, start, 1));
    let k = choose|k: int| mem.is_ram_at(k, start, 1);
    assert(k == i);
}

/// There is no code at an address that is not in RAM.
pub proof fn law_no_code_outside_ram(mem: &Memory, start: u64, max: nat)
    requires
        forall|i: int|
            0 <= i < mem.mapped().len() && #[trigger] mem.mapped()[i].kind == RegionKind::Ram
                ==> !(mem.mapped()[i].base <= start < mem.mapped()[i].base + mem.mapped()[i].len),
    ensures
        mem.code_at(start, max) is None,
{
}

/// Code that is written can be fetched again.
pub proof fn law_code_after_write(before: &Memory, after: &Memory, addr: u64, data: Seq<u8>, i: int)
    requires
        before.wf(),
        after.wf(),
        data.len() > 0,
        before.is_ram_at(i, addr, data.len() as int),
        after.mapped() == before.mapped(),
        after.guest_base() == before.guest_base(),
        after.bytes() == before.bytes().take(addr - before.guest_base()) + data
            + before.bytes().skip(addr - before.guest_base() + data.len()),
    ensures
        after.code_at(addr, data.len()) == Some(data),
{
    assert(after.is_ram_at(i, addr, 1));
    let k = choose|k: int| after.is_ram_at(k, addr, 1);
    assert(k == i);
    assert(after.code_at(addr, data.len())->0 =~= data);
}

} // verus!
