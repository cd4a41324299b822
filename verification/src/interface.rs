//! Device-side bookkeeping of NPU memory: the descriptor of an allocation,
//! bounded writes into its mapping, and the set of allocations that a device
//! still has to release.
use vstd::prelude::*;
use std::io;

verus! {

/// `std::io::Error`, the error of the device operations.
#[verifier::external_type_specification]
#[verifier::external_body]
pub struct ExIoError(io::Error);

/// `std::io::ErrorKind`, the category of an I/O error. Its variants carry no
/// fields, so Verus reads them and contracts can name a category.
#[verifier::external_type_specification]
pub struct ExIoErrorKind(io::ErrorKind);

/// The category of an error: what `io::Error::kind` returns for it.
pub uninterp spec fn io_error_kind(e: io::Error) -> io::ErrorKind;

/// `io::Error::kind`.
///
/// Trusted: it returns the error's category, named `io_error_kind`.
pub assume_specification[ io::Error::kind ](e: &io::Error) -> (k: io::ErrorKind)
    ensures
        k == io_error_kind(*e),
;

/// `io::Error::new(io::ErrorKind::InvalidInput, "Data size exceeds allocated memory size")`.
///
/// Trusted: std documents that `io::Error::new` creates an error of the given
/// kind, which `io::Error::kind` then returns; its message is not stated.
#[verifier::external_body]
fn data_exceeds_size_error() -> (e: io::Error)
    ensures
        io_error_kind(e) == io::ErrorKind::InvalidInput,
{
    io::Error::new(io::ErrorKind::InvalidInput, "Data size exceeds allocated memory size")
}

/// Represents allocated NPU memory: its size, its driver handle and object
/// address, and the DMA address that the NPU sees.
pub struct NpuMemory {
    size: usize,
    handle: u32,
    obj_addr: u64,
    dma_addr: u64,
}

impl NpuMemory {
    /// The descriptor of an allocation of `size` bytes that the driver
    /// created with `handle`, `obj_addr` and `dma_addr`.
    pub fn new(size: usize, handle: u32, obj_addr: u64, dma_addr: u64) -> (m: Self)
        ensures
            m.spec_size() == size,
            m.spec_handle() == handle,
            m.spec_obj_addr() == obj_addr,
            m.spec_dma_addr() == dma_addr,
    {
        NpuMemory { size, handle, obj_addr, dma_addr }
    }

    pub closed spec fn spec_size(&self) -> usize {
        self.size
    }

    pub closed spec fn spec_handle(&self) -> u32 {
        self.handle
    }

    pub closed spec fn spec_obj_addr(&self) -> u64 {
        self.obj_addr
    }

    pub closed spec fn spec_dma_addr(&self) -> u64 {
        self.dma_addr
    }

    /// Get the size of the allocation.
    pub fn size(&self) -> (s: usize)
        ensures
            s == self.spec_size(),
    {
        self.size
    }

    /// Get the memory handle.
    pub fn handle(&self) -> (h: u32)
        ensures
            h == self.spec_handle(),
    {
        self.handle
    }

    /// Get the object address.
    pub fn obj_addr(&self) -> (a: u64)
        ensures
            a == self.spec_obj_addr(),
    {
        self.obj_addr
    }

    /// Get the DMA address.
    pub fn dma_addr(&self) -> (a: u64)
        ensures
            a == self.spec_dma_addr(),
    {
        self.dma_addr
    }

    /// Write `data` to the start of the memory, whose mapping is `mapped`.
    ///
    /// Fails, writing nothing, when `data` is longer than the allocation;
    /// otherwise the first `data.len()` bytes become `data` and the rest of
    /// the memory is unchanged.
    pub fn write(&self, mapped: &mut [u8], data: &[u8]) -> (r: io::Result<()>)
        requires
            old(mapped)@.len() == self.spec_size(),
        ensures
            r is Err <==> data@.len() > self.spec_size(),
            r is Err ==> final(mapped)@ == old(mapped)@,
            match r {
                Err(e) => io_error_kind(e) == io::ErrorKind::InvalidInput,
                Ok(_) => true,
            },
            r is Ok ==> final(mapped)@ == data@ + old(mapped)@.subrange(
                data@.len() as int,
                old(mapped)@.len() as int,
            ),
    {
        if data.len() > self.size {
            return Err(data_exceeds_size_error());
        }
        let ghost before = mapped@;
        let mut i: usize = 0;
        while i < data.len()
            invariant
                i <= data@.len() <= mapped@.len(),
                mapped@.len() == before.len(),
                forall|j: int| 0 <= j < i ==> mapped@[j] == data@[j],
                forall|j: int| i <= j < mapped@.len() ==> mapped@[j] == before[j],
            decreases data@.len() - i,
        {
            mapped[i] = data[i];
            i = i + 1;
        }
        assert(mapped@ =~= data@ + before.subrange(data@.len() as int, before.len() as int));
        Ok(())
    }
}

/// The allocations (driver handle and object address) that a device has
/// made and not yet destroyed; each is recorded once.
pub struct AllocationSet {
    entries: Vec<(u32, u64)>,
}

impl View for AllocationSet {
    type V = Set<(u32, u64)>;

    closed spec fn view(&self) -> Set<(u32, u64)> {
        self.entries@.to_set()
    }
}

impl AllocationSet {
    /// No allocation is recorded twice.
    pub closed spec fn wf(&self) -> bool {
        self.entries@.no_duplicates()
    }

    /// The number of recorded allocations.
    pub closed spec fn spec_len(&self) -> nat {
        self.entries@.len()
    }

    /// No allocation recorded.
    pub fn new() -> (s: Self)
        ensures
            s.wf(),
            s@ == Set::<(u32, u64)>::empty(),
    {
        let s = AllocationSet { entries: Vec::new() };
        assert(s@ =~= Set::<(u32, u64)>::empty());
        s
    }

    /// Whether `(handle, obj_addr)` is recorded.
    pub fn contains(&self, handle: u32, obj_addr: u64) -> (b: bool)
        ensures
            b == self@.contains((handle, obj_addr)),
    {
        let mut i: usize = 0;
        while i < self.entries.len()
            invariant
                i <= self.entries@.len(),
                forall|j: int| 0 <= j < i ==> self.entries@[j] != (handle, obj_addr),
            decreases self.entries@.len() - i,
        {
            let (h, a) = self.entries[i];
            if h == handle && a == obj_addr {
                assert(self.entries@.contains((handle, obj_addr)));
                return true;
            }
            i = i + 1;
        }
        proof {
            if self@.contains((handle, obj_addr)) {
                let j = choose|j: int| 0 <= j < self.entries@.len() && self.entries@[j] == (handle, obj_addr);
                assert(self.entries@[j] != (handle, obj_addr));
            }
        }
        false
    }

    /// Record the allocation `(handle, obj_addr)`.
    pub fn insert(&mut self, handle: u32, obj_addr: u64)
        requires
            old(self).wf(),
        ensures
            final(self).wf(),
            final(self)@ == old(self)@.insert((handle, obj_addr)),
    {
        if !self.contains(handle, obj_addr) {
            let ghost before = self.entries@;
            self.entries.push((handle, obj_addr));
            proof {
                let x = (handle, obj_addr);
                assert(self.entries@ == before.push(x));
                assert(!before.contains(x));
                assert forall|i: int, j: int| 0 <= i < j < self.entries@.len() implies self.entries@[i]
                    != self.entries@[j] by {
                    if j == before.len() {
                        assert(before[i] != x);
                    }
                }
                assert forall|y: (u32, u64)| self.entries@.contains(y) <==> before.contains(y) || y == x by {
                    if self.entries@.contains(y) && y != x {
                        let k = choose|k: int| 0 <= k < self.entries@.len() && self.entries@[k] == y;
                        assert(before[k] == y);
                    }
                    if before.contains(y) {
                        let k = choose|k: int| 0 <= k < before.len() && before[k] == y;
                        assert(self.entries@[k] == y);
                    }
                    if y == x {
                        assert(self.entries@[before.len() as int] == y);
                    }
                }
                assert(self.entries@.to_set() =~= before.to_set().insert(x));
            }
        } else {
            assert(self@ =~= self@.insert((handle, obj_addr)));
        }
    }

    /// Forget the allocation `(handle, obj_addr)`.
    pub fn remove(&mut self, handle: u32, obj_addr: u64)
        requires
            old(self).wf(),
        ensures
            final(self).wf(),
            final(self)@ == old(self)@.remove((handle, obj_addr)),
    {
        let ghost before = self.entries@;
        let mut kept: Vec<(u32, u64)> = Vec::new();
        let mut i: usize = 0;
        while i < self.entries.len()
            invariant
                i <= self.entries@.len(),
                self.entries@ == before,
                before.no_duplicates(),
                kept@.no_duplicates(),
                forall|x: (u32, u64)| kept@.contains(x) <==> (exists|j: int| 0 <= j < i && before[j] == x
                    && x != (handle, obj_addr)),
            decreases self.entries@.len() - i,
        {
            let e = self.entries[i];
            if !(e.0 == handle && e.1 == obj_addr) {
                proof {
                    assert(!kept@.contains(e)) by {
                        if kept@.contains(e) {
                            let j = choose|j: int| 0 <= j < i && before[j] == e && e != (handle, obj_addr);
                            assert(before[j] == before[i as int]);
                        }
                    }
                }
                let ghost old_kept = kept@;
                kept.push(e);
                proof {
                    assert forall|x: (u32, u64)| kept@.contains(x) <==> (exists|j: int| 0 <= j < i + 1
                        && before[j] == x && x != (handle, obj_addr)) by {
                        if kept@.contains(x) && x != e {
                            assert(old_kept.contains(x)) by {
                                let k = choose|k: int| 0 <= k < kept@.len() && kept@[k] == x;
                                assert(k < old_kept.len());
                                assert(old_kept[k] == x);
                            }
                        }
                        if x == e {
                            assert(kept@[kept@.len() - 1] == x);
                            assert(before[i as int] == x);
                        }
                        if (exists|j: int| 0 <= j < i && before[j] == x && x != (handle, obj_addr)) {
                            assert(old_kept.contains(x));
                            let k = choose|k: int| 0 <= k < old_kept.len() && old_kept[k] == x;
                            assert(kept@[k] == x);
                        }
                    }
                }
            } else {
                proof {
                    assert forall|x: (u32, u64)| kept@.contains(x) <==> (exists|j: int| 0 <= j < i + 1
                        && before[j] == x && x != (handle, obj_addr)) by {
                        if (exists|j: int| 0 <= j < i + 1 && before[j] == x && x != (handle, obj_addr)) {
                            let j = choose|j: int| 0 <= j < i + 1 && before[j] == x && x != (handle, obj_addr);
                            assert(j < i);
                        }
                    }
                }
            }
            i = i + 1;
        }
        self.entries = kept;
        assert(self@ =~= before.to_set().remove((handle, obj_addr))) by {
            assert forall|x: (u32, u64)| self@.contains(x) <==> before.to_set().remove((handle, obj_addr)).contains(x) by {
                if before.to_set().remove((handle, obj_addr)).contains(x) {
                    let j = choose|j: int| 0 <= j < before.len() && before[j] == x;
                }
            }
        }
    }

    /// The recorded allocations, each once.
    pub fn to_vec(&self) -> (v: Vec<(u32, u64)>)
        requires
            self.wf(),
        ensures
            v@.to_set() == self@,
            v@.no_duplicates(),
            v@.len() == self.spec_len(),
    {
        let mut v: Vec<(u32, u64)> = Vec::new();
        let mut i: usize = 0;
        while i < self.entries.len()
            invariant
                i <= self.entries@.len(),
                v@ == self.entries@.subrange(0, i as int),
            decreases self.entries@.len() - i,
        {
            let (h, a) = self.entries[i];
            v.push((h, a));
            i = i + 1;
        }
        assert(v@ =~= self.entries@);
        v
    }
}

/// Law of the allocation set: after recording an allocation it is recorded;
/// after forgetting it, it is not; and doing either leaves every other
/// allocation as it was.
pub proof fn lemma_allocation_set_record_forget(s: Set<(u32, u64)>, a: (u32, u64), b: (u32, u64))
    requires
        a != b,
    ensures
        s.insert(a).contains(a),
        !s.remove(a).contains(a),
        s.insert(a).contains(b) == s.contains(b),
        s.remove(a).contains(b) == s.contains(b),
{
}

} // verus!
