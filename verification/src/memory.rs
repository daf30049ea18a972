//! The memory model: a writable view of the target module's bytes, and
//! wildcard-aware signature scanning over it.
//!
//! All raw-pointer work of a live deployment sits behind this boundary: the
//! rest of the crate reads and writes memory only through the checked
//! operations of [`MemoryRegion`].

use vstd::prelude::*;

verus! {

/// A wildcard-aware byte signature used to locate a code site. Each element
/// either requires an exact byte (`Some`) or matches any byte (`None`).
pub struct MemoryPattern {
    elems: Vec<Option<u8>>,
}

/// Does pattern element `e` accept the byte `b`?
pub open spec fn elem_matches(e: Option<u8>, b: u8) -> bool {
    match e {
        Some(x) => b == x,
        None => true,
    }
}

/// Does `pat` match the bytes of `mem` starting at offset `pos`?
pub open spec fn pattern_matches_at(mem: Seq<u8>, pat: Seq<Option<u8>>, pos: int) -> bool {
    &&& 0 <= pos
    &&& pos + pat.len() <= mem.len()
    &&& forall|i: int| 0 <= i < pat.len() ==> elem_matches(pat[i], mem[pos + i])
}

impl View for MemoryPattern {
    type V = Seq<Option<u8>>;

    closed spec fn view(&self) -> Seq<Option<u8>> {
        self.elems@
    }
}

impl MemoryPattern {
    /// Build a pattern from its elements; `None` is a wildcard.
    pub fn new(elems: Vec<Option<u8>>) -> (r: MemoryPattern)
        ensures
            r@ == elems@,
    {
        MemoryPattern { elems }
    }

    /// Total byte length of the signature.
    pub fn size(&self) -> (r: usize)
        ensures
            r == self@.len(),
    {
        self.elems.len()
    }
}

/// The offsets `r` are exactly the offsets of `mem` where `pat` matches,
/// listed in strictly increasing order.
pub open spec fn is_scan_result(mem: Seq<u8>, pat: Seq<Option<u8>>, r: Seq<usize>) -> bool {
    &&& forall|j: int| 0 <= j < r.len() ==> pattern_matches_at(mem, pat, r[j] as int)
    &&& forall|pos: int| pattern_matches_at(mem, pat, pos) ==> r.contains(pos as usize)
    &&& forall|j: int, k: int| 0 <= j < k < r.len() ==> r[j] < r[k]
}

/// The bytes of `mem` with `data` written at offset `addr`.
pub open spec fn spec_write(mem: Seq<u8>, addr: int, data: Seq<u8>) -> Seq<u8> {
    Seq::new(
        mem.len(),
        |i: int|
            if addr <= i < addr + data.len() {
                data[i - addr]
            } else {
                mem[i]
            },
    )
}

/// The bytes of `mem` after the writes in `ws` are performed in order; each
/// write is an offset paired with the data that goes there.
pub open spec fn write_all(mem: Seq<u8>, ws: Seq<(int, Seq<u8>)>) -> Seq<u8>
    decreases ws.len(),
{
    if ws.len() == 0 {
        mem
    } else {
        write_all(spec_write(mem, ws.first().0, ws.first().1), ws.drop_first())
    }
}

/// Writes never change the length of the region.
pub proof fn lemma_write_all_len(mem: Seq<u8>, ws: Seq<(int, Seq<u8>)>)
    ensures
        write_all(mem, ws).len() == mem.len(),
    decreases ws.len(),
{
    if ws.len() > 0 {
        lemma_write_all_len(spec_write(mem, ws.first().0, ws.first().1), ws.drop_first());
    }
}

/// Writing one batch and then another is writing their concatenation.
pub proof fn lemma_write_all_concat(mem: Seq<u8>, a: Seq<(int, Seq<u8>)>, b: Seq<(int, Seq<u8>)>)
    ensures
        write_all(mem, a + b) == write_all(write_all(mem, a), b),
    decreases a.len(),
{
    if a.len() == 0 {
        assert(a + b =~= b);
    } else {
        assert((a + b).first() == a.first());
        assert((a + b).drop_first() =~= a.drop_first() + b);
        lemma_write_all_concat(spec_write(mem, a.first().0, a.first().1), a.drop_first(), b);
    }
}

/// A single-write batch is that write.
pub proof fn lemma_write_all_singleton(mem: Seq<u8>, w: (int, Seq<u8>))
    ensures
        write_all(mem, seq![w]) == spec_write(mem, w.0, w.1),
{
    let s = seq![w];
    assert(s.len() == 1);
    assert(s.first() == w);
    assert(s.drop_first().len() == 0);
    assert(write_all(spec_write(mem, w.0, w.1), s.drop_first()) == spec_write(mem, w.0, w.1));
}

/// Failure to write a span of memory: the span does not lie inside the
/// region, which models a page whose write permission cannot be obtained.
#[derive(Clone, Copy, PartialEq, Eq, Structural, Debug)]
pub struct PermissionError {
    pub address: usize,
    pub len: usize,
}

/// A contiguous, writable view of the target module's bytes. Patches read
/// original bytes from it and write replacement bytes back into it; scans
/// never mutate it.
pub struct MemoryRegion {
    bytes: Vec<u8>,
}

impl View for MemoryRegion {
    type V = Seq<u8>;

    closed spec fn view(&self) -> Seq<u8> {
        self.bytes@
    }
}

impl MemoryRegion {
    /// Wrap a module image.
    pub fn new(bytes: Vec<u8>) -> (r: MemoryRegion)
        ensures
            r@ == bytes@,
    {
        MemoryRegion { bytes }
    }

    /// Length of the region in bytes.
    pub fn len(&self) -> (r: usize)
        ensures
            r == self@.len(),
    {
        self.bytes.len()
    }

    /// Copy `n` bytes starting at `addr` out of the region; `None` if the
    /// span is not fully inside the region.
    pub fn read_bytes(&self, addr: usize, n: usize) -> (r: Option<Vec<u8>>)
        ensures
            match r {
                Some(data) => addr + n <= self@.len() && data@ == self@.subrange(
                    addr as int,
                    addr + n,
                ),
                None => addr + n > self@.len(),
            },
    {
        if n > self.bytes.len() || addr > self.bytes.len() - n {
            return None;
        }
        let region_len = self.bytes.len();
        let mut data: Vec<u8> = Vec::new();
        let mut i: usize = 0;
        while i < n
            invariant
                addr + n <= region_len,
                region_len == self@.len(),
                i <= n,
                data@ == self@.subrange(addr as int, addr + i),
            decreases n - i,
        {
            data.push(self.bytes[addr + i]);
            i += 1;
            proof {
                assert(data@ =~= self@.subrange(addr as int, addr + i));
            }
        }
        Some(data)
    }

    /// Overwrite the span starting at `addr` with `data`; fails, changing
    /// nothing, if the span is not fully inside the region.
    pub fn write_bytes(&mut self, addr: usize, data: &Vec<u8>) -> (r: Result<
        (),
        PermissionError,
    >)
        ensures
            match r {
                Ok(()) => addr + data@.len() <= old(self)@.len() && final(self)@ == spec_write(
                    old(self)@,
                    addr as int,
                    data@,
                ),
                Err(e) => addr + data@.len() > old(self)@.len() && *final(self) == *old(self)
                    && e.address == addr && e.len == data@.len(),
            },
    {
        let n = data.len();
        if n > self.bytes.len() || addr > self.bytes.len() - n {
            return Err(PermissionError { address: addr, len: n });
        }
        let region_len = self.bytes.len();
        let mut i: usize = 0;
        while i < n
            invariant
                addr + n <= region_len,
                region_len == old(self)@.len(),
                i <= n,
                n == data@.len(),
                self@.len() == old(self)@.len(),
                forall|j: int|
                    0 <= j < self@.len() ==> self@[j] == if addr <= j < addr + i {
                        data@[j - addr]
                    } else {
                        old(self)@[j]
                    },
            decreases n - i,
        {
            self.bytes.set(addr + i, data[i]);
            i += 1;
        }
        proof {
            assert(self@ =~= spec_write(old(self)@, addr as int, data@));
        }
        Ok(())
    }

    /// Does `pat` match this region at offset `pos`?
    fn check_match(&self, pat: &MemoryPattern, pos: usize) -> (r: bool)
        requires
            pos + pat@.len() <= self@.len(),
        ensures
            r == pattern_matches_at(self@, pat@, pos as int),
    {
        let psize = pat.elems.len();
        let rlen = self.bytes.len();
        let mut i: usize = 0;
        while i < psize
            invariant
                pos + psize <= rlen,
                rlen == self@.len(),
                psize == pat@.len(),
                i <= psize,
                forall|k: int| 0 <= k < i ==> elem_matches(pat@[k], self@[pos + k]),
            decreases psize - i,
        {
            match pat.elems[i] {
                Some(x) => {
                    if self.bytes[pos + i] != x {
                        return false;
                    }
                },
                None => {},
            }
            i += 1;
        }
        true
    }

    /// Every offset of the region where `pat` matches, byte-wise and
    /// wildcard-aware, in increasing order — and no others.
    pub fn scan_aob_all_matches(&self, pat: &MemoryPattern) -> (r: Vec<usize>)
        ensures
            is_scan_result(self@, pat@, r@),
    {
        let mut result: Vec<usize> = Vec::new();
        let psize = pat.elems.len();
        let len = self.bytes.len();
        let mut pos: usize = 0;
        while pos < len
            invariant
                psize == pat@.len(),
                len == self@.len(),
                pos <= len,
                forall|j: int|
                    0 <= j < result@.len() ==> pattern_matches_at(self@, pat@, result@[j] as int),
                forall|q: int|
                    pattern_matches_at(self@, pat@, q) && q < pos ==> result@.contains(q as usize),
                forall|j: int| 0 <= j < result@.len() ==> result@[j] < pos,
                forall|j: int, k: int| 0 <= j < k < result@.len() ==> result@[j] < result@[k],
            decreases len - pos,
        {
            let ghost prev = result@;
            if psize <= len - pos && self.check_match(pat, pos) {
                result.push(pos);
            }
            proof {
                assert forall|q: int|
                    pattern_matches_at(self@, pat@, q) && q < pos + 1 implies result@.contains(
                    q as usize,
                ) by {
                    if q < pos {
                        let j = choose|j: int| 0 <= j < prev.len() && prev[j] == q as usize;
                        assert(result@[j] == q as usize);
                    } else {
                        assert(result@[result@.len() - 1] == q as usize);
                    }
                }
            }
            pos += 1;
        }
        // the only offset past this loop that a pattern can match is `len`
        // itself, and only the empty signature matches there
        if psize == 0 {
            let ghost prev = result@;
            result.push(len);
            proof {
                assert forall|q: int|
                    pattern_matches_at(self@, pat@, q) implies result@.contains(q as usize) by {
                    if q < len {
                        let j = choose|j: int| 0 <= j < prev.len() && prev[j] == q as usize;
                        assert(result@[j] == q as usize);
                    } else {
                        assert(result@[result@.len() - 1] == q as usize);
                    }
                }
            }
        }
        result
    }
}

} // verus!
