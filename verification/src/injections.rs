//! Reversible byte patches: an [`Injection`] overwrites a span of a region
//! with replacement bytes, remembering the bytes it displaced so that it can
//! restore them, and a [`NumberInjection`] keeps that span equal to the
//! little-endian encoding of a numeric value.

use vstd::prelude::*;
use crate::memory::{MemoryRegion, PermissionError, spec_write};

verus! {

/// A reversible raw byte substitution at a fixed offset of a region.
///
/// While applied, the region holds `replacement` at `entry_point` and the
/// displaced original bytes are stored here; removing the injection writes
/// them back. Both transitions are idempotent: applying while applied and
/// removing while removed change nothing.
#[derive(Debug)]
pub struct Injection {
    /// Offset in the region where the replacement bytes go.
    pub entry_point: usize,
    /// The bytes written over the target span while applied.
    pub replacement: Vec<u8>,
    /// The displaced bytes, captured when first applied.
    pub original: Vec<u8>,
    /// Whether the replacement is currently written into the region.
    pub applied: bool,
}

impl Injection {
    /// Whether the replacement bytes are currently written into the region.
    pub open spec fn is_applied(&self) -> bool {
        self.applied
    }

    /// The bytes this injection writes over the target span.
    pub open spec fn replacement_bytes(&self) -> Seq<u8> {
        self.replacement@
    }

    /// The displaced bytes, captured when the injection was first applied.
    pub open spec fn original_bytes(&self) -> Seq<u8> {
        self.original@
    }

    /// While applied, the stored original bytes cover exactly the span the
    /// replacement occupies.
    pub open spec fn wf(&self) -> bool {
        self.is_applied() ==> self.original_bytes().len() == self.replacement_bytes().len()
    }

    /// End of the target span.
    pub open spec fn end(&self) -> int {
        self.entry_point + self.replacement_bytes().len()
    }

    /// Does the target span lie inside a region of `region_len` bytes?
    pub open spec fn in_bounds(&self, region_len: int) -> bool {
        self.end() <= region_len
    }

    /// A fresh, not-yet-applied injection; original bytes are read from the
    /// region on the first `inject`.
    pub fn new(entry_point: usize, replacement: Vec<u8>) -> (r: Injection)
        ensures
            r.entry_point == entry_point,
            r.replacement_bytes() == replacement@,
            !r.is_applied(),
            r.wf(),
    {
        Injection { entry_point, replacement, original: Vec::new(), applied: false }
    }

    /// Length of the target span in bytes.
    pub fn len(&self) -> (r: usize)
        ensures
            r == self.replacement_bytes().len(),
    {
        self.replacement.len()
    }

    /// Is the replacement currently written into the region?
    pub fn applied(&self) -> (r: bool)
        ensures
            r == self.is_applied(),
    {
        self.applied
    }

    /// Does the target span lie inside `mem`?
    pub fn fits(&self, mem: &MemoryRegion) -> (r: bool)
        ensures
            r == self.in_bounds(mem@.len() as int),
    {
        let n = self.replacement.len();
        n <= mem.len() && self.entry_point <= mem.len() - n
    }

    /// Write the replacement bytes over the target span, first capturing the
    /// bytes they displace; a no-op if already applied. Fails, changing
    /// nothing, if the span does not lie inside `mem`.
    pub fn inject(&mut self, mem: &mut MemoryRegion) -> (r: Result<(), PermissionError>)
        requires
            old(self).wf(),
        ensures
            final(self).wf(),
            final(self).entry_point == old(self).entry_point,
            final(self).replacement_bytes() == old(self).replacement_bytes(),
            match r {
                Ok(()) => {
                    &&& final(self).is_applied()
                    &&& if old(self).is_applied() {
                        *final(self) == *old(self) && final(mem)@ == old(mem)@
                    } else {
                        &&& old(self).in_bounds(old(mem)@.len() as int)
                        &&& final(self).original_bytes() == old(mem)@.subrange(
                            old(self).entry_point as int,
                            old(self).end(),
                        )
                        &&& final(mem)@ == spec_write(
                            old(mem)@,
                            old(self).entry_point as int,
                            old(self).replacement_bytes(),
                        )
                    }
                },
                Err(_) => {
                    &&& !old(self).is_applied()
                    &&& !old(self).in_bounds(old(mem)@.len() as int)
                    &&& *final(self) == *old(self)
                    &&& final(mem)@ == old(mem)@
                },
            },
    {
        if self.applied {
            return Ok(());
        }
        match mem.read_bytes(self.entry_point, self.replacement.len()) {
            None => Err(PermissionError { address: self.entry_point, len: self.replacement.len() }),
            Some(orig) => {
                match mem.write_bytes(self.entry_point, &self.replacement) {
                    Ok(()) => {
                        self.original = orig;
                        self.applied = true;
                        Ok(())
                    },
                    Err(e) => {
                        proof {
                            assert(false);
                        }
                        Err(e)
                    },
                }
            },
        }
    }

    /// Write the displaced original bytes back over the target span; a no-op
    /// if not applied. Fails, changing nothing, if the span does not lie
    /// inside `mem`.
    pub fn remove_injection(&mut self, mem: &mut MemoryRegion) -> (r: Result<(), PermissionError>)
        requires
            old(self).wf(),
        ensures
            final(self).wf(),
            final(self).entry_point == old(self).entry_point,
            final(self).replacement_bytes() == old(self).replacement_bytes(),
            final(self).original_bytes() == old(self).original_bytes(),
            match r {
                Ok(()) => {
                    &&& !final(self).is_applied()
                    &&& if old(self).is_applied() {
                        &&& old(self).in_bounds(old(mem)@.len() as int)
                        &&& final(mem)@ == spec_write(
                            old(mem)@,
                            old(self).entry_point as int,
                            old(self).original_bytes(),
                        )
                    } else {
                        *final(self) == *old(self) && final(mem)@ == old(mem)@
                    }
                },
                Err(_) => {
                    &&& old(self).is_applied()
                    &&& !old(self).in_bounds(old(mem)@.len() as int)
                    &&& *final(self) == *old(self)
                    &&& final(mem)@ == old(mem)@
                },
            },
    {
        if !self.applied {
            return Ok(());
        }
        match mem.write_bytes(self.entry_point, &self.original) {
            Ok(()) => {
                self.applied = false;
                Ok(())
            },
            Err(e) => Err(e),
        }
    }

    /// Swap in new replacement bytes of the same length; if currently
    /// applied, immediately re-write the span so the region reflects them.
    /// Fails, changing nothing, if applied and the span does not lie inside
    /// `mem`.
    pub fn set_replacement(&mut self, new_bytes: Vec<u8>, mem: &mut MemoryRegion) -> (r: Result<
        (),
        PermissionError,
    >)
        requires
            old(self).wf(),
            new_bytes@.len() == old(self).replacement_bytes().len(),
        ensures
            final(self).wf(),
            final(self).entry_point == old(self).entry_point,
            final(self).is_applied() == old(self).is_applied(),
            final(self).original_bytes() == old(self).original_bytes(),
            match r {
                Ok(()) => {
                    &&& final(self).replacement_bytes() == new_bytes@
                    &&& if old(self).is_applied() {
                        &&& old(self).in_bounds(old(mem)@.len() as int)
                        &&& final(mem)@ == spec_write(
                            old(mem)@,
                            old(self).entry_point as int,
                            new_bytes@,
                        )
                    } else {
                        final(mem)@ == old(mem)@
                    }
                },
                Err(_) => {
                    &&& old(self).is_applied()
                    &&& !old(self).in_bounds(old(mem)@.len() as int)
                    &&& *final(self) == *old(self)
                    &&& final(mem)@ == old(mem)@
                },
            },
    {
        if self.applied {
            match mem.write_bytes(self.entry_point, &new_bytes) {
                Ok(()) => {
                    self.replacement = new_bytes;
                    Ok(())
                },
                Err(e) => Err(e),
            }
        } else {
            self.replacement = new_bytes;
            Ok(())
        }
    }
}

/// The little-endian encoding of `v` on `width` bytes: byte `i` holds bits
/// `8*i .. 8*i+8` of `v`.
pub open spec fn le_bytes(v: u64, width: nat) -> Seq<u8> {
    Seq::new(width, |i: int| ((v >> ((8 * i) as u64)) & 0xff) as u8)
}

/// Compute the little-endian encoding of `v` on `width` bytes.
pub fn encode_le(v: u64, width: usize) -> (r: Vec<u8>)
    requires
        width <= 8,
    ensures
        r@ == le_bytes(v, width as nat),
{
    let mut r: Vec<u8> = Vec::new();
    let mut i: usize = 0;
    while i < width
        invariant
            i <= width,
            width <= 8,
            r@ == le_bytes(v, i as nat),
        decreases width - i,
    {
        r.push(((v >> ((8 * i) as u64)) & 0xff) as u8);
        i += 1;
        proof {
            assert(r@ =~= le_bytes(v, i as nat));
        }
    }
    r
}

/// A patch whose replacement bytes always hold the little-endian encoding of
/// a numeric value; `inject` both updates the encoding and (re-)applies the
/// patch, so the live span reflects the new value immediately.
pub struct NumberInjection {
    /// The underlying reversible patch.
    pub injection: Injection,
}

impl NumberInjection {
    /// The underlying patch state.
    pub open spec fn patch(&self) -> Injection {
        self.injection
    }

    /// Number of bytes the encoded value occupies.
    pub open spec fn width(&self) -> nat {
        self.injection.replacement_bytes().len()
    }

    /// The underlying patch is well-formed and its span is a sensible
    /// numeric width.
    pub open spec fn wf(&self) -> bool {
        &&& self.injection.wf()
        &&& 1 <= self.width() <= 8
    }

    /// Wrap a patch whose span will hold the encoded value.
    pub fn new(injection: Injection) -> (r: NumberInjection)
        requires
            1 <= injection.replacement_bytes().len() <= 8,
            injection.wf(),
        ensures
            r.patch() == injection,
            r.wf(),
    {
        NumberInjection { injection }
    }

    /// Encode `value` into the replacement bytes and write them over the
    /// target span (capturing the original bytes if this is the first
    /// application). Fails, changing nothing, if the span does not lie
    /// inside `mem`.
    pub fn inject(&mut self, value: u64, mem: &mut MemoryRegion) -> (r: Result<
        (),
        PermissionError,
    >)
        requires
            old(self).wf(),
        ensures
            final(self).wf(),
            final(self).width() == old(self).width(),
            final(self).patch().entry_point == old(self).patch().entry_point,
            match r {
                Ok(()) => {
                    &&& final(self).patch().is_applied()
                    &&& final(self).patch().replacement_bytes() == le_bytes(
                        value,
                        old(self).width(),
                    )
                    &&& old(self).patch().in_bounds(old(mem)@.len() as int)
                    &&& final(mem)@ == spec_write(
                        old(mem)@,
                        old(self).patch().entry_point as int,
                        le_bytes(value, old(self).width()),
                    )
                    &&& final(self).patch().original_bytes() == if old(self).patch().is_applied() {
                        old(self).patch().original_bytes()
                    } else {
                        old(mem)@.subrange(
                            old(self).patch().entry_point as int,
                            old(self).patch().end(),
                        )
                    }
                },
                Err(_) => {
                    &&& !old(self).patch().in_bounds(old(mem)@.len() as int)
                    &&& *final(self) == *old(self)
                    &&& final(mem)@ == old(mem)@
                },
            },
    {
        if !self.injection.fits(mem) {
            return Err(
                PermissionError {
                    address: self.injection.entry_point,
                    len: self.injection.replacement.len(),
                },
            );
        }
        let bytes = encode_le(value, self.injection.len());
        match self.injection.set_replacement(bytes, mem) {
            Ok(()) => {},
            Err(_) => {
                proof {
                    assert(false);
                }
            },
        }
        match self.injection.inject(mem) {
            Ok(()) => Ok(()),
            Err(e) => {
                proof {
                    assert(false);
                }
                Err(e)
            },
        }
    }

    /// Restore the original bytes of the target span; a no-op if not
    /// applied. Fails, changing nothing, if the span does not lie inside
    /// `mem`.
    pub fn remove_injection(&mut self, mem: &mut MemoryRegion) -> (r: Result<
        (),
        PermissionError,
    >)
        requires
            old(self).wf(),
        ensures
            final(self).wf(),
            final(self).width() == old(self).width(),
            final(self).patch().entry_point == old(self).patch().entry_point,
            final(self).patch().replacement_bytes() == old(self).patch().replacement_bytes(),
            final(self).patch().original_bytes() == old(self).patch().original_bytes(),
            match r {
                Ok(()) => {
                    &&& !final(self).patch().is_applied()
                    &&& if old(self).patch().is_applied() {
                        &&& old(self).patch().in_bounds(old(mem)@.len() as int)
                        &&& final(mem)@ == spec_write(
                            old(mem)@,
                            old(self).patch().entry_point as int,
                            old(self).patch().original_bytes(),
                        )
                    } else {
                        *final(self) == *old(self) && final(mem)@ == old(mem)@
                    }
                },
                Err(_) => {
                    &&& old(self).patch().is_applied()
                    &&& !old(self).patch().in_bounds(old(mem)@.len() as int)
                    &&& *final(self) == *old(self)
                    &&& final(mem)@ == old(mem)@
                },
            },
    {
        match self.injection.remove_injection(mem) {
            Ok(()) => Ok(()),
            Err(e) => Err(e),
        }
    }

    /// Does the target span lie inside `mem`?
    pub fn fits(&self, mem: &MemoryRegion) -> (r: bool)
        ensures
            r == self.patch().in_bounds(mem@.len() as int),
    {
        self.injection.fits(mem)
    }
}

/// Law: applying a patch and then removing it restores the region
/// byte-for-byte. Writing replacement bytes over a span and then writing back
/// the bytes previously read from that span leaves every byte as it was.
pub proof fn lemma_patch_round_trip(mem: Seq<u8>, addr: int, repl: Seq<u8>)
    requires
        0 <= addr,
        addr + repl.len() <= mem.len(),
    ensures
        spec_write(spec_write(mem, addr, repl), addr, mem.subrange(addr, addr + repl.len()))
            == mem,
{
    assert(spec_write(spec_write(mem, addr, repl), addr, mem.subrange(addr, addr + repl.len()))
        =~= mem);
}

/// Law: applying a patch twice leaves the region exactly as applying it
/// once; together with `inject` being a no-op on an applied patch, a second
/// `enable` never changes anything.
pub proof fn lemma_patch_reapply_idempotent(mem: Seq<u8>, addr: int, repl: Seq<u8>)
    ensures
        spec_write(spec_write(mem, addr, repl), addr, repl) == spec_write(mem, addr, repl),
{
    assert(spec_write(spec_write(mem, addr, repl), addr, repl) =~= spec_write(mem, addr, repl));
}

} // verus!
