use vstd::prelude::*;

use crate::error::EngineError;

verus! {

/// The largest size a linear memory may be configured with: a 32-bit address space.
pub const ADDRESS_SPACE: u64 = 4294967295;

/// The default maximum size of a module's linear memory, in bytes.
pub const MAX_MEMORY_SIZE: u64 = 33554432;

/// `n` zero bytes.
pub open spec fn zeros(n: nat) -> Seq<u8> {
    Seq::new(n, |i: int| 0u8)
}

/// `mem` with the bytes from `offset` on replaced by `data`.
pub open spec fn overwrite(mem: Seq<u8>, offset: int, data: Seq<u8>) -> Seq<u8> {
    mem.subrange(0, offset) + data + mem.subrange(offset + data.len(), mem.len() as int)
}

/// A growable, bounds-checked, byte-addressed linear memory.
pub struct LinearMemory {
    bytes: Vec<u8>,
    initial_size: u64,
    max_size: u64,
}

/// A vector of `n` zero bytes.
pub fn zero_bytes(n: u64) -> (r: Vec<u8>)
    requires
        n <= ADDRESS_SPACE,
    ensures
        r@ == zeros(n as nat),
{
    let mut r: Vec<u8> = Vec::new();
    let mut i: u64 = 0;
    while i < n
        invariant
            i <= n,
            r@ == zeros(i as nat),
        decreases n - i,
    {
        r.push(0u8);
        i = i + 1;
        assert(r@ =~= zeros(i as nat));
    }
    r
}

impl View for LinearMemory {
    type V = Seq<u8>;

    closed spec fn view(&self) -> Seq<u8> {
        self.bytes@
    }
}

impl LinearMemory {
    /// The size a reset brings the memory back to.
    pub closed spec fn initial(&self) -> nat {
        self.initial_size as nat
    }

    /// The size the memory may never exceed.
    pub closed spec fn max(&self) -> nat {
        self.max_size as nat
    }

    /// The memory's bounds hold.
    #[verifier::type_invariant]
    closed spec fn wf(&self) -> bool {
        &&& self.bytes@.len() <= self.max_size
        &&& self.initial_size <= self.max_size
        &&& self.max_size <= ADDRESS_SPACE
    }

    /// A zeroed memory of `initial_size` bytes that may grow up to `max_size` bytes.
    pub fn new(initial_size: u64, max_size: u64) -> (r: Result<LinearMemory, EngineError>)
        ensures
            r is Ok <==> initial_size <= max_size && max_size <= ADDRESS_SPACE,
            r is Err ==> r == Err::<LinearMemory, EngineError>(EngineError::Capacity),
            r matches Ok(m) ==> {
                &&& m@ == zeros(initial_size as nat)
                &&& m.initial() == initial_size
                &&& m.max() == max_size
            },
    {
        if initial_size > max_size || max_size > ADDRESS_SPACE {
            return Err(EngineError::Capacity);
        }
        Ok(LinearMemory { bytes: zero_bytes(initial_size), initial_size, max_size })
    }

    /// A memory holding `bytes`, reset to `initial_size` bytes and growable up to `max_size`.
    pub fn from_bytes(bytes: Vec<u8>, initial_size: u64, max_size: u64) -> (r: Result<
        LinearMemory,
        EngineError,
    >)
        ensures
            r is Ok <==> bytes@.len() <= max_size && initial_size <= max_size && max_size
                <= ADDRESS_SPACE,
            r is Err ==> r == Err::<LinearMemory, EngineError>(EngineError::Capacity),
            r matches Ok(m) ==> {
                &&& m@ == bytes@
                &&& m.initial() == initial_size
                &&& m.max() == max_size
            },
    {
        if max_size > ADDRESS_SPACE || initial_size > max_size || bytes.len() as u64 > max_size {
            return Err(EngineError::Capacity);
        }
        Ok(LinearMemory { bytes, initial_size, max_size })
    }

    /// The bytes of the memory.
    pub fn as_bytes(&self) -> (r: &[u8])
        ensures
            r@ == self@,
    {
        self.bytes.as_slice()
    }

    /// The current size in bytes.
    pub fn size(&self) -> (r: u64)
        ensures
            r == self@.len(),
            self@.len() <= self.max() <= ADDRESS_SPACE,
            self.initial() <= self.max(),
    {
        proof { use_type_invariant(self); }
        self.bytes.len() as u64
    }

    /// The size a reset brings the memory back to.
    pub fn initial_size(&self) -> (r: u64)
        ensures
            r == self.initial(),
    {
        self.initial_size
    }

    /// The size the memory may never exceed.
    pub fn max_size(&self) -> (r: u64)
        ensures
            r == self.max(),
    {
        self.max_size
    }

    /// Whether the memory has reached its maximum size.
    pub fn is_out_of_memory(&self) -> (r: bool)
        ensures
            r == (self.max() <= self@.len()),
    {
        proof { use_type_invariant(self); }
        self.max_size <= self.bytes.len() as u64
    }

    /// The `length` bytes at `offset`; fails if any of them lies outside the memory.
    pub fn read(&self, offset: u64, length: u64) -> (r: Result<Vec<u8>, EngineError>)
        ensures
            r is Ok <==> offset + length <= self@.len(),
            r is Err ==> r == Err::<Vec<u8>, EngineError>(EngineError::MemoryAccess),
            r matches Ok(v) ==> v@ == self@.subrange(offset as int, offset + length),
    {
        proof { use_type_invariant(&*self); }
        let size = self.bytes.len() as u64;
        if offset > size || length > size - offset {
            return Err(EngineError::MemoryAccess);
        }
        let mut out: Vec<u8> = Vec::new();
        let mut i: u64 = offset;
        let end: u64 = offset + length;
        while i < end
            invariant
                offset <= i <= end,
                end == offset + length,
                end <= self@.len(),
                self@.len() <= ADDRESS_SPACE,
                out@ == self@.subrange(offset as int, i as int),
            decreases end - i,
        {
            out.push(self.bytes[i as usize]);
            i = i + 1;
            assert(out@ =~= self@.subrange(offset as int, i as int));
        }
        Ok(out)
    }

    /// The byte at `offset`; fails if it lies outside the memory.
    pub fn read_u8(&self, offset: u64) -> (r: Result<u8, EngineError>)
        ensures
            r is Ok <==> offset < self@.len(),
            r is Err ==> r == Err::<u8, EngineError>(EngineError::MemoryAccess),
            r matches Ok(b) ==> b == self@[offset as int],
    {
        proof { use_type_invariant(self); }
        if offset >= self.bytes.len() as u64 {
            return Err(EngineError::MemoryAccess);
        }
        Ok(self.bytes[offset as usize])
    }

    /// Writes `data` at `offset`; fails, writing nothing, if any byte would fall outside the memory.
    pub fn write(&mut self, offset: u64, data: &[u8]) -> (r: Result<(), EngineError>)
        ensures
            final(self).initial() == old(self).initial(),
            final(self).max() == old(self).max(),
            r is Ok <==> offset + data@.len() <= old(self)@.len(),
            r is Err ==> r == Err::<(), EngineError>(EngineError::MemoryAccess),
            r is Ok ==> final(self)@ == overwrite(old(self)@, offset as int, data@),
            r is Err ==> final(self)@ == old(self)@,
    {
        proof { use_type_invariant(&*self); }
        let size = self.bytes.len() as u64;
        if offset > size || data.len() as u64 > size - offset {
            return Err(EngineError::MemoryAccess);
        }
        let ghost before = self@;
        let mut bytes: Vec<u8> = Vec::new();
        std::mem::swap(&mut bytes, &mut self.bytes);
        let mut j: usize = 0;
        while j < data.len()
            invariant
                before == old(self)@,
                offset + data@.len() <= before.len(),
                before.len() <= ADDRESS_SPACE,
                j <= data@.len(),
                bytes@.len() == before.len(),
                forall|k: int| 0 <= k < offset ==> bytes@[k] == before[k],
                forall|k: int| 0 <= k < j ==> bytes@[offset + k] == data@[k],
                forall|k: int| offset + j <= k < before.len() ==> bytes@[k] == before[k],
            decreases data@.len() - j,
        {
            bytes.set(offset as usize + j, data[j]);
            j = j + 1;
        }
        std::mem::swap(&mut bytes, &mut self.bytes);
        assert(self@ =~= overwrite(before, offset as int, data@));
        Ok(())
    }

    /// Grows the memory by `additional` zero bytes and returns the former size; fails, leaving
    /// the memory as it was, if the new size would exceed the maximum.
    pub fn grow(&mut self, additional: u64) -> (r: Result<u64, EngineError>)
        ensures
            final(self).initial() == old(self).initial(),
            final(self).max() == old(self).max(),
            r is Ok <==> old(self)@.len() + additional <= old(self).max(),
            r is Err ==> r == Err::<u64, EngineError>(EngineError::Capacity),
            r is Err ==> final(self)@ == old(self)@,
            r matches Ok(s) ==> s == old(self)@.len() && final(self)@ == old(self)@ + zeros(
                additional as nat,
            ),
    {
        proof { use_type_invariant(&*self); }
        let size = self.bytes.len() as u64;
        if additional > self.max_size - size {
            return Err(EngineError::Capacity);
        }
        let ghost before = self@;
        let mut bytes: Vec<u8> = Vec::new();
        std::mem::swap(&mut bytes, &mut self.bytes);
        let mut i: u64 = 0;
        while i < additional
            invariant
                before == old(self)@,
                size == before.len(),
                i <= additional,
                bytes@ == before + zeros(i as nat),
            decreases additional - i,
        {
            bytes.push(0u8);
            i = i + 1;
            assert(bytes@ =~= before + zeros(i as nat));
        }
        std::mem::swap(&mut bytes, &mut self.bytes);
        Ok(size)
    }

    /// Brings the memory back to its initial size, all bytes zero.
    pub fn reset(&mut self)
        ensures
            final(self).initial() == old(self).initial(),
            final(self).max() == old(self).max(),
            final(self)@ == zeros(old(self).initial()),
    {
        proof { use_type_invariant(&*self); }
        self.bytes = zero_bytes(self.initial_size);
    }

    /// A copy of this memory.
    pub fn duplicate(&self) -> (r: LinearMemory)
        ensures
            r@ == self@,
            r.initial() == self.initial(),
            r.max() == self.max(),
    {
        proof { use_type_invariant(self); }
        let bytes = crate::codec::copy_bytes(self.bytes.as_slice());
        LinearMemory { bytes, initial_size: self.initial_size, max_size: self.max_size }
    }
}

} // verus!
