use vstd::prelude::*;

use crate::buffer::{buffer_at, buffer_layout, buffer_ptr, length_at, MAX_ALIGN};
use crate::error::EngineError;
use crate::gas::{debit, GasMeter};
use crate::memory::{overwrite, zeros, LinearMemory};
use crate::table::{Duplicate, KeyedTable};

verus! {

/// What a module instance holds, as mathematical values.
pub struct InstanceView {
    /// The module's bytecode, or its serialized form.
    pub code: Seq<u8>,
    /// The bytes of the primary linear memory.
    pub memory: Seq<u8>,
    /// The size a reset brings the memory back to.
    pub memory_initial: nat,
    /// The size the memory may never exceed.
    pub memory_max: nat,
    /// The instance's key-value storage.
    pub storage: Map<Seq<u8>, Seq<u8>>,
    /// The instance's gas meter.
    pub gas: GasMeter,
}

/// One loaded guest module: its code, its primary memory, its storage and its gas meter.
pub struct InstanceWrapper {
    /// The module's bytecode, or its serialized form.
    pub code: Vec<u8>,
    /// The primary linear memory.
    pub memory: LinearMemory,
    /// Values the guest stores under byte-string keys.
    pub storage: KeyedTable<Vec<u8>>,
    /// The execution budget.
    pub gas: GasMeter,
}

impl View for InstanceWrapper {
    type V = InstanceView;

    open spec fn view(&self) -> InstanceView {
        InstanceView {
            code: self.code@,
            memory: self.memory@,
            memory_initial: self.memory.initial(),
            memory_max: self.memory.max(),
            storage: self.storage@,
            gas: self.gas,
        }
    }
}

/// The instance state that preparing for the cache leaves: the memory reset, all else kept.
pub open spec fn prepared(v: InstanceView) -> InstanceView {
    InstanceView { memory: zeros(v.memory_initial), ..v }
}

impl Duplicate for InstanceWrapper {
    /// A point-in-time copy of this instance.
    fn duplicate(&self) -> (r: InstanceWrapper) {
        InstanceWrapper {
            code: crate::codec::copy_bytes(self.code.as_slice()),
            memory: self.memory.duplicate(),
            storage: self.storage.duplicate(),
            gas: self.gas,
        }
    }
}

impl InstanceWrapper {
    /// An instance of `code` with a gas budget of `max_gas` and a zeroed memory of
    /// `initial_memory` bytes that may grow up to `max_memory` bytes.
    pub fn new(code: Vec<u8>, max_gas: u64, initial_memory: u64, max_memory: u64) -> (r: Result<
        InstanceWrapper,
        EngineError,
    >)
        ensures
            r is Ok <==> initial_memory <= max_memory && max_memory
                <= crate::memory::ADDRESS_SPACE,
            r is Err ==> r == Err::<InstanceWrapper, EngineError>(EngineError::Capacity),
            r matches Ok(i) ==> {
                &&& i@.code == code@
                &&& i@.memory == zeros(initial_memory as nat)
                &&& i@.memory_initial == initial_memory
                &&& i@.memory_max == max_memory
                &&& i@.storage == Map::<Seq<u8>, Seq<u8>>::empty()
                &&& i@.gas == GasMeter { limit: max_gas, remaining: max_gas }
            },
    {
        let memory = LinearMemory::new(initial_memory, max_memory)?;
        Ok(InstanceWrapper {
            code,
            memory,
            storage: KeyedTable::new(),
            gas: GasMeter::new(max_gas),
        })
    }

    /// Whether the memory has reached its maximum size.
    pub fn is_out_of_memory(&self) -> (r: bool)
        ensures
            r == (self@.memory_max <= self@.memory.len()),
    {
        self.memory.is_out_of_memory()
    }

    /// The length prefix of the buffer at `ptr`.
    pub fn read_arraybuffer_len(&self, ptr: u64) -> (r: Result<u32, EngineError>)
        ensures
            r is Ok <==> length_at(self@.memory, ptr as int) is Some,
            r is Err ==> r == Err::<u32, EngineError>(EngineError::MemoryAccess),
            r matches Ok(n) ==> Some(n as int) == length_at(self@.memory, ptr as int),
    {
        crate::buffer::read_length(&self.memory, ptr)
    }

    /// The bytes of the length-prefixed buffer at `ptr`.
    pub fn read_arraybuffer(&self, ptr: u64) -> (r: Result<Vec<u8>, EngineError>)
        ensures
            r is Ok <==> buffer_at(self@.memory, ptr as int) is Some,
            r is Err ==> r == Err::<Vec<u8>, EngineError>(EngineError::MemoryAccess),
            r matches Ok(v) ==> Some(v@) == buffer_at(self@.memory, ptr as int),
    {
        crate::buffer::read_buffer(&self.memory, ptr)
    }

    /// The `length` bytes of memory at `offset`.
    pub fn read_memory(&self, offset: u64, length: u64) -> (r: Result<Vec<u8>, EngineError>)
        ensures
            r is Ok <==> offset + length <= self@.memory.len(),
            r is Err ==> r == Err::<Vec<u8>, EngineError>(EngineError::MemoryAccess),
            r matches Ok(v) ==> v@ == self@.memory.subrange(offset as int, offset + length),
    {
        self.memory.read(offset, length)
    }

    /// The byte of memory at `offset`.
    pub fn read_memory_u8(&self, offset: u64) -> (r: Result<u8, EngineError>)
        ensures
            r is Ok <==> offset < self@.memory.len(),
            r is Err ==> r == Err::<u8, EngineError>(EngineError::MemoryAccess),
            r matches Ok(b) ==> b == self@.memory[offset as int],
    {
        self.memory.read_u8(offset)
    }

    /// Writes `data` into memory at `offset`, or nothing if it does not fit.
    pub fn write_memory(&mut self, offset: u64, data: &[u8]) -> (r: Result<(), EngineError>)
        ensures
            r is Ok <==> offset + data@.len() <= old(self)@.memory.len(),
            r is Err ==> r == Err::<(), EngineError>(EngineError::MemoryAccess),
            r is Ok ==> final(self)@ == (InstanceView {
                memory: overwrite(old(self)@.memory, offset as int, data@),
                ..old(self)@
            }),
            r is Err ==> final(self)@ == old(self)@,
    {
        self.memory.write(offset, data)
    }

    /// Places `data` as a new buffer behind the end of memory and returns its pointer.
    pub fn write_buffer(&mut self, data: &[u8], id: i32, align: u32) -> (r: Result<
        u64,
        EngineError,
    >)
        ensures
            r is Ok <==> align <= MAX_ALIGN && buffer_ptr(old(self)@.memory.len() as int, align)
                + data@.len() <= old(self)@.memory_max,
            align > MAX_ALIGN ==> r == Err::<u64, EngineError>(EngineError::MemoryAccess),
            align <= MAX_ALIGN && r is Err ==> r == Err::<u64, EngineError>(
                EngineError::Capacity,
            ),
            final(self)@.memory_max <= crate::memory::ADDRESS_SPACE,
            r is Err ==> final(self)@ == old(self)@,
            r matches Ok(p) ==> {
                &&& p == buffer_ptr(old(self)@.memory.len() as int, align)
                &&& final(self)@ == (InstanceView {
                    memory: buffer_layout(old(self)@.memory, data@, id, align),
                    ..old(self)@
                })
            },
    {
        crate::buffer::write_buffer(&mut self.memory, data, id, align)
    }

    /// Grows memory by `additional` bytes and returns the former size; fails, changing
    /// nothing, if the new size would exceed the maximum.
    pub fn grow_for(&mut self, additional: u64) -> (r: Result<u64, EngineError>)
        ensures
            r is Ok <==> old(self)@.memory.len() + additional <= old(self)@.memory_max,
            r is Err ==> r == Err::<u64, EngineError>(EngineError::Capacity),
            r is Err ==> final(self)@ == old(self)@,
            r matches Ok(s) ==> s == old(self)@.memory.len() && final(self)@ == (InstanceView {
                memory: old(self)@.memory + zeros(additional as nat),
                ..old(self)@
            }),
    {
        self.memory.grow(additional)
    }

    /// Resets the memory so that no state of one invocation reaches the next.
    pub fn prep_for_cache(&mut self)
        ensures
            final(self)@ == prepared(old(self)@),
    {
        self.memory.reset();
    }

    /// Debits `cost` from the gas budget, saturating at zero.
    pub fn use_gas(&mut self, cost: u64)
        ensures
            final(self)@ == (InstanceView {
                gas: GasMeter { remaining: debit(old(self)@.gas.remaining, cost), ..old(self)@.gas },
                ..old(self)@
            }),
    {
        self.gas.use_gas(cost);
    }

    /// What is left of the gas budget.
    pub fn get_remaining_gas(&self) -> (r: u64)
        ensures
            r == self@.gas.remaining,
    {
        self.gas.remaining()
    }

    /// Sets what is left of the gas budget.
    pub fn set_remaining_gas(&mut self, gas: u64)
        ensures
            final(self)@ == (InstanceView {
                gas: GasMeter { remaining: gas, ..old(self)@.gas },
                ..old(self)@
            }),
    {
        self.gas.set_remaining(gas);
    }

    /// How much of the gas budget has been spent.
    pub fn get_used_gas(&self) -> (r: u64)
        ensures
            r == debit(self@.gas.limit, self@.gas.remaining),
    {
        self.gas.used_gas()
    }

    /// Records `gas` as spent out of the whole budget.
    pub fn set_used_gas(&mut self, gas: u64)
        ensures
            final(self)@ == (InstanceView {
                gas: GasMeter { remaining: debit(old(self)@.gas.limit, gas), ..old(self)@.gas },
                ..old(self)@
            }),
    {
        self.gas.set_used_gas(gas);
    }

    /// The size of the value stored under the key held in the buffer at `key_ptr`, so that the
    /// guest can make room for it before loading it.
    pub fn request_storage(&self, key_ptr: u64) -> (r: Result<u64, EngineError>)
        ensures
            buffer_at(self@.memory, key_ptr as int) is None ==> r == Err::<u64, EngineError>(
                EngineError::MemoryAccess,
            ),
            buffer_at(self@.memory, key_ptr as int) matches Some(k) ==> {
                if self@.storage.contains_key(k) {
                    r matches Ok(n) && n as int == self@.storage[k].len()
                } else {
                    r == Err::<u64, EngineError>(EngineError::NotFound)
                }
            },
    {
        let key = self.read_arraybuffer(key_ptr)?;
        match self.storage.get(key.as_slice()) {
            Some(v) => Ok(v.len() as u64),
            None => Err(EngineError::NotFound),
        }
    }

    /// Copies the value stored under the key held in the buffer at `key_ptr` into memory at
    /// `dest_ptr`; changes nothing when it fails.
    pub fn load_from_storage(&mut self, key_ptr: u64, dest_ptr: u64) -> (r: Result<
        (),
        EngineError,
    >)
        ensures
            r is Err ==> final(self)@ == old(self)@,
            buffer_at(old(self)@.memory, key_ptr as int) is None ==> r == Err::<(), EngineError>(
                EngineError::MemoryAccess,
            ),
            buffer_at(old(self)@.memory, key_ptr as int) matches Some(k) ==> {
                if !old(self)@.storage.contains_key(k) {
                    r == Err::<(), EngineError>(EngineError::NotFound)
                } else if dest_ptr + old(self)@.storage[k].len() <= old(self)@.memory.len() {
                    &&& r is Ok
                    &&& final(self)@ == (InstanceView {
                        memory: overwrite(
                            old(self)@.memory,
                            dest_ptr as int,
                            old(self)@.storage[k],
                        ),
                        ..old(self)@
                    })
                } else {
                    r == Err::<(), EngineError>(EngineError::MemoryAccess)
                }
            },
    {
        let key = self.read_arraybuffer(key_ptr)?;
        let value = match self.storage.get(key.as_slice()) {
            Some(v) => crate::codec::copy_bytes(v.as_slice()),
            None => {
                return Err(EngineError::NotFound);
            },
        };
        self.write_memory(dest_ptr, value.as_slice())
    }

    /// Stores the buffer at `value_ptr` under the key held in the buffer at `key_ptr`.
    pub fn store_to_storage(&mut self, key_ptr: u64, value_ptr: u64) -> (r: Result<
        (),
        EngineError,
    >)
        ensures
            r is Ok <==> buffer_at(old(self)@.memory, key_ptr as int) is Some && buffer_at(
                old(self)@.memory,
                value_ptr as int,
            ) is Some,
            r is Err ==> r == Err::<(), EngineError>(EngineError::MemoryAccess),
            r is Err ==> final(self)@ == old(self)@,
            r is Ok ==> final(self)@ == (InstanceView {
                storage: old(self)@.storage.insert(
                    buffer_at(old(self)@.memory, key_ptr as int)->0,
                    buffer_at(old(self)@.memory, value_ptr as int)->0,
                ),
                ..old(self)@
            }),
    {
        let key = self.read_arraybuffer(key_ptr)?;
        let value = self.read_arraybuffer(value_ptr)?;
        self.storage.insert(key.as_slice(), value);
        Ok(())
    }

    /// Stores `value` under `key`.
    pub fn set_storage(&mut self, key: &[u8], value: &[u8])
        ensures
            final(self)@ == (InstanceView {
                storage: old(self)@.storage.insert(key@, value@),
                ..old(self)@
            }),
    {
        self.storage.insert(key, crate::codec::copy_bytes(value));
    }

    /// The value stored under `key`, if any.
    pub fn get_storage(&self, key: &[u8]) -> (r: Option<Vec<u8>>)
        ensures
            r is Some <==> self@.storage.contains_key(key@),
            r matches Some(v) ==> v@ == self@.storage[key@],
    {
        match self.storage.get(key) {
            Some(v) => Some(crate::codec::copy_bytes(v.as_slice())),
            None => None,
        }
    }
}

} // verus!
