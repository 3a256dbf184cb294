use vstd::prelude::*;

use crate::codec::{decode_u32, encode_u32, le_u32, u32_bytes};
use crate::error::EngineError;
use crate::memory::{zeros, LinearMemory};

verus! {

/// The largest alignment exponent a buffer may ask for: buffers start at most on 64 KiB.
pub const MAX_ALIGN: u32 = 16;

/// The bytes of the header written in front of a buffer: its type id, then its length.
pub const HEADER_SIZE: u64 = 8;

/// The length recorded in the prefix in front of `ptr`, if there is room for a prefix.
pub open spec fn length_at(mem: Seq<u8>, ptr: int) -> Option<int> {
    if 4 <= ptr <= mem.len() {
        Some(le_u32(mem.subrange(ptr - 4, ptr)))
    } else {
        None
    }
}

/// The buffer starting at `ptr`, if its prefix and its bytes lie inside `mem`.
pub open spec fn buffer_at(mem: Seq<u8>, ptr: int) -> Option<Seq<u8>> {
    match length_at(mem, ptr) {
        Some(len) => if ptr + len <= mem.len() {
            Some(mem.subrange(ptr, ptr + len))
        } else {
            None
        },
        None => None,
    }
}

/// The unit to which a buffer with alignment exponent `align` is aligned.
pub open spec fn alignment(align: u32) -> int {
    (1u64 << (align as u64)) as int
}

/// The pointer at which a buffer is placed in a memory of `size` bytes: the first multiple of
/// the alignment that leaves room for the header behind the current end.
pub open spec fn buffer_ptr(size: int, align: u32) -> int {
    let start = size + HEADER_SIZE;
    let a = alignment(align);
    if start % a == 0 {
        start
    } else {
        start + (a - start % a)
    }
}

/// The memory after `data` was placed as a buffer behind the end of `mem`.
pub open spec fn buffer_layout(mem: Seq<u8>, data: Seq<u8>, id: i32, align: u32) -> Seq<u8> {
    let ptr = buffer_ptr(mem.len() as int, align);
    mem + zeros((ptr - HEADER_SIZE - mem.len()) as nat) + u32_bytes((id as u32) as int)
        + u32_bytes(data.len() as int) + data
}

/// What the alignment exponent bounds.
pub proof fn lemma_alignment(align: u32)
    requires
        align <= MAX_ALIGN,
    ensures
        1 <= alignment(align) <= 65536,
{
    let s = align as u64;
    assert(1 <= (1u64 << s) <= 65536) by (bit_vector)
        requires
            s <= 16,
    ;
}

/// Where a buffer lands: aligned, behind its header, within one alignment unit of the end.
pub proof fn lemma_buffer_ptr(size: int, align: u32)
    requires
        0 <= size,
        align <= MAX_ALIGN,
    ensures
        size + HEADER_SIZE <= buffer_ptr(size, align) < size + HEADER_SIZE + alignment(align),
        buffer_ptr(size, align) % alignment(align) == 0,
{
    lemma_alignment(align);
    let a = alignment(align);
    let start = size + HEADER_SIZE;
    vstd::arithmetic::div_mod::lemma_fundamental_div_mod(start, a);
    let q = start / a;
    let r = start % a;
    if r != 0 {
        assert(start + (a - r) == a * (q + 1)) by (nonlinear_arith)
            requires
                start == a * q + r,
        ;
        vstd::arithmetic::div_mod::lemma_mod_multiples_basic(q + 1, a);
        assert(a * (q + 1) == (q + 1) * a) by (nonlinear_arith);
    }
}

/// A buffer written by [`write_buffer`] reads back as the bytes that were written.
pub proof fn lemma_buffer_round_trip(mem: Seq<u8>, data: Seq<u8>, id: i32, align: u32)
    requires
        align <= MAX_ALIGN,
        data.len() <= u32::MAX,
    ensures
        buffer_at(buffer_layout(mem, data, id, align), buffer_ptr(mem.len() as int, align))
            == Some(data),
{
    lemma_buffer_ptr(mem.len() as int, align);
    let ptr = buffer_ptr(mem.len() as int, align);
    let out = buffer_layout(mem, data, id, align);
    let len_bytes = u32_bytes(data.len() as int);
    crate::codec::lemma_u32_round_trip(data.len() as int);
    assert(out.len() == ptr + data.len());
    assert(out.subrange(ptr - 4, ptr) =~= len_bytes);
    assert(out.subrange(ptr, ptr + data.len()) =~= data);
}

/// Reads the four-byte little-endian length prefix in front of `ptr`. A pointer below four has
/// no room for a prefix and fails without touching the memory.
pub fn read_length(mem: &LinearMemory, ptr: u64) -> (r: Result<u32, EngineError>)
    ensures
        ptr < 4 ==> r == Err::<u32, EngineError>(EngineError::MemoryAccess),
        r is Ok <==> length_at(mem@, ptr as int) is Some,
        r is Err ==> r == Err::<u32, EngineError>(EngineError::MemoryAccess),
        r matches Ok(n) ==> Some(n as int) == length_at(mem@, ptr as int),
{
    if ptr < 4 {
        return Err(EngineError::MemoryAccess);
    }
    let prefix = mem.read(ptr - 4, 4)?;
    Ok(decode_u32(prefix.as_slice()))
}

/// Reads the length-prefixed buffer that starts at `ptr`.
pub fn read_buffer(mem: &LinearMemory, ptr: u64) -> (r: Result<Vec<u8>, EngineError>)
    ensures
        r is Ok <==> buffer_at(mem@, ptr as int) is Some,
        r is Err ==> r == Err::<Vec<u8>, EngineError>(EngineError::MemoryAccess),
        r matches Ok(v) ==> Some(v@) == buffer_at(mem@, ptr as int),
{
    let length = read_length(mem, ptr)?;
    mem.read(ptr, length as u64)
}

/// Places `data` as a new buffer behind the current end of the memory, growing it, and returns
/// the buffer's pointer. In front of the pointer stand the type `id` and the length, four
/// little-endian bytes each; the pointer is a multiple of `2^align`.
pub fn write_buffer(mem: &mut LinearMemory, data: &[u8], id: i32, align: u32) -> (r: Result<
    u64,
    EngineError,
>)
    ensures
        final(mem).initial() == old(mem).initial(),
        final(mem).max() == old(mem).max(),
        final(mem).max() <= crate::memory::ADDRESS_SPACE,
        r is Ok <==> align <= MAX_ALIGN && buffer_ptr(old(mem)@.len() as int, align) + data@.len()
            <= old(mem).max(),
        align > MAX_ALIGN ==> r == Err::<u64, EngineError>(EngineError::MemoryAccess),
        align <= MAX_ALIGN && r is Err ==> r == Err::<u64, EngineError>(EngineError::Capacity),
        r is Err ==> final(mem)@ == old(mem)@,
        r matches Ok(p) ==> {
            &&& p == buffer_ptr(old(mem)@.len() as int, align)
            &&& (p as int) % alignment(align) == 0
            &&& final(mem)@ == buffer_layout(old(mem)@, data@, id, align)
        },
{
    let size = mem.size();
    if align > MAX_ALIGN {
        return Err(EngineError::MemoryAccess);
    }
    proof {
        lemma_alignment(align);
        lemma_buffer_ptr(mem@.len() as int, align);
    }
    let a: u64 = 1u64 << (align as u64);
    let start: u64 = size + HEADER_SIZE;
    let rem = start % a;
    let ptr: u64 = if rem == 0 {
        start
    } else {
        start + (a - rem)
    };
    let max = mem.max_size();
    if ptr > max || data.len() as u64 > max - ptr {
        return Err(EngineError::Capacity);
    }
    let ghost before = mem@;
    let len = data.len() as u32;
    let grown = mem.grow(ptr + data.len() as u64 - size);
    if grown.is_err() {
        return Err(EngineError::Capacity);
    }
    let mut header = encode_u32(#[verifier::truncate] (id as u32));
    let len_bytes = encode_u32(len);
    crate::codec::append_bytes(&mut header, len_bytes.as_slice());
    let ghost grown_mem = mem@;
    let w1 = mem.write(ptr - HEADER_SIZE, header.as_slice());
    let ghost mid = mem@;
    let w2 = mem.write(ptr, data);
    proof {
        assert(w1 is Ok);
        assert(w2 is Ok);
        let pad = zeros((ptr - HEADER_SIZE - size) as nat);
        assert(grown_mem =~= before + pad + zeros(HEADER_SIZE as nat) + zeros(data@.len()));
        assert(mid =~= before + pad + header@ + zeros(data@.len()));
        assert(mem@ =~= buffer_layout(before, data@, id, align));
    }
    Ok(ptr)
}

} // verus!
