use vstd::prelude::*;

verus! {

/// The value of four bytes read in little-endian order.
pub open spec fn le_u32(b: Seq<u8>) -> int {
    b[0] as int + 256 * b[1] + 65536 * b[2] + 16777216 * b[3]
}

/// The value of eight bytes read in little-endian order.
pub open spec fn le_u64(b: Seq<u8>) -> int {
    le_u32(b.subrange(0, 4)) + 4294967296 * le_u32(b.subrange(4, 8))
}

/// The four little-endian bytes of `v`.
pub open spec fn u32_bytes(v: int) -> Seq<u8> {
    seq![
        (v % 256) as u8,
        ((v / 256) % 256) as u8,
        ((v / 65536) % 256) as u8,
        ((v / 16777216) % 256) as u8,
    ]
}

/// The eight little-endian bytes of `v`.
pub open spec fn u64_bytes(v: int) -> Seq<u8> {
    u32_bytes(v % 4294967296) + u32_bytes(v / 4294967296)
}

/// Reading back the bytes of a 32-bit value gives the value.
pub proof fn lemma_u32_round_trip(v: int)
    requires
        0 <= v < 4294967296,
    ensures
        u32_bytes(v).len() == 4,
        le_u32(u32_bytes(v)) == v,
{
    let b = u32_bytes(v);
    assert(b[0] == v % 256);
    assert(b[1] == (v / 256) % 256);
    assert(b[2] == (v / 65536) % 256);
    assert(b[3] == (v / 16777216) % 256);
}

/// Reading back the bytes of a 64-bit value gives the value.
pub proof fn lemma_u64_round_trip(v: int)
    requires
        0 <= v < 18446744073709551616,
    ensures
        u64_bytes(v).len() == 8,
        le_u64(u64_bytes(v)) == v,
{
    let lo = v % 4294967296;
    let hi = v / 4294967296;
    lemma_u32_round_trip(lo);
    lemma_u32_round_trip(hi);
    let b = u64_bytes(v);
    assert(b.subrange(0, 4) =~= u32_bytes(lo));
    assert(b.subrange(4, 8) =~= u32_bytes(hi));
}

/// Decodes four little-endian bytes.
pub fn decode_u32(b: &[u8]) -> (r: u32)
    requires
        b@.len() == 4,
    ensures
        r as int == le_u32(b@),
{
    (b[0] as u32) + (b[1] as u32) * 256 + (b[2] as u32) * 65536 + (b[3] as u32) * 16777216
}

/// Decodes eight little-endian bytes.
pub fn decode_u64(b: &[u8]) -> (r: u64)
    requires
        b@.len() == 8,
    ensures
        r as int == le_u64(b@),
{
    let lo: u64 = (b[0] as u64) + (b[1] as u64) * 256 + (b[2] as u64) * 65536 + (b[3] as u64)
        * 16777216;
    let hi: u64 = (b[4] as u64) + (b[5] as u64) * 256 + (b[6] as u64) * 65536 + (b[7] as u64)
        * 16777216;
    assert(lo == le_u32(b@.subrange(0, 4)));
    assert(hi == le_u32(b@.subrange(4, 8)));
    lo + hi * 4294967296
}

/// The four little-endian bytes of `v`.
pub fn encode_u32(v: u32) -> (r: Vec<u8>)
    ensures
        r@ == u32_bytes(v as int),
{
    let r = vec![(v % 256) as u8, ((v / 256) % 256) as u8, ((v / 65536) % 256) as u8, ((v / 16777216) % 256) as u8];
    assert(r@ =~= u32_bytes(v as int));
    r
}

/// The eight little-endian bytes of `v`.
pub fn encode_u64(v: u64) -> (r: Vec<u8>)
    ensures
        r@ == u64_bytes(v as int),
{
    let mut r = encode_u32((v % 4294967296) as u32);
    let hi = encode_u32((v / 4294967296) as u32);
    append_bytes(&mut r, &hi);
    assert(r@ =~= u64_bytes(v as int));
    r
}

/// Appends `data` to `dst`.
pub fn append_bytes(dst: &mut Vec<u8>, data: &[u8])
    ensures
        final(dst)@ == old(dst)@ + data@,
{
    let mut i: usize = 0;
    while i < data.len()
        invariant
            i <= data@.len(),
            dst@ == old(dst)@ + data@.subrange(0, i as int),
        decreases data@.len() - i,
    {
        dst.push(data[i]);
        i = i + 1;
        assert(data@.subrange(0, i as int) =~= data@.subrange(0, i - 1) .push(data@[i - 1]));
    }
    assert(data@.subrange(0, data@.len() as int) =~= data@);
}

/// A fresh vector holding the bytes of `data`.
pub fn copy_bytes(data: &[u8]) -> (r: Vec<u8>)
    ensures
        r@ == data@,
{
    let mut r: Vec<u8> = Vec::new();
    append_bytes(&mut r, data);
    assert(r@ =~= data@);
    r
}

/// Whether two byte strings are equal.
pub fn bytes_equal(a: &[u8], b: &[u8]) -> (r: bool)
    ensures
        r == (a@ == b@),
{
    if a.len() != b.len() {
        return false;
    }
    let mut i: usize = 0;
    while i < a.len()
        invariant
            a@.len() == b@.len(),
            i <= a@.len(),
            forall|j: int| 0 <= j < i ==> a@[j] == b@[j],
        decreases a@.len() - i,
    {
        if a[i] != b[i] {
            return false;
        }
        i = i + 1;
    }
    assert(a@ =~= b@);
    true
}

} // verus!
