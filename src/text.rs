use vstd::prelude::*;

verus! {

/// The text that the UTF-16 code units `units` encode, each ill-formed sequence replaced by
/// U+FFFD.
pub uninterp spec fn utf16_text(units: Seq<u16>) -> Seq<char>;

/// Relies on `String::from_utf16_lossy`: decodes UTF-16, replacing each ill-formed sequence by
/// U+FFFD; the result depends on the units alone, and no units give the empty string.
#[verifier::external_body]
fn string_from_utf16(units: &[u16]) -> (r: String)
    ensures
        r@ == utf16_text(units@),
        units@.len() == 0 ==> r@.len() == 0,
{
    String::from_utf16_lossy(units)
}

/// The UTF-16 code units of little-endian byte pairs; a trailing odd byte is dropped.
pub open spec fn utf16_units(b: Seq<u8>) -> Seq<u16> {
    Seq::new(b.len() / 2, |i: int| (b[2 * i] + 256 * b[2 * i + 1]) as u16)
}

/// The code units of the little-endian byte pairs in `bytes`.
pub fn units_of(bytes: &[u8]) -> (r: Vec<u16>)
    ensures
        r@ == utf16_units(bytes@),
{
    let mut r: Vec<u16> = Vec::new();
    let len: usize = bytes.len();
    let n: usize = len / 2;
    let mut i: usize = 0;
    while i < n
        invariant
            len == bytes@.len(),
            n == bytes@.len() / 2,
            2 * n <= bytes@.len(),
            i <= n,
            r@ == utf16_units(bytes@).subrange(0, i as int),
        decreases n - i,
    {
        assert(2 * i + 1 < bytes@.len());
        let j: usize = 2 * i;
        let u: u16 = bytes[j] as u16 + 256 * (bytes[j + 1] as u16);
        r.push(u);
        i = i + 1;
        assert(r@ =~= utf16_units(bytes@).subrange(0, i as int));
    }
    assert(r@ =~= utf16_units(bytes@));
    r
}

/// The text held in `bytes` as little-endian UTF-16.
pub fn decode_utf16_le(bytes: &[u8]) -> (r: String)
    ensures
        r@ == utf16_text(utf16_units(bytes@)),
        bytes@.len() < 2 ==> r@.len() == 0,
{
    let units = units_of(bytes);
    string_from_utf16(units.as_slice())
}

} // verus!
