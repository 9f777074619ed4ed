use vstd::prelude::*;

verus! {

/// Every character of `s` lies in the basic multilingual plane, where UTF-16
/// encodes it as the single code unit that equals its scalar value.
pub open spec fn is_bmp(s: Seq<char>) -> bool {
    forall|i: int| 0 <= i < s.len() ==> (#[trigger] s[i] as u32) < 0x10000
}

/// The UTF-16 code units of a text of the basic multilingual plane.
pub open spec fn wide_spec(s: Seq<char>) -> Seq<u16> {
    s.map_values(|c: char| (c as u32) as u16)
}

/// The UTF-16 code units of a text, as the system's wide-string calls take it.
pub fn encode_wide(s: &str) -> (r: Vec<u16>)
    requires
        is_bmp(s@),
    ensures
        r@ == wide_spec(s@),
{
    let len = s.unicode_len();
    let mut r: Vec<u16> = Vec::new();
    let mut i: usize = 0;
    while i < len
        invariant
            len == s@.len(),
            i <= len,
            is_bmp(s@),
            r@ == wide_spec(s@.take(i as int)),
        decreases len - i,
    {
        let c = s.get_char(i);
        let code = c as u32;
        assert(code < 0x10000) by {
            assert(s@[i as int] == c);
        }
        r.push(code as u16);
        assert(wide_spec(s@.take(i as int)).push(code as u16) =~= wide_spec(s@.take(i + 1)));
        i = i + 1;
    }
    assert(s@.take(len as int) =~= s@);
    r
}

/// The UTF-16 code units of a text followed by the terminating zero, as the
/// system's wide-string calls take it.
pub fn encode_wide_with_nul(s: &str) -> (r: Vec<u16>)
    requires
        is_bmp(s@),
    ensures
        r@ == wide_spec(s@).push(0),
{
    let mut r = encode_wide(s);
    r.push(0);
    r
}

} // verus!
