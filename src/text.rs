use vstd::prelude::*;

verus! {

/// What `widestring` decodes from UTF-16 code units, replacing each unpaired
/// surrogate with U+FFFD.
pub uninterp spec fn utf16_lossy(units: Seq<u16>) -> Seq<char>;

/// Whether every character of `s` is one UTF-16 code unit.
pub open spec fn single_units(s: Seq<char>) -> bool {
    forall|i: int| 0 <= i < s.len() ==> (#[trigger] s[i]) as u32 <= 0xFFFF
}

/// The UTF-16 code units of characters that are one unit each.
pub open spec fn units_of(s: Seq<char>) -> Seq<u16> {
    s.map_values(|c: char| c as u16)
}

/// Relies on `widestring::U16Str::to_string_lossy`: the code units decoded
/// as UTF-16, an empty slice giving an empty string.
#[verifier::external_body]
pub(crate) fn decode_lossy(units: &[u16]) -> (r: String)
    ensures
        r@ == utf16_lossy(units@),
        units@.len() == 0 ==> r@.len() == 0,
{
    widestring::U16Str::from_slice(units).to_string_lossy()
}

/// Relies on `widestring::U16String::from_str` and `into_vec`: `s` encoded
/// as UTF-16, where each character below U+10000 is the one code unit of its
/// value.
#[verifier::external_body]
pub(crate) fn encode_utf16(s: &str) -> (r: Vec<u16>)
    requires
        single_units(s@),
    ensures
        r@ == units_of(s@),
{
    widestring::U16String::from_str(s).into_vec()
}

/// The decimal digits of `n`, most significant first, with no leading zero.
pub open spec fn decimal(n: nat) -> Seq<char>
    decreases n,
{
    let digit = seq!['0', '1', '2', '3', '4', '5', '6', '7', '8', '9'][(n % 10) as int];
    if n < 10 {
        seq![digit]
    } else {
        decimal(n / 10).push(digit)
    }
}

/// Relies on `ToString::to_string` for `u64`: its `Display` writes the value in
/// decimal, with no sign, padding or leading zero.
#[verifier::external_body]
pub(crate) fn decimal_string(n: u64) -> (r: String)
    ensures
        r@ == decimal(n as nat),
{
    n.to_string()
}

} // verus!
