//! Text that the Qt toolkit hands over as UTF-16 code units.
use vstd::prelude::*;
use crate::text::push_char;

verus! {

/// The code unit is not half of a surrogate pair, so it is a character by itself.
pub open spec fn is_scalar_unit(u: u16) -> bool {
    !(0xD800 <= u && u <= 0xDFFF)
}

/// The character whose number is `v` (`char::from_u32`): none for surrogates
/// and numbers beyond `0x10FFFF`.
#[verifier::external_body]
fn char_from_u32(v: u32) -> (res: Option<char>)
    ensures
        res is Some <==> (v <= 0x10FFFF && !(0xD800 <= v && v <= 0xDFFF)),
        res matches Some(c) ==> c as u32 == v,
{
    char::from_u32(v)
}

/// The string of the characters that the code units stand for one by one. Each
/// unit must be a character by itself.
pub fn qstring_to_rust(units: &[u16]) -> (res: String)
    requires
        forall|i: int| 0 <= i < units@.len() ==> is_scalar_unit(#[trigger] units@[i]),
    ensures
        res@.len() == units@.len(),
        forall|i: int| 0 <= i < units@.len() ==> res@[i] as u32 == units@[i] as u32,
{
    let mut s = String::new();
    let n = units.len();
    for j in 0..n
        invariant
            n == units@.len(),
            forall|i: int| 0 <= i < units@.len() ==> is_scalar_unit(#[trigger] units@[i]),
            s@.len() == j,
            forall|i: int| 0 <= i < j ==> s@[i] as u32 == units@[i] as u32,
    {
        let u = units[j];
        assert(is_scalar_unit(units@[j as int]));
        match char_from_u32(u as u32) {
            Some(c) => push_char(&mut s, c),
            None => {},
        }
    }
    s
}

} // verus!
