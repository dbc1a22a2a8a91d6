//! Fresh short codes, drawn at random from nanoid's URL-safe alphabet.
use vstd::prelude::*;

verus! {

/// How many characters a short code has.
pub const SHORT_CODE_LEN: usize = 10;

/// Whether `c` is one of the 64 symbols of nanoid's URL-safe alphabet:
/// `_`, `-`, the digits and the ASCII letters.
pub open spec fn is_url_safe_symbol(c: char) -> bool {
    let u = c as u32;
    ||| c == '_'
    ||| c == '-'
    ||| 0x30 <= u <= 0x39
    ||| 0x61 <= u <= 0x7A
    ||| 0x41 <= u <= 0x5A
}

/// Whether `s` has the shape of a generated short code.
pub open spec fn is_short_code(s: Seq<char>) -> bool {
    &&& s.len() == SHORT_CODE_LEN
    &&& forall|i: int| 0 <= i < s.len() ==> is_url_safe_symbol(#[trigger] s[i])
}

/// Calls `nanoid::format` with nanoid's default random source and its
/// `alphabet::SAFE`. Its source pushes only symbols of the alphabet and
/// returns once the id holds `size` of them; the symbols themselves are
/// random, so nothing is claimed about which ones come out. With `size`
/// zero the source never returns, hence the `requires`.
#[verifier::external_body]
fn nanoid_url_safe(size: usize) -> (id: String)
    requires
        0 < size <= usize::MAX / 8,
    ensures
        id@.len() == size,
        forall|i: int| 0 <= i < id@.len() ==> is_url_safe_symbol(#[trigger] id@[i]),
{
    nanoid::format(nanoid::rngs::default, &nanoid::alphabet::SAFE, size)
}

/// A fresh random short code of `SHORT_CODE_LEN` URL-safe symbols.
pub fn generate_short_code() -> (code: String)
    ensures
        is_short_code(code@),
{
    nanoid_url_safe(SHORT_CODE_LEN)
}

} // verus!
