//! Small text helpers for the tiles the interface draws.

use vstd::prelude::*;
use vstd::string::*;

verus! {

/// `c` with an ASCII lowercase letter mapped to its uppercase form; any
/// other character is left alone.
pub open spec fn ascii_upper(c: char) -> char {
    if 97 <= c as u32 && c as u32 <= 122 {
        (((c as u32) - 32) as u8) as char
    } else {
        c
    }
}

/// `s` with its first character uppercased, when it is an ASCII lowercase
/// letter; the empty sequence stays empty.
pub open spec fn uppercased_first(s: Seq<char>) -> Seq<char> {
    if s.len() == 0 {
        s
    } else {
        seq![ascii_upper(s[0])] + s.subrange(1, s.len() as int)
    }
}

/// Relies on alloc::string::String::push: appends exactly the one
/// character to the end of the string.
#[verifier::external_body]
fn push_char(s: &mut String, c: char)
    ensures
        final(s)@ == old(s)@.push(c),
{
    s.push(c);
}

/// Capitalise the first character of a display name.
pub fn uppercase_first(data: &str) -> (r: String)
    ensures
        r@ == uppercased_first(data@),
{
    let n = data.unicode_len();
    if n == 0 {
        return String::new();
    }
    let c = data.get_char(0);
    let u = c as u32;
    let up: char = if 97 <= u && u <= 122 {
        ((u - 32) as u8) as char
    } else {
        c
    };
    let mut result = String::new();
    push_char(&mut result, up);
    let rest = data.substring_char(1, n);
    result.append(rest);
    proof {
        assert(result@ =~= uppercased_first(data@));
    }
    result
}

} // verus!
