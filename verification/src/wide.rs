use libc::wchar_t;
use vstd::prelude::*;
use vstd::utf8::is_scalar;

use crate::error::{HidError, HidResult, INVALID_CHAR, NULL_POINTER};

verus! {

/// `char::from_u32` returns the character whose scalar value is `i`, and
/// `None` exactly when `i` is not a Unicode scalar value.
pub assume_specification[ char::from_u32 ](i: u32) -> (r: Option<char>)
    ensures
        r is Some <==> is_scalar(i),
        r matches Some(c) ==> c as u32 == i,
;

/// `String::push` appends the character at the end of the string.
pub assume_specification[ String::push ](string: &mut String, ch: char)
    ensures
        final(string)@ == old(string)@.push(ch),
;

/// The characters of a NUL-terminated wide string held in `s`: the code
/// units before the first NUL (or all of them when there is none), each
/// taken as a Unicode scalar value; `None` when one of them is not one.
pub open spec fn decode_wide(s: Seq<wchar_t>) -> Option<Seq<char>>
    decreases s.len(),
{
    if s.len() == 0 || s[0] == 0 {
        Some(Seq::empty())
    } else if !is_scalar(s[0] as u32) {
        None
    } else {
        match decode_wide(s.drop_first()) {
            Some(rest) => Some(seq![(s[0] as u32) as char] + rest),
            None => None,
        }
    }
}

/// The wide code units of a character sequence: each character as its
/// scalar value, without a terminator.
pub open spec fn encode_wide(cs: Seq<char>) -> Seq<wchar_t> {
    cs.map_values(|c: char| (c as u32) as wchar_t)
}

/// A character sequence that holds no NUL character.
pub open spec fn no_nul(cs: Seq<char>) -> bool {
    forall|i: int| 0 <= i < cs.len() ==> (#[trigger] cs[i]) as u32 != 0
}

/// Law: a string without NUL characters, written out as wide code units
/// and terminated by a NUL, reads back as the same string.
pub proof fn lemma_decode_encode_wide(cs: Seq<char>)
    requires
        no_nul(cs),
    ensures
        decode_wide(encode_wide(cs).push(0)) == Some(cs),
    decreases cs.len(),
{
    let w = encode_wide(cs).push(0);
    if cs.len() == 0 {
        assert(w[0] == 0);
    } else {
        let c = cs[0];
        vstd::utf8::char_is_scalar(c);
        assert((c as u32) <= 0x10FFFF);
        assert(w[0] == (c as u32) as wchar_t);
        assert((w[0] as u32) == (c as u32));
        vstd::utf8::char_u32_cast(c, c as u32);
        let rest = cs.drop_first();
        assert forall|i: int| 0 <= i < rest.len() implies (#[trigger] rest[i]) as u32 != 0 by {
            assert(rest[i] == cs[i + 1]);
        }
        lemma_decode_encode_wide(rest);
        assert(w.drop_first() =~= encode_wide(rest).push(0));
        assert(seq![c] + rest =~= cs);
    }
}

/// Law: a wide string ends at its first NUL; whatever follows the
/// terminator does not change what it reads as.
pub proof fn lemma_decode_wide_stops_at_nul(s: Seq<wchar_t>, t: Seq<wchar_t>)
    ensures
        decode_wide(s.push(0) + t) == decode_wide(s.push(0)),
    decreases s.len(),
{
    let a = s.push(0) + t;
    let b = s.push(0);
    if s.len() == 0 {
        assert(a[0] == 0 && b[0] == 0);
    } else {
        assert(a[0] == s[0] && b[0] == s[0]);
        lemma_decode_wide_stops_at_nul(s.drop_first(), t);
        assert(a.drop_first() =~= s.drop_first().push(0) + t);
        assert(b.drop_first() =~= s.drop_first().push(0));
    }
}

/// Converts the wide string that starts at `wstr` (`None` standing for a
/// null pointer) to a `String`, stopping at the first NUL.
pub fn wchar_to_string(wstr: Option<&[wchar_t]>) -> (r: HidResult<String>)
    ensures
        wstr is None ==> r == Err::<String, HidError>(NULL_POINTER),
        wstr matches Some(w) ==> match decode_wide(w@) {
            Some(cs) => r matches Ok(s) && s@ == cs,
            None => r == Err::<String, HidError>(INVALID_CHAR),
        },
{
    let w = match wstr {
        None => return Err(NULL_POINTER),
        Some(w) => w,
    };
    let mut out = String::new();
    let mut index: usize = 0;
    proof {
        assert(w@.skip(0) =~= w@);
    }
    while index < w.len() && w[index] != 0
        invariant
            wstr == Some(w),
            index <= w@.len(),
            decode_wide(w@) == match decode_wide(w@.skip(index as int)) {
                Some(rest) => Some(out@ + rest),
                None => None::<Seq<char>>,
            },
        decreases w@.len() - index,
    {
        let unit = w[index];
        let ch = match char::from_u32(unit as u32) {
            Some(ch) => ch,
            None => {
                proof {
                    let tail = w@.skip(index as int);
                    assert(tail[0] == unit);
                    assert(decode_wide(tail) is None);
                }
                return Err(INVALID_CHAR);
            },
        };
        proof {
            let tail = w@.skip(index as int);
            assert(tail[0] == unit);
            assert(tail.drop_first() =~= w@.skip(index + 1));
            vstd::utf8::char_u32_cast(ch, unit as u32);
            match decode_wide(w@.skip(index + 1)) {
                Some(rest) => {
                    assert(out@.push(ch) + rest =~= out@ + (seq![ch] + rest));
                },
                None => {},
            }
        }
        out.push(ch);
        index = index + 1;
    }
    proof {
        let tail = w@.skip(index as int);
        assert(tail.len() == 0 || tail[0] == 0);
        assert(out@ + Seq::<char>::empty() =~= out@);
    }
    Ok(out)
}

} // verus!
