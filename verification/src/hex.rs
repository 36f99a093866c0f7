//! Hexadecimal digits and the decoding of a hex string into bytes,
//! used for signature headers.  Both upper- and lower-case digits are
//! accepted, so two encodings of the same tag compare equal once
//! decoded.

use vstd::prelude::*;
use vstd::string::StrSliceExecFns;

verus! {

/// Whether the character is an ASCII hexadecimal digit.
pub open spec fn is_hex_char(c: char) -> bool {
    (('0' as u32) <= (c as u32) && (c as u32) <= ('9' as u32)) || (('a' as u32) <= (c as u32)
        && (c as u32) <= ('f' as u32)) || (('A' as u32) <= (c as u32) && (c as u32) <= ('F'
        as u32))
}

/// The numeric value of a hexadecimal digit character.
pub open spec fn hex_char_value(c: char) -> int {
    if ('0' as u32) <= (c as u32) && (c as u32) <= ('9' as u32) {
        (c as u32) - ('0' as u32)
    } else if ('a' as u32) <= (c as u32) && (c as u32) <= ('f' as u32) {
        (c as u32) - ('a' as u32) + 10
    } else {
        (c as u32) - ('A' as u32) + 10
    }
}

/// The bytes a hex string stands for: two digits per byte, high nibble
/// first.  A string of odd length, or one holding a non-digit, stands
/// for nothing.
pub open spec fn spec_hex_decode(s: Seq<char>) -> Option<Seq<u8>>
    decreases s.len(),
{
    if s.len() == 0 {
        Some(Seq::empty())
    } else if s.len() >= 2 && is_hex_char(s[0]) && is_hex_char(s[1]) {
        match spec_hex_decode(s.skip(2)) {
            Some(rest) => Some(
                seq![(hex_char_value(s[0]) * 16 + hex_char_value(s[1])) as u8] + rest,
            ),
            None => None,
        }
    } else {
        None
    }
}

/// The value of one hexadecimal digit character, or nothing when the
/// character is not a digit.
pub fn hex_char(c: char) -> (r: Option<u8>)
    ensures
        r is Some <==> is_hex_char(c),
        r matches Some(v) ==> v as int == hex_char_value(c) && v < 16,
{
    let u = c as u32;
    if ('0' as u32) <= u && u <= ('9' as u32) {
        Some((u - ('0' as u32)) as u8)
    } else if ('a' as u32) <= u && u <= ('f' as u32) {
        Some((u - ('a' as u32) + 10) as u8)
    } else if ('A' as u32) <= u && u <= ('F' as u32) {
        Some((u - ('A' as u32) + 10) as u8)
    } else {
        None
    }
}

/// Decode a hex string into the bytes it stands for.
pub fn hex_decode(s: &str) -> (r: Option<Vec<u8>>)
    ensures
        r is Some <==> spec_hex_decode(s@) is Some,
        r matches Some(v) ==> Some(v@) == spec_hex_decode(s@),
{
    let n = s.unicode_len();
    let mut out: Vec<u8> = Vec::new();
    let mut i: usize = 0;
    proof {
        assert(s@.skip(0) =~= s@);
        match spec_hex_decode(s@) {
            Some(rest) => {
                assert(Seq::<u8>::empty() + rest =~= rest);
            },
            None => {},
        }
    }
    while i < n
        invariant
            n == s@.len(),
            i <= n,
            spec_hex_decode(s@) == (match spec_hex_decode(s@.skip(i as int)) {
                Some(rest) => Some(out@ + rest),
                None => None::<Seq<u8>>,
            }),
        decreases n - i,
    {
        proof {
            assert(s@.skip(i as int)[0] == s@[i as int]);
        }
        if i + 1 >= n {
            return None;
        }
        proof {
            assert(s@.skip(i as int)[1] == s@[i as int + 1]);
            assert(s@.skip(i as int).skip(2) =~= s@.skip(i as int + 2));
        }
        let c0 = s.get_char(i);
        let c1 = s.get_char(i + 1);
        let h0 = match hex_char(c0) {
            Some(v) => v,
            None => {
                return None;
            },
        };
        let h1 = match hex_char(c1) {
            Some(v) => v,
            None => {
                return None;
            },
        };
        let ghost out_pre = out@;
        out.push(h0 * 16 + h1);
        proof {
            match spec_hex_decode(s@.skip(i as int + 2)) {
                Some(rest) => {
                    assert(out_pre + (seq![(h0 * 16 + h1) as u8] + rest) =~= out@ + rest);
                },
                None => {},
            }
        }
        i = i + 2;
    }
    proof {
        assert(s@.skip(n as int) =~= Seq::<char>::empty());
    }
    Some(out)
}

} // verus!
