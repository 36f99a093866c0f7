//! Decoding of `application/x-www-form-urlencoded` request bodies: the
//! grammar of `name=value` pairs separated by `&`, with percent escapes
//! and `+` for space, and the lookup of the first value bound to a
//! field name.

use vstd::prelude::*;
use vstd::slice::{slice_index_get, slice_subrange};

verus! {

/// Whether the byte is an ASCII hexadecimal digit.
pub open spec fn is_hex_byte(b: u8) -> bool {
    (('0' as u8) <= b && b <= ('9' as u8)) || (('a' as u8) <= b && b <= ('f' as u8)) || ((
    'A' as u8) <= b && b <= ('F' as u8))
}

/// The numeric value of an ASCII hexadecimal digit byte.
pub open spec fn hex_byte_value(b: u8) -> int {
    if ('0' as u8) <= b && b <= ('9' as u8) {
        b - ('0' as u8)
    } else if ('a' as u8) <= b && b <= ('f' as u8) {
        b - ('a' as u8) + 10
    } else {
        b - ('A' as u8) + 10
    }
}

/// Percent-decoding of form data: `%hh` stands for the byte with hex
/// value `hh`, `+` stands for a space, and a `%` not followed by two
/// hex digits stands for itself.
pub open spec fn spec_form_decode(s: Seq<u8>) -> Seq<u8>
    decreases s.len(),
{
    if s.len() == 0 {
        Seq::empty()
    } else if s[0] == ('%' as u8) && s.len() >= 3 && is_hex_byte(s[1]) && is_hex_byte(s[2]) {
        seq![(hex_byte_value(s[1]) * 16 + hex_byte_value(s[2])) as u8] + spec_form_decode(
            s.skip(3),
        )
    } else if s[0] == ('+' as u8) {
        seq![(' ' as u8)] + spec_form_decode(s.skip(1))
    } else {
        seq![s[0]] + spec_form_decode(s.skip(1))
    }
}

/// The index of the first occurrence of `d` in `s`, or `s.len()` when
/// `d` does not occur.
pub open spec fn spec_find(s: Seq<u8>, d: u8) -> int
    decreases s.len(),
{
    if s.len() == 0 {
        0
    } else if s[0] == d {
        0
    } else {
        1 + spec_find(s.skip(1), d)
    }
}

/// `spec_find` lands in bounds, everything before it differs from the
/// needle, and when it lands inside the sequence it lands on the
/// needle.
pub proof fn lemma_spec_find(s: Seq<u8>, d: u8)
    ensures
        0 <= spec_find(s, d) <= s.len(),
        forall|j: int| 0 <= j < spec_find(s, d) ==> s[j] != d,
        spec_find(s, d) < s.len() ==> s[spec_find(s, d)] == d,
    decreases s.len(),
{
    if s.len() == 0 {
    } else if s[0] == d {
    } else {
        lemma_spec_find(s.skip(1), d);
        assert forall|j: int| 0 <= j < spec_find(s, d) implies s[j] != d by {
            if j >= 1 {
                assert(s.skip(1)[j - 1] == s[j]);
            }
        }
        if spec_find(s, d) < s.len() {
            assert(s.skip(1)[spec_find(s, d) - 1] == s[spec_find(s, d)]);
        }
    }
}

/// `spec_find` is the unique in-bounds index with nothing equal to the
/// needle before it that is either the needle or the end.
proof fn lemma_find_at(s: Seq<u8>, d: u8, i: int)
    requires
        0 <= i <= s.len(),
        forall|j: int| 0 <= j < i ==> s[j] != d,
        i < s.len() ==> s[i] == d,
    ensures
        spec_find(s, d) == i,
    decreases s.len(),
{
    if s.len() == 0 {
    } else if s[0] == d {
        assert(i == 0);
    } else {
        assert(i >= 1);
        assert forall|j: int| 0 <= j < i - 1 implies s.skip(1)[j] != d by {
            assert(s.skip(1)[j] == s[j + 1]);
        }
        if i - 1 < s.len() - 1 {
            assert(s.skip(1)[i - 1] == s[i]);
        }
        lemma_find_at(s.skip(1), d, i - 1);
    }
}

/// The decoded value carried by one `name[=value]` segment: what
/// follows the first `=`, decoded, or the empty value when the segment
/// has no `=`.
pub open spec fn spec_segment_value(seg: Seq<u8>) -> Seq<u8> {
    if spec_find(seg, '=' as u8) < seg.len() {
        spec_form_decode(seg.skip(spec_find(seg, '=' as u8) + 1))
    } else {
        Seq::empty()
    }
}

/// The decoded name of one `name[=value]` segment: what precedes the
/// first `=`, decoded.
pub open spec fn spec_segment_name(seg: Seq<u8>) -> Seq<u8> {
    spec_form_decode(seg.take(spec_find(seg, '=' as u8)))
}

/// The decoded value of the first `&`-separated segment of `body`
/// whose decoded name is `name`, or nothing when no segment has that
/// name.
pub open spec fn spec_first_value(body: Seq<u8>, name: Seq<u8>) -> Option<Seq<u8>>
    decreases body.len(),
{
    proof {
        lemma_spec_find(body, '&' as u8);
        lemma_spec_find(body.take(spec_find(body, '&' as u8)), '=' as u8);
    }
    {
        let amp = spec_find(body, '&' as u8);
        let seg = body.take(amp);
        if spec_segment_name(seg) == name {
            Some(spec_segment_value(seg))
        } else if amp < body.len() {
            spec_first_value(body.skip(amp + 1), name)
        } else {
            None
        }
    }
}

/// The numeric value of one hexadecimal digit byte, or nothing when
/// the byte is not a digit.
pub fn hex_byte(b: u8) -> (r: Option<u8>)
    ensures
        r is Some <==> is_hex_byte(b),
        r matches Some(v) ==> v as int == hex_byte_value(b) && v < 16,
{
    if ('0' as u8) <= b && b <= ('9' as u8) {
        Some(b - ('0' as u8))
    } else if ('a' as u8) <= b && b <= ('f' as u8) {
        Some(b - ('a' as u8) + 10)
    } else if ('A' as u8) <= b && b <= ('F' as u8) {
        Some(b - ('A' as u8) + 10)
    } else {
        None
    }
}

/// Percent-decode form data bytes.
pub fn form_decode(s: &[u8]) -> (r: Vec<u8>)
    ensures
        r@ == spec_form_decode(s@),
{
    let n = s.len();
    let mut out: Vec<u8> = Vec::new();
    let mut i: usize = 0;
    proof {
        assert(s@.skip(0) =~= s@);
        assert(Seq::<u8>::empty() + spec_form_decode(s@) =~= spec_form_decode(s@));
    }
    while i < n
        invariant
            n == s@.len(),
            i <= n,
            spec_form_decode(s@) == out@ + spec_form_decode(s@.skip(i as int)),
        decreases n - i,
    {
        let ghost out_pre = out@;
        proof {
            assert(s@.skip(i as int)[0] == s@[i as int]);
        }
        let b0 = *slice_index_get(s, i);
        if b0 == ('%' as u8) && n - i > 2 {
            proof {
                assert(s@.skip(i as int)[1] == s@[i as int + 1]);
                assert(s@.skip(i as int)[2] == s@[i as int + 2]);
            }
            let h1 = hex_byte(*slice_index_get(s, i + 1));
            let h2 = hex_byte(*slice_index_get(s, i + 2));
            match (h1, h2) {
                (Some(v1), Some(v2)) => {
                    out.push(v1 * 16 + v2);
                    proof {
                        assert(s@.skip(i as int).skip(3) =~= s@.skip(i as int + 3));
                        assert(out_pre + (seq![(v1 * 16 + v2) as u8] + spec_form_decode(
                            s@.skip(i as int + 3),
                        )) =~= out@ + spec_form_decode(s@.skip(i as int + 3)));
                    }
                    i = i + 3;
                },
                _ => {
                    out.push(b0);
                    proof {
                        assert(s@.skip(i as int).skip(1) =~= s@.skip(i as int + 1));
                        assert(out_pre + (seq![s@[i as int]] + spec_form_decode(
                            s@.skip(i as int + 1),
                        )) =~= out@ + spec_form_decode(s@.skip(i as int + 1)));
                    }
                    i = i + 1;
                },
            }
        } else if b0 == ('+' as u8) {
            out.push(' ' as u8);
            proof {
                assert(s@.skip(i as int).skip(1) =~= s@.skip(i as int + 1));
                assert(out_pre + (seq![(' ' as u8)] + spec_form_decode(s@.skip(i as int + 1)))
                    =~= out@ + spec_form_decode(s@.skip(i as int + 1)));
            }
            i = i + 1;
        } else {
            out.push(b0);
            proof {
                assert(s@.skip(i as int).skip(1) =~= s@.skip(i as int + 1));
                assert(out_pre + (seq![s@[i as int]] + spec_form_decode(s@.skip(i as int + 1)))
                    =~= out@ + spec_form_decode(s@.skip(i as int + 1)));
            }
            i = i + 1;
        }
    }
    proof {
        assert(s@.skip(n as int) =~= Seq::<u8>::empty());
        assert(out@ + Seq::<u8>::empty() =~= out@);
    }
    out
}

/// The index of the first occurrence of `d`, or the length when `d`
/// does not occur.
pub fn find_byte(s: &[u8], d: u8) -> (r: usize)
    ensures
        r as int == spec_find(s@, d),
{
    let n = s.len();
    let mut i: usize = 0;
    while i < n
        invariant
            n == s@.len(),
            i <= n,
            forall|j: int| 0 <= j < i ==> s@[j] != d,
        decreases n - i,
    {
        if *slice_index_get(s, i) == d {
            proof {
                lemma_find_at(s@, d, i as int);
            }
            return i;
        }
        i = i + 1;
    }
    proof {
        lemma_find_at(s@, d, n as int);
    }
    n
}

/// Equality of two byte strings.
pub fn bytes_eq(a: &[u8], b: &[u8]) -> (r: bool)
    ensures
        r == (a@ == b@),
{
    let alen = a.len();
    if alen != b.len() {
        return false;
    }
    let mut i: usize = 0;
    while i < alen
        invariant
            alen == a@.len(),
            alen == b@.len(),
            i <= alen,
            forall|j: int| 0 <= j < i ==> a@[j] == b@[j],
        decreases alen - i,
    {
        if *slice_index_get(a, i) != *slice_index_get(b, i) {
            return false;
        }
        i = i + 1;
    }
    proof {
        assert(a@ =~= b@);
    }
    true
}

/// Look up the decoded value of the first form field named `name` in a
/// form-encoded body.
pub fn form_first_value(body: &[u8], name: &[u8]) -> (r: Option<Vec<u8>>)
    ensures
        r is Some <==> spec_first_value(body@, name@) is Some,
        r matches Some(v) ==> Some(v@) == spec_first_value(body@, name@),
{
    let mut rest: &[u8] = body;
    proof {
        assert(rest@ == body@);
    }
    loop
        invariant
            spec_first_value(body@, name@) == spec_first_value(rest@, name@),
        decreases rest@.len(),
    {
        proof {
            lemma_spec_find(rest@, '&' as u8);
        }
        let amp = find_byte(rest, '&' as u8);
        let seg = slice_subrange(rest, 0, amp);
        proof {
            assert(seg@ =~= rest@.take(spec_find(rest@, '&' as u8)));
            lemma_spec_find(seg@, '=' as u8);
        }
        let eq = find_byte(seg, '=' as u8);
        let seg_name = form_decode(slice_subrange(seg, 0, eq));
        proof {
            assert(rest@.take(amp as int).take(eq as int) =~= seg@.subrange(0, eq as int));
        }
        if bytes_eq(seg_name.as_slice(), name) {
            let value: Vec<u8> = if eq < seg.len() {
                let v = form_decode(slice_subrange(seg, eq + 1, seg.len()));
                proof {
                    assert(seg@.subrange(eq as int + 1, seg@.len() as int) =~= seg@.skip(
                        eq as int + 1,
                    ));
                }
                v
            } else {
                Vec::new()
            };
            proof {
                assert(spec_first_value(rest@, name@) == Some(spec_segment_value(seg@)));
            }
            return Some(value);
        }
        if amp == rest.len() {
            return None;
        }
        let next = slice_subrange(rest, amp + 1, rest.len());
        proof {
            assert(next@ =~= rest@.skip(amp as int + 1));
        }
        rest = next;
    }
}

} // verus!
