//! Case-insensitive comparison of text.
use crate::order::{compare_str, lemma_text_order_equal, Order};
use vstd::prelude::*;
use vstd::utf8::encode_utf8;

verus! {

/// The byte `b` with an ASCII upper-case letter mapped to its lower-case form.
pub open spec fn ascii_lower(b: u8) -> u8 {
    if 65 <= b <= 90 {
        (b + 32) as u8
    } else {
        b
    }
}

/// Whether two byte strings are equal once ASCII letters are lower-cased.
pub open spec fn bytes_eq_ignore_ascii_case(a: Seq<u8>, b: Seq<u8>) -> bool {
    &&& a.len() == b.len()
    &&& forall|i: int| 0 <= i < a.len() ==> #[trigger] ascii_lower(a[i]) == ascii_lower(b[i])
}

/// Whether two texts match with ASCII letters compared case-insensitively, as
/// `str::eq_ignore_ascii_case` decides it: on their UTF-8 bytes.
pub open spec fn text_eq_ignore_ascii_case(a: Seq<char>, b: Seq<char>) -> bool {
    bytes_eq_ignore_ascii_case(encode_utf8(a), encode_utf8(b))
}

/// Whether `x` and `y` are the same byte, or the same ASCII letter in upper and
/// lower case.
pub open spec fn same_byte_any_ascii_case(x: u8, y: u8) -> bool {
    ||| x == y
    ||| 65 <= x <= 90 && y == x + 32
    ||| 65 <= y <= 90 && x == y + 32
}

/// Case-insensitive matching folds exactly the ASCII letters: two byte strings
/// match exactly when they have the same length and, at each position, the same
/// byte or the same ASCII letter in upper and lower case.
pub proof fn ascii_case_match_is_letter_folding(a: Seq<u8>, b: Seq<u8>)
    ensures
        bytes_eq_ignore_ascii_case(a, b) <==> (a.len() == b.len() && forall|i: int|
            0 <= i < a.len() ==> #[trigger] same_byte_any_ascii_case(a[i], b[i])),
{
    assert forall|i: int| 0 <= i < a.len() && i < b.len() implies (ascii_lower(a[i]) == ascii_lower(b[i])
        <==> #[trigger] same_byte_any_ascii_case(a[i], b[i])) by {}
    if bytes_eq_ignore_ascii_case(a, b) {
        assert forall|i: int| 0 <= i < a.len() implies #[trigger] same_byte_any_ascii_case(a[i], b[i]) by {
            assert(ascii_lower(a[i]) == ascii_lower(b[i]));
        }
    }
    if a.len() == b.len() && forall|i: int| 0 <= i < a.len() ==> #[trigger] same_byte_any_ascii_case(a[i], b[i]) {
        assert forall|i: int| 0 <= i < a.len() implies #[trigger] ascii_lower(a[i]) == ascii_lower(b[i]) by {
            assert(same_byte_any_ascii_case(a[i], b[i]));
        }
    }
}

/// Whether two strings are equal.
pub fn str_eq(a: &str, b: &str) -> (r: bool)
    ensures
        r == (a@ == b@),
{
    proof {
        lemma_text_order_equal(a@, b@);
    }
    compare_str(a, b) == Order::Equal
}

/// Checks that two strings are an ASCII case-insensitive match.
pub fn eq_ignore_ascii_case(a: &str, b: &str) -> (r: bool)
    ensures
        r == text_eq_ignore_ascii_case(a@, b@),
        r == (encode_utf8(a@).len() == encode_utf8(b@).len() && forall|i: int|
            0 <= i < encode_utf8(a@).len() ==> #[trigger] same_byte_any_ascii_case(
                encode_utf8(a@)[i],
                encode_utf8(b@)[i],
            )),
{
    proof {
        ascii_case_match_is_letter_folding(encode_utf8(a@), encode_utf8(b@));
    }
    let x = a.as_bytes();
    let y = b.as_bytes();
    if x.len() != y.len() {
        return false;
    }
    let mut i: usize = 0;
    while i < x.len()
        invariant
            x@ == encode_utf8(a@),
            y@ == encode_utf8(b@),
            x.len() == y.len(),
            i <= x.len(),
            forall|j: int| 0 <= j < i ==> #[trigger] ascii_lower(x@[j]) == ascii_lower(y@[j]),
        decreases x.len() - i,
    {
        let p = x[i];
        let q = y[i];
        let lp = if 65 <= p && p <= 90 {
            p + 32
        } else {
            p
        };
        let lq = if 65 <= q && q <= 90 {
            q + 32
        } else {
            q
        };
        if lp != lq {
            assert(ascii_lower(x@[i as int]) != ascii_lower(y@[i as int]));
            proof {
                ascii_case_match_is_letter_folding(x@, y@);
            }
            return false;
        }
        i = i + 1;
    }
    true
}

} // verus!
