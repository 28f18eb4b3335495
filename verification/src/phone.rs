//! Phone-number normalisation and the pairwise matching relation used to
//! resolve contact names and to find the conversation of a number.

use vstd::prelude::*;
use crate::text::string_of;

verus! {

/// An ASCII decimal digit.
pub open spec fn is_digit(c: char) -> bool {
    '0' <= c && c <= '9'
}

/// The digits of `s` in their order, everything else removed.
pub open spec fn digits_of(s: Seq<char>) -> Seq<char> {
    s.filter(|c: char| is_digit(c))
}

/// The last seven items of `s`; meaningful when `s` has at least seven.
pub open spec fn last_seven(s: Seq<char>) -> Seq<char> {
    s.subrange(s.len() - 7, s.len() as int)
}

/// `long` is `short` behind a single leading `1`, and `short` has ten digits.
pub open spec fn country_prefixed(short: Seq<char>, long: Seq<char>) -> bool {
    short.len() == 10 && long == seq!['1'] + short
}

/// The matching relation on normalised numbers.
pub open spec fn digits_match(x: Seq<char>, y: Seq<char>) -> bool {
    ||| x == y
    ||| country_prefixed(x, y)
    ||| country_prefixed(y, x)
    ||| (x.len() >= 7 && y.len() >= 7 && last_seven(x) == last_seven(y))
}

/// Two phone numbers, as written, denote the same subscriber as far as this
/// library can tell.
pub open spec fn numbers_match(a: Seq<char>, b: Seq<char>) -> bool {
    digits_match(digits_of(a), digits_of(b))
}

/// Whether `c` is an ASCII decimal digit.
pub fn is_digit_char(c: char) -> (r: bool)
    ensures
        r == is_digit(c),
{
    c >= '0' && c <= '9'
}

/// The digits of `phone` as a vector of characters.
pub fn digit_chars(phone: &str) -> (out: Vec<char>)
    ensures
        out@ == digits_of(phone@),
{
    let mut out: Vec<char> = Vec::new();
    proof {
        reveal(Seq::filter);
    }
    for c in it: phone.chars()
        invariant
            it.seq() == phone@,
            out@ == digits_of(phone@.take(it.index() as int)),
    {
        proof {
            reveal(Seq::filter);
            let k = it.index() as int;
            assert(phone@.take(k + 1).drop_last() =~= phone@.take(k));
        }
        if is_digit_char(c) {
            out.push(c);
        }
    }
    proof {
        assert(phone@.take(phone@.len() as int) =~= phone@);
    }
    out
}

/// Normalizes a phone number by removing all non-digit characters.
pub fn normalize_phone_number(phone: &str) -> (out: String)
    ensures
        out@ == digits_of(phone@),
{
    let digits = digit_chars(phone);
    string_of(&digits)
}

/// Whether `a[from_a..from_a + n]` and `b[from_b..from_b + n]` hold the same
/// characters.
fn same_range(a: &Vec<char>, from_a: usize, b: &Vec<char>, from_b: usize, n: usize) -> (r: bool)
    requires
        from_a + n <= a.len(),
        from_b + n <= b.len(),
    ensures
        r == (a@.subrange(from_a as int, from_a + n) == b@.subrange(from_b as int, from_b + n)),
{
    let ghost sa = a@.subrange(from_a as int, from_a + n);
    let ghost sb = b@.subrange(from_b as int, from_b + n);
    let mut i: usize = 0;
    while i < n
        invariant
            i <= n,
            from_a + n <= a.len(),
            from_b + n <= b.len(),
            sa == a@.subrange(from_a as int, from_a + n),
            sb == b@.subrange(from_b as int, from_b + n),
            forall|j: int| 0 <= j < i ==> sa[j] == sb[j],
        decreases n - i,
    {
        if a[from_a + i] != b[from_b + i] {
            assert(sa[i as int] != sb[i as int]);
            return false;
        }
        i += 1;
    }
    assert(sa =~= sb);
    true
}

/// The matching relation, decided on two normalised numbers.
pub fn digit_vectors_match(x: &Vec<char>, y: &Vec<char>) -> (r: bool)
    ensures
        r == digits_match(x@, y@),
{
    let n = x.len();
    let m = y.len();
    if n == m && same_range(x, 0, y, 0, n) {
        assert(x@ =~= x@.subrange(0, n as int));
        assert(y@ =~= y@.subrange(0, m as int));
        return true;
    }
    assert(x@ != y@) by {
        if n == m {
            assert(x@ =~= x@.subrange(0, n as int));
            assert(y@ =~= y@.subrange(0, m as int));
        }
    }
    if n == 10 && m == 11 && y[0] == '1' && same_range(x, 0, y, 1, 10) {
        assert(y@ =~= seq!['1'] + x@) by {
            assert(x@ =~= x@.subrange(0, 10));
            assert(y@.subrange(1, 11) == x@);
            assert forall|j: int| 0 <= j < 11 implies y@[j] == (seq!['1'] + x@)[j] by {
                if j > 0 {
                    assert(y@.subrange(1, 11)[j - 1] == y@[j]);
                }
            }
        }
        return true;
    }
    assert(!country_prefixed(x@, y@)) by {
        if country_prefixed(x@, y@) {
            assert(y@[0] == '1');
            assert(x@ =~= x@.subrange(0, 10));
            assert(y@.subrange(1, 11) =~= x@);
        }
    }
    if m == 10 && n == 11 && x[0] == '1' && same_range(y, 0, x, 1, 10) {
        assert(x@ =~= seq!['1'] + y@) by {
            assert(y@ =~= y@.subrange(0, 10));
            assert(x@.subrange(1, 11) == y@);
            assert forall|j: int| 0 <= j < 11 implies x@[j] == (seq!['1'] + y@)[j] by {
                if j > 0 {
                    assert(x@.subrange(1, 11)[j - 1] == x@[j]);
                }
            }
        }
        return true;
    }
    assert(!country_prefixed(y@, x@)) by {
        if country_prefixed(y@, x@) {
            assert(x@[0] == '1');
            assert(y@ =~= y@.subrange(0, 10));
            assert(x@.subrange(1, 11) =~= y@);
        }
    }
    n >= 7 && m >= 7 && same_range(x, n - 7, y, m - 7, 7)
}

/// Checks if two phone numbers match: equal digits, a ten-digit number
/// against the same number behind the country code `1`, or equal last seven
/// digits when both have at least seven.
pub fn phone_numbers_match(phone1: &str, phone2: &str) -> (r: bool)
    ensures
        r == numbers_match(phone1@, phone2@),
{
    let norm1 = digit_chars(phone1);
    let norm2 = digit_chars(phone2);
    digit_vectors_match(&norm1, &norm2)
}

/// Every number matches itself.
pub proof fn lemma_match_reflexive(a: Seq<char>)
    ensures
        numbers_match(a, a),
{
}

/// Matching does not depend on the order of its arguments.
pub proof fn lemma_match_symmetric(a: Seq<char>, b: Seq<char>)
    ensures
        numbers_match(a, b) == numbers_match(b, a),
{
}

} // verus!
