//! Parsing of the port argument given at startup: a nonempty string of
//! decimal digits whose value fits a port number.

use vstd::prelude::*;
use vstd::string::*;

verus! {

/// A decimal digit.
pub open spec fn is_port_digit(c: char) -> bool {
    '0' as int <= c as int <= '9' as int
}

/// The value of a decimal digit.
pub open spec fn digit_value(c: char) -> int {
    c as int - '0' as int
}

/// The number a string of decimal digits denotes, most significant digit
/// first.
pub open spec fn decimal_value(s: Seq<char>) -> int
    decreases s.len(),
{
    if s.len() == 0 {
        0
    } else {
        decimal_value(s.drop_last()) * 10 + digit_value(s.last())
    }
}

/// Every character of the string is a decimal digit.
pub open spec fn all_digits(s: Seq<char>) -> bool {
    forall|i: int| 0 <= i < s.len() ==> is_port_digit(s[i])
}

/// A legal port argument: nonempty, digits only, and a value no greater than
/// the largest port number.
pub open spec fn valid_port_str(s: Seq<char>) -> bool {
    &&& s.len() > 0
    &&& all_digits(s)
    &&& decimal_value(s) <= 65535
}

proof fn lemma_decimal_value_nonneg(s: Seq<char>)
    requires
        all_digits(s),
    ensures
        decimal_value(s) >= 0,
    decreases s.len(),
{
    if s.len() > 0 {
        assert(all_digits(s.drop_last()));
        lemma_decimal_value_nonneg(s.drop_last());
    }
}

/// Reading further digits never makes the number smaller: the value of a
/// prefix bounds the value of the whole string from below.
proof fn lemma_decimal_value_prefix_le(s: Seq<char>, i: int)
    requires
        all_digits(s),
        0 <= i <= s.len(),
    ensures
        decimal_value(s.take(i)) <= decimal_value(s),
    decreases s.len() - i,
{
    if i == s.len() {
        assert(s.take(i) =~= s);
    } else {
        lemma_decimal_value_prefix_le(s, i + 1);
        assert(s.take(i + 1).drop_last() =~= s.take(i));
        assert(all_digits(s.take(i)));
        lemma_decimal_value_nonneg(s.take(i));
        assert(decimal_value(s.take(i + 1)) == decimal_value(s.take(i)) * 10 + digit_value(
            s.take(i + 1).last(),
        ));
    }
}

/// Parses the port argument. Returns the port exactly when the string is a
/// legal port argument, and nothing on every other string.
pub fn parse_port(s: &str) -> (r: Option<u16>)
    ensures
        r is Some <==> valid_port_str(s@),
        r is Some ==> r->0 as int == decimal_value(s@),
{
    let n = s.unicode_len();
    if n == 0 {
        return None;
    }
    let mut i: usize = 0;
    let mut acc: u32 = 0;
    while i < n
        invariant
            0 < n == s@.len(),
            0 <= i <= n,
            forall|j: int| 0 <= j < i ==> is_port_digit(s@[j]),
            acc as int == decimal_value(s@.take(i as int)),
            acc <= 65535,
        decreases n - i,
    {
        let c = s.get_char(i);
        let u = c as u32;
        if u < 48 || u > 57 {
            assert(!is_port_digit(s@[i as int]));
            return None;
        }
        let d: u32 = u - 48;
        let next: u32 = acc * 10 + d;
        proof {
            assert(s@.take(i as int + 1).drop_last() =~= s@.take(i as int));
            assert(s@.take(i as int + 1).last() == s@[i as int]);
        }
        if next > 65535 {
            proof {
                if all_digits(s@) {
                    lemma_decimal_value_prefix_le(s@, i as int + 1);
                }
            }
            return None;
        }
        acc = next;
        i += 1;
    }
    proof {
        assert(s@.take(n as int) =~= s@);
    }
    Some(acc as u16)
}

} // verus!
