//! Gateway transaction identifiers: unsigned 64-bit integers on the wire, decimal
//! text in the canonical model.

use crate::digits::{digit_char, digit_text, digit_value, is_decimal_digit};
use crate::errors::{ConnectorError, ConnectorErrorView};
use vstd::prelude::*;
use vstd::string::*;
use vstd::utf8::is_ascii_chars;

verus! {

/// Whether every character of `s` is a decimal digit.
pub open spec fn all_decimal_digits(s: Seq<char>) -> bool {
    forall|i: int| 0 <= i < s.len() ==> is_decimal_digit(#[trigger] s[i])
}

/// The number that a sequence of decimal digits writes, most significant digit first.
pub open spec fn decimal_value(s: Seq<char>) -> int
    decreases s.len(),
{
    if s.len() == 0 {
        0
    } else {
        decimal_value(s.drop_last()) * 10 + digit_value(s.last())
    }
}

/// The digits of an identifier's text: the text itself, without a leading plus sign.
pub open spec fn unsigned_part(s: Seq<char>) -> Seq<char> {
    if s.len() > 0 && s[0] == '+' {
        s.subrange(1, s.len() as int)
    } else {
        s
    }
}

/// Whether `s` writes a transaction identifier: an optional plus sign, then at least
/// one decimal digit, the whole not above the largest unsigned 64-bit integer.
pub open spec fn is_transaction_id(s: Seq<char>) -> bool {
    let digits = unsigned_part(s);
    &&& digits.len() > 0
    &&& all_decimal_digits(digits)
    &&& decimal_value(digits) <= u64::MAX
}

/// The identifier that `s` writes, where `is_transaction_id(s)` holds.
pub open spec fn transaction_id_value(s: Seq<char>) -> int {
    decimal_value(unsigned_part(s))
}

/// The decimal text of `n`: no sign, no leading zero but for zero itself.
pub open spec fn decimal_text(n: nat) -> Seq<char>
    decreases n,
{
    if n < 10 {
        seq![digit_char(n as int)]
    } else {
        decimal_text(n / 10).push(digit_char((n % 10) as int))
    }
}

/// A run of digits is worth at least as much as any of its prefixes.
proof fn lemma_prefix_value(s: Seq<char>, k: int)
    requires
        all_decimal_digits(s),
        0 <= k <= s.len(),
    ensures
        0 <= decimal_value(s.take(k)) <= decimal_value(s),
    decreases s.len() - k,
{
    if k == s.len() {
        assert(s.take(k) =~= s);
        lemma_value_nonnegative(s);
    } else {
        lemma_prefix_value(s, k + 1);
        let longer = s.take(k + 1);
        assert(longer.drop_last() =~= s.take(k));
        assert(is_decimal_digit(s[k]));
        assert(longer.last() == s[k]);
        lemma_value_nonnegative(s.take(k));
    }
}

proof fn lemma_value_nonnegative(s: Seq<char>)
    requires
        all_decimal_digits(s),
    ensures
        0 <= decimal_value(s),
    decreases s.len(),
{
    if s.len() > 0 {
        assert(is_decimal_digit(s[s.len() - 1]));
        lemma_value_nonnegative(s.drop_last());
    }
}

/// Reads a gateway transaction identifier from its text.
///
/// The text is accepted exactly when it is an optional plus sign followed by decimal
/// digits that stay within 64 bits; anything else is a request-encoding error.
pub fn parse_transaction_id(text: &str) -> (r: Result<u64, ConnectorError>)
    ensures
        match r {
            Ok(id) => is_transaction_id(text@) && id == transaction_id_value(text@),
            Err(e) => !is_transaction_id(text@) && e@ == ConnectorErrorView::RequestEncodingFailed,
        },
{
    broadcast use is_ascii_spec_bytes;

    if !text.is_ascii() {
        proof {
            let bad = choose|i: int|
                0 <= i < text@.len() && !('\0' <= #[trigger] text@[i] <= '\u{7f}');
            if text@[0] == '+' {
                assert(bad >= 1);
                assert(unsigned_part(text@)[bad - 1] == text@[bad]);
            }
        }
        return Err(ConnectorError::RequestEncodingFailed);
    }
    let bytes = text.as_bytes();
    let n: usize = bytes.len();
    assert(bytes@ =~= Seq::new(text@.len(), |i: int| text@[i] as u8));
    let start: usize = if n > 0 && bytes[0] == 43u8 {
        1
    } else {
        0
    };
    let ghost digits = unsigned_part(text@);
    assert(digits =~= text@.subrange(start as int, n as int));
    if start == n {
        return Err(ConnectorError::RequestEncodingFailed);
    }
    let mut value: u64 = 0;
    let mut i: usize = start;
    while i < n
        invariant
            start <= i <= n,
            n == text@.len(),
            n == bytes@.len(),
            is_ascii_chars(text@),
            forall|j: int| 0 <= j < n ==> bytes@[j] == text@[j] as u8,
            digits == unsigned_part(text@),
            digits == text@.subrange(start as int, n as int),
            all_decimal_digits(digits.take(i - start)),
            value == decimal_value(digits.take(i - start)),
        decreases n - i,
    {
        let b: u8 = bytes[i];
        let ghost c = text@[i as int];
        assert(digits[i - start] == c);
        assert('\0' <= c <= '\u{7f}');
        if b < 48u8 || b > 57u8 {
            assert(!is_decimal_digit(c));
            return Err(ConnectorError::RequestEncodingFailed);
        }
        let d: u64 = (b - 48u8) as u64;
        let ghost longer = digits.take(i - start + 1);
        proof {
            assert(is_decimal_digit(c));
            assert(longer.drop_last() =~= digits.take(i - start));
            assert(longer.last() == c);
            assert(digit_value(c) == d);
            assert(decimal_value(longer) == value * 10 + d);
            assert forall|j: int| 0 <= j < longer.len() implies is_decimal_digit(
                #[trigger] longer[j],
            ) by {
                if j < i - start {
                    assert(digits.take(i - start)[j] == longer[j]);
                }
            }
        }
        if value > (u64::MAX - d) / 10 {
            proof {
                if all_decimal_digits(digits) {
                    lemma_prefix_value(digits, i - start + 1);
                }
            }
            return Err(ConnectorError::RequestEncodingFailed);
        }
        value = value * 10 + d;
        i = i + 1;
    }
    assert(digits.take(i - start) =~= digits);
    Ok(value)
}

/// Writes a gateway transaction identifier as the decimal text that the canonical
/// model carries.
pub fn render_transaction_id(id: u64) -> (r: String)
    ensures
        r@ == decimal_text(id as nat),
    decreases id,
{
    if id < 10 {
        digit_text(id).to_owned()
    } else {
        let head = render_transaction_id(id / 10);
        head.concat(digit_text(id % 10))
    }
}

/// The text of a number is a run of digits that is worth that number.
pub proof fn lemma_decimal_text_value(n: nat)
    ensures
        decimal_text(n).len() > 0,
        all_decimal_digits(decimal_text(n)),
        decimal_value(decimal_text(n)) == n,
        decimal_text(n)[0] != '+',
    decreases n,
{
    if n < 10 {
        let s = decimal_text(n);
        assert(s.drop_last() =~= Seq::<char>::empty());
        assert(decimal_value(s.drop_last()) == 0);
    } else {
        lemma_decimal_text_value(n / 10);
        let head = decimal_text(n / 10);
        let s = decimal_text(n);
        assert(s.drop_last() =~= head);
        assert(s.last() == digit_char((n % 10) as int));
        assert forall|i: int| 0 <= i < s.len() implies is_decimal_digit(#[trigger] s[i]) by {
            if i < head.len() {
                assert(s[i] == head[i]);
            }
        }
        assert(s[0] == head[0]);
    }
}

/// Rendering an identifier and reading the text back gives the identifier again.
pub proof fn lemma_render_then_parse(id: u64)
    ensures
        is_transaction_id(decimal_text(id as nat)),
        transaction_id_value(decimal_text(id as nat)) == id,
{
    lemma_decimal_text_value(id as nat);
}

/// Whether `s` is written the way identifiers are rendered: digits only, and no
/// leading zero but for zero itself.
pub open spec fn is_canonical_decimal(s: Seq<char>) -> bool {
    &&& s.len() > 0
    &&& all_decimal_digits(s)
    &&& (s.len() == 1 || s[0] != '0')
}

/// Reading an identifier that is written canonically and rendering it again gives
/// the same text.
pub proof fn lemma_parse_then_render(s: Seq<char>)
    requires
        is_canonical_decimal(s),
    ensures
        unsigned_part(s) == s,
        decimal_value(s) >= 0,
        decimal_text(decimal_value(s) as nat) == s,
    decreases s.len(),
{
    assert(is_decimal_digit(s[0]));
    lemma_value_nonnegative(s);
    let last = s.last();
    assert(is_decimal_digit(last));
    assert(digit_char(digit_value(last)) == last);
    if s.len() == 1 {
        assert(s.drop_last() =~= Seq::<char>::empty());
        assert(decimal_value(s.drop_last()) == 0);
        assert(decimal_text(decimal_value(s) as nat) =~= s);
    } else {
        let init = s.drop_last();
        assert(init[0] == s[0]);
        assert forall|i: int| 0 <= i < init.len() implies is_decimal_digit(#[trigger] init[i]) by {
            assert(init[i] == s[i]);
        }
        lemma_parse_then_render(init);
        lemma_prefix_value(init, 1);
        let first = init.take(1);
        assert(first.drop_last() =~= Seq::<char>::empty());
        assert(decimal_value(first.drop_last()) == 0);
        assert(decimal_value(first) == digit_value(init[0]));
        assert(decimal_value(init) >= 1);
        let n = decimal_value(s);
        assert(n == decimal_value(init) * 10 + digit_value(last));
        assert(n / 10 == decimal_value(init));
        assert(n % 10 == digit_value(last));
        assert(decimal_text(n as nat) =~= init.push(last));
        assert(init.push(last) =~= s);
    }
}

} // verus!
