//! Numbers and names as text: decimal notation and the order of names.
use vstd::prelude::*;

verus! {

/// The character of a decimal digit.
pub open spec fn digit_char(digit: nat) -> char {
    (48 + digit) as char
}

/// A number in decimal notation, without leading zeros.
pub open spec fn decimal(n: nat) -> Seq<char>
    decreases n,
{
    if n < 10 {
        seq![digit_char(n)]
    } else {
        decimal(n / 10).push(digit_char(n % 10))
    }
}

/// Whether a text is made of decimal digits alone, at least one of them.
pub open spec fn is_digits(text: Seq<char>) -> bool {
    text.len() > 0 && forall|i: int| 0 <= i < text.len() ==> '0' <= #[trigger] text[i] <= '9'
}

/// The number that a text of decimal digits stands for.
pub open spec fn digits_value(text: Seq<char>) -> int
    decreases text.len(),
{
    if text.len() == 0 {
        0
    } else {
        digits_value(text.drop_last()) * 10 + (text.last() as int - 48)
    }
}

/// What a text stands for when it is read as a `u64`: decimal digits, with at most one plus sign
/// before them, whose value fits.
pub open spec fn number_of(text: Seq<char>) -> Option<u64> {
    let digits = if text.len() > 0 && text[0] == '+' {
        text.skip(1)
    } else {
        text
    };
    if is_digits(digits) && digits_value(digits) <= u64::MAX {
        Some(digits_value(digits) as u64)
    } else {
        None
    }
}

/// Whether the bytes `a` come before the bytes `b` in lexicographic order.
pub open spec fn bytes_before(a: Seq<u8>, b: Seq<u8>) -> bool
    decreases a.len(),
{
    if b.len() == 0 {
        false
    } else if a.len() == 0 {
        true
    } else {
        a[0] < b[0] || (a[0] == b[0] && bytes_before(a.skip(1), b.skip(1)))
    }
}

/// Whether the text `a` comes before the text `b`: texts are ordered by their UTF-8 bytes.
pub open spec fn text_before(a: Seq<char>, b: Seq<char>) -> bool {
    bytes_before(vstd::utf8::encode_utf8(a), vstd::utf8::encode_utf8(b))
}

/// Decimal notation can be read back: it is made of digits whose value is the number.
pub proof fn lemma_decimal_value(n: nat)
    ensures
        is_digits(decimal(n)),
        digits_value(decimal(n)) == n,
    decreases n,
{
    if n < 10 {
        assert(decimal(n).drop_last() =~= Seq::<char>::empty());
        assert(digits_value(decimal(n).drop_last()) == 0);
    } else {
        lemma_decimal_value(n / 10);
        assert(decimal(n).drop_last() =~= decimal(n / 10));
    }
}

/// Different numbers have different decimal notations.
pub proof fn lemma_decimal_injective(m: nat, n: nat)
    requires
        decimal(m) == decimal(n),
    ensures
        m == n,
{
    lemma_decimal_value(m);
    lemma_decimal_value(n);
}

/// Decimal notation has no leading zeros.
pub proof fn lemma_decimal_is_shortest(n: nat)
    ensures
        decimal(n).len() > 0,
        decimal(n).len() == 1 || decimal(n)[0] != '0',
        n > 0 ==> decimal(n)[0] != '0',
    decreases n,
{
    if n >= 10 {
        lemma_decimal_is_shortest(n / 10);
        assert(decimal(n)[0] == decimal(n / 10)[0]);
    }
}

/// Each further digit counts for itself, and makes those before it count for ten times as much.
pub proof fn lemma_digits_count(text: Seq<char>, digit: char)
    ensures
        digits_value(Seq::<char>::empty()) == 0,
        digits_value(text.push(digit)) == 10 * digits_value(text) + (digit as int - '0' as int),
{
    assert(text.push(digit).drop_last() =~= text);
}

/// A text of digits is read as the number that it stands for if that fits, with or without a plus
/// sign before it. No other text is read as a number.
pub proof fn lemma_what_is_read(text: Seq<char>)
    ensures
        is_digits(text) <==> text.len() > 0 && forall|i: int|
            0 <= i < text.len() ==> 48 <= #[trigger] text[i] as int <= 57,
        is_digits(text) && digits_value(text) <= u64::MAX ==> number_of(text) is Some
            && number_of(text)->0 == digits_value(text) && number_of(seq!['+'] + text) is Some
            && number_of(seq!['+'] + text)->0 == digits_value(text),
        is_digits(text) && digits_value(text) > u64::MAX ==> number_of(text) is None && number_of(
            seq!['+'] + text,
        ) is None,
        !is_digits(text) && (text.len() == 0 || text[0] != '+') ==> number_of(text) is None,
        !is_digits(text) ==> number_of(seq!['+'] + text) is None,
{
    assert((seq!['+'] + text).skip(1) =~= text);
    if is_digits(text) {
        assert('0' <= text[0] <= '9');
        lemma_digits_value_nonneg(text);
        assert forall|i: int| 0 <= i < text.len() implies 48 <= #[trigger] text[i] as int <= 57 by {
            assert('0' <= text[i] <= '9');
        }
    }
    if text.len() > 0 && forall|i: int|
        0 <= i < text.len() ==> 48 <= #[trigger] text[i] as int <= 57 {
        assert forall|i: int| 0 <= i < text.len() implies '0' <= #[trigger] text[i] <= '9' by {
            assert(48 <= text[i] as int <= 57);
        }
    }
}

/// The first byte in which two texts differ decides which of them comes first, and a text comes
/// before those that continue it.
pub proof fn lemma_first_difference_decides(
    start: Seq<u8>,
    x: u8,
    y: u8,
    a: Seq<u8>,
    b: Seq<u8>,
)
    requires
        x < y,
    ensures
        bytes_before(start + seq![x] + a, start + seq![y] + b),
        !bytes_before(start + seq![y] + b, start + seq![x] + a),
        bytes_before(start, start + seq![x] + a),
        !bytes_before(start + seq![x] + a, start),
        !bytes_before(start, start),
{
    let (s, t) = (start + seq![x] + a, start + seq![y] + b);
    let len = start.len() as int;
    assert(s.take(len) =~= start);
    assert(t.take(len) =~= start);
    assert(start.take(len) =~= start);
    assert(s.skip(len) =~= seq![x] + a);
    assert(t.skip(len) =~= seq![y] + b);
    assert(start.skip(len).len() == 0);
    lemma_bytes_common_prefix(s, t, len);
    lemma_bytes_common_prefix(t, s, len);
    lemma_bytes_common_prefix(start, s, len);
    lemma_bytes_common_prefix(s, start, len);
    lemma_bytes_irreflexive(start);
}

/// Texts are ordered as their UTF-8 bytes are.
pub proof fn lemma_texts_are_ordered_as_bytes(
    a: Seq<char>,
    b: Seq<char>,
    start: Seq<u8>,
    x: u8,
    y: u8,
    s: Seq<u8>,
    t: Seq<u8>,
)
    requires
        vstd::utf8::encode_utf8(a) == start + seq![x] + s,
    ensures
        vstd::utf8::encode_utf8(b) == start + seq![y] + t && x < y ==> text_before(a, b)
            && !text_before(b, a),
        vstd::utf8::encode_utf8(b) == start ==> text_before(b, a) && !text_before(a, b),
{
    if x < y {
        lemma_first_difference_decides(start, x, y, s, t);
    }
    if x < 255 {
        lemma_first_difference_decides(start, x, 255, s, t);
    } else {
        let u = start + seq![x] + s;
        let len = start.len() as int;
        assert(u.take(len) =~= start);
        assert(start.take(len) =~= start);
        assert(u.skip(len) =~= seq![x] + s);
        assert(start.skip(len).len() == 0);
        lemma_bytes_common_prefix(start, u, len);
        lemma_bytes_common_prefix(u, start, len);
    }
}

/// Reading the decimal notation of a `u64` as a number gives that number back.
pub proof fn lemma_number_of_decimal(n: u64)
    ensures
        number_of(decimal(n as nat)) == Some(n),
{
    lemma_decimal_value(n as nat);
    assert('0' <= decimal(n as nat)[0] <= '9');
}

proof fn lemma_digits_value_prefix(text: Seq<char>, len: int)
    requires
        is_digits(text),
        0 <= len <= text.len(),
    ensures
        0 <= digits_value(text.take(len)) <= digits_value(text),
    decreases text.len() - len, len,
{
    if len == text.len() {
        assert(text.take(len) =~= text);
        lemma_digits_value_nonneg(text);
    } else {
        lemma_digits_value_prefix(text, len + 1);
        assert(text.take(len + 1).drop_last() =~= text.take(len));
        assert('0' <= text[len] <= '9');
        assert(text.take(len + 1).last() == text[len]);
        if len > 0 {
            assert(is_digits(text.take(len))) by {
                assert forall|i: int| 0 <= i < len implies '0' <= #[trigger] text.take(len)[i] <= '9' by {
                    assert(text.take(len)[i] == text[i]);
                }
            }
            lemma_digits_value_nonneg(text.take(len));
        }
    }
}

proof fn lemma_digits_value_nonneg(text: Seq<char>)
    requires
        is_digits(text),
    ensures
        0 <= digits_value(text),
    decreases text.len(),
{
    assert('0' <= text[text.len() - 1] <= '9');
    if text.len() > 1 {
        assert(is_digits(text.drop_last())) by {
            assert forall|i: int| 0 <= i < text.len() - 1 implies '0' <= #[trigger] text.drop_last()[i]
                <= '9' by {
                assert(text.drop_last()[i] == text[i]);
            }
        }
        lemma_digits_value_nonneg(text.drop_last());
    } else {
        assert(digits_value(text.drop_last()) == 0);
    }
}

proof fn lemma_bytes_irreflexive(a: Seq<u8>)
    ensures
        !bytes_before(a, a),
    decreases a.len(),
{
    if a.len() > 0 {
        lemma_bytes_irreflexive(a.skip(1));
    }
}

proof fn lemma_bytes_transitive(a: Seq<u8>, b: Seq<u8>, c: Seq<u8>)
    requires
        bytes_before(a, b),
        bytes_before(b, c),
    ensures
        bytes_before(a, c),
    decreases a.len(),
{
    if a.len() > 0 && a[0] == b[0] && b[0] == c[0] {
        lemma_bytes_transitive(a.skip(1), b.skip(1), c.skip(1));
    }
}

proof fn lemma_bytes_total(a: Seq<u8>, b: Seq<u8>)
    ensures
        a == b || bytes_before(a, b) || bytes_before(b, a),
    decreases a.len(),
{
    if a.len() > 0 && b.len() > 0 && a[0] == b[0] {
        lemma_bytes_total(a.skip(1), b.skip(1));
        if a.skip(1) == b.skip(1) {
            assert forall|i: int| 0 <= i < a.len() implies a[i] == b[i] by {
                if i > 0 {
                    assert(a[i] == a.skip(1)[i - 1]);
                    assert(b[i] == b.skip(1)[i - 1]);
                }
            }
            assert(a.len() == a.skip(1).len() + 1);
            assert(b.len() == b.skip(1).len() + 1);
            assert(a =~= b);
        }
    } else if a.len() == 0 && b.len() == 0 {
        assert(a =~= b);
    }
}

proof fn lemma_bytes_common_prefix(a: Seq<u8>, b: Seq<u8>, i: int)
    requires
        0 <= i <= a.len(),
        i <= b.len(),
        a.take(i) == b.take(i),
    ensures
        bytes_before(a, b) == bytes_before(a.skip(i), b.skip(i)),
    decreases i,
{
    if i == 0 {
        assert(a.skip(0) =~= a);
        assert(b.skip(0) =~= b);
    } else {
        assert(a[0] == a.take(i)[0]);
        assert(b[0] == b.take(i)[0]);
        assert(a.skip(1).take(i - 1) =~= a.take(i).skip(1));
        assert(b.skip(1).take(i - 1) =~= b.take(i).skip(1));
        lemma_bytes_common_prefix(a.skip(1), b.skip(1), i - 1);
        assert(a.skip(1).skip(i - 1) =~= a.skip(i));
        assert(b.skip(1).skip(i - 1) =~= b.skip(i));
    }
}

/// The order of texts is a strict total order.
pub proof fn lemma_text_order(a: Seq<char>, b: Seq<char>, c: Seq<char>)
    ensures
        !text_before(a, a),
        text_before(a, b) && text_before(b, c) ==> text_before(a, c),
        a == b || text_before(a, b) || text_before(b, a),
{
    let (x, y, z) = (vstd::utf8::encode_utf8(a), vstd::utf8::encode_utf8(b), vstd::utf8::encode_utf8(c));
    lemma_bytes_irreflexive(x);
    if bytes_before(x, y) && bytes_before(y, z) {
        lemma_bytes_transitive(x, y, z);
    }
    lemma_bytes_total(x, y);
    vstd::utf8::encode_utf8_decode_utf8(a);
    vstd::utf8::encode_utf8_decode_utf8(b);
}

fn digit_text(digit: u64) -> (text: &'static str)
    requires
        digit < 10,
    ensures
        text@ == seq![digit_char(digit as nat)],
{
    proof {
        reveal_strlit("0");
        reveal_strlit("1");
        reveal_strlit("2");
        reveal_strlit("3");
        reveal_strlit("4");
        reveal_strlit("5");
        reveal_strlit("6");
        reveal_strlit("7");
        reveal_strlit("8");
        reveal_strlit("9");
    }
    match digit {
        0 => "0",
        1 => "1",
        2 => "2",
        3 => "3",
        4 => "4",
        5 => "5",
        6 => "6",
        7 => "7",
        8 => "8",
        _ => "9",
    }
}

/// Appends a number in decimal notation.
pub fn append_decimal(out: &mut String, n: u64)
    ensures
        final(out)@ == old(out)@ + decimal(n as nat),
    decreases n,
{
    if n >= 10 {
        append_decimal(out, n / 10);
    }
    out.append(digit_text(n % 10));
    proof {
        assert(final(out)@ =~= old(out)@ + decimal(n as nat));
    }
}

/// Reads a text as a number; `None` where it is no decimal number or does not fit.
pub fn parse_u64(text: &str) -> (number: Option<u64>)
    ensures
        number == number_of(text@),
{
    let len: usize = text.unicode_len();
    let start: usize = if len > 0 && text.get_char(0) == '+' { 1 } else { 0 };
    let ghost digits = if start == 1 { text@.skip(1) } else { text@ };
    assert(digits =~= text@.skip(start as int));
    if start == len {
        return None;
    }
    let mut value: u64 = 0;
    let mut i: usize = start;
    while i < len
        invariant
            start <= i <= len,
            start < len,
            len == text@.len(),
            digits == text@.skip(start as int),
            number_of(text@) == (if is_digits(digits) && digits_value(digits) <= u64::MAX {
                Some(digits_value(digits) as u64)
            } else {
                None
            }),
            forall|j: int| 0 <= j < i - start ==> '0' <= #[trigger] digits[j] <= '9',
            value == digits_value(digits.take(i - start)),
        decreases len - i,
    {
        let c: char = text.get_char(i);
        proof {
            assert(digits[i - start] == c);
        }
        if c < '0' || '9' < c {
            return None;
        }
        let digit: u64 = (c as u32 - 48) as u64;
        proof {
            assert(digits.take(i - start + 1).drop_last() =~= digits.take(i - start));
            assert(digits.take(i - start + 1).last() == c);
            if is_digits(digits) {
                lemma_digits_value_prefix(digits, i - start + 1);
            }
        }
        if value > (u64::MAX - digit) / 10 {
            return None;
        }
        value = value * 10 + digit;
        i = i + 1;
    }
    assert(digits.take(len - start) =~= digits);
    Some(value)
}

/// Whether the text `a` comes before the text `b`.
pub fn is_text_before(a: &str, b: &str) -> (before: bool)
    ensures
        before == text_before(a@, b@),
{
    let x: &[u8] = a.as_bytes();
    let y: &[u8] = b.as_bytes();
    let mut i: usize = 0;
    while i < x.len() && i < y.len() && x[i] == y[i]
        invariant
            i <= x@.len(),
            i <= y@.len(),
            x@.take(i as int) == y@.take(i as int),
        decreases x@.len() - i,
    {
        proof {
            assert(x@.take(i + 1) =~= x@.take(i as int).push(x@[i as int]));
            assert(y@.take(i + 1) =~= y@.take(i as int).push(y@[i as int]));
        }
        i = i + 1;
    }
    proof {
        lemma_bytes_common_prefix(x@, y@, i as int);
    }
    i < y.len() && (i == x.len() || x[i] < y[i])
}

} // verus!
