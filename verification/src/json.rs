//! Strings and numbers as JSON text.
use vstd::prelude::*;

#[allow(unused_imports)]
use crate::text;

verus! {

/// The character of a hexadecimal digit.
pub open spec fn hex_char(digit: int) -> char {
    if digit < 10 {
        (48 + digit) as char
    } else {
        (87 + digit) as char
    }
}

/// A character inside a JSON string.
pub open spec fn escaped_char(c: char) -> Seq<char> {
    if c == '"' {
        seq!['\\', '"']
    } else if c == '\\' {
        seq!['\\', '\\']
    } else if c == '\u{8}' {
        seq!['\\', 'b']
    } else if c == '\t' {
        seq!['\\', 't']
    } else if c == '\n' {
        seq!['\\', 'n']
    } else if c == '\u{c}' {
        seq!['\\', 'f']
    } else if c == '\r' {
        seq!['\\', 'r']
    } else if c as int <= 31 {
        seq!['\\', 'u', '0', '0', hex_char(c as int / 16), hex_char(c as int % 16)]
    } else {
        seq![c]
    }
}

/// The characters of a text inside a JSON string.
pub open spec fn escaped(text: Seq<char>) -> Seq<char>
    decreases text.len(),
{
    if text.len() == 0 {
        seq![]
    } else {
        escaped_char(text[0]) + escaped(text.skip(1))
    }
}

/// A text as a JSON string.
pub open spec fn quoted(text: Seq<char>) -> Seq<char> {
    seq!['"'] + escaped(text) + seq!['"']
}

/// `serde_json` shows a `Value` made of a text as a JSON string: in quotation marks, with
/// quotation marks, backslashes and control characters escaped.
#[verifier::external_body]
fn quoted_text(raw: &str) -> (out: String)
    ensures
        out@ == quoted(raw@),
{
    serde_json::Value::from(raw).to_string()
}

/// Appends a text as a JSON string.
pub fn append_quoted(out: &mut String, raw: &str)
    ensures
        final(out)@ == old(out)@ + quoted(raw@),
{
    out.append(quoted_text(raw).as_str());
}

/// What follows a common beginning is equal in equal texts.
pub(crate) proof fn lemma_same_start(start: Seq<char>, x: Seq<char>, y: Seq<char>)
    requires
        start + x == start + y,
    ensures
        x == y,
{
    assert(x =~= (start + x).skip(start.len() as int));
    assert(y =~= (start + y).skip(start.len() as int));
}

proof fn lemma_escaped_char_delimited(c: char, d: char, x: Seq<char>, y: Seq<char>)
    requires
        escaped_char(c) + x == escaped_char(d) + y,
    ensures
        c == d,
        x == y,
{
    let (s, t) = (escaped_char(c) + x, escaped_char(d) + y);
    assert(s[0] == escaped_char(c)[0] && t[0] == escaped_char(d)[0]);
    if s[0] == '\\' {
        assert(s[1] == escaped_char(c)[1] && t[1] == escaped_char(d)[1]);
        if s[1] == 'u' {
            assert(s[4] == escaped_char(c)[4] && t[4] == escaped_char(d)[4]);
            assert(s[5] == escaped_char(c)[5] && t[5] == escaped_char(d)[5]);
        }
    }
    assert(c == d);
    lemma_same_start(escaped_char(c), x, y);
}

proof fn lemma_escaped_delimited(a: Seq<char>, b: Seq<char>, x: Seq<char>, y: Seq<char>)
    requires
        escaped(a) + (seq!['"'] + x) == escaped(b) + (seq!['"'] + y),
    ensures
        a == b,
        x == y,
    decreases a.len(),
{
    let (s, t) = (escaped(a) + (seq!['"'] + x), escaped(b) + (seq!['"'] + y));
    if a.len() > 0 {
        assert(escaped(a)[0] == escaped_char(a[0])[0]);
        assert(s[0] != '"');
    } else {
        assert(s[0] == '"');
    }
    if b.len() > 0 {
        assert(escaped(b)[0] == escaped_char(b[0])[0]);
        assert(t[0] != '"');
    } else {
        assert(t[0] == '"');
    }
    if a.len() == 0 {
        assert(escaped(a) =~= seq![]);
        assert(escaped(b) =~= seq![]);
        assert(s =~= seq!['"'] + x);
        assert(t =~= seq!['"'] + y);
        lemma_same_start(seq!['"'], x, y);
        assert(a =~= b);
    } else {
        let (u, v) = (
            escaped(a.skip(1)) + (seq!['"'] + x),
            escaped(b.skip(1)) + (seq!['"'] + y),
        );
        assert(s =~= escaped_char(a[0]) + u);
        assert(t =~= escaped_char(b[0]) + v);
        lemma_escaped_char_delimited(a[0], b[0], u, v);
        lemma_escaped_delimited(a.skip(1), b.skip(1), x, y);
        assert(a =~= seq![a[0]] + a.skip(1));
        assert(b =~= seq![b[0]] + b.skip(1));
    }
}

/// Inside a JSON string each character stands for itself, but for quotation marks, backslashes and
/// control characters, which are escaped. What stands for two texts in a row stands for them one
/// after the other.
pub proof fn lemma_escapes(a: Seq<char>, b: Seq<char>, c: char)
    ensures
        escaped(Seq::<char>::empty()) == Seq::<char>::empty(),
        escaped(a + b) == escaped(a) + escaped(b),
        escaped(seq![c]) == escaped_char(c),
        c as int > 31 && c != '"' && c != '\\' ==> escaped_char(c) == seq![c],
        escaped_char('"') == seq!['\\', '"'],
        escaped_char('\\') == seq!['\\', '\\'],
        c as int <= 31 ==> escaped_char(c).len() > 1 && escaped_char(c)[0] == '\\',
        quoted(a) == seq!['"'] + escaped(a) + seq!['"'],
    decreases a.len(),
{
    assert(seq![c].skip(1) =~= Seq::<char>::empty());
    assert(escaped(Seq::<char>::empty()) =~= Seq::<char>::empty());
    assert(escaped(seq![c]) =~= escaped_char(c));
    if a.len() == 0 {
        assert(a + b =~= b);
        assert(escaped(a) + escaped(b) =~= escaped(b));
    } else {
        lemma_escapes(a.skip(1), b, c);
        assert((a + b).skip(1) =~= a.skip(1) + b);
        assert(escaped(a + b) =~= escaped(a) + escaped(b));
    }
}

/// A JSON string can be read back from the beginning of a text: it tells its own end and the text
/// that it stands for.
pub proof fn lemma_quoted_delimited(a: Seq<char>, b: Seq<char>, x: Seq<char>, y: Seq<char>)
    requires
        quoted(a) + x == quoted(b) + y,
    ensures
        a == b,
        x == y,
{
    let (u, v) = (escaped(a) + (seq!['"'] + x), escaped(b) + (seq!['"'] + y));
    assert(quoted(a) + x =~= seq!['"'] + u);
    assert(quoted(b) + y =~= seq!['"'] + v);
    lemma_same_start(seq!['"'], u, v);
    lemma_escaped_delimited(a, b, x, y);
}

/// A number can be read back from the beginning of a text if it is not followed by a digit.
pub proof fn lemma_decimal_delimited(m: nat, n: nat, x: Seq<char>, y: Seq<char>)
    requires
        text::decimal(m) + x == text::decimal(n) + y,
        x.len() > 0 && !('0' <= x[0] <= '9'),
        y.len() > 0 && !('0' <= y[0] <= '9'),
    ensures
        m == n,
        x == y,
{
    let (s, t) = (text::decimal(m) + x, text::decimal(n) + y);
    let (k, l) = (text::decimal(m).len() as int, text::decimal(n).len() as int);
    text::lemma_decimal_value(m);
    text::lemma_decimal_value(n);
    assert(s[k] == x[0] && t[l] == y[0]);
    if k < l {
        assert(t[k] == text::decimal(n)[k]);
    }
    if l < k {
        assert(s[l] == text::decimal(m)[l]);
    }
    assert(text::decimal(m) =~= s.take(k));
    assert(text::decimal(n) =~= t.take(l));
    text::lemma_decimal_injective(m, n);
    lemma_same_start(text::decimal(m), x, y);
}

} // verus!
