//! Verified text helpers: decimal rendering of integers, JSON string
//! escaping, duration rendering, and ASCII-case-insensitive comparison.

use vstd::prelude::*;
use vstd::string::StrSliceExecFns;
use vstd::string::StringExecFns;

verus! {

/// Relies on std's String::push: appends exactly one character.
#[verifier::external_body]
pub(crate) fn push_char(s: &mut String, c: char)
    ensures
        final(s)@ == old(s)@ + seq![c],
{
    s.push(c);
}

/// The character for one decimal digit.
pub open spec fn spec_digit_char(d: nat) -> char {
    if d == 0 {
        '0'
    } else if d == 1 {
        '1'
    } else if d == 2 {
        '2'
    } else if d == 3 {
        '3'
    } else if d == 4 {
        '4'
    } else if d == 5 {
        '5'
    } else if d == 6 {
        '6'
    } else if d == 7 {
        '7'
    } else if d == 8 {
        '8'
    } else {
        '9'
    }
}

/// Decimal digits of `n`, empty for zero.
pub open spec fn spec_dec_rec(n: nat) -> Seq<char>
    decreases n,
{
    if n == 0 {
        Seq::<char>::empty()
    } else {
        spec_dec_rec(n / 10) + seq![spec_digit_char(n % 10)]
    }
}

/// Decimal text of `n`, `"0"` for zero.
pub open spec fn spec_dec(n: nat) -> Seq<char> {
    if n == 0 {
        seq!['0']
    } else {
        spec_dec_rec(n)
    }
}

fn digit_to_char(d: u64) -> (c: char)
    requires
        d < 10,
    ensures
        c == spec_digit_char(d as nat),
{
    if d == 0 {
        '0'
    } else if d == 1 {
        '1'
    } else if d == 2 {
        '2'
    } else if d == 3 {
        '3'
    } else if d == 4 {
        '4'
    } else if d == 5 {
        '5'
    } else if d == 6 {
        '6'
    } else if d == 7 {
        '7'
    } else if d == 8 {
        '8'
    } else {
        '9'
    }
}

/// Renders `n` in decimal.
pub fn u64_to_string(n: u64) -> (s: String)
    ensures
        s@ == spec_dec(n as nat),
{
    if n == 0 {
        let mut s = String::new();
        push_char(&mut s, '0');
        proof {
            assert(s@ =~= spec_dec(0));
        }
        return s;
    }
    let mut digits: Vec<char> = Vec::new();
    let mut m: u64 = n;
    while m > 0
        invariant
            spec_dec_rec(n as nat) == spec_dec_rec(m as nat) + digits@.reverse(),
        decreases m,
    {
        let d: u64 = m % 10;
        digits.push(digit_to_char(d));
        proof {
            assert(digits@.reverse() =~= seq![spec_digit_char(d as nat)] + digits@.drop_last().reverse());
            assert(spec_dec_rec(m as nat) == spec_dec_rec((m / 10) as nat) + seq![
                spec_digit_char((m % 10) as nat),
            ]);
            assert(spec_dec_rec(n as nat) =~= spec_dec_rec((m / 10) as nat) + digits@.reverse());
        }
        m = m / 10;
    }
    let mut s = String::new();
    let mut i: usize = digits.len();
    proof {
        assert(s@ =~= digits@.skip(i as int).reverse());
    }
    while i > 0
        invariant
            i <= digits.len(),
            s@ == digits@.skip(i as int).reverse(),
        decreases i,
    {
        i = i - 1;
        push_char(&mut s, digits[i]);
        proof {
            assert(s@ =~= digits@.skip(i as int).reverse());
        }
    }
    proof {
        assert(digits@.skip(0).reverse() =~= digits@.reverse());
        assert(spec_dec_rec(0nat) + digits@.reverse() =~= digits@.reverse());
    }
    s
}

/// The character for one hexadecimal digit (lower case).
pub open spec fn spec_hex_char(d: nat) -> char {
    if d < 10 {
        spec_digit_char(d)
    } else if d == 10 {
        'a'
    } else if d == 11 {
        'b'
    } else if d == 12 {
        'c'
    } else if d == 13 {
        'd'
    } else if d == 14 {
        'e'
    } else {
        'f'
    }
}

fn hex_to_char(d: u32) -> (c: char)
    requires
        d < 16,
    ensures
        c == spec_hex_char(d as nat),
{
    if d < 10 {
        digit_to_char(d as u64)
    } else if d == 10 {
        'a'
    } else if d == 11 {
        'b'
    } else if d == 12 {
        'c'
    } else if d == 13 {
        'd'
    } else if d == 14 {
        'e'
    } else {
        'f'
    }
}

/// How one character is written inside a JSON string literal.
pub open spec fn spec_json_escape_char(c: char) -> Seq<char> {
    if c == '"' {
        seq!['\\', '"']
    } else if c == '\\' {
        seq!['\\', '\\']
    } else if c == '\u{8}' {
        seq!['\\', 'b']
    } else if c == '\u{c}' {
        seq!['\\', 'f']
    } else if c == '\n' {
        seq!['\\', 'n']
    } else if c == '\r' {
        seq!['\\', 'r']
    } else if c == '\t' {
        seq!['\\', 't']
    } else if (c as u32) < 32 {
        seq!['\\', 'u', '0', '0', spec_hex_char(((c as u32) / 16) as nat), spec_hex_char(
            ((c as u32) % 16) as nat,
        )]
    } else {
        seq![c]
    }
}

/// The body of a JSON string literal for the text `s`.
pub open spec fn spec_json_escaped(s: Seq<char>) -> Seq<char>
    decreases s.len(),
{
    if s.len() == 0 {
        Seq::<char>::empty()
    } else {
        spec_json_escape_char(s[0]) + spec_json_escaped(s.skip(1))
    }
}

proof fn lemma_json_escaped_push(s: Seq<char>, c: char)
    ensures
        spec_json_escaped(s.push(c)) == spec_json_escaped(s) + spec_json_escape_char(c),
    decreases s.len(),
{
    if s.len() == 0 {
        assert(s.push(c).skip(1) =~= Seq::<char>::empty());
        assert(s.push(c)[0] == c);
        assert(spec_json_escaped(s.push(c)) == spec_json_escape_char(c) + spec_json_escaped(
            Seq::<char>::empty(),
        ));
        assert(spec_json_escaped(s.push(c)) =~= spec_json_escaped(s) + spec_json_escape_char(c));
    } else {
        assert(s.push(c).skip(1) =~= s.skip(1).push(c));
        lemma_json_escaped_push(s.skip(1), c);
        assert(spec_json_escaped(s.push(c)) =~= spec_json_escaped(s) + spec_json_escape_char(c));
    }
}

fn append_escaped_char(out: &mut String, c: char)
    ensures
        final(out)@ == old(out)@ + spec_json_escape_char(c),
{
    if c == '"' {
        push_char(out, '\\');
        push_char(out, '"');
    } else if c == '\\' {
        push_char(out, '\\');
        push_char(out, '\\');
    } else if c == '\u{8}' {
        push_char(out, '\\');
        push_char(out, 'b');
    } else if c == '\u{c}' {
        push_char(out, '\\');
        push_char(out, 'f');
    } else if c == '\n' {
        push_char(out, '\\');
        push_char(out, 'n');
    } else if c == '\r' {
        push_char(out, '\\');
        push_char(out, 'r');
    } else if c == '\t' {
        push_char(out, '\\');
        push_char(out, 't');
    } else if (c as u32) < 32 {
        let code: u32 = c as u32;
        push_char(out, '\\');
        push_char(out, 'u');
        push_char(out, '0');
        push_char(out, '0');
        push_char(out, hex_to_char(code / 16));
        push_char(out, hex_to_char(code % 16));
    } else {
        push_char(out, c);
    }
    proof {
        assert(final(out)@ =~= old(out)@ + spec_json_escape_char(c));
    }
}

/// Escapes `s` for use inside a JSON string literal (without the quotes).
pub fn json_escape(s: &str) -> (r: String)
    ensures
        r@ == spec_json_escaped(s@),
{
    let n: usize = s.unicode_len();
    let mut out = String::new();
    let mut i: usize = 0;
    proof {
        assert(s@.take(0) =~= Seq::<char>::empty());
        assert(out@ =~= spec_json_escaped(s@.take(0)));
    }
    while i < n
        invariant
            i <= n,
            n == s@.len(),
            out@ == spec_json_escaped(s@.take(i as int)),
        decreases n - i,
    {
        let c = s.get_char(i);
        append_escaped_char(&mut out, c);
        proof {
            assert(s@.take(i + 1) =~= s@.take(i as int).push(s@[i as int]));
            lemma_json_escaped_push(s@.take(i as int), s@[i as int]);
        }
        i = i + 1;
    }
    proof {
        assert(s@.take(n as int) =~= s@);
    }
    out
}

/// Textual form of a millisecond count, as a duration is usually printed:
/// `0ns` for zero, `<n>ms` below one second, whole seconds as `<n>s`, and
/// otherwise seconds with the fractional part trimmed of trailing zeros.
pub open spec fn spec_millis_text(ms: nat) -> Seq<char> {
    if ms == 0 {
        "0ns"@
    } else if ms < 1000 {
        spec_dec(ms) + "ms"@
    } else if ms % 1000 == 0 {
        spec_dec(ms / 1000) + "s"@
    } else {
        spec_dec(ms / 1000) + "."@ + spec_frac_text((ms % 1000) as nat) + "s"@
    }
}

/// The three-digit fraction `f` (of a thousandth unit) with trailing zeros
/// removed; `f` is between 1 and 999.
pub open spec fn spec_frac_text(f: nat) -> Seq<char> {
    let d1 = spec_digit_char(f / 100);
    let d2 = spec_digit_char((f / 10) % 10);
    let d3 = spec_digit_char(f % 10);
    if f % 10 != 0 {
        seq![d1, d2, d3]
    } else if (f / 10) % 10 != 0 {
        seq![d1, d2]
    } else {
        seq![d1]
    }
}

/// Renders a millisecond count the way a duration is usually printed.
pub fn millis_to_string(ms: u64) -> (s: String)
    ensures
        s@ == spec_millis_text(ms as nat),
{
    if ms == 0 {
        let s = String::from_str("0ns");
        return s;
    }
    if ms < 1000 {
        let mut s = u64_to_string(ms);
        s.append("ms");
        return s;
    }
    let mut s = u64_to_string(ms / 1000);
    let f: u64 = ms % 1000;
    if f == 0 {
        s.append("s");
        return s;
    }
    push_char(&mut s, '.');
    proof {
        reveal_strlit(".");
        assert(spec_dec((ms / 1000) as nat) + "."@ =~= spec_dec((ms / 1000) as nat) + seq!['.']);
    }
    push_char(&mut s, digit_to_char(f / 100));
    if f % 10 != 0 {
        push_char(&mut s, digit_to_char((f / 10) % 10));
        push_char(&mut s, digit_to_char(f % 10));
        proof {
            assert(s@ =~= spec_dec((ms / 1000) as nat) + "."@ + spec_frac_text(f as nat));
        }
    } else if (f / 10) % 10 != 0 {
        push_char(&mut s, digit_to_char((f / 10) % 10));
        proof {
            assert(s@ =~= spec_dec((ms / 1000) as nat) + "."@ + spec_frac_text(f as nat));
        }
    } else {
        proof {
            assert(s@ =~= spec_dec((ms / 1000) as nat) + "."@ + spec_frac_text(f as nat));
        }
    }
    s.append("s");
    s
}

/// The ASCII code of `c` with upper-case letters folded to lower case.
pub open spec fn spec_lower_code(c: char) -> u32 {
    if 65 <= c as u32 && c as u32 <= 90 {
        (c as u32 + 32) as u32
    } else {
        c as u32
    }
}

/// Whether two texts agree up to ASCII letter case.
pub open spec fn spec_eq_ignore_ascii_case(a: Seq<char>, b: Seq<char>) -> bool {
    a.len() == b.len() && forall|i: int|
        0 <= i < a.len() ==> spec_lower_code(a[i]) == spec_lower_code(b[i])
}

fn lower_code(c: char) -> (r: u32)
    ensures
        r == spec_lower_code(c),
{
    let code: u32 = c as u32;
    if 65 <= code && code <= 90 {
        code + 32
    } else {
        code
    }
}

/// Compares two texts ignoring ASCII letter case.
pub fn eq_ignore_ascii_case(a: &str, b: &str) -> (r: bool)
    ensures
        r == spec_eq_ignore_ascii_case(a@, b@),
{
    let an: usize = a.unicode_len();
    let bn: usize = b.unicode_len();
    if an != bn {
        return false;
    }
    let mut i: usize = 0;
    while i < an
        invariant
            i <= an,
            an == a@.len(),
            an == b@.len(),
            forall|j: int| 0 <= j < i ==> spec_lower_code(a@[j]) == spec_lower_code(b@[j]),
        decreases an - i,
    {
        let ca = a.get_char(i);
        let cb = b.get_char(i);
        if lower_code(ca) != lower_code(cb) {
            return false;
        }
        i = i + 1;
    }
    true
}

} // verus!
