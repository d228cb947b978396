//! Character-sequence groundwork for the composer and the router: substring
//! containment, HTML escaping, decimal rendering of indices, and decimal
//! parsing of permalink references.

use vstd::prelude::*;

verus! {

// ---------------------------------------------------------------------------
// Substring containment
// ---------------------------------------------------------------------------

/// `t` occurs contiguously somewhere inside `s`.
pub open spec fn contains_seq(s: Seq<char>, t: Seq<char>) -> bool {
    exists|i: int| 0 <= i && i + t.len() <= s.len() && #[trigger] s.subrange(i, i + t.len()) == t
}

/// A concatenation contains its middle operand.
pub proof fn lemma_concat_contains_middle(a: Seq<char>, t: Seq<char>, b: Seq<char>)
    ensures
        contains_seq(a + t + b, t),
{
    let s = a + t + b;
    let i = a.len() as int;
    assert(s.subrange(i, i + t.len()) =~= t);
    assert(0 <= i && i + t.len() <= s.len() && s.subrange(i, i + t.len()) == t);
}

/// Containment survives appending on the right.
pub proof fn lemma_contains_left(s: Seq<char>, b: Seq<char>, t: Seq<char>)
    requires
        contains_seq(s, t),
    ensures
        contains_seq(s + b, t),
{
    let i = choose|i: int| 0 <= i && i + t.len() <= s.len() && #[trigger] s.subrange(i, i + t.len()) == t;
    assert((s + b).subrange(i, i + t.len()) =~= s.subrange(i, i + t.len()));
    assert(0 <= i && i + t.len() <= (s + b).len() && (s + b).subrange(i, i + t.len()) == t);
}

/// Containment survives prepending on the left.
pub proof fn lemma_contains_right(a: Seq<char>, s: Seq<char>, t: Seq<char>)
    requires
        contains_seq(s, t),
    ensures
        contains_seq(a + s, t),
{
    let i = choose|i: int| 0 <= i && i + t.len() <= s.len() && #[trigger] s.subrange(i, i + t.len()) == t;
    let j = a.len() + i;
    assert((a + s).subrange(j, j + t.len()) =~= s.subrange(i, i + t.len()));
    assert(0 <= j && j + t.len() <= (a + s).len() && (a + s).subrange(j, j + t.len()) == t);
}

// ---------------------------------------------------------------------------
// String equality
// ---------------------------------------------------------------------------

/// Character-by-character string comparison, so that equality of two `&str`
/// values is decided against their views.
pub fn str_eq(a: &str, b: &str) -> (r: bool)
    ensures
        r == (a@ == b@),
{
    let na = a.unicode_len();
    let nb = b.unicode_len();
    if na != nb {
        return false;
    }
    let mut i: usize = 0;
    while i < na
        invariant
            i <= na,
            na == a@.len(),
            na == b@.len(),
            forall|j: int| 0 <= j < i ==> a@[j] == b@[j],
        decreases na - i,
    {
        if a.get_char(i) != b.get_char(i) {
            return false;
        }
        i = i + 1;
    }
    proof {
        assert(a@ =~= b@);
    }
    true
}

// ---------------------------------------------------------------------------
// HTML escaping
// ---------------------------------------------------------------------------

/// The replacement an HTML context demands for one character.
pub open spec fn escape_char_seq(c: char) -> Seq<char> {
    if c == '&' {
        seq!['&', 'a', 'm', 'p', ';']
    } else if c == '<' {
        seq!['&', 'l', 't', ';']
    } else if c == '>' {
        seq!['&', 'g', 't', ';']
    } else if c == '"' {
        seq!['&', 'q', 'u', 'o', 't', ';']
    } else {
        seq![c]
    }
}

/// Escape every character of `s` for embedding in HTML text or in a quoted
/// attribute value.
pub open spec fn escape_seq(s: Seq<char>) -> Seq<char>
    decreases s.len(),
{
    if s.len() == 0 {
        Seq::empty()
    } else {
        escape_seq(s.drop_last()) + escape_char_seq(s.last())
    }
}

/// Escape `&`, `<`, `>` and `"` so that untrusted text can stand in markup.
pub fn escape_html(s: &str) -> (r: String)
    ensures
        r@ == escape_seq(s@),
{
    let n = s.unicode_len();
    let mut out = String::new();
    let mut i: usize = 0;
    while i < n
        invariant
            i <= n,
            n == s@.len(),
            out@ == escape_seq(s@.take(i as int)),
        decreases n - i,
    {
        let c = s.get_char(i);
        if c == '&' {
            out.append("&amp;");
            proof {
                reveal_strlit("&amp;");
                assert("&amp;"@ =~= escape_char_seq('&'));
            }
        } else if c == '<' {
            out.append("&lt;");
            proof {
                reveal_strlit("&lt;");
                assert("&lt;"@ =~= escape_char_seq('<'));
            }
        } else if c == '>' {
            out.append("&gt;");
            proof {
                reveal_strlit("&gt;");
                assert("&gt;"@ =~= escape_char_seq('>'));
            }
        } else if c == '"' {
            out.append("&quot;");
            proof {
                reveal_strlit("&quot;");
                assert("&quot;"@ =~= escape_char_seq('"'));
            }
        } else {
            let piece = s.substring_char(i, i + 1);
            out.append(piece);
            proof {
                assert(piece@ =~= escape_char_seq(s@[i as int]));
            }
        }
        i = i + 1;
        proof {
            assert(s@.take(i as int).drop_last() =~= s@.take(i - 1));
            assert(s@.take(i as int).last() == s@[i - 1]);
        }
    }
    proof {
        assert(s@.take(n as int) =~= s@);
    }
    out
}

// ---------------------------------------------------------------------------
// Decimal rendering
// ---------------------------------------------------------------------------

/// The character for one decimal digit.
pub open spec fn dec_digit(d: int) -> char {
    if d == 0 {
        '0'
    } else if d == 1 {
        '1'
    } else if d == 2 {
        '2'
    } else if d == 3 {
        '3'
    } else if d == 4 {
        '4'
    } else if d == 5 {
        '5'
    } else if d == 6 {
        '6'
    } else if d == 7 {
        '7'
    } else if d == 8 {
        '8'
    } else {
        '9'
    }
}

/// The canonical decimal rendering of `n`: no sign, no leading zero except
/// for `0` itself.
pub open spec fn dec_seq(n: nat) -> Seq<char>
    decreases n,
{
    if n < 10 {
        seq![dec_digit(n as int)]
    } else {
        dec_seq(n / 10) + seq![dec_digit((n % 10) as int)]
    }
}

/// One decimal digit as a string slice.
fn digit_str(d: usize) -> (r: &'static str)
    requires
        d < 10,
    ensures
        r@ == seq![dec_digit(d as int)],
{
    proof {
        reveal_strlit("0");
        reveal_strlit("1");
        reveal_strlit("2");
        reveal_strlit("3");
        reveal_strlit("4");
        reveal_strlit("5");
        reveal_strlit("6");
        reveal_strlit("7");
        reveal_strlit("8");
        reveal_strlit("9");
    }
    let r = match d {
        0 => "0",
        1 => "1",
        2 => "2",
        3 => "3",
        4 => "4",
        5 => "5",
        6 => "6",
        7 => "7",
        8 => "8",
        _ => "9",
    };
    proof {
        assert(r@ =~= seq![dec_digit(d as int)]);
    }
    r
}

/// Render `n` in decimal.
pub fn usize_to_string(n: usize) -> (r: String)
    ensures
        r@ == dec_seq(n as nat),
    decreases n,
{
    if n < 10 {
        String::from_str(digit_str(n))
    } else {
        proof {
            assert(n / 10 < n) by (nonlinear_arith)
                requires
                    n >= 10,
            ;
        }
        let mut s = usize_to_string(n / 10);
        s.append(digit_str(n % 10));
        s
    }
}

/// `s` left-padded with `'0'` up to width `w`.
pub open spec fn pad_left(s: Seq<char>, w: int) -> Seq<char> {
    if s.len() >= w {
        s
    } else {
        Seq::new((w - s.len()) as nat, |i: int| '0') + s
    }
}

/// Render `n` in decimal, left-padded with zeros to at least `w` characters.
pub fn padded_decimal(n: usize, w: usize) -> (r: String)
    ensures
        r@ == pad_left(dec_seq(n as nat), w as int),
{
    let digits = usize_to_string(n);
    let len = digits.as_str().unicode_len();
    let mut out = String::new();
    proof {
        assert(Seq::<char>::empty() =~= Seq::new(0 as nat, |i: int| '0'));
    }
    let mut k = len;
    while k < w
        invariant
            k >= len,
            k == len || k <= w,
            out@ == Seq::new((k - len) as nat, |i: int| '0'),
        decreases w - k,
    {
        out.append("0");
        k = k + 1;
        proof {
            reveal_strlit("0");
            assert(out@ =~= Seq::new((k - len) as nat, |i: int| '0'));
        }
    }
    out.append(digits.as_str());
    proof {
        if len >= w {
            assert(out@ =~= dec_seq(n as nat));
        } else {
            assert(out@ =~= pad_left(dec_seq(n as nat), w as int));
        }
    }
    out
}

// ---------------------------------------------------------------------------
// Decimal parsing
// ---------------------------------------------------------------------------

/// `c` is an ASCII decimal digit.
pub open spec fn is_digit(c: char) -> bool {
    '0' as int <= c as int <= '9' as int
}

/// The numeric value of a digit character.
pub open spec fn digit_val(c: char) -> int {
    c as int - '0' as int
}

/// Every character of `s` is a decimal digit.
pub open spec fn all_digits(s: Seq<char>) -> bool {
    forall|i: int| 0 <= i < s.len() ==> is_digit(#[trigger] s[i])
}

/// The numeric value of a digit sequence, most significant digit first.
pub open spec fn dec_val(s: Seq<char>) -> int
    decreases s.len(),
{
    if s.len() == 0 {
        0
    } else {
        dec_val(s.drop_last()) * 10 + digit_val(s.last())
    }
}

/// The digits of a reference once an optional leading `+` sign is shed, the
/// shape the standard unsigned parser accepts.
pub open spec fn digits_part(s: Seq<char>) -> Seq<char> {
    if s.len() > 0 && s[0] == '+' {
        s.skip(1)
    } else {
        s
    }
}

/// `s` parses as a machine-width unsigned integer: an optional `+`, then one
/// or more digits, with a value that fits.
pub open spec fn parses_as_usize(s: Seq<char>) -> bool {
    let d = digits_part(s);
    d.len() > 0 && all_digits(d) && dec_val(d) <= usize::MAX
}

/// The value `s` parses to.
pub open spec fn usize_value(s: Seq<char>) -> int {
    dec_val(digits_part(s))
}

/// Digit characters evaluate back to the digit they render.
pub proof fn lemma_digit_roundtrip(d: int)
    requires
        0 <= d <= 9,
    ensures
        is_digit(dec_digit(d)),
        digit_val(dec_digit(d)) == d,
{
    assert('0' as int == 48);
    assert('1' as int == 49);
    assert('2' as int == 50);
    assert('3' as int == 51);
    assert('4' as int == 52);
    assert('5' as int == 53);
    assert('6' as int == 54);
    assert('7' as int == 55);
    assert('8' as int == 56);
    assert('9' as int == 57);
}

/// The value of a digit sequence is never negative.
pub proof fn lemma_dec_val_nonneg(s: Seq<char>)
    requires
        all_digits(s),
    ensures
        dec_val(s) >= 0,
    decreases s.len(),
{
    if s.len() > 0 {
        assert(all_digits(s.drop_last()));
        lemma_dec_val_nonneg(s.drop_last());
    }
}

/// Extending a digit sequence on the right never shrinks its value.
pub proof fn lemma_dec_val_prefix(s: Seq<char>, j: int)
    requires
        all_digits(s),
        0 <= j <= s.len(),
    ensures
        dec_val(s.take(j)) <= dec_val(s),
    decreases s.len(),
{
    if j == s.len() {
        assert(s.take(j) =~= s);
    } else {
        let front = s.drop_last();
        assert(all_digits(front));
        assert(s.take(j) =~= front.take(j));
        lemma_dec_val_prefix(front, j);
        lemma_dec_val_nonneg(front);
        assert(dec_val(front) * 10 >= dec_val(front));
        assert(dec_val(s) >= dec_val(front));
    }
}

/// The canonical rendering is made of digits, starts with no sign, and
/// evaluates back to the number it renders.
pub proof fn lemma_dec_seq_props(n: nat)
    ensures
        dec_seq(n).len() >= 1,
        all_digits(dec_seq(n)),
        dec_seq(n)[0] != '+',
        dec_val(dec_seq(n)) == n,
    decreases n,
{
    if n < 10 {
        let s = dec_seq(n);
        lemma_digit_roundtrip(n as int);
        assert(s =~= seq![dec_digit(n as int)]);
        assert(s.drop_last() =~= Seq::<char>::empty());
        assert(dec_val(Seq::<char>::empty()) == 0);
        assert(dec_val(s) == dec_val(s.drop_last()) * 10 + digit_val(s.last()));
    } else {
        lemma_dec_seq_props(n / 10);
        lemma_digit_roundtrip((n % 10) as int);
        let s = dec_seq(n);
        let front = dec_seq(n / 10);
        assert(s =~= front + seq![dec_digit((n % 10) as int)]);
        assert(s.drop_last() =~= front);
        assert(s.last() == dec_digit((n % 10) as int));
        assert(forall|i: int| 0 <= i < s.len() ==> is_digit(#[trigger] s[i])) by {
            assert(forall|i: int| 0 <= i < front.len() ==> is_digit(#[trigger] front[i]));
            assert(forall|i: int| 0 <= i < s.len() ==> s[i] == (if i < front.len() {
                front[i]
            } else {
                dec_digit((n % 10) as int)
            }));
        }
        assert(s[0] == front[0]);
        assert(dec_val(s) == dec_val(front) * 10 + digit_val(dec_digit((n % 10) as int)));
        assert(dec_val(s) == (n / 10) * 10 + (n % 10));
    }
}

/// A canonical rendering parses back to its number.
pub proof fn lemma_dec_seq_parses(n: nat)
    requires
        n <= usize::MAX,
    ensures
        parses_as_usize(dec_seq(n)),
        usize_value(dec_seq(n)) == n,
{
    lemma_dec_seq_props(n);
    assert(digits_part(dec_seq(n)) == dec_seq(n));
}

/// Recognize a digit character and give its value.
fn char_digit(c: char) -> (r: Option<usize>)
    ensures
        r is Some <==> is_digit(c),
        r matches Some(v) ==> v == digit_val(c),
{
    proof {
        assert('0' as int == 48);
        assert('1' as int == 49);
        assert('2' as int == 50);
        assert('3' as int == 51);
        assert('4' as int == 52);
        assert('5' as int == 53);
        assert('6' as int == 54);
        assert('7' as int == 55);
        assert('8' as int == 56);
        assert('9' as int == 57);
    }
    match c {
        '0' => Some(0),
        '1' => Some(1),
        '2' => Some(2),
        '3' => Some(3),
        '4' => Some(4),
        '5' => Some(5),
        '6' => Some(6),
        '7' => Some(7),
        '8' => Some(8),
        '9' => Some(9),
        _ => None,
    }
}

/// Parse a permalink reference as an unsigned integer, exactly as the
/// standard unsigned parser would: an optional leading `+`, then decimal
/// digits, rejected on any other character, on emptiness, and on overflow.
pub fn parse_usize(s: &str) -> (r: Option<usize>)
    ensures
        r is Some <==> parses_as_usize(s@),
        r matches Some(v) ==> v == usize_value(s@),
{
    let n = s.unicode_len();
    if n == 0 {
        proof {
            assert(digits_part(s@) =~= s@);
        }
        return None;
    }
    let first = s.get_char(0);
    let start: usize = if first == '+' {
        1
    } else {
        0
    };
    proof {
        assert(digits_part(s@) =~= s@.skip(start as int));
    }
    if start == n {
        // a lone sign
        proof {
            assert(digits_part(s@).len() == 0);
        }
        return None;
    }
    let ghost digits = digits_part(s@);
    let mut acc: usize = 0;
    let mut i: usize = start;
    while i < n
        invariant
            start <= i <= n,
            n == s@.len(),
            start <= 1,
            digits == digits_part(s@),
            digits == s@.skip(start as int),
            all_digits(digits.take(i - start)),
            acc == dec_val(digits.take(i - start)),
        decreases n - i,
    {
        let c = s.get_char(i);
        let d = match char_digit(c) {
            Some(d) => d,
            None => {
                // a non-digit character: the reference is not an integer
                proof {
                    assert(digits[i - start] == s@[i as int]);
                    assert(!is_digit(digits_part(s@)[i - start]));
                    assert(!all_digits(digits_part(s@)));
                }
                return None;
            },
        };
        let next = match acc.checked_mul(10) {
            Some(m) => m.checked_add(d),
            None => None,
        };
        match next {
            Some(v) => {
                acc = v;
            },
            None => {
                // overflow: the full value cannot fit either
                proof {
                    assert(digit_val(s@[i as int]) == d);
                    let taken = digits.take(i + 1 - start);
                    assert(taken.drop_last() =~= digits.take(i - start));
                    assert(taken.last() == digits[i - start]);
                    assert(taken.last() == s@[i as int]);
                    assert(acc * 10 + d > usize::MAX);
                    assert(dec_val(taken) == acc * 10 + d);
                    if parses_as_usize(s@) {
                        assert(all_digits(digits_part(s@)));
                        assert(forall|j: int|
                            0 <= j < digits.len() ==> is_digit(#[trigger] digits[j]) == is_digit(
                                digits_part(s@)[j],
                            ));
                        assert(all_digits(digits));
                        assert(dec_val(digits) <= usize::MAX);
                        lemma_dec_val_prefix(digits, i + 1 - start);
                        assert(false);
                    }
                }
                return None;
            },
        }
        i = i + 1;
        proof {
            let taken = digits.take(i - start);
            assert(taken.drop_last() =~= digits.take(i - 1 - start));
            assert(taken.last() == digits[i - 1 - start]);
            assert(taken.last() == s@[i - 1]);
        }
    }
    proof {
        assert(digits.take(n - start) =~= digits);
    }
    Some(acc)
}

} // verus!
