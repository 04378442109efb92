//! Decimal text: what it means for a string to spell a signed integer, a
//! verified parser for device-index input, a verified renderer used by the
//! diagnostic messages, and whitespace trimming.

use vstd::prelude::*;

verus! {

/// The whitespace characters the selector strips from its input: the set
/// Unicode gives the White_Space property, the one `char::is_whitespace`
/// accepts.
pub open spec fn is_space(c: char) -> bool {
    (9 <= c as int <= 13) || c as int == 32 || c as int == 0x85 || c as int == 0xA0
        || c as int == 0x1680 || (0x2000 <= c as int <= 0x200A) || c as int == 0x2028
        || c as int == 0x2029 || c as int == 0x202F || c as int == 0x205F || c as int == 0x3000
}

/// A decimal digit `'0'..='9'`.
pub open spec fn is_digit(c: char) -> bool {
    48 <= c as int <= 57
}

/// The numeric value of a decimal digit character.
pub open spec fn digit_val(c: char) -> int {
    c as int - 48
}

/// The value of a sequence of decimal digits read most significant first.
pub open spec fn digits_val(s: Seq<char>) -> int
    decreases s.len(),
{
    if s.len() == 0 {
        0
    } else {
        digits_val(s.drop_last()) * 10 + digit_val(s.last())
    }
}

/// Every character of `s` is a decimal digit.
pub open spec fn all_digits(s: Seq<char>) -> bool {
    forall|i: int| 0 <= i < s.len() ==> is_digit(s[i])
}

/// The string starts with an explicit sign.
pub open spec fn has_sign(s: Seq<char>) -> bool {
    s.len() > 0 && (s[0] == '-' || s[0] == '+')
}

/// The digits of the literal, the optional sign stripped.
pub open spec fn digits_part(s: Seq<char>) -> Seq<char> {
    if has_sign(s) {
        s.skip(1)
    } else {
        s
    }
}

/// The literal denotes a negative number.
pub open spec fn is_negative_literal(s: Seq<char>) -> bool {
    s.len() > 0 && s[0] == '-'
}

/// An integer literal: an optional `+` or `-` sign followed by one or more
/// decimal digits, exactly the strings `str::parse` for an integer accepts.
pub open spec fn is_int_literal(s: Seq<char>) -> bool {
    digits_part(s).len() > 0 && all_digits(digits_part(s))
}

/// The value an integer literal denotes.
pub open spec fn int_literal_val(s: Seq<char>) -> int {
    if is_negative_literal(s) {
        -digits_val(digits_part(s))
    } else {
        digits_val(digits_part(s))
    }
}

/// An integer literal whose value fits a 32-bit signed integer.
pub open spec fn is_i32_literal(s: Seq<char>) -> bool {
    is_int_literal(s) && i32::MIN <= int_literal_val(s) <= i32::MAX
}

/// A digit string has a non-negative value.
proof fn lemma_digits_val_nonneg(s: Seq<char>)
    requires
        all_digits(s),
    ensures
        digits_val(s) >= 0,
    decreases s.len(),
{
    if s.len() > 0 {
        lemma_digits_val_nonneg(s.drop_last());
    }
}

/// Extending a digit string never shrinks its value.
proof fn lemma_digits_val_prefix_le(s: Seq<char>, i: int)
    requires
        all_digits(s),
        0 <= i <= s.len(),
    ensures
        digits_val(s.take(i)) <= digits_val(s),
    decreases s.len(),
{
    if i < s.len() {
        assert(all_digits(s.drop_last()));
        assert(s.drop_last().take(i) =~= s.take(i));
        lemma_digits_val_prefix_le(s.drop_last(), i);
        lemma_digits_val_nonneg(s.drop_last());
    } else {
        assert(s.take(i) =~= s);
    }
}

/// Parse a 32-bit signed integer, accepting exactly an optional sign followed
/// by one or more decimal digits whose value fits the type, as the selector's
/// input step requires.
pub fn parse_i32(s: &str) -> (r: Option<i32>)
    ensures
        r is Some <==> is_i32_literal(s@),
        r matches Some(v) ==> v == int_literal_val(s@),
{
    let len = s.unicode_len();
    if len == 0 {
        return None;
    }
    let c0 = s.get_char(0);
    let neg = c0 == '-';
    let signed = neg || c0 == '+';
    let start: usize = if signed {
        1
    } else {
        0
    };
    proof {
        assert(signed == has_sign(s@));
        assert(neg == is_negative_literal(s@));
    }
    if start == len {
        // a bare sign: no digits at all
        return None;
    }
    let mut i: usize = start;
    let mut acc: u64 = 0;
    while i < len
        invariant
            start <= i <= len,
            len == s@.len(),
            start == if has_sign(s@) { 1int } else { 0int },
            all_digits(s@.subrange(start as int, i as int)),
            acc == digits_val(s@.subrange(start as int, i as int)),
            acc <= 2147483648,
        decreases len - i,
    {
        let c = s.get_char(i);
        let u = c as u32;
        if u < 48 || u > 57 {
            proof {
                assert(digits_part(s@)[i - start] == s@[i as int]);
                assert(!all_digits(digits_part(s@)));
            }
            return None;
        }
        let d = (u - 48) as u64;
        proof {
            let prev = s@.subrange(start as int, i as int);
            let cur = s@.subrange(start as int, i + 1);
            assert(cur.drop_last() =~= prev);
            assert(cur.last() == s@[i as int]);
        }
        acc = acc * 10 + d;
        if acc > 2147483648 {
            proof {
                let dp = digits_part(s@);
                if all_digits(dp) {
                    assert(dp.take(i + 1 - start) =~= s@.subrange(start as int, i + 1));
                    lemma_digits_val_prefix_le(dp, i + 1 - start);
                }
            }
            return None;
        }
        i += 1;
    }
    proof {
        assert(s@.subrange(start as int, len as int) =~= digits_part(s@));
    }
    if neg {
        proof {
            lemma_digits_val_nonneg(digits_part(s@));
        }
        Some((-(acc as i64)) as i32)
    } else {
        if acc > 2147483647 {
            return None;
        }
        Some(acc as i32)
    }
}

/// Leading whitespace removed.
pub open spec fn trim_left_spec(s: Seq<char>) -> Seq<char>
    decreases s.len(),
{
    if s.len() > 0 && is_space(s[0]) {
        trim_left_spec(s.skip(1))
    } else {
        s
    }
}

/// Trailing whitespace removed.
pub open spec fn trim_right_spec(s: Seq<char>) -> Seq<char>
    decreases s.len(),
{
    if s.len() > 0 && is_space(s.last()) {
        trim_right_spec(s.drop_last())
    } else {
        s
    }
}

/// Leading and trailing whitespace removed.
pub open spec fn trim_spec(s: Seq<char>) -> Seq<char> {
    trim_right_spec(trim_left_spec(s))
}

/// Whether `c` is whitespace.
fn is_space_char(c: char) -> (r: bool)
    ensures
        r == is_space(c),
{
    let u = c as u32;
    (9 <= u && u <= 13) || u == 32 || u == 0x85 || u == 0xA0 || u == 0x1680 || (0x2000 <= u
        && u <= 0x200A) || u == 0x2028 || u == 0x2029 || u == 0x202F || u == 0x205F || u == 0x3000
}

/// Strip leading and trailing whitespace, as the selector does before
/// parsing the typed index.
pub fn trim(s: &str) -> (r: &str)
    ensures
        r@ == trim_spec(s@),
{
    let len = s.unicode_len();
    let mut a: usize = 0;
    proof {
        assert(s@.skip(0) =~= s@);
    }
    while a < len && is_space_char(s.get_char(a))
        invariant
            a <= len,
            len == s@.len(),
            trim_left_spec(s@) == trim_left_spec(s@.skip(a as int)),
        decreases len - a,
    {
        proof {
            assert(s@.skip(a as int)[0] == s@[a as int]);
            assert(s@.skip(a as int).skip(1) =~= s@.skip(a + 1));
        }
        a += 1;
    }
    proof {
        if a == len {
            assert(s@.skip(a as int) =~= Seq::<char>::empty());
        }
        assert(trim_left_spec(s@) =~= s@.subrange(a as int, len as int));
    }
    let mut b: usize = len;
    while b > a && is_space_char(s.get_char(b - 1))
        invariant
            a <= b <= len,
            len == s@.len(),
            trim_left_spec(s@) =~= s@.subrange(a as int, len as int),
            trim_right_spec(s@.subrange(a as int, len as int)) == trim_right_spec(
                s@.subrange(a as int, b as int),
            ),
        decreases b,
    {
        proof {
            let cur = s@.subrange(a as int, b as int);
            assert(cur.last() == s@[b - 1]);
            assert(cur.drop_last() =~= s@.subrange(a as int, b - 1));
        }
        b -= 1;
    }
    proof {
        if b == a {
            assert(s@.subrange(a as int, b as int) =~= Seq::<char>::empty());
        }
        assert(trim_spec(s@) == s@.subrange(a as int, b as int));
    }
    s.substring_char(a, b)
}

/// The character for a decimal digit value.
pub open spec fn digit_char(d: int) -> char {
    if d == 0 {
        '0'
    } else if d == 1 {
        '1'
    } else if d == 2 {
        '2'
    } else if d == 3 {
        '3'
    } else if d == 4 {
        '4'
    } else if d == 5 {
        '5'
    } else if d == 6 {
        '6'
    } else if d == 7 {
        '7'
    } else if d == 8 {
        '8'
    } else {
        '9'
    }
}

/// The shortest decimal spelling of a non-negative number.
pub open spec fn dec_digits_spec(n: int) -> Seq<char>
    recommends
        n >= 0,
    decreases n,
{
    if n < 10 {
        seq![digit_char(n)]
    } else {
        dec_digits_spec(n / 10) + seq![digit_char(n % 10)]
    }
}

/// The decimal spelling of a 32-bit signed integer: a `-` sign when negative,
/// then the shortest digit run.
pub open spec fn i32_string_spec(v: int) -> Seq<char> {
    if v < 0 {
        seq!['-'] + dec_digits_spec(-v)
    } else {
        dec_digits_spec(v)
    }
}

/// The one-character string for a decimal digit value.
fn digit_str(d: u32) -> (r: &'static str)
    requires
        d < 10,
    ensures
        r@ == seq![digit_char(d as int)],
{
    let r: &'static str = if d == 0 {
        "0"
    } else if d == 1 {
        "1"
    } else if d == 2 {
        "2"
    } else if d == 3 {
        "3"
    } else if d == 4 {
        "4"
    } else if d == 5 {
        "5"
    } else if d == 6 {
        "6"
    } else if d == 7 {
        "7"
    } else if d == 8 {
        "8"
    } else {
        "9"
    };
    proof {
        reveal_strlit("0");
        reveal_strlit("1");
        reveal_strlit("2");
        reveal_strlit("3");
        reveal_strlit("4");
        reveal_strlit("5");
        reveal_strlit("6");
        reveal_strlit("7");
        reveal_strlit("8");
        reveal_strlit("9");
        assert(r@ =~= seq![digit_char(d as int)]);
    }
    r
}

/// Render a non-negative number in decimal.
fn dec_string(n: u32) -> (r: String)
    ensures
        r@ == dec_digits_spec(n as int),
    decreases n,
{
    if n < 10 {
        let r = String::from_str(digit_str(n));
        r
    } else {
        let mut r = dec_string(n / 10);
        r.append(digit_str(n % 10));
        r
    }
}

/// The decimal spelling of a non-negative number is one or more digits whose
/// value is that number.
proof fn lemma_dec_digits_faithful(n: int)
    requires
        n >= 0,
    ensures
        dec_digits_spec(n).len() > 0,
        all_digits(dec_digits_spec(n)),
        digits_val(dec_digits_spec(n)) == n,
    decreases n,
{
    if n < 10 {
        let s = dec_digits_spec(n);
        assert(s == seq![digit_char(n)]);
        assert(is_digit(digit_char(n)));
        assert(digit_val(digit_char(n)) == n);
        assert(s.last() == digit_char(n));
        assert(s.drop_last() =~= Seq::<char>::empty());
        assert(digits_val(Seq::<char>::empty()) == 0);
    } else {
        lemma_dec_digits_faithful(n / 10);
        let s = dec_digits_spec(n);
        let pre = dec_digits_spec(n / 10);
        assert(s == pre + seq![digit_char(n % 10)]);
        assert(s.len() == pre.len() + 1);
        assert(s.drop_last() =~= pre);
        assert(s.last() == digit_char(n % 10));
        assert(is_digit(digit_char(n % 10)));
        assert(digit_val(digit_char(n % 10)) == n % 10);
        assert(forall|i: int| 0 <= i < pre.len() ==> s[i] == pre[i]);
    }
}

/// The decimal spelling of a 32-bit signed integer is an integer literal
/// denoting exactly that integer: what the renderer writes, the parser reads
/// back unchanged.
pub proof fn lemma_i32_string_round_trip(v: int)
    requires
        i32::MIN <= v <= i32::MAX,
    ensures
        is_i32_literal(i32_string_spec(v)),
        int_literal_val(i32_string_spec(v)) == v,
{
    if v < 0 {
        let s = i32_string_spec(v);
        lemma_dec_digits_faithful(-v);
        assert(s[0] == '-');
        assert(s.skip(1) =~= dec_digits_spec(-v));
    } else {
        let s = i32_string_spec(v);
        lemma_dec_digits_faithful(v);
        assert(is_digit(s[0]));
        assert(s[0] != '-' && s[0] != '+');
    }
}

/// Render a 32-bit signed integer in decimal, inverse of `parse_i32` on its
/// own output; used by the device listing and the index diagnostics.
pub fn i32_to_string(v: i32) -> (r: String)
    ensures
        r@ == i32_string_spec(v as int),
{
    if v >= 0 {
        dec_string(v as u32)
    } else {
        let mag: u32 = (-(v as i64)) as u32;
        let mut r = String::from_str("-");
        let digits = dec_string(mag);
        r.append(digits.as_str());
        proof {
            reveal_strlit("-");
            assert("-"@ =~= seq!['-']);
        }
        r
    }
}

} // verus!
