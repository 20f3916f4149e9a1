use vstd::prelude::*;

verus! {

/// The ASCII code of the decimal digit `d`.
pub open spec fn digit_byte(d: nat) -> u8
    recommends
        d < 10,
{
    (48 + d) as u8
}

/// The character of the decimal digit `d`.
pub open spec fn digit_char(d: nat) -> char
    recommends
        d < 10,
{
    digit_byte(d) as char
}

/// The decimal representation of `n` as ASCII bytes, without leading zeros.
pub open spec fn decimal_bytes(n: nat) -> Seq<u8>
    decreases n,
{
    if n < 10 {
        seq![digit_byte(n)]
    } else {
        decimal_bytes(n / 10).push(digit_byte(n % 10))
    }
}

/// The decimal representation of `n` as text, without leading zeros.
pub open spec fn decimal_text(n: nat) -> Seq<char>
    decreases n,
{
    if n < 10 {
        seq![digit_char(n)]
    } else {
        decimal_text(n / 10).push(digit_char(n % 10))
    }
}

/// Whether `c` is one of the characters `0` to `9`.
pub open spec fn is_digit(c: char) -> bool {
    '0' <= c <= '9'
}

/// The value of the digit character `c`.
pub open spec fn digit_value(c: char) -> nat
    recommends
        is_digit(c),
{
    (c as u32 - 48) as nat
}

/// Whether `s` consists of decimal digits only.
pub open spec fn all_digits(s: Seq<char>) -> bool {
    forall|i: int| 0 <= i < s.len() ==> is_digit(#[trigger] s[i])
}

/// The number that the digit string `s` denotes; leading zeros are allowed.
pub open spec fn decimal_value(s: Seq<char>) -> nat
    recommends
        all_digits(s),
    decreases s.len(),
{
    if s.len() == 0 {
        0
    } else {
        decimal_value(s.drop_last()) * 10 + digit_value(s.last())
    }
}

/// `s` without one leading plus sign.
pub open spec fn unsigned_part(s: Seq<char>) -> Seq<char> {
    if s.len() > 0 && s[0] == '+' {
        s.drop_first()
    } else {
        s
    }
}

/// What `s` parses to as an unsigned 32-bit decimal number: an optional `+`,
/// then one or more digits whose value fits; anything else does not parse.
pub open spec fn parsed_u32(s: Seq<char>) -> Option<u32> {
    let digits = unsigned_part(s);
    if digits.len() > 0 && all_digits(digits) && decimal_value(digits) <= u32::MAX {
        Some(decimal_value(digits) as u32)
    } else {
        None
    }
}

/// The length of the sign that `s` starts with: 1 for a plus sign, else 0.
pub open spec fn sign_len(s: Seq<char>) -> int {
    if s.len() > 0 && s[0] == '+' {
        1
    } else {
        0
    }
}

/// A digit string denotes at least what any of its prefixes denotes.
pub proof fn lemma_decimal_value_prefix(s: Seq<char>, k: int)
    requires
        0 <= k <= s.len(),
    ensures
        decimal_value(s.subrange(0, k)) <= decimal_value(s),
    decreases s.len() - k,
{
    if k == s.len() {
        assert(s.subrange(0, k) =~= s);
    } else {
        lemma_decimal_value_prefix(s.drop_last(), k);
        assert(s.drop_last().subrange(0, k) =~= s.subrange(0, k));
    }
}

/// Parses an unsigned 32-bit decimal number: an optional `+`, then one or
/// more digits. Returns `None` for any other text and for a value that does
/// not fit.
pub fn parse_u32(s: &str) -> (r: Option<u32>)
    ensures
        r == parsed_u32(s@),
{
    let len = s.unicode_len();
    let mut acc: u64 = 0;
    let mut ok = true;
    let mut signed = false;
    let mut pos: usize = 0;
    let ghost sign = sign_len(s@);
    let ghost mut over: int = 0;
    for c in it: s.chars()
        invariant
            it.seq() == s@,
            len == s@.len(),
            pos == it.index(),
            sign == sign_len(s@),
            signed <==> (pos > 0 && sign == 1),
            ok ==> acc <= u32::MAX,
            pos == 0 ==> acc == 0 && ok,
            ok && pos >= sign ==> all_digits(s@.subrange(sign, pos as int)) && acc
                == decimal_value(s@.subrange(sign, pos as int)),
            !ok ==> sign <= pos && ((exists|i: int| sign <= i < pos && !is_digit(s@[i])) || (sign
                <= over <= pos && decimal_value(s@.subrange(sign, over)) > u32::MAX)),
    {
        if pos == 0 && c == '+' {
            signed = true;
            assert(s@.subrange(sign, 1) =~= Seq::<char>::empty());
        } else if '0' <= c && c <= '9' {
            if ok {
                let d: u64 = (c as u32 - 48) as u64;
                acc = acc * 10 + d;
                proof {
                    let next = s@.subrange(sign, pos + 1);
                    assert(next.drop_last() =~= s@.subrange(sign, pos as int));
                    assert(next.last() == c);
                }
                if acc > 0xFFFF_FFFF {
                    ok = false;
                    proof {
                        over = pos + 1;
                    }
                }
            }
        } else {
            assert(!is_digit(s@[pos as int]));
            ok = false;
        }
        pos = pos + 1;
    }
    proof {
        let body = unsigned_part(s@);
        assert(body =~= s@.subrange(sign, len as int));
        if !ok {
            if exists|i: int| sign <= i < len && !is_digit(s@[i]) {
                let i = choose|i: int| sign <= i < len && !is_digit(s@[i]);
                assert(body[i - sign] == s@[i]);
                assert(!all_digits(body));
            } else {
                lemma_decimal_value_prefix(body, over - sign);
                assert(body.subrange(0, over - sign) =~= s@.subrange(sign, over));
            }
        }
    }
    if ok && (pos > 1 || (pos == 1 && !signed)) {
        Some(acc as u32)
    } else {
        None
    }
}

/// Appends the decimal representation of `n` to `out`.
pub fn push_decimal_bytes(n: u64, out: &mut Vec<u8>)
    ensures
        final(out)@ == old(out)@ + decimal_bytes(n as nat),
    decreases n,
{
    if n >= 10 {
        push_decimal_bytes(n / 10, out);
    }
    out.push(48u8 + (n % 10) as u8);
    assert(final(out)@ =~= old(out)@ + decimal_bytes(n as nat));
}

/// The one-character text of the decimal digit `d`.
pub(crate) fn digit_str(d: u8) -> (s: &'static str)
    requires
        d < 10,
    ensures
        s@ == seq![digit_char(d as nat)],
{
    proof {
        reveal_strlit("0");
        reveal_strlit("1");
        reveal_strlit("2");
        reveal_strlit("3");
        reveal_strlit("4");
        reveal_strlit("5");
        reveal_strlit("6");
        reveal_strlit("7");
        reveal_strlit("8");
        reveal_strlit("9");
    }
    let s = match d {
        0 => "0",
        1 => "1",
        2 => "2",
        3 => "3",
        4 => "4",
        5 => "5",
        6 => "6",
        7 => "7",
        8 => "8",
        _ => "9",
    };
    assert(s@ =~= seq![digit_char(d as nat)]);
    s
}

/// Appends the decimal representation of `n` to `out`.
pub fn append_decimal(n: u128, out: &mut String)
    ensures
        final(out)@ == old(out)@ + decimal_text(n as nat),
    decreases n,
{
    if n >= 10 {
        append_decimal(n / 10, out);
    }
    out.append(digit_str((n % 10) as u8));
    assert(final(out)@ =~= old(out)@ + decimal_text(n as nat));
}

/// The decimal representation of `n`.
pub fn decimal_string(n: u128) -> (s: String)
    ensures
        s@ == decimal_text(n as nat),
{
    let mut s = String::new();
    append_decimal(n, &mut s);
    assert(s@ =~= decimal_text(n as nat));
    s
}

/// The decimal text of a number is made of digits, and denotes the number;
/// so it parses back to the number where that fits.
pub proof fn lemma_decimal_text_parses(n: nat)
    ensures
        decimal_text(n).len() > 0,
        all_digits(decimal_text(n)),
        decimal_value(decimal_text(n)) == n,
        n <= u32::MAX ==> parsed_u32(decimal_text(n)) == Some(n as u32),
    decreases n,
{
    let text = decimal_text(n);
    if n < 10 {
        assert(text.drop_last() =~= Seq::<char>::empty());
        assert(decimal_value(Seq::<char>::empty()) == 0);
        assert(digit_value(text.last()) == n);
    } else {
        lemma_decimal_text_parses(n / 10);
        assert(text.drop_last() =~= decimal_text(n / 10));
        assert(decimal_value(text) == n);
    }
    assert(is_digit(text[0]));
}

} // verus!
