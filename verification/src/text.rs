use vstd::prelude::*;

verus! {

/// Whether `c` has the Unicode property `White_Space`.
pub open spec fn is_whitespace(c: char) -> bool {
    let n = c as u32;
    ||| 0x09 <= n <= 0x0D
    ||| n == 0x20
    ||| n == 0x85
    ||| n == 0xA0
    ||| n == 0x1680
    ||| 0x2000 <= n <= 0x200A
    ||| n == 0x2028
    ||| n == 0x2029
    ||| n == 0x202F
    ||| n == 0x205F
    ||| n == 0x3000
}

/// `s` without its leading whitespace.
pub open spec fn trim_start(s: Seq<char>) -> Seq<char>
    decreases s.len(),
{
    if s.len() > 0 && is_whitespace(s.first()) {
        trim_start(s.drop_first())
    } else {
        s
    }
}

/// `s` without its trailing whitespace.
pub open spec fn trim_end(s: Seq<char>) -> Seq<char>
    decreases s.len(),
{
    if s.len() > 0 && is_whitespace(s.last()) {
        trim_end(s.drop_last())
    } else {
        s
    }
}

/// `s` without leading and trailing whitespace.
pub open spec fn trimmed(s: Seq<char>) -> Seq<char> {
    trim_end(trim_start(s))
}

pub fn char_is_whitespace(c: char) -> (b: bool)
    ensures
        b == is_whitespace(c),
{
    let n: u32 = c as u32;
    (0x09 <= n && n <= 0x0D) || n == 0x20 || n == 0x85 || n == 0xA0 || n == 0x1680 || (0x2000 <= n
        && n <= 0x200A) || n == 0x2028 || n == 0x2029 || n == 0x202F || n == 0x205F || n == 0x3000
}

proof fn lemma_trim_start(s: Seq<char>, a: int)
    requires
        0 <= a <= s.len(),
        forall|i: int| 0 <= i < a ==> is_whitespace(s[i]),
        a < s.len() ==> !is_whitespace(s[a]),
    ensures
        trim_start(s) == s.subrange(a, s.len() as int),
    decreases a,
{
    if a == 0 {
        assert(s.subrange(0, s.len() as int) =~= s);
    } else {
        let t = s.drop_first();
        assert(forall|i: int| 0 <= i < a - 1 ==> t[i] == s[i + 1]);
        lemma_trim_start(t, a - 1);
        assert(t.subrange(a - 1, t.len() as int) =~= s.subrange(a, s.len() as int));
    }
}

proof fn lemma_trim_end(s: Seq<char>, b: int)
    requires
        0 <= b <= s.len(),
        forall|i: int| b <= i < s.len() ==> is_whitespace(s[i]),
        0 < b ==> !is_whitespace(s[b - 1]),
    ensures
        trim_end(s) == s.subrange(0, b),
    decreases s.len() - b,
{
    if b == s.len() {
        assert(s.subrange(0, b) =~= s);
    } else {
        let t = s.drop_last();
        lemma_trim_end(t, b);
        assert(t.subrange(0, b) =~= s.subrange(0, b));
    }
}

/// Strips leading and trailing whitespace from `s`.
pub fn trim(s: &str) -> (r: &str)
    ensures
        r@ == trimmed(s@),
{
    let len = s.unicode_len();
    let mut start: usize = 0;
    let mut end: usize = 0;
    let mut seen = false;
    let mut pos: usize = 0;
    for c in it: s.chars()
        invariant
            it.seq() == s@,
            len == s@.len(),
            pos == it.index(),
            seen ==> start < end <= pos && !is_whitespace(s@[start as int]) && !is_whitespace(
                s@[end - 1],
            ),
            !seen ==> start == 0 && end == 0,
            forall|i: int| 0 <= i < pos && (!seen || i < start) ==> is_whitespace(s@[i]),
            forall|i: int| end <= i < pos && seen ==> is_whitespace(s@[i]),
    {
        if !char_is_whitespace(c) {
            if !seen {
                start = pos;
                seen = true;
            }
            end = pos + 1;
        }
        pos = pos + 1;
    }
    if seen {
        proof {
            lemma_trim_start(s@, start as int);
            let t = s@.subrange(start as int, len as int);
            lemma_trim_end(t, end - start);
            assert(t.subrange(0, end - start) =~= s@.subrange(start as int, end as int));
        }
        s.substring_char(start, end)
    } else {
        proof {
            lemma_trim_start(s@, len as int);
            assert(s@.subrange(len as int, len as int) =~= Seq::<char>::empty());
        }
        s.substring_char(0, 0)
    }
}

/// The fields of `s`: the pieces between its commas, in order. A text
/// without a comma is one field, and so is the empty text.
pub open spec fn fields(s: Seq<char>) -> Seq<Seq<char>>
    decreases s.len(),
{
    if s.len() == 0 {
        seq![Seq::<char>::empty()]
    } else if s.last() == ',' {
        fields(s.drop_last()).push(Seq::<char>::empty())
    } else {
        let before = fields(s.drop_last());
        before.drop_last().push(before.last().push(s.last()))
    }
}

/// Every text has at least one field.
pub proof fn lemma_fields_nonempty(s: Seq<char>)
    ensures
        fields(s).len() >= 1,
    decreases s.len(),
{
    if s.len() > 0 {
        lemma_fields_nonempty(s.drop_last());
    }
}

/// Splits `s` at its commas.
pub fn split_fields<'a>(s: &'a str) -> (r: Vec<&'a str>)
    ensures
        r@.len() == fields(s@).len(),
        forall|i: int| 0 <= i < r@.len() ==> (#[trigger] r@[i])@ == fields(s@)[i],
{
    let len = s.unicode_len();
    let mut out: Vec<&'a str> = Vec::new();
    let mut from: usize = 0;
    let mut pos: usize = 0;
    assert(s@.subrange(0, 0) =~= Seq::<char>::empty());
    for c in it: s.chars()
        invariant
            it.seq() == s@,
            len == s@.len(),
            pos == it.index(),
            from <= pos,
            out@.len() + 1 == fields(s@.subrange(0, pos as int)).len(),
            forall|i: int|
                0 <= i < out@.len() ==> (#[trigger] out@[i])@ == fields(
                    s@.subrange(0, pos as int),
                )[i],
            fields(s@.subrange(0, pos as int)).last() == s@.subrange(from as int, pos as int),
    {
        proof {
            let before = s@.subrange(0, pos as int);
            let next = s@.subrange(0, pos + 1);
            assert(next.drop_last() =~= before);
            assert(next.last() == c);
            lemma_fields_nonempty(before);
            assert(s@.subrange(from as int, pos as int).push(c) =~= s@.subrange(
                from as int,
                pos + 1,
            ));
            assert(s@.subrange(pos + 1, pos + 1) =~= Seq::<char>::empty());
        }
        if c == ',' {
            out.push(s.substring_char(from, pos));
            from = pos + 1;
        }
        pos = pos + 1;
    }
    assert(s@.subrange(0, len as int) =~= s@);
    out.push(s.substring_char(from, len));
    out
}

/// Whether `s` begins with `prefix`.
pub open spec fn has_prefix(s: Seq<char>, prefix: Seq<char>) -> bool {
    prefix.len() <= s.len() && s.subrange(0, prefix.len() as int) == prefix
}

/// The characters of `s`.
pub fn chars_of(s: &str) -> (v: Vec<char>)
    ensures
        v@ == s@,
{
    let mut v: Vec<char> = Vec::new();
    for c in it: s.chars()
        invariant
            it.seq() == s@,
            v@ == s@.subrange(0, it.index() as int),
    {
        v.push(c);
        assert(v@ =~= s@.subrange(0, it.index() + 1));
    }
    assert(v@ =~= s@);
    v
}

/// Whether `s` begins with `prefix`.
pub fn starts_with(s: &str, prefix: &str) -> (b: bool)
    ensures
        b == has_prefix(s@, prefix@),
{
    let text = chars_of(s);
    let head = chars_of(prefix);
    if head.len() > text.len() {
        return false;
    }
    let mut i: usize = 0;
    while i < head.len()
        invariant
            i <= head@.len() <= text@.len(),
            text@ == s@,
            head@ == prefix@,
            forall|k: int| 0 <= k < i ==> text@[k] == head@[k],
        decreases head@.len() - i,
    {
        if text[i] != head[i] {
            assert(s@.subrange(0, prefix@.len() as int)[i as int] != prefix@[i as int]);
            return false;
        }
        i = i + 1;
    }
    assert(s@.subrange(0, prefix@.len() as int) =~= prefix@);
    true
}

/// Whether `a` and `b` are the same text.
pub fn same_text(a: &str, b: &str) -> (same: bool)
    ensures
        same == (a@ == b@),
{
    let whole = starts_with(a, b);
    let la = a.unicode_len();
    let lb = b.unicode_len();
    assert(a@.subrange(0, a@.len() as int) =~= a@);
    whole && la == lb
}

/// The texts of `parts` with a comma between each two.
pub open spec fn joined(parts: Seq<Seq<char>>) -> Seq<char>
    decreases parts.len(),
{
    if parts.len() == 0 {
        Seq::<char>::empty()
    } else if parts.len() == 1 {
        parts[0]
    } else {
        joined(parts.drop_last()) + seq![','] + parts.last()
    }
}

/// No field holds a comma.
pub proof fn lemma_fields_hold_no_comma(s: Seq<char>)
    ensures
        forall|i: int, j: int|
            0 <= i < fields(s).len() && 0 <= j < fields(s)[i].len() ==> fields(s)[i][j] != ',',
    decreases s.len(),
{
    if s.len() > 0 {
        lemma_fields_hold_no_comma(s.drop_last());
        lemma_fields_nonempty(s.drop_last());
    }
}

/// The fields of a text, joined by commas, are the text again.
pub proof fn lemma_fields_join(s: Seq<char>)
    ensures
        joined(fields(s)) == s,
    decreases s.len(),
{
    if s.len() == 0 {
        assert(joined(fields(s)) =~= s);
    } else {
        let before = fields(s.drop_last());
        lemma_fields_join(s.drop_last());
        lemma_fields_nonempty(s.drop_last());
        if s.last() == ',' {
            let all = before.push(Seq::<char>::empty());
            assert(all.drop_last() =~= before);
            assert(joined(all) =~= s.drop_last().push(','));
            assert(s.drop_last().push(',') =~= s);
        } else {
            let grown = before.last().push(s.last());
            let all = before.drop_last().push(grown);
            if before.len() == 1 {
                assert(joined(all) =~= before[0].push(s.last()));
            } else {
                assert(all.drop_last() =~= before.drop_last());
                assert(joined(all) =~= joined(before).push(s.last()));
            }
            assert(s.drop_last().push(s.last()) =~= s);
        }
    }
}

} // verus!
