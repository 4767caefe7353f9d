//! Character and text primitives on which command classification rests.

use vstd::prelude::*;
use vstd::utf8::{encode_utf8, encode_utf8_decode_utf8};

verus! {

/// Whether `c` carries the Unicode `White_Space` property.
pub open spec fn is_whitespace(c: char) -> bool {
    let u = c as u32;
    ||| 0x09 <= u <= 0x0D
    ||| u == 0x20
    ||| u == 0x85
    ||| u == 0xA0
    ||| u == 0x1680
    ||| 0x2000 <= u <= 0x200A
    ||| u == 0x2028
    ||| u == 0x2029
    ||| u == 0x202F
    ||| u == 0x205F
    ||| u == 0x3000
}

/// `s` without its leading whitespace.
pub open spec fn trimmed_start(s: Seq<char>) -> Seq<char>
    decreases s.len(),
{
    if s.len() > 0 && is_whitespace(s.first()) {
        trimmed_start(s.drop_first())
    } else {
        s
    }
}

/// `s` without its trailing whitespace.
pub open spec fn trimmed_end(s: Seq<char>) -> Seq<char>
    decreases s.len(),
{
    if s.len() > 0 && is_whitespace(s.last()) {
        trimmed_end(s.drop_last())
    } else {
        s
    }
}

/// `s` without its leading and trailing whitespace.
pub open spec fn trimmed(s: Seq<char>) -> Seq<char> {
    trimmed_end(trimmed_start(s))
}

/// Every character of `s` is whitespace.
pub open spec fn all_whitespace(s: Seq<char>) -> bool {
    forall|k: int| 0 <= k < s.len() ==> is_whitespace(#[trigger] s[k])
}

/// The character that writes the digit `d`.
pub open spec fn digit(d: nat) -> char
    recommends
        d < 10,
{
    "0123456789"@[d as int]
}

/// `n` written in base ten, without sign or leading zeros.
pub open spec fn decimal(n: nat) -> Seq<char>
    decreases n,
{
    if n < 10 {
        seq![digit(n)]
    } else {
        decimal(n / 10).push(digit(n % 10))
    }
}

/// Dropping a whitespace-only prefix ahead of a kept character is what
/// `trimmed_start` does.
pub proof fn lemma_trimmed_start_at(s: Seq<char>, from: int)
    requires
        0 <= from <= s.len(),
        all_whitespace(s.take(from)),
        from < s.len() ==> !is_whitespace(s[from]),
    ensures
        trimmed_start(s) == s.skip(from),
    decreases from,
{
    if from == 0 {
        assert(s.skip(0) == s);
    } else {
        assert(s.take(from)[0] == s[0]);
        let rest = s.drop_first();
        assert forall|k: int| 0 <= k < rest.take(from - 1).len() implies is_whitespace(
            #[trigger] rest.take(from - 1)[k],
        ) by {
            assert(rest.take(from - 1)[k] == s.take(from)[k + 1]);
        }
        lemma_trimmed_start_at(rest, from - 1);
        assert(rest.skip(from - 1) == s.skip(from));
    }
}

/// Dropping a whitespace-only suffix behind a kept character is what
/// `trimmed_end` does.
pub proof fn lemma_trimmed_end_at(s: Seq<char>, to: int)
    requires
        0 <= to <= s.len(),
        all_whitespace(s.skip(to)),
        0 < to ==> !is_whitespace(s[to - 1]),
    ensures
        trimmed_end(s) == s.take(to),
    decreases s.len() - to,
{
    if to == s.len() {
        assert(s.take(to) == s);
    } else {
        assert(s.skip(to)[s.len() - to - 1] == s.last());
        let rest = s.drop_last();
        assert forall|k: int| 0 <= k < rest.skip(to).len() implies is_whitespace(
            #[trigger] rest.skip(to)[k],
        ) by {
            assert(rest.skip(to)[k] == s.skip(to)[k]);
        }
        lemma_trimmed_end_at(rest, to);
        assert(rest.take(to) == s.take(to));
    }
}

/// The trimmed text is the stretch from the first kept character to the last.
pub proof fn lemma_trimmed_is_subrange(s: Seq<char>, from: int, to: int)
    requires
        0 <= from <= to <= s.len(),
        all_whitespace(s.take(from)),
        all_whitespace(s.skip(to)),
        from < to ==> !is_whitespace(s[from]) && !is_whitespace(s[to - 1]),
        from == to ==> to == s.len(),
    ensures
        trimmed(s) == s.subrange(from, to),
{
    lemma_trimmed_start_at(s, from);
    let tail = s.skip(from);
    assert forall|k: int| 0 <= k < tail.skip(to - from).len() implies is_whitespace(
        #[trigger] tail.skip(to - from)[k],
    ) by {
        assert(tail.skip(to - from)[k] == s.skip(to)[k]);
    }
    lemma_trimmed_end_at(tail, to - from);
    assert(tail.take(to - from) == s.subrange(from, to));
}

/// Decides `is_whitespace` for one character.
pub fn char_is_whitespace(c: char) -> (b: bool)
    ensures
        b == is_whitespace(c),
{
    let u: u32 = c as u32;
    (0x09 <= u && u <= 0x0D) || u == 0x20 || u == 0x85 || u == 0xA0 || u == 0x1680 || (0x2000 <= u
        && u <= 0x200A) || u == 0x2028 || u == 0x2029 || u == 0x202F || u == 0x205F || u == 0x3000
}

/// Finds the stretch of `s` from its first kept character to its last:
/// whitespace before it, whitespace behind it, and none at either of its
/// ends. A text of whitespace alone has an empty stretch at its end.
fn kept_stretch(s: &str) -> (stretch: (usize, usize))
    ensures
        stretch.0 <= stretch.1 <= s@.len(),
        all_whitespace(s@.take(stretch.0 as int)),
        all_whitespace(s@.skip(stretch.1 as int)),
        stretch.0 < stretch.1 ==> !is_whitespace(s@[stretch.0 as int]) && !is_whitespace(
            s@[stretch.1 - 1],
        ),
        stretch.0 == stretch.1 ==> stretch.1 == s@.len(),
{
    let length: usize = s.unicode_len();
    let mut from: usize = 0;
    let mut to: usize = 0;
    let mut seen: usize = 0;
    for c in it: s.chars()
        invariant
            it.seq() == s@,
            length == s@.len(),
            seen == it.index(),
            from <= to <= seen,
            all_whitespace(s@.take(from as int)),
            all_whitespace(s@.subrange(to as int, seen as int)),
            from < to ==> !is_whitespace(s@[from as int]) && !is_whitespace(s@[to - 1]),
            from == to ==> to == seen,
    {
        if !char_is_whitespace(c) {
            if from == to {
                from = seen;
            }
            to = seen + 1;
        } else if from == to {
            from = seen + 1;
            to = seen + 1;
        }
        seen = seen + 1;
    }
    assert(s@.subrange(to as int, seen as int) == s@.skip(to as int));
    (from, to)
}

/// Returns the part of `s` between its leading and trailing whitespace.
pub fn trim<'a>(s: &'a str) -> (t: &'a str)
    ensures
        t@ == trimmed(s@),
{
    let (from, to) = kept_stretch(s);
    proof {
        lemma_trimmed_is_subrange(s@, from as int, to as int);
    }
    s.substring_char(from, to)
}

/// Returns `s` up to its trailing whitespace.
pub fn trim_end<'a>(s: &'a str) -> (t: &'a str)
    ensures
        t@ == trimmed_end(s@),
{
    let (from, to) = kept_stretch(s);
    let end = if from == to {
        0
    } else {
        to
    };
    proof {
        if from == to {
            assert(s@.take(from as int) == s@);
            assert(s@.skip(0) == s@);
        }
        lemma_trimmed_end_at(s@, end as int);
    }
    s.substring_char(0, end)
}

/// Decides whether two texts hold the same characters.
pub fn same_text(a: &str, b: &str) -> (same: bool)
    ensures
        same == (a@ == b@),
{
    let x = a.as_bytes();
    let y = b.as_bytes();
    proof {
        encode_utf8_decode_utf8(a@);
        encode_utf8_decode_utf8(b@);
    }
    if x.len() != y.len() {
        return false;
    }
    let mut i: usize = 0;
    while i < x.len()
        invariant
            x.len() == y.len(),
            i <= x.len(),
            x@ == encode_utf8(a@),
            y@ == encode_utf8(b@),
            forall|k: int| 0 <= k < i ==> x[k] == y[k],
        decreases x.len() - i,
    {
        if x[i] != y[i] {
            return false;
        }
        i = i + 1;
    }
    assert(x@ =~= y@);
    true
}

/// The one-character text of a single digit.
fn digit_text(d: u16) -> (t: &'static str)
    requires
        d < 10,
    ensures
        t@ == seq![digit(d as nat)],
{
    proof {
        reveal_strlit("0123456789");
        reveal_strlit("0");
        reveal_strlit("1");
        reveal_strlit("2");
        reveal_strlit("3");
        reveal_strlit("4");
        reveal_strlit("5");
        reveal_strlit("6");
        reveal_strlit("7");
        reveal_strlit("8");
        reveal_strlit("9");
    }
    let t = match d {
        0 => "0",
        1 => "1",
        2 => "2",
        3 => "3",
        4 => "4",
        5 => "5",
        6 => "6",
        7 => "7",
        8 => "8",
        _ => "9",
    };
    assert(t@ =~= seq![digit(d as nat)]);
    t
}

/// Writes `n` in base ten.
pub fn decimal_text(n: u16) -> (t: String)
    ensures
        t@ == decimal(n as nat),
    decreases n,
{
    if n < 10 {
        String::from_str(digit_text(n))
    } else {
        let mut t = decimal_text(n / 10);
        t.append(digit_text(n % 10));
        assert(t@ =~= decimal((n / 10) as nat).push(digit((n % 10) as nat)));
        t
    }
}

} // verus!
