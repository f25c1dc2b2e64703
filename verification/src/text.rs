//! Character-level helpers shared by the parsers of this crate.
//!
//! Strings are modelled by their view, a `Seq<char>`.  The executable
//! helpers work on a `Vec<char>` copy of the text, so that every scan is
//! linear in the length of the text.

use vstd::prelude::*;
use vstd::utf8::{decode_utf8, valid_utf8};

verus! {

// Text from bytes

/// Reads `bytes` as UTF-8 text with `std::str::from_utf8`: there is a text
/// exactly when the bytes are valid UTF-8, and the text is what the bytes
/// encode.
#[verifier::external_body]
pub(crate) fn text_of(bytes: &[u8]) -> (text: Option<&str>)
    ensures
        text is Some <==> valid_utf8(bytes@),
        text matches Some(t) ==> t@ == decode_utf8(bytes@),
{
    std::str::from_utf8(bytes).ok()
}

// Searching

/// Index of the first occurrence of `c` in `s`, or `s.len()` if there is none.
pub open spec fn first_index(s: Seq<char>, c: char) -> int
    decreases s.len(),
{
    if s.len() == 0 || s[0] == c {
        0
    } else {
        1 + first_index(s.drop_first(), c)
    }
}

/// `first_index` stays in range, nothing before it is `c`, and it points at
/// `c` unless it ran off the end.
pub proof fn lemma_first_index(s: Seq<char>, c: char)
    ensures
        0 <= first_index(s, c) <= s.len(),
        forall|j: int| 0 <= j < first_index(s, c) ==> s[j] != c,
        first_index(s, c) < s.len() ==> s[first_index(s, c)] == c,
        first_index(s, c) == s.len() <==> !s.contains(c),
    decreases s.len(),
{
    if s.len() == 0 || s[0] == c {
    } else {
        let t = s.drop_first();
        lemma_first_index(t, c);
        assert forall|j: int| 0 <= j < first_index(s, c) implies s[j] != c by {
            if j > 0 {
                assert(s[j] == t[j - 1]);
            }
        }
        if first_index(s, c) < s.len() {
            assert(s[first_index(s, c)] == t[first_index(t, c)]);
        }
        if t.contains(c) {
            let k = choose|k: int| 0 <= k < t.len() && t[k] == c;
            assert(s[k + 1] == c);
        }
        if s.contains(c) {
            let k = choose|k: int| 0 <= k < s.len() && s[k] == c;
            assert(t[k - 1] == c);
        }
    }
}

/// Any index that is preceded by no `c` and either holds `c` or is the end
/// of `s` is the first index of `c`.
pub proof fn lemma_first_index_is(s: Seq<char>, c: char, i: int)
    requires
        0 <= i <= s.len(),
        forall|j: int| 0 <= j < i ==> s[j] != c,
        i < s.len() ==> s[i] == c,
    ensures
        first_index(s, c) == i,
{
    lemma_first_index(s, c);
    let f = first_index(s, c);
    if f < i {
        assert(s[f] == c);
    } else if i < f {
        assert(s[i] == c);
    }
}

/// In a prefix of `s` the first `c` stands where it stands in `s`, unless
/// the prefix ends before it.
pub proof fn lemma_first_index_in_prefix(s: Seq<char>, n: int, c: char)
    requires
        0 <= n <= s.len(),
    ensures
        first_index(s.take(n), c) == if first_index(s, c) < n {
            first_index(s, c)
        } else {
            n
        },
{
    lemma_first_index(s, c);
    let f = first_index(s, c);
    let i = if f < n {
        f
    } else {
        n
    };
    assert forall|j: int| 0 <= j < i implies s.take(n)[j] != c by {
        assert(s.take(n)[j] == s[j]);
    }
    lemma_first_index_is(s.take(n), c, i);
}

/// The characters of `s`, in order.
pub fn chars_of(s: &str) -> (v: Vec<char>)
    ensures
        v@ == s@,
{
    let mut v: Vec<char> = Vec::new();
    for c in it: s.chars()
        invariant
            v@ == it.seq().take(it.index() as int),
    {
        v.push(c);
    }
    v
}

/// Position of the first `c` at or after `from`, or `v.len()` if there is none.
pub fn find_from(v: &Vec<char>, from: usize, c: char) -> (i: usize)
    requires
        from <= v.len(),
    ensures
        from <= i <= v.len(),
        i - from == first_index(v@.skip(from as int), c),
{
    let mut i: usize = from;
    while i < v.len() && v[i] != c
        invariant
            from <= i <= v.len(),
            forall|j: int| from <= j < i ==> v@[j] != c,
        decreases v.len() - i,
    {
        i += 1;
    }
    proof {
        lemma_first_index_is(v@.skip(from as int), c, i - from);
    }
    i
}

/// Whether `pattern` stands in `v` at position `at`.
pub fn stands_at(v: &Vec<char>, at: usize, pattern: &Vec<char>) -> (b: bool)
    requires
        at <= v.len(),
    ensures
        b == pattern@.is_prefix_of(v@.skip(at as int)),
{
    if pattern.len() > v.len() - at {
        return false;
    }
    let mut k: usize = 0;
    while k < pattern.len()
        invariant
            at <= v.len(),
            pattern.len() <= v.len() - at,
            k <= pattern.len(),
            forall|j: int| 0 <= j < k ==> pattern@[j] == v@[at + j],
        decreases pattern.len() - k,
    {
        if pattern[k] != v[at + k] {
            proof {
                let rest = v@.skip(at as int);
                assert(rest[k as int] == v@[at + k]);
                assert(rest.subrange(0, pattern@.len() as int)[k as int] == rest[k as int]);
            }
            return false;
        }
        k += 1;
    }
    proof {
        let rest = v@.skip(at as int);
        assert(pattern@ =~= rest.subrange(0, pattern@.len() as int));
    }
    true
}

// Fields and line ends

/// What is left of `s` after its first `n` fields, where single blanks
/// part the fields: the text behind the `n`-th blank, and nothing where
/// `s` has fewer than `n` blanks.  Two blanks in a row hold an empty
/// field between them.
pub open spec fn skip_fields(s: Seq<char>, n: nat) -> Seq<char>
    decreases n,
{
    if n == 0 {
        s
    } else if !s.contains(' ') {
        Seq::empty()
    } else {
        skip_fields(s.skip(first_index(s, ' ') + 1), (n - 1) as nat)
    }
}

/// `s` without the carriage-return and line-feed pairs at its end.
pub open spec fn trim_line_end(s: Seq<char>) -> Seq<char>
    decreases s.len(),
{
    if s.len() >= 2 && s[s.len() - 2] == '\r' && s[s.len() - 1] == '\n' {
        trim_line_end(s.take(s.len() - 2))
    } else {
        s
    }
}

/// Where the text behind the first `n` fields of `v` starts.
pub fn field_start(v: &Vec<char>, n: usize) -> (start: usize)
    ensures
        start <= v.len(),
        v@.skip(start as int) == skip_fields(v@, n as nat),
{
    let mut start: usize = 0;
    let mut left: usize = n;
    assert(v@.skip(0) =~= v@);
    while left > 0
        invariant
            start <= v.len(),
            skip_fields(v@, n as nat) == skip_fields(v@.skip(start as int), left as nat),
        decreases left,
    {
        let blank = find_from(v, start, ' ');
        proof {
            lemma_first_index(v@.skip(start as int), ' ');
        }
        if blank == v.len() {
            assert(v@.skip(v.len() as int) =~= Seq::<char>::empty());
            return v.len();
        }
        assert(v@.skip(start as int).skip(blank - start + 1) =~= v@.skip(blank + 1));
        start = blank + 1;
        left -= 1;
    }
    start
}

/// Where the text of `v` from `from` up to `to` ends once the
/// carriage-return and line-feed pairs at its end are cut off.
pub fn line_end(v: &Vec<char>, from: usize, to: usize) -> (end: usize)
    requires
        from <= to <= v.len(),
    ensures
        from <= end <= to,
        v@.subrange(from as int, end as int) == trim_line_end(v@.subrange(from as int, to as int)),
{
    let mut end: usize = to;
    while end - from >= 2 && v[end - 2] == '\r' && v[end - 1] == '\n'
        invariant
            from <= end <= to <= v.len(),
            trim_line_end(v@.subrange(from as int, to as int)) == trim_line_end(
                v@.subrange(from as int, end as int),
            ),
        decreases end,
    {
        proof {
            let s = v@.subrange(from as int, end as int);
            assert(s[s.len() - 2] == '\r' && s[s.len() - 1] == '\n');
            assert(s.take(s.len() - 2) =~= v@.subrange(from as int, end - 2));
        }
        end -= 2;
    }
    proof {
        let s = v@.subrange(from as int, end as int);
        if s.len() >= 2 {
            assert(s[s.len() - 2] == v@[end - 2] && s[s.len() - 1] == v@[end - 1]);
        }
    }
    end
}

// Numbers in base ten

/// Whether `c` is one of the ten ASCII digits.
pub open spec fn is_digit(c: char) -> bool {
    '0' <= c && c <= '9'
}

/// The value of the ASCII digit `c`.
pub open spec fn digit_value(c: char) -> nat {
    (c as u32 - '0' as u32) as nat
}

/// The ASCII digit that stands for `d`, for `d` below ten.
pub open spec fn digit_char(d: nat) -> char {
    if d == 0 {
        '0'
    } else if d == 1 {
        '1'
    } else if d == 2 {
        '2'
    } else if d == 3 {
        '3'
    } else if d == 4 {
        '4'
    } else if d == 5 {
        '5'
    } else if d == 6 {
        '6'
    } else if d == 7 {
        '7'
    } else if d == 8 {
        '8'
    } else {
        '9'
    }
}

/// Whether `s` holds ASCII digits only.
pub open spec fn all_digits(s: Seq<char>) -> bool {
    forall|i: int| 0 <= i < s.len() ==> is_digit(#[trigger] s[i])
}

/// The number that the digits of `s` spell in base ten; 0 for no digits.
pub open spec fn decimal_value(s: Seq<char>) -> nat
    decreases s.len(),
{
    if s.len() == 0 {
        0
    } else {
        10 * decimal_value(s.drop_last()) + digit_value(s.last())
    }
}

/// `s` without one leading plus sign, if it has one.
pub open spec fn without_sign(s: Seq<char>) -> Seq<char> {
    if s.len() > 0 && s[0] == '+' {
        s.drop_first()
    } else {
        s
    }
}

/// The 16-bit number that `s` spells: an optional plus sign, then one or
/// more ASCII digits whose value fits.  Leading zeros are accepted; anything
/// else (an empty text, a lone sign, a blank, a minus sign, a value above
/// 65535) is no number.
pub open spec fn parse_u16(s: Seq<char>) -> Option<u16> {
    let d = without_sign(s);
    if d.len() > 0 && all_digits(d) && decimal_value(d) <= u16::MAX {
        Some(decimal_value(d) as u16)
    } else {
        None
    }
}

/// `n` in base ten, without sign or leading zeros.
pub open spec fn decimal(n: nat) -> Seq<char>
    decreases n,
{
    if n < 10 {
        seq![digit_char(n)]
    } else {
        decimal(n / 10).push(digit_char(n % 10))
    }
}

/// A longer run of digits never spells a smaller number than its prefix.
pub proof fn lemma_decimal_value_grows(s: Seq<char>, k: int)
    requires
        0 <= k <= s.len(),
    ensures
        decimal_value(s.take(k)) <= decimal_value(s),
    decreases s.len() - k,
{
    if k == s.len() {
        assert(s.take(k) =~= s);
    } else {
        lemma_decimal_value_grows(s.drop_last(), k);
        assert(s.drop_last().take(k) =~= s.take(k));
    }
}

/// Writing a number in base ten and reading it back gives the number.
pub proof fn lemma_decimal_round_trip(n: nat)
    ensures
        decimal(n).len() > 0,
        all_digits(decimal(n)),
        decimal_value(decimal(n)) == n,
        without_sign(decimal(n)) == decimal(n),
    decreases n,
{
    if n < 10 {
        let s = decimal(n);
        assert(s.drop_last() =~= Seq::<char>::empty());
        assert(decimal_value(s.drop_last()) == 0);
        assert(digit_value(digit_char(n)) == n);
    } else {
        lemma_decimal_round_trip(n / 10);
        let head = decimal(n / 10);
        let s = decimal(n);
        assert(s.drop_last() =~= head);
        assert(digit_value(digit_char(n % 10)) == n % 10);
        assert(s[0] == head[0]);
        assert forall|i: int| 0 <= i < s.len() implies is_digit(#[trigger] s[i]) by {
            if i < head.len() {
                assert(s[i] == head[i]);
            }
        }
    }
}

/// The number spelled by the characters of `v` from `from` up to `to`.
pub fn parse_number(v: &Vec<char>, from: usize, to: usize) -> (r: Option<u16>)
    requires
        from <= to <= v.len(),
    ensures
        r == parse_u16(v@.subrange(from as int, to as int)),
{
    let ghost s = v@.subrange(from as int, to as int);
    let start: usize = if from < to && v[from] == '+' {
        from + 1
    } else {
        from
    };
    let ghost d = without_sign(s);
    assert(d =~= v@.subrange(start as int, to as int));
    if start == to {
        return None;
    }
    let mut acc: u32 = 0;
    let mut i: usize = start;
    while i < to
        invariant
            from <= start <= i <= to <= v.len(),
            d == without_sign(v@.subrange(from as int, to as int)),
            d == v@.subrange(start as int, to as int),
            all_digits(d.take(i - start)),
            acc == decimal_value(d.take(i - start)),
            acc <= u16::MAX,
        decreases to - i,
    {
        let c = v[i];
        if !('0' <= c && c <= '9') {
            assert(d[i - start] == c);
            return None;
        }
        let next: u32 = acc * 10 + (c as u32 - '0' as u32);
        proof {
            let longer = d.take(i - start + 1);
            assert(longer.drop_last() =~= d.take(i - start));
            assert(longer.last() == c);
            assert(decimal_value(longer) == next);
            assert forall|j: int| 0 <= j < longer.len() implies is_digit(#[trigger] longer[j]) by {
                if j < i - start {
                    assert(longer[j] == d.take(i - start)[j]);
                }
            }
        }
        if next > 65535 {
            proof {
                lemma_decimal_value_grows(d, i - start + 1);
            }
            return None;
        }
        acc = next;
        i += 1;
    }
    assert(d.take(i - start) =~= d);
    Some(acc as u16)
}

/// The one-character text of the digit `d`.
fn digit_text(d: u8) -> (t: &'static str)
    requires
        d < 10,
    ensures
        t@ == seq![digit_char(d as nat)],
{
    proof {
        reveal_strlit("0");
        reveal_strlit("1");
        reveal_strlit("2");
        reveal_strlit("3");
        reveal_strlit("4");
        reveal_strlit("5");
        reveal_strlit("6");
        reveal_strlit("7");
        reveal_strlit("8");
        reveal_strlit("9");
    }
    let t = if d == 0 {
        "0"
    } else if d == 1 {
        "1"
    } else if d == 2 {
        "2"
    } else if d == 3 {
        "3"
    } else if d == 4 {
        "4"
    } else if d == 5 {
        "5"
    } else if d == 6 {
        "6"
    } else if d == 7 {
        "7"
    } else if d == 8 {
        "8"
    } else {
        "9"
    };
    assert(t@ =~= seq![digit_char(d as nat)]);
    t
}

/// Appends `n` in base ten to `out`.
pub fn push_decimal(out: &mut String, n: u16)
    ensures
        final(out)@ == old(out)@ + decimal(n as nat),
    decreases n,
{
    if n >= 10 {
        push_decimal(out, n / 10);
    }
    out.append(digit_text((n % 10) as u8));
    proof {
        if n >= 10 {
            assert(old(out)@ + decimal((n / 10) as nat) + seq![digit_char((n % 10) as nat)]
                =~= old(out)@ + decimal(n as nat));
        }
    }
}

} // verus!
