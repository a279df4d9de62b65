//! Character-level helpers shared by the rest of the crate.
//!
//! Strings are modelled as `Seq<char>`. Every function here states its result
//! as a sequence expression so that callers can reason about the text they
//! build.

use vstd::prelude::*;

verus! {

/// `pat` occurs in `text` starting at position `at`.
pub open spec fn occurs_at(text: Seq<char>, pat: Seq<char>, at: int) -> bool {
    &&& 0 <= at
    &&& at + pat.len() <= text.len()
    &&& text.subrange(at, at + pat.len()) == pat
}

/// `pat` occurs somewhere in `text`.
pub open spec fn contains_seq(text: Seq<char>, pat: Seq<char>) -> bool {
    exists|at: int| occurs_at(text, pat, at)
}

/// Position of the first occurrence of `pat` in `text` at or after `from`,
/// or `None` when there is none.
pub open spec fn first_occurrence(text: Seq<char>, pat: Seq<char>, from: int) -> Option<int>
    decreases text.len() + 1 - from,
{
    if from < 0 || from + pat.len() > text.len() {
        None
    } else if occurs_at(text, pat, from) {
        Some(from)
    } else {
        first_occurrence(text, pat, from + 1)
    }
}

/// The pieces of `parts` with `sep` between each two neighbours.
pub open spec fn join_seq(parts: Seq<Seq<char>>, sep: Seq<char>) -> Seq<char>
    decreases parts.len(),
{
    if parts.len() == 0 {
        Seq::empty()
    } else if parts.len() == 1 {
        parts[0]
    } else {
        join_seq(parts.drop_last(), sep) + sep + parts.last()
    }
}

/// `text` with every occurrence of `pat` replaced by `to`, scanning from the
/// left and never looking again at replaced text.
pub open spec fn replace_seq(text: Seq<char>, pat: Seq<char>, to: Seq<char>) -> Seq<char>
    decreases text.len(),
{
    if pat.len() == 0 || text.len() < pat.len() {
        text
    } else if occurs_at(text, pat, 0) {
        to + replace_seq(text.skip(pat.len() as int), pat, to)
    } else {
        seq![text[0]] + replace_seq(text.skip(1), pat, to)
    }
}

/// A first occurrence, when there is one, is an occurrence, and nothing
/// occurs between `from` and it; when there is none, nothing occurs at or
/// after `from`.
pub proof fn lemma_first_occurrence(text: Seq<char>, pat: Seq<char>, from: int)
    requires
        0 <= from,
    ensures
        match first_occurrence(text, pat, from) {
            Some(at) => from <= at && occurs_at(text, pat, at) && forall|k: int|
                from <= k < at ==> !occurs_at(text, pat, k),
            None => forall|k: int| from <= k ==> !occurs_at(text, pat, k),
        },
    decreases text.len() + 1 - from,
{
    if from + pat.len() > text.len() {
    } else if occurs_at(text, pat, from) {
    } else {
        lemma_first_occurrence(text, pat, from + 1);
    }
}

/// The characters of `s`, in order.
pub fn to_chars(s: &str) -> (v: Vec<char>)
    ensures
        v@ == s@,
{
    let mut v: Vec<char> = Vec::new();
    for c in it: s.chars()
        invariant
            v@ == it.seq().take(it.index() as int),
            it.seq() == s@,
    {
        v.push(c);
    }
    v
}

/// Tells whether two strings hold the same characters.
pub fn same_text(a: &str, b: &str) -> (r: bool)
    ensures
        r == (a@ == b@),
{
    let x = String::from_str(a);
    let y = String::from_str(b);
    x == y
}

/// Tells whether `pat` occurs in `text` at position `at`.
pub fn matches_at(text: &Vec<char>, pat: &Vec<char>, at: usize) -> (r: bool)
    ensures
        r == occurs_at(text@, pat@, at as int),
{
    if pat.len() > text.len() || at > text.len() - pat.len() {
        return false;
    }
    let mut k: usize = 0;
    while k < pat.len()
        invariant
            k <= pat.len(),
            at + pat.len() <= text.len(),
            forall|j: int| 0 <= j < k ==> text@[at + j] == pat@[j],
        decreases pat.len() - k,
    {
        if text[at + k] != pat[k] {
            proof {
                let sub = text@.subrange(at as int, at + pat.len());
                assert(sub[k as int] == text@[at + k]);
            }
            return false;
        }
        k = k + 1;
    }
    proof {
        assert(text@.subrange(at as int, at + pat.len()) =~= pat@);
    }
    true
}

/// Finds the first occurrence of `pat` in `text` at or after `from`.
pub fn find_from(text: &Vec<char>, pat: &Vec<char>, from: usize) -> (r: Option<usize>)
    ensures
        match r {
            Some(at) => first_occurrence(text@, pat@, from as int) == Some(at as int),
            None => first_occurrence(text@, pat@, from as int) is None,
        },
{
    let mut i: usize = from;
    while i < text.len()
        invariant
            from <= i,
            first_occurrence(text@, pat@, from as int) == first_occurrence(text@, pat@, i as int),
        decreases text.len() - i,
    {
        if matches_at(text, pat, i) {
            return Some(i);
        }
        i = i + 1;
    }
    let last = matches_at(text, pat, i);
    proof {
        if last {
            assert(first_occurrence(text@, pat@, i as int) == Some(i as int));
        } else {
            assert(first_occurrence(text@, pat@, i + 1) is None);
            assert(first_occurrence(text@, pat@, i as int) is None);
        }
    }
    if last {
        Some(i)
    } else {
        None
    }
}

/// Tells whether `pat` occurs anywhere in `text`.
pub fn contains(text: &str, pat: &str) -> (r: bool)
    ensures
        r == contains_seq(text@, pat@),
{
    let t = to_chars(text);
    let p = to_chars(pat);
    let found = find_from(&t, &p, 0);
    proof {
        lemma_first_occurrence(t@, p@, 0);
        if found is Some {
            assert(occurs_at(t@, p@, found.unwrap() as int));
        }
    }
    found.is_some()
}

/// Appends the characters `text[from..to]` to `out`.
pub fn append_range(out: &mut String, text: &str, from: usize, to: usize)
    requires
        from <= to <= text@.len(),
    ensures
        final(out)@ == old(out)@ + text@.subrange(from as int, to as int),
{
    let piece = text.substring_char(from, to);
    out.append(piece);
}

/// Joins `parts` with `sep` between each two neighbours.
pub fn join(parts: &Vec<String>, sep: &str) -> (r: String)
    ensures
        r@ == join_seq(parts.deep_view(), sep@),
{
    let mut out = String::new();
    let mut i: usize = 0;
    while i < parts.len()
        invariant
            i <= parts.len(),
            out@ == join_seq(parts.deep_view().take(i as int), sep@),
        decreases parts.len() - i,
    {
        proof {
            let next = parts.deep_view().take(i + 1);
            assert(next.drop_last() =~= parts.deep_view().take(i as int));
            assert(next.last() == parts[i as int]@);
            if i == 0 {
                assert(out@ + parts[i as int]@ =~= parts[i as int]@);
            }
        }
        if i > 0 {
            out.append(sep);
        }
        out.append(parts[i].as_str());
        i = i + 1;
    }
    proof {
        assert(parts.deep_view().take(parts.len() as int) =~= parts.deep_view());
    }
    out
}

/// Replaces every occurrence of the non-empty `pat` in `text` by `to`.
pub fn replace(text: &str, pat: &str, to: &str) -> (r: String)
    requires
        pat@.len() > 0,
    ensures
        r@ == replace_seq(text@, pat@, to@),
{
    let t = to_chars(text);
    let p = to_chars(pat);
    let mut out = String::new();
    let mut i: usize = 0;
    proof {
        assert(t@.skip(0) =~= t@);
        assert(out@ + replace_seq(t@, p@, to@) =~= replace_seq(t@, p@, to@));
    }
    while i < t.len()
        invariant
            i <= t.len(),
            t@ == text@,
            p@ == pat@,
            p@.len() > 0,
            out@ + replace_seq(t@.skip(i as int), p@, to@) == replace_seq(t@, p@, to@),
        decreases t.len() - i,
    {
        let ghost rest = t@.skip(i as int);
        if matches_at(&t, &p, i) {
            proof {
                assert(rest.subrange(0, p@.len() as int) =~= t@.subrange(
                    i as int,
                    i + p@.len(),
                ));
                assert(rest.skip(p@.len() as int) =~= t@.skip(i + p@.len()));
                assert(out@ + to@ + replace_seq(t@.skip(i + p@.len()), p@, to@) =~= out@ + (to@
                    + replace_seq(t@.skip(i + p@.len()), p@, to@)));
            }
            out.append(to);
            i = i + p.len();
        } else {
            proof {
                assert(rest.skip(1) =~= t@.skip(i + 1));
                if rest.len() >= p@.len() {
                    assert(rest.subrange(0, p@.len() as int) =~= t@.subrange(
                        i as int,
                        i + p@.len(),
                    ));
                    assert(!occurs_at(rest, p@, 0));
                } else {
                    lemma_replace_short(rest, p@, to@);
                }
                assert(text@.subrange(i as int, i + 1) =~= seq![rest[0]]);
                assert(out@ + seq![rest[0]] + replace_seq(t@.skip(i + 1), p@, to@) =~= out@ + (
                seq![rest[0]] + replace_seq(t@.skip(i + 1), p@, to@)));
            }
            append_range(&mut out, text, i, i + 1);
            i = i + 1;
        }
    }
    proof {
        assert(t@.skip(t@.len() as int) =~= Seq::<char>::empty());
        assert(out@ + Seq::<char>::empty() =~= out@);
    }
    out
}

/// A text shorter than the pattern is left as it is, one character at a time.
proof fn lemma_replace_short(text: Seq<char>, pat: Seq<char>, to: Seq<char>)
    requires
        0 < text.len() < pat.len(),
    ensures
        replace_seq(text, pat, to) == seq![text[0]] + replace_seq(text.skip(1), pat, to),
{
    assert(replace_seq(text, pat, to) == text);
    assert(replace_seq(text.skip(1), pat, to) == text.skip(1));
    assert(seq![text[0]] + text.skip(1) =~= text);
}

/// `c` is white space: one of the code points that carry the Unicode
/// property of that name.
pub open spec fn is_white_space(c: char) -> bool {
    let n = c as u32;
    ||| 0x09 <= n <= 0x0D
    ||| n == 0x20
    ||| n == 0x85
    ||| n == 0xA0
    ||| n == 0x1680
    ||| 0x2000 <= n <= 0x200A
    ||| n == 0x2028
    ||| n == 0x2029
    ||| n == 0x202F
    ||| n == 0x205F
    ||| n == 0x3000
}

/// The first position at or after `from` that holds no white space.
pub open spec fn skip_white_space(s: Seq<char>, from: int) -> int
    decreases s.len() - from,
{
    if from < 0 || from >= s.len() || !is_white_space(s[from]) {
        from
    } else {
        skip_white_space(s, from + 1)
    }
}

/// The end of the text that is left when trailing white space is cut off
/// `s[floor..to]`.
pub open spec fn cut_white_space(s: Seq<char>, to: int, floor: int) -> int
    decreases to,
{
    if to <= floor || to <= 0 || to > s.len() || !is_white_space(s[to - 1]) {
        to
    } else {
        cut_white_space(s, to - 1, floor)
    }
}

/// `s` without leading and trailing white space.
pub open spec fn trim_seq(s: Seq<char>) -> Seq<char> {
    let start = skip_white_space(s, 0);
    let end = cut_white_space(s, s.len() as int, start);
    s.subrange(start, end)
}

/// Tells whether `c` is white space.
pub fn white_space(c: char) -> (r: bool)
    ensures
        r == is_white_space(c),
{
    let n: u32 = c as u32;
    (0x09 <= n && n <= 0x0D) || n == 0x20 || n == 0x85 || n == 0xA0 || n == 0x1680 || (0x2000
        <= n && n <= 0x200A) || n == 0x2028 || n == 0x2029 || n == 0x202F || n == 0x205F || n
        == 0x3000
}

/// Cuts leading and trailing white space off `text`.
pub fn trim(text: &str) -> (r: String)
    ensures
        r@ == trim_seq(text@),
{
    let chars = to_chars(text);
    let mut start: usize = 0;
    while start < chars.len() && white_space(chars[start])
        invariant
            start <= chars.len(),
            skip_white_space(chars@, 0) == skip_white_space(chars@, start as int),
        decreases chars.len() - start,
    {
        start = start + 1;
    }
    let mut end: usize = chars.len();
    while end > start && white_space(chars[end - 1])
        invariant
            start <= end <= chars.len(),
            cut_white_space(chars@, chars@.len() as int, start as int) == cut_white_space(
                chars@,
                end as int,
                start as int,
            ),
        decreases end,
    {
        end = end - 1;
    }
    let mut out = String::new();
    append_range(&mut out, text, start, end);
    proof {
        assert(out@ =~= text@.subrange(start as int, end as int));
    }
    out
}

/// The end of the run of characters that are no white space and that
/// starts at `from`.
pub open spec fn word_end(s: Seq<char>, from: int) -> int
    decreases s.len() - from,
{
    if from < 0 || from >= s.len() || is_white_space(s[from]) {
        from
    } else {
        word_end(s, from + 1)
    }
}

/// A word starts at `at`: the position holds no white space, and follows
/// white space or the start of `s`.
pub open spec fn word_starts(s: Seq<char>, at: int) -> bool {
    0 <= at < s.len() && !is_white_space(s[at]) && (at == 0 || is_white_space(s[at - 1]))
}

/// The words of `s` that start at or after `from`, in order: each a
/// maximal run of characters that are no white space.
pub open spec fn words_from(s: Seq<char>, from: int) -> Seq<Seq<char>>
    decreases s.len() - from,
{
    if from < 0 || from >= s.len() {
        Seq::empty()
    } else if word_starts(s, from) {
        seq![s.subrange(from, word_end(s, from))] + words_from(s, from + 1)
    } else {
        words_from(s, from + 1)
    }
}

/// The words of `s`.
pub open spec fn words_seq(s: Seq<char>) -> Seq<Seq<char>> {
    words_from(s, 0)
}

/// Splits `text` at white space: its words, in order, none of them empty.
pub fn words(text: &str) -> (r: Vec<String>)
    ensures
        r.deep_view() == words_seq(text@),
{
    let chars = to_chars(text);
    let mut out: Vec<String> = Vec::new();
    let mut i: usize = 0;
    proof {
        assert(out.deep_view() + words_from(chars@, 0) =~= words_from(chars@, 0));
    }
    while i < chars.len()
        invariant
            i <= chars.len(),
            chars@ == text@,
            i == 0 || i == chars.len() || is_white_space(chars@[i as int]),
            out.deep_view() + words_from(chars@, i as int) == words_from(chars@, 0),
        decreases chars.len() - i,
    {
        let mut start: usize = i;
        while start < chars.len() && white_space(chars[start])
            invariant
                i <= start <= chars.len(),
                start == i || is_white_space(chars@[start - 1]),
                words_from(chars@, i as int) == words_from(chars@, start as int),
            decreases chars.len() - start,
        {
            start = start + 1;
        }
        if start >= chars.len() {
            i = chars.len();
        } else {
            let mut end: usize = start + 1;
            while end < chars.len() && !white_space(chars[end])
                invariant
                    start < end <= chars.len(),
                    !is_white_space(chars@[end - 1]),
                    word_end(chars@, start as int) == word_end(chars@, end as int),
                    words_from(chars@, start + 1) == words_from(chars@, end as int),
                decreases chars.len() - end,
            {
                end = end + 1;
            }
            let mut word = String::new();
            append_range(&mut word, text, start, end);
            let ghost before = out.deep_view();
            out.push(word);
            proof {
                let piece = chars@.subrange(start as int, end as int);
                assert(word@ =~= piece);
                assert(word_starts(chars@, start as int));
                assert(words_from(chars@, start as int) == seq![piece] + words_from(
                    chars@,
                    end as int,
                ));
                assert(out.deep_view() =~= before.push(piece));
                assert(before.push(piece) + words_from(chars@, end as int) =~= before + (
                seq![piece] + words_from(chars@, end as int)));
            }
            i = end;
        }
    }
    proof {
        assert(out.deep_view() + Seq::<Seq<char>>::empty() =~= out.deep_view());
    }
    out
}

/// The first position at or after `from` that does not hold `c`.
pub open spec fn skip_char(s: Seq<char>, c: char, from: int) -> int
    decreases s.len() - from,
{
    if from < 0 || from >= s.len() || s[from] != c {
        from
    } else {
        skip_char(s, c, from + 1)
    }
}

/// The end of the text that is left when trailing `c`s are cut off
/// `s[floor..to]`.
pub open spec fn cut_char(s: Seq<char>, c: char, to: int, floor: int) -> int
    decreases to,
{
    if to <= floor || to <= 0 || to > s.len() || s[to - 1] != c {
        to
    } else {
        cut_char(s, c, to - 1, floor)
    }
}

/// `s` without the `c`s at its start and at its end.
pub open spec fn strip_seq(s: Seq<char>, c: char) -> Seq<char> {
    let start = skip_char(s, c, 0);
    let end = cut_char(s, c, s.len() as int, start);
    s.subrange(start, end)
}

/// Cuts every `c` off the start and the end of `text`.
pub fn strip_char(text: &str, c: char) -> (r: String)
    ensures
        r@ == strip_seq(text@, c),
{
    let chars = to_chars(text);
    let mut start: usize = 0;
    while start < chars.len() && chars[start] == c
        invariant
            start <= chars.len(),
            skip_char(chars@, c, 0) == skip_char(chars@, c, start as int),
        decreases chars.len() - start,
    {
        start = start + 1;
    }
    let mut end: usize = chars.len();
    while end > start && chars[end - 1] == c
        invariant
            start <= end <= chars.len(),
            cut_char(chars@, c, chars@.len() as int, start as int) == cut_char(
                chars@,
                c,
                end as int,
                start as int,
            ),
        decreases end,
    {
        end = end - 1;
    }
    let mut out = String::new();
    append_range(&mut out, text, start, end);
    proof {
        assert(out@ =~= text@.subrange(start as int, end as int));
    }
    out
}

/// The decimal digit `d`.
pub open spec fn digit_seq(d: nat) -> Seq<char> {
    "0123456789"@.subrange(d as int, d as int + 1)
}

/// The decimal numeral of `n`, without leading zeros.
pub open spec fn decimal_seq(n: nat) -> Seq<char>
    decreases n,
{
    if n < 10 {
        digit_seq(n)
    } else {
        decimal_seq(n / 10) + digit_seq(n % 10)
    }
}

/// The decimal numeral of the integer `n`, with a minus sign where it is
/// negative.
pub open spec fn signed_decimal_seq(n: int) -> Seq<char> {
    if n < 0 {
        "-"@ + decimal_seq((-n) as nat)
    } else {
        decimal_seq(n as nat)
    }
}

/// The hexadecimal digit `d` in lower case.
pub open spec fn hex_digit_seq(d: nat) -> Seq<char> {
    "0123456789abcdef"@.subrange(d as int, d as int + 1)
}

/// The two hexadecimal digits of each byte, in order.
pub open spec fn hex_seq(bytes: Seq<u8>) -> Seq<char>
    decreases bytes.len(),
{
    if bytes.len() == 0 {
        Seq::empty()
    } else {
        hex_seq(bytes.drop_last()) + hex_digit_seq((bytes.last() / 16) as nat) + hex_digit_seq(
            (bytes.last() % 16) as nat,
        )
    }
}

/// Appends the decimal numeral of `n` to `out`.
pub fn append_decimal(out: &mut String, n: u64)
    ensures
        final(out)@ == old(out)@ + decimal_seq(n as nat),
    decreases n,
{
    proof {
        reveal_strlit("0123456789");
    }
    if n >= 10 {
        append_decimal(out, n / 10);
    }
    let d = (n % 10) as usize;
    append_range(out, "0123456789", d, d + 1);
    proof {
        if n >= 10 {
            assert(old(out)@ + decimal_seq((n / 10) as nat) + digit_seq((n % 10) as nat) =~= old(out)@ + (decimal_seq((n / 10) as nat) + digit_seq((n % 10) as nat)));
        }
    }
}

/// Writes the decimal numeral of `n`.
pub fn decimal(n: u64) -> (r: String)
    ensures
        r@ == decimal_seq(n as nat),
{
    let mut out = String::new();
    append_decimal(&mut out, n);
    proof {
        assert(Seq::<char>::empty() + decimal_seq(n as nat) =~= decimal_seq(n as nat));
    }
    out
}

/// Writes the decimal numeral of `n`, with a minus sign where it is
/// negative.
pub fn signed_decimal(n: i32) -> (r: String)
    ensures
        r@ == signed_decimal_seq(n as int),
{
    if n < 0 {
        let magnitude: u64 = (-(n as i64)) as u64;
        let mut out = String::from_str("-");
        append_decimal(&mut out, magnitude);
        out
    } else {
        decimal(n as u64)
    }
}

/// Writes the two lower-case hexadecimal digits of each byte.
pub fn hex(bytes: &Vec<u8>) -> (r: String)
    ensures
        r@ == hex_seq(bytes@),
{
    proof {
        reveal_strlit("0123456789abcdef");
    }
    let mut out = String::new();
    let mut i: usize = 0;
    while i < bytes.len()
        invariant
            i <= bytes.len(),
            "0123456789abcdef"@.len() == 16,
            out@ == hex_seq(bytes@.take(i as int)),
        decreases bytes.len() - i,
    {
        let b = bytes[i];
        let hi = (b / 16) as usize;
        let lo = (b % 16) as usize;
        proof {
            let next = bytes@.take(i + 1);
            assert(next.drop_last() =~= bytes@.take(i as int));
            assert(next.last() == b);
        }
        append_range(&mut out, "0123456789abcdef", hi, hi + 1);
        append_range(&mut out, "0123456789abcdef", lo, lo + 1);
        i = i + 1;
    }
    proof {
        assert(bytes@.take(bytes@.len() as int) =~= bytes@);
    }
    out
}

/// `c` is an ASCII lower-case letter.
pub open spec fn is_ascii_lower(c: char) -> bool {
    'a' <= c <= 'z'
}

/// `c` is an ASCII upper-case letter.
pub open spec fn is_ascii_upper(c: char) -> bool {
    'A' <= c <= 'Z'
}

/// `c` is an ASCII digit.
pub open spec fn is_ascii_digit(c: char) -> bool {
    '0' <= c <= '9'
}

/// The upper-case form of `c`, as a text of one character: an ASCII
/// lower-case letter becomes its capital, any other character stays.
pub open spec fn upper_seq(c: char) -> Seq<char> {
    if is_ascii_lower(c) {
        "ABCDEFGHIJKLMNOPQRSTUVWXYZ"@.subrange(c as u32 - 0x61, c as u32 - 0x61 + 1)
    } else {
        seq![c]
    }
}

/// The lower-case form of `c`, as a text of one character: an ASCII
/// upper-case letter becomes its small letter, any other character stays.
pub open spec fn lower_seq(c: char) -> Seq<char> {
    if is_ascii_upper(c) {
        "abcdefghijklmnopqrstuvwxyz"@.subrange(c as u32 - 0x41, c as u32 - 0x41 + 1)
    } else {
        seq![c]
    }
}

/// `text` with every ASCII upper-case letter made lower-case.
pub open spec fn lowercase_seq(text: Seq<char>) -> Seq<char>
    decreases text.len(),
{
    if text.len() == 0 {
        Seq::empty()
    } else {
        lowercase_seq(text.drop_last()) + lower_seq(text.last())
    }
}

/// `text` without the occurrences of `prefix` that it starts with.
pub open spec fn without_prefixes(text: Seq<char>, prefix: Seq<char>) -> Seq<char>
    decreases text.len(),
{
    if prefix.len() > 0 && occurs_at(text, prefix, 0) {
        without_prefixes(text.skip(prefix.len() as int), prefix)
    } else {
        text
    }
}

/// Appends the upper-case form of the character at `at` of `text`.
pub fn append_upper(out: &mut String, text: &str, chars: &Vec<char>, at: usize)
    requires
        chars@ == text@,
        at < chars@.len(),
    ensures
        final(out)@ == old(out)@ + upper_seq(chars@[at as int]),
{
    proof {
        reveal_strlit("ABCDEFGHIJKLMNOPQRSTUVWXYZ");
    }
    let c = chars[at];
    let n = chars.len();
    if 'a' <= c && c <= 'z' {
        let index = (c as u32 - 0x61) as usize;
        append_range(out, "ABCDEFGHIJKLMNOPQRSTUVWXYZ", index, index + 1);
    } else {
        append_range(out, text, at, at + 1);
        proof {
            assert(text@.subrange(at as int, at + 1) =~= seq![c]);
        }
    }
}

/// Appends the lower-case form of the character at `at` of `text`.
pub fn append_lower(out: &mut String, text: &str, chars: &Vec<char>, at: usize)
    requires
        chars@ == text@,
        at < chars@.len(),
    ensures
        final(out)@ == old(out)@ + lower_seq(chars@[at as int]),
{
    proof {
        reveal_strlit("abcdefghijklmnopqrstuvwxyz");
    }
    let c = chars[at];
    let n = chars.len();
    if 'A' <= c && c <= 'Z' {
        let index = (c as u32 - 0x41) as usize;
        append_range(out, "abcdefghijklmnopqrstuvwxyz", index, index + 1);
    } else {
        append_range(out, text, at, at + 1);
        proof {
            assert(text@.subrange(at as int, at + 1) =~= seq![c]);
        }
    }
}

/// Makes every ASCII upper-case letter of `text` lower-case.
pub fn ascii_lowercase(text: &str) -> (r: String)
    ensures
        r@ == lowercase_seq(text@),
{
    let chars = to_chars(text);
    let mut out = String::new();
    let mut i: usize = 0;
    while i < chars.len()
        invariant
            i <= chars.len(),
            chars@ == text@,
            out@ == lowercase_seq(chars@.take(i as int)),
        decreases chars.len() - i,
    {
        proof {
            let next = chars@.take(i + 1);
            assert(next.drop_last() =~= chars@.take(i as int));
            assert(next.last() == chars@[i as int]);
        }
        append_lower(&mut out, text, &chars, i);
        i = i + 1;
    }
    proof {
        assert(chars@.take(chars@.len() as int) =~= chars@);
    }
    out
}

/// Cuts every leading occurrence of the non-empty `prefix` off `text`.
pub fn strip_prefixes(text: &str, prefix: &str) -> (r: String)
    requires
        prefix@.len() > 0,
    ensures
        r@ == without_prefixes(text@, prefix@),
{
    let chars = to_chars(text);
    let pat = to_chars(prefix);
    let mut start: usize = 0;
    proof {
        assert(chars@.skip(0) =~= chars@);
    }
    while matches_at(&chars, &pat, start)
        invariant
            start <= chars.len(),
            pat@.len() > 0,
            without_prefixes(chars@, pat@) == without_prefixes(chars@.skip(start as int), pat@),
        decreases chars.len() - start,
    {
        proof {
            let rest = chars@.skip(start as int);
            assert(rest.subrange(0, pat@.len() as int) =~= chars@.subrange(
                start as int,
                start + pat@.len(),
            ));
            assert(rest.skip(pat@.len() as int) =~= chars@.skip(start + pat@.len()));
        }
        start = start + pat.len();
    }
    proof {
        let rest = chars@.skip(start as int);
        if rest.len() >= pat@.len() {
            assert(rest.subrange(0, pat@.len() as int) =~= chars@.subrange(
                start as int,
                start + pat@.len(),
            ));
        }
        assert(without_prefixes(rest, pat@) == rest);
        assert(rest =~= text@.subrange(start as int, text@.len() as int));
    }
    let mut out = String::new();
    append_range(&mut out, text, start, chars.len());
    proof {
        assert(out@ =~= text@.subrange(start as int, text@.len() as int));
    }
    out
}

} // verus!
