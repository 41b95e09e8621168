//! Text helpers: whitespace, trimming, words, joining and decimal numerals.
use vstd::prelude::*;

verus! {

/// The characters with the Unicode `White_Space` property.
pub open spec fn is_white_space(c: char) -> bool {
    ||| '\u{9}' <= c <= '\u{d}'
    ||| c == '\u{20}'
    ||| c == '\u{85}'
    ||| c == '\u{a0}'
    ||| c == '\u{1680}'
    ||| '\u{2000}' <= c <= '\u{200a}'
    ||| c == '\u{2028}'
    ||| c == '\u{2029}'
    ||| c == '\u{202f}'
    ||| c == '\u{205f}'
    ||| c == '\u{3000}'
}

/// Whether `c` is white space.
pub fn is_whitespace(c: char) -> (r: bool)
    ensures
        r == is_white_space(c),
{
    ('\u{9}' <= c && c <= '\u{d}') || c == '\u{20}' || c == '\u{85}' || c == '\u{a0}' || c
        == '\u{1680}' || ('\u{2000}' <= c && c <= '\u{200a}') || c == '\u{2028}' || c == '\u{2029}'
        || c == '\u{202f}' || c == '\u{205f}' || c == '\u{3000}'
}

/// Whether two texts hold the same characters.
pub fn same_text(a: &str, b: &str) -> (r: bool)
    ensures
        r == (a@ == b@),
{
    a.to_owned() == b.to_owned()
}

/// `s` without the white space at its start.
pub open spec fn trimmed_start(s: Seq<char>) -> Seq<char>
    decreases s.len(),
{
    if s.len() > 0 && is_white_space(s[0]) {
        trimmed_start(s.skip(1))
    } else {
        s
    }
}

/// `s` without the white space at its end.
pub open spec fn trimmed_end(s: Seq<char>) -> Seq<char>
    decreases s.len(),
{
    if s.len() > 0 && is_white_space(s.last()) {
        trimmed_end(s.drop_last())
    } else {
        s
    }
}

/// `s` without the white space around it.
pub open spec fn trimmed(s: Seq<char>) -> Seq<char> {
    trimmed_end(trimmed_start(s))
}

/// The characters of `s`.
fn chars_of(s: &str) -> (r: Vec<char>)
    ensures
        r@ == s@,
{
    let mut out: Vec<char> = Vec::new();
    for c in chars: s.chars()
        invariant
            chars.seq() == s@,
            out@ =~= s@.take(chars.index()),
    {
        out.push(c);
    }
    out
}

/// How many white-space characters `s` starts with.
fn leading_white_space(s: &Vec<char>) -> (from: usize)
    ensures
        from <= s@.len(),
        trimmed_start(s@) == s@.skip(from as int),
{
    let len: usize = s.len();
    let mut from: usize = 0;
    assert(s@.skip(0) =~= s@);
    while from < len && is_whitespace(s[from])
        invariant
            from <= len,
            len == s@.len(),
            trimmed_start(s@) == trimmed_start(s@.skip(from as int)),
        decreases len - from,
    {
        assert(s@.skip(from as int)[0] == s@[from as int]);
        assert(s@.skip(from as int).skip(1) =~= s@.skip(from + 1));
        from += 1;
    }
    assert(from < len ==> s@.skip(from as int)[0] == s@[from as int]);
    from
}

/// Removes the white space around `s`.
pub fn trim(s: &str) -> (r: &str)
    ensures
        r@ == trimmed(s@),
{
    let chars = chars_of(s);
    let len: usize = chars.len();
    let from: usize = leading_white_space(&chars);
    let mut to: usize = len;
    assert(s@.subrange(from as int, to as int) =~= s@.skip(from as int));
    while from < to && is_whitespace(chars[to - 1])
        invariant
            from <= to <= len,
            len == s@.len(),
            chars@ == s@,
            trimmed(s@) == trimmed_end(s@.subrange(from as int, to as int)),
        decreases to,
    {
        assert(s@.subrange(from as int, to as int).drop_last() =~= s@.subrange(
            from as int,
            to - 1,
        ));
        to -= 1;
    }
    s.substring_char(from, to)
}

/// The longest prefix of `s` that holds no white space.
pub open spec fn until_white_space(s: Seq<char>) -> Seq<char>
    decreases s.len(),
{
    if s.len() > 0 && !is_white_space(s[0]) {
        seq![s[0]] + until_white_space(s.skip(1))
    } else {
        Seq::empty()
    }
}

/// The first word of `s`: empty where `s` holds white space only.
pub open spec fn first_word_of(s: Seq<char>) -> Seq<char> {
    until_white_space(trimmed_start(s))
}

/// The first white-space-delimited word of `s`, or the empty text where there is none.
pub fn first_word(s: &str) -> (r: &str)
    ensures
        r@ == first_word_of(s@),
{
    let chars = chars_of(s);
    let len: usize = chars.len();
    let from: usize = leading_white_space(&chars);
    let mut to: usize = from;
    assert(s@.subrange(from as int, to as int) =~= Seq::<char>::empty());
    while to < len && !is_whitespace(chars[to])
        invariant
            from <= to <= len,
            len == s@.len(),
            chars@ == s@,
            first_word_of(s@) =~= s@.subrange(from as int, to as int) + until_white_space(
                s@.skip(to as int),
            ),
        decreases len - to,
    {
        assert(s@.skip(to as int)[0] == s@[to as int]);
        assert(s@.skip(to as int).skip(1) =~= s@.skip(to + 1));
        assert(s@.subrange(from as int, to + 1) =~= s@.subrange(from as int, to as int)
            + seq![s@[to as int]]);
        to += 1;
    }
    assert(to < len ==> s@.skip(to as int)[0] == s@[to as int]);
    s.substring_char(from, to)
}

/// `parts[i..]` joined by `sep`, with `sep` before each part but the first of all.
pub open spec fn joined_from(parts: Seq<Seq<char>>, sep: Seq<char>, i: int) -> Seq<char>
    decreases parts.len() - i,
{
    if i < 0 || i >= parts.len() {
        Seq::empty()
    } else if i == 0 {
        parts[0] + joined_from(parts, sep, 1)
    } else {
        sep + parts[i] + joined_from(parts, sep, i + 1)
    }
}

/// `parts` one after the other, with `sep` between neighbours.
pub open spec fn joined(parts: Seq<Seq<char>>, sep: Seq<char>) -> Seq<char> {
    joined_from(parts, sep, 0)
}

/// Joins `parts` by `sep`.
pub fn join(parts: &Vec<String>, sep: &str) -> (r: String)
    ensures
        r@ == joined(parts.deep_view(), sep@),
{
    let mut out = String::new();
    let mut i: usize = 0;
    let ghost texts = parts.deep_view();
    while i < parts.len()
        invariant
            i <= parts.len(),
            texts == parts.deep_view(),
            joined(texts, sep@) =~= out@ + joined_from(texts, sep@, i as int),
        decreases parts.len() - i,
    {
        if i > 0 {
            out.append(sep);
        }
        out.append(parts[i].as_str());
        assert(texts[i as int] == parts@[i as int]@);
        i += 1;
    }
    out
}

/// The numeral of the digit `d`.
pub open spec fn digit(d: nat) -> Seq<char> {
    "0123456789"@.subrange(d as int, d as int + 1)
}

/// The decimal numeral of `n`.
pub open spec fn decimal(n: nat) -> Seq<char>
    decreases n,
{
    if n < 10 {
        digit(n)
    } else {
        decimal(n / 10) + digit(n % 10)
    }
}

/// Writes `n` in decimal.
pub fn decimal_text(n: u64) -> (r: String)
    ensures
        r@ == decimal(n as nat),
    decreases n,
{
    proof {
        reveal_strlit("0123456789");
    }
    let mut out = if n < 10 {
        String::new()
    } else {
        decimal_text(n / 10)
    };
    let d: usize = (n % 10) as usize;
    out.append("0123456789".substring_char(d, d + 1));
    assert(out@ =~= decimal(n as nat));
    out
}

/// `s` without `suffix` at its end, where it has it.
pub open spec fn without_suffix(s: Seq<char>, suffix: Seq<char>) -> Seq<char> {
    if suffix.is_suffix_of(s) {
        s.take(s.len() - suffix.len())
    } else {
        s
    }
}

/// Drops `suffix` from the end of `s`, where it is there.
pub fn drop_suffix<'a>(s: &'a str, suffix: &str) -> (r: &'a str)
    ensures
        r@ == without_suffix(s@, suffix@),
{
    let len: usize = s.unicode_len();
    let suffix_len: usize = suffix.unicode_len();
    if len < suffix_len {
        return s;
    }
    let cut: usize = len - suffix_len;
    if same_text(s.substring_char(cut, len), suffix) {
        s.substring_char(0, cut)
    } else {
        s
    }
}

/// Whether `s` holds white space only.
pub open spec fn all_white_space(s: Seq<char>) -> bool {
    forall|i: int| 0 <= i < s.len() ==> is_white_space(#[trigger] s[i])
}

proof fn lemma_trimmed_start(s: Seq<char>) -> (n: int)
    ensures
        0 <= n <= s.len(),
        all_white_space(s.take(n)),
        trimmed_start(s) == s.skip(n),
        n < s.len() ==> !is_white_space(s[n]),
    decreases s.len(),
{
    if s.len() > 0 && is_white_space(s[0]) {
        let rest = s.skip(1);
        let n = lemma_trimmed_start(rest);
        assert(rest.skip(n) =~= s.skip(n + 1));
        assert forall|i: int| 0 <= i < n + 1 implies is_white_space(#[trigger] s.take(n + 1)[i]) by {
            if i > 0 {
                assert(s.take(n + 1)[i] == rest.take(n)[i - 1]);
            }
        }
        n + 1
    } else {
        assert(s.skip(0) =~= s);
        0
    }
}

proof fn lemma_trimmed_end(s: Seq<char>) -> (n: int)
    ensures
        0 <= n <= s.len(),
        all_white_space(s.skip(n)),
        trimmed_end(s) == s.take(n),
        n > 0 ==> !is_white_space(s[n - 1]),
    decreases s.len(),
{
    if s.len() > 0 && is_white_space(s.last()) {
        let rest = s.drop_last();
        let n = lemma_trimmed_end(rest);
        assert(rest.take(n) =~= s.take(n));
        assert forall|i: int| 0 <= i < s.len() - n implies is_white_space(#[trigger] s.skip(n)[i]) by {
            if i < rest.len() - n {
                assert(s.skip(n)[i] == rest.skip(n)[i]);
            }
        }
        n
    } else {
        assert(s.take(s.len() as int) =~= s);
        s.len() as int
    }
}

/// Trimming takes away white space only, from both ends, and leaves none there.
pub proof fn law_trimming_is_exact(s: Seq<char>)
    ensures
        exists|before: Seq<char>, after: Seq<char>|
            all_white_space(before) && all_white_space(after) && #[trigger] (before + trimmed(s)
                + after) == s,
        trimmed(s).len() > 0 ==> !is_white_space(trimmed(s).first()) && !is_white_space(
            trimmed(s).last(),
        ),
        trimmed(trimmed(s)) == trimmed(s),
{
    let from = lemma_trimmed_start(s);
    let head = s.skip(from);
    let to = lemma_trimmed_end(head);
    let before = s.take(from);
    let after = head.skip(to);
    assert(before + trimmed(s) + after =~= s);
    if to > 0 {
        assert(trimmed(s).first() == s[from]);
        assert(trimmed(s).last() == head[to - 1]);
    }
}

/// White space is the characters from U+0009 to U+000D and from U+2000 to U+200A, and nine more.
pub proof fn law_white_space_characters(c: char)
    ensures
        is_white_space(c) <==> {
            let code = c as int;
            ||| 9 <= code <= 13
            ||| 8192 <= code <= 8202
            ||| code == 32 || code == 133 || code == 160 || code == 5760 || code == 8232
            ||| code == 8233 || code == 8239 || code == 8287 || code == 12288
        },
{
}

/// No two ways of taking white space from both ends of a text leave different texts: what is left of
/// `before + inner + after` is `inner`, however long it is and whatever it holds inside.
pub proof fn law_trimming_finds_the_text(before: Seq<char>, inner: Seq<char>, after: Seq<char>)
    requires
        all_white_space(before),
        all_white_space(after),
        inner.len() > 0 ==> !is_white_space(inner.first()) && !is_white_space(inner.last()),
    ensures
        trimmed(before + inner + after) == inner,
{
    let s = before + inner + after;
    let from = lemma_trimmed_start(s);
    let head = s.skip(from);
    let to = lemma_trimmed_end(head);
    assert(trimmed(s) =~= s.subrange(from, from + to));
    if inner.len() == 0 {
        if to > 0 {
            assert(s[from] == head[0]);
            assert(from < before.len() ==> s[from] == before[from]);
            assert(from >= before.len() ==> s[from] == after[from - before.len()]);
        }
    } else {
        let first = before.len() as int;
        let last = first + inner.len() - 1;
        assert(s[first] == inner.first());
        assert(s[last] == inner.last());
        if from < first {
            assert(s[from] == before[from]);
        }
        if from > first {
            assert(s.take(from)[first] == s[first]);
        }
        if to < inner.len() {
            assert(head.skip(to)[inner.len() - 1 - to] == s[last]);
        }
        if to > inner.len() {
            assert(head[to - 1] == after[to - 1 - inner.len()]);
        }
        assert(s.subrange(first, last + 1) =~= inner);
    }
}

/// The first word of a text is what stands between the white space at its start and the next white
/// space, or its end.
pub proof fn law_first_word_is_found(before: Seq<char>, word: Seq<char>, rest: Seq<char>)
    requires
        all_white_space(before),
        forall|i: int| 0 <= i < word.len() ==> !is_white_space(#[trigger] word[i]),
        word.len() == 0 ==> rest.len() == 0,
        rest.len() > 0 ==> is_white_space(rest[0]),
    ensures
        first_word_of(before + word + rest) == word,
{
    let s = before + word + rest;
    let from = lemma_trimmed_start(s);
    let first = before.len() as int;
    if from < first {
        assert(s[from] == before[from]);
    }
    if word.len() > 0 {
        assert(s[first] == word[0]);
        if from > first {
            assert(s.take(from)[first] == s[first]);
        }
    }
    assert(s.skip(first) =~= word + rest);
    lemma_until_white_space(word, rest);
}

proof fn lemma_until_white_space(word: Seq<char>, rest: Seq<char>)
    requires
        forall|i: int| 0 <= i < word.len() ==> !is_white_space(#[trigger] word[i]),
        rest.len() > 0 ==> is_white_space(rest[0]),
    ensures
        until_white_space(word + rest) == word,
    decreases word.len(),
{
    let s = word + rest;
    if word.len() > 0 {
        let tail = word.skip(1);
        assert(s[0] == word[0]);
        assert forall|i: int| 0 <= i < tail.len() implies !is_white_space(#[trigger] tail[i]) by {
            assert(tail[i] == word[i + 1]);
        }
        lemma_until_white_space(tail, rest);
        assert(s.skip(1) =~= tail + rest);
        assert(seq![word[0]] + tail =~= word);
    } else {
        assert(s =~= rest);
    }
}

/// Nothing joined is nothing, one part joined is that part, and each further part stands whole behind
/// the others with one separator before it.
pub proof fn law_joining_adds_part_by_part(parts: Seq<Seq<char>>, part: Seq<char>, sep: Seq<char>)
    ensures
        joined(Seq::empty(), sep) == Seq::<char>::empty(),
        joined(seq![part], sep) == part,
        parts.len() > 0 ==> joined(parts.push(part), sep) == joined(parts, sep) + sep + part,
{
    reveal_with_fuel(joined_from, 3);
    if parts.len() > 0 {
        lemma_joined_push(parts, part, sep, 0);
    }
}

proof fn lemma_joined_push(parts: Seq<Seq<char>>, part: Seq<char>, sep: Seq<char>, i: int)
    requires
        0 <= i <= parts.len(),
        parts.len() > 0,
    ensures
        joined_from(parts.push(part), sep, i) == joined_from(parts, sep, i) + sep + part,
    decreases parts.len() - i,
{
    reveal_with_fuel(joined_from, 2);
    let more = parts.push(part);
    if i < parts.len() {
        lemma_joined_push(parts, part, sep, i + 1);
        assert(more[i] == parts[i]);
        assert(joined_from(more, sep, i) =~= joined_from(parts, sep, i) + sep + part);
    } else {
        assert(more[i] == part);
        assert(joined_from(more, sep, i) =~= joined_from(parts, sep, i) + sep + part);
    }
}

/// The number that the digits of `s` write in decimal.
pub open spec fn number_in(s: Seq<char>) -> int
    decreases s.len(),
{
    if s.len() == 0 {
        0
    } else {
        10 * number_in(s.drop_last()) + (s.last() as int - '0' as int)
    }
}

/// A decimal numeral writes its number in digits alone, with no needless zero before them.
pub proof fn law_decimal_writes_the_number(n: nat)
    ensures
        number_in(decimal(n)) == n,
        forall|i: int| 0 <= i < decimal(n).len() ==> '0' <= #[trigger] decimal(n)[i] <= '9',
        decimal(n).len() > 0,
        decimal(n)[0] == '0' ==> n == 0 && decimal(n).len() == 1,
    decreases n,
{
    reveal_strlit("0123456789");
    reveal_with_fuel(number_in, 2);
    let last = digit(n % 10);
    assert(last.len() == 1 && last[0] as int == '0' as int + n % 10);
    if n < 10 {
        assert(decimal(n).drop_last() =~= Seq::empty());
    } else {
        law_decimal_writes_the_number(n / 10);
        assert(decimal(n).drop_last() =~= decimal(n / 10));
        assert(decimal(n)[0] == decimal(n / 10)[0]);
    }
}

/// A suffix is dropped once and nothing else is: a text that ends in it is left with what stands
/// before it, any other text is left whole.
pub proof fn law_suffix_is_dropped_once(stem: Seq<char>, suffix: Seq<char>, other: Seq<char>)
    requires
        forall|before: Seq<char>| #[trigger] (before + suffix) != other,
    ensures
        without_suffix(stem + suffix, suffix) == stem,
        without_suffix(other, suffix) == other,
{
    let s = stem + suffix;
    assert(s.skip(stem.len() as int) =~= suffix);
    assert(suffix.is_suffix_of(s));
    assert(s.take(stem.len() as int) =~= stem);
    if suffix.is_suffix_of(other) {
        let before = other.take(other.len() - suffix.len());
        assert(before + suffix =~= other);
    }
}

} // verus!
