//! Character-level text primitives.
//!
//! Every function here is stated over the sequence of characters of a string.

use vstd::prelude::*;
use vstd::string::*;

verus! {

/// `String::push`: appends one character to the end of the string.
pub assume_specification[ String::push ](s: &mut String, c: char)
    ensures
        final(s)@ == old(s)@.push(c),
;

/// The characters of a string, in order.
pub fn chars_of(s: &str) -> (r: Vec<char>)
    ensures
        r@ == s@,
{
    let mut out: Vec<char> = Vec::new();
    for c in it: s.chars()
        invariant
            it.seq() == s@,
            out@ == s@.take(it.index()),
    {
        out.push(c);
    }
    out
}

/// The string made of the characters of `chars` from `from` up to `to`.
pub fn string_of(chars: &Vec<char>, from: usize, to: usize) -> (r: String)
    requires
        from <= to <= chars@.len(),
    ensures
        r@ == chars@.subrange(from as int, to as int),
{
    let mut out = String::new();
    let mut i: usize = from;
    while i < to
        invariant
            from <= i <= to <= chars@.len(),
            out@ == chars@.subrange(from as int, i as int),
        decreases to - i,
    {
        out.push(chars[i]);
        i += 1;
    }
    out
}

/// Whether a character has the Unicode `White_Space` property.
pub open spec fn is_white(c: char) -> bool {
    ||| '\u{9}' <= c <= '\u{d}'
    ||| c == ' '
    ||| c == '\u{85}'
    ||| c == '\u{a0}'
    ||| c == '\u{1680}'
    ||| '\u{2000}' <= c <= '\u{200a}'
    ||| c == '\u{2028}'
    ||| c == '\u{2029}'
    ||| c == '\u{202f}'
    ||| c == '\u{205f}'
    ||| c == '\u{3000}'
}

/// Tells whether a character is white space.
pub fn is_whitespace(c: char) -> (r: bool)
    ensures
        r == is_white(c),
{
    ('\u{9}' <= c && c <= '\u{d}') || c == ' ' || c == '\u{85}' || c == '\u{a0}' || c == '\u{1680}'
        || ('\u{2000}' <= c && c <= '\u{200a}') || c == '\u{2028}' || c == '\u{2029}' || c
        == '\u{202f}' || c == '\u{205f}' || c == '\u{3000}'
}

/// `s` without its leading white space.
pub open spec fn trimmed_start(s: Seq<char>) -> Seq<char>
    decreases s.len(),
{
    if s.len() > 0 && is_white(s.first()) {
        trimmed_start(s.drop_first())
    } else {
        s
    }
}

/// `s` without its trailing white space.
pub open spec fn trimmed_end(s: Seq<char>) -> Seq<char>
    decreases s.len(),
{
    if s.len() > 0 && is_white(s.last()) {
        trimmed_end(s.drop_last())
    } else {
        s
    }
}

/// `s` without the white space at either end.
pub open spec fn trimmed(s: Seq<char>) -> Seq<char> {
    trimmed_end(trimmed_start(s))
}

/// `s` without the run of `c` at its end.
pub open spec fn trimmed_end_of(s: Seq<char>, c: char) -> Seq<char>
    decreases s.len(),
{
    if s.len() > 0 && s.last() == c {
        trimmed_end_of(s.drop_last(), c)
    } else {
        s
    }
}

/// The length of `chars` once trailing white space is left off.
fn end_of_text(chars: &Vec<char>, from: usize) -> (hi: usize)
    requires
        from <= chars@.len(),
    ensures
        from <= hi <= chars@.len(),
        chars@.subrange(from as int, hi as int) == trimmed_end(
            chars@.subrange(from as int, chars@.len() as int),
        ),
{
    let mut hi: usize = chars.len();
    while hi > from && is_whitespace(chars[hi - 1])
        invariant
            from <= hi <= chars@.len(),
            trimmed_end(chars@.subrange(from as int, hi as int)) == trimmed_end(
                chars@.subrange(from as int, chars@.len() as int),
            ),
        decreases hi,
    {
        assert(chars@.subrange(from as int, hi as int).drop_last() == chars@.subrange(
            from as int,
            hi - 1,
        ));
        hi -= 1;
    }
    hi
}

/// Removes white space from both ends.
pub fn trim(s: &str) -> (r: String)
    ensures
        r@ == trimmed(s@),
{
    let chars = chars_of(s);
    let mut lo: usize = 0;
    assert(chars@.subrange(0, chars@.len() as int) == s@);
    while lo < chars.len() && is_whitespace(chars[lo])
        invariant
            lo <= chars@.len(),
            trimmed_start(chars@.subrange(lo as int, chars@.len() as int)) == trimmed_start(s@),
        decreases chars@.len() - lo,
    {
        assert(chars@.subrange(lo as int, chars@.len() as int).drop_first() == chars@.subrange(
            lo + 1,
            chars@.len() as int,
        ));
        lo += 1;
    }
    let hi: usize = end_of_text(&chars, lo);
    string_of(&chars, lo, hi)
}

/// Removes white space from the end.
pub fn trim_end(s: &str) -> (r: String)
    ensures
        r@ == trimmed_end(s@),
{
    let chars = chars_of(s);
    assert(chars@.subrange(0, chars@.len() as int) == s@);
    let hi: usize = end_of_text(&chars, 0);
    string_of(&chars, 0, hi)
}

/// Removes every `c` from the end.
pub fn trim_end_matches(s: &str, c: char) -> (r: String)
    ensures
        r@ == trimmed_end_of(s@, c),
{
    let chars = chars_of(s);
    let mut hi: usize = chars.len();
    assert(chars@.subrange(0, chars@.len() as int) == s@);
    while hi > 0 && chars[hi - 1] == c
        invariant
            hi <= chars@.len(),
            trimmed_end_of(chars@.subrange(0, hi as int), c) == trimmed_end_of(s@, c),
        decreases hi,
    {
        assert(chars@.subrange(0, hi as int).drop_last() == chars@.subrange(0, hi - 1));
        hi -= 1;
    }
    string_of(&chars, 0, hi)
}

/// Whether `p` stands in `s` at position `i`.
pub open spec fn stands_at(s: Seq<char>, p: Seq<char>, i: int) -> bool {
    0 <= i && i + p.len() <= s.len() && s.subrange(i, i + p.len()) == p
}

/// Whether `p` is a contiguous part of `s`.
pub open spec fn has_part(s: Seq<char>, p: Seq<char>) -> bool {
    exists|i: int| stands_at(s, p, i)
}

/// Tells whether `pattern` stands in `chars` at position `at`.
fn matches_at(chars: &Vec<char>, pattern: &Vec<char>, at: usize) -> (r: bool)
    requires
        at + pattern@.len() <= chars@.len(),
    ensures
        r == stands_at(chars@, pattern@, at as int),
{
    let mut j: usize = 0;
    while j < pattern.len()
        invariant
            at + pattern@.len() <= chars.len(),
            j <= pattern@.len(),
            forall|k: int| 0 <= k < j ==> chars@[at + k] == pattern@[k],
        decreases pattern@.len() - j,
    {
        if chars[at + j] != pattern[j] {
            assert(chars@.subrange(at as int, at + pattern@.len())[j as int] != pattern@[j as int]);
            return false;
        }
        j += 1;
    }
    assert(chars@.subrange(at as int, at + pattern@.len()) == pattern@);
    true
}

/// Tells whether `pattern` is a contiguous part of `chars`.
pub fn contains(chars: &Vec<char>, pattern: &str) -> (r: bool)
    ensures
        r == has_part(chars@, pattern@),
{
    let pat = chars_of(pattern);
    if pat.len() > chars.len() {
        return false;
    }
    let last: usize = chars.len() - pat.len();
    let mut i: usize = 0;
    while i <= last
        invariant
            pat@ == pattern@,
            last == chars@.len() - pat@.len(),
            i <= last + 1,
            forall|k: int| 0 <= k < i ==> !stands_at(chars@, pat@, k),
        decreases last + 1 - i,
    {
        if matches_at(chars, &pat, i) {
            return true;
        }
        if i == last {
            assert forall|k: int| !stands_at(chars@, pat@, k) by {}
            return false;
        }
        i += 1;
    }
    false
}

/// Whether `s` ends in `p`.
pub open spec fn has_suffix(s: Seq<char>, p: Seq<char>) -> bool {
    p.len() <= s.len() && s.subrange(s.len() - p.len(), s.len() as int) == p
}

/// Tells whether `s` ends in `suffix`.
pub fn ends_with(s: &str, suffix: &str) -> (r: bool)
    ensures
        r == has_suffix(s@, suffix@),
{
    let chars = chars_of(s);
    let suf = chars_of(suffix);
    if suf.len() > chars.len() {
        return false;
    }
    matches_at(&chars, &suf, chars.len() - suf.len())
}

/// The lower-case form of an ASCII letter; any other character is left as it is.
pub open spec fn ascii_lower(c: char) -> char {
    if 'A' <= c <= 'Z' {
        (c as u32 + 32) as char
    } else {
        c
    }
}

/// `s` with its ASCII letters in lower case.
pub open spec fn ascii_lowered(s: Seq<char>) -> Seq<char> {
    s.map_values(|c: char| ascii_lower(c))
}

/// The characters of `s` with the ASCII letters in lower case.
pub fn to_ascii_lowercase(s: &str) -> (r: Vec<char>)
    ensures
        r@ == ascii_lowered(s@),
{
    let chars = chars_of(s);
    let mut out: Vec<char> = Vec::new();
    let mut i: usize = 0;
    while i < chars.len()
        invariant
            chars@ == s@,
            i <= chars@.len(),
            out@ == ascii_lowered(s@.take(i as int)),
        decreases chars@.len() - i,
    {
        let c: char = chars[i];
        let lower: char = if 'A' <= c && c <= 'Z' {
            (c as u8 + 32) as char
        } else {
            c
        };
        assert(s@.take(i + 1) == s@.take(i as int).push(c));
        out.push(lower);
        assert(out@ == ascii_lowered(s@.take(i + 1)));
        i += 1;
    }
    assert(s@.take(i as int) == s@);
    out
}

/// Tells whether two strings hold the same characters.
pub fn same_text(a: &str, b: &str) -> (r: bool)
    ensures
        r == (a@ == b@),
{
    a.to_owned() == b.to_owned()
}

/// How many characters of `s` come before its first `c`; all of them where there is none.
pub open spec fn run_before(s: Seq<char>, c: char) -> nat
    decreases s.len(),
{
    if s.len() == 0 || s.first() == c {
        0
    } else {
        1 + run_before(s.drop_first(), c)
    }
}

/// The first position from `from` on that holds `c`, or the length where there is none.
fn find_char(chars: &Vec<char>, from: usize, c: char) -> (at: usize)
    requires
        from <= chars@.len(),
    ensures
        from <= at <= chars@.len(),
        at - from == run_before(chars@.skip(from as int), c),
        at < chars@.len() ==> chars@[at as int] == c,
{
    let mut i: usize = from;
    while i < chars.len() && chars[i] != c
        invariant
            from <= i <= chars@.len(),
            run_before(chars@.skip(from as int), c) == (i - from) + run_before(
                chars@.skip(i as int),
                c,
            ),
        decreases chars@.len() - i,
    {
        assert(chars@.skip(i as int).drop_first() == chars@.skip(i + 1));
        i += 1;
    }
    i
}

/// A bound and a defining property of `run_before`.
pub proof fn lemma_run_before(s: Seq<char>, c: char)
    ensures
        run_before(s, c) <= s.len(),
        run_before(s, c) < s.len() ==> s[run_before(s, c) as int] == c,
        forall|i: int| 0 <= i < run_before(s, c) ==> s[i] != c,
    decreases s.len(),
{
    if s.len() > 0 && s.first() != c {
        lemma_run_before(s.drop_first(), c);
        assert forall|i: int| 0 <= i < run_before(s, c) implies s[i] != c by {
            if i > 0 {
                assert(s.drop_first()[i - 1] == s[i]);
            }
        }
    }
}

/// A line without the carriage return that stood before its line feed.
pub open spec fn without_cr(line: Seq<char>) -> Seq<char> {
    if line.len() > 0 && line.last() == '\r' {
        line.drop_last()
    } else {
        line
    }
}

/// The lines of `s`. A line ends at a line feed, with or without a carriage return before it; the
/// last line need not be ended, and an empty rest is no line.
pub open spec fn lines_of(s: Seq<char>) -> Seq<Seq<char>>
    decreases s.len(),
    via lines_of_decreases
{
    if s.len() == 0 {
        seq![]
    } else if run_before(s, '\n') == s.len() {
        seq![s]
    } else {
        let n: int = run_before(s, '\n') as int;
        seq![without_cr(s.take(n))] + lines_of(s.skip(n + 1))
    }
}

#[via_fn]
proof fn lines_of_decreases(s: Seq<char>) {
    lemma_run_before(s, '\n');
}

/// The characters of each string of a list.
pub open spec fn texts(v: Seq<String>) -> Seq<Seq<char>> {
    v.map_values(|x: String| x@)
}

/// The lines of `s`, each without its line ending.
pub fn lines(s: &str) -> (r: Vec<String>)
    ensures
        texts(r@) == lines_of(s@),
{
    let chars = chars_of(s);
    let mut out: Vec<String> = Vec::new();
    let mut start: usize = 0;
    assert(s@.skip(0) == s@);
    assert(texts(out@) + lines_of(s@) == lines_of(s@));
    while start < chars.len()
        invariant
            chars@ == s@,
            start <= chars@.len(),
            texts(out@) + lines_of(s@.skip(start as int)) == lines_of(s@),
        decreases chars@.len() - start,
    {
        let ghost rest = s@.skip(start as int);
        let ghost before = out@;
        let at: usize = find_char(&chars, start, '\n');
        proof {
            lemma_run_before(rest, '\n');
        }
        if at == chars.len() {
            let line = string_of(&chars, start, at);
            assert(line@ == rest);
            out.push(line);
            start = at;
            assert(texts(out@) == texts(before).push(rest));
            assert(lines_of(s@.skip(start as int)) == Seq::<Seq<char>>::empty());
            assert(texts(out@) == texts(before) + seq![rest]);
        } else {
            let mut end: usize = at;
            if end > start && chars[end - 1] == '\r' {
                end -= 1;
            }
            let line = string_of(&chars, start, end);
            assert(rest.take(at - start) == s@.subrange(start as int, at as int));
            assert(line@ == without_cr(rest.take(at - start)));
            out.push(line);
            assert(rest.skip(at - start + 1) == s@.skip(at + 1));
            start = at + 1;
            assert(texts(out@) == texts(before) + seq![line@]);
            assert(texts(out@) + lines_of(s@.skip(start as int)) == texts(before) + (seq![line@]
                + lines_of(s@.skip(start as int))));
        }
    }
    assert(lines_of(s@.skip(start as int)) == Seq::<Seq<char>>::empty());
    assert(texts(out@) + Seq::<Seq<char>>::empty() == texts(out@));
    out
}

/// What comes before the first `c`; all of `s` where there is none.
pub open spec fn before_first(s: Seq<char>, c: char) -> Seq<char> {
    s.take(run_before(s, c) as int)
}

/// What comes after the first `c`.
pub open spec fn after_first(s: Seq<char>, c: char) -> Seq<char> {
    s.skip(run_before(s, c) as int + 1)
}

/// Splits at the first `c`: what comes before it and what comes after it.
pub fn split_once(s: &str, c: char) -> (r: Option<(String, String)>)
    ensures
        match r {
            Some((a, b)) => {
                &&& run_before(s@, c) < s@.len()
                &&& a@ == before_first(s@, c)
                &&& b@ == after_first(s@, c)
            },
            None => run_before(s@, c) == s@.len(),
        },
{
    let chars = chars_of(s);
    let at: usize = find_char(&chars, 0, c);
    assert(chars@.skip(0) == s@);
    if at == chars.len() {
        None
    } else {
        let a = string_of(&chars, 0, at);
        let b = string_of(&chars, at + 1, chars.len());
        assert(s@.skip(at + 1) == s@.subrange(at + 1, s@.len() as int));
        assert(s@.take(at as int) == s@.subrange(0, at as int));
        Some((a, b))
    }
}

/// The first `n` characters of `s`, or all of it where it is shorter.
pub open spec fn first_chars(s: Seq<char>, n: int) -> Seq<char> {
    if s.len() <= n {
        s
    } else {
        s.take(n)
    }
}

/// Keeps at most `n` characters from the start.
pub fn take_chars(s: &str, n: usize) -> (r: String)
    ensures
        r@ == first_chars(s@, n as int),
{
    let chars = chars_of(s);
    if chars.len() <= n {
        assert(chars@.subrange(0, chars@.len() as int) == s@);
        string_of(&chars, 0, chars.len())
    } else {
        assert(chars@.subrange(0, n as int) == s@.take(n as int));
        string_of(&chars, 0, n)
    }
}

/// The parts one after another with `sep` between each two.
pub open spec fn joined(parts: Seq<Seq<char>>, sep: Seq<char>) -> Seq<char>
    decreases parts.len(),
{
    if parts.len() == 0 {
        seq![]
    } else if parts.len() == 1 {
        parts[0]
    } else {
        joined(parts.drop_last(), sep) + sep + parts.last()
    }
}

/// Puts the parts one after another with `sep` between each two.
pub fn join(parts: &Vec<String>, sep: &str) -> (r: String)
    ensures
        r@ == joined(texts(parts@), sep@),
{
    let mut out = String::new();
    let mut i: usize = 0;
    while i < parts.len()
        invariant
            i <= parts@.len(),
            out@ == joined(texts(parts@).take(i as int), sep@),
        decreases parts@.len() - i,
    {
        let ghost all = texts(parts@);
        assert(all.take(i + 1).drop_last() == all.take(i as int));
        assert(all.take(i + 1).last() == parts@[i as int]@);
        if i > 0 {
            out.append(sep);
            out.append(parts[i].as_str());
        } else {
            out.append(parts[i].as_str());
            assert(out@ == parts@[0]@);
        }
        i += 1;
    }
    assert(texts(parts@).take(i as int) == texts(parts@));
    out
}

/// What `str::to_lowercase` gives for a text.
pub uninterp spec fn unicode_lowered(s: Seq<char>) -> Seq<char>;

/// `str::to_lowercase`: the lower-case form of a text by the rules of Unicode, named by
/// `unicode_lowered`. Of ASCII text it is stated to change the letters `A` to `Z` only.
#[verifier::external_body]
pub(crate) fn to_lowercase(s: &str) -> (r: String)
    ensures
        r@ == unicode_lowered(s@),
        vstd::utf8::is_ascii_chars(s@) ==> r@ == ascii_lowered(s@),
{
    s.to_lowercase()
}

/// What `String::from_utf8_lossy` gives for a sequence of bytes.
pub uninterp spec fn utf8_text(bytes: Seq<u8>) -> Seq<char>;

/// `String::from_utf8_lossy`: the text of UTF-8 bytes with each invalid part replaced, named by
/// `utf8_text`. Valid UTF-8 is stated to be decoded as it is.
#[verifier::external_body]
pub(crate) fn from_utf8_lossy(bytes: &Vec<u8>) -> (r: String)
    ensures
        r@ == utf8_text(bytes@),
        vstd::utf8::valid_utf8(bytes@) ==> r@ == vstd::utf8::decode_utf8(bytes@),
{
    String::from_utf8_lossy(bytes).into_owned()
}

/// What formatting a text with `{:?}` gives.
pub uninterp spec fn debug_quoted(s: Seq<char>) -> Seq<char>;

/// Whether a character needs no escape between double quotes: a letter, a digit, a space, or one of
/// a few marks.
pub open spec fn is_plain(c: char) -> bool {
    ||| 'a' <= c <= 'z'
    ||| 'A' <= c <= 'Z'
    ||| '0' <= c <= '9'
    ||| c == ' ' || c == '-' || c == '_' || c == '.' || c == ',' || c == ':'
}

/// The `Debug` form of `str`: the text between double quotes, with what needs it escaped, named by
/// `debug_quoted`. Plain characters are stated to stand as they are.
#[verifier::external_body]
pub(crate) fn debug_text(s: &str) -> (r: String)
    ensures
        r@ == debug_quoted(s@),
        (forall|i: int| 0 <= i < s@.len() ==> is_plain(#[trigger] s@[i])) ==> r@ == "\""@ + s@
            + "\""@,
{
    format!("{:?}", s)
}

/// Trimming takes white space off both ends and nothing else, and leaves none there.
pub proof fn law_trimming_takes_white_space_only(s: Seq<char>)
    ensures
        trimmed(s).len() > 0 ==> !is_white(trimmed(s).first()) && !is_white(trimmed(s).last()),
        exists|i: int|
            #![trigger s.skip(i)]
            {
                &&& 0 <= i <= i + trimmed(s).len() <= s.len()
                &&& trimmed(s) == s.subrange(i, i + trimmed(s).len())
                &&& forall|k: int|
                    0 <= k < s.len() && !(i <= k < i + trimmed(s).len()) ==> is_white(
                        #[trigger] s[k],
                    )
            },
{
    lemma_trimmed_start(s);
    let i = s.len() - trimmed_start(s).len();
    let t = s.skip(i);
    assert(t == trimmed_start(s));
    lemma_trimmed_end(t);
    assert(trimmed(s) =~= s.subrange(i, i + trimmed(s).len()));
    assert forall|k: int| 0 <= k < s.len() && !(i <= k < i + trimmed(s).len()) implies is_white(
        #[trigger] s[k],
    ) by {
        if k >= i {
            assert(s[k] == t[k - i]);
        }
    }
    if trimmed(s).len() > 0 {
        assert(trimmed(s).first() == t.first());
    }
}

/// What trimming the start leaves.
pub proof fn lemma_trimmed_start(s: Seq<char>)
    ensures
        trimmed_start(s).len() <= s.len(),
        trimmed_start(s) == s.skip(s.len() - trimmed_start(s).len()),
        forall|k: int| 0 <= k < s.len() - trimmed_start(s).len() ==> is_white(#[trigger] s[k]),
        trimmed_start(s).len() > 0 ==> !is_white(trimmed_start(s).first()),
    decreases s.len(),
{
    if s.len() > 0 && is_white(s.first()) {
        let rest = s.drop_first();
        lemma_trimmed_start(rest);
        assert(trimmed_start(s) =~= s.skip(s.len() - trimmed_start(s).len()));
        assert forall|k: int| 0 <= k < s.len() - trimmed_start(s).len() implies is_white(
            #[trigger] s[k],
        ) by {
            if k > 0 {
                assert(rest[k - 1] == s[k]);
            }
        }
    } else {
        assert(s.skip(0) =~= s);
    }
}

/// What trimming the end leaves.
pub proof fn lemma_trimmed_end(s: Seq<char>)
    ensures
        trimmed_end(s).len() <= s.len(),
        trimmed_end(s) == s.take(trimmed_end(s).len() as int),
        forall|k: int| trimmed_end(s).len() <= k < s.len() ==> is_white(#[trigger] s[k]),
        trimmed_end(s).len() > 0 ==> !is_white(trimmed_end(s).last()),
    decreases s.len(),
{
    if s.len() > 0 && is_white(s.last()) {
        let rest = s.drop_last();
        lemma_trimmed_end(rest);
        assert(trimmed_end(s) =~= s.take(trimmed_end(s).len() as int));
        assert forall|k: int| trimmed_end(s).len() <= k < s.len() implies is_white(
            #[trigger] s[k],
        ) by {
            if k < s.len() - 1 {
                assert(rest[k] == s[k]);
            }
        }
    } else {
        assert(s.take(s.len() as int) =~= s);
    }
}

/// A line that is ended comes first among the lines, without the carriage return at its end, and is
/// followed by the lines of the rest, however many there are.
pub proof fn law_lines_follow_one_another(line: Seq<char>, rest: Seq<char>)
    requires
        !line.contains('\n'),
    ensures
        lines_of(line.push('\n') + rest) == seq![
            if line.len() > 0 && line.last() == '\r' {
                line.drop_last()
            } else {
                line
            },
        ] + lines_of(rest),
        lines_of(seq![]) == Seq::<Seq<char>>::empty(),
        line.len() > 0 ==> lines_of(line) == seq![line],
{
    let s = line.push('\n') + rest;
    lemma_run_before(s, '\n');
    lemma_run_before(line, '\n');
    let n = run_before(s, '\n') as int;
    assert(s[line.len() as int] == '\n');
    if n < line.len() {
        assert(s[n] == line[n]);
        assert(line.contains(line[n]));
    }
    assert(n == line.len());
    assert(s.take(n) =~= line);
    assert(s.skip(n + 1) =~= rest);
    let m = run_before(line, '\n') as int;
    if m < line.len() {
        assert(line.contains(line[m]));
    }
}

/// A split loses nothing: what comes before the character, the character and what comes after it are
/// the text; and the character is not in what comes before.
pub proof fn law_split_loses_nothing(s: Seq<char>, c: char)
    requires
        s.contains(c),
    ensures
        before_first(s, c).push(c) + after_first(s, c) == s,
        !before_first(s, c).contains(c),
{
    lemma_run_before(s, c);
    let n = run_before(s, c) as int;
    if n == s.len() {
        let k = choose|k: int| 0 <= k < s.len() && s[k] == c;
        assert(s[k] != c);
    }
    assert(before_first(s, c).push(c) + after_first(s, c) =~= s);
    if before_first(s, c).contains(c) {
        let k = choose|k: int| 0 <= k < n && before_first(s, c)[k] == c;
        assert(s[k] != c);
    }
}

/// The first characters of a text are a beginning of it, as long as asked for or all of it.
pub proof fn law_first_chars_are_a_beginning(s: Seq<char>, n: nat)
    ensures
        first_chars(s, n as int).is_prefix_of(s),
        first_chars(s, n as int).len() == if n <= s.len() {
            n
        } else {
            s.len()
        },
{
    assert(s.take(s.len() as int) =~= s);
}

/// Trimming a character off the end takes only that character, and all of it.
pub proof fn law_trimming_a_character(s: Seq<char>, c: char)
    ensures
        trimmed_end_of(s, c).is_prefix_of(s),
        trimmed_end_of(s, c).len() > 0 ==> trimmed_end_of(s, c).last() != c,
        forall|k: int| trimmed_end_of(s, c).len() <= k < s.len() ==> #[trigger] s[k] == c,
    decreases s.len(),
{
    if s.len() > 0 && s.last() == c {
        let rest = s.drop_last();
        law_trimming_a_character(rest, c);
        assert(trimmed_end_of(s, c) =~= s.take(trimmed_end_of(s, c).len() as int));
        assert forall|k: int| trimmed_end_of(s, c).len() <= k < s.len() implies #[trigger] s[k]
            == c by {
            if k < s.len() - 1 {
                assert(rest[k] == s[k]);
            }
        }
    } else {
        assert(s.take(s.len() as int) =~= s);
    }
}

/// Two lists of parts that are joined are joined with the separator between them; one part stands
/// for itself.
pub proof fn law_joining_lists(a: Seq<Seq<char>>, b: Seq<Seq<char>>, sep: Seq<char>)
    requires
        a.len() > 0,
        b.len() > 0,
    ensures
        joined(a + b, sep) == joined(a, sep) + sep + joined(b, sep),
        a.len() == 1 ==> joined(a, sep) == a[0],
        joined(seq![], sep) == Seq::<char>::empty(),
    decreases b.len(),
{
    assert((a + b).last() == b.last());
    if b.len() == 1 {
        assert((a + b).drop_last() =~= a);
    } else {
        assert((a + b).drop_last() =~= a + b.drop_last());
        law_joining_lists(a, b.drop_last(), sep);
        assert(joined(a + b, sep) =~= joined(a, sep) + sep + joined(b, sep));
    }
}

/// A text ends in another just where something stands before it that makes it up.
pub proof fn law_suffix_is_an_ending(a: Seq<char>, p: Seq<char>, s: Seq<char>)
    ensures
        has_suffix(a + p, p),
        has_suffix(s, p) ==> s.take(s.len() - p.len()) + p == s,
{
    assert((a + p).subrange(a.len() as int, (a + p).len() as int) =~= p);
    if has_suffix(s, p) {
        assert(s.take(s.len() - p.len()) + p =~= s);
    }
}

/// A text holds another just where something stands before and behind it that makes it up.
pub proof fn law_part_is_surrounded(a: Seq<char>, p: Seq<char>, b: Seq<char>, s: Seq<char>)
    ensures
        has_part(a + p + b, p),
        has_part(s, p) ==> exists|i: int| #[trigger] s.take(i) + p + s.skip(i + p.len()) == s,
{
    assert((a + p + b).subrange(a.len() as int, a.len() + p.len() as int) =~= p);
    assert(stands_at(a + p + b, p, a.len() as int));
    if has_part(s, p) {
        let i = choose|i: int| stands_at(s, p, i);
        assert(s.take(i) + p + s.skip(i + p.len()) =~= s);
    }
}

/// A text that goes on with a label and a value holds both together, and all that it held before.
pub proof fn lemma_text_goes_on(s: Seq<char>, label: Seq<char>, value: Seq<char>)
    ensures
        has_part(s + label + value, label + value),
        forall|p: Seq<char>| #[trigger] has_part(s, p) ==> has_part(s + label + value, p),
{
    let all = s + label + value;
    assert(all =~= s + (label + value) + seq![]);
    law_part_is_surrounded(s, label + value, seq![], all);
    assert forall|p: Seq<char>| #[trigger] has_part(s, p) implies has_part(all, p) by {
        let i = choose|i: int| stands_at(s, p, i);
        assert(all.subrange(i, i + p.len()) =~= s.subrange(i, i + p.len()));
        assert(stands_at(all, p, i));
    }
}

/// Lower-casing keeps the length and changes only the letters from `A` to `Z`.
pub proof fn law_lower_case_changes_letters_only(s: Seq<char>)
    ensures
        ascii_lowered(s).len() == s.len(),
        forall|i: int|
            0 <= i < s.len() ==> if 'A' <= s[i] <= 'Z' {
                #[trigger] ascii_lowered(s)[i] as u32 == s[i] as u32 + 32
            } else {
                ascii_lowered(s)[i] == s[i]
            },
{
}

/// The white space, by code point: there are twenty-five such characters.
pub proof fn law_white_space_by_code_point(c: char)
    ensures
        ({
            let n = c as u32;
            is_white(c) <==> (9 <= n <= 13 || n == 0x20 || n == 0x85 || n == 0xa0 || n == 0x1680
                || 0x2000 <= n <= 0x200a || n == 0x2028 || n == 0x2029 || n == 0x202f || n == 0x205f
                || n == 0x3000)
        }),
{
}

/// White space at an end of a text does not matter to what trimming leaves.
pub proof fn law_outer_white_space_does_not_matter(s: Seq<char>, white: char)
    requires
        is_white(white),
    ensures
        trimmed(seq![white] + s) == trimmed(s),
        trimmed(s.push(white)) == trimmed(s),
    decreases s.len(),
{
    assert((seq![white] + s).drop_first() =~= s);
    let t = s.push(white);
    if s.len() == 0 {
        assert(t.drop_first() =~= s);
        assert(trimmed_start(s) == s);
        assert(trimmed_start(t) == s);
    } else if is_white(s.first()) {
        assert(t.drop_first() =~= s.drop_first().push(white));
        law_outer_white_space_does_not_matter(s.drop_first(), white);
    } else {
        assert(trimmed_start(t) == t);
        assert(t.drop_last() =~= s);
    }
}

/// Trimming the end first does not matter to what trimming leaves.
pub proof fn lemma_trimmed_end_first(s: Seq<char>)
    ensures
        trimmed(trimmed_end(s)) == trimmed(s),
    decreases s.len(),
{
    if s.len() > 0 && is_white(s.last()) {
        lemma_trimmed_end_first(s.drop_last());
        assert(s =~= s.drop_last().push(s.last()));
        law_outer_white_space_does_not_matter(s.drop_last(), s.last());
    }
}

} // verus!
