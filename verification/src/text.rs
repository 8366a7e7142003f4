use vstd::prelude::*;
use vstd::string::*;

verus! {

/// `needle` occurs in `hay` as a contiguous run of characters.
pub open spec fn contains_seq(hay: Seq<char>, needle: Seq<char>) -> bool {
    exists|i: int|
        0 <= i && i + needle.len() <= hay.len() && #[trigger] hay.subrange(i, i + needle.len())
            == needle
}

/// Whether two strings hold the same characters.
pub fn str_eq(a: &str, b: &str) -> (r: bool)
    ensures
        r == (a@ == b@),
{
    String::from_str(a) == String::from_str(b)
}

/// Whether `needle` occurs in `hay`.
pub fn contains(hay: &str, needle: &str) -> (r: bool)
    ensures
        r == contains_seq(hay@, needle@),
{
    let n = hay.unicode_len();
    let m = needle.unicode_len();
    if m > n {
        return false;
    }
    let mut i: usize = 0;
    loop
        invariant
            n == hay@.len(),
            m == needle@.len(),
            m <= n,
            i <= n - m,
            forall|j: int| 0 <= j < i ==> #[trigger] hay@.subrange(j, j + needle@.len()) != needle@,
        decreases n - m - i,
    {
        let window = hay.substring_char(i, i + m);
        if str_eq(window, needle) {
            assert(hay@.subrange(i as int, i + needle@.len()) == needle@);
            return true;
        }
        if i == n - m {
            assert forall|j: int|
                0 <= j && j + needle@.len() <= hay@.len() implies #[trigger] hay@.subrange(
                j,
                j + needle@.len(),
            ) != needle@ by {
                assert(j <= i);
            }
            return false;
        }
        i = i + 1;
    }
}

/// The characters of `s`, one per element.
pub fn chars_of(s: &str) -> (v: Vec<char>)
    ensures
        v@ == s@,
{
    broadcast use vstd::string::group_string_axioms;

    let mut v: Vec<char> = Vec::new();
    for c in it: s.chars()
        invariant
            it.seq() == s@,
            v@ == it.seq().take(it.index()),
    {
        v.push(c);
        assert(v@ =~= it.seq().take(it.index() + 1));
    }
    assert(v@ =~= s@);
    v
}

/// The Unicode `White_Space` property, which `char::is_whitespace` tests:
/// U+0009..U+000D, U+0020, U+0085, U+00A0, U+1680, U+2000..U+200A, U+2028,
/// U+2029, U+202F, U+205F and U+3000.
pub open spec fn is_white_space(c: char) -> bool {
    ||| ('\u{9}' <= c && c <= '\u{d}')
    ||| c == ' '
    ||| c == '\u{85}'
    ||| c == '\u{a0}'
    ||| c == '\u{1680}'
    ||| ('\u{2000}' <= c && c <= '\u{200a}')
    ||| c == '\u{2028}'
    ||| c == '\u{2029}'
    ||| c == '\u{202f}'
    ||| c == '\u{205f}'
    ||| c == '\u{3000}'
}

/// Whether `c` is white space in the sense of [`is_white_space`].
pub fn white_space(c: char) -> (r: bool)
    ensures
        r == is_white_space(c),
{
    ('\u{9}' <= c && c <= '\u{d}') || c == ' ' || c == '\u{85}' || c == '\u{a0}' || c == '\u{1680}'
        || ('\u{2000}' <= c && c <= '\u{200a}') || c == '\u{2028}' || c == '\u{2029}' || c
        == '\u{202f}' || c == '\u{205f}' || c == '\u{3000}'
}

/// The first index at or after `i` that holds no white space (or the length).
pub open spec fn skip_white_space(s: Seq<char>, i: int) -> int
    decreases s.len() - i,
{
    if i >= s.len() || !is_white_space(s[i]) {
        i
    } else {
        skip_white_space(s, i + 1)
    }
}

/// The first index at or after `i` that holds white space (or the length).
pub open spec fn token_end(s: Seq<char>, i: int) -> int
    decreases s.len() - i,
{
    if i >= s.len() || is_white_space(s[i]) {
        i
    } else {
        token_end(s, i + 1)
    }
}

/// The first white-space-separated word of `s`, as `split_whitespace().next()`
/// yields it.
pub open spec fn first_token(s: Seq<char>) -> Option<Seq<char>> {
    let a = skip_white_space(s, 0);
    if a >= s.len() {
        None
    } else {
        Some(s.subrange(a, token_end(s, a)))
    }
}

/// The index of the first newline at or after `i`, or the length of `s`.
pub open spec fn line_end(s: Seq<char>, i: int) -> int
    decreases s.len() - i,
{
    if i >= s.len() || s[i] == '\n' {
        i
    } else {
        line_end(s, i + 1)
    }
}

/// A line of `s` begins at index `i`: the text's start, or just after a newline.
pub open spec fn starts_line(s: Seq<char>, i: int) -> bool {
    i == 0 || (0 < i <= s.len() && s[i - 1] == '\n')
}

/// The line of `s` that begins at index `i`, without its newline.
pub open spec fn line_at(s: Seq<char>, i: int) -> Seq<char> {
    s.subrange(i, line_end(s, i))
}

/// What `line_end` is: no newline before it, a newline at it unless it is the end.
pub proof fn lemma_line_end(s: Seq<char>, i: int)
    requires
        0 <= i <= s.len(),
    ensures
        i <= line_end(s, i) <= s.len(),
        forall|k: int| i <= k < line_end(s, i) ==> s[k] != '\n',
        line_end(s, i) < s.len() ==> s[line_end(s, i)] == '\n',
    decreases s.len() - i,
{
    if i < s.len() && s[i] != '\n' {
        lemma_line_end(s, i + 1);
    }
}

/// The index of the first newline at or after `start` in `chars`, or its length.
pub fn find_line_end(chars: &Vec<char>, start: usize) -> (end: usize)
    requires
        start <= chars@.len(),
    ensures
        end == line_end(chars@, start as int),
{
    let n = chars.len();
    let mut j = start;
    while j < n && chars[j] != '\n'
        invariant
            n == chars@.len(),
            start <= j <= n,
            line_end(chars@, start as int) == line_end(chars@, j as int),
        decreases n - j,
    {
        j = j + 1;
    }
    j
}

/// Whether `chars[from..to]` and `word` hold the same characters.
pub fn range_equals(chars: &Vec<char>, from: usize, to: usize, word: &Vec<char>) -> (r: bool)
    requires
        from <= to <= chars@.len(),
    ensures
        r == (chars@.subrange(from as int, to as int) == word@),
{
    if to - from != word.len() {
        return false;
    }
    let mut k: usize = 0;
    while k < word.len()
        invariant
            from <= to <= chars@.len(),
            to - from == word@.len(),
            k <= word@.len(),
            forall|q: int| 0 <= q < k ==> chars@[from + q] == word@[q],
        decreases word@.len() - k,
    {
        if chars[from + k] != word[k] {
            assert(chars@.subrange(from as int, to as int)[k as int] != word@[k as int]);
            return false;
        }
        k = k + 1;
    }
    assert(chars@.subrange(from as int, to as int) =~= word@);
    true
}

/// The first word of the line `chars[from..to]`, as a pair of bounds into `chars`.
pub fn first_token_bounds(chars: &Vec<char>, from: usize, to: usize) -> (r: Option<(usize, usize)>)
    requires
        from <= to <= chars@.len(),
    ensures
        ({
            let line = chars@.subrange(from as int, to as int);
            match r {
                None => first_token(line) is None,
                Some((a, b)) => from <= a <= b <= to && a - from == skip_white_space(line, 0)
                    && first_token(line) == Some(chars@.subrange(a as int, b as int)),
            }
        }),
{
    let ghost line = chars@.subrange(from as int, to as int);
    let mut a = from;
    while a < to && white_space(chars[a])
        invariant
            from <= a <= to <= chars@.len(),
            line == chars@.subrange(from as int, to as int),
            skip_white_space(line, 0) == skip_white_space(line, a - from),
        decreases to - a,
    {
        assert(line[a - from] == chars@[a as int]);
        a = a + 1;
    }
    if a == to {
        return None;
    }
    assert(line[a - from] == chars@[a as int]);
    let mut b = a;
    while b < to && !white_space(chars[b])
        invariant
            from <= a <= b <= to <= chars@.len(),
            line == chars@.subrange(from as int, to as int),
            token_end(line, a - from) == token_end(line, b - from),
        decreases to - b,
    {
        assert(line[b - from] == chars@[b as int]);
        b = b + 1;
    }
    if b < to {
        assert(line[b - from] == chars@[b as int]);
    }
    assert(line.subrange(a - from, b - from) =~= chars@.subrange(a as int, b as int));
    Some((a, b))
}

/// The index of the first character of `s` at or after `i` that is not `c`.
pub open spec fn skip_char(s: Seq<char>, c: char, i: int) -> int
    decreases s.len() - i,
{
    if i >= s.len() || s[i] != c {
        i
    } else {
        skip_char(s, c, i + 1)
    }
}

/// `path` without its leading slashes, as `trim_start_matches('/')` gives it.
pub open spec fn trim_leading_slashes(path: Seq<char>) -> Seq<char> {
    path.subrange(skip_char(path, '/', 0), path.len() as int)
}

/// `s` without its leading slashes.
pub fn trim_start_slashes(s: &str) -> (r: String)
    ensures
        r@ == trim_leading_slashes(s@),
{
    let chars = chars_of(s);
    let n = chars.len();
    let mut k: usize = 0;
    while k < n && chars[k] == '/'
        invariant
            n == s@.len(),
            chars@ == s@,
            k <= n,
            skip_char(s@, '/', 0) == skip_char(s@, '/', k as int),
        decreases n - k,
    {
        k = k + 1;
    }
    String::from_str(s.substring_char(k, n))
}

} // verus!
