//! Character-level operations on protocol text.
//!
//! Text is modelled as `Seq<char>`. Executable code copies a string into a
//! `Vec<char>` once and then works on indices into it.

use vstd::prelude::*;
use vstd::string::*;

verus! {

/// White space: the code points that Unicode marks as `White_Space`.
pub open spec fn is_space(c: char) -> bool {
    let n = c as u32;
    ||| 0x09 <= n <= 0x0D
    ||| n == 0x20
    ||| n == 0x85
    ||| n == 0xA0
    ||| n == 0x1680
    ||| 0x2000 <= n <= 0x200A
    ||| n == 0x2028
    ||| n == 0x2029
    ||| n == 0x202F
    ||| n == 0x205F
    ||| n == 0x3000
}

/// An ASCII decimal digit.
pub open spec fn is_digit(c: char) -> bool {
    '0' <= c <= '9'
}

/// A character that can be part of a word: an ASCII letter or digit.
pub open spec fn is_word_char(c: char) -> bool {
    ||| '0' <= c <= '9'
    ||| 'A' <= c <= 'Z'
    ||| 'a' <= c <= 'z'
}

/// How many characters at the front of `s` are white space.
pub open spec fn leading_spaces(s: Seq<char>) -> nat
    decreases s.len(),
{
    if s.len() > 0 && is_space(s[0]) {
        1 + leading_spaces(s.drop_first())
    } else {
        0
    }
}

/// How many characters at the back of `s` are white space.
pub open spec fn trailing_spaces(s: Seq<char>) -> nat
    decreases s.len(),
{
    if s.len() > 0 && is_space(s.last()) {
        1 + trailing_spaces(s.drop_last())
    } else {
        0
    }
}

/// `s` without its leading and trailing white space.
pub open spec fn trimmed(s: Seq<char>) -> Seq<char> {
    let a = leading_spaces(s);
    if a == s.len() {
        Seq::empty()
    } else {
        s.subrange(a as int, s.len() - trailing_spaces(s))
    }
}

/// `pattern` stands in `text` at index `i`.
pub open spec fn occurs_at(text: Seq<char>, pattern: Seq<char>, i: int) -> bool {
    &&& 0 <= i
    &&& i + pattern.len() <= text.len()
    &&& text.subrange(i, i + pattern.len()) == pattern
}

/// `pattern` stands somewhere in `text`.
pub open spec fn contains(text: Seq<char>, pattern: Seq<char>) -> bool {
    exists|i: int| occurs_at(text, pattern, i)
}

/// `text` begins with `pattern`.
pub open spec fn starts_with(text: Seq<char>, pattern: Seq<char>) -> bool {
    occurs_at(text, pattern, 0)
}

/// `token` stands in `text` at index `i` as a word of its own: the
/// characters next to it, if any, are not word characters.
pub open spec fn token_at(text: Seq<char>, token: Seq<char>, i: int) -> bool {
    &&& occurs_at(text, token, i)
    &&& i == 0 || !is_word_char(text[i - 1])
    &&& i + token.len() == text.len() || !is_word_char(text[i + token.len()])
}

/// `token` stands somewhere in `text` as a word of its own.
pub open spec fn has_token(text: Seq<char>, token: Seq<char>) -> bool {
    exists|i: int| token_at(text, token, i)
}

/// The length of the first line of `s`: the number of characters before the
/// first line feed, or all of them where there is none.
pub open spec fn line_len(s: Seq<char>) -> nat
    decreases s.len(),
{
    if s.len() > 0 && s[0] != '\n' {
        1 + line_len(s.drop_first())
    } else {
        0
    }
}

/// The first line of `s`, without its line feed.
pub open spec fn first_line(s: Seq<char>) -> Seq<char> {
    s.take(line_len(s) as int)
}

/// The first line of `s` ends in a line feed.
pub open spec fn has_line_feed(s: Seq<char>) -> bool {
    line_len(s) < s.len()
}

/// What follows the first line of `s` and its line feed.
pub open spec fn after_first_line(s: Seq<char>) -> Seq<char> {
    s.skip(line_len(s) as int + 1)
}

/// `k` is the length of the white space at the front of `s` exactly when
/// everything before `k` is white space and the character at `k` is not.
pub proof fn lemma_leading_spaces(s: Seq<char>, k: int)
    requires
        0 <= k <= s.len(),
        forall|i: int| 0 <= i < k ==> is_space(#[trigger] s[i]),
        k == s.len() || !is_space(s[k]),
    ensures
        leading_spaces(s) == k,
    decreases k,
{
    if k > 0 {
        let rest = s.drop_first();
        assert forall|i: int| 0 <= i < k - 1 implies is_space(#[trigger] rest[i]) by {
            assert(rest[i] == s[i + 1]);
        }
        if k < s.len() {
            assert(rest[k - 1] == s[k]);
        }
        lemma_leading_spaces(rest, k - 1);
    }
}

/// `k` is the length of the white space at the back of `s` exactly when the
/// last `k` characters are white space and the one before them is not.
pub proof fn lemma_trailing_spaces(s: Seq<char>, k: int)
    requires
        0 <= k <= s.len(),
        forall|i: int| s.len() - k <= i < s.len() ==> is_space(#[trigger] s[i]),
        k == s.len() || !is_space(s[s.len() - k - 1]),
    ensures
        trailing_spaces(s) == k,
    decreases k,
{
    if k > 0 {
        let rest = s.drop_last();
        assert forall|i: int| rest.len() - (k - 1) <= i < rest.len() implies is_space(
            #[trigger] rest[i],
        ) by {
            assert(rest[i] == s[i]);
        }
        if k < s.len() {
            assert(rest[rest.len() - (k - 1) - 1] == s[s.len() - k - 1]);
        }
        lemma_trailing_spaces(rest, k - 1);
    }
}

/// `k` is the length of the first line of `s` exactly when no line feed
/// stands before `k` and one stands at `k`, or `s` ends there.
pub proof fn lemma_line_len(s: Seq<char>, k: int)
    requires
        0 <= k <= s.len(),
        forall|i: int| 0 <= i < k ==> #[trigger] s[i] != '\n',
        k == s.len() || s[k] == '\n',
    ensures
        line_len(s) == k,
    decreases k,
{
    if k > 0 {
        let rest = s.drop_first();
        assert forall|i: int| 0 <= i < k - 1 implies #[trigger] rest[i] != '\n' by {
            assert(rest[i] == s[i + 1]);
        }
        if k < s.len() {
            assert(rest[k - 1] == s[k]);
        }
        lemma_line_len(rest, k - 1);
    }
}

/// The white space counted at the front of `s` is white space, and what
/// follows it is not.
pub proof fn lemma_leading_spaces_bounds(s: Seq<char>)
    ensures
        leading_spaces(s) <= s.len(),
        forall|i: int| 0 <= i < leading_spaces(s) ==> is_space(#[trigger] s[i]),
        leading_spaces(s) < s.len() ==> !is_space(s[leading_spaces(s) as int]),
    decreases s.len(),
{
    if s.len() > 0 && is_space(s[0]) {
        let rest = s.drop_first();
        lemma_leading_spaces_bounds(rest);
        assert forall|i: int| 0 <= i < leading_spaces(s) implies is_space(#[trigger] s[i]) by {
            if i > 0 {
                assert(s[i] == rest[i - 1]);
            }
        }
        if leading_spaces(s) < s.len() {
            assert(s[leading_spaces(s) as int] == rest[leading_spaces(rest) as int]);
        }
    }
}

/// The white space counted at the back of `s` is white space, and what
/// stands before it is not.
pub proof fn lemma_trailing_spaces_bounds(s: Seq<char>)
    ensures
        trailing_spaces(s) <= s.len(),
        forall|i: int| s.len() - trailing_spaces(s) <= i < s.len() ==> is_space(#[trigger] s[i]),
        trailing_spaces(s) < s.len() ==> !is_space(s[s.len() - trailing_spaces(s) - 1]),
    decreases s.len(),
{
    if s.len() > 0 && is_space(s.last()) {
        let rest = s.drop_last();
        lemma_trailing_spaces_bounds(rest);
        assert forall|i: int| s.len() - trailing_spaces(s) <= i < s.len() implies is_space(
            #[trigger] s[i],
        ) by {
            if i < s.len() - 1 {
                assert(s[i] == rest[i]);
            }
        }
        if trailing_spaces(s) < s.len() {
            assert(s[s.len() - trailing_spaces(s) - 1] == rest[rest.len() - trailing_spaces(rest)
                - 1]);
        }
    }
}

/// No line feed stands in the first line of `s`, and one ends it unless `s`
/// ends there.
pub proof fn lemma_line_len_bounds(s: Seq<char>)
    ensures
        line_len(s) <= s.len(),
        forall|i: int| 0 <= i < line_len(s) ==> #[trigger] s[i] != '\n',
        line_len(s) < s.len() ==> s[line_len(s) as int] == '\n',
    decreases s.len(),
{
    if s.len() > 0 && s[0] != '\n' {
        let rest = s.drop_first();
        lemma_line_len_bounds(rest);
        assert forall|i: int| 0 <= i < line_len(s) implies #[trigger] s[i] != '\n' by {
            if i > 0 {
                assert(s[i] == rest[i - 1]);
            }
        }
        if line_len(s) < s.len() {
            assert(s[line_len(s) as int] == rest[line_len(rest) as int]);
        }
    }
}

/// What trimming leaves is a stretch of the text: it begins after the
/// leading white space and ends before the trailing white space, and unless
/// it is empty its first and last characters are not white space.
pub proof fn lemma_trimmed_bounds(s: Seq<char>)
    ensures
        leading_spaces(s) + trimmed(s).len() + trailing_spaces(s) == s.len() || (trimmed(s).len()
            == 0 && leading_spaces(s) == s.len()),
        forall|i: int|
            0 <= i < trimmed(s).len() ==> #[trigger] trimmed(s)[i] == s[leading_spaces(s) + i],
        trimmed(s).len() > 0 ==> !is_space(trimmed(s)[0]) && !is_space(trimmed(s).last()),
{
    lemma_leading_spaces_bounds(s);
    lemma_trailing_spaces_bounds(s);
    let a = leading_spaces(s) as int;
    let b = s.len() - trailing_spaces(s);
    if a < s.len() {
        assert(a < b) by {
            if b <= a {
                assert(is_space(s[a]));
            }
        }
    }
}

/// Trimming twice is trimming once.
pub proof fn lemma_trim_idempotent(s: Seq<char>)
    ensures
        trimmed(trimmed(s)) == trimmed(s),
{
    let t = trimmed(s);
    lemma_trimmed_bounds(s);
    if t.len() > 0 {
        lemma_leading_spaces(t, 0);
        lemma_trailing_spaces(t, 0);
        assert(t.subrange(0, t.len() as int) =~= t);
    } else {
        assert(t =~= Seq::<char>::empty());
    }
}

/// A token that holds no white space stands in a text as a word of its own
/// exactly when it does so in the trimmed text.
pub proof fn lemma_token_survives_trim(text: Seq<char>, token: Seq<char>)
    requires
        token.len() > 0,
        forall|i: int| 0 <= i < token.len() ==> !is_space(#[trigger] token[i]),
    ensures
        has_token(trimmed(text), token) == has_token(text, token),
{
    lemma_leading_spaces_bounds(text);
    lemma_trailing_spaces_bounds(text);
    lemma_trimmed_bounds(text);
    let t = trimmed(text);
    let a = leading_spaces(text) as int;
    let n = token.len() as int;
    if has_token(t, token) {
        let j = choose|j: int| token_at(t, token, j);
        assert(t.len() > 0);
        assert(text.subrange(a + j, a + j + n) =~= t.subrange(j, j + n));
        if j > 0 {
            assert(t[j - 1] == text[a + j - 1]);
        }
        if j + n < t.len() {
            assert(t[j + n] == text[a + j + n]);
        }
        assert(token_at(text, token, a + j));
    }
    if has_token(text, token) {
        let i = choose|i: int| token_at(text, token, i);
        let found = text.subrange(i, i + n);
        assert(found[0] == text[i]);
        assert(found[n - 1] == text[i + n - 1]);
        assert(!is_space(token[0]));
        assert(!is_space(token[n - 1]));
        assert(a <= i);
        assert(i + n <= a + t.len());
        assert(t.subrange(i - a, i - a + n) =~= found);
        if i - a > 0 {
            assert(t[i - a - 1] == text[i - 1]);
        }
        if i - a + n < t.len() {
            assert(t[i - a + n] == text[i + n]);
        }
        assert(token_at(t, token, i - a));
    }
}

/// Whether `c` is white space.
pub fn is_space_char(c: char) -> (b: bool)
    ensures
        b == is_space(c),
{
    let n: u32 = c as u32;
    (0x09 <= n && n <= 0x0D) || n == 0x20 || n == 0x85 || n == 0xA0 || n == 0x1680 || (0x2000 <= n
        && n <= 0x200A) || n == 0x2028 || n == 0x2029 || n == 0x202F || n == 0x205F || n == 0x3000
}

/// Whether `c` is an ASCII decimal digit.
pub fn is_digit_char(c: char) -> (b: bool)
    ensures
        b == is_digit(c),
{
    '0' <= c && c <= '9'
}

/// Whether `c` is an ASCII letter or digit.
pub fn is_word(c: char) -> (b: bool)
    ensures
        b == is_word_char(c),
{
    ('0' <= c && c <= '9') || ('A' <= c && c <= 'Z') || ('a' <= c && c <= 'z')
}

/// The characters of `s`, in order.
pub fn chars_of(s: &str) -> (v: Vec<char>)
    ensures
        v@ == s@,
{
    let mut v: Vec<char> = Vec::new();
    for c in it: s.chars()
        invariant
            v@ == it.seq().take(it.index() as int),
            it.seq() == s@,
    {
        v.push(c);
    }
    v
}

/// The bounds of `v[from..to]` without its leading and trailing white space.
pub fn trim_bounds(v: &Vec<char>, from: usize, to: usize) -> (r: (usize, usize))
    requires
        from <= to <= v.len(),
    ensures
        from <= r.0 <= r.1 <= to,
        v@.subrange(r.0 as int, r.1 as int) == trimmed(v@.subrange(from as int, to as int)),
{
    let ghost s = v@.subrange(from as int, to as int);
    let mut a: usize = from;
    while a < to && is_space_char(v[a])
        invariant
            from <= a <= to <= v.len(),
            s == v@.subrange(from as int, to as int),
            forall|i: int| 0 <= i < a - from ==> is_space(#[trigger] s[i]),
        decreases to - a,
    {
        a += 1;
    }
    proof {
        lemma_leading_spaces(s, a - from);
    }
    if a == to {
        assert(v@.subrange(a as int, a as int) =~= Seq::empty());
        return (a, a);
    }
    let mut b: usize = to;
    while b > a && is_space_char(v[b - 1])
        invariant
            from <= a < b <= to <= v.len(),
            s == v@.subrange(from as int, to as int),
            !is_space(v@[a as int]),
            forall|i: int| b - from <= i < s.len() ==> is_space(#[trigger] s[i]),
        decreases b,
    {
        b -= 1;
        assert(b > a) by {
            if b == a {
                assert(s[b - from] == v@[a as int]);
            }
        }
    }
    proof {
        assert(!is_space(s[b - from - 1]));
        lemma_trailing_spaces(s, to - b);
        assert(v@.subrange(a as int, b as int) =~= s.subrange(a - from, s.len() - (to - b)));
    }
    (a, b)
}

/// `s` without its leading and trailing white space.
pub fn trim(s: &str) -> (t: String)
    ensures
        t@ == trimmed(s@),
{
    let v = chars_of(s);
    let (a, b) = trim_bounds(&v, 0, v.len());
    assert(v@.subrange(0, v.len() as int) =~= v@);
    s.substring_char(a, b).to_owned()
}

/// Whether `pattern` stands in `text` at index `i`.
pub fn matches_at(text: &Vec<char>, pattern: &Vec<char>, i: usize) -> (b: bool)
    ensures
        b == occurs_at(text@, pattern@, i as int),
{
    if pattern.len() > text.len() || i > text.len() - pattern.len() {
        return false;
    }
    let mut k: usize = 0;
    while k < pattern.len()
        invariant
            k <= pattern.len(),
            i + pattern.len() <= text.len(),
            forall|j: int| 0 <= j < k ==> text@[i + j] == pattern@[j],
        decreases pattern.len() - k,
    {
        if text[i + k] != pattern[k] {
            assert(text@.subrange(i as int, i + pattern.len())[k as int] != pattern@[k as int]);
            return false;
        }
        k += 1;
    }
    assert(text@.subrange(i as int, i + pattern.len()) =~= pattern@);
    true
}

/// Whether `v[from..to]` begins with `pattern`.
pub fn range_starts_with(v: &Vec<char>, from: usize, to: usize, pattern: &Vec<char>) -> (b: bool)
    requires
        from <= to <= v.len(),
    ensures
        b == starts_with(v@.subrange(from as int, to as int), pattern@),
{
    if pattern.len() > to - from {
        return false;
    }
    let b = matches_at(v, pattern, from);
    assert(v@.subrange(from as int, to as int).subrange(0, pattern.len() as int) =~= v@.subrange(
        from as int,
        from + pattern.len(),
    ));
    b
}

/// Whether `v[from..to]` is `pattern`.
pub fn range_equals(v: &Vec<char>, from: usize, to: usize, pattern: &Vec<char>) -> (b: bool)
    requires
        from <= to <= v.len(),
    ensures
        b == (v@.subrange(from as int, to as int) == pattern@),
{
    if pattern.len() != to - from {
        return false;
    }
    matches_at(v, pattern, from)
}

/// The first index at which `pattern` stands in `text`.
pub fn find_in(text: &Vec<char>, pattern: &Vec<char>) -> (r: Option<usize>)
    ensures
        match r {
            Some(i) => occurs_at(text@, pattern@, i as int) && forall|j: int|
                0 <= j < i ==> !occurs_at(text@, pattern@, j),
            None => !contains(text@, pattern@),
        },
{
    if pattern.len() > text.len() {
        return None;
    }
    let last: usize = text.len() - pattern.len();
    let mut i: usize = 0;
    loop
        invariant
            i <= last,
            last == text.len() - pattern.len(),
            forall|j: int| 0 <= j < i ==> !occurs_at(text@, pattern@, j),
        decreases last - i,
    {
        if matches_at(text, pattern, i) {
            return Some(i);
        }
        if i == last {
            return None;
        }
        i += 1;
    }
}

/// Whether `pattern` stands somewhere in `text`.
pub fn contains_text(text: &str, pattern: &str) -> (b: bool)
    ensures
        b == contains(text@, pattern@),
{
    let t = chars_of(text);
    let p = chars_of(pattern);
    find_in(&t, &p).is_some()
}

/// Whether `token` stands somewhere in `text` as a word of its own.
pub fn find_token(text: &Vec<char>, token: &Vec<char>) -> (b: bool)
    ensures
        b == has_token(text@, token@),
{
    if token.len() > text.len() {
        return false;
    }
    let last: usize = text.len() - token.len();
    let mut i: usize = 0;
    loop
        invariant
            i <= last,
            last == text.len() - token.len(),
            forall|j: int| 0 <= j < i ==> !token_at(text@, token@, j),
        decreases last - i,
    {
        if matches_at(text, token, i) {
            let open_left = i == 0 || !is_word(text[i - 1]);
            let open_right = i == last || !is_word(text[i + token.len()]);
            if open_left && open_right {
                assert(token_at(text@, token@, i as int));
                return true;
            }
        }
        if i == last {
            return false;
        }
        i += 1;
    }
}

/// The index of the first line feed in `v[from..]`, or `v.len()`.
pub fn line_end(v: &Vec<char>, from: usize) -> (end: usize)
    requires
        from <= v.len(),
    ensures
        from <= end <= v.len(),
        end - from == line_len(v@.skip(from as int)),
{
    let ghost s = v@.skip(from as int);
    let mut end: usize = from;
    while end < v.len() && v[end] != '\n'
        invariant
            from <= end <= v.len(),
            s == v@.skip(from as int),
            forall|i: int| 0 <= i < end - from ==> #[trigger] s[i] != '\n',
        decreases v.len() - end,
    {
        end += 1;
    }
    proof {
        lemma_line_len(s, end - from);
    }
    end
}

} // verus!
