//! Character-level string helpers shared by the rest of the library: views
//! of a string as a `Vec<char>`, building a `String` back from characters,
//! substring search, ASCII case folding, and title truncation.

use vstd::prelude::*;

verus! {

/// The three-dot suffix appended to a truncated title.
pub open spec fn ellipsis() -> Seq<char> {
    seq!['.', '.', '.']
}

/// Whether `needle` occurs as a contiguous run somewhere inside `hay`.
pub open spec fn contains_sub(hay: Seq<char>, needle: Seq<char>) -> bool {
    exists|i: int|
        0 <= i && i + needle.len() <= hay.len() && #[trigger] hay.subrange(i, i + needle.len())
            == needle
}

/// What the std lowercase conversion of `s` yields (full Unicode case
/// mapping, which can change a string's length).
pub uninterp spec fn lowercase_of(s: Seq<char>) -> Seq<char>;

/// `str::to_lowercase`: the Unicode lowercase mapping of `s`, a function of
/// `s` alone.
#[verifier::external_body]
pub(crate) fn to_lowercase(s: &str) -> (r: String)
    ensures
        r@ == lowercase_of(s@),
{
    s.to_lowercase()
}

/// `String::push`: appends one character.
#[verifier::external_body]
pub(crate) fn push_char(s: &mut String, c: char)
    ensures
        final(s)@ == old(s)@.push(c),
{
    s.push(c)
}

/// The characters of `s`, in order.
pub fn chars_of(s: &str) -> (v: Vec<char>)
    ensures
        v@ == s@,
{
    broadcast use vstd::string::group_string_axioms;
    let mut v: Vec<char> = Vec::new();
    for c in it: s.chars()
        invariant
            it.seq() == s@,
            v@ == it.seq().take(it.index() as int),
    {
        v.push(c);
    }
    v
}


/// A `String` holding exactly `chars`.
pub fn string_from_chars(chars: &[char]) -> (r: String)
    ensures
        r@ == chars@,
{
    let mut r = String::new();
    let n = chars.len();
    for i in 0..n
        invariant
            n == chars@.len(),
            r@ == chars@.take(i as int),
    {
        push_char(&mut r, chars[i]);
        assert(chars@.take(i + 1) == chars@.take(i as int).push(chars@[i as int]));
    }
    assert(chars@.take(n as int) == chars@);
    r
}

/// Whether `needle` matches `hay` starting at position `start`.
fn matches_at(hay: &Vec<char>, needle: &Vec<char>, start: usize) -> (r: bool)
    requires
        start + needle@.len() <= hay@.len(),
    ensures
        r == (hay@.subrange(start as int, start + needle@.len()) == needle@),
{
    let m = needle.len();
    let n = hay.len();
    let mut j: usize = 0;
    while j < m
        invariant
            m == needle@.len(),
            n == hay@.len(),
            start + m <= hay@.len(),
            j <= m,
            forall|k: int| 0 <= k < j ==> hay@[start + k] == needle@[k],
        decreases m - j,
    {
        if hay[start + j] != needle[j] {
            assert(hay@.subrange(start as int, start + m)[j as int] != needle@[j as int]);
            return false;
        }
        j += 1;
    }
    assert(hay@.subrange(start as int, start + m) =~= needle@);
    true
}

/// Whether `needle` occurs somewhere inside `hay` (the empty needle occurs
/// everywhere).
pub fn contains_chars(hay: &Vec<char>, needle: &Vec<char>) -> (r: bool)
    ensures
        r == contains_sub(hay@, needle@),
{
    let n = hay.len();
    let m = needle.len();
    if m > n {
        return false;
    }
    let mut i: usize = 0;
    loop
        invariant
            n == hay@.len(),
            m == needle@.len(),
            m <= n,
            i <= n - m,
            forall|k: int|
                0 <= k < i ==> #[trigger] hay@.subrange(k, k + m) != needle@,
        decreases n - m - i,
    {
        if matches_at(hay, needle, i) {
            assert(hay@.subrange(i as int, i + m) == needle@);
            return true;
        }
        if i == n - m {
            assert forall|k: int| 0 <= k && k + m <= n implies #[trigger] hay@.subrange(k, k + m)
                != needle@ by {
                assert(k <= i);
            }
            return false;
        }
        i += 1;
    }
}

/// `str` substring search: whether `needle` occurs inside `hay`.
pub fn str_contains(hay: &str, needle: &str) -> (r: bool)
    ensures
        r == contains_sub(hay@, needle@),
{
    let h = chars_of(hay);
    let n = chars_of(needle);
    contains_chars(&h, &n)
}

/// Whether two strings hold the same characters.
pub fn str_eq(a: &str, b: &str) -> (r: bool)
    ensures
        r == (a@ == b@),
{
    let x = chars_of(a);
    let y = chars_of(b);
    if x.len() != y.len() {
        return false;
    }
    let n = x.len();
    for i in 0..n
        invariant
            n == x@.len(),
            n == y@.len(),
            x@ == a@,
            y@ == b@,
            forall|k: int| 0 <= k < i ==> x@[k] == y@[k],
    {
        if x[i] != y[i] {
            assert(a@[i as int] != b@[i as int]);
            return false;
        }
    }
    assert(x@ =~= y@);
    true
}

/// The title shown in a tight space: `s` itself when it has at most
/// `char_limit` characters, otherwise its first `char_limit - 1` characters
/// followed by `...`.
pub open spec fn spec_display_title(s: Seq<char>, char_limit: nat) -> Seq<char> {
    if s.len() <= char_limit {
        s
    } else {
        s.take(char_limit - 1) + ellipsis()
    }
}

/// Truncates `s` to at most `char_limit` characters, appending `...` when it
/// had to cut anything. Used wherever a node title or character name is
/// rendered in a tight space.
pub fn display_title(s: &str, char_limit: usize) -> (r: String)
    requires
        s@.len() <= char_limit || char_limit >= 1,
    ensures
        r@ == spec_display_title(s@, char_limit as nat),
{
    let chars = chars_of(s);
    let count = chars.len();
    if count <= char_limit {
        string_from_chars(chars.as_slice())
    } else {
        let keep = char_limit - 1;
        let mut r = String::new();
        for i in 0..keep
            invariant
                keep < chars@.len(),
                r@ == chars@.take(i as int),
        {
            push_char(&mut r, chars[i]);
            assert(chars@.take(i + 1) == chars@.take(i as int).push(chars@[i as int]));
        }
        push_char(&mut r, '.');
        push_char(&mut r, '.');
        push_char(&mut r, '.');
        assert(r@ =~= chars@.take(keep as int) + ellipsis());
        r
    }
}


/// Whether `c` has the Unicode `White_Space` property (PropList.txt):
/// U+0009..=U+000D, U+0020, U+0085, U+00A0, U+1680, U+2000..=U+200A,
/// U+2028, U+2029, U+202F, U+205F and U+3000.
pub open spec fn is_whitespace_char(c: char) -> bool {
    ||| '\u{9}' <= c && c <= '\u{d}'
    ||| c == ' '
    ||| c == '\u{85}'
    ||| c == '\u{a0}'
    ||| c == '\u{1680}'
    ||| '\u{2000}' <= c && c <= '\u{200a}'
    ||| c == '\u{2028}'
    ||| c == '\u{2029}'
    ||| c == '\u{202f}'
    ||| c == '\u{205f}'
    ||| c == '\u{3000}'
}

/// `char::is_whitespace`: whether `c` has the Unicode `White_Space`
/// property.
pub(crate) fn is_whitespace(c: char) -> (r: bool)
    ensures
        r == is_whitespace_char(c),
{
    ('\u{9}' <= c && c <= '\u{d}') || c == ' ' || c == '\u{85}' || c == '\u{a0}' || c == '\u{1680}'
        || ('\u{2000}' <= c && c <= '\u{200a}') || c == '\u{2028}' || c == '\u{2029}' || c
        == '\u{202f}' || c == '\u{205f}' || c == '\u{3000}'
}

/// `s` without its leading whitespace.
pub open spec fn drop_leading_ws(s: Seq<char>) -> Seq<char>
    decreases s.len(),
{
    if s.len() > 0 && is_whitespace_char(s[0]) {
        drop_leading_ws(s.drop_first())
    } else {
        s
    }
}

/// `s` without its trailing whitespace.
pub open spec fn drop_trailing_ws(s: Seq<char>) -> Seq<char>
    decreases s.len(),
{
    if s.len() > 0 && is_whitespace_char(s.last()) {
        drop_trailing_ws(s.drop_last())
    } else {
        s
    }
}

/// `s` with leading and trailing whitespace removed.
pub open spec fn trimmed(s: Seq<char>) -> Seq<char> {
    drop_trailing_ws(drop_leading_ws(s))
}

proof fn lemma_drop_leading(s: Seq<char>, a: int)
    requires
        0 <= a <= s.len(),
        forall|k: int| 0 <= k < a ==> is_whitespace_char(#[trigger] s[k]),
        a == s.len() || !is_whitespace_char(s[a]),
    ensures
        drop_leading_ws(s) == s.subrange(a, s.len() as int),
    decreases a,
{
    if a == 0 {
        assert(s.subrange(0, s.len() as int) =~= s);
    } else {
        let t = s.drop_first();
        assert forall|k: int| 0 <= k < a - 1 implies is_whitespace_char(#[trigger] t[k]) by {
            assert(t[k] == s[k + 1]);
        }
        if a < s.len() {
            assert(t[a - 1] == s[a]);
        }
        lemma_drop_leading(t, a - 1);
        assert(t.subrange(a - 1, t.len() as int) =~= s.subrange(a, s.len() as int));
    }
}

proof fn lemma_drop_trailing(s: Seq<char>, b: int)
    requires
        0 <= b <= s.len(),
        forall|k: int| b <= k < s.len() ==> is_whitespace_char(#[trigger] s[k]),
        b == 0 || !is_whitespace_char(s[b - 1]),
    ensures
        drop_trailing_ws(s) == s.subrange(0, b),
    decreases s.len() - b,
{
    if b == s.len() {
        assert(s.subrange(0, b) =~= s);
    } else {
        let t = s.drop_last();
        assert forall|k: int| b <= k < t.len() implies is_whitespace_char(#[trigger] t[k]) by {
            assert(t[k] == s[k]);
        }
        if b > 0 {
            assert(t[b - 1] == s[b - 1]);
        }
        lemma_drop_trailing(t, b);
        assert(t.subrange(0, b) =~= s.subrange(0, b));
    }
}

/// `str::trim`: `s` without leading and trailing whitespace.
pub fn trim(s: &str) -> (r: String)
    ensures
        r@ == trimmed(s@),
{
    let chars = chars_of(s);
    let n = chars.len();
    let mut a: usize = 0;
    while a < n && is_whitespace(chars[a])
        invariant
            n == chars@.len(),
            a <= n,
            forall|k: int| 0 <= k < a ==> is_whitespace_char(#[trigger] chars@[k]),
        decreases n - a,
    {
        a += 1;
    }
    proof {
        lemma_drop_leading(chars@, a as int);
    }
    let ghost lead = chars@.subrange(a as int, n as int);
    let mut b: usize = n;
    while b > a && is_whitespace(chars[b - 1])
        invariant
            n == chars@.len(),
            a <= b <= n,
            lead == chars@.subrange(a as int, n as int),
            forall|k: int| b <= k < n ==> is_whitespace_char(#[trigger] chars@[k]),
        decreases b - a,
    {
        b -= 1;
    }
    proof {
        assert forall|k: int| b - a <= k < lead.len() implies is_whitespace_char(#[trigger] lead[k]) by {
            assert(lead[k] == chars@[k + a]);
        }
        if b > a {
            assert(lead[b - a - 1] == chars@[b - 1]);
        }
        lemma_drop_trailing(lead, b - a);
        assert(lead.subrange(0, b - a) =~= chars@.subrange(a as int, b as int));
    }
    let mut r = String::new();
    let mut i = a;
    while i < b
        invariant
            n == chars@.len(),
            a <= i <= b <= n,
            r@ == chars@.subrange(a as int, i as int),
        decreases b - i,
    {
        push_char(&mut r, chars[i]);
        assert(chars@.subrange(a as int, i + 1) =~= chars@.subrange(a as int, i as int).push(
            chars@[i as int],
        ));
        i += 1;
    }
    r
}

/// `c` with ASCII uppercase letters mapped to lowercase.
pub open spec fn ascii_lower(c: char) -> char {
    if 'A' <= c && c <= 'Z' {
        (((c as u8) + 32) as u8) as char
    } else {
        c
    }
}

/// `s` with ASCII uppercase letters mapped to lowercase.
pub open spec fn ascii_lowercase(s: Seq<char>) -> Seq<char> {
    s.map_values(|c: char| ascii_lower(c))
}

/// `str::to_ascii_lowercase`.
pub fn to_ascii_lowercase(s: &str) -> (r: String)
    ensures
        r@ == ascii_lowercase(s@),
{
    let chars = chars_of(s);
    let n = chars.len();
    let mut r = String::new();
    for i in 0..n
        invariant
            n == chars@.len(),
            r@ == ascii_lowercase(chars@.take(i as int)),
    {
        let c = chars[i];
        let l = if 'A' <= c && c <= 'Z' {
            ((c as u8) + 32) as char
        } else {
            c
        };
        push_char(&mut r, l);
        assert(ascii_lowercase(chars@.take(i + 1)) =~= ascii_lowercase(chars@.take(i as int)).push(
            ascii_lower(chars@[i as int]),
        ));
    }
    assert(chars@.take(n as int) =~= chars@);
    r
}

} // verus!
