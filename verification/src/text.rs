//! Small text operations over `&str`: whitespace trimming as `str::trim`
//! does it, and comparison of two texts.

use vstd::prelude::*;

verus! {

/// The characters with the Unicode `White_Space` property, the ones that
/// `char::is_whitespace` accepts.
pub open spec fn is_whitespace(c: char) -> bool {
    let v = c as int;
    ||| 0x9 <= v <= 0xD
    ||| v == 0x20
    ||| v == 0x85
    ||| v == 0xA0
    ||| v == 0x1680
    ||| 0x2000 <= v <= 0x200A
    ||| v == 0x2028
    ||| v == 0x2029
    ||| v == 0x202F
    ||| v == 0x205F
    ||| v == 0x3000
}

/// The number of whitespace characters at the start of `s`.
pub open spec fn leading_whitespace(s: Seq<char>) -> nat
    decreases s.len(),
{
    if s.len() == 0 || !is_whitespace(s[0]) {
        0
    } else {
        1 + leading_whitespace(s.drop_first())
    }
}

/// The number of whitespace characters at the end of `s`.
pub open spec fn trailing_whitespace(s: Seq<char>) -> nat
    decreases s.len(),
{
    if s.len() == 0 || !is_whitespace(s.last()) {
        0
    } else {
        1 + trailing_whitespace(s.drop_last())
    }
}

/// `s` without its leading and trailing whitespace, as `str::trim` gives it.
pub open spec fn trim_spec(s: Seq<char>) -> Seq<char> {
    if leading_whitespace(s) == s.len() {
        Seq::empty()
    } else {
        s.subrange(leading_whitespace(s) as int, s.len() - trailing_whitespace(s))
    }
}

proof fn lemma_leading_exact(s: Seq<char>, k: int)
    requires
        0 <= k <= s.len(),
        forall|i: int| 0 <= i < k ==> is_whitespace(#[trigger] s[i]),
        k < s.len() ==> !is_whitespace(s[k]),
    ensures
        leading_whitespace(s) == k,
    decreases s.len(),
{
    if k > 0 {
        let t = s.drop_first();
        assert forall|i: int| 0 <= i < k - 1 implies is_whitespace(#[trigger] t[i]) by {
            assert(t[i] == s[i + 1]);
        }
        if k < s.len() {
            assert(t[k - 1] == s[k]);
        }
        lemma_leading_exact(t, k - 1);
    }
}

proof fn lemma_trailing_exact(s: Seq<char>, j: int)
    requires
        0 <= j <= s.len(),
        forall|i: int| j <= i < s.len() ==> is_whitespace(#[trigger] s[i]),
        j > 0 ==> !is_whitespace(s[j - 1]),
    ensures
        trailing_whitespace(s) == s.len() - j,
    decreases s.len(),
{
    if j < s.len() {
        let t = s.drop_last();
        assert(is_whitespace(s.last()));
        assert forall|i: int| j <= i < t.len() implies is_whitespace(#[trigger] t[i]) by {
            assert(t[i] == s[i]);
        }
        if j > 0 {
            assert(t[j - 1] == s[j - 1]);
        }
        lemma_trailing_exact(t, j);
    }
}

proof fn lemma_leading_props(s: Seq<char>)
    ensures
        leading_whitespace(s) <= s.len(),
        forall|i: int| 0 <= i < leading_whitespace(s) ==> is_whitespace(#[trigger] s[i]),
        leading_whitespace(s) < s.len() ==> !is_whitespace(s[leading_whitespace(s) as int]),
    decreases s.len(),
{
    if s.len() > 0 && is_whitespace(s[0]) {
        let t = s.drop_first();
        lemma_leading_props(t);
        assert forall|i: int| 0 <= i < leading_whitespace(s) implies is_whitespace(#[trigger] s[i]) by {
            if i > 0 {
                assert(s[i] == t[i - 1]);
            }
        }
        if leading_whitespace(s) < s.len() {
            assert(s[leading_whitespace(s) as int] == t[leading_whitespace(t) as int]);
        }
    }
}

proof fn lemma_trailing_props(s: Seq<char>)
    ensures
        trailing_whitespace(s) <= s.len(),
        forall|i: int| s.len() - trailing_whitespace(s) <= i < s.len() ==> is_whitespace(#[trigger] s[i]),
        trailing_whitespace(s) < s.len() ==> !is_whitespace(s[s.len() - 1 - trailing_whitespace(s)]),
    decreases s.len(),
{
    if s.len() > 0 && is_whitespace(s.last()) {
        let t = s.drop_last();
        lemma_trailing_props(t);
        assert forall|i: int| s.len() - trailing_whitespace(s) <= i < s.len() implies is_whitespace(
            #[trigger] s[i],
        ) by {
            if i < s.len() - 1 {
                assert(s[i] == t[i]);
            }
        }
        if trailing_whitespace(s) < s.len() {
            assert(s[s.len() - 1 - trailing_whitespace(s)] == t[t.len() - 1 - trailing_whitespace(t)]);
        }
    }
}

/// Whitespace around a text does not change what trimming leaves.
pub proof fn lemma_trim_ignores_padding(w1: Seq<char>, t: Seq<char>, w2: Seq<char>)
    requires
        forall|i: int| 0 <= i < w1.len() ==> is_whitespace(#[trigger] w1[i]),
        forall|i: int| 0 <= i < w2.len() ==> is_whitespace(#[trigger] w2[i]),
    ensures
        trim_spec(w1 + t + w2) == trim_spec(t),
{
    let s = w1 + t + w2;
    lemma_leading_props(t);
    lemma_trailing_props(t);
    let a = leading_whitespace(t) as int;
    let b = trailing_whitespace(t) as int;
    if a == t.len() {
        assert forall|i: int| 0 <= i < s.len() implies is_whitespace(#[trigger] s[i]) by {
            if i < w1.len() {
                assert(s[i] == w1[i]);
            } else if i < w1.len() + t.len() {
                assert(s[i] == t[i - w1.len()]);
            } else {
                assert(s[i] == w2[i - w1.len() - t.len()]);
            }
        }
        lemma_leading_exact(s, s.len() as int);
        assert(trim_spec(t) =~= Seq::<char>::empty());
    } else {
        // the last character of `t` that is not whitespace
        let z = t.len() - 1 - b;
        assert(b < t.len()) by {
            if b >= t.len() {
                assert(is_whitespace(t[a]));
            }
        }
        assert(a <= z) by {
            if z < a {
                assert(is_whitespace(t[z]));
            }
        }
        assert forall|i: int| 0 <= i < w1.len() + a implies is_whitespace(#[trigger] s[i]) by {
            if i < w1.len() {
                assert(s[i] == w1[i]);
            } else {
                assert(s[i] == t[i - w1.len()]);
            }
        }
        assert(s[w1.len() + a] == t[a]);
        lemma_leading_exact(s, w1.len() + a);
        let j = w1.len() + t.len() - b;
        assert forall|i: int| j <= i < s.len() implies is_whitespace(#[trigger] s[i]) by {
            if i < w1.len() + t.len() {
                assert(s[i] == t[i - w1.len()]);
            } else {
                assert(s[i] == w2[i - w1.len() - t.len()]);
            }
        }
        assert(s[j - 1] == t[z]);
        lemma_trailing_exact(s, j);
        assert(s.subrange(w1.len() + a, j) =~= t.subrange(a, t.len() - b));
    }
}

/// A text that starts and ends with a character that is not whitespace is
/// left whole by trimming.
pub proof fn lemma_trim_keeps_unpadded(t: Seq<char>)
    requires
        t.len() > 0,
        !is_whitespace(t[0]),
        !is_whitespace(t.last()),
    ensures
        trim_spec(t) == t,
{
    lemma_leading_exact(t, 0);
    lemma_trailing_exact(t, t.len() as int);
    assert(t.subrange(0, t.len() as int) =~= t);
}

/// Trimming strips exactly the Unicode `White_Space` characters: each of
/// U+0009..=U+000D, U+0020, U+0085, U+00A0, U+1680, U+2000..=U+200A, U+2028,
/// U+2029, U+202F, U+205F and U+3000, put around any text, is removed.
pub proof fn lemma_trim_strips_white_space(c: char, t: Seq<char>)
    requires
        0x9 <= c as int <= 0xD || c as int == 0x20 || c as int == 0x85 || c as int == 0xA0
            || c as int == 0x1680 || (0x2000 <= c as int <= 0x200A) || c as int == 0x2028
            || c as int == 0x2029 || c as int == 0x202F || c as int == 0x205F || c as int
            == 0x3000,
    ensures
        trim_spec(seq![c] + t + seq![c]) == trim_spec(t),
{
    lemma_trim_ignores_padding(seq![c], t, seq![c]);
}

/// Trimming keeps every other character: a single character outside the
/// Unicode `White_Space` set is left as it is.
pub proof fn lemma_trim_keeps_other_chars(c: char)
    requires
        !(0x9 <= c as int <= 0xD || c as int == 0x20 || c as int == 0x85 || c as int == 0xA0
            || c as int == 0x1680 || (0x2000 <= c as int <= 0x200A) || c as int == 0x2028
            || c as int == 0x2029 || c as int == 0x202F || c as int == 0x205F || c as int
            == 0x3000),
    ensures
        trim_spec(seq![c]) == seq![c],
{
    lemma_trim_keeps_unpadded(seq![c]);
}

/// A line ending (`\r\n`) after a text is trimmed away, as are a single `\n`
/// or `\r`.
pub proof fn lemma_trim_drops_line_ending(t: Seq<char>)
    ensures
        trim_spec(t + seq!['\r', '\n']) == trim_spec(t),
        trim_spec(t + seq!['\n']) == trim_spec(t),
        trim_spec(t + seq!['\r']) == trim_spec(t),
{
    assert(t =~= Seq::<char>::empty() + t);
    lemma_trim_ignores_padding(Seq::empty(), t, seq!['\r', '\n']);
    lemma_trim_ignores_padding(Seq::empty(), t, seq!['\n']);
    lemma_trim_ignores_padding(Seq::empty(), t, seq!['\r']);
}

/// Whether `c` is whitespace, as `char::is_whitespace` decides it.
pub fn char_is_whitespace(c: char) -> (r: bool)
    ensures
        r == is_whitespace(c),
{
    let v = c as u32;
    (0x9 <= v && v <= 0xD) || v == 0x20 || v == 0x85 || v == 0xA0 || v == 0x1680 || (0x2000 <= v
        && v <= 0x200A) || v == 0x2028 || v == 0x2029 || v == 0x202F || v == 0x205F || v == 0x3000
}

/// `s` without its leading and trailing whitespace.
pub fn trim(s: &str) -> (r: &str)
    ensures
        r@ == trim_spec(s@),
{
    let n = s.unicode_len();
    let mut i: usize = 0;
    while i < n && char_is_whitespace(s.get_char(i))
        invariant
            n == s@.len(),
            i <= n,
            forall|k: int| 0 <= k < i ==> is_whitespace(#[trigger] s@[k]),
        decreases n - i,
    {
        i = i + 1;
    }
    proof {
        lemma_leading_exact(s@, i as int);
    }
    if i == n {
        return s.substring_char(n, n);
    }
    let mut j: usize = n;
    while j > i && char_is_whitespace(s.get_char(j - 1))
        invariant
            n == s@.len(),
            i < n,
            i <= j <= n,
            !is_whitespace(s@[i as int]),
            forall|k: int| j <= k < n ==> is_whitespace(#[trigger] s@[k]),
        decreases j,
    {
        j = j - 1;
    }
    proof {
        lemma_trailing_exact(s@, j as int);
    }
    s.substring_char(i, j)
}

/// Whether two texts hold the same characters.
pub fn same_text(a: &str, b: &str) -> (r: bool)
    ensures
        r == (a@ == b@),
{
    let n = a.unicode_len();
    if n != b.unicode_len() {
        return false;
    }
    let mut i: usize = 0;
    while i < n
        invariant
            n == a@.len(),
            n == b@.len(),
            i <= n,
            forall|k: int| 0 <= k < i ==> a@[k] == b@[k],
        decreases n - i,
    {
        if a.get_char(i) != b.get_char(i) {
            return false;
        }
        i = i + 1;
    }
    assert(a@ =~= b@);
    true
}

} // verus!
