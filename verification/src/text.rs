//! Character-level string operations with exact contracts.
use vstd::prelude::*;
use vstd::string::*;

verus! {

/// Whether `c` has the Unicode `White_Space` property (Unicode's
/// `PropList.txt`), which is what `char::is_whitespace` reports: the 25 code
/// points U+0009 to U+000D, U+0020, U+0085, U+00A0, U+1680, U+2000 to U+200A,
/// U+2028, U+2029, U+202F, U+205F and U+3000.
pub open spec fn is_white_space(c: char) -> bool {
    ||| '\u{9}' <= c <= '\u{D}'
    ||| c == '\u{20}'
    ||| c == '\u{85}'
    ||| c == '\u{A0}'
    ||| c == '\u{1680}'
    ||| '\u{2000}' <= c <= '\u{200A}'
    ||| c == '\u{2028}'
    ||| c == '\u{2029}'
    ||| c == '\u{202F}'
    ||| c == '\u{205F}'
    ||| c == '\u{3000}'
}

/// Calls `char::is_whitespace`, which is true exactly of the characters with
/// the `White_Space` property, as `is_white_space` lists them.
#[verifier::external_body]
pub(crate) fn char_is_whitespace(c: char) -> (res: bool)
    ensures
        res == is_white_space(c),
{
    c.is_whitespace()
}

/// `s` with its leading whitespace removed.
pub open spec fn trim_start_spec(s: Seq<char>) -> Seq<char>
    decreases s.len(),
{
    if s.len() > 0 && is_white_space(s[0]) {
        trim_start_spec(s.drop_first())
    } else {
        s
    }
}

/// `s` with its trailing whitespace removed.
pub open spec fn trim_end_spec(s: Seq<char>) -> Seq<char>
    decreases s.len(),
{
    if s.len() > 0 && is_white_space(s.last()) {
        trim_end_spec(s.drop_last())
    } else {
        s
    }
}

/// `s` with leading and trailing whitespace removed.
pub open spec fn trim_spec(s: Seq<char>) -> Seq<char> {
    trim_end_spec(trim_start_spec(s))
}

/// Length of the run of non-whitespace characters at the start of `s`.
pub open spec fn word_len(s: Seq<char>) -> nat
    decreases s.len(),
{
    if s.len() == 0 || is_white_space(s[0]) {
        0
    } else {
        1 + word_len(s.drop_first())
    }
}

/// The first whitespace-separated word of `s` (empty when `s` is blank).
pub open spec fn first_word_spec(s: Seq<char>) -> Seq<char> {
    let t = trim_start_spec(s);
    t.take(word_len(t) as int)
}

proof fn lemma_trim_start_skip(s: Seq<char>, i: int)
    requires
        0 <= i < s.len(),
        is_white_space(s[i]),
    ensures
        trim_start_spec(s.skip(i)) == trim_start_spec(s.skip(i + 1)),
{
    assert(s.skip(i).drop_first() =~= s.skip(i + 1));
}

proof fn lemma_trim_end_take(s: Seq<char>, j: int)
    requires
        0 < j <= s.len(),
        is_white_space(s[j - 1]),
    ensures
        trim_end_spec(s.take(j)) == trim_end_spec(s.take(j - 1)),
{
    assert(s.take(j).drop_last() =~= s.take(j - 1));
}

proof fn lemma_word_len_bound(s: Seq<char>)
    ensures
        word_len(s) <= s.len(),
        forall|k: int| 0 <= k < word_len(s) ==> !is_white_space(#[trigger] s[k]),
        word_len(s) < s.len() ==> is_white_space(s[word_len(s) as int]),
    decreases s.len(),
{
    if s.len() > 0 && !is_white_space(s[0]) {
        lemma_word_len_bound(s.drop_first());
        assert forall|k: int| 0 <= k < word_len(s) implies !is_white_space(#[trigger] s[k]) by {
            if k > 0 {
                assert(s[k] == s.drop_first()[k - 1]);
            }
        }
    }
}

proof fn lemma_word_len_skip(s: Seq<char>, i: int)
    requires
        0 <= i < s.len(),
        !is_white_space(s[i]),
    ensures
        word_len(s.skip(i)) == 1 + word_len(s.skip(i + 1)),
{
    assert(s.skip(i).drop_first() =~= s.skip(i + 1));
}

/// Removing leading whitespace leaves a suffix of `s` that is empty or
/// starts with a non-whitespace character.
pub proof fn lemma_trim_start_props(s: Seq<char>)
    ensures
        trim_start_spec(s).len() <= s.len(),
        trim_start_spec(s) =~= s.skip(s.len() - trim_start_spec(s).len()),
        trim_start_spec(s).len() > 0 ==> !is_white_space(trim_start_spec(s)[0]),
    decreases s.len(),
{
    if s.len() > 0 && is_white_space(s[0]) {
        lemma_trim_start_props(s.drop_first());
    }
}

/// Removing trailing whitespace leaves a prefix of `s` that is empty or ends
/// with a non-whitespace character.
pub proof fn lemma_trim_end_props(s: Seq<char>)
    ensures
        trim_end_spec(s).len() <= s.len(),
        trim_end_spec(s) =~= s.take(trim_end_spec(s).len() as int),
        trim_end_spec(s).len() > 0 ==> !is_white_space(trim_end_spec(s).last()),
    decreases s.len(),
{
    if s.len() > 0 && is_white_space(s.last()) {
        lemma_trim_end_props(s.drop_last());
    }
}

/// A trimmed text that is not empty starts and ends with non-whitespace.
pub proof fn lemma_trim_ends(s: Seq<char>)
    ensures
        trim_spec(s).len() > 0 ==> !is_white_space(trim_spec(s)[0]) && !is_white_space(
            trim_spec(s).last(),
        ),
{
    let t = trim_start_spec(s);
    lemma_trim_start_props(s);
    lemma_trim_end_props(t);
    if trim_spec(s).len() > 0 {
        assert(trim_spec(s)[0] == t[0]);
    }
}

/// A text that is empty or starts with non-whitespace has no leading
/// whitespace to remove.
pub proof fn lemma_trim_start_noop(s: Seq<char>)
    requires
        s.len() > 0 ==> !is_white_space(s[0]),
    ensures
        trim_start_spec(s) == s,
{
}

/// A text that is empty or ends with non-whitespace has no trailing
/// whitespace to remove.
pub proof fn lemma_trim_end_noop(s: Seq<char>)
    requires
        s.len() > 0 ==> !is_white_space(s.last()),
    ensures
        trim_end_spec(s) == s,
{
}

/// Trimming is idempotent: a trimmed text trims to itself.
pub proof fn law_trim_idempotent(s: Seq<char>)
    ensures
        trim_spec(trim_spec(s)) == trim_spec(s),
{
    let t = trim_spec(s);
    lemma_trim_ends(s);
    lemma_trim_start_noop(t);
    lemma_trim_end_noop(t);
}

/// The first word of a text that starts with non-whitespace is a non-empty
/// prefix of it without whitespace.
pub proof fn lemma_first_word_of_line(s: Seq<char>)
    requires
        s.len() > 0,
        !is_white_space(s[0]),
    ensures
        first_word_spec(s).len() > 0,
        first_word_spec(s).is_prefix_of(s),
        forall|k: int| 0 <= k < first_word_spec(s).len() ==> !is_white_space(
            #[trigger] first_word_spec(s)[k],
        ),
{
    lemma_trim_start_noop(s);
    lemma_word_len_bound(s);
    assert(word_len(s) == 1 + word_len(s.drop_first()));
    let w = first_word_spec(s);
    assert forall|k: int| 0 <= k < w.len() implies !is_white_space(#[trigger] w[k]) by {
        assert(w[k] == s[k]);
    }
}

/// Index of the first non-whitespace character of `s`, or its length.
fn leading_white_space(s: &str) -> (i: usize)
    ensures
        i <= s@.len(),
        trim_start_spec(s@) == s@.skip(i as int),
        forall|k: int| 0 <= k < i ==> is_white_space(#[trigger] s@[k]),
        i < s@.len() ==> !is_white_space(s@[i as int]),
{
    let n = s.unicode_len();
    let mut i: usize = 0;
    assert(s@.skip(0) =~= s@);
    while i < n && char_is_whitespace(s.get_char(i))
        invariant
            n == s@.len(),
            i <= n,
            trim_start_spec(s@) == trim_start_spec(s@.skip(i as int)),
            forall|k: int| 0 <= k < i ==> is_white_space(#[trigger] s@[k]),
        decreases n - i,
    {
        proof {
            lemma_trim_start_skip(s@, i as int);
        }
        i = i + 1;
    }
    if i < n {
        assert(s@.skip(i as int)[0] == s@[i as int]);
    } else {
        assert(s@.skip(i as int).len() == 0);
    }
    i
}

/// Removes leading and trailing whitespace, as `str::trim` does.
pub fn trim(s: &str) -> (res: String)
    ensures
        res@ == trim_spec(s@),
{
    let i = leading_white_space(s);
    let n = s.unicode_len();
    let mut j: usize = n;
    let ghost t = s@.skip(i as int);
    assert(t.take(t.len() as int) =~= t);
    while j > i && char_is_whitespace(s.get_char(j - 1))
        invariant
            n == s@.len(),
            i <= j <= n,
            t == s@.skip(i as int),
            trim_end_spec(t) == trim_end_spec(t.take(j - i)),
        decreases j,
    {
        proof {
            assert(t[j - i - 1] == s@[j - 1]);
            lemma_trim_end_take(t, j - i);
        }
        j = j - 1;
    }
    proof {
        if j > i {
            assert(t.take(j - i).last() == s@[j - 1]);
        }
        assert(t.take(j - i) =~= s@.subrange(i as int, j as int));
    }
    s.substring_char(i, j).to_owned()
}

/// The first whitespace-separated word of `s`, as the first item of
/// `str::split_whitespace`.
pub fn first_word(s: &str) -> (res: String)
    ensures
        res@ == first_word_spec(s@),
{
    let i = leading_white_space(s);
    let n = s.unicode_len();
    let mut j: usize = i;
    let ghost t = s@.skip(i as int);
    while j < n && !char_is_whitespace(s.get_char(j))
        invariant
            n == s@.len(),
            i <= j <= n,
            t == s@.skip(i as int),
            word_len(t) == (j - i) + word_len(s@.skip(j as int)),
        decreases n - j,
    {
        proof {
            lemma_word_len_skip(s@, j as int);
        }
        j = j + 1;
    }
    proof {
        if j < n {
            assert(s@.skip(j as int)[0] == s@[j as int]);
        }
        assert(t.take(j - i) =~= s@.subrange(i as int, j as int));
    }
    s.substring_char(i, j).to_owned()
}

/// Whether `prefix` is a prefix of `s`, as `str::starts_with` reports it.
pub fn starts_with(s: &str, prefix: &str) -> (res: bool)
    ensures
        res == prefix@.is_prefix_of(s@),
{
    let n = s.unicode_len();
    let m = prefix.unicode_len();
    if m > n {
        return false;
    }
    let mut k: usize = 0;
    while k < m
        invariant
            n == s@.len(),
            m == prefix@.len(),
            m <= n,
            k <= m,
            forall|x: int| 0 <= x < k ==> prefix@[x] == s@[x],
        decreases m - k,
    {
        if prefix.get_char(k) != s.get_char(k) {
            return false;
        }
        k = k + 1;
    }
    assert(prefix@ =~= s@.subrange(0, m as int));
    true
}

/// Whether `a` and `b` hold the same characters.
pub fn str_eq(a: &str, b: &str) -> (res: bool)
    ensures
        res == (a@ == b@),
{
    let n = a.unicode_len();
    let m = b.unicode_len();
    if n != m {
        return false;
    }
    let mut k: usize = 0;
    while k < n
        invariant
            n == a@.len(),
            m == b@.len(),
            n == m,
            k <= n,
            forall|x: int| 0 <= x < k ==> a@[x] == b@[x],
        decreases n - k,
    {
        if a.get_char(k) != b.get_char(k) {
            return false;
        }
        k = k + 1;
    }
    assert(a@ =~= b@);
    true
}

} // verus!
