use vstd::prelude::*;
use vstd::string::*;

verus! {

/// The characters with the Unicode `White_Space` property, which is what
/// `char::is_whitespace` and `str::trim` treat as whitespace.
pub open spec fn is_space(c: char) -> bool {
    ||| '\u{0009}' <= c <= '\u{000D}'
    ||| c == ' '
    ||| c == '\u{0085}'
    ||| c == '\u{00A0}'
    ||| c == '\u{1680}'
    ||| '\u{2000}' <= c <= '\u{200A}'
    ||| c == '\u{2028}'
    ||| c == '\u{2029}'
    ||| c == '\u{202F}'
    ||| c == '\u{205F}'
    ||| c == '\u{3000}'
}

/// `s` without its leading characters that are `c`.
pub open spec fn strip_leading(s: Seq<char>, c: char) -> Seq<char>
    decreases s.len(),
{
    if s.len() > 0 && s[0] == c {
        strip_leading(s.drop_first(), c)
    } else {
        s
    }
}

/// `s` without its trailing characters that are `c`.
pub open spec fn strip_trailing(s: Seq<char>, c: char) -> Seq<char>
    decreases s.len(),
{
    if s.len() > 0 && s.last() == c {
        strip_trailing(s.drop_last(), c)
    } else {
        s
    }
}

/// `s` without its leading whitespace.
pub open spec fn strip_leading_space(s: Seq<char>) -> Seq<char>
    decreases s.len(),
{
    if s.len() > 0 && is_space(s[0]) {
        strip_leading_space(s.drop_first())
    } else {
        s
    }
}

/// `s` without its trailing whitespace.
pub open spec fn strip_trailing_space(s: Seq<char>) -> Seq<char>
    decreases s.len(),
{
    if s.len() > 0 && is_space(s.last()) {
        strip_trailing_space(s.drop_last())
    } else {
        s
    }
}

/// `s` without leading and trailing whitespace.
pub open spec fn trimmed(s: Seq<char>) -> Seq<char> {
    strip_trailing_space(strip_leading_space(s))
}

/// Every occurrence of `from` in `s`, scanned left to right without overlap,
/// replaced by `to`.
pub open spec fn replace_all(s: Seq<char>, from: Seq<char>, to: Seq<char>) -> Seq<char>
    decreases s.len(),
{
    if s.len() == 0 || from.len() == 0 {
        s
    } else if from.len() <= s.len() && s.take(from.len() as int) == from {
        to + replace_all(s.skip(from.len() as int), from, to)
    } else {
        seq![s[0]] + replace_all(s.drop_first(), from, to)
    }
}

pub open spec fn is_prefix(p: Seq<char>, s: Seq<char>) -> bool {
    p.len() <= s.len() && s.take(p.len() as int) == p
}

pub open spec fn is_suffix(p: Seq<char>, s: Seq<char>) -> bool {
    p.len() <= s.len() && s.skip(s.len() - p.len()) == p
}

/// The characters of `s`, in order.
pub fn chars_of(s: &str) -> (r: Vec<char>)
    ensures
        r@ == s@,
{
    let n = s.unicode_len();
    let mut v: Vec<char> = Vec::new();
    let mut i: usize = 0;
    while i < n
        invariant
            n == s@.len(),
            i <= n,
            v@ == s@.take(i as int),
        decreases n - i,
    {
        let c = s.get_char(i);
        v.push(c);
        i = i + 1;
        assert(v@ =~= s@.take(i as int));
    }
    assert(v@ =~= s@);
    v
}

/// Whether two sequences of characters are equal.
pub fn seq_eq(a: &Vec<char>, b: &Vec<char>) -> (r: bool)
    ensures
        r == (a@ == b@),
{
    if a.len() != b.len() {
        return false;
    }
    let mut i: usize = 0;
    while i < a.len()
        invariant
            a@.len() == b@.len(),
            i <= a@.len(),
            forall|k: int| 0 <= k < i ==> a@[k] == b@[k],
        decreases a.len() - i,
    {
        if a[i] != b[i] {
            return false;
        }
        i = i + 1;
    }
    assert(a@ =~= b@);
    true
}

/// Whether two strings hold the same characters.
pub fn text_eq(a: &str, b: &str) -> (r: bool)
    ensures
        r == (a@ == b@),
{
    let va = chars_of(a);
    let vb = chars_of(b);
    seq_eq(&va, &vb)
}

/// Whether `p` occurs in `s` at character position `at`.
fn matches_at(s: &Vec<char>, p: &Vec<char>, at: usize) -> (r: bool)
    requires
        at <= s@.len(),
    ensures
        r == (p@.len() <= s@.len() - at && s@.subrange(at as int, at + p@.len()) == p@),
{
    if p.len() > s.len() - at {
        return false;
    }
    let mut k: usize = 0;
    while k < p.len()
        invariant
            at + p@.len() <= s@.len(),
            k <= p@.len(),
            forall|j: int| 0 <= j < k ==> s@[at + j] == p@[j],
        decreases p.len() - k,
    {
        assert(at + k < s.len());
        if s[at + k] != p[k] {
            assert(s@.subrange(at as int, at + p@.len())[k as int] != p@[k as int]);
            return false;
        }
        k = k + 1;
    }
    assert(s@.subrange(at as int, at + p@.len()) =~= p@);
    true
}

/// Whether `s` begins with `p`.
pub fn has_prefix(s: &str, p: &str) -> (r: bool)
    ensures
        r == is_prefix(p@, s@),
{
    let vs = chars_of(s);
    let vp = chars_of(p);
    let r = matches_at(&vs, &vp, 0);
    assert(r ==> s@.take(p@.len() as int) =~= s@.subrange(0, p@.len() as int));
    assert(is_prefix(p@, s@) ==> s@.take(p@.len() as int) =~= s@.subrange(0, p@.len() as int));
    r
}

/// Whether `s` ends with `p`.
pub fn has_suffix(s: &str, p: &str) -> (r: bool)
    ensures
        r == is_suffix(p@, s@),
{
    let vs = chars_of(s);
    let vp = chars_of(p);
    if vp.len() > vs.len() {
        return false;
    }
    let at = vs.len() - vp.len();
    let r = matches_at(&vs, &vp, at);
    assert(s@.skip(at as int) =~= s@.subrange(at as int, at + p@.len()));
    r
}

proof fn lemma_strip_leading(s: Seq<char>, c: char, i: int)
    requires
        0 <= i <= s.len(),
        forall|k: int| 0 <= k < i ==> s[k] == c,
        i == s.len() || s[i] != c,
    ensures
        strip_leading(s, c) == s.skip(i),
    decreases i,
{
    if i > 0 {
        lemma_strip_leading(s.drop_first(), c, i - 1);
        assert(s.drop_first().skip(i - 1) =~= s.skip(i));
    } else {
        assert(s.skip(0) =~= s);
    }
}

proof fn lemma_strip_trailing(s: Seq<char>, c: char, j: int)
    requires
        0 <= j <= s.len(),
        forall|k: int| j <= k < s.len() ==> s[k] == c,
        j == 0 || s[j - 1] != c,
    ensures
        strip_trailing(s, c) == s.take(j),
    decreases s.len() - j,
{
    if j < s.len() {
        lemma_strip_trailing(s.drop_last(), c, j);
        assert(s.drop_last().take(j) =~= s.take(j));
    } else {
        assert(s.take(j) =~= s);
    }
}

pub proof fn lemma_strip_leading_space(s: Seq<char>, i: int)
    requires
        0 <= i <= s.len(),
        forall|k: int| 0 <= k < i ==> is_space(s[k]),
        i == s.len() || !is_space(s[i]),
    ensures
        strip_leading_space(s) == s.skip(i),
    decreases i,
{
    if i > 0 {
        lemma_strip_leading_space(s.drop_first(), i - 1);
        assert(s.drop_first().skip(i - 1) =~= s.skip(i));
    } else {
        assert(s.skip(0) =~= s);
    }
}

proof fn lemma_strip_trailing_space(s: Seq<char>, j: int)
    requires
        0 <= j <= s.len(),
        forall|k: int| j <= k < s.len() ==> is_space(s[k]),
        j == 0 || !is_space(s[j - 1]),
    ensures
        strip_trailing_space(s) == s.take(j),
    decreases s.len() - j,
{
    if j < s.len() {
        lemma_strip_trailing_space(s.drop_last(), j);
        assert(s.drop_last().take(j) =~= s.take(j));
    } else {
        assert(s.take(j) =~= s);
    }
}

/// Whether `c` has the Unicode `White_Space` property.
pub fn char_is_space(c: char) -> (r: bool)
    ensures
        r == is_space(c),
{
    ('\u{0009}' <= c && c <= '\u{000D}') || c == ' ' || c == '\u{0085}' || c == '\u{00A0}'
        || c == '\u{1680}' || ('\u{2000}' <= c && c <= '\u{200A}') || c == '\u{2028}' || c
        == '\u{2029}' || c == '\u{202F}' || c == '\u{205F}' || c == '\u{3000}'
}

/// `s` without leading and trailing whitespace.
pub fn trim_space(s: &str) -> (r: &str)
    ensures
        r@ == trimmed(s@),
{
    let v = chars_of(s);
    let n = v.len();
    let mut i: usize = 0;
    while i < n && char_is_space(v[i])
        invariant
            n == v@.len(),
            v@ == s@,
            i <= n,
            forall|k: int| 0 <= k < i ==> is_space(v@[k]),
        decreases n - i,
    {
        i = i + 1;
    }
    proof {
        lemma_strip_leading_space(s@, i as int);
    }
    let mut j: usize = n;
    while j > i && char_is_space(v[j - 1])
        invariant
            n == v@.len(),
            v@ == s@,
            i <= j <= n,
            forall|k: int| j <= k < n ==> is_space(v@[k]),
        decreases j - i,
    {
        j = j - 1;
    }
    proof {
        let t = s@.skip(i as int);
        assert forall|k: int| j - i <= k < t.len() implies is_space(t[k]) by {
            assert(t[k] == s@[k + i]);
        }
        if j > i {
            assert(t[j - i - 1] == s@[j - 1]);
        }
        lemma_strip_trailing_space(t, j - i);
        assert(t.take(j - i) =~= s@.subrange(i as int, j as int));
    }
    s.substring_char(i, j)
}

/// `s` without its leading characters that are `c`.
pub fn trim_start_char(s: &str, c: char) -> (r: &str)
    ensures
        r@ == strip_leading(s@, c),
{
    let v = chars_of(s);
    let n = v.len();
    let mut i: usize = 0;
    while i < n && v[i] == c
        invariant
            n == v@.len(),
            v@ == s@,
            i <= n,
            forall|k: int| 0 <= k < i ==> v@[k] == c,
        decreases n - i,
    {
        i = i + 1;
    }
    proof {
        lemma_strip_leading(s@, c, i as int);
        assert(s@.skip(i as int) =~= s@.subrange(i as int, n as int));
    }
    s.substring_char(i, n)
}

/// `s` without its trailing characters that are `c`.
pub fn trim_end_char(s: &str, c: char) -> (r: &str)
    ensures
        r@ == strip_trailing(s@, c),
{
    let v = chars_of(s);
    let n = v.len();
    let mut j: usize = n;
    while j > 0 && v[j - 1] == c
        invariant
            n == v@.len(),
            v@ == s@,
            j <= n,
            forall|k: int| j <= k < n ==> v@[k] == c,
        decreases j,
    {
        j = j - 1;
    }
    proof {
        lemma_strip_trailing(s@, c, j as int);
        assert(s@.take(j as int) =~= s@.subrange(0, j as int));
    }
    s.substring_char(0, j)
}

/// A new string holding the characters of `a` followed by those of `b`.
pub fn join2(a: &str, b: &str) -> (r: String)
    ensures
        r@ == a@ + b@,
{
    let mut r = String::from_str(a);
    r.append(b);
    r
}

/// A new string holding the characters of `a`, `b` and `c` in turn.
pub fn join3(a: &str, b: &str, c: &str) -> (r: String)
    ensures
        r@ == a@ + b@ + c@,
{
    let mut r = String::from_str(a);
    r.append(b);
    r.append(c);
    r
}

/// Replaces every occurrence of `from` in `s` by `to`, left to right.
pub fn replace_text(s: &str, from: &str, to: &str) -> (r: String)
    requires
        from@.len() > 0,
    ensures
        r@ == replace_all(s@, from@, to@),
{
    let vs = chars_of(s);
    let vf = chars_of(from);
    let n = vs.len();
    let mut out = String::new();
    let mut last: usize = 0;
    let mut i: usize = 0;
    assert(s@.skip(0) =~= s@);
    assert(out@ + s@.subrange(0, 0) + replace_all(s@.skip(0), from@, to@) =~= replace_all(s@, from@, to@));
    while i < n
        invariant
            vs@ == s@,
            vf@ == from@,
            from@.len() > 0,
            n == s@.len(),
            last <= i <= n,
            out@ + s@.subrange(last as int, i as int) + replace_all(s@.skip(i as int), from@, to@)
                == replace_all(s@, from@, to@),
        decreases n - i,
    {
        let ghost rest = s@.skip(i as int);
        if matches_at(&vs, &vf, i) {
            proof {
                assert(rest.take(from@.len() as int) =~= s@.subrange(i as int, i + from@.len()));
                assert(rest.skip(from@.len() as int) =~= s@.skip(i + from@.len()));
            }
            out.append(s.substring_char(last, i));
            out.append(to);
            i = i + vf.len();
            last = i;
            proof {
                assert(s@.subrange(last as int, i as int) =~= Seq::<char>::empty());
            }
            assert(out@ + s@.subrange(last as int, i as int) + replace_all(s@.skip(i as int), from@, to@)
                =~= replace_all(s@, from@, to@));
        } else {
            proof {
                if from@.len() <= rest.len() {
                    assert(rest.take(from@.len() as int) =~= s@.subrange(i as int, i + from@.len()));
                }
                assert(rest.drop_first() =~= s@.skip(i + 1));
                assert(s@.subrange(last as int, i + 1) =~= s@.subrange(last as int, i as int).push(rest[0]));
            }
            i = i + 1;
            assert(out@ + s@.subrange(last as int, i as int) + replace_all(s@.skip(i as int), from@, to@)
                =~= replace_all(s@, from@, to@));
        }
    }
    assert(s@.skip(n as int) =~= Seq::<char>::empty());
    out.append(s.substring_char(last, n));
    assert(out@ =~= replace_all(s@, from@, to@));
    out
}

} // verus!
