//! Character-level text processing: the whitespace, trimming, splitting,
//! prefix and replacement rules of Rust's `str`, stated over `Seq<char>`
//! and implemented on `char` slices.

use vstd::prelude::*;

verus! {

/// Unicode `White_Space`, the set that `char::is_whitespace` accepts.
pub open spec fn is_ws(c: char) -> bool {
    let u = c as u32;
    ||| 0x09 <= u <= 0x0D
    ||| u == 0x20
    ||| u == 0x85
    ||| u == 0xA0
    ||| u == 0x1680
    ||| 0x2000 <= u <= 0x200A
    ||| u == 0x2028
    ||| u == 0x2029
    ||| u == 0x202F
    ||| u == 0x205F
    ||| u == 0x3000
}

/// Among ASCII characters, exactly space, tab, line feed, vertical tab, form
/// feed and carriage return are whitespace.
pub proof fn lemma_ascii_whitespace(c: char)
    requires
        (c as u32) < 0x80,
    ensures
        is_ws(c) <==> (c == ' ' || c == '\t' || c == '\n' || c == '\x0B' || c == '\x0C' || c
            == '\r'),
{
}

/// Whether `c` is whitespace in the sense of `char::is_whitespace`.
pub fn is_whitespace(c: char) -> (r: bool)
    ensures
        r == is_ws(c),
{
    let u = c as u32;
    (0x09 <= u && u <= 0x0D) || u == 0x20 || u == 0x85 || u == 0xA0 || u == 0x1680 || (0x2000
        <= u && u <= 0x200A) || u == 0x2028 || u == 0x2029 || u == 0x202F || u == 0x205F || u
        == 0x3000
}

/// The characters of a string slice.
pub fn chars_of(s: &str) -> (r: Vec<char>)
    ensures
        r@ == s@,
{
    let mut out: Vec<char> = Vec::new();
    for c in it: s.chars()
        invariant
            out@ == it.seq().take(it.index() as int),
            it.seq() == s@,
    {
        out.push(c);
    }
    out
}

/// Appends one character to a `String`.
#[verifier::external_body]
pub(crate) fn push_char(s: &mut String, c: char)
    ensures
        final(s)@ == old(s)@.push(c),
{
    s.push(c);
}

/// Appends a run of characters to a `String`.
pub fn push_chars(s: &mut String, cs: &[char])
    ensures
        final(s)@ == old(s)@ + cs@,
{
    let mut i: usize = 0;
    while i < cs.len()
        invariant
            i <= cs@.len(),
            s@ == old(s)@ + cs@.take(i as int),
        decreases cs@.len() - i,
    {
        push_char(s, cs[i]);
        i = i + 1;
        assert(cs@.take(i as int) =~= cs@.take((i - 1) as int).push(cs@[i - 1]));
    }
    assert(cs@.take(cs@.len() as int) =~= cs@);
}

/// A `String` holding exactly the given characters.
pub fn string_of(cs: &[char]) -> (r: String)
    ensures
        r@ == cs@,
{
    let mut s = String::new();
    push_chars(&mut s, cs);
    s
}

/// `s` without its leading whitespace (`str::trim_start`).
pub open spec fn trim_start(s: Seq<char>) -> Seq<char>
    decreases s.len(),
{
    if s.len() > 0 && is_ws(s[0]) {
        trim_start(s.drop_first())
    } else {
        s
    }
}

/// `s` without its trailing whitespace (`str::trim_end`).
pub open spec fn trim_end(s: Seq<char>) -> Seq<char>
    decreases s.len(),
{
    if s.len() > 0 && is_ws(s.last()) {
        trim_end(s.drop_last())
    } else {
        s
    }
}

/// `s` without leading and trailing whitespace (`str::trim`).
pub open spec fn trim(s: Seq<char>) -> Seq<char> {
    trim_end(trim_start(s))
}

proof fn lemma_trim_start_skip(s: Seq<char>, i: int)
    requires
        0 <= i <= s.len(),
        forall|k: int| 0 <= k < i ==> is_ws(#[trigger] s[k]),
    ensures
        trim_start(s) == trim_start(s.skip(i)),
    decreases i,
{
    if i > 0 {
        assert(s.skip(1) =~= s.drop_first());
        assert(s.drop_first().skip(i - 1) =~= s.skip(i));
        lemma_trim_start_skip(s.drop_first(), i - 1);
    } else {
        assert(s.skip(0) =~= s);
    }
}

proof fn lemma_trim_end_take(s: Seq<char>, j: int)
    requires
        0 <= j <= s.len(),
        forall|k: int| j <= k < s.len() ==> is_ws(#[trigger] s[k]),
    ensures
        trim_end(s) == trim_end(s.take(j)),
    decreases s.len() - j,
{
    if j < s.len() {
        assert(s.take(s.len() - 1) =~= s.drop_last());
        assert(s.drop_last().take(j) =~= s.take(j));
        lemma_trim_end_take(s.drop_last(), j);
    } else {
        assert(s.take(j) =~= s);
    }
}

/// Trimming takes off exactly the whitespace around the text: a middle part
/// that is empty or begins and ends with a non-whitespace character is what
/// remains of it surrounded by any whitespace.
pub proof fn lemma_trim_surrounded(a: Seq<char>, m: Seq<char>, b: Seq<char>)
    requires
        forall|k: int| 0 <= k < a.len() ==> is_ws(#[trigger] a[k]),
        forall|k: int| 0 <= k < b.len() ==> is_ws(#[trigger] b[k]),
        m.len() > 0 ==> !is_ws(m[0]) && !is_ws(m.last()),
    ensures
        trim(a + m + b) == m,
{
    let s = a + m + b;
    assert forall|k: int| 0 <= k < a.len() implies is_ws(#[trigger] s[k]) by {
        assert(s[k] == a[k]);
    }
    lemma_trim_start_skip(s, a.len() as int);
    let t = m + b;
    assert(s.skip(a.len() as int) =~= t);
    if m.len() == 0 {
        assert forall|k: int| 0 <= k < t.len() implies is_ws(#[trigger] t[k]) by {
            assert(t[k] == b[k]);
        }
        lemma_trim_start_skip(t, t.len() as int);
        assert(t.skip(t.len() as int) =~= Seq::<char>::empty());
        assert(trim_start(t.skip(t.len() as int)) == Seq::<char>::empty());
        assert(trim_end(Seq::<char>::empty()) == Seq::<char>::empty());
        assert(m =~= Seq::<char>::empty());
    } else {
        assert(t[0] == m[0]);
        assert(trim_start(t) == t);
        assert forall|k: int| m.len() <= k < t.len() implies is_ws(#[trigger] t[k]) by {
            assert(t[k] == b[k - m.len()]);
        }
        lemma_trim_end_take(t, m.len() as int);
        assert(t.take(m.len() as int) =~= m);
        assert(trim_end(m) == m);
    }
}

/// The characters of `s` without leading and trailing whitespace.
pub fn trim_chars(s: &[char]) -> (r: Vec<char>)
    ensures
        r@ == trim(s@),
{
    let n = s.len();
    let mut i: usize = 0;
    while i < n && is_whitespace(s[i])
        invariant
            i <= n,
            n == s@.len(),
            forall|k: int| 0 <= k < i ==> is_ws(#[trigger] s@[k]),
        decreases n - i,
    {
        i = i + 1;
    }
    proof {
        lemma_trim_start_skip(s@, i as int);
    }
    let ghost t = s@.skip(i as int);
    assert(trim_start(t) == t);
    let mut j: usize = n;
    while j > i && is_whitespace(s[j - 1])
        invariant
            i <= j <= n,
            n == s@.len(),
            forall|k: int| j <= k < n ==> is_ws(#[trigger] s@[k]),
        decreases j,
    {
        j = j - 1;
    }
    proof {
        assert forall|k: int| (j - i) <= k < t.len() implies is_ws(#[trigger] t[k]) by {
            assert(t[k] == s@[k + i]);
        }
        lemma_trim_end_take(t, j - i);
        let u = t.take(j - i);
        if u.len() > 0 {
            assert(u.last() == s@[j - 1]);
        }
        assert(trim_end(u) == u);
    }
    let mut out: Vec<char> = Vec::new();
    let mut k: usize = i;
    while k < j
        invariant
            i <= k <= j <= n,
            n == s@.len(),
            out@ =~= s@.subrange(i as int, k as int),
        decreases j - k,
    {
        out.push(s[k]);
        k = k + 1;
    }
    assert(out@ =~= t.take(j - i));
    out
}

/// `s` begins with `p` (`str::starts_with`).
pub open spec fn starts_with(s: Seq<char>, p: Seq<char>) -> bool {
    p.len() <= s.len() && s.take(p.len() as int) == p
}

/// `s` ends with `p` (`str::ends_with`).
pub open spec fn ends_with(s: Seq<char>, p: Seq<char>) -> bool {
    p.len() <= s.len() && s.skip(s.len() - p.len()) == p
}

/// Whether `p` occurs in `s` at position `at`.
pub fn matches_at(s: &[char], at: usize, p: &[char]) -> (r: bool)
    requires
        at <= s@.len(),
    ensures
        r == starts_with(s@.skip(at as int), p@),
{
    if p.len() > s.len() - at {
        return false;
    }
    let mut k: usize = 0;
    while k < p.len()
        invariant
            k <= p@.len(),
            at + p@.len() <= s@.len(),
            s@.len() == s.len(),
            forall|m: int| 0 <= m < k ==> s@[at + m] == p@[m],
        decreases p@.len() - k,
    {
        if s[at + k] != p[k] {
            assert(s@.skip(at as int).take(p@.len() as int)[k as int] != p@[k as int]);
            return false;
        }
        k = k + 1;
    }
    assert(s@.skip(at as int).take(p@.len() as int) =~= p@);
    true
}

/// Whether `s` begins with `p`.
pub fn chars_start_with(s: &[char], p: &[char]) -> (r: bool)
    ensures
        r == starts_with(s@, p@),
{
    assert(s@.skip(0) =~= s@);
    matches_at(s, 0, p)
}

/// Whether `s` ends with `p`.
pub fn chars_end_with(s: &[char], p: &[char]) -> (r: bool)
    ensures
        r == ends_with(s@, p@),
{
    if p.len() > s.len() {
        return false;
    }
    let at = s.len() - p.len();
    let r = matches_at(s, at, p);
    assert(s@.skip(at as int).take(p@.len() as int) =~= s@.skip(at as int));
    r
}

/// Length of the run of non-whitespace characters at the start of `s`.
pub open spec fn word_len(s: Seq<char>) -> nat
    decreases s.len(),
{
    if s.len() == 0 || is_ws(s[0]) {
        0
    } else {
        1 + word_len(s.drop_first())
    }
}

pub proof fn lemma_word_len_bound(s: Seq<char>)
    ensures
        word_len(s) <= s.len(),
        s.len() > 0 && !is_ws(s[0]) ==> word_len(s) >= 1,
    decreases s.len(),
{
    if s.len() > 0 && !is_ws(s[0]) {
        lemma_word_len_bound(s.drop_first());
    }
}

/// The whitespace-separated words of `s` (`str::split_whitespace`).
pub open spec fn words(s: Seq<char>) -> Seq<Seq<char>>
    decreases s.len(),
{
    if s.len() == 0 {
        seq![]
    } else if is_ws(s[0]) {
        words(s.drop_first())
    } else {
        let n = word_len(s);
        proof {
            lemma_word_len_bound(s);
        }
        seq![s.take(n as int)] + words(s.skip(n as int))
    }
}

proof fn lemma_word_len_run(s: Seq<char>, j: int)
    requires
        0 <= j <= s.len(),
        forall|k: int| 0 <= k < j ==> !is_ws(#[trigger] s[k]),
        j == s.len() || is_ws(s[j]),
    ensures
        word_len(s) == j,
    decreases j,
{
    if j > 0 {
        lemma_word_len_run(s.drop_first(), j - 1);
    }
}

/// A run of non-whitespace characters is one word; leading whitespace is
/// skipped; a word ended by whitespace comes first, followed by the words of
/// the rest.
pub proof fn lemma_words_split(w: Seq<char>, c: char, s: Seq<char>)
    requires
        w.len() > 0,
        forall|k: int| 0 <= k < w.len() ==> !is_ws(#[trigger] w[k]),
        is_ws(c),
    ensures
        words(w) == seq![w],
        words(seq![c] + s) == words(s),
        words(w.push(c) + s) == seq![w] + words(s),
{
    lemma_word_len_run(w, w.len() as int);
    assert(w.take(w.len() as int) =~= w);
    assert(w.skip(w.len() as int) =~= Seq::<char>::empty());
    assert(!is_ws(w[0]));
    assert(words(Seq::<char>::empty()).len() == 0);
    assert(words(w) == seq![w.take(w.len() as int)] + words(w.skip(w.len() as int)));
    assert(words(w) =~= seq![w]);
    assert((seq![c] + s).drop_first() =~= s);
    let t = w.push(c) + s;
    assert forall|k: int| 0 <= k < w.len() implies !is_ws(#[trigger] t[k]) by {
        assert(t[k] == w[k]);
    }
    assert(t[w.len() as int] == c);
    lemma_word_len_run(t, w.len() as int);
    assert(t.take(w.len() as int) =~= w);
    assert(t.skip(w.len() as int) =~= seq![c] + s);
    assert(!is_ws(t[0]));
    assert(words(t) == seq![t.take(w.len() as int)] + words(t.skip(w.len() as int)));
}

/// The views of a sequence of character vectors.
pub open spec fn views(v: Seq<Vec<char>>) -> Seq<Seq<char>> {
    v.map_values(|w: Vec<char>| w@)
}

/// The whitespace-separated words of `s`.
pub fn split_whitespace(s: &[char]) -> (r: Vec<Vec<char>>)
    ensures
        views(r@) == words(s@),
{
    let n = s.len();
    let mut out: Vec<Vec<char>> = Vec::new();
    let mut i: usize = 0;
    assert(s@.skip(0) =~= s@);
    while i < n
        invariant
            i <= n,
            n == s@.len(),
            views(out@) + words(s@.skip(i as int)) == words(s@),
        decreases n - i,
    {
        let ghost t = s@.skip(i as int);
        if is_whitespace(s[i]) {
            assert(t.drop_first() =~= s@.skip(i + 1));
            i = i + 1;
        } else {
            let mut w: Vec<char> = Vec::new();
            let mut j: usize = i;
            while j < n && !is_whitespace(s[j])
                invariant
                    i <= j <= n,
                    n == s@.len(),
                    w@ =~= s@.subrange(i as int, j as int),
                    forall|k: int| i <= k < j ==> !is_ws(#[trigger] s@[k]),
                decreases n - j,
            {
                w.push(s[j]);
                j = j + 1;
            }
            proof {
                assert forall|k: int| 0 <= k < j - i implies !is_ws(#[trigger] t[k]) by {
                    assert(t[k] == s@[k + i]);
                }
                lemma_word_len_run(t, j - i);
                assert(t.take(j - i) =~= w@);
                assert(t.skip(j - i) =~= s@.skip(j as int));
                assert(views(out@.push(w)) =~= views(out@).push(w@));
                assert(views(out@) + words(t) =~= views(out@).push(w@) + words(s@.skip(j as int)));
            }
            out.push(w);
            i = j;
        }
    }
    assert(views(out@) + words(s@.skip(n as int)) =~= views(out@));
    out
}

/// Number of characters before the first line feed of `s` (all of `s` when it has none).
pub open spec fn line_len(s: Seq<char>) -> nat
    decreases s.len(),
{
    if s.len() == 0 || s[0] == '\n' {
        0
    } else {
        1 + line_len(s.drop_first())
    }
}

pub proof fn lemma_line_len_bound(s: Seq<char>)
    ensures
        line_len(s) <= s.len(),
        line_len(s) < s.len() ==> s[line_len(s) as int] == '\n',
    decreases s.len(),
{
    if s.len() > 0 && s[0] != '\n' {
        lemma_line_len_bound(s.drop_first());
    }
}

/// A line without the carriage return that ended it.
pub open spec fn strip_cr(l: Seq<char>) -> Seq<char> {
    if l.len() > 0 && l.last() == '\r' {
        l.drop_last()
    } else {
        l
    }
}

/// The lines of `s` (`str::lines`): split at `\n` or `\r\n`, with an optional
/// final line ending.
pub open spec fn lines(s: Seq<char>) -> Seq<Seq<char>>
    decreases s.len(),
{
    if s.len() == 0 {
        seq![]
    } else {
        let n = line_len(s);
        proof {
            lemma_line_len_bound(s);
        }
        if n < s.len() {
            seq![strip_cr(s.take(n as int))] + lines(s.skip(n as int + 1))
        } else {
            seq![s]
        }
    }
}

proof fn lemma_line_len_run(s: Seq<char>, j: int)
    requires
        0 <= j <= s.len(),
        forall|k: int| 0 <= k < j ==> #[trigger] s[k] != '\n',
        j == s.len() || s[j] == '\n',
    ensures
        line_len(s) == j,
    decreases j,
{
    if j > 0 {
        lemma_line_len_run(s.drop_first(), j - 1);
    }
}

/// Text without a line feed is one line; a line feed ends the first line,
/// without a carriage return just before it, and the lines after it are
/// those of the rest.
pub proof fn lemma_lines_split(a: Seq<char>, b: Seq<char>)
    requires
        !a.contains('\n'),
    ensures
        a.len() > 0 ==> lines(a) == seq![a],
        lines(a.push('\n') + b) == seq![strip_cr(a)] + lines(b),
{
    assert forall|k: int| 0 <= k < a.len() implies #[trigger] a[k] != '\n' by {
        if a[k] == '\n' {
            assert(a.contains('\n'));
        }
    }
    if a.len() > 0 {
        lemma_line_len_run(a, a.len() as int);
    }
    let s = a.push('\n') + b;
    assert forall|k: int| 0 <= k < a.len() implies #[trigger] s[k] != '\n' by {
        assert(s[k] == a[k]);
    }
    assert(s[a.len() as int] == '\n');
    lemma_line_len_run(s, a.len() as int);
    assert(s.take(a.len() as int) =~= a);
    assert(s.skip(a.len() as int + 1) =~= b);
}

/// The lines of `s`.
pub fn split_lines(s: &[char]) -> (r: Vec<Vec<char>>)
    ensures
        views(r@) == lines(s@),
{
    let n = s.len();
    let mut out: Vec<Vec<char>> = Vec::new();
    let mut i: usize = 0;
    assert(s@.skip(0) =~= s@);
    while i < n
        invariant
            i <= n,
            n == s@.len(),
            views(out@) + lines(s@.skip(i as int)) == lines(s@),
        decreases n - i,
    {
        let ghost t = s@.skip(i as int);
        let mut w: Vec<char> = Vec::new();
        let mut j: usize = i;
        while j < n && s[j] != '\n'
            invariant
                i <= j <= n,
                n == s@.len(),
                w@ =~= s@.subrange(i as int, j as int),
                forall|k: int| i <= k < j ==> #[trigger] s@[k] != '\n',
            decreases n - j,
        {
            w.push(s[j]);
            j = j + 1;
        }
        proof {
            assert forall|k: int| 0 <= k < j - i implies #[trigger] t[k] != '\n' by {
                assert(t[k] == s@[k + i]);
            }
            lemma_line_len_run(t, j - i);
            assert(t.take(j - i) =~= w@);
        }
        if j < n {
            let wl = w.len();
            if wl > 0 && w[wl - 1] == '\r' {
                w.pop();
            }
            proof {
                assert(w@ == strip_cr(t.take(j - i)));
                assert(t.skip(j - i + 1) =~= s@.skip(j + 1));
                assert(views(out@.push(w)) =~= views(out@).push(w@));
                assert(views(out@) + lines(t) =~= views(out@).push(w@) + lines(s@.skip(j + 1)));
            }
            out.push(w);
            i = j + 1;
        } else {
            proof {
                assert(t =~= w@);
                assert(views(out@.push(w)) =~= views(out@).push(w@));
                assert(views(out@) + lines(t) =~= views(out@).push(w@));
                assert(s@.skip(n as int) =~= Seq::<char>::empty());
            }
            out.push(w);
            i = n;
        }
    }
    assert(views(out@) + lines(s@.skip(n as int)) =~= views(out@));
    out
}

/// `s` with every non-overlapping occurrence of `p`, leftmost first,
/// replaced by `r` (`str::replace` for a non-empty pattern).
pub open spec fn replace(s: Seq<char>, p: Seq<char>, r: Seq<char>) -> Seq<char>
    recommends
        p.len() > 0,
    decreases s.len(),
{
    if s.len() == 0 || p.len() == 0 {
        s
    } else if starts_with(s, p) {
        r + replace(s.skip(p.len() as int), p, r)
    } else {
        seq![s[0]] + replace(s.drop_first(), p, r)
    }
}

/// Whether `p` occurs anywhere in `s`.
pub open spec fn occurs(s: Seq<char>, p: Seq<char>) -> bool {
    exists|i: int| 0 <= i <= s.len() && #[trigger] starts_with(s.skip(i), p)
}

/// Replacing a pattern that does not occur leaves the text unchanged.
pub proof fn lemma_replace_absent(s: Seq<char>, p: Seq<char>, r: Seq<char>)
    requires
        p.len() > 0,
        !occurs(s, p),
    ensures
        replace(s, p, r) == s,
    decreases s.len(),
{
    if s.len() > 0 {
        assert(s.skip(0) =~= s);
        assert(!starts_with(s.skip(0), p));
        let t = s.drop_first();
        assert forall|i: int| 0 <= i <= t.len() implies !#[trigger] starts_with(t.skip(i), p) by {
            assert(t.skip(i) =~= s.skip(i + 1));
            assert(!starts_with(s.skip(i + 1), p));
        }
        lemma_replace_absent(t, p, r);
        assert(seq![s[0]] + t =~= s);
    }
}

/// A text that lacks the first character of a non-empty pattern holds no
/// occurrence of it.
pub proof fn lemma_absent_first_char(s: Seq<char>, q: Seq<char>)
    requires
        q.len() > 0,
        !s.contains(q[0]),
    ensures
        !occurs(s, q),
{
    assert forall|i: int| 0 <= i <= s.len() implies !#[trigger] starts_with(s.skip(i), q) by {
        if starts_with(s.skip(i), q) {
            assert(s.skip(i).take(q.len() as int)[0] == q[0]);
            assert(s[i] == q[0]);
        }
    }
}

/// A pattern longer than a text does not occur in it.
pub proof fn lemma_absent_longer(s: Seq<char>, q: Seq<char>)
    requires
        q.len() > s.len(),
    ensures
        !occurs(s, q),
{
}

/// Replacement does not touch a prefix that lacks the pattern's first character.
pub proof fn lemma_replace_prefix(a: Seq<char>, t: Seq<char>, p: Seq<char>, r: Seq<char>)
    requires
        p.len() > 0,
        !a.contains(p[0]),
    ensures
        replace(a + t, p, r) == a + replace(t, p, r),
    decreases a.len(),
{
    if a.len() > 0 {
        let s = a + t;
        assert(s[0] == a[0]);
        if starts_with(s, p) {
            assert(s.take(p.len() as int)[0] == p[0]);
        }
        assert(s.drop_first() =~= a.drop_first() + t);
        assert forall|k: int| 0 <= k < a.drop_first().len() implies a.drop_first()[k] != p[0] by {
            assert(a.drop_first()[k] == a[k + 1]);
        }
        lemma_replace_prefix(a.drop_first(), t, p, r);
        assert(seq![a[0]] + (a.drop_first() + replace(t, p, r)) =~= a + replace(t, p, r));
    } else {
        assert(a + t =~= t);
        assert(a + replace(t, p, r) =~= replace(t, p, r));
    }
}

/// If the result of a replacement begins with `u`, so does the text, when
/// `r` does not occur in `u` and does not hold the last character of `u`.
proof fn lemma_replace_prefix_back(t: Seq<char>, p: Seq<char>, r: Seq<char>, u: Seq<char>)
    requires
        p.len() > 0,
        !occurs(u, r),
        u.len() > 0 ==> !r.contains(u.last()),
        starts_with(replace(t, p, r), u),
    ensures
        starts_with(t, u),
    decreases t.len(),
{
    if u.len() == 0 {
        assert(t.take(0) =~= u);
    } else if t.len() == 0 {
    } else {
        let rr = replace(t, p, r);
        if starts_with(t, p) {
            let rest = replace(t.skip(p.len() as int), p, r);
            assert(rr == r + rest);
            if u.len() <= r.len() {
                assert(rr.take(u.len() as int)[u.len() - 1] == u[u.len() - 1]);
                assert(r[u.len() - 1] == u.last());
            } else {
                assert(u.skip(0) =~= u);
                assert(u.take(r.len() as int) =~= rr.take(r.len() as int));
                assert(rr.take(r.len() as int) =~= r);
                assert(starts_with(u.skip(0), r));
            }
        } else {
            let rest = replace(t.drop_first(), p, r);
            assert(rr == seq![t[0]] + rest);
            let u2 = u.drop_first();
            assert(rr.take(u.len() as int)[0] == u[0]);
            assert(rest.take(u2.len() as int) =~= u2) by {
                assert forall|k: int| 0 <= k < u2.len() implies rest.take(u2.len() as int)[k]
                    == u2[k] by {
                    assert(rr.take(u.len() as int)[k + 1] == u[k + 1]);
                }
            }
            assert forall|i: int| 0 <= i <= u2.len() implies !#[trigger] starts_with(
                u2.skip(i),
                r,
            ) by {
                assert(u2.skip(i) =~= u.skip(i + 1));
                assert(!starts_with(u.skip(i + 1), r));
            }
            if u2.len() > 0 {
                assert(u2.last() == u.last());
            }
            lemma_replace_prefix_back(t.drop_first(), p, r, u2);
            assert(t.take(u.len() as int) =~= u) by {
                assert forall|k: int| 0 <= k < u.len() implies t.take(u.len() as int)[k]
                    == u[k] by {
                    if k > 0 {
                        assert(t.drop_first().take(u2.len() as int)[k - 1] == u2[k - 1]);
                    }
                }
            }
        }
    }
}

/// Replacement creates no occurrence of a pattern `q` when `r` holds neither
/// the first nor the last character of `q` and `r` does not occur in `q`:
/// every occurrence of `q` in the result was already in the text, and `q`
/// is not the replaced pattern itself.
pub proof fn lemma_replace_creates_no_occurrence(
    s: Seq<char>,
    p: Seq<char>,
    r: Seq<char>,
    q: Seq<char>,
)
    requires
        p.len() > 0,
        q.len() > 0,
        !occurs(q, r),
        !r.contains(q[0]),
        !r.contains(q.last()),
        occurs(replace(s, p, r), q),
    ensures
        occurs(s, q),
        q != p,
    decreases s.len(),
{
    let rr = replace(s, p, r);
    let i = choose|i: int| 0 <= i <= rr.len() && #[trigger] starts_with(rr.skip(i), q);
    if s.len() == 0 {
    } else if starts_with(s, p) {
        let s2 = s.skip(p.len() as int);
        let rest = replace(s2, p, r);
        assert(rr == r + rest);
        if i < r.len() {
            assert(rr.skip(i).take(q.len() as int)[0] == q[0]);
            assert(r[i] == q[0]);
        } else {
            assert(rest.skip(i - r.len()) =~= rr.skip(i));
            assert(starts_with(rest.skip(i - r.len()), q));
            lemma_replace_creates_no_occurrence(s2, p, r, q);
            let j = choose|j: int| 0 <= j <= s2.len() && #[trigger] starts_with(s2.skip(j), q);
            assert(s.skip(p.len() + j) =~= s2.skip(j));
            assert(starts_with(s.skip(p.len() + j), q));
        }
    } else {
        let s2 = s.drop_first();
        let rest = replace(s2, p, r);
        assert(rr == seq![s[0]] + rest);
        if i >= 1 {
            assert(rest.skip(i - 1) =~= rr.skip(i));
            assert(starts_with(rest.skip(i - 1), q));
            lemma_replace_creates_no_occurrence(s2, p, r, q);
            let j = choose|j: int| 0 <= j <= s2.len() && #[trigger] starts_with(s2.skip(j), q);
            assert(s.skip(j + 1) =~= s2.skip(j));
            assert(starts_with(s.skip(j + 1), q));
        } else {
            assert(rr.skip(0) =~= rr);
            let u2 = q.drop_first();
            assert(rr.take(q.len() as int)[0] == q[0]);
            assert(rest.take(u2.len() as int) =~= u2) by {
                assert forall|k: int| 0 <= k < u2.len() implies rest.take(u2.len() as int)[k]
                    == u2[k] by {
                    assert(rr.take(q.len() as int)[k + 1] == q[k + 1]);
                }
            }
            assert forall|k: int| 0 <= k <= u2.len() implies !#[trigger] starts_with(
                u2.skip(k),
                r,
            ) by {
                assert(u2.skip(k) =~= q.skip(k + 1));
                assert(!starts_with(q.skip(k + 1), r));
            }
            if u2.len() > 0 {
                assert(u2.last() == q.last());
            }
            lemma_replace_prefix_back(s2, p, r, u2);
            assert(s.take(q.len() as int) =~= q) by {
                assert forall|k: int| 0 <= k < q.len() implies s.take(q.len() as int)[k]
                    == q[k] by {
                    if k > 0 {
                        assert(s2.take(u2.len() as int)[k - 1] == u2[k - 1]);
                    }
                }
            }
            assert(s.skip(0) =~= s);
            assert(starts_with(s.skip(0), q));
        }
    }
}

/// A text that lacks some character of a pattern holds no occurrence of it.
pub proof fn lemma_absent_char(s: Seq<char>, q: Seq<char>, j: int)
    requires
        0 <= j < q.len(),
        !s.contains(q[j]),
    ensures
        !occurs(s, q),
{
    assert forall|i: int| 0 <= i <= s.len() implies !#[trigger] starts_with(s.skip(i), q) by {
        if starts_with(s.skip(i), q) {
            assert(s.skip(i).take(q.len() as int)[j] == q[j]);
            assert(s[i + j] == q[j]);
        }
    }
}

/// A character of a concatenation is a character of one of its parts.
pub proof fn lemma_contains_concat(a: Seq<char>, b: Seq<char>, c: char)
    ensures
        (a + b).contains(c) == (a.contains(c) || b.contains(c)),
{
    if (a + b).contains(c) {
        let i = choose|i: int| 0 <= i < (a + b).len() && (a + b)[i] == c;
        if i < a.len() {
            assert(a[i] == c);
        } else {
            assert(b[i - a.len()] == c);
        }
    }
    if a.contains(c) {
        let i = choose|i: int| 0 <= i < a.len() && a[i] == c;
        assert((a + b)[i] == c);
    }
    if b.contains(c) {
        let i = choose|i: int| 0 <= i < b.len() && b[i] == c;
        assert((a + b)[a.len() + i] == c);
    }
}

/// Trimming keeps only characters of the text.
pub proof fn lemma_trim_chars_of(s: Seq<char>, c: char)
    ensures
        trim(s).contains(c) ==> s.contains(c),
{
    lemma_trim_start_chars_of(s, c);
    lemma_trim_end_chars_of(trim_start(s), c);
}

proof fn lemma_trim_start_chars_of(s: Seq<char>, c: char)
    ensures
        trim_start(s).contains(c) ==> s.contains(c),
    decreases s.len(),
{
    if s.len() > 0 && is_ws(s[0]) {
        lemma_trim_start_chars_of(s.drop_first(), c);
        if s.drop_first().contains(c) {
            let i = choose|i: int| 0 <= i < s.drop_first().len() && s.drop_first()[i] == c;
            assert(s[i + 1] == c);
        }
    }
}

proof fn lemma_trim_end_chars_of(s: Seq<char>, c: char)
    ensures
        trim_end(s).contains(c) ==> s.contains(c),
    decreases s.len(),
{
    if s.len() > 0 && is_ws(s.last()) {
        lemma_trim_end_chars_of(s.drop_last(), c);
        if s.drop_last().contains(c) {
            let i = choose|i: int| 0 <= i < s.drop_last().len() && s.drop_last()[i] == c;
            assert(s[i] == c);
        }
    }
}

/// After a replacement, a pattern `q` is absent when it was absent before
/// or is the replaced pattern, provided `r` holds neither the first nor the
/// last character of `q` and does not occur in `q`.
pub proof fn lemma_replace_keeps_absent(s: Seq<char>, p: Seq<char>, r: Seq<char>, q: Seq<char>)
    requires
        p.len() > 0,
        q.len() > 0,
        !occurs(q, r),
        !r.contains(q[0]),
        !r.contains(q.last()),
        q == p || !occurs(s, q),
    ensures
        !occurs(replace(s, p, r), q),
{
    if occurs(replace(s, p, r), q) {
        lemma_replace_creates_no_occurrence(s, p, r, q);
    }
}

/// Replacement around a middle part: a prefix without the pattern's first
/// character is kept as it is.
pub proof fn lemma_replace_around(
    a: Seq<char>,
    x: Seq<char>,
    b: Seq<char>,
    p: Seq<char>,
    r: Seq<char>,
)
    requires
        p.len() > 0,
        !a.contains(p[0]),
    ensures
        replace(a + x + b, p, r) == a + replace(x + b, p, r),
{
    assert(a + x + b =~= a + (x + b));
    lemma_replace_prefix(a, x + b, p, r);
}

/// Text without the pattern's first character is left as it is.
pub proof fn lemma_replace_without_first_char(s: Seq<char>, p: Seq<char>, r: Seq<char>)
    requires
        p.len() > 0,
        !s.contains(p[0]),
    ensures
        replace(s, p, r) == s,
{
    lemma_replace_prefix(s, Seq::empty(), p, r);
    assert(s + Seq::<char>::empty() =~= s);
}

/// `s` with every occurrence of the non-empty pattern `p` replaced by `r`.
pub fn replace_chars(s: &[char], p: &[char], r: &[char]) -> (out: Vec<char>)
    requires
        p@.len() > 0,
    ensures
        out@ == replace(s@, p@, r@),
{
    let n = s.len();
    let mut out: Vec<char> = Vec::new();
    let mut i: usize = 0;
    assert(s@.skip(0) =~= s@);
    while i < n
        invariant
            i <= n,
            n == s@.len(),
            p@.len() > 0,
            out@ + replace(s@.skip(i as int), p@, r@) == replace(s@, p@, r@),
        decreases n - i,
    {
        let ghost t = s@.skip(i as int);
        if matches_at(s, i, p) {
            let ghost before = out@;
            let mut k: usize = 0;
            while k < r.len()
                invariant
                    k <= r@.len(),
                    out@ =~= before + r@.take(k as int),
                decreases r@.len() - k,
            {
                out.push(r[k]);
                k = k + 1;
            }
            proof {
                assert(r@.take(r@.len() as int) =~= r@);
                assert(t.skip(p@.len() as int) =~= s@.skip(i + p@.len()));
                assert(before + replace(t, p@, r@) =~= out@ + replace(
                    s@.skip(i + p@.len()),
                    p@,
                    r@,
                ));
            }
            i = i + p.len();
        } else {
            proof {
                assert(t.drop_first() =~= s@.skip(i + 1));
                assert(out@ + replace(t, p@, r@) =~= out@.push(s@[i as int]) + replace(
                    s@.skip(i + 1),
                    p@,
                    r@,
                ));
            }
            out.push(s[i]);
            i = i + 1;
        }
    }
    assert(out@ + replace(s@.skip(n as int), p@, r@) =~= out@);
    out
}

/// Whether two character sequences are equal.
pub fn chars_eq(a: &[char], b: &[char]) -> (r: bool)
    ensures
        r == (a@ == b@),
{
    if a.len() != b.len() {
        return false;
    }
    let mut i: usize = 0;
    while i < a.len()
        invariant
            i <= a@.len(),
            a@.len() == b@.len(),
            forall|k: int| 0 <= k < i ==> a@[k] == b@[k],
        decreases a@.len() - i,
    {
        if a[i] != b[i] {
            return false;
        }
        i = i + 1;
    }
    assert(a@ =~= b@);
    true
}

/// Whether two string slices are equal (`<str as PartialEq>::eq`).
#[verifier::external_body]
pub(crate) fn str_eq(a: &str, b: &str) -> (r: bool)
    ensures
        r == (a@ == b@),
{
    a == b
}

} // verus!
