//! Character-level text utilities shared by the dashboard and the server:
//! whitespace and case handling, case-insensitive matching, clipping and
//! padding to a column width.

use vstd::prelude::*;

verus! {

/// The characters Rust's `char::is_whitespace` accepts: the Unicode
/// `White_Space` property, a fixed list of code points.
pub open spec fn is_space(c: char) -> bool {
    c == ' ' || c == '\t' || c == '\n' || c == '\r' || c == '\u{0b}' || c == '\u{0c}'
        || c == '\u{85}' || c == '\u{a0}' || c == '\u{1680}'
        || ('\u{2000}' <= c && c <= '\u{200a}')
        || c == '\u{2028}' || c == '\u{2029}' || c == '\u{202f}' || c == '\u{205f}'
        || c == '\u{3000}'
}

pub fn is_space_char(c: char) -> (r: bool)
    ensures
        r == is_space(c),
{
    c == ' ' || c == '\t' || c == '\n' || c == '\r' || c == '\u{0b}' || c == '\u{0c}'
        || c == '\u{85}' || c == '\u{a0}' || c == '\u{1680}'
        || ('\u{2000}' <= c && c <= '\u{200a}')
        || c == '\u{2028}' || c == '\u{2029}' || c == '\u{202f}' || c == '\u{205f}'
        || c == '\u{3000}'
}

/// ASCII lowercase of one character; other characters are unchanged.
pub open spec fn lower_char(c: char) -> char {
    if 'A' <= c && c <= 'Z' {
        ((c as u8) + 32) as char
    } else {
        c
    }
}

pub fn lower_char_exec(c: char) -> (r: char)
    ensures
        r == lower_char(c),
{
    if 'A' <= c && c <= 'Z' {
        ((c as u8) + 32) as char
    } else {
        c
    }
}

/// ASCII-lowercased copy of a character sequence.
pub open spec fn lower_seq(s: Seq<char>) -> Seq<char> {
    Seq::new(s.len(), |i: int| lower_char(s[i]))
}

/// Number of leading whitespace characters.
pub open spec fn leading_spaces(s: Seq<char>) -> int
    decreases s.len(),
{
    if s.len() > 0 && is_space(s[0]) {
        1 + leading_spaces(s.skip(1))
    } else {
        0
    }
}

/// Number of trailing whitespace characters.
pub open spec fn trailing_spaces(s: Seq<char>) -> int
    decreases s.len(),
{
    if s.len() > 0 && is_space(s[s.len() - 1]) {
        1 + trailing_spaces(s.take(s.len() - 1))
    } else {
        0
    }
}

pub proof fn lemma_leading_spaces_bound(s: Seq<char>)
    ensures
        0 <= leading_spaces(s) <= s.len(),
        forall|i: int| 0 <= i < leading_spaces(s) ==> is_space(s[i]),
        leading_spaces(s) < s.len() ==> !is_space(s[leading_spaces(s)]),
    decreases s.len(),
{
    if s.len() > 0 && is_space(s[0]) {
        lemma_leading_spaces_bound(s.skip(1));
        assert forall|i: int| 0 <= i < leading_spaces(s) implies is_space(s[i]) by {
            if i > 0 {
                assert(s.skip(1)[i - 1] == s[i]);
            }
        }
        if leading_spaces(s) < s.len() {
            assert(s.skip(1)[leading_spaces(s) - 1] == s[leading_spaces(s)]);
        }
    }
}

pub proof fn lemma_trailing_spaces_bound(s: Seq<char>)
    ensures
        0 <= trailing_spaces(s) <= s.len(),
        forall|i: int| s.len() - trailing_spaces(s) <= i < s.len() ==> is_space(s[i]),
        trailing_spaces(s) < s.len() ==> !is_space(s[s.len() - 1 - trailing_spaces(s)]),
    decreases s.len(),
{
    if s.len() > 0 && is_space(s[s.len() - 1]) {
        let t = s.take(s.len() - 1);
        lemma_trailing_spaces_bound(t);
        assert forall|i: int| s.len() - trailing_spaces(s) <= i < s.len() implies is_space(
            s[i],
        ) by {
            if i < s.len() - 1 {
                assert(t[i] == s[i]);
            }
        }
        if trailing_spaces(s) < s.len() {
            assert(t[s.len() - 1 - trailing_spaces(s)] == s[s.len() - 1 - trailing_spaces(s)]);
        }
    }
}

/// The sequence with leading and trailing whitespace removed, as
/// `str::trim` leaves it.
pub open spec fn trim_seq(s: Seq<char>) -> Seq<char> {
    let a = leading_spaces(s);
    if a == s.len() {
        Seq::empty()
    } else {
        s.subrange(a, s.len() - trailing_spaces(s))
    }
}

pub proof fn lemma_trim_seq_no_space(s: Seq<char>)
    requires
        forall|i: int| 0 <= i < s.len() ==> !is_space(s[i]),
    ensures
        trim_seq(s) == s,
{
    lemma_leading_spaces_bound(s);
    lemma_trailing_spaces_bound(s);
    if s.len() > 0 {
        assert(leading_spaces(s) == 0);
        assert(trailing_spaces(s) == 0);
        assert(s.subrange(0, s.len() as int) =~= s);
    } else {
        assert(trim_seq(s) =~= s);
    }
}

/// The sequence with trailing whitespace removed, as `str::trim_end`
/// leaves it.
pub open spec fn trim_end_seq(s: Seq<char>) -> Seq<char> {
    s.take(s.len() - trailing_spaces(s))
}

/// Relies on `String`'s `FromIterator<char>` impl: the collected string
/// holds exactly the characters of `v`, in order.
#[verifier::external_body]
pub(crate) fn string_from_chars(v: &Vec<char>) -> (r: String)
    ensures
        r@ == v@,
{
    v.iter().copied().collect()
}

/// The characters of `s`, one vector entry per character.
pub fn chars_of(s: &str) -> (r: Vec<char>)
    ensures
        r@ == s@,
{
    let n = s.unicode_len();
    let mut out: Vec<char> = Vec::new();
    let mut i: usize = 0;
    while i < n
        invariant
            n == s@.len(),
            i <= n,
            out@ == s@.take(i as int),
        decreases n - i,
    {
        out.push(s.get_char(i));
        i = i + 1;
        proof {
            assert(out@ =~= s@.take(i as int));
        }
    }
    proof {
        assert(out@ =~= s@);
    }
    out
}

/// Lowercased copy of the trimmed input, one vector entry per character.
pub fn fold_trimmed(s: &str) -> (r: Vec<char>)
    ensures
        r@ == lower_seq(trim_seq(s@)),
{
    let n = s.unicode_len();
    let mut a: usize = 0;
    proof {
        lemma_leading_spaces_bound(s@);
    }
    while a < n && is_space_char(s.get_char(a))
        invariant
            n == s@.len(),
            a <= n,
            forall|i: int| 0 <= i < a ==> is_space(s@[i]),
            leading_spaces(s@) >= a,
        decreases n - a,
    {
        proof {
            lemma_leading_spaces_bound(s@);
        }
        a = a + 1;
        proof {
            lemma_leading_spaces_bound(s@);
            if leading_spaces(s@) < a {
                assert(is_space(s@[leading_spaces(s@)]));
            }
        }
    }
    proof {
        lemma_leading_spaces_bound(s@);
        assert(leading_spaces(s@) == a);
    }
    if a == n {
        let out: Vec<char> = Vec::new();
        proof {
            assert(out@ =~= lower_seq(trim_seq(s@)));
        }
        return out;
    }
    let mut b: usize = n;
    proof {
        lemma_trailing_spaces_bound(s@);
    }
    while b > a && is_space_char(s.get_char(b - 1))
        invariant
            n == s@.len(),
            a < n,
            a <= b <= n,
            !is_space(s@[a as int]),
            forall|i: int| b <= i < n ==> is_space(s@[i]),
            trailing_spaces(s@) >= n - b,
        decreases b,
    {
        proof {
            lemma_trailing_spaces_bound(s@);
        }
        b = b - 1;
        proof {
            lemma_trailing_spaces_bound(s@);
            if n - trailing_spaces(s@) > b {
                assert(!is_space(s@[n - 1 - trailing_spaces(s@)]));
            }
        }
    }
    proof {
        lemma_trailing_spaces_bound(s@);
        assert(trailing_spaces(s@) == n - b);
        assert(b > a);
    }
    let mut out: Vec<char> = Vec::new();
    let mut i: usize = a;
    while i < b
        invariant
            n == s@.len(),
            a <= i <= b <= n,
            out@ == lower_seq(s@.subrange(a as int, b as int)).take(i - a),
        decreases b - i,
    {
        out.push(lower_char_exec(s.get_char(i)));
        i = i + 1;
        proof {
            assert(out@ =~= lower_seq(s@.subrange(a as int, b as int)).take(i - a));
        }
    }
    proof {
        assert(trim_seq(s@) == s@.subrange(a as int, b as int));
        assert(out@ =~= lower_seq(trim_seq(s@)));
    }
    out
}

/// Copy of the input with trailing whitespace removed.
pub fn trim_end_str(s: &str) -> (r: String)
    ensures
        r@ == trim_end_seq(s@),
{
    let n = s.unicode_len();
    let mut b: usize = n;
    proof {
        lemma_trailing_spaces_bound(s@);
    }
    while b > 0 && is_space_char(s.get_char(b - 1))
        invariant
            n == s@.len(),
            b <= n,
            forall|i: int| b <= i < n ==> is_space(s@[i]),
            trailing_spaces(s@) >= n - b,
        decreases b,
    {
        proof {
            lemma_trailing_spaces_bound(s@);
        }
        b = b - 1;
        proof {
            lemma_trailing_spaces_bound(s@);
            if n - trailing_spaces(s@) > b {
                assert(!is_space(s@[n - 1 - trailing_spaces(s@)]));
            }
        }
    }
    proof {
        lemma_trailing_spaces_bound(s@);
        assert(trailing_spaces(s@) == n - b);
    }
    let head = s.substring_char(0, b);
    proof {
        assert(head@ =~= trim_end_seq(s@));
    }
    head.to_owned()
}

/// Copy of the input with leading and trailing whitespace removed.
pub fn trim_str(s: &str) -> (r: String)
    ensures
        r@ == trim_seq(s@),
{
    let n = s.unicode_len();
    let mut a: usize = 0;
    proof {
        lemma_leading_spaces_bound(s@);
    }
    while a < n && is_space_char(s.get_char(a))
        invariant
            n == s@.len(),
            a <= n,
            forall|i: int| 0 <= i < a ==> is_space(s@[i]),
            leading_spaces(s@) >= a,
        decreases n - a,
    {
        proof {
            lemma_leading_spaces_bound(s@);
        }
        a = a + 1;
        proof {
            lemma_leading_spaces_bound(s@);
            if leading_spaces(s@) < a {
                assert(is_space(s@[leading_spaces(s@)]));
            }
        }
    }
    proof {
        lemma_leading_spaces_bound(s@);
        assert(leading_spaces(s@) == a);
    }
    if a == n {
        let r = String::new();
        proof {
            assert(r@ =~= trim_seq(s@));
        }
        return r;
    }
    let mut b: usize = n;
    proof {
        lemma_trailing_spaces_bound(s@);
    }
    while b > a && is_space_char(s.get_char(b - 1))
        invariant
            n == s@.len(),
            a < n,
            a <= b <= n,
            !is_space(s@[a as int]),
            forall|i: int| b <= i < n ==> is_space(s@[i]),
            trailing_spaces(s@) >= n - b,
        decreases b,
    {
        proof {
            lemma_trailing_spaces_bound(s@);
        }
        b = b - 1;
        proof {
            lemma_trailing_spaces_bound(s@);
            if n - trailing_spaces(s@) > b {
                assert(!is_space(s@[n - 1 - trailing_spaces(s@)]));
            }
        }
    }
    proof {
        lemma_trailing_spaces_bound(s@);
        assert(trailing_spaces(s@) == n - b);
        assert(b > a);
    }
    let mid = s.substring_char(a, b);
    proof {
        assert(mid@ =~= trim_seq(s@));
    }
    mid.to_owned()
}

/// The two inputs, concatenated.
pub fn concat2(a: &str, b: &str) -> (r: String)
    ensures
        r@ == a@ + b@,
{
    let mut out = a.to_owned();
    out.append(b);
    out
}

/// The three inputs, concatenated.
pub fn concat3(a: &str, b: &str, c: &str) -> (r: String)
    ensures
        r@ == a@ + b@ + c@,
{
    let mut out = a.to_owned();
    out.append(b);
    out.append(c);
    out
}

/// `s` with every leading `c` removed.
pub open spec fn strip_leading(s: Seq<char>, c: char) -> Seq<char>
    decreases s.len(),
{
    if s.len() > 0 && s[0] == c {
        strip_leading(s.skip(1), c)
    } else {
        s
    }
}

proof fn lemma_strip_leading_skip(s: Seq<char>, c: char, a: int)
    requires
        0 <= a <= s.len(),
        forall|i: int| 0 <= i < a ==> s[i] == c,
        a < s.len() ==> s[a] != c,
    ensures
        strip_leading(s, c) == s.skip(a),
    decreases a,
{
    if a > 0 {
        lemma_strip_leading_skip(s.skip(1), c, a - 1);
        assert(s.skip(1).skip(a - 1) =~= s.skip(a));
    }
}

/// Copy of the input with every leading `c` removed, as
/// `str::trim_start_matches` leaves it for a single-character pattern.
pub fn strip_leading_str(s: &str, c: char) -> (r: String)
    ensures
        r@ == strip_leading(s@, c),
{
    let n = s.unicode_len();
    let mut a: usize = 0;
    while a < n && s.get_char(a) == c
        invariant
            n == s@.len(),
            a <= n,
            forall|i: int| 0 <= i < a ==> s@[i] == c,
        decreases n - a,
    {
        a = a + 1;
    }
    proof {
        lemma_strip_leading_skip(s@, c, a as int);
    }
    let tail = s.substring_char(a, n);
    proof {
        assert(tail@ =~= s@.skip(a as int));
    }
    tail.to_owned()
}

/// The parts joined with the separator between neighbours.
pub open spec fn join_seq(parts: Seq<Seq<char>>, sep: Seq<char>) -> Seq<char>
    decreases parts.len(),
{
    if parts.len() == 0 {
        Seq::empty()
    } else if parts.len() == 1 {
        parts.last()
    } else {
        join_seq(parts.drop_last(), sep) + sep + parts.last()
    }
}

/// Join strings with a separator, as `[T]::join` does.
pub fn join_strings(parts: &Vec<String>, sep: &str) -> (r: String)
    ensures
        r@ == join_seq(parts@.map_values(|p: String| p@), sep@),
{
    let ghost views = parts@.map_values(|p: String| p@);
    let mut out = String::new();
    let mut i: usize = 0;
    while i < parts.len()
        invariant
            views == parts@.map_values(|p: String| p@),
            i <= parts@.len(),
            out@ == join_seq(views.take(i as int), sep@),
        decreases parts@.len() - i,
    {
        if i > 0 {
            out.append(sep);
        }
        out.append(parts[i].as_str());
        proof {
            assert(views.take(i + 1).drop_last() =~= views.take(i as int));
            assert(views.take(i + 1).last() == views[i as int]);
        }
        i = i + 1;
    }
    proof {
        assert(views.take(views.len() as int) =~= views);
    }
    out
}

/// `s` with every trailing `c` removed.
pub open spec fn strip_trailing(s: Seq<char>, c: char) -> Seq<char>
    decreases s.len(),
{
    if s.len() > 0 && s.last() == c {
        strip_trailing(s.drop_last(), c)
    } else {
        s
    }
}

proof fn lemma_strip_trailing_take(s: Seq<char>, c: char, b: int)
    requires
        0 <= b <= s.len(),
        forall|i: int| b <= i < s.len() ==> s[i] == c,
        b > 0 ==> s[b - 1] != c,
    ensures
        strip_trailing(s, c) == s.take(b),
    decreases s.len() - b,
{
    if b < s.len() {
        lemma_strip_trailing_take(s.drop_last(), c, b);
        assert(s.drop_last().take(b) =~= s.take(b));
    } else {
        assert(s.take(b) =~= s);
    }
}

/// Copy of the input with every trailing `c` removed, as
/// `str::trim_end_matches` leaves it for a single-character pattern.
pub fn strip_trailing_str(s: &str, c: char) -> (r: String)
    ensures
        r@ == strip_trailing(s@, c),
{
    let n = s.unicode_len();
    let mut b: usize = n;
    while b > 0 && s.get_char(b - 1) == c
        invariant
            n == s@.len(),
            b <= n,
            forall|i: int| b <= i < n ==> s@[i] == c,
        decreases b,
    {
        b = b - 1;
    }
    proof {
        lemma_strip_trailing_take(s@, c, b as int);
    }
    let head = s.substring_char(0, b);
    proof {
        assert(head@ =~= s@.take(b as int));
    }
    head.to_owned()
}

/// `s` with every occurrence of `c` replaced by `rep`.
pub open spec fn spec_replace(s: Seq<char>, c: char, rep: Seq<char>) -> Seq<char>
    decreases s.len(),
{
    if s.len() == 0 {
        Seq::empty()
    } else {
        spec_replace(s.drop_last(), c, rep) + (if s.last() == c {
            rep
        } else {
            seq![s.last()]
        })
    }
}

/// Copy of the input with every occurrence of `c` replaced by `rep`.
pub fn replace_char(s: &str, c: char, rep: &str) -> (r: String)
    ensures
        r@ == spec_replace(s@, c, rep@),
{
    let n = s.unicode_len();
    let mut out: Vec<char> = Vec::new();
    let mut i: usize = 0;
    proof {
        assert(out@ =~= spec_replace(s@.take(0), c, rep@));
    }
    while i < n
        invariant
            n == s@.len(),
            i <= n,
            out@ == spec_replace(s@.take(i as int), c, rep@),
        decreases n - i,
    {
        let ch = s.get_char(i);
        if ch == c {
            let m = rep.unicode_len();
            let mut j: usize = 0;
            while j < m
                invariant
                    m == rep@.len(),
                    j <= m,
                    out@ == spec_replace(s@.take(i as int), c, rep@) + rep@.take(j as int),
                decreases m - j,
            {
                out.push(rep.get_char(j));
                j = j + 1;
                proof {
                    assert(out@ =~= spec_replace(s@.take(i as int), c, rep@) + rep@.take(
                        j as int,
                    ));
                }
            }
            proof {
                assert(rep@.take(m as int) =~= rep@);
            }
        } else {
            out.push(ch);
        }
        proof {
            assert(s@.take(i + 1).drop_last() =~= s@.take(i as int));
            assert(s@.take(i + 1).last() == s@[i as int]);
            assert(out@ =~= spec_replace(s@.take(i + 1), c, rep@));
        }
        i = i + 1;
    }
    proof {
        assert(s@.take(n as int) =~= s@);
    }
    string_from_chars(&out)
}

/// The first `n` characters of the input, or all of it when shorter.
pub fn prefix_chars(s: &str, n: usize) -> (r: String)
    ensures
        r@ == (if s@.len() <= n {
            s@
        } else {
            s@.take(n as int)
        }),
{
    let len = s.unicode_len();
    if len <= n {
        s.to_owned()
    } else {
        let head = s.substring_char(0, n);
        proof {
            assert(head@ =~= s@.take(n as int));
        }
        head.to_owned()
    }
}

/// Lowercased copy of the input, one vector entry per character.
pub fn fold_chars(s: &str) -> (r: Vec<char>)
    ensures
        r@ == lower_seq(s@),
{
    let n = s.unicode_len();
    let mut out: Vec<char> = Vec::new();
    let mut i: usize = 0;
    while i < n
        invariant
            n == s@.len(),
            i <= n,
            out@ == lower_seq(s@).take(i as int),
        decreases n - i,
    {
        out.push(lower_char_exec(s.get_char(i)));
        i = i + 1;
        proof {
            assert(out@ =~= lower_seq(s@).take(i as int));
        }
    }
    proof {
        assert(out@ =~= lower_seq(s@));
    }
    out
}

/// True when two string slices hold the same characters.
pub fn str_eq_str(a: &str, b: &str) -> (r: bool)
    ensures
        r == (a@ == b@),
{
    let n = a.unicode_len();
    if n != b.unicode_len() {
        return false;
    }
    let mut i: usize = 0;
    while i < n
        invariant
            n == a@.len() && n == b@.len(),
            i <= n,
            forall|j: int| 0 <= j < i ==> a@[j] == b@[j],
        decreases n - i,
    {
        if a.get_char(i) != b.get_char(i) {
            return false;
        }
        i = i + 1;
    }
    proof {
        assert(a@ =~= b@);
    }
    true
}

/// True when `a` holds exactly the characters `q`.
pub fn str_eq_chars(a: &str, q: &Vec<char>) -> (r: bool)
    ensures
        r == (a@ == q@),
{
    let n = a.unicode_len();
    if n != q.len() {
        return false;
    }
    let mut i: usize = 0;
    while i < n
        invariant
            n == a@.len() && n == q@.len(),
            i <= n,
            forall|j: int| 0 <= j < i ==> a@[j] == q@[j],
        decreases n - i,
    {
        if a.get_char(i) != q[i] {
            return false;
        }
        i = i + 1;
    }
    proof {
        assert(a@ =~= q@);
    }
    true
}

/// True when `a`, lowercased, is exactly the already-lowercase query `q`.
pub fn str_eq_ci(a: &str, q: &Vec<char>) -> (r: bool)
    ensures
        r == (lower_seq(a@) == q@),
{
    let n = a.unicode_len();
    if n != q.len() {
        proof {
            assert(lower_seq(a@).len() != q@.len());
        }
        return false;
    }
    let mut i: usize = 0;
    while i < n
        invariant
            n == a@.len() && n == q@.len(),
            i <= n,
            forall|j: int| 0 <= j < i ==> lower_char(a@[j]) == q@[j],
        decreases n - i,
    {
        if lower_char_exec(a.get_char(i)) != q[i] {
            proof {
                assert(lower_seq(a@)[i as int] != q@[i as int]);
            }
            return false;
        }
        i = i + 1;
    }
    proof {
        assert(lower_seq(a@) =~= q@);
    }
    true
}

/// `p` is a prefix of `a`.
pub open spec fn starts_with_seq(a: Seq<char>, p: Seq<char>) -> bool {
    p.len() <= a.len() && a.take(p.len() as int) == p
}

/// `p` occurs in `a` starting at position `k`.
pub open spec fn matches_at(a: Seq<char>, p: Seq<char>, k: int) -> bool {
    0 <= k && k + p.len() <= a.len() && a.subrange(k, k + p.len()) == p
}

/// `p` occurs somewhere in `a`.
pub open spec fn contains_seq(a: Seq<char>, p: Seq<char>) -> bool {
    exists|k: int| matches_at(a, p, k)
}

/// True when `a` starts with `p`, compared exactly.
pub fn str_starts_with(a: &str, p: &str) -> (r: bool)
    ensures
        r == starts_with_seq(a@, p@),
{
    let n = a.unicode_len();
    let m = p.unicode_len();
    if m > n {
        return false;
    }
    let mut i: usize = 0;
    while i < m
        invariant
            n == a@.len(),
            m == p@.len() && m <= n,
            i <= m,
            forall|j: int| 0 <= j < i ==> a@[j] == p@[j],
        decreases m - i,
    {
        if a.get_char(i) != p.get_char(i) {
            proof {
                assert(a@.take(m as int)[i as int] != p@[i as int]);
            }
            return false;
        }
        i = i + 1;
    }
    proof {
        assert(a@.take(m as int) =~= p@);
    }
    true
}

/// True when the lowercased `a` starts with the already-lowercase query `q`.
pub fn str_starts_with_ci(a: &str, q: &Vec<char>) -> (r: bool)
    ensures
        r == starts_with_seq(lower_seq(a@), q@),
{
    let n = a.unicode_len();
    if q.len() > n {
        return false;
    }
    let m = q.len();
    let mut i: usize = 0;
    while i < m
        invariant
            n == a@.len(),
            m == q@.len() && m <= n,
            i <= m,
            forall|j: int| 0 <= j < i ==> lower_char(a@[j]) == q@[j],
        decreases m - i,
    {
        if lower_char_exec(a.get_char(i)) != q[i] {
            proof {
                assert(lower_seq(a@).take(m as int)[i as int] != q@[i as int]);
            }
            return false;
        }
        i = i + 1;
    }
    proof {
        assert(lower_seq(a@).take(m as int) =~= q@);
    }
    true
}

/// True when the lowercased `a` contains the already-lowercase query `q`.
pub fn str_contains_ci(a: &str, q: &Vec<char>) -> (r: bool)
    ensures
        r == contains_seq(lower_seq(a@), q@),
{
    let chars = chars_of(a);
    chars_contain_ci(&chars, q)
}

/// True when the lowercased `a` contains the already-lowercase query `q`.
pub fn chars_contain_ci(a: &Vec<char>, q: &Vec<char>) -> (r: bool)
    ensures
        r == contains_seq(lower_seq(a@), q@),
{
    let n = a.len();
    let m = q.len();
    if m > n {
        proof {
            assert forall|k: int| !matches_at(lower_seq(a@), q@, k) by {}
        }
        return false;
    }
    if m == 0 {
        proof {
            assert(lower_seq(a@).subrange(0, 0) =~= q@);
            assert(matches_at(lower_seq(a@), q@, 0));
        }
        return true;
    }
    let mut k: usize = 0;
    while k < n - m + 1
        invariant
            n == a@.len(),
            m == q@.len() && 0 < m <= n,
            k <= n - m + 1,
            forall|k2: int| 0 <= k2 < k ==> !matches_at(lower_seq(a@), q@, k2),
        decreases n - m + 1 - k,
    {
        let mut i: usize = 0;
        let mut hit = true;
        while i < m
            invariant
                n == a@.len(),
                m == q@.len() && m <= n,
                k <= n - m,
                i <= m,
                hit ==> forall|j: int| 0 <= j < i ==> lower_char(a@[k + j]) == q@[j],
                !hit ==> !matches_at(lower_seq(a@), q@, k as int),
            decreases m - i,
        {
            if lower_char_exec(a[k + i]) != q[i] {
                proof {
                    assert(lower_seq(a@).subrange(k as int, k + m)[i as int] != q@[i as int]);
                }
                hit = false;
                i = m;
            } else {
                i = i + 1;
            }
        }
        if hit {
            proof {
                assert(lower_seq(a@).subrange(k as int, k + m) =~= q@);
                assert(matches_at(lower_seq(a@), q@, k as int));
            }
            return true;
        }
        k = k + 1;
    }
    proof {
        assert forall|k2: int| !matches_at(lower_seq(a@), q@, k2) by {
            if 0 <= k2 && k2 + m <= n {
                assert(k2 < k);
            }
        }
    }
    false
}

/// `unit` repeated `n` times.
pub open spec fn repeat_seq(unit: Seq<char>, n: nat) -> Seq<char>
    decreases n,
{
    if n == 0 {
        Seq::empty()
    } else {
        repeat_seq(unit, (n - 1) as nat) + unit
    }
}

pub fn repeat_str(unit: &str, n: usize) -> (r: String)
    ensures
        r@ == repeat_seq(unit@, n as nat),
{
    let mut out = String::new();
    let mut i: usize = 0;
    while i < n
        invariant
            i <= n,
            out@ == repeat_seq(unit@, i as nat),
        decreases n - i,
    {
        out.append(unit);
        i = i + 1;
    }
    out
}

/// The character for the decimal digit `d`.
pub open spec fn digit_char(d: int) -> char {
    ((48 + d) as u8) as char
}

/// The decimal representation of `n`, without sign or leading zeros.
pub open spec fn dec_rep(n: nat) -> Seq<char>
    decreases n,
{
    if n < 10 {
        seq![digit_char(n as int)]
    } else {
        dec_rep(n / 10) + seq![digit_char((n % 10) as int)]
    }
}

/// The decimal representation of `n`, with a leading minus when negative.
pub open spec fn dec_rep_int(n: int) -> Seq<char> {
    if n < 0 {
        seq!['-'] + dec_rep((-n) as nat)
    } else {
        dec_rep(n as nat)
    }
}

pub fn u64_to_string(n: u64) -> (r: String)
    ensures
        r@ == dec_rep(n as nat),
{
    let mut digits: Vec<char> = Vec::new();
    let mut m = n;
    while m >= 10
        invariant
            dec_rep(n as nat) == dec_rep(m as nat) + digits@.reverse(),
        decreases m,
    {
        let d = (m % 10) as u8;
        proof {
            assert(dec_rep(m as nat) == dec_rep((m / 10) as nat) + seq![
                digit_char((m % 10) as int),
            ]);
            assert((dec_rep((m / 10) as nat) + seq![digit_char((m % 10) as int)])
                + digits@.reverse() =~= dec_rep((m / 10) as nat) + (digits@.push(
                digit_char((m % 10) as int),
            )).reverse());
        }
        digits.push((d + 48) as char);
        m = m / 10;
    }
    let mut out: Vec<char> = Vec::new();
    out.push((((m % 10) as u8) + 48) as char);
    let mut i: usize = digits.len();
    while i > 0
        invariant
            i <= digits@.len(),
            out@ == seq![digit_char((m % 10) as int)] + digits@.reverse().take(
                digits@.len() - i,
            ),
        decreases i,
    {
        i = i - 1;
        out.push(digits[i]);
        proof {
            assert(digits@.reverse()[digits@.len() - i - 1] == digits@[i as int]);
            assert(out@ =~= seq![digit_char((m % 10) as int)] + digits@.reverse().take(
                digits@.len() - i,
            ));
        }
    }
    proof {
        assert(digits@.reverse().take(digits@.len() as int) =~= digits@.reverse());
        assert(dec_rep(m as nat) == seq![digit_char((m % 10) as int)]);
        assert(out@ =~= dec_rep(n as nat));
    }
    string_from_chars(&out)
}

pub fn i64_to_string(n: i64) -> (r: String)
    ensures
        r@ == dec_rep_int(n as int),
{
    if n >= 0 {
        u64_to_string(n as u64)
    } else {
        let neg: i128 = -(n as i128);
        proof {
            assert(0 < neg <= 0x8000_0000_0000_0000i128);
            assert(neg as int == -(n as int));
        }
        let m: u64 = neg as u64;
        proof {
            assert(m as int == -(n as int));
        }
        let mut out = String::new();
        out.append("-");
        let rest = u64_to_string(m);
        out.append(rest.as_str());
        proof {
            reveal_strlit("-");
            assert("-"@ =~= seq!['-']);
            assert(out@ =~= dec_rep_int(n as int));
        }
        out
    }
}

/// An amount of cents written as dollars: the integral part, a dot, and
/// exactly two decimal digits.
pub open spec fn money_rep(cents: nat) -> Seq<char> {
    dec_rep(cents / 100) + seq!['.', digit_char(((cents / 10) % 10) as int), digit_char(
        (cents % 10) as int,
    )]
}

pub fn cents_to_string(cents: u64) -> (r: String)
    ensures
        r@ == money_rep(cents as nat),
{
    let mut out = u64_to_string(cents / 100);
    let mut tail: Vec<char> = Vec::new();
    tail.push('.');
    tail.push(((((cents / 10) % 10) as u8) + 48) as char);
    tail.push((((cents % 10) as u8) + 48) as char);
    let tail_s = string_from_chars(&tail);
    out.append(tail_s.as_str());
    proof {
        assert(out@ =~= money_rep(cents as nat));
    }
    out
}

/// `value` cut to `width` characters: unchanged when it fits, all dots for
/// a width of three or less, else a prefix ending in `...`.
pub open spec fn clip_seq(value: Seq<char>, width: nat) -> Seq<char> {
    if width == 0 {
        Seq::empty()
    } else if value.len() <= width {
        value
    } else if width <= 3 {
        repeat_seq("."@, width)
    } else {
        value.take(width - 3) + "..."@
    }
}

pub fn clip_text(value: &str, width: usize) -> (r: String)
    ensures
        r@ == clip_seq(value@, width as nat),
{
    if width == 0 {
        return String::new();
    }
    let count = value.unicode_len();
    if count <= width {
        return value.to_owned();
    }
    if width <= 3 {
        return repeat_str(".", width);
    }
    let head = value.substring_char(0, width - 3);
    let mut out = head.to_owned();
    out.append("...");
    out
}

/// `value` clipped to `width` and padded with spaces up to `width`.
pub open spec fn pad_seq(value: Seq<char>, width: nat) -> Seq<char> {
    let clipped = clip_seq(value, width);
    if clipped.len() >= width {
        clipped
    } else {
        clipped + repeat_seq(" "@, (width - clipped.len()) as nat)
    }
}

pub fn pad_text(value: &str, width: usize) -> (r: String)
    ensures
        r@ == pad_seq(value@, width as nat),
{
    let clipped = clip_text(value, width);
    let len = clipped.as_str().unicode_len();
    if len >= width {
        clipped
    } else {
        let mut out = clipped;
        let fill = repeat_str(" ", width - len);
        out.append(fill.as_str());
        out
    }
}

} // verus!
