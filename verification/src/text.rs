//! Character-level text utilities shared by the parsers.
//!
//! Every function here works on the characters of a string (its view),
//! never on raw bytes.

use vstd::prelude::*;

verus! {

// ---------------------------------------------------------------------------
// Standard library calls
// ---------------------------------------------------------------------------

/// What `str::to_uppercase` returns for a string: the full Unicode upper-case
/// mapping, which may change the number of characters.
pub uninterp spec fn uppercase(s: Seq<char>) -> Seq<char>;

/// Whether `c` is a character whose upper case follows the simple rule of
/// `simple_upper`: an ASCII character, or a Latin-1 letter from `À`
/// (U+00C0) to `Þ` (U+00DE) or from `à` (U+00E0) to `þ` (U+00FE), the signs
/// `×` (U+00D7) and `÷` (U+00F7) excepted.
pub open spec fn simple_case_char(c: char) -> bool {
    ||| (c as int) < 0x80
    ||| (0xC0 <= (c as int) <= 0xDE && (c as int) != 0xD7)
    ||| (0xE0 <= (c as int) <= 0xFE && (c as int) != 0xF7)
}

/// Whether every character of `s` is a `simple_case_char`.
pub open spec fn simple_case(s: Seq<char>) -> bool {
    forall|i: int| 0 <= i < s.len() ==> simple_case_char(#[trigger] s[i])
}

/// The upper case of a `simple_case_char`: `a`..`z` become `A`..`Z` and
/// `à`..`þ` become `À`..`Þ` (both 32 code points down); every other such
/// character is upper case already and stays.
pub open spec fn simple_upper(c: char) -> char {
    if ('a' <= c && c <= 'z') || (0xE0 <= (c as int) <= 0xFE && (c as int) != 0xF7) {
        ((c as int) - 32) as char
    } else {
        c
    }
}

/// The lower case of a `simple_case_char`: `A`..`Z` become `a`..`z` and
/// `À`..`Þ` become `à`..`þ`; every other character stays.
pub open spec fn simple_lower(c: char) -> char {
    if ('A' <= c && c <= 'Z') || (0xC0 <= (c as int) <= 0xDE && (c as int) != 0xD7) {
        ((c as int) + 32) as char
    } else {
        c
    }
}

/// Upper case ignores case: a `simple_case` text and its lower case have the
/// same upper case, and the lower case is `simple_case` too.
pub proof fn lemma_lower_then_upper(s: Seq<char>)
    requires
        simple_case(s),
    ensures
        simple_case(s.map_values(|c: char| simple_lower(c))),
        s.map_values(|c: char| simple_lower(c)).map_values(|c: char| simple_upper(c))
            == s.map_values(|c: char| simple_upper(c)),
{
    let l = s.map_values(|c: char| simple_lower(c));
    assert forall|i: int| 0 <= i < l.len() implies simple_case_char(#[trigger] l[i])
        && simple_upper(l[i]) == simple_upper(s[i]) by {
        assert(simple_case_char(s[i]));
    }
    assert(l.map_values(|c: char| simple_upper(c)) =~= s.map_values(|c: char| simple_upper(c)));
}

/// Calls `str::to_uppercase`; the result is named `uppercase` of the input's
/// characters, a function of the input alone.  Of the Unicode upper-case
/// mapping only its action on `simple_case` text is stated: letters `a`..`z`
/// become `A`..`Z`, and every other ASCII character and every upper-case
/// Latin-1 letter is its own upper case.
#[verifier::external_body]
pub(crate) fn to_uppercase(s: &str) -> (r: String)
    ensures
        r@ == uppercase(s@),
        simple_case(s@) ==> r@ == s@.map_values(|c: char| simple_upper(c)),
{
    s.to_uppercase()
}

/// Whether two strings hold the same characters, compared one by one.
pub(crate) fn str_eq(a: &str, b: &str) -> (r: bool)
    ensures
        r == (a@ == b@),
{
    let x = chars_of(a);
    let y = chars_of(b);
    if x.len() != y.len() {
        return false;
    }
    let mut i: usize = 0;
    while i < x.len()
        invariant
            x@ == a@,
            y@ == b@,
            x@.len() == y@.len(),
            i <= x@.len(),
            forall|j: int| 0 <= j < i ==> x@[j] == y@[j],
        decreases x@.len() - i,
    {
        if x[i] != y[i] {
            return false;
        }
        i = i + 1;
    }
    assert(a@ =~= b@);
    true
}

/// Calls `String::push`, which appends one character.
#[verifier::external_body]
pub(crate) fn push_char(s: &mut String, c: char)
    ensures
        final(s)@ == old(s)@.push(c),
{
    s.push(c)
}

// ---------------------------------------------------------------------------
// Conversions between strings and character vectors
// ---------------------------------------------------------------------------

/// The characters of `s`, in order.
pub fn chars_of(s: &str) -> (v: Vec<char>)
    ensures
        v@ == s@,
{
    let mut v: Vec<char> = Vec::new();
    for c in it: s.chars()
        invariant
            v@ == it.seq().take(it.index() as int),
            it.seq() == s@,
    {
        v.push(c);
    }
    v
}

/// A string made of the characters `v@[from..to]`.
pub fn string_of_range(v: &Vec<char>, from: usize, to: usize) -> (s: String)
    requires
        from <= to <= v@.len(),
    ensures
        s@ == v@.subrange(from as int, to as int),
{
    let mut s = String::new();
    let mut i = from;
    while i < to
        invariant
            from <= i <= to <= v@.len(),
            s@ == v@.subrange(from as int, i as int),
        decreases to - i,
    {
        push_char(&mut s, v[i]);
        i = i + 1;
    }
    s
}

/// A string made of the characters of `v`.
pub fn string_of(v: &Vec<char>) -> (s: String)
    ensures
        s@ == v@,
{
    let s = string_of_range(v, 0, v.len());
    assert(v@.subrange(0, v@.len() as int) =~= v@);
    s
}

/// A string with the characters of `s`.
pub fn owned(s: &str) -> (r: String)
    ensures
        r@ == s@,
{
    s.to_owned()
}

// ---------------------------------------------------------------------------
// Whitespace and trimming
// ---------------------------------------------------------------------------

/// The Unicode `White_Space` property, which is what `char::is_whitespace`
/// tests.
pub open spec fn is_white(c: char) -> bool {
    ||| ('\u{9}' <= c && c <= '\u{d}')
    ||| c == ' '
    ||| c == '\u{85}'
    ||| c == '\u{a0}'
    ||| c == '\u{1680}'
    ||| ('\u{2000}' <= c && c <= '\u{200a}')
    ||| c == '\u{2028}'
    ||| c == '\u{2029}'
    ||| c == '\u{202f}'
    ||| c == '\u{205f}'
    ||| c == '\u{3000}'
}

/// Whether `c` is a whitespace character, as `char::is_whitespace` decides.
pub fn is_whitespace(c: char) -> (r: bool)
    ensures
        r == is_white(c),
{
    ('\u{9}' <= c && c <= '\u{d}') || c == ' ' || c == '\u{85}' || c == '\u{a0}' || c
        == '\u{1680}' || ('\u{2000}' <= c && c <= '\u{200a}') || c == '\u{2028}' || c
        == '\u{2029}' || c == '\u{202f}' || c == '\u{205f}' || c == '\u{3000}'
}

/// Number of whitespace characters at the start of `s`.
pub open spec fn leading_white(s: Seq<char>) -> nat
    decreases s.len(),
{
    if s.len() > 0 && is_white(s[0]) {
        1 + leading_white(s.drop_first())
    } else {
        0
    }
}

/// Number of whitespace characters at the end of `s`.
pub open spec fn trailing_white(s: Seq<char>) -> nat
    decreases s.len(),
{
    if s.len() > 0 && is_white(s.last()) {
        1 + trailing_white(s.drop_last())
    } else {
        0
    }
}

/// `s` without leading and trailing whitespace, as `str::trim` gives it.
pub open spec fn trim(s: Seq<char>) -> Seq<char> {
    if leading_white(s) == s.len() {
        Seq::empty()
    } else {
        s.subrange(leading_white(s) as int, s.len() - trailing_white(s))
    }
}

proof fn lemma_leading_white(s: Seq<char>, i: int)
    requires
        0 <= i <= s.len(),
        forall|k: int| 0 <= k < i ==> is_white(#[trigger] s[k]),
    ensures
        i < s.len() && !is_white(s[i]) ==> leading_white(s) == i,
        i == s.len() ==> leading_white(s) == s.len(),
        leading_white(s) >= i,
    decreases i,
{
    if i > 0 {
        let t = s.drop_first();
        assert forall|k: int| 0 <= k < i - 1 implies is_white(#[trigger] t[k]) by {
            assert(t[k] == s[k + 1]);
        }
        lemma_leading_white(t, i - 1);
    }
}

proof fn lemma_trailing_white(s: Seq<char>, j: int)
    requires
        0 <= j <= s.len(),
        forall|k: int| j <= k < s.len() ==> is_white(#[trigger] s[k]),
    ensures
        j > 0 && !is_white(s[j - 1]) ==> trailing_white(s) == s.len() - j,
        trailing_white(s) >= s.len() - j,
    decreases s.len() - j,
{
    if j < s.len() {
        let t = s.drop_last();
        assert forall|k: int| j <= k < t.len() implies is_white(#[trigger] t[k]) by {
            assert(t[k] == s[k]);
        }
        lemma_trailing_white(t, j);
    }
}

/// Bounds of the trimmed part of `v`: `v@[start..end]` is `trim(v@)`.
pub fn trim_bounds(v: &Vec<char>) -> (r: (usize, usize))
    ensures
        r.0 <= r.1 <= v@.len(),
        v@.subrange(r.0 as int, r.1 as int) == trim(v@),
{
    let n = v.len();
    let mut i: usize = 0;
    while i < n && is_whitespace(v[i])
        invariant
            i <= n == v@.len(),
            forall|k: int| 0 <= k < i ==> is_white(#[trigger] v@[k]),
        decreases n - i,
    {
        i = i + 1;
    }
    proof {
        lemma_leading_white(v@, i as int);
    }
    if i == n {
        return (n, n);
    }
    let mut j: usize = n;
    while j > i && is_whitespace(v[j - 1])
        invariant
            i < n == v@.len(),
            i <= j <= n,
            !is_white(v@[i as int]),
            forall|k: int| j <= k < n ==> is_white(#[trigger] v@[k]),
        decreases j,
    {
        j = j - 1;
    }
    proof {
        lemma_trailing_white(v@, j as int);
    }
    (i, j)
}

/// `s` without leading and trailing whitespace.
pub fn trimmed(s: &str) -> (r: String)
    ensures
        r@ == trim(s@),
{
    let v = chars_of(s);
    let (a, b) = trim_bounds(&v);
    string_of_range(&v, a, b)
}

// ---------------------------------------------------------------------------
// Searching
// ---------------------------------------------------------------------------

/// Whether `pat` occurs in `s` at position `i`.
pub open spec fn occurs_at(s: Seq<char>, pat: Seq<char>, i: int) -> bool {
    0 <= i && i + pat.len() <= s.len() && s.subrange(i, i + pat.len()) == pat
}

/// Position of the first occurrence of `pat` in `s` at or after `from`.
pub open spec fn find_from(s: Seq<char>, pat: Seq<char>, from: int) -> Option<int>
    decreases s.len() + 1 - from,
{
    if from < 0 || from + pat.len() > s.len() {
        None
    } else if occurs_at(s, pat, from) {
        Some(from)
    } else {
        find_from(s, pat, from + 1)
    }
}

/// Position of the first occurrence of `pat` in `s`, as `str::find` gives it
/// counted in characters.
pub open spec fn find(s: Seq<char>, pat: Seq<char>) -> Option<int> {
    find_from(s, pat, 0)
}

/// Facts that follow from what `find_from` returns.
pub proof fn lemma_find_from(s: Seq<char>, pat: Seq<char>, from: int)
    requires
        0 <= from,
    ensures
        find_from(s, pat, from) matches Some(i) ==> from <= i && occurs_at(s, pat, i) && forall|
            k: int,
        |
            from <= k < i ==> !occurs_at(s, pat, k),
        find_from(s, pat, from) is None ==> forall|k: int|
            from <= k ==> !occurs_at(s, pat, k),
    decreases s.len() + 1 - from,
{
    if from + pat.len() <= s.len() && !occurs_at(s, pat, from) {
        lemma_find_from(s, pat, from + 1);
    }
}

/// `find_from` gives the first occurrence at or after `from`.
pub proof fn lemma_find_from_at(s: Seq<char>, pat: Seq<char>, from: int, i: int)
    requires
        0 <= from <= i,
        occurs_at(s, pat, i),
        forall|k: int| from <= k < i ==> !occurs_at(s, pat, k),
    ensures
        find_from(s, pat, from) == Some(i),
    decreases i - from,
{
    if from < i {
        lemma_find_from_at(s, pat, from + 1, i);
    }
}

/// A one-character pattern occurs where that character stands.
pub proof fn lemma_occurs_char(s: Seq<char>, c: char, k: int)
    ensures
        occurs_at(s, seq![c], k) == (0 <= k < s.len() && s[k] == c),
{
    if 0 <= k < s.len() {
        if s[k] == c {
            assert(s.subrange(k, k + 1) =~= seq![c]);
        } else {
            assert(s.subrange(k, k + 1)[0] != seq![c][0]);
        }
    }
}

/// The first occurrence of a character: at `i` where `s[i]` is `c` and no
/// character from `from` to `i` is.
pub proof fn lemma_find_char_at(s: Seq<char>, c: char, from: int, i: int)
    requires
        0 <= from <= i < s.len(),
        s[i] == c,
        forall|k: int| from <= k < i ==> s[k] != c,
    ensures
        find_from(s, seq![c], from) == Some(i),
{
    lemma_occurs_char(s, c, i);
    assert forall|k: int| from <= k < i implies !occurs_at(s, seq![c], k) by {
        lemma_occurs_char(s, c, k);
    }
    lemma_find_from_at(s, seq![c], from, i);
}

/// A character that does not occur from `from` on is not found.
pub proof fn lemma_find_char_none(s: Seq<char>, c: char, from: int)
    requires
        0 <= from,
        forall|k: int| from <= k < s.len() ==> s[k] != c,
    ensures
        find_from(s, seq![c], from) is None,
{
    lemma_find_from(s, seq![c], from);
    if let Some(i) = find_from(s, seq![c], from) {
        lemma_occurs_char(s, c, i);
    }
}

/// Whether `pat` occurs in `v` at position `i`.
pub fn occurs_at_exec(v: &Vec<char>, pat: &Vec<char>, i: usize) -> (r: bool)
    ensures
        r == occurs_at(v@, pat@, i as int),
{
    if i > v.len() || pat.len() > v.len() - i {
        return false;
    }
    let mut k: usize = 0;
    let n = v.len();
    while k < pat.len()
        invariant
            n == v@.len(),
            i + pat@.len() <= v@.len(),
            k <= pat@.len(),
            forall|m: int| 0 <= m < k ==> v@[i + m] == pat@[m],
        decreases pat@.len() - k,
    {
        assert(i + k < v@.len());
        if v[i + k] != pat[k] {
            assert(v@.subrange(i as int, i + pat@.len())[k as int] != pat@[k as int]);
            return false;
        }
        k = k + 1;
    }
    assert(v@.subrange(i as int, i + pat@.len()) =~= pat@);
    true
}

/// Position of the first occurrence of `pat` in `v` at or after `from`.
pub fn find_from_exec(v: &Vec<char>, pat: &Vec<char>, from: usize) -> (r: Option<usize>)
    ensures
        r matches Some(i) ==> find_from(v@, pat@, from as int) == Some(i as int),
        r is None ==> find_from(v@, pat@, from as int) is None,
{
    let mut i = from;
    while i <= v.len() && pat.len() <= v.len() - i
        invariant
            from <= i,
            find_from(v@, pat@, from as int) == find_from(v@, pat@, i as int),
        decreases v@.len() + 1 - i,
    {
        if occurs_at_exec(v, pat, i) {
            return Some(i);
        }
        assert(pat@.len() > 0) by {
            if pat@.len() == 0 {
                assert(v@.subrange(i as int, i as int) =~= pat@);
            }
        }
        i = i + 1;
    }
    None
}

/// Position of the first occurrence of `c` in `v` at or after `from`.
pub fn find_char_from(v: &Vec<char>, c: char, from: usize) -> (r: Option<usize>)
    ensures
        r matches Some(i) ==> find_from(v@, seq![c], from as int) == Some(i as int),
        r is None ==> find_from(v@, seq![c], from as int) is None,
{
    let pat = vec![c];
    assert(pat@ =~= seq![c]);
    find_from_exec(v, &pat, from)
}

// ---------------------------------------------------------------------------
// Replacing
// ---------------------------------------------------------------------------

/// `s` with every non-overlapping occurrence of `pat`, scanned from the left,
/// replaced by `rep`; what `str::replace` computes.
pub open spec fn replace_all(s: Seq<char>, pat: Seq<char>, rep: Seq<char>) -> Seq<char>
    recommends
        pat.len() > 0,
    decreases s.len(),
{
    if s.len() == 0 || pat.len() == 0 {
        s
    } else if occurs_at(s, pat, 0) {
        rep + replace_all(s.skip(pat.len() as int), pat, rep)
    } else {
        seq![s[0]] + replace_all(s.skip(1), pat, rep)
    }
}

/// Replacing a character works piece by piece: on `a + b` it gives what it
/// gives on `a` followed by what it gives on `b`.
pub proof fn lemma_replace_char_concat(a: Seq<char>, b: Seq<char>, c: char, rep: Seq<char>)
    ensures
        replace_all(a + b, seq![c], rep) == replace_all(a, seq![c], rep) + replace_all(
            b,
            seq![c],
            rep,
        ),
    decreases a.len(),
{
    if a.len() == 0 {
        assert(a + b =~= b);
        assert(replace_all(a, seq![c], rep) =~= Seq::<char>::empty());
        assert(Seq::<char>::empty() + replace_all(b, seq![c], rep) =~= replace_all(
            b,
            seq![c],
            rep,
        ));
    } else {
        let ab = a + b;
        lemma_occurs_char(ab, c, 0);
        lemma_occurs_char(a, c, 0);
        assert(ab[0] == a[0]);
        assert(ab.skip(1) =~= a.skip(1) + b);
        lemma_replace_char_concat(a.skip(1), b, c, rep);
        if a[0] == c {
            assert(rep + (replace_all(a.skip(1), seq![c], rep) + replace_all(b, seq![c], rep))
                =~= (rep + replace_all(a.skip(1), seq![c], rep)) + replace_all(b, seq![c], rep));
        } else {
            assert(seq![a[0]] + (replace_all(a.skip(1), seq![c], rep) + replace_all(
                b,
                seq![c],
                rep,
            )) =~= (seq![a[0]] + replace_all(a.skip(1), seq![c], rep)) + replace_all(
                b,
                seq![c],
                rep,
            ));
        }
    }
}

/// Replacing a character that does not occur changes nothing.
pub proof fn lemma_replace_char_absent(s: Seq<char>, c: char, rep: Seq<char>)
    requires
        forall|i: int| 0 <= i < s.len() ==> s[i] != c,
    ensures
        replace_all(s, seq![c], rep) == s,
    decreases s.len(),
{
    if s.len() > 0 {
        lemma_occurs_char(s, c, 0);
        lemma_replace_char_absent(s.skip(1), c, rep);
        assert(seq![s[0]] + s.skip(1) =~= s);
    }
}

/// Replacing a character in that one character gives the replacement.
pub proof fn lemma_replace_char_itself(c: char, rep: Seq<char>)
    ensures
        replace_all(seq![c], seq![c], rep) == rep,
{
    lemma_occurs_char(seq![c], c, 0);
    assert(seq![c].skip(1) =~= Seq::<char>::empty());
    assert(replace_all(Seq::<char>::empty(), seq![c], rep) == Seq::<char>::empty());
    assert(rep + Seq::<char>::empty() =~= rep);
}

/// `v` with every occurrence of `pat` replaced by `rep`.
pub fn replace_chars(v: &Vec<char>, pat: &Vec<char>, rep: &Vec<char>) -> (r: Vec<char>)
    requires
        pat@.len() > 0,
    ensures
        r@ == replace_all(v@, pat@, rep@),
{
    let mut out: Vec<char> = Vec::new();
    let mut i: usize = 0;
    assert(v@.skip(0) =~= v@);
    assert(out@ + v@ =~= v@);
    while i < v.len()
        invariant
            pat@.len() > 0,
            i <= v@.len(),
            out@ + replace_all(v@.skip(i as int), pat@, rep@) == replace_all(v@, pat@, rep@),
        decreases v@.len() - i,
    {
        let ghost rest = v@.skip(i as int);
        if occurs_at_exec(v, pat, i) {
            assert(v@.subrange(i as int, i + pat@.len()) =~= rest.subrange(0, pat@.len() as int));
            assert(occurs_at(rest, pat@, 0));
            assert(rest.skip(pat@.len() as int) =~= v@.skip(i + pat@.len()));
            let mut k: usize = 0;
            let ghost before = out@;
            while k < rep.len()
                invariant
                    k <= rep@.len(),
                    out@ == before + rep@.subrange(0, k as int),
                decreases rep@.len() - k,
            {
                out.push(rep[k]);
                k = k + 1;
                assert(out@ =~= before + rep@.subrange(0, k as int));
            }
            assert(rep@.subrange(0, rep@.len() as int) =~= rep@);
            assert(out@ + replace_all(v@.skip(i + pat@.len()), pat@, rep@) =~= before + (rep@
                + replace_all(rest.skip(pat@.len() as int), pat@, rep@)));
            i = i + pat.len();
        } else {
            assert(!occurs_at(rest, pat@, 0)) by {
                if i + pat@.len() <= v@.len() {
                    assert(v@.subrange(i as int, i + pat@.len()) =~= rest.subrange(
                        0,
                        pat@.len() as int,
                    ));
                }
            }
            assert(rest.skip(1) =~= v@.skip(i + 1));
            let ghost before = out@;
            out.push(v[i]);
            assert(out@ + replace_all(v@.skip(i + 1), pat@, rep@) =~= before + (seq![rest[0]]
                + replace_all(rest.skip(1), pat@, rep@)));
            i = i + 1;
        }
    }
    assert(v@.skip(i as int) =~= Seq::<char>::empty());
    assert(out@ + Seq::<char>::empty() =~= out@);
    out
}

/// `s` with every occurrence of `pat` replaced by `rep`, as `str::replace`
/// gives it.
pub fn replace(s: &str, pat: &str, rep: &str) -> (r: String)
    requires
        pat@.len() > 0,
    ensures
        r@ == replace_all(s@, pat@, rep@),
{
    let v = chars_of(s);
    let p = chars_of(pat);
    let q = chars_of(rep);
    let w = replace_chars(&v, &p, &q);
    string_of(&w)
}

// ---------------------------------------------------------------------------
// Accents and spaces
// ---------------------------------------------------------------------------

/// Upper-case acute vowels lose their accent; every other character stays.
pub open spec fn strip_accent(c: char) -> char {
    if c == 'Á' {
        'A'
    } else if c == 'É' {
        'E'
    } else if c == 'Í' {
        'I'
    } else if c == 'Ó' {
        'O'
    } else if c == 'Ú' {
        'U'
    } else {
        c
    }
}

/// `strip_accent` on one character.
pub fn strip_accent_exec(c: char) -> (r: char)
    ensures
        r == strip_accent(c),
{
    if c == 'Á' {
        'A'
    } else if c == 'É' {
        'E'
    } else if c == 'Í' {
        'I'
    } else if c == 'Ó' {
        'O'
    } else if c == 'Ú' {
        'U'
    } else {
        c
    }
}

/// `s` with `strip_accent` applied to every character.
pub open spec fn strip_accents(s: Seq<char>) -> Seq<char> {
    s.map_values(|c: char| strip_accent(c))
}

/// `s` without its space characters (`' '` only).
pub open spec fn remove_spaces(s: Seq<char>) -> Seq<char> {
    s.filter(|c: char| c != ' ')
}

/// The key under which a name is looked up in the province and category
/// tables: upper case, no spaces, no acute accents on vowels.
pub open spec fn lookup_key(s: Seq<char>) -> Seq<char> {
    strip_accents(remove_spaces(uppercase(s)))
}

/// The lookup key of a `simple_case` text: `lookup_key` with the upper case
/// of `simple_upper`.
pub open spec fn simple_lookup_key(s: Seq<char>) -> Seq<char> {
    strip_accents(remove_spaces(s.map_values(|c: char| simple_upper(c))))
}

/// A text without spaces loses none.
pub proof fn lemma_remove_no_spaces(s: Seq<char>)
    requires
        forall|i: int| 0 <= i < s.len() ==> #[trigger] s[i] != ' ',
    ensures
        remove_spaces(s) == s,
    decreases s.len(),
{
    reveal(Seq::filter);
    if s.len() > 0 {
        lemma_remove_no_spaces(s.drop_last());
        assert(s.drop_last().push(s.last()) =~= s);
    } else {
        assert(s.filter(|c: char| c != ' ') =~= s);
    }
}

/// A text that is its own upper case, without spaces and without acute
/// vowels is its own lookup key.
pub proof fn lemma_plain_key(s: Seq<char>)
    requires
        forall|i: int| 0 <= i < s.len() ==> simple_upper(#[trigger] s[i]) == s[i] && s[i] != ' '
            && strip_accent(s[i]) == s[i],
    ensures
        simple_lookup_key(s) == s,
{
    assert(s.map_values(|c: char| simple_upper(c)) =~= s);
    lemma_remove_no_spaces(s);
    assert(strip_accents(s) =~= s);
}

/// The lookup key of two texts joined is their keys joined.
pub proof fn lemma_simple_lookup_key_concat(a: Seq<char>, b: Seq<char>)
    ensures
        simple_lookup_key(a + b) == simple_lookup_key(a) + simple_lookup_key(b),
{
    let ua = a.map_values(|c: char| simple_upper(c));
    let ub = b.map_values(|c: char| simple_upper(c));
    assert((a + b).map_values(|c: char| simple_upper(c)) =~= ua + ub);
    Seq::filter_distributes_over_add(ua, ub, |c: char| c != ' ');
    let ra = remove_spaces(ua);
    let rb = remove_spaces(ub);
    assert(strip_accents(ra + rb) =~= strip_accents(ra) + strip_accents(rb));
}

/// The lookup key of a text without spaces whose characters, in upper
/// case and without acute accents, are those of `k` is `k`.
pub proof fn lemma_word_key(w: Seq<char>, k: Seq<char>)
    requires
        w.len() == k.len(),
        forall|i: int| 0 <= i < w.len() ==> #[trigger] w[i] != ' ' && strip_accent(simple_upper(w[i])) == k[i],
    ensures
        simple_lookup_key(w) == k,
{
    let u = w.map_values(|c: char| simple_upper(c));
    assert forall|i: int| 0 <= i < u.len() implies #[trigger] u[i] != ' ' by {
        assert(w[i] != ' ');
    }
    lemma_remove_no_spaces(u);
    assert(strip_accents(u) =~= k);
}

/// A space has an empty lookup key.
pub proof fn lemma_space_key()
    ensures
        simple_lookup_key(seq![' ']) == Seq::<char>::empty(),
{
    reveal(Seq::filter);
    let u = seq![' '].map_values(|c: char| simple_upper(c));
    assert(u =~= seq![' ']);
    assert(u.drop_last() =~= Seq::<char>::empty());
    assert(Seq::<char>::empty().filter(|c: char| c != ' ') =~= Seq::<char>::empty());
    assert(strip_accents(Seq::<char>::empty()) =~= Seq::<char>::empty());
}

/// `strip_accents` of `v`.
pub fn strip_accents_exec(v: &Vec<char>) -> (r: Vec<char>)
    ensures
        r@ == strip_accents(v@),
{
    let mut out: Vec<char> = Vec::new();
    let mut i: usize = 0;
    while i < v.len()
        invariant
            i <= v@.len(),
            out@ == strip_accents(v@.take(i as int)),
        decreases v@.len() - i,
    {
        out.push(strip_accent_exec(v[i]));
        i = i + 1;
        assert(out@ =~= strip_accents(v@.take(i as int)));
    }
    assert(v@.take(i as int) =~= v@);
    out
}

/// `remove_spaces` of `v`.
pub fn remove_spaces_exec(v: &Vec<char>) -> (r: Vec<char>)
    ensures
        r@ == remove_spaces(v@),
{
    let mut out: Vec<char> = Vec::new();
    let mut i: usize = 0;
    while i < v.len()
        invariant
            i <= v@.len(),
            out@ == remove_spaces(v@.take(i as int)),
        decreases v@.len() - i,
    {
        proof {
            reveal(Seq::filter);
        }
        let ghost t = v@.take(i + 1);
        assert(t.drop_last() =~= v@.take(i as int));
        assert(t.last() == v@[i as int]);
        assert(t.len() > 0);
        assert(t.filter(|c: char| c != ' ') == (if v@[i as int] != ' ' {
            t.drop_last().filter(|c: char| c != ' ').push(v@[i as int])
        } else {
            t.drop_last().filter(|c: char| c != ' ')
        }));
        assert(remove_spaces(v@.take(i + 1)) == (if v@[i as int] != ' ' {
            remove_spaces(v@.take(i as int)).push(v@[i as int])
        } else {
            remove_spaces(v@.take(i as int))
        }));
        if v[i] != ' ' {
            out.push(v[i]);
        }
        i = i + 1;
        assert(out@ =~= remove_spaces(v@.take(i as int)));
    }
    assert(v@.take(i as int) =~= v@);
    out
}

/// The lookup key of `s`, see `lookup_key`.
pub fn lookup_key_exec(s: &str) -> (r: Vec<char>)
    ensures
        r@ == lookup_key(s@),
        simple_case(s@) ==> r@ == simple_lookup_key(s@),
{
    let up = to_uppercase(s);
    let v = chars_of(up.as_str());
    let w = remove_spaces_exec(&v);
    strip_accents_exec(&w)
}

// ---------------------------------------------------------------------------
// Integers
// ---------------------------------------------------------------------------

/// Whether `c` is an ASCII decimal digit.
pub open spec fn is_digit(c: char) -> bool {
    '0' <= c && c <= '9'
}

/// Value of the ASCII digit `c`.
pub open spec fn digit_value(c: char) -> int {
    c as int - '0' as int
}

/// Whether every character of `s` is an ASCII digit.
pub open spec fn all_digits(s: Seq<char>) -> bool {
    forall|i: int| 0 <= i < s.len() ==> is_digit(#[trigger] s[i])
}

/// The number that the decimal digits `s` spell.
pub open spec fn digits_value(s: Seq<char>) -> int
    decreases s.len(),
{
    if s.len() == 0 {
        0
    } else {
        digits_value(s.drop_last()) * 10 + digit_value(s.last())
    }
}

/// The unsigned integer that `s` spells, as `str::parse` reads it: an
/// optional `+`, then one or more ASCII digits.  `None` where that is not
/// the shape of `s`; the range check is left to the caller.
pub open spec fn unsigned_text_value(s: Seq<char>) -> Option<int> {
    let body = if s.len() > 0 && s[0] == '+' {
        s.drop_first()
    } else {
        s
    };
    if body.len() > 0 && all_digits(body) {
        Some(digits_value(body))
    } else {
        None
    }
}

/// The signed integer that `s` spells, as `str::parse` reads it: an
/// optional `+` or `-`, then one or more ASCII digits.
pub open spec fn signed_text_value(s: Seq<char>) -> Option<int> {
    if s.len() > 0 && s[0] == '-' {
        let body = s.drop_first();
        if body.len() > 0 && all_digits(body) {
            Some(-digits_value(body))
        } else {
            None
        }
    } else {
        unsigned_text_value(s)
    }
}

/// What `s.parse::<u32>()` gives.
pub open spec fn parse_u32_spec(s: Seq<char>) -> Option<u32> {
    match unsigned_text_value(s) {
        Some(n) => if n <= u32::MAX {
            Some(n as u32)
        } else {
            None
        },
        None => None,
    }
}

/// What `s.parse::<i64>()` gives.
pub open spec fn parse_i64_spec(s: Seq<char>) -> Option<i64> {
    match signed_text_value(s) {
        Some(n) => if i64::MIN <= n <= i64::MAX {
            Some(n as i64)
        } else {
            None
        },
        None => None,
    }
}

/// Digit values never decrease as digits are appended.
proof fn lemma_digits_value_prefix(s: Seq<char>, j: int, k: int)
    requires
        0 <= j <= k <= s.len(),
        all_digits(s),
    ensures
        0 <= digits_value(s.take(j)) <= digits_value(s.take(k)),
    decreases k - j + k,
{
    if k > 0 {
        assert(s.take(k).drop_last() =~= s.take(k - 1));
        assert(is_digit(s[k - 1]));
        if j < k {
            lemma_digits_value_prefix(s, j, k - 1);
        } else {
            lemma_digits_value_prefix(s, k - 1, k - 1);
        }
    }
}

/// Value of the digits `v@[from..]`, or `None` if it exceeds `bound` or a
/// character there is not a digit or there is none.
fn digits_up_to(v: &Vec<char>, from: usize, bound: u64) -> (r: Option<u64>)
    requires
        from <= v@.len(),
        bound >= 9,
    ensures
        ({
            let body = v@.skip(from as int);
            match r {
                Some(n) => body.len() > 0 && all_digits(body) && n == digits_value(body) && n
                    <= bound,
                None => !(body.len() > 0 && all_digits(body) && digits_value(body) <= bound),
            }
        }),
{
    let ghost body = v@.skip(from as int);
    if from == v.len() {
        return None;
    }
    let mut acc: u64 = 0;
    let mut i = from;
    while i < v.len()
        invariant
            from <= i <= v@.len(),
            body == v@.skip(from as int),
            all_digits(body.take(i - from)),
            acc == digits_value(body.take(i - from)),
            acc <= bound,
            bound >= 9,
        decreases v@.len() - i,
    {
        let c = v[i];
        assert(body[i - from] == c);
        if !('0' <= c && c <= '9') {
            return None;
        }
        let d = (c as u64) - ('0' as u64);
        assert(body.take(i + 1 - from).drop_last() =~= body.take(i - from));
        assert(all_digits(body.take(i + 1 - from)));
        if acc > (bound - d) / 10 {
            proof {
                assert(digits_value(body.take(i + 1 - from)) == acc * 10 + d);
                assert(acc * 10 + d > bound) by (nonlinear_arith)
                    requires
                        acc > (bound - d) / 10,
                        d <= bound || true,
                        0 <= d <= 9,
                ;
                if all_digits(body) {
                    lemma_digits_value_prefix(body, i + 1 - from, body.len() as int);
                    assert(body.take(body.len() as int) =~= body);
                }
            }
            return None;
        }
        assert(acc * 10 + d <= bound) by (nonlinear_arith)
            requires
                acc <= (bound - d) / 10,
                d <= bound,
        ;
        acc = acc * 10 + d;
        i = i + 1;
    }
    assert(body.take(i - from) =~= body);
    Some(acc)
}

/// `s.parse::<u32>()`, with `None` for an error.
pub fn parse_u32(s: &str) -> (r: Option<u32>)
    ensures
        r == parse_u32_spec(s@),
{
    let v = chars_of(s);
    let start: usize = if v.len() > 0 && v[0] == '+' {
        1
    } else {
        0
    };
    assert(v@.skip(start as int) =~= (if s@.len() > 0 && s@[0] == '+' {
        s@.drop_first()
    } else {
        s@
    }));
    match digits_up_to(&v, start, 0xffff_ffff) {
        Some(n) => Some(n as u32),
        None => None,
    }
}

/// `s.parse::<i64>()`, with `None` for an error.
pub fn parse_i64(s: &str) -> (r: Option<i64>)
    ensures
        r == parse_i64_spec(s@),
{
    let v = chars_of(s);
    if v.len() > 0 && v[0] == '-' {
        assert(v@.skip(1) =~= s@.drop_first());
        match digits_up_to(&v, 1, 0x8000_0000_0000_0000) {
            Some(n) => {
                if n == 0x8000_0000_0000_0000 {
                    Some(i64::MIN)
                } else {
                    Some(-(n as i64))
                }
            },
            None => None,
        }
    } else {
        let start: usize = if v.len() > 0 && v[0] == '+' {
            1
        } else {
            0
        };
        assert(v@.skip(start as int) =~= (if s@.len() > 0 && s@[0] == '+' {
            s@.drop_first()
        } else {
            s@
        }));
        match digits_up_to(&v, start, 0x7fff_ffff_ffff_ffff) {
            Some(n) => Some(n as i64),
            None => None,
        }
    }
}

// ---------------------------------------------------------------------------
// Decimal notation
// ---------------------------------------------------------------------------

/// The ASCII digit of `d`, for `d` below ten.
pub open spec fn digit_char(d: nat) -> char {
    ('0' as int + d) as char
}

/// The decimal notation of `n`, without leading zeros, as `to_string`
/// writes it.
pub open spec fn decimal(n: nat) -> Seq<char>
    decreases n,
{
    if n < 10 {
        seq![digit_char(n)]
    } else {
        decimal(n / 10).push(digit_char(n % 10))
    }
}

/// The decimal notation of `n`.
pub fn decimal_text(n: u32) -> (r: String)
    ensures
        r@ == decimal(n as nat),
{
    let mut digits: Vec<char> = Vec::new();
    let mut m = n;
    let ghost mut suffix: Seq<char> = Seq::empty();
    loop
        invariant_except_break
            digits@.reverse() == suffix,
            decimal(n as nat) == decimal(m as nat) + suffix,
            m <= n,
        ensures
            digits@.reverse() == decimal(n as nat),
        decreases m,
    {
        let d = m % 10;
        let c = ((d as u8) + ('0' as u8)) as char;
        assert(c == digit_char(d as nat));
        digits.push(c);
        proof {
            assert(digits@.reverse() =~= seq![c] + suffix);
            if m >= 10 {
                assert(decimal(m as nat) == decimal((m / 10) as nat).push(c));
                assert(decimal((m / 10) as nat).push(c) + suffix =~= decimal((m / 10) as nat) + (
                seq![c] + suffix));
            } else {
                assert(decimal(m as nat) == seq![c]);
            }
            suffix = seq![c] + suffix;
        }
        if m < 10 {
            proof {
                assert(decimal(n as nat) =~= suffix);
                assert(digits@.reverse() == decimal(n as nat));
            }
            break;
        }
        m = m / 10;
    }
    let mut out = String::new();
    let mut i = digits.len();
    while i > 0
        invariant
            i <= digits@.len(),
            out@ == digits@.reverse().subrange(0, digits@.len() - i),
        decreases i,
    {
        i = i - 1;
        push_char(&mut out, digits[i]);
        assert(out@ =~= digits@.reverse().subrange(0, digits@.len() - i));
    }
    assert(digits@.reverse().subrange(0, digits@.len() as int) =~= digits@.reverse());
    out
}

// ---------------------------------------------------------------------------
// Words
// ---------------------------------------------------------------------------

/// The part of `t` after its last space: the last item that splitting `t`
/// at spaces yields.
pub open spec fn after_last_space(t: Seq<char>) -> Seq<char>
    decreases t.len(),
{
    if t.len() == 0 {
        t
    } else if t.last() == ' ' {
        Seq::empty()
    } else {
        after_last_space(t.drop_last()).push(t.last())
    }
}

/// `after_last_space` of `v`.
pub fn after_last_space_exec(v: &Vec<char>) -> (r: Vec<char>)
    ensures
        r@ == after_last_space(v@),
{
    let mut start = v.len();
    assert(v@.take(v@.len() as int) =~= v@);
    assert(v@.skip(v@.len() as int) =~= Seq::<char>::empty());
    assert(after_last_space(v@) + Seq::<char>::empty() =~= after_last_space(v@));
    while start > 0 && v[start - 1] != ' '
        invariant
            start <= v@.len(),
            after_last_space(v@) == after_last_space(v@.take(start as int)) + v@.skip(
                start as int,
            ),
        decreases start,
    {
        let ghost t = v@.take(start as int);
        assert(t.drop_last() =~= v@.take(start - 1));
        assert(t.last() == v@[start - 1]);
        assert(v@.skip(start - 1) =~= seq![v@[start - 1]] + v@.skip(start as int));
        assert(after_last_space(t.drop_last()).push(t.last()) + v@.skip(start as int)
            =~= after_last_space(t.drop_last()) + v@.skip(start - 1));
        start = start - 1;
    }
    if start > 0 {
        assert(v@.take(start as int).last() == ' ');
    }
    assert(v@.take(v@.len() as int) =~= v@);
    let mut out: Vec<char> = Vec::new();
    let mut i = start;
    while i < v.len()
        invariant
            start <= i <= v@.len(),
            out@ == v@.subrange(start as int, i as int),
        decreases v@.len() - i,
    {
        out.push(v[i]);
        i = i + 1;
        assert(out@ =~= v@.subrange(start as int, i as int));
    }
    assert(out@ =~= after_last_space(v@.take(start as int)) + v@.skip(start as int));
    out
}

/// Position of the first whitespace character of `t` at or after `b`.
pub open spec fn white_from(t: Seq<char>, b: int) -> Option<int>
    decreases t.len() - b,
{
    if b < 0 || b >= t.len() {
        None
    } else if is_white(t[b]) {
        Some(b)
    } else {
        white_from(t, b + 1)
    }
}

/// `white_from` of `v` and `b`.
pub fn white_from_exec(v: &Vec<char>, b: usize) -> (r: Option<usize>)
    ensures
        r matches Some(e) ==> white_from(v@, b as int) == Some(e as int) && b <= e < v@.len(),
        r is None ==> white_from(v@, b as int) is None,
{
    let mut i = b;
    while i < v.len()
        invariant
            b <= i,
            white_from(v@, b as int) == white_from(v@, i as int),
        decreases v@.len() - i,
    {
        if is_whitespace(v[i]) {
            return Some(i);
        }
        i = i + 1;
    }
    None
}

/// The part of `t` before its first `-`, all of `t` without one.
pub open spec fn before_dash(t: Seq<char>) -> Seq<char> {
    match find(t, seq!['-']) {
        Some(i) => t.subrange(0, i),
        None => t,
    }
}

/// `before_dash` of `v`.
pub fn before_dash_exec(v: &Vec<char>) -> (r: String)
    ensures
        r@ == before_dash(v@),
{
    proof {
        lemma_find_from(v@, seq!['-'], 0);
    }
    match find_char_from(v, '-', 0) {
        Some(i) => string_of_range(v, 0, i),
        None => string_of(v),
    }
}

} // verus!
