//! Character-level text helpers shared by the rest of the library.
//!
//! Text is modelled as `Seq<char>`; executable code works on `Vec<char>` and
//! converts at the boundary.

use vstd::prelude::*;

verus! {

/// Appends one character to a string (`String::push`).
///
/// Claimed, not proved: the string afterwards is the string before followed
/// by `c`.
#[verifier::external_body]
pub(crate) fn push_char(s: &mut String, c: char)
    ensures
        final(s)@ == old(s)@.push(c),
{
    s.push(c)
}

/// The characters of `s`, in order.
pub fn chars_of(s: &str) -> (out: Vec<char>)
    ensures
        out@ == s@,
{
    let mut out: Vec<char> = Vec::new();
    for c in it: s.chars()
        invariant
            out@ == s@.subrange(0, it.index() as int),
            it.seq() == s@,
    {
        out.push(c);
    }
    out
}

/// The string made of the characters of `v`, in order.
pub fn string_of(v: &Vec<char>) -> (out: String)
    ensures
        out@ == v@,
{
    let mut out = String::new();
    let mut i: usize = 0;
    while i < v.len()
        invariant
            i <= v.len(),
            out@ == v@.subrange(0, i as int),
        decreases v.len() - i,
    {
        push_char(&mut out, v[i]);
        i += 1;
    }
    out
}


/// Whether `c` is an ASCII letter or digit.
pub open spec fn is_ascii_alnum(c: char) -> bool {
    ('0' <= c && c <= '9') || ('a' <= c && c <= 'z') || ('A' <= c && c <= 'Z')
}

/// The ASCII lowercase form of `c`; characters other than `A`..`Z` are kept.
pub open spec fn ascii_lower(c: char) -> char {
    if 'A' <= c && c <= 'Z' {
        ((c as u8) + 32) as char
    } else {
        c
    }
}

/// Executable form of [`is_ascii_alnum`].
pub fn char_is_ascii_alnum(c: char) -> (b: bool)
    ensures
        b == is_ascii_alnum(c),
{
    ('0' <= c && c <= '9') || ('a' <= c && c <= 'z') || ('A' <= c && c <= 'Z')
}

/// Executable form of [`ascii_lower`].
pub fn char_ascii_lower(c: char) -> (r: char)
    ensures
        r == ascii_lower(c),
{
    if 'A' <= c && c <= 'Z' {
        let b: u8 = c as u8;
        (b + 32) as char
    } else {
        c
    }
}

/// Whether `c` has the Unicode `White_Space` property, as
/// `char::is_whitespace` reports it.
pub uninterp spec fn unicode_white_space(c: char) -> bool;

/// Whether `c` is whitespace. In the ASCII range that is the space and the
/// characters from tab to carriage return; beyond it, what Unicode says.
pub open spec fn white_space(c: char) -> bool {
    if c <= '\u{7f}' {
        c == ' ' || ('\u{9}' <= c && c <= '\u{d}')
    } else {
        unicode_white_space(c)
    }
}

/// The Unicode lowercase form of a text, as `str::to_lowercase` computes it.
pub uninterp spec fn unicode_lowercase(s: Seq<char>) -> Seq<char>;

/// Tests one character for Unicode whitespace (`char::is_whitespace`).
///
/// Claimed, not proved: the answer is a function of the character alone,
/// named [`unicode_white_space`].
#[verifier::external_body]
fn char_is_unicode_whitespace(c: char) -> (b: bool)
    ensures
        b == unicode_white_space(c),
{
    c.is_whitespace()
}

/// Executable form of [`white_space`]: ASCII characters are decided here,
/// all others by Unicode.
pub fn char_is_whitespace(c: char) -> (b: bool)
    ensures
        b == white_space(c),
{
    if c <= '\u{7f}' {
        c == ' ' || ('\u{9}' <= c && c <= '\u{d}')
    } else {
        char_is_unicode_whitespace(c)
    }
}

/// Lowercases a text by the Unicode rules (`str::to_lowercase`).
///
/// Claimed, not proved: the result is a function of the text alone, named
/// [`unicode_lowercase`].
#[verifier::external_body]
pub(crate) fn to_lowercase(s: &str) -> (out: String)
    ensures
        out@ == unicode_lowercase(s@),
{
    s.to_lowercase()
}

/// The predicate "is Unicode whitespace".
pub open spec fn ws() -> spec_fn(char) -> bool {
    |c: char| white_space(c)
}

/// The predicate "is the character `x`".
pub open spec fn is_char(x: char) -> spec_fn(char) -> bool {
    |c: char| c == x
}

/// How many characters at the front of `s` satisfy `p`.
pub open spec fn lead_len(s: Seq<char>, p: spec_fn(char) -> bool) -> nat
    decreases s.len(),
{
    if s.len() > 0 && p(s[0]) {
        1 + lead_len(s.drop_first(), p)
    } else {
        0
    }
}

/// How many characters at the back of `s` satisfy `p`.
pub open spec fn trail_len(s: Seq<char>, p: spec_fn(char) -> bool) -> nat
    decreases s.len(),
{
    if s.len() > 0 && p(s.last()) {
        1 + trail_len(s.drop_last(), p)
    } else {
        0
    }
}

/// `s` without its longest prefix of characters that satisfy `p`.
pub open spec fn skip_while(s: Seq<char>, p: spec_fn(char) -> bool) -> Seq<char> {
    s.subrange(lead_len(s, p) as int, s.len() as int)
}

/// `s` without its longest suffix of characters that satisfy `p`.
pub open spec fn drop_tail_while(s: Seq<char>, p: spec_fn(char) -> bool) -> Seq<char> {
    s.subrange(0, s.len() - trail_len(s, p))
}

/// `s` with the characters that satisfy `p` removed from both ends.
pub open spec fn strip(s: Seq<char>, p: spec_fn(char) -> bool) -> Seq<char> {
    drop_tail_while(skip_while(s, p), p)
}

/// `s` without leading whitespace.
pub open spec fn trim_start(s: Seq<char>) -> Seq<char> {
    skip_while(s, ws())
}

/// `s` without trailing whitespace.
pub open spec fn trim_end(s: Seq<char>) -> Seq<char> {
    drop_tail_while(s, ws())
}

/// `s` without leading and trailing whitespace.
pub open spec fn trim(s: Seq<char>) -> Seq<char> {
    strip(s, ws())
}

/// A prefix length `k` whose characters all satisfy `p`, and which ends the
/// text or is followed by a character that does not, is `lead_len`.
pub proof fn lemma_lead_len_is(s: Seq<char>, p: spec_fn(char) -> bool, k: int)
    requires
        0 <= k <= s.len(),
        forall|j: int| 0 <= j < k ==> p(#[trigger] s[j]),
        k == s.len() || !p(s[k]),
    ensures
        lead_len(s, p) == k,
    decreases s.len(),
{
    if k > 0 {
        let t = s.drop_first();
        assert forall|j: int| 0 <= j < k - 1 implies p(#[trigger] t[j]) by {
            assert(t[j] == s[j + 1]);
        }
        if k - 1 < t.len() {
            assert(t[k - 1] == s[k]);
        }
        lemma_lead_len_is(t, p, k - 1);
    }
}

/// The mirror image of [`lemma_lead_len_is`] for the back of the text.
pub proof fn lemma_trail_len_is(s: Seq<char>, p: spec_fn(char) -> bool, k: int)
    requires
        0 <= k <= s.len(),
        forall|j: int| s.len() - k <= j < s.len() ==> p(#[trigger] s[j]),
        k == s.len() || !p(s[s.len() - k - 1]),
    ensures
        trail_len(s, p) == k,
    decreases s.len(),
{
    if k > 0 {
        let t = s.drop_last();
        assert forall|j: int| t.len() - (k - 1) <= j < t.len() implies p(#[trigger] t[j]) by {
            assert(t[j] == s[j]);
        }
        if k - 1 < t.len() {
            assert(t[t.len() - (k - 1) - 1] == s[s.len() - k - 1]);
        }
        lemma_trail_len_is(t, p, k - 1);
    }
}

/// The characters of `v` from index `from` up to, not including, `to`.
pub fn slice_of(v: &Vec<char>, from: usize, to: usize) -> (out: Vec<char>)
    requires
        from <= to <= v.len(),
    ensures
        out@ == v@.subrange(from as int, to as int),
{
    let mut out: Vec<char> = Vec::new();
    let mut i: usize = from;
    while i < to
        invariant
            from <= i <= to <= v.len(),
            out@ == v@.subrange(from as int, i as int),
        decreases to - i,
    {
        out.push(v[i]);
        i += 1;
    }
    out
}

/// Appends the characters of `src` to `dst`.
pub fn append_vec(dst: &mut Vec<char>, src: &Vec<char>)
    ensures
        final(dst)@ == old(dst)@ + src@,
{
    let mut i: usize = 0;
    while i < src.len()
        invariant
            i <= src.len(),
            dst@ == old(dst)@ + src@.subrange(0, i as int),
        decreases src.len() - i,
    {
        dst.push(src[i]);
        i += 1;
    }
}

/// Appends the characters of `s` to `dst`.
pub fn append_str(dst: &mut Vec<char>, s: &str)
    ensures
        final(dst)@ == old(dst)@ + s@,
{
    let src = chars_of(s);
    append_vec(dst, &src);
}

/// Whether two texts hold the same characters.
pub fn vec_eq(a: &Vec<char>, b: &Vec<char>) -> (same: bool)
    ensures
        same == (a@ == b@),
{
    if a.len() != b.len() {
        return false;
    }
    let mut i: usize = 0;
    while i < a.len()
        invariant
            i <= a.len(),
            a.len() == b.len(),
            a@.subrange(0, i as int) == b@.subrange(0, i as int),
        decreases a.len() - i,
    {
        if a[i] != b[i] {
            return false;
        }
        assert(a@.subrange(0, i + 1) == a@.subrange(0, i as int).push(a@[i as int]));
        assert(b@.subrange(0, i + 1) == b@.subrange(0, i as int).push(b@[i as int]));
        i += 1;
    }
    assert(a@ == a@.subrange(0, a.len() as int));
    assert(b@ == b@.subrange(0, b.len() as int));
    true
}

/// Whether `v` holds exactly the characters of `s`.
pub fn eq_str(v: &Vec<char>, s: &str) -> (same: bool)
    ensures
        same == (v@ == s@),
{
    let other = chars_of(s);
    vec_eq(v, &other)
}

/// The index of the first character of `v` that is not whitespace, or the
/// length of `v` if there is none.
pub fn leading_whitespace(v: &Vec<char>) -> (k: usize)
    ensures
        k == lead_len(v@, ws()),
        k <= v.len(),
{
    let mut i: usize = 0;
    while i < v.len() && char_is_whitespace(v[i])
        invariant
            i <= v.len(),
            forall|j: int| 0 <= j < i ==> ws()(#[trigger] v@[j]),
        decreases v.len() - i,
    {
        i += 1;
    }
    proof {
        lemma_lead_len_is(v@, ws(), i as int);
    }
    i
}

/// The number of whitespace characters at the end of `v`.
pub fn trailing_whitespace(v: &Vec<char>) -> (k: usize)
    ensures
        k == trail_len(v@, ws()),
        k <= v.len(),
{
    let n = v.len();
    let mut k: usize = 0;
    while k < n && char_is_whitespace(v[n - k - 1])
        invariant
            n == v.len(),
            k <= n,
            forall|j: int| n - k <= j < n ==> ws()(#[trigger] v@[j]),
        decreases n - k,
    {
        k += 1;
    }
    proof {
        lemma_trail_len_is(v@, ws(), k as int);
    }
    k
}

/// `v` without leading whitespace.
pub fn trim_start_vec(v: &Vec<char>) -> (out: Vec<char>)
    ensures
        out@ == trim_start(v@),
{
    let k = leading_whitespace(v);
    slice_of(v, k, v.len())
}

/// `v` without trailing whitespace.
pub fn trim_end_vec(v: &Vec<char>) -> (out: Vec<char>)
    ensures
        out@ == trim_end(v@),
{
    let k = trailing_whitespace(v);
    slice_of(v, 0, v.len() - k)
}

/// `v` without leading and trailing whitespace.
pub fn trim_vec(v: &Vec<char>) -> (out: Vec<char>)
    ensures
        out@ == trim(v@),
{
    let front = trim_start_vec(v);
    trim_end_vec(&front)
}

/// The number of characters equal to `c` at the front of `v`.
pub fn leading_run(v: &Vec<char>, c: char) -> (k: usize)
    ensures
        k == lead_len(v@, is_char(c)),
        k <= v.len(),
{
    let mut i: usize = 0;
    while i < v.len() && v[i] == c
        invariant
            i <= v.len(),
            forall|j: int| 0 <= j < i ==> is_char(c)(#[trigger] v@[j]),
        decreases v.len() - i,
    {
        i += 1;
    }
    proof {
        lemma_lead_len_is(v@, is_char(c), i as int);
    }
    i
}

/// The number of characters equal to `c` at the end of `v`.
pub fn trailing_run(v: &Vec<char>, c: char) -> (k: usize)
    ensures
        k == trail_len(v@, is_char(c)),
        k <= v.len(),
{
    let n = v.len();
    let mut k: usize = 0;
    while k < n && v[n - k - 1] == c
        invariant
            n == v.len(),
            k <= n,
            forall|j: int| n - k <= j < n ==> is_char(c)(#[trigger] v@[j]),
        decreases n - k,
    {
        k += 1;
    }
    proof {
        lemma_trail_len_is(v@, is_char(c), k as int);
    }
    k
}

/// `v` without the characters equal to `c` at either end.
pub fn strip_char_vec(v: &Vec<char>, c: char) -> (out: Vec<char>)
    ensures
        out@ == strip(v@, is_char(c)),
{
    let a = leading_run(v, c);
    let front = slice_of(v, a, v.len());
    let b = trailing_run(&front, c);
    slice_of(&front, 0, front.len() - b)
}

/// `v` without the characters equal to `c` at its end.
pub fn drop_tail_char_vec(v: &Vec<char>, c: char) -> (out: Vec<char>)
    ensures
        out@ == drop_tail_while(v@, is_char(c)),
{
    let b = trailing_run(v, c);
    slice_of(v, 0, v.len() - b)
}

/// The first `lead_len` characters satisfy `p`, and the one after them, if
/// there is one, does not.
pub proof fn lemma_lead_len_props(s: Seq<char>, p: spec_fn(char) -> bool)
    ensures
        lead_len(s, p) <= s.len(),
        forall|j: int| 0 <= j < lead_len(s, p) ==> p(#[trigger] s[j]),
        lead_len(s, p) < s.len() ==> !p(s[lead_len(s, p) as int]),
    decreases s.len(),
{
    if s.len() > 0 && p(s[0]) {
        let t = s.drop_first();
        lemma_lead_len_props(t, p);
        assert forall|j: int| 0 <= j < lead_len(s, p) implies p(#[trigger] s[j]) by {
            if j > 0 {
                assert(s[j] == t[j - 1]);
            }
        }
        if lead_len(s, p) < s.len() {
            assert(s[lead_len(s, p) as int] == t[lead_len(t, p) as int]);
        }
    }
}

/// The last `trail_len` characters satisfy `p`, and the one before them, if
/// there is one, does not.
pub proof fn lemma_trail_len_props(s: Seq<char>, p: spec_fn(char) -> bool)
    ensures
        trail_len(s, p) <= s.len(),
        forall|j: int| s.len() - trail_len(s, p) <= j < s.len() ==> p(#[trigger] s[j]),
        trail_len(s, p) < s.len() ==> !p(s[s.len() - trail_len(s, p) - 1]),
    decreases s.len(),
{
    if s.len() > 0 && p(s.last()) {
        let t = s.drop_last();
        lemma_trail_len_props(t, p);
        assert forall|j: int| s.len() - trail_len(s, p) <= j < s.len() implies p(
            #[trigger] s[j],
        ) by {
            if j < s.len() - 1 {
                assert(s[j] == t[j]);
            }
        }
        if trail_len(s, p) < s.len() {
            assert(s[s.len() - trail_len(s, p) - 1] == t[t.len() - trail_len(t, p) - 1]);
        }
    }
}

/// What is left after stripping neither begins nor ends with a character
/// that satisfies `p`, and is a contiguous part of the text.
pub proof fn lemma_strip_ends(s: Seq<char>, p: spec_fn(char) -> bool)
    ensures
        strip(s, p).len() > 0 ==> !p(strip(s, p)[0]) && !p(strip(s, p).last()),
        lead_len(s, p) + strip(s, p).len() <= s.len(),
        forall|i: int|
            0 <= i < strip(s, p).len() ==> #[trigger] strip(s, p)[i] == s[lead_len(s, p) + i],
{
    lemma_lead_len_props(s, p);
    let t = skip_while(s, p);
    lemma_trail_len_props(t, p);
    if t.len() > 0 {
        assert(t[0] == s[lead_len(s, p) as int]);
        if trail_len(t, p) == t.len() {
            assert(p(t[0]));
        }
    }
}

/// A text that neither begins nor ends with a character satisfying `p` is
/// left as it is by [`strip`].
pub proof fn lemma_strip_fixed(s: Seq<char>, p: spec_fn(char) -> bool)
    requires
        s.len() > 0 ==> !p(s[0]) && !p(s.last()),
    ensures
        strip(s, p) == s,
{
    lemma_lead_len_is(s, p, 0);
    assert(skip_while(s, p) == s);
    lemma_trail_len_is(s, p, 0);
    assert(drop_tail_while(s, p) == s);
}

/// Whether `needle` occurs in `hay` as a contiguous part.
pub open spec fn contains(hay: Seq<char>, needle: Seq<char>) -> bool {
    exists|i: int| occurs_at(hay, needle, i)
}

/// Whether `needle` occurs in `hay` at index `i`.
pub open spec fn occurs_at(hay: Seq<char>, needle: Seq<char>, i: int) -> bool {
    0 <= i && i + needle.len() <= hay.len() && hay.subrange(i, i + needle.len()) == needle
}

/// Whether `needle` occurs in `hay` at index `at`.
pub fn matches_at(hay: &Vec<char>, needle: &Vec<char>, at: usize) -> (hit: bool)
    ensures
        hit == occurs_at(hay@, needle@, at as int),
{
    if at > hay.len() || needle.len() > hay.len() - at {
        return false;
    }
    let mut j: usize = 0;
    while j < needle.len()
        invariant
            j <= needle.len(),
            at + needle.len() <= hay.len(),
            hay@.subrange(at as int, at + j) == needle@.subrange(0, j as int),
        decreases needle.len() - j,
    {
        if hay[at + j] != needle[j] {
            assert(hay@.subrange(at as int, at + needle.len())[j as int] != needle@[j as int]);
            return false;
        }
        assert(hay@.subrange(at as int, at + j + 1) == hay@.subrange(at as int, at + j).push(
            hay@[at + j],
        ));
        assert(needle@.subrange(0, j + 1) == needle@.subrange(0, j as int).push(needle@[j as int]));
        j += 1;
    }
    assert(needle@.subrange(0, needle.len() as int) == needle@);
    true
}

/// Whether `needle` occurs anywhere in `hay`.
pub fn contains_vec(hay: &Vec<char>, needle: &Vec<char>) -> (found: bool)
    ensures
        found == contains(hay@, needle@),
{
    if needle.len() > hay.len() {
        assert forall|i: int| !occurs_at(hay@, needle@, i) by {}
        return false;
    }
    if needle.len() == 0 {
        assert(hay@.subrange(0, 0) =~= needle@);
        assert(occurs_at(hay@, needle@, 0));
        return true;
    }
    let last = hay.len() - needle.len();
    let mut i: usize = 0;
    while i <= last
        invariant
            i <= last + 1,
            needle.len() >= 1,
            last == hay.len() - needle.len(),
            needle.len() <= hay.len(),
            forall|k: int| 0 <= k < i ==> !occurs_at(hay@, needle@, k),
        decreases last + 1 - i,
    {
        if matches_at(hay, needle, i) {
            return true;
        }
        i += 1;
    }
    assert forall|k: int| !occurs_at(hay@, needle@, k) by {}
    false
}

/// Whether the text `needle` occurs anywhere in `hay`.
pub fn contains_str(hay: &Vec<char>, needle: &str) -> (found: bool)
    ensures
        found == contains(hay@, needle@),
{
    let pattern = chars_of(needle);
    contains_vec(hay, &pattern)
}

/// The character that stands for the digit `d`.
pub open spec fn digit_char(d: nat) -> char {
    (('0' as u8) + d) as char
}

/// The decimal text of `n`, without leading zeros.
pub open spec fn decimal(n: nat) -> Seq<char>
    decreases n,
{
    if n < 10 {
        seq![digit_char(n)]
    } else {
        decimal(n / 10).push(digit_char(n % 10))
    }
}

/// The decimal text of `n`.
pub fn decimal_digits(n: usize) -> (out: Vec<char>)
    ensures
        out@ == decimal(n as nat),
    decreases n,
{
    if n < 10 {
        let d: u8 = n as u8;
        let mut out: Vec<char> = Vec::new();
        out.push((48u8 + d) as char);
        out
    } else {
        let mut out = decimal_digits(n / 10);
        let d: u8 = (n % 10) as u8;
        out.push((48u8 + d) as char);
        out
    }
}

/// `s` with every `from` replaced by `to`.
pub open spec fn replace_char(s: Seq<char>, from: char, to: char) -> Seq<char> {
    Seq::new(s.len(), |i: int| if s[i] == from { to } else { s[i] })
}

/// `v` with every `from` replaced by `to`.
pub fn replace_char_vec(v: &Vec<char>, from: char, to: char) -> (out: Vec<char>)
    ensures
        out@ == replace_char(v@, from, to),
{
    let mut out: Vec<char> = Vec::new();
    let mut i: usize = 0;
    while i < v.len()
        invariant
            i <= v.len(),
            out.len() == i,
            forall|j: int| 0 <= j < i ==> out@[j] == replace_char(v@, from, to)[j],
        decreases v.len() - i,
    {
        let c = v[i];
        out.push(if c == from { to } else { c });
        i += 1;
    }
    assert(out@ =~= replace_char(v@, from, to));
    out
}

/// The words of `s` when `cur` is the word being read: maximal runs of
/// characters that are not whitespace.
pub open spec fn words_from(s: Seq<char>, cur: Seq<char>) -> Seq<Seq<char>>
    decreases s.len(),
{
    let closed = if cur.len() > 0 {
        seq![cur]
    } else {
        Seq::<Seq<char>>::empty()
    };
    if s.len() == 0 {
        closed
    } else if white_space(s[0]) {
        closed + words_from(s.drop_first(), Seq::<char>::empty())
    } else {
        words_from(s.drop_first(), cur.push(s[0]))
    }
}

/// The whitespace-separated words of `s`, in order.
pub open spec fn words(s: Seq<char>) -> Seq<Seq<char>> {
    words_from(s, Seq::<char>::empty())
}

/// The texts that a list of character vectors holds.
pub open spec fn texts(vs: Seq<Vec<char>>) -> Seq<Seq<char>> {
    Seq::new(vs.len(), |i: int| vs[i]@)
}

/// Splits `v` into its whitespace-separated words.
pub fn split_words(v: &Vec<char>) -> (out: Vec<Vec<char>>)
    ensures
        texts(out@) == words(v@),
{
    let mut done: Vec<Vec<char>> = Vec::new();
    let mut cur: Vec<char> = Vec::new();
    let mut i: usize = 0;
    assert(v@.skip(0) == v@);
    assert(texts(done@) + words(v@) == words(v@));
    while i < v.len()
        invariant
            i <= v.len(),
            words(v@) == texts(done@) + words_from(v@.skip(i as int), cur@),
        decreases v.len() - i,
    {
        let c = v[i];
        proof {
            assert(v@.skip(i as int)[0] == c);
            assert(v@.skip(i as int).drop_first() == v@.skip(i + 1));
        }
        if char_is_whitespace(c) {
            if cur.len() > 0 {
                let ghost before = texts(done@);
                let ghost word = cur@;
                done.push(cur);
                cur = Vec::new();
                assert(texts(done@) == before + seq![word]);
                assert(before + (seq![word] + words_from(v@.skip(i + 1), Seq::<char>::empty()))
                    == (before + seq![word]) + words_from(v@.skip(i + 1), Seq::<char>::empty()));
            } else {
                assert(Seq::<Seq<char>>::empty() + words_from(
                    v@.skip(i + 1),
                    Seq::<char>::empty(),
                ) == words_from(v@.skip(i + 1), Seq::<char>::empty()));
                assert(cur@ == Seq::<char>::empty());
            }
        } else {
            cur.push(c);
        }
        i += 1;
    }
    if cur.len() > 0 {
        let ghost before = texts(done@);
        let ghost word = cur@;
        done.push(cur);
        assert(texts(done@) == before + seq![word]);
    } else {
        assert(texts(done@) + Seq::<Seq<char>>::empty() == texts(done@));
    }
    done
}

/// The texts of `parts` with `sep` between each two neighbours.
pub open spec fn join(parts: Seq<Seq<char>>, sep: Seq<char>) -> Seq<char>
    decreases parts.len(),
{
    if parts.len() == 0 {
        Seq::<char>::empty()
    } else if parts.len() == 1 {
        parts[0]
    } else {
        join(parts.drop_last(), sep) + sep + parts.last()
    }
}

/// Joins `parts` with `sep` between each two neighbours.
pub fn join_vecs(parts: &Vec<Vec<char>>, sep: &str) -> (out: Vec<char>)
    ensures
        out@ == join(texts(parts@), sep@),
{
    let mut out: Vec<char> = Vec::new();
    let mut i: usize = 0;
    assert(texts(parts@).take(0) == Seq::<Seq<char>>::empty());
    while i < parts.len()
        invariant
            i <= parts.len(),
            out@ == join(texts(parts@).take(i as int), sep@),
        decreases parts.len() - i,
    {
        proof {
            let next = texts(parts@).take(i + 1);
            assert(next.drop_last() == texts(parts@).take(i as int));
            assert(next.last() == parts@[i as int]@);
        }
        if i > 0 {
            append_str(&mut out, sep);
        } else {
            assert(Seq::<char>::empty() + parts@[0]@ == parts@[0]@);
        }
        append_vec(&mut out, &parts[i]);
        i += 1;
    }
    assert(texts(parts@).take(parts.len() as int) == texts(parts@));
    out
}

/// The predicate "is not the character `x`".
pub open spec fn is_not_char(x: char) -> spec_fn(char) -> bool {
    |c: char| c != x
}

/// The index of the first `c` in `v`, or the length of `v` if there is
/// none.
pub fn first_index_of(v: &Vec<char>, c: char) -> (k: usize)
    ensures
        k == lead_len(v@, is_not_char(c)),
        k <= v.len(),
{
    let mut i: usize = 0;
    while i < v.len() && v[i] != c
        invariant
            i <= v.len(),
            forall|j: int| 0 <= j < i ==> is_not_char(c)(#[trigger] v@[j]),
        decreases v.len() - i,
    {
        i += 1;
    }
    proof {
        lemma_lead_len_is(v@, is_not_char(c), i as int);
    }
    i
}

/// The number of characters after the last `c` in `v`, or the length of `v`
/// if there is none.
pub fn count_after_last(v: &Vec<char>, c: char) -> (k: usize)
    ensures
        k == trail_len(v@, is_not_char(c)),
        k <= v.len(),
{
    let n = v.len();
    let mut k: usize = 0;
    while k < n && v[n - k - 1] != c
        invariant
            n == v.len(),
            k <= n,
            forall|j: int| n - k <= j < n ==> is_not_char(c)(#[trigger] v@[j]),
        decreases n - k,
    {
        k += 1;
    }
    proof {
        lemma_trail_len_is(v@, is_not_char(c), k as int);
    }
    k
}

/// A line without the carriage return that stood before its line feed.
pub open spec fn without_cr(line: Seq<char>) -> Seq<char> {
    if line.len() > 0 && line.last() == '\r' {
        line.drop_last()
    } else {
        line
    }
}

/// The lines of `s` when `cur` is the line being read. A line ends at a
/// line feed, which is dropped together with a carriage return before it;
/// what follows the last line feed is a line only if it is not empty.
pub open spec fn lines_from(s: Seq<char>, cur: Seq<char>) -> Seq<Seq<char>>
    decreases s.len(),
{
    if s.len() == 0 {
        if cur.len() > 0 {
            seq![cur]
        } else {
            Seq::<Seq<char>>::empty()
        }
    } else if s[0] == '\n' {
        seq![without_cr(cur)] + lines_from(s.drop_first(), Seq::<char>::empty())
    } else {
        lines_from(s.drop_first(), cur.push(s[0]))
    }
}

/// The lines of `s`, in order.
pub open spec fn lines(s: Seq<char>) -> Seq<Seq<char>> {
    lines_from(s, Seq::<char>::empty())
}

/// Splits `v` into its lines.
pub fn split_lines(v: &Vec<char>) -> (out: Vec<Vec<char>>)
    ensures
        texts(out@) == lines(v@),
{
    let mut done: Vec<Vec<char>> = Vec::new();
    let mut cur: Vec<char> = Vec::new();
    let mut i: usize = 0;
    assert(v@.skip(0) == v@);
    assert(texts(done@) + lines(v@) == lines(v@));
    while i < v.len()
        invariant
            i <= v.len(),
            lines(v@) == texts(done@) + lines_from(v@.skip(i as int), cur@),
        decreases v.len() - i,
    {
        let c = v[i];
        proof {
            assert(v@.skip(i as int)[0] == c);
            assert(v@.skip(i as int).drop_first() == v@.skip(i + 1));
        }
        if c == '\n' {
            let ghost before = texts(done@);
            let ghost rest = lines_from(v@.skip(i + 1), Seq::<char>::empty());
            let n = cur.len();
            if n > 0 && cur[n - 1] == '\r' {
                cur.pop();
            }
            let ghost line = cur@;
            done.push(cur);
            cur = Vec::new();
            assert(texts(done@) == before + seq![line]);
            assert(before + (seq![line] + rest) == (before + seq![line]) + rest);
        } else {
            cur.push(c);
        }
        i += 1;
    }
    if cur.len() > 0 {
        let ghost before = texts(done@);
        let ghost line = cur@;
        done.push(cur);
        assert(texts(done@) == before + seq![line]);
    } else {
        assert(texts(done@) + Seq::<Seq<char>>::empty() == texts(done@));
    }
    done
}

/// Those of `items` that hold more than whitespace, in order.
pub open spec fn nonblank(items: Seq<Seq<char>>) -> Seq<Seq<char>>
    decreases items.len(),
{
    if items.len() == 0 {
        items
    } else if trim(items.last()).len() == 0 {
        nonblank(items.drop_last())
    } else {
        nonblank(items.drop_last()).push(items.last())
    }
}

/// Keeps those of `items` that hold more than whitespace.
pub fn keep_nonblank(items: Vec<Vec<char>>) -> (out: Vec<Vec<char>>)
    ensures
        texts(out@) == nonblank(texts(items@)),
{
    let ghost all = texts(items@);
    let mut out: Vec<Vec<char>> = Vec::new();
    let mut i: usize = 0;
    assert(all.take(0) == Seq::<Seq<char>>::empty());
    assert(texts(out@) == Seq::<Seq<char>>::empty());
    while i < items.len()
        invariant
            i <= items.len(),
            all == texts(items@),
            texts(out@) == nonblank(all.take(i as int)),
        decreases items.len() - i,
    {
        proof {
            let next = all.take(i + 1);
            assert(next.drop_last() == all.take(i as int));
            assert(next.last() == items@[i as int]@);
        }
        if trim_vec(&items[i]).len() > 0 {
            let ghost before = texts(out@);
            let item = slice_of(&items[i], 0, items[i].len());
            assert(item@ == items@[i as int]@);
            out.push(item);
            assert(texts(out@) == before.push(items@[i as int]@));
        }
        i += 1;
    }
    assert(all.take(items.len() as int) == all);
    out
}

/// The first `n` of `items`, or all of them if there are fewer.
pub open spec fn at_most(items: Seq<Seq<char>>, n: nat) -> Seq<Seq<char>> {
    if items.len() <= n {
        items
    } else {
        items.take(n as int)
    }
}

/// Each of `items` with `prefix` before it.
pub open spec fn prefixed(items: Seq<Seq<char>>, prefix: Seq<char>) -> Seq<Seq<char>> {
    Seq::new(items.len(), |i: int| prefix + items[i])
}

/// The number that a decimal text stands for.
pub open spec fn decimal_value(digits: Seq<char>) -> nat
    decreases digits.len(),
{
    if digits.len() == 0 {
        0
    } else {
        (decimal_value(digits.drop_last()) * 10 + (digits.last() as nat - 48)) as nat
    }
}

/// Reading the decimal text of a number gives the number back, so
/// different numbers have different decimal texts.
pub proof fn lemma_decimal_value(n: nat)
    ensures
        decimal_value(decimal(n)) == n,
        decimal(n).len() > 0,
    decreases n,
{
    if n < 10 {
        assert(decimal(n).drop_last() == Seq::<char>::empty());
        assert(decimal(n).last() == digit_char(n));
        assert(digit_char(n) as nat == 48 + n);
        assert(decimal_value(Seq::<char>::empty()) == 0);
    } else {
        lemma_decimal_value(n / 10);
        assert(decimal(n).drop_last() == decimal(n / 10));
        assert(decimal(n).last() == digit_char(n % 10));
        assert(digit_char(n % 10) as nat == 48 + n % 10);
    }
}

/// A text that holds a character which does not satisfy `p` keeps at least
/// one character when it is stripped.
pub proof fn lemma_strip_nonempty(s: Seq<char>, p: spec_fn(char) -> bool, i: int)
    requires
        0 <= i < s.len(),
        !p(s[i]),
    ensures
        strip(s, p).len() > 0,
{
    lemma_lead_len_props(s, p);
    let lead = lead_len(s, p) as int;
    if lead > i {
        assert(p(s[i]));
    }
    let t = skip_while(s, p);
    lemma_trail_len_props(t, p);
    assert(t[i - lead] == s[i]);
    if trail_len(t, p) == t.len() {
        assert(p(t[i - lead]));
    }
}

/// A text that holds a character which is not whitespace is not blank.
pub proof fn lemma_trim_nonblank(s: Seq<char>, i: int)
    requires
        0 <= i < s.len(),
        !white_space(s[i]),
    ensures
        trim(s).len() > 0,
{
    lemma_strip_nonempty(s, ws(), i);
}

/// Joined parts begin as the first part does, where that is not empty.
pub proof fn lemma_join_first(parts: Seq<Seq<char>>, sep: Seq<char>)
    requires
        parts.len() > 0,
        parts[0].len() > 0,
    ensures
        join(parts, sep).len() > 0,
        join(parts, sep)[0] == parts[0][0],
    decreases parts.len(),
{
    if parts.len() >= 2 {
        let init = parts.drop_last();
        assert(init[0] == parts[0]);
        lemma_join_first(init, sep);
    }
}

} // verus!
