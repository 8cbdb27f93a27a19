//! Branch categories, branch names and the slug they end in.

use vstd::prelude::*;
use crate::text::{
    append_str, ascii_lower, char_ascii_lower, char_is_ascii_alnum, chars_of, eq_str,
    is_ascii_alnum, is_char, lead_len, lemma_strip_ends, lemma_strip_fixed, string_of, strip, strip_char_vec, to_lowercase, trim, trim_vec,
    unicode_lowercase,
};

verus! {

/// The kind of work a branch carries.
#[derive(Debug, Clone, Copy, PartialEq, Eq, Structural)]
pub enum BranchCategory {
    Feature,
    Fix,
    Quality,
}

/// The canonical lowercase name of a category.
pub open spec fn category_text(category: BranchCategory) -> Seq<char> {
    match category {
        BranchCategory::Feature => "feature"@,
        BranchCategory::Fix => "fix"@,
        BranchCategory::Quality => "quality"@,
    }
}

/// The category whose canonical name is exactly `name`, if there is one.
pub open spec fn category_named(name: Seq<char>) -> Option<BranchCategory> {
    if name == "feature"@ {
        Some(BranchCategory::Feature)
    } else if name == "fix"@ {
        Some(BranchCategory::Fix)
    } else if name == "quality"@ {
        Some(BranchCategory::Quality)
    } else {
        None
    }
}

impl BranchCategory {
    /// The canonical lowercase name.
    pub fn as_str(&self) -> (name: &'static str)
        ensures
            name@ == category_text(*self),
    {
        match self {
            BranchCategory::Feature => "feature",
            BranchCategory::Fix => "fix",
            BranchCategory::Quality => "quality",
        }
    }

    /// Reads a category from a name that is already trimmed and lowercase.
    pub fn from_canonical(name: &str) -> (category: Option<Self>)
        ensures
            category == category_named(name@),
    {
        let chars = chars_of(name);
        if eq_str(&chars, "feature") {
            Some(BranchCategory::Feature)
        } else if eq_str(&chars, "fix") {
            Some(BranchCategory::Fix)
        } else if eq_str(&chars, "quality") {
            Some(BranchCategory::Quality)
        } else {
            None
        }
    }

    /// Reads a category from its name, ignoring surrounding whitespace and
    /// letter case. Any other text gives `None`.
    pub fn from_str(value: &str) -> (category: Option<Self>)
        ensures
            category == category_named(unicode_lowercase(trim(value@))),
    {
        let chars = chars_of(value);
        let trimmed = string_of(&trim_vec(&chars));
        let lowered = to_lowercase(trimmed.as_str());
        Self::from_canonical(lowered.as_str())
    }
}

/// What one character of a text becomes in its slug: ASCII letters and
/// digits in lowercase, everything else a hyphen.
pub open spec fn slug_char(c: char) -> char {
    if is_ascii_alnum(c) {
        ascii_lower(c)
    } else {
        '-'
    }
}

/// `s` with every character replaced by its [`slug_char`].
pub open spec fn slug_map(s: Seq<char>) -> Seq<char> {
    Seq::new(s.len(), |i: int| slug_char(s[i]))
}

/// `s` with every run of consecutive `c` reduced to a single `c`.
pub open spec fn squeeze(s: Seq<char>, c: char) -> Seq<char>
    decreases s.len(),
{
    if s.len() == 0 {
        s
    } else if s.len() >= 2 && s.last() == c && s[s.len() - 2] == c {
        squeeze(s.drop_last(), c)
    } else {
        squeeze(s.drop_last(), c).push(s.last())
    }
}

/// The slug of `s` before the placeholder is substituted: mapped, stripped
/// of hyphens at both ends, runs of hyphens reduced to one.
pub open spec fn slug_body(s: Seq<char>) -> Seq<char> {
    squeeze(strip(slug_map(s), is_char('-')), '-')
}

/// The slug of `s`: its [`slug_body`], or the placeholder `summary` where
/// that is empty.
pub open spec fn slug_of(s: Seq<char>) -> Seq<char> {
    if slug_body(s).len() == 0 {
        "summary"@
    } else {
        slug_body(s)
    }
}

/// Turns free text into a branch-name segment.
pub fn slugify(input: &str) -> (slug: String)
    ensures
        slug@ == slug_of(input@),
{
    let chars = chars_of(input);
    let mut mapped: Vec<char> = Vec::new();
    let mut i: usize = 0;
    while i < chars.len()
        invariant
            i <= chars.len(),
            mapped.len() == i,
            forall|j: int| 0 <= j < i ==> mapped@[j] == slug_char(chars@[j]),
        decreases chars.len() - i,
    {
        let c = chars[i];
        if char_is_ascii_alnum(c) {
            mapped.push(char_ascii_lower(c));
        } else {
            mapped.push('-');
        }
        i += 1;
    }
    assert(mapped@ =~= slug_map(chars@));
    let trimmed = strip_char_vec(&mapped, '-');
    let mut result: Vec<char> = Vec::new();
    let mut prev_dash = false;
    let mut k: usize = 0;
    while k < trimmed.len()
        invariant
            k <= trimmed.len(),
            result@ == squeeze(trimmed@.subrange(0, k as int), '-'),
            prev_dash == (k > 0 && trimmed@[k - 1] == '-'),
        decreases trimmed.len() - k,
    {
        let ch = trimmed[k];
        proof {
            let next = trimmed@.subrange(0, k + 1);
            assert(next.drop_last() == trimmed@.subrange(0, k as int));
            assert(next.last() == ch);
            if k > 0 {
                assert(next[next.len() - 2] == trimmed@[k - 1]);
            }
        }
        if ch == '-' {
            if !prev_dash {
                result.push(ch);
            }
            prev_dash = true;
        } else {
            result.push(ch);
            prev_dash = false;
        }
        k += 1;
    }
    assert(trimmed@.subrange(0, trimmed.len() as int) == trimmed@);
    if result.len() == 0 {
        "summary".to_owned()
    } else {
        string_of(&result)
    }
}

/// A branch identifier: category, ticket key and slug, joined by `/`.
#[derive(Debug, Clone)]
pub struct BranchName(pub String);

/// The text of the branch made of a category, a ticket key and a slug,
/// each as it is.
pub open spec fn segments_text(category: BranchCategory, ticket_key: Seq<char>, slug: Seq<char>) -> Seq<
    char,
> {
    category_text(category) + seq!['/'] + ticket_key + seq!['/'] + slug
}

/// The text of the branch named after `category`, `ticket_key` and
/// `summary`: the ticket key trimmed, the summary as its slug.
pub open spec fn branch_text(category: BranchCategory, ticket_key: Seq<char>, summary: Seq<char>) -> Seq<char> {
    segments_text(category, trim(ticket_key), slug_of(summary))
}

impl View for BranchName {
    type V = Seq<char>;

    open spec fn view(&self) -> Seq<char> {
        self.0@
    }
}

impl BranchName {
    /// The branch name as text.
    pub fn as_str(&self) -> (text: &str)
        ensures
            text@ == self@,
    {
        self.0.as_str()
    }

    /// Builds `{category}/{ticket_key}/{slug}` from a ticket key and a slug
    /// that are taken as they are.
    pub fn from_segments(category: &BranchCategory, ticket_key: &str, slug: &str) -> (name: Self)
        ensures
            name@ == segments_text(*category, ticket_key@, slug@),
    {
        let mut text: Vec<char> = Vec::new();
        append_str(&mut text, category.as_str());
        text.push('/');
        append_str(&mut text, ticket_key);
        text.push('/');
        append_str(&mut text, slug);
        BranchName(string_of(&text))
    }

    /// Builds `{category}/{ticket_key}/{slug}`, with the ticket key trimmed
    /// and the slug taken from `summary`.
    pub fn from_parts(category: &BranchCategory, ticket_key: &str, summary: &str) -> (name: Self)
        ensures
            name@ == branch_text(*category, ticket_key@, summary@),
    {
        let key = string_of(&trim_vec(&chars_of(ticket_key)));
        let slug = slugify(summary);
        Self::from_segments(category, key.as_str(), slug.as_str())
    }
}

/// Whether `r` has the shape of a slug: not empty, made of lowercase ASCII
/// letters, digits and hyphens, with no hyphen at either end and no two
/// hyphens in a row.
pub open spec fn is_slug(r: Seq<char>) -> bool {
    &&& r.len() > 0
    &&& forall|i: int| 0 <= i < r.len() ==> slug_char(#[trigger] r[i]) == r[i]
    &&& r[0] != '-'
    &&& r.last() != '-'
    &&& forall|i: int| 0 <= i < r.len() - 1 ==> !(#[trigger] r[i] == '-' && r[i + 1] == '-')
}

/// Mapping a character twice is the same as mapping it once.
pub proof fn lemma_slug_char_idempotent(c: char)
    ensures
        slug_char(slug_char(c)) == slug_char(c),
{
}

/// What [`squeeze`] keeps: the first and last character, emptiness, every
/// property that all characters share; and it leaves no two `c` in a row.
pub proof fn lemma_squeeze_props(s: Seq<char>, c: char)
    ensures
        squeeze(s, c).len() <= s.len(),
        (squeeze(s, c).len() == 0) == (s.len() == 0),
        s.len() > 0 ==> squeeze(s, c)[0] == s[0] && squeeze(s, c).last() == s.last(),
        forall|i: int|
            0 <= i < squeeze(s, c).len() - 1 ==> !(#[trigger] squeeze(s, c)[i] == c && squeeze(
                s,
                c,
            )[i + 1] == c),
        forall|i: int|
            0 <= i < squeeze(s, c).len() ==> exists|j: int|
                0 <= j < s.len() && s[j] == #[trigger] squeeze(s, c)[i],
    decreases s.len(),
{
    if s.len() > 0 {
        let t = s.drop_last();
        let q = squeeze(t, c);
        lemma_squeeze_props(t, c);
        let r = squeeze(s, c);
        if t.len() > 0 {
            assert(t[0] == s[0]);
            assert(t.last() == s[s.len() - 2]);
        }
        assert forall|i: int| 0 <= i < r.len() implies exists|j: int|
            0 <= j < s.len() && s[j] == #[trigger] r[i] by {
            if i < q.len() {
                let j = choose|j: int| 0 <= j < t.len() && t[j] == q[i];
                assert(s[j] == r[i]);
            } else {
                assert(s[s.len() - 1] == r[i]);
            }
        }
    }
}

/// A text without two `c` in a row is left as it is by [`squeeze`].
pub proof fn lemma_squeeze_fixed(s: Seq<char>, c: char)
    requires
        forall|i: int| 0 <= i < s.len() - 1 ==> !(#[trigger] s[i] == c && s[i + 1] == c),
    ensures
        squeeze(s, c) == s,
    decreases s.len(),
{
    if s.len() > 0 {
        let t = s.drop_last();
        assert forall|i: int| 0 <= i < t.len() - 1 implies !(#[trigger] t[i] == c && t[i + 1]
            == c) by {
            assert(t[i] == s[i] && t[i + 1] == s[i + 1]);
        }
        lemma_squeeze_fixed(t, c);
        if s.len() >= 2 {
            assert(!(s[s.len() - 2] == c && s[s.len() - 2 + 1] == c));
        }
        assert(t.push(s.last()) == s);
    }
}

/// Every slug has the shape [`is_slug`] describes.
pub proof fn lemma_slug_shape(s: Seq<char>)
    ensures
        is_slug(slug_of(s)),
{
    let body = slug_body(s);
    if body.len() == 0 {
        reveal_strlit("summary");
        let r = "summary"@;
        assert(r.len() == 7);
        assert(r[0] == 's' && r[1] == 'u' && r[2] == 'm' && r[3] == 'm' && r[4] == 'a' && r[5]
            == 'r' && r[6] == 'y');
    } else {
        let dash = is_char('-');
        let mapped = slug_map(s);
        let stripped = strip(mapped, dash);
        lemma_strip_ends(mapped, dash);
        lemma_squeeze_props(stripped, '-');
        assert forall|i: int| 0 <= i < body.len() implies slug_char(#[trigger] body[i])
            == body[i] by {
            let j = choose|j: int| 0 <= j < stripped.len() && stripped[j] == body[i];
            let k = lead_len(mapped, dash) + j;
            assert(stripped[j] == mapped[k]);
            lemma_slug_char_idempotent(s[k]);
        }
    }
}

/// A text that already has the shape of a slug is its own slug.
pub proof fn lemma_slug_of_slug(r: Seq<char>)
    requires
        is_slug(r),
    ensures
        slug_of(r) == r,
{
    assert(slug_map(r) =~= r);
    lemma_strip_fixed(r, is_char('-'));
    lemma_squeeze_fixed(r, '-');
}

/// Slugifying is idempotent: the slug of a slug is that slug.
pub proof fn lemma_slugify_idempotent(s: Seq<char>)
    ensures
        slug_of(slug_of(s)) == slug_of(s),
{
    lemma_slug_shape(s);
    lemma_slug_of_slug(slug_of(s));
}

} // verus!
