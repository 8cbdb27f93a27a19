//! Drafting a ticket: the heuristic draft, the checks that the answer of
//! the language model has to pass, and the steps from the call to the draft.

use vstd::prelude::*;
use crate::domain::branch::{category_named, BranchCategory};
use crate::domain::change::ChangeSummary;
use crate::domain::ticket::{DraftView, TicketDraft};
use crate::infra::llm_reply::{
    answer_text, first_answer_text, normalize_json_blob, normalized_blob, GenerateContentResponse,
};
use crate::text::{
    append_str, append_vec, ascii_lower, at_most, char_ascii_lower, char_is_ascii_alnum, chars_of,
    contains, contains_str, decimal, decimal_digits, is_ascii_alnum, join, join_vecs,
    lemma_join_first, lemma_trim_nonblank, replace_char, replace_char_vec, split_words, string_of,
    texts, to_lowercase, trim, trim_vec, unicode_lowercase, white_space, words,
};

verus! {

/// The category that a lowercased change summary suggests. Mentions of a
/// fix win over mentions of upkeep; without either it is a feature.
pub open spec fn category_of_lowered(lower: Seq<char>) -> BranchCategory {
    if contains(lower, "fix"@) || contains(lower, "bug"@) || contains(lower, "error"@) {
        BranchCategory::Fix
    } else if contains(lower, "refactor"@) || contains(lower, "cleanup"@) || contains(
        lower,
        "docs"@,
    ) || contains(lower, "chore"@) {
        BranchCategory::Quality
    } else {
        BranchCategory::Feature
    }
}

/// The category that a change summary suggests.
pub open spec fn heuristic_category_of(summary: Seq<char>) -> BranchCategory {
    category_of_lowered(unicode_lowercase(summary))
}

/// Infers the category from a summary that is already lowercase.
pub fn category_from_lowered(lower: &str) -> (category: BranchCategory)
    ensures
        category == category_of_lowered(lower@),
{
    let text = chars_of(lower);
    if contains_str(&text, "fix") || contains_str(&text, "bug") || contains_str(&text, "error") {
        BranchCategory::Fix
    } else if contains_str(&text, "refactor") || contains_str(&text, "cleanup") || contains_str(
        &text,
        "docs",
    ) || contains_str(&text, "chore") {
        BranchCategory::Quality
    } else {
        BranchCategory::Feature
    }
}

/// Infers the branch category from the change summary.
pub fn heuristic_category(changes: &ChangeSummary) -> (category: BranchCategory)
    ensures
        category == heuristic_category_of(changes.summary@),
{
    let lower = to_lowercase(changes.summary.as_str());
    category_from_lowered(lower.as_str())
}

/// Whether a character of a word survives in the summary slug.
pub open spec fn kept_in_slug(c: char) -> bool {
    is_ascii_alnum(c) || c == '-'
}

/// A word reduced to its ASCII letters, digits and hyphens, in lowercase.
pub open spec fn clean_word(w: Seq<char>) -> Seq<char>
    decreases w.len(),
{
    if w.len() == 0 {
        w
    } else if kept_in_slug(w.last()) {
        clean_word(w.drop_last()).push(ascii_lower(w.last()))
    } else {
        clean_word(w.drop_last())
    }
}

/// The cleaned forms of `ws`, without those that came out empty.
pub open spec fn clean_words(ws: Seq<Seq<char>>) -> Seq<Seq<char>>
    decreases ws.len(),
{
    if ws.len() == 0 {
        ws
    } else if clean_word(ws.last()).len() == 0 {
        clean_words(ws.drop_last())
    } else {
        clean_words(ws.drop_last()).push(clean_word(ws.last()))
    }
}

/// The summary slug of an empty summary: it tells how many files changed,
/// or that an update is pending where none did.
pub open spec fn blank_slug(files_changed: nat) -> Seq<char> {
    if files_changed == 0 {
        "pending-update"@
    } else {
        "update-"@ + decimal(files_changed) + "-files"@
    }
}

/// The summary slug made of the words of a summary: the first eight of
/// them, cleaned and joined by hyphens, or a stand-in where nothing is left
/// of them.
pub open spec fn words_slug(ws: Seq<Seq<char>>) -> Seq<char> {
    if clean_words(at_most(ws, 8)).len() == 0 {
        "pending-update"@
    } else {
        join(clean_words(at_most(ws, 8)), "-"@)
    }
}

/// The summary slug of a change summary: the one for an empty summary
/// where it holds nothing at all, else that of its words. A summary of
/// nothing but whitespace has no words and gets the stand-in.
pub open spec fn summary_slug(summary: Seq<char>, files_changed: nat) -> Seq<char> {
    if summary.len() == 0 {
        blank_slug(files_changed)
    } else {
        words_slug(words(summary))
    }
}

/// Reduces a word to what a slug may hold.
pub fn clean_word_vec(w: &Vec<char>) -> (out: Vec<char>)
    ensures
        out@ == clean_word(w@),
{
    let mut out: Vec<char> = Vec::new();
    let mut i: usize = 0;
    while i < w.len()
        invariant
            i <= w.len(),
            out@ == clean_word(w@.subrange(0, i as int)),
        decreases w.len() - i,
    {
        let c = w[i];
        proof {
            let next = w@.subrange(0, i + 1);
            assert(next.drop_last() == w@.subrange(0, i as int));
            assert(next.last() == c);
        }
        if char_is_ascii_alnum(c) || c == '-' {
            out.push(char_ascii_lower(c));
        }
        i += 1;
    }
    assert(w@.subrange(0, w.len() as int) == w@);
    out
}

/// Writes the summary slug of an empty summary.
pub fn slug_for_blank(files_changed: usize) -> (slug: String)
    ensures
        slug@ == blank_slug(files_changed as nat),
{
    if files_changed == 0 {
        return "pending-update".to_owned();
    }
    let mut text: Vec<char> = Vec::new();
    append_str(&mut text, "update-");
    append_vec(&mut text, &decimal_digits(files_changed));
    append_str(&mut text, "-files");
    string_of(&text)
}

/// Writes the summary slug made of the words `all`.
pub fn slug_from_words(all: &Vec<Vec<char>>) -> (slug: String)
    ensures
        slug@ == words_slug(texts(all@)),
{
    let limit: usize = if all.len() <= 8 {
        all.len()
    } else {
        8
    };
    let ghost taken = at_most(texts(all@), 8);
    assert(taken == texts(all@).take(limit as int));
    let mut kept: Vec<Vec<char>> = Vec::new();
    let mut i: usize = 0;
    assert(taken.take(0) == Seq::<Seq<char>>::empty());
    while i < limit
        invariant
            i <= limit <= all.len(),
            taken == texts(all@).take(limit as int),
            texts(kept@) == clean_words(taken.take(i as int)),
        decreases limit - i,
    {
        proof {
            let next = taken.take(i + 1);
            assert(next.drop_last() == taken.take(i as int));
            assert(next.last() == all@[i as int]@);
        }
        let word = clean_word_vec(&all[i]);
        if word.len() > 0 {
            let ghost before = texts(kept@);
            let ghost w = word@;
            kept.push(word);
            assert(texts(kept@) == before.push(w));
        }
        i += 1;
    }
    assert(taken.take(limit as int) == taken);
    if kept.len() == 0 {
        "pending-update".to_owned()
    } else {
        string_of(&join_vecs(&kept, "-"))
    }
}

/// Infers the branch summary slug from the change summary.
pub fn heuristic_summary(changes: &ChangeSummary) -> (slug: String)
    ensures
        slug@ == summary_slug(changes.summary@, changes.files_changed as nat),
{
    if changes.summary.as_str().is_empty() {
        slug_for_blank(changes.files_changed)
    } else {
        slug_from_words(&split_words(&chars_of(changes.summary.as_str())))
    }
}

/// The verb a heuristic title opens with.
pub open spec fn title_verb(category: BranchCategory) -> Seq<char> {
    match category {
        BranchCategory::Feature => "Add "@,
        BranchCategory::Fix => "Fix "@,
        BranchCategory::Quality => "Improve "@,
    }
}

/// The heuristic title: the verb of the category, then the summary slug with
/// spaces for hyphens.
pub open spec fn heuristic_title(category: BranchCategory, slug: Seq<char>) -> Seq<char> {
    title_verb(category) + replace_char(slug, '-', ' ')
}

/// The heuristic description of a change summary.
pub open spec fn heuristic_description(summary: Seq<char>) -> Seq<char> {
    if summary.len() == 0 {
        "Summarize the local modifications before creating the ticket."@
    } else {
        "Summary of uncommitted work:\n"@ + summary
    }
}

/// The heuristic draft for a change summary whose category is known.
pub open spec fn draft_in_category(
    category: BranchCategory,
    summary: Seq<char>,
    files_changed: nat,
) -> DraftView {
    DraftView {
        title: heuristic_title(category, summary_slug(summary, files_changed)),
        description: heuristic_description(summary),
        branch_category: category,
        branch_summary: summary_slug(summary, files_changed),
    }
}

/// The heuristic draft for a change summary.
pub open spec fn heuristic_draft(summary: Seq<char>, files_changed: nat) -> DraftView {
    draft_in_category(heuristic_category_of(summary), summary, files_changed)
}

/// Builds the heuristic draft for changes whose category has been decided.
pub fn draft_for_category(category: BranchCategory, changes: &ChangeSummary) -> (draft:
    TicketDraft)
    ensures
        draft@ == draft_in_category(category, changes.summary@, changes.files_changed as nat),
{
    let branch_summary = heuristic_summary(changes);
    let mut description: Vec<char> = Vec::new();
    if changes.summary.as_str().is_empty() {
        append_str(
            &mut description,
            "Summarize the local modifications before creating the ticket.",
        );
    } else {
        append_str(&mut description, "Summary of uncommitted work:\n");
        append_str(&mut description, changes.summary.as_str());
    }
    let mut title: Vec<char> = Vec::new();
    match category {
        BranchCategory::Feature => append_str(&mut title, "Add "),
        BranchCategory::Fix => append_str(&mut title, "Fix "),
        BranchCategory::Quality => append_str(&mut title, "Improve "),
    }
    append_vec(&mut title, &replace_char_vec(&chars_of(branch_summary.as_str()), '-', ' '));
    TicketDraft {
        title: string_of(&title),
        description: string_of(&description),
        branch_category: category,
        branch_summary,
    }
}

/// Builds the draft that needs no language model. It is a function of the
/// changes alone and never fails.
pub fn heuristic_ticket(changes: &ChangeSummary) -> (draft: TicketDraft)
    ensures
        draft@ == heuristic_draft(changes.summary@, changes.files_changed as nat),
{
    draft_for_category(heuristic_category(changes), changes)
}

/// The four texts the model is asked for, as they were parsed from its
/// answer.
pub struct GeminiDraft {
    pub title: String,
    pub description: String,
    pub branch_category: String,
    pub branch_summary: String,
}

/// The draft that passes validation, given what was read from the model's
/// fields: the category if it named one, title and description trimmed, and
/// the branch summary in lowercase unless it was blank.
///
/// Without a category, a title or a description it is `fallback`; without
/// a branch summary it is the model's draft with the summary of `fallback`.
pub open spec fn assembled(
    category: Option<BranchCategory>,
    title: Seq<char>,
    description: Seq<char>,
    branch_summary: Option<Seq<char>>,
    fallback: DraftView,
) -> DraftView {
    match category {
        None => fallback,
        Some(branch_category) => if title.len() == 0 || description.len() == 0 {
            fallback
        } else {
            DraftView {
                title,
                description,
                branch_category,
                branch_summary: match branch_summary {
                    Some(slug) => slug,
                    None => fallback.branch_summary,
                },
            }
        },
    }
}

/// The branch summary read from the model's field: nothing where the field
/// is blank, else the field trimmed and in lowercase.
pub open spec fn summary_read(field: Seq<char>) -> Option<Seq<char>> {
    if trim(field).len() == 0 {
        None
    } else {
        Some(unicode_lowercase(trim(field)))
    }
}

/// The draft that validation lets through for the parsed answer `raw`.
pub open spec fn vetted(raw: GeminiDraft, fallback: DraftView) -> DraftView {
    assembled(
        category_named(unicode_lowercase(trim(raw.branch_category@))),
        trim(raw.title@),
        trim(raw.description@),
        summary_read(raw.branch_summary@),
        fallback,
    )
}

/// Puts a draft together from what was read from the model's fields, or
/// hands back `fallback` where the category, the title or the description
/// is missing.
pub fn assemble_draft(
    category: Option<BranchCategory>,
    title: String,
    description: String,
    branch_summary: Option<String>,
    fallback: TicketDraft,
) -> (draft: TicketDraft)
    ensures
        draft@ == assembled(
            category,
            title@,
            description@,
            match branch_summary {
                Some(slug) => Some(slug@),
                None => None,
            },
            fallback@,
        ),
{
    match category {
        None => fallback,
        Some(branch_category) => {
            if title.as_str().is_empty() || description.as_str().is_empty() {
                return fallback;
            }
            let branch_summary = match branch_summary {
                Some(slug) => slug,
                None => fallback.branch_summary,
            };
            TicketDraft { title, description, branch_category, branch_summary }
        },
    }
}

/// Validates a parsed answer: an unknown category, a blank title or
/// a blank description gives the heuristic draft; a blank branch summary is
/// replaced by the heuristic one.
pub fn accept_draft(raw: &GeminiDraft, changes: &ChangeSummary) -> (draft: TicketDraft)
    ensures
        draft@ == vetted(*raw, heuristic_draft(changes.summary@, changes.files_changed as nat)),
{
    let fallback = heuristic_ticket(changes);
    let category = BranchCategory::from_str(raw.branch_category.as_str());
    let title = string_of(&trim_vec(&chars_of(raw.title.as_str())));
    let description = string_of(&trim_vec(&chars_of(raw.description.as_str())));
    let slug = string_of(&trim_vec(&chars_of(raw.branch_summary.as_str())));
    let branch_summary = if slug.as_str().is_empty() {
        None
    } else {
        Some(to_lowercase(slug.as_str()))
    };
    assemble_draft(category, title, description, branch_summary, fallback)
}

/// Why a parsed answer is set aside for the heuristic draft.
pub enum Rejection {
    /// The category, quoted here, names none.
    UnknownCategory(String),
    /// The title is blank.
    BlankTitle,
    /// The description is blank.
    BlankDescription,
}

/// The kinds of [`Rejection`], without what they quote.
#[derive(Debug, Clone, Copy, PartialEq, Eq, Structural)]
pub enum RejectionKind {
    UnknownCategory,
    BlankTitle,
    BlankDescription,
}

/// Why the parsed answer `raw` is set aside, if it is. The category is
/// looked at first, then the title, then the description.
pub open spec fn rejection(raw: GeminiDraft) -> Option<RejectionKind> {
    if category_named(unicode_lowercase(trim(raw.branch_category@))) is None {
        Some(RejectionKind::UnknownCategory)
    } else if trim(raw.title@).len() == 0 {
        Some(RejectionKind::BlankTitle)
    } else if trim(raw.description@).len() == 0 {
        Some(RejectionKind::BlankDescription)
    } else {
        None
    }
}

/// The warning that goes with a rejection.
pub open spec fn rejection_text(kind: RejectionKind, category: Seq<char>) -> Seq<char> {
    match kind {
        RejectionKind::UnknownCategory => "Gemini returned invalid branch_category '"@ + category
            + "'; using heuristic ticket."@,
        RejectionKind::BlankTitle => "Gemini returned empty title; using heuristic ticket."@,
        RejectionKind::BlankDescription =>
            "Gemini returned empty description; using heuristic ticket."@,
    }
}

impl Rejection {
    /// The kind of this rejection.
    pub open spec fn kind_of(self) -> RejectionKind {
        match self {
            Rejection::UnknownCategory(_) => RejectionKind::UnknownCategory,
            Rejection::BlankTitle => RejectionKind::BlankTitle,
            Rejection::BlankDescription => RejectionKind::BlankDescription,
        }
    }

    /// The category this rejection quotes, if it quotes one.
    pub open spec fn quoted(self) -> Seq<char> {
        match self {
            Rejection::UnknownCategory(category) => category@,
            _ => Seq::<char>::empty(),
        }
    }

    /// The warning to show for this rejection.
    pub fn warning(&self) -> (text: String)
        ensures
            text@ == rejection_text(self.kind_of(), self.quoted()),
    {
        match self {
            Rejection::UnknownCategory(category) => {
                let mut text = chars_of("Gemini returned invalid branch_category '");
                append_str(&mut text, category.as_str());
                append_str(&mut text, "'; using heuristic ticket.");
                string_of(&text)
            },
            Rejection::BlankTitle => {
                "Gemini returned empty title; using heuristic ticket.".to_owned()
            },
            Rejection::BlankDescription => {
                "Gemini returned empty description; using heuristic ticket.".to_owned()
            },
        }
    }
}

/// Says why a parsed answer is set aside for the heuristic draft, or that
/// it is not.
pub fn rejection_of(raw: &GeminiDraft) -> (reason: Option<Rejection>)
    ensures
        match reason {
            Some(found) => rejection(*raw) == Some(found.kind_of()) && (found is UnknownCategory
                ==> found.quoted() == raw.branch_category@),
            None => rejection(*raw) is None,
        },
{
    if BranchCategory::from_str(raw.branch_category.as_str()).is_none() {
        return Some(Rejection::UnknownCategory(raw.branch_category.clone()));
    }
    if trim_vec(&chars_of(raw.title.as_str())).len() == 0 {
        return Some(Rejection::BlankTitle);
    }
    if trim_vec(&chars_of(raw.description.as_str())).len() == 0 {
        return Some(Rejection::BlankDescription);
    }
    None
}

/// A rejected answer gives the fallback, whatever that is; an answer that
/// is not rejected gives a draft with the model's category, title and
/// description.
pub proof fn lemma_rejection_decides(raw: GeminiDraft, fallback: DraftView)
    ensures
        rejection(raw) is Some ==> vetted(raw, fallback) == fallback,
        rejection(raw) is None ==> {
            &&& Some(vetted(raw, fallback).branch_category) == category_named(
                unicode_lowercase(trim(raw.branch_category@)),
            )
            &&& vetted(raw, fallback).title == trim(raw.title@)
            &&& vetted(raw, fallback).description == trim(raw.description@)
        },
{
}

/// How the call to the model ended.
pub enum ModelResponse {
    /// The request could not be sent, or timed out.
    Unreachable,
    /// The provider answered with a status other than success.
    Rejected,
    /// The body was not the expected envelope.
    Unreadable,
    /// The envelope of an answer.
    Envelope(GenerateContentResponse),
}

/// What drafting does next.
pub enum DraftStep {
    /// Parse this JSON text and come back with the result.
    Parse(String),
    /// The draft is ready.
    Done(TicketDraft),
}

/// The text to parse, if the call ended with an answer that holds one.
pub open spec fn text_to_parse(response: ModelResponse) -> Option<Seq<char>> {
    match response {
        ModelResponse::Envelope(envelope) => match answer_text(envelope) {
            Some(text) => Some(normalized_blob(text)),
            None => None,
        },
        _ => None,
    }
}

/// Decides what to do with the outcome of the call: an answer with text in
/// it goes to the parser, cut down to its JSON object; anything else ends
/// in the heuristic draft.
pub fn on_response(response: &ModelResponse, changes: &ChangeSummary) -> (step: DraftStep)
    ensures
        match step {
            DraftStep::Parse(json) => text_to_parse(*response) == Some(json@),
            DraftStep::Done(draft) => text_to_parse(*response) is None && draft@
                == heuristic_draft(changes.summary@, changes.files_changed as nat),
        },
{
    match response {
        ModelResponse::Envelope(envelope) => match first_answer_text(envelope) {
            Some(text) => DraftStep::Parse(normalize_json_blob(text.as_str())),
            None => DraftStep::Done(heuristic_ticket(changes)),
        },
        _ => DraftStep::Done(heuristic_ticket(changes)),
    }
}

/// The draft that results once the parser has spoken: the validated answer, or
/// the heuristic draft where the text did not parse.
pub open spec fn draft_after_parse(
    parsed: Option<GeminiDraft>,
    summary: Seq<char>,
    files_changed: nat,
) -> DraftView {
    match parsed {
        Some(raw) => vetted(raw, heuristic_draft(summary, files_changed)),
        None => heuristic_draft(summary, files_changed),
    }
}

/// Finishes drafting with what the parser made of the text.
pub fn on_parsed(parsed: Option<GeminiDraft>, changes: &ChangeSummary) -> (draft: TicketDraft)
    ensures
        draft@ == draft_after_parse(parsed, changes.summary@, changes.files_changed as nat),
{
    match parsed {
        Some(raw) => accept_draft(&raw, changes),
        None => heuristic_ticket(changes),
    }
}

/// Every word that [`clean_words`] keeps has at least one character.
pub proof fn lemma_clean_words_nonempty(ws: Seq<Seq<char>>)
    ensures
        forall|i: int| 0 <= i < clean_words(ws).len() ==> (#[trigger] clean_words(ws)[i]).len() > 0,
    decreases ws.len(),
{
    if ws.len() > 0 {
        lemma_clean_words_nonempty(ws.drop_last());
        let init = clean_words(ws.drop_last());
        assert forall|i: int| 0 <= i < clean_words(ws).len() implies (#[trigger] clean_words(
            ws,
        )[i]).len() > 0 by {
            if i < init.len() {
                assert(clean_words(ws)[i] == init[i]);
            }
        }
    }
}

/// Joining is at least as long as its last part.
pub proof fn lemma_join_len(parts: Seq<Seq<char>>, sep: Seq<char>)
    requires
        parts.len() > 0,
    ensures
        join(parts, sep).len() >= parts.last().len(),
{
}

/// The summary slug is never empty.
pub proof fn lemma_summary_slug_nonempty(summary: Seq<char>, files_changed: nat)
    ensures
        summary_slug(summary, files_changed).len() > 0,
{
    reveal_strlit("pending-update");
    reveal_strlit("update-");
    let kept = clean_words(at_most(words(summary), 8));
    if summary.len() > 0 && kept.len() > 0 {
        lemma_clean_words_nonempty(at_most(words(summary), 8));
        lemma_join_len(kept, "-"@);
        assert(kept[kept.len() - 1].len() > 0);
    }
}

/// The heuristic draft is complete whatever the changes are: its title,
/// description and branch summary all hold at least one character.
pub proof fn lemma_heuristic_draft_complete(
    category: BranchCategory,
    summary: Seq<char>,
    files_changed: nat,
)
    ensures
        draft_in_category(category, summary, files_changed).complete(),
        heuristic_draft(summary, files_changed).complete(),
{
    lemma_summary_slug_nonempty(summary, files_changed);
    reveal_strlit("Add ");
    reveal_strlit("Fix ");
    reveal_strlit("Improve ");
    reveal_strlit("Summarize the local modifications before creating the ticket.");
    reveal_strlit("Summary of uncommitted work:\n");
}

/// Every character of a cleaned word is an ASCII letter, a digit or a
/// hyphen, and so no whitespace.
pub proof fn lemma_clean_word_chars(w: Seq<char>)
    ensures
        forall|i: int|
            0 <= i < clean_word(w).len() ==> kept_in_slug(#[trigger] clean_word(w)[i])
                && !white_space(clean_word(w)[i]),
    decreases w.len(),
{
    if w.len() > 0 {
        lemma_clean_word_chars(w.drop_last());
        let init = clean_word(w.drop_last());
        assert forall|i: int| 0 <= i < clean_word(w).len() implies kept_in_slug(
            #[trigger] clean_word(w)[i],
        ) && !white_space(clean_word(w)[i]) by {
            if i < init.len() {
                assert(clean_word(w)[i] == init[i]);
            }
        }
    }
}

/// The first of the words that [`clean_words`] keeps begins with a
/// character that is no whitespace.
pub proof fn lemma_clean_words_first(ws: Seq<Seq<char>>)
    requires
        clean_words(ws).len() > 0,
    ensures
        clean_words(ws)[0].len() > 0,
        !white_space(clean_words(ws)[0][0]),
    decreases ws.len(),
{
    if ws.len() > 0 {
        let init = clean_words(ws.drop_last());
        if init.len() > 0 {
            lemma_clean_words_first(ws.drop_last());
            assert(clean_words(ws)[0] == init[0]);
        } else {
            lemma_clean_word_chars(ws.last());
            assert(clean_words(ws)[0] == clean_word(ws.last()));
        }
    }
}

/// The summary slug is never blank.
pub proof fn lemma_summary_slug_nonblank(summary: Seq<char>, files_changed: nat)
    ensures
        trim(summary_slug(summary, files_changed)).len() > 0,
{
    reveal_strlit("pending-update");
    reveal_strlit("update-");
    let slug = summary_slug(summary, files_changed);
    let kept = clean_words(at_most(words(summary), 8));
    if summary.len() > 0 && kept.len() > 0 {
        lemma_clean_words_first(at_most(words(summary), 8));
        lemma_join_first(kept, "-"@);
    } else if summary.len() == 0 && files_changed > 0 {
        assert(slug[0] == 'u');
    } else {
        assert(slug[0] == 'p');
    }
    lemma_trim_nonblank(slug, 0);
}

/// The heuristic draft passes every check that a draft has to pass later
/// on: its title, its description and its branch summary all hold more
/// than whitespace, whatever the changes are.
pub proof fn lemma_heuristic_draft_nonblank(
    category: BranchCategory,
    summary: Seq<char>,
    files_changed: nat,
)
    ensures
        trim(draft_in_category(category, summary, files_changed).title).len() > 0,
        trim(draft_in_category(category, summary, files_changed).description).len() > 0,
        trim(draft_in_category(category, summary, files_changed).branch_summary).len() > 0,
        trim(heuristic_draft(summary, files_changed).title).len() > 0,
        trim(heuristic_draft(summary, files_changed).description).len() > 0,
        trim(heuristic_draft(summary, files_changed).branch_summary).len() > 0,
{
    lemma_summary_slug_nonblank(summary, files_changed);
    reveal_strlit("Add ");
    reveal_strlit("Fix ");
    reveal_strlit("Improve ");
    reveal_strlit("Summarize the local modifications before creating the ticket.");
    reveal_strlit("Summary of uncommitted work:\n");
    let slug = summary_slug(summary, files_changed);
    let title = heuristic_title(category, slug);
    assert(title[0] == 'A' || title[0] == 'F' || title[0] == 'I');
    lemma_trim_nonblank(title, 0);
    let description = heuristic_description(summary);
    assert(description[0] == 'S');
    lemma_trim_nonblank(description, 0);
    let other = heuristic_title(heuristic_category_of(summary), slug);
    assert(other[0] == 'A' || other[0] == 'F' || other[0] == 'I');
    lemma_trim_nonblank(other, 0);
}

/// Whether validation rejects something in the parsed answer `raw`: an
/// unknown category, or a blank title, description or branch summary.
pub open spec fn is_rejected(raw: GeminiDraft) -> bool {
    ||| category_named(unicode_lowercase(trim(raw.branch_category@))) is None
    ||| trim(raw.title@).len() == 0
    ||| trim(raw.description@).len() == 0
    ||| trim(raw.branch_summary@).len() == 0
}

/// Drafting is total under failure: the heuristic draft, which stands in
/// whenever the call gave no text to parse, is complete; and whenever the
/// text did not parse or validation rejected a field, the result is a
/// complete draft, in all but the case of a blank branch summary the
/// heuristic draft itself.
pub proof fn lemma_fallback_total(
    parsed: Option<GeminiDraft>,
    summary: Seq<char>,
    files_changed: nat,
)
    ensures
        heuristic_draft(summary, files_changed).complete(),
        parsed is None ==> draft_after_parse(parsed, summary, files_changed) == heuristic_draft(
            summary,
            files_changed,
        ),
        parsed matches Some(raw) && is_rejected(raw) ==> draft_after_parse(
            parsed,
            summary,
            files_changed,
        ).complete(),
        parsed matches Some(raw) && (category_named(
            unicode_lowercase(trim(raw.branch_category@)),
        ) is None || trim(raw.title@).len() == 0 || trim(raw.description@).len() == 0)
            ==> draft_after_parse(parsed, summary, files_changed) == heuristic_draft(
            summary,
            files_changed,
        ),
{
    lemma_heuristic_draft_complete(heuristic_category_of(summary), summary, files_changed);
}

} // verus!
