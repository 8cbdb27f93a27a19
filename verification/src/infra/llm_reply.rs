//! What is made of the language model's answer: the text that is picked
//! from it and the JSON object that is cut out of that text.

use vstd::prelude::*;
use crate::text::{
    ascii_lower, char_ascii_lower, chars_of, count_after_last, first_index_of, is_char,
    is_not_char, lead_len, leading_run, slice_of, string_of, trail_len, trailing_run, trim,
    trim_end, trim_end_vec, trim_start, trim_start_vec, trim_vec,
};

verus! {

/// One part of a candidate's content.
pub struct CandidatePart {
    pub text: Option<String>,
}

/// The content of a candidate.
pub struct CandidateContent {
    pub parts: Vec<CandidatePart>,
}

/// One candidate answer.
pub struct Candidate {
    pub content: Option<CandidateContent>,
}

/// The envelope the model's answer comes in.
pub struct GenerateContentResponse {
    pub candidates: Vec<Candidate>,
}

/// The texts of the parts that have one, in order.
pub open spec fn part_texts(parts: Seq<CandidatePart>) -> Seq<Seq<char>>
    decreases parts.len(),
{
    if parts.len() == 0 {
        Seq::<Seq<char>>::empty()
    } else {
        match parts.last().text {
            Some(text) => part_texts(parts.drop_last()).push(text@),
            None => part_texts(parts.drop_last()),
        }
    }
}

/// The texts of all parts of all candidates that have content, in order.
pub open spec fn candidate_texts(candidates: Seq<Candidate>) -> Seq<Seq<char>>
    decreases candidates.len(),
{
    if candidates.len() == 0 {
        Seq::<Seq<char>>::empty()
    } else {
        match candidates.last().content {
            Some(content) => candidate_texts(candidates.drop_last()) + part_texts(content.parts@),
            None => candidate_texts(candidates.drop_last()),
        }
    }
}

/// The first of `items` that is not blank, trimmed.
pub open spec fn first_nonblank(items: Seq<Seq<char>>) -> Option<Seq<char>>
    decreases items.len(),
{
    if items.len() == 0 {
        None
    } else if trim(items[0]).len() > 0 {
        Some(trim(items[0]))
    } else {
        first_nonblank(items.drop_first())
    }
}

/// The text the answer is read from: the first part, over all candidates,
/// that is not blank, trimmed.
pub open spec fn answer_text(response: GenerateContentResponse) -> Option<Seq<char>> {
    first_nonblank(candidate_texts(response.candidates@))
}

/// The texts that a list of strings holds.
pub open spec fn string_texts(items: Seq<String>) -> Seq<Seq<char>> {
    Seq::new(items.len(), |i: int| items[i]@)
}

/// Collects the part texts of every candidate.
fn collect_texts(response: &GenerateContentResponse) -> (out: Vec<String>)
    ensures
        string_texts(out@) == candidate_texts(response.candidates@),
{
    let mut out: Vec<String> = Vec::new();
    let mut i: usize = 0;
    assert(response.candidates@.subrange(0, 0) == Seq::<Candidate>::empty());
    assert(string_texts(out@) == Seq::<Seq<char>>::empty());
    while i < response.candidates.len()
        invariant
            i <= response.candidates.len(),
            string_texts(out@) == candidate_texts(response.candidates@.subrange(0, i as int)),
        decreases response.candidates.len() - i,
    {
        proof {
            let next = response.candidates@.subrange(0, i + 1);
            assert(next.drop_last() == response.candidates@.subrange(0, i as int));
            assert(next.last() == response.candidates@[i as int]);
        }
        match &response.candidates[i].content {
            Some(content) => {
                let ghost before = string_texts(out@);
                let mut j: usize = 0;
                assert(content.parts@.subrange(0, 0) == Seq::<CandidatePart>::empty());
                assert(before + Seq::<Seq<char>>::empty() == before);
                while j < content.parts.len()
                    invariant
                        j <= content.parts.len(),
                        string_texts(out@) == before + part_texts(
                            content.parts@.subrange(0, j as int),
                        ),
                    decreases content.parts.len() - j,
                {
                    proof {
                        let next = content.parts@.subrange(0, j + 1);
                        assert(next.drop_last() == content.parts@.subrange(0, j as int));
                        assert(next.last() == content.parts@[j as int]);
                    }
                    match &content.parts[j].text {
                        Some(text) => {
                            let ghost so_far = string_texts(out@);
                            out.push(text.clone());
                            assert(string_texts(out@) == so_far.push(text@));
                            assert(before + part_texts(content.parts@.subrange(0, j as int)).push(
                                text@,
                            ) == (before + part_texts(
                                content.parts@.subrange(0, j as int),
                            )).push(text@));
                        },
                        None => {},
                    }
                    j += 1;
                }
                assert(content.parts@.subrange(0, content.parts.len() as int) == content.parts@);
            },
            None => {},
        }
        i += 1;
    }
    assert(response.candidates@.subrange(0, response.candidates.len() as int)
        == response.candidates@);
    out
}

/// Picks the text the answer is read from, if the envelope holds any.
pub fn first_answer_text(response: &GenerateContentResponse) -> (out: Option<String>)
    ensures
        match out {
            Some(text) => answer_text(*response) == Some(text@),
            None => answer_text(*response) is None,
        },
{
    let all = collect_texts(response);
    let ghost items = string_texts(all@);
    let mut i: usize = 0;
    assert(items.skip(0) == items);
    while i < all.len()
        invariant
            i <= all.len(),
            items == string_texts(all@),
            items == candidate_texts(response.candidates@),
            first_nonblank(items) == first_nonblank(items.skip(i as int)),
        decreases all.len() - i,
    {
        proof {
            assert(items.skip(i as int)[0] == all@[i as int]@);
            assert(items.skip(i as int).drop_first() == items.skip(i + 1));
        }
        let trimmed = trim_vec(&chars_of(all[i].as_str()));
        if trimmed.len() > 0 {
            return Some(string_of(&trimmed));
        }
        i += 1;
    }
    None
}

/// Whether `t` opens with the language tag `json`, in any letter case.
pub open spec fn has_json_tag(t: Seq<char>) -> bool {
    &&& t.len() >= 4
    &&& ascii_lower(t[0]) == 'j'
    &&& ascii_lower(t[1]) == 's'
    &&& ascii_lower(t[2]) == 'o'
    &&& ascii_lower(t[3]) == 'n'
}

/// A trimmed answer without the code fence around it.
///
/// Where the text opens with three backticks, every complete group of three
/// backticks at its start goes, then a `json` tag if one follows, then one
/// closing group of three backticks, with the whitespace around each.
/// Any other text is left as it is.
pub open spec fn unfenced(t: Seq<char>) -> Seq<char> {
    let ticks = lead_len(t, is_char('`'));
    let opened = trim_start(t.skip(3 * (ticks as int / 3)));
    let untagged = if has_json_tag(opened) {
        trim_start(opened.skip(4))
    } else {
        opened
    };
    let body = trim_end(untagged);
    if ticks < 3 {
        t
    } else if trail_len(body, is_char('`')) >= 3 {
        trim_end(body.take(body.len() - 3))
    } else {
        body
    }
}

/// The part of `t` from its first `{` to its last `}`, both included.
/// Where the last `}` stands right before the first `{` nothing lies
/// between them and the part is empty. Where either is missing, or the
/// last `}` stands further before the first `{`, it is `t` itself.
pub open spec fn json_object_part(t: Seq<char>) -> Seq<char> {
    let start = lead_len(t, is_not_char('{'));
    let after = trail_len(t, is_not_char('}'));
    if start < t.len() && after < t.len() && start <= t.len() - after {
        t.subrange(start as int, t.len() - after)
    } else {
        t
    }
}

/// The JSON text that is cut out of an answer.
pub open spec fn normalized_blob(input: Seq<char>) -> Seq<char> {
    json_object_part(unfenced(trim(input)))
}

/// Removes the code fence around a trimmed answer.
pub fn strip_code_fence(t: &Vec<char>) -> (out: Vec<char>)
    ensures
        out@ == unfenced(t@),
{
    let ticks = leading_run(t, '`');
    if ticks < 3 {
        return slice_of(t, 0, t.len());
    }
    let opened = trim_start_vec(&slice_of(t, 3 * (ticks / 3), t.len()));
    let tagged = opened.len() >= 4 && char_ascii_lower(opened[0]) == 'j' && char_ascii_lower(
        opened[1],
    ) == 's' && char_ascii_lower(opened[2]) == 'o' && char_ascii_lower(opened[3]) == 'n';
    let untagged = if tagged {
        trim_start_vec(&slice_of(&opened, 4, opened.len()))
    } else {
        opened
    };
    let body = trim_end_vec(&untagged);
    if trailing_run(&body, '`') >= 3 {
        trim_end_vec(&slice_of(&body, 0, body.len() - 3))
    } else {
        body
    }
}

/// Cuts the JSON object out of a text.
pub fn cut_json_object(t: &Vec<char>) -> (out: Vec<char>)
    ensures
        out@ == json_object_part(t@),
{
    let start = first_index_of(t, '{');
    let after = count_after_last(t, '}');
    if start < t.len() && after < t.len() && start <= t.len() - after {
        slice_of(t, start, t.len() - after)
    } else {
        slice_of(t, 0, t.len())
    }
}

/// Prepares an answer for parsing: trims it, removes a code fence around
/// it, and keeps what stands between the first `{` and the last `}`.
pub fn normalize_json_blob(input: &str) -> (out: String)
    ensures
        out@ == normalized_blob(input@),
{
    let trimmed = trim_vec(&chars_of(input));
    let bare = strip_code_fence(&trimmed);
    string_of(&cut_json_object(&bare))
}

} // verus!
