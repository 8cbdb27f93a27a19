//! What is sent to the language model: the instruction, the prompt and the
//! request that carries them.

use vstd::prelude::*;
use crate::domain::branch::{category_text, BranchCategory};
use crate::domain::change::ChangeSummary;
use crate::error::AppError;
use crate::infra::llm::{heuristic_category, heuristic_category_of, heuristic_summary, summary_slug};
use crate::text::{
    append_str, append_vec, chars_of, decimal, decimal_digits, string_of, trim, trim_vec,
};

verus! {

/// How many seconds the model is given to answer. A call that takes longer
/// counts as one that could not be made.
pub const REQUEST_TIMEOUT_SECS: u64 = 20;

/// One piece of text in a request.
pub struct Part {
    pub text: String,
}

/// The system instruction of a request.
pub struct Instruction {
    pub parts: Vec<Part>,
}

/// One turn of the conversation in a request.
pub struct Content {
    pub role: String,
    pub parts: Vec<Part>,
}

/// The body of a content-generation request.
pub struct GenerateContentRequest {
    pub system_instruction: Option<Instruction>,
    pub contents: Vec<Content>,
}

/// A request ready to be posted: where to, and what.
pub struct ModelRequest {
    pub url: String,
    pub body: GenerateContentRequest,
}

impl Instruction {
    /// An instruction made of the one text `text`.
    pub fn new(text: &str) -> (out: Self)
        ensures
            out.parts@.len() == 1,
            out.parts@[0].text@ == text@,
    {
        let mut parts: Vec<Part> = Vec::new();
        parts.push(Part { text: text.to_owned() });
        Self { parts }
    }
}

impl Content {
    /// A turn spoken by the user, made of the one text `text`.
    pub fn user(text: String) -> (out: Self)
        ensures
            out.role@ == "user"@,
            out.parts@.len() == 1,
            out.parts@[0].text@ == text@,
    {
        let mut parts: Vec<Part> = Vec::new();
        parts.push(Part { text });
        Self { role: "user".to_owned(), parts }
    }
}

/// The instruction that tells the model what to return.
pub open spec fn system_prompt() -> Seq<char> {
    "\nYou are an assistant for a developer CLI. Given local git change summaries, draft a Jira ticket\nand git branch metadata. Respond with VALID JSON only, no markdown, no commentary.\n\nRules:\n- Keys: title, description, branch_category, branch_summary.\n- branch_category must be one of: \"feature\", \"fix\", \"quality\".\n- branch_summary must be a short, lower-case slug (hyphen-separated words <= 6 words).\n- description should be concise Markdown (bullets or short paragraphs) that references the planned work.\n- Keep title under 80 characters and actionable.\n- Ignore test changes if non-test changes exist.\n- Never invent work unrelated to the provided changes.\n"@
}

/// The change summary as the prompt shows it: trimmed, or a note that there
/// is none.
pub open spec fn shown_summary(summary: Seq<char>) -> Seq<char> {
    if trim(summary).len() == 0 {
        "(no diff summary provided)"@
    } else {
        trim(summary)
    }
}

/// The user prompt: the change summary, the number of files, the rules for
/// the answer, and the heuristic category and slug as hints.
pub open spec fn prompt_text(
    summary: Seq<char>,
    files_changed: nat,
    category: BranchCategory,
    baseline_summary: Seq<char>,
) -> Seq<char> {
    "Git status summary:\n"@ + shown_summary(summary) + "\n\nFiles changed: "@ + decimal(
        files_changed,
    )
        + "\n\nReturn only JSON with keys: title, description, branch_category, branch_summary.\nbranch_category must be feature, fix, or quality.\nbranch_summary must be a short hyphenated slug (<=6 words).\nUse concise Markdown in the description. Do not list changed files in the description.\nThe description should be a backward engineered Jira ticket, not a changelog.\nIgnore pure test-only changes when other files are touched; mention tests as follow-up if needed.\nHeuristic hint -> category: "@
        + category_text(category) + ", summary: "@ + baseline_summary
        + ".\nIf information is missing, make conservative assumptions and mention follow-up items."@
}

/// Writes the user prompt for `changes` with the given hints.
pub fn build_user_prompt(
    changes: &ChangeSummary,
    baseline_category: &BranchCategory,
    baseline_summary: &str,
) -> (prompt: String)
    ensures
        prompt@ == prompt_text(
            changes.summary@,
            changes.files_changed as nat,
            *baseline_category,
            baseline_summary@,
        ),
{
    let trimmed = trim_vec(&chars_of(changes.summary.as_str()));
    let mut text: Vec<char> = Vec::new();
    append_str(&mut text, "Git status summary:\n");
    if trimmed.len() == 0 {
        append_str(&mut text, "(no diff summary provided)");
    } else {
        append_vec(&mut text, &trimmed);
    }
    append_str(&mut text, "\n\nFiles changed: ");
    append_vec(&mut text, &decimal_digits(changes.files_changed));
    append_str(
        &mut text,
        "\n\nReturn only JSON with keys: title, description, branch_category, branch_summary.\nbranch_category must be feature, fix, or quality.\nbranch_summary must be a short hyphenated slug (<=6 words).\nUse concise Markdown in the description. Do not list changed files in the description.\nThe description should be a backward engineered Jira ticket, not a changelog.\nIgnore pure test-only changes when other files are touched; mention tests as follow-up if needed.\nHeuristic hint -> category: ",
    );
    append_str(&mut text, baseline_category.as_str());
    append_str(&mut text, ", summary: ");
    append_str(&mut text, baseline_summary);
    append_str(
        &mut text,
        ".\nIf information is missing, make conservative assumptions and mention follow-up items.",
    );
    string_of(&text)
}

/// The address a request for `model` is posted to, with the key attached.
pub open spec fn endpoint_text(model: Seq<char>, api_key: Seq<char>) -> Seq<char> {
    "https://generativelanguage.googleapis.com/v1beta/models/"@ + model + ":generateContent?key="@
        + api_key
}

/// Whether `request` is the request that asks `model` about the given
/// changes under the key `api_key`.
pub open spec fn is_request_for(
    request: ModelRequest,
    api_key: Seq<char>,
    model: Seq<char>,
    summary: Seq<char>,
    files_changed: nat,
) -> bool {
    &&& request.url@ == endpoint_text(model, api_key)
    &&& request.body.system_instruction matches Some(instruction)
    &&& instruction.parts@.len() == 1
    &&& instruction.parts@[0].text@ == system_prompt()
    &&& request.body.contents@.len() == 1
    &&& request.body.contents@[0].role@ == "user"@
    &&& request.body.contents@[0].parts@.len() == 1
    &&& request.body.contents@[0].parts@[0].text@ == prompt_text(
        summary,
        files_changed,
        heuristic_category_of(summary),
        summary_slug(summary, files_changed),
    )
}

/// Prepares the request that asks the model for a draft.
///
/// Without an API key this is a configuration error, the only error that
/// drafting ever reports; with one it always succeeds.
pub fn draft_request(api_key: &Option<String>, model: &str, changes: &ChangeSummary) -> (out:
    Result<ModelRequest, AppError>)
    ensures
        api_key is None ==> out is Err && out->Err_0 is Configuration
            && out->Err_0->Configuration_0@ == "Gemini API key not configured"@,
        api_key matches Some(key) ==> out is Ok && is_request_for(
            out->Ok_0,
            key@,
            model@,
            changes.summary@,
            changes.files_changed as nat,
        ),
{
    match api_key {
        None => Err(AppError::Configuration("Gemini API key not configured".to_owned())),
        Some(key) => {
            let baseline_category = heuristic_category(changes);
            let baseline_summary = heuristic_summary(changes);
            let user_prompt = build_user_prompt(
                changes,
                &baseline_category,
                baseline_summary.as_str(),
            );
            let mut contents: Vec<Content> = Vec::new();
            contents.push(Content::user(user_prompt));
            let body = GenerateContentRequest {
                system_instruction: Some(
                    Instruction::new(
                        "\nYou are an assistant for a developer CLI. Given local git change summaries, draft a Jira ticket\nand git branch metadata. Respond with VALID JSON only, no markdown, no commentary.\n\nRules:\n- Keys: title, description, branch_category, branch_summary.\n- branch_category must be one of: \"feature\", \"fix\", \"quality\".\n- branch_summary must be a short, lower-case slug (hyphen-separated words <= 6 words).\n- description should be concise Markdown (bullets or short paragraphs) that references the planned work.\n- Keep title under 80 characters and actionable.\n- Ignore test changes if non-test changes exist.\n- Never invent work unrelated to the provided changes.\n",
                    ),
                ),
                contents,
            };
            let mut url: Vec<char> = Vec::new();
            append_str(&mut url, "https://generativelanguage.googleapis.com/v1beta/models/");
            append_str(&mut url, model);
            append_str(&mut url, ":generateContent?key=");
            append_str(&mut url, key.as_str());
            Ok(ModelRequest { url: string_of(&url), body })
        },
    }
}

} // verus!
