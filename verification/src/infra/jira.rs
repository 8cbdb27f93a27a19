//! The library's side of the issue tracker: what is asked of it, and what
//! is made of its answer.

use vstd::prelude::*;
use vstd::utf8::encode_utf8;
use crate::domain::ticket::{Ticket, TicketDraft};
use crate::error::{AppError, AppResult, ErrorKind};
use crate::infra::jira_doc::{is_document, paragraphs, JiraCreateIssueRequest};
use crate::text::{
    append_str, chars_of, drop_tail_char_vec, drop_tail_while, is_char, string_of, trim,
    trim_vec,
};

verus! {

/// The standard, padded Base64 text of `input`.
pub uninterp spec fn base64_standard(input: Seq<u8>) -> Seq<char>;

/// Encodes `input` with the standard, padded Base64 engine
/// (`Engine::encode` on `BASE64_STANDARD`).
///
/// Claimed, not proved: the text is a function of the bytes alone, named
/// [`base64_standard`]. Inputs whose encoded length would not fit are left
/// out.
#[verifier::external_body]
fn base64_encode(input: &[u8]) -> (text: String)
    requires
        input@.len() <= usize::MAX / 4,
    ensures
        text@ == base64_standard(input@),
{
    base64::Engine::encode(&base64::prelude::BASE64_STANDARD, input)
}

/// How the tracker is reached, as configured.
pub struct JiraSettings {
    pub base_url: Option<String>,
    pub email: Option<String>,
    pub token: Option<String>,
    pub issue_type: String,
}

/// The three settings without which the tracker cannot be called.
pub struct JiraAccess {
    pub base_url: String,
    pub email: String,
    pub token: String,
}

/// A request to the tracker, ready to be posted.
pub struct IssueRequest {
    pub endpoint: String,
    pub authorization: String,
    pub body: JiraCreateIssueRequest,
}

/// How the call to the tracker ended.
pub enum TrackerReply {
    /// The request could not be sent; the text says why.
    Unreachable(String),
    /// The tracker answered with a status other than success.
    Rejected { status: String, body: String },
    /// The answer could not be read; the text says why.
    Unreadable(String),
    /// The issue was created.
    Created { key: String, self_url: Option<String> },
}

/// `base_url` without slashes at its end.
pub open spec fn site(base_url: Seq<char>) -> Seq<char> {
    drop_tail_while(base_url, is_char('/'))
}

/// The address issues are posted to.
pub open spec fn endpoint_of(base_url: Seq<char>) -> Seq<char> {
    site(base_url) + "/rest/api/3/issue"@
}

/// The address at which the issue `key` can be looked at.
pub open spec fn browse_url_of(base_url: Seq<char>, key: Seq<char>) -> Seq<char> {
    site(base_url) + "/browse/"@ + key
}

/// The credentials as they are encoded: email, a colon, token.
pub open spec fn credentials(email: Seq<char>, token: Seq<char>) -> Seq<char> {
    email + seq![':'] + token
}

/// The value of the authorization header for basic authentication.
pub open spec fn auth_header_of(email: Seq<char>, token: Seq<char>) -> Seq<char> {
    "Basic "@ + base64_standard(encode_utf8(credentials(email, token)))
}

/// The value of the authorization header that carries the encoded
/// credentials `encoded`.
pub fn basic_authorization(encoded: &str) -> (header: String)
    ensures
        header@ == "Basic "@ + encoded@,
{
    let mut text = chars_of("Basic ");
    append_str(&mut text, encoded);
    string_of(&text)
}

/// Whether the credentials are short enough to be encoded.
pub open spec fn encodable(email: Seq<char>, token: Seq<char>) -> bool {
    encode_utf8(credentials(email, token)).len() <= usize::MAX / 4
}

/// The address issues are posted to.
pub fn issue_endpoint(base_url: &str) -> (url: String)
    ensures
        url@ == endpoint_of(base_url@),
{
    let mut text = drop_tail_char_vec(&chars_of(base_url), '/');
    append_str(&mut text, "/rest/api/3/issue");
    string_of(&text)
}

/// The address at which the issue `key` can be looked at.
pub fn browse_url(base_url: &str, key: &str) -> (url: String)
    ensures
        url@ == browse_url_of(base_url@, key@),
{
    let mut text = drop_tail_char_vec(&chars_of(base_url), '/');
    append_str(&mut text, "/browse/");
    append_str(&mut text, key);
    string_of(&text)
}

/// The authorization header for `email` and `token`, or nothing where they
/// are too long to be encoded.
pub fn auth_header(email: &str, token: &str) -> (header: Option<String>)
    ensures
        match header {
            Some(text) => encodable(email@, token@) && text@ == auth_header_of(email@, token@),
            None => !encodable(email@, token@),
        },
{
    let mut plain = chars_of(email);
    plain.push(':');
    append_str(&mut plain, token);
    assert(plain@ == credentials(email@, token@));
    let plain_text = string_of(&plain);
    let bytes = plain_text.as_str().as_bytes();
    if bytes.len() > usize::MAX / 4 {
        return None;
    }
    let encoded = base64_encode(bytes);
    Some(basic_authorization(encoded.as_str()))
}

impl JiraSettings {
    /// The settings the tracker cannot be called without; the first one
    /// that is missing, in the order base URL, email, token, is reported as
    /// a configuration error.
    pub fn api_details(&self) -> (out: AppResult<JiraAccess>)
        ensures
            self.base_url is None ==> out is Err && out->Err_0 is Configuration
                && out->Err_0->Configuration_0@ == "Jira base URL not configured"@,
            self.base_url is Some && self.email is None ==> out is Err && out->Err_0
                is Configuration && out->Err_0->Configuration_0@ == "Jira email not configured"@,
            self.base_url is Some && self.email is Some && self.token is None ==> out is Err
                && out->Err_0 is Configuration && out->Err_0->Configuration_0@
                == "Jira API token not configured"@,
            self.base_url is Some && self.email is Some && self.token is Some ==> out is Ok
                && out->Ok_0.base_url@ == self.base_url->Some_0@ && out->Ok_0.email@
                == self.email->Some_0@ && out->Ok_0.token@ == self.token->Some_0@,
    {
        let base_url = match &self.base_url {
            Some(value) => value.clone(),
            None => {
                return Err(AppError::Configuration("Jira base URL not configured".to_owned()));
            },
        };
        let email = match &self.email {
            Some(value) => value.clone(),
            None => {
                return Err(AppError::Configuration("Jira email not configured".to_owned()));
            },
        };
        let token = match &self.token {
            Some(value) => value.clone(),
            None => {
                return Err(AppError::Configuration("Jira API token not configured".to_owned()));
            },
        };
        Ok(JiraAccess { base_url, email, token })
    }
}

/// Why a request for a ticket is refused before anything is sent, if it is.
///
/// The checks run in this order: the board, the title and the branch
/// summary of the draft must not be blank; base URL, email and token must
/// be configured; the credentials must be short enough to encode.
pub open spec fn refusal(settings: JiraSettings, board: Seq<char>, draft: TicketDraft) -> Option<
    (ErrorKind, Seq<char>),
> {
    if trim(board).len() == 0 {
        Some((ErrorKind::IssueTracker, "board key must not be empty"@))
    } else if trim(draft.title@).len() == 0 {
        Some((ErrorKind::LanguageModel, "language model returned an empty title"@))
    } else if trim(draft.branch_summary@).len() == 0 {
        Some((ErrorKind::LanguageModel, "language model returned an empty branch summary"@))
    } else if settings.base_url is None {
        Some((ErrorKind::Configuration, "Jira base URL not configured"@))
    } else if settings.email is None {
        Some((ErrorKind::Configuration, "Jira email not configured"@))
    } else if settings.token is None {
        Some((ErrorKind::Configuration, "Jira API token not configured"@))
    } else if !encodable(settings.email->Some_0@, settings.token->Some_0@) {
        Some((ErrorKind::Configuration, "Jira credentials are too long"@))
    } else {
        None
    }
}

/// Whether `request` asks the tracker to create, on `board`, the issue
/// that `draft` describes: board, title and description trimmed.
pub open spec fn is_issue_request(
    request: IssueRequest,
    settings: JiraSettings,
    board: Seq<char>,
    draft: TicketDraft,
) -> bool {
    &&& settings.base_url matches Some(base_url)
    &&& settings.email matches Some(email)
    &&& settings.token matches Some(token)
    &&& request.endpoint@ == endpoint_of(base_url@)
    &&& request.authorization@ == auth_header_of(email@, token@)
    &&& request.body.fields.project.key@ == trim(board)
    &&& request.body.fields.issuetype.name@ == settings.issue_type@
    &&& request.body.fields.summary@ == trim(draft.title@)
    &&& is_document(request.body.fields.description, paragraphs(trim(draft.description@)))
}

/// Prepares the request that creates a ticket on `board` from `draft`, or
/// says why none is sent.
pub fn prepare_issue(settings: &JiraSettings, board: &str, draft: &TicketDraft) -> (out: AppResult<
    IssueRequest,
>)
    ensures
        match refusal(*settings, board@, *draft) {
            Some((kind, message)) => out is Err && out->Err_0.reads(kind, message),
            None => out is Ok && is_issue_request(out->Ok_0, *settings, board@, *draft),
        },
{
    let board_key = string_of(&trim_vec(&chars_of(board)));
    if board_key.as_str().is_empty() {
        return Err(AppError::IssueTracker("board key must not be empty".to_owned()));
    }
    let title = string_of(&trim_vec(&chars_of(draft.title.as_str())));
    if title.as_str().is_empty() {
        return Err(
            AppError::LanguageModel("language model returned an empty title".to_owned()),
        );
    }
    if trim_vec(&chars_of(draft.branch_summary.as_str())).len() == 0 {
        return Err(
            AppError::LanguageModel("language model returned an empty branch summary".to_owned()),
        );
    }
    let access = match settings.api_details() {
        Ok(access) => access,
        Err(error) => {
            return Err(error);
        },
    };
    let authorization = match auth_header(access.email.as_str(), access.token.as_str()) {
        Some(header) => header,
        None => {
            return Err(AppError::Configuration("Jira credentials are too long".to_owned()));
        },
    };
    let description = string_of(&trim_vec(&chars_of(draft.description.as_str())));
    let body = JiraCreateIssueRequest::new(
        board_key.as_str(),
        settings.issue_type.as_str(),
        title.as_str(),
        description.as_str(),
    );
    Ok(IssueRequest { endpoint: issue_endpoint(access.base_url.as_str()), authorization, body })
}

/// What a reply of the tracker comes to: the ticket, with the address the
/// tracker gave or else the address it can be looked at; or an
/// issue-tracker error that quotes what went wrong.
pub open spec fn reply_outcome(base_url: Seq<char>, reply: TrackerReply, out: AppResult<Ticket>) -> bool {
    match reply {
        TrackerReply::Unreachable(reason) => out is Err && out->Err_0.reads(
            ErrorKind::IssueTracker,
            "failed to call Jira: "@ + reason@,
        ),
        TrackerReply::Rejected { status, body } => out is Err && out->Err_0.reads(
            ErrorKind::IssueTracker,
            "Jira responded with "@ + status@ + ": "@ + body@,
        ),
        TrackerReply::Unreadable(reason) => out is Err && out->Err_0.reads(
            ErrorKind::IssueTracker,
            "failed to parse Jira response: "@ + reason@,
        ),
        TrackerReply::Created { key, self_url } => {
            &&& out matches Ok(ticket)
            &&& ticket.key@ == key@
            &&& ticket.url matches Some(url)
            &&& url@ == match self_url {
                Some(given) => given@,
                None => browse_url_of(base_url, key@),
            }
        },
    }
}

/// Makes the ticket, or the error, out of the tracker's reply.
pub fn ticket_from_reply(base_url: &str, reply: TrackerReply) -> (out: AppResult<Ticket>)
    ensures
        reply_outcome(base_url@, reply, out),
{
    match reply {
        TrackerReply::Unreachable(reason) => {
            let mut text = chars_of("failed to call Jira: ");
            append_str(&mut text, reason.as_str());
            Err(AppError::IssueTracker(string_of(&text)))
        },
        TrackerReply::Rejected { status, body } => {
            let mut text = chars_of("Jira responded with ");
            append_str(&mut text, status.as_str());
            append_str(&mut text, ": ");
            append_str(&mut text, body.as_str());
            Err(AppError::IssueTracker(string_of(&text)))
        },
        TrackerReply::Unreadable(reason) => {
            let mut text = chars_of("failed to parse Jira response: ");
            append_str(&mut text, reason.as_str());
            Err(AppError::IssueTracker(string_of(&text)))
        },
        TrackerReply::Created { key, self_url } => {
            let url = match self_url {
                Some(given) => given,
                None => browse_url(base_url, key.as_str()),
            };
            Ok(Ticket { key, url: Some(url) })
        },
    }
}

} // verus!
