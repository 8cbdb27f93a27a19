use ugh::domain::branch::BranchCategory;
use ugh::domain::ticket::TicketDraft;
use ugh::error::{AppError, ErrorKind};
use ugh::infra::jira::{
    auth_header, basic_authorization, browse_url, issue_endpoint, prepare_issue, ticket_from_reply, JiraSettings,
    TrackerReply,
};
use ugh::infra::jira_doc::{JiraCreateIssueRequest, JiraDescription, JiraDocNode, JiraDocText};

fn settings() -> JiraSettings {
    JiraSettings {
        base_url: Some("https://acme.atlassian.net//".to_string()),
        email: Some("user".to_string()),
        token: Some("pass".to_string()),
        issue_type: "Task".to_string(),
    }
}

fn draft(title: &str, description: &str, branch_summary: &str) -> TicketDraft {
    TicketDraft {
        title: title.to_string(),
        description: description.to_string(),
        branch_category: BranchCategory::Fix,
        branch_summary: branch_summary.to_string(),
    }
}

fn paragraph_texts(doc: &JiraDescription) -> Vec<String> {
    doc.content
        .iter()
        .map(|node| {
            assert_eq!(node.node_type, "paragraph");
            assert_eq!(node.content.len(), 1);
            assert_eq!(node.content[0].text_type, "text");
            node.content[0].text.clone()
        })
        .collect()
}

fn refused(settings: &JiraSettings, board: &str, draft: &TicketDraft) -> (ErrorKind, String) {
    match prepare_issue(settings, board, draft) {
        Ok(_) => panic!("the request was not refused"),
        Err(error) => {
            let kind = error.kind();
            match error {
                AppError::Configuration(m)
                | AppError::VersionControl(m)
                | AppError::IssueTracker(m)
                | AppError::LanguageModel(m) => (kind, m),
                AppError::Io(_) => panic!("unexpected I/O error"),
            }
        }
    }
}

#[test]
fn builds_addresses() {
    assert_eq!(
        issue_endpoint("https://acme.atlassian.net/"),
        "https://acme.atlassian.net/rest/api/3/issue"
    );
    assert_eq!(issue_endpoint("https://x"), "https://x/rest/api/3/issue");
    assert_eq!(
        browse_url("https://acme.atlassian.net///", "TCK-7"),
        "https://acme.atlassian.net/browse/TCK-7"
    );
}

#[test]
fn encodes_basic_credentials() {
    assert_eq!(auth_header("user", "pass"), Some("Basic dXNlcjpwYXNz".to_string()));
    assert_eq!(auth_header("", ""), Some("Basic Og==".to_string()));
    assert_eq!(
        auth_header("dev@example.com", "s3cr3t-tökén"),
        Some("Basic ZGV2QGV4YW1wbGUuY29tOnMzY3IzdC10w7Zrw6lu".to_string())
    );
}

#[test]
fn writes_the_basic_scheme() {
    assert_eq!(basic_authorization("dXNlcjpwYXNz"), "Basic dXNlcjpwYXNz");
    assert_eq!(basic_authorization(""), "Basic ");
}

#[test]
fn lays_out_paragraphs() {
    let doc = JiraDescription::from_markdown("First line\r\nsecond line\n\n\n  Third  \n\n \n\nLast");
    assert_eq!(doc.doc_type, "doc");
    assert_eq!(doc.version, 1);
    assert_eq!(
        paragraph_texts(&doc),
        vec!["First line second line", "Third", "Last"]
    );
}

#[test]
fn blank_description_gets_a_placeholder_paragraph() {
    for text in ["", "  \n\n \r\n", "\n\n\n\n"] {
        let doc = JiraDescription::from_markdown(text);
        assert_eq!(paragraph_texts(&doc), vec!["Describe the planned work."]);
    }
}

#[test]
fn builds_document_nodes() {
    let text = JiraDocText::text("hello".to_string());
    assert_eq!(text.text_type, "text");
    assert_eq!(text.text, "hello");
    let node = JiraDocNode::paragraph("hello".to_string());
    assert_eq!(node.node_type, "paragraph");
    assert_eq!(node.content.len(), 1);
    assert_eq!(node.content[0].text, "hello");
}

#[test]
fn builds_the_issue_request_body() {
    let body = JiraCreateIssueRequest::new("TCK", "Bug", "Repair sign-in", "One.\n\nTwo.");
    assert_eq!(body.fields.project.key, "TCK");
    assert_eq!(body.fields.issuetype.name, "Bug");
    assert_eq!(body.fields.summary, "Repair sign-in");
    assert_eq!(paragraph_texts(&body.fields.description), vec!["One.", "Two."]);
}

#[test]
fn prepares_a_request() {
    let request = match prepare_issue(&settings(), " TCK ", &draft(" Title ", " Body \n", "slug")) {
        Ok(request) => request,
        Err(_) => panic!("the request was refused"),
    };
    assert_eq!(request.endpoint, "https://acme.atlassian.net/rest/api/3/issue");
    assert_eq!(request.authorization, "Basic dXNlcjpwYXNz");
    assert_eq!(request.body.fields.project.key, "TCK");
    assert_eq!(request.body.fields.issuetype.name, "Task");
    assert_eq!(request.body.fields.summary, "Title");
    assert_eq!(paragraph_texts(&request.body.fields.description), vec!["Body"]);
}

#[test]
fn refuses_blank_board_title_and_branch_summary() {
    assert_eq!(
        refused(&settings(), "  ", &draft("", "", "")),
        (ErrorKind::IssueTracker, "board key must not be empty".to_string())
    );
    assert_eq!(
        refused(&settings(), "TCK", &draft(" ", "d", "")),
        (
            ErrorKind::LanguageModel,
            "language model returned an empty title".to_string()
        )
    );
    assert_eq!(
        refused(&settings(), "TCK", &draft("t", "d", " ")),
        (
            ErrorKind::LanguageModel,
            "language model returned an empty branch summary".to_string()
        )
    );
}

#[test]
fn refuses_missing_settings_in_order() {
    let ok = draft("t", "d", "s");
    let mut incomplete = settings();
    incomplete.token = None;
    assert_eq!(
        refused(&incomplete, "TCK", &ok),
        (ErrorKind::Configuration, "Jira API token not configured".to_string())
    );
    incomplete.email = None;
    assert_eq!(
        refused(&incomplete, "TCK", &ok),
        (ErrorKind::Configuration, "Jira email not configured".to_string())
    );
    incomplete.base_url = None;
    assert_eq!(
        refused(&incomplete, "TCK", &ok),
        (ErrorKind::Configuration, "Jira base URL not configured".to_string())
    );
    assert_eq!(
        refused(&incomplete, "TCK", &draft("", "d", "s")).0,
        ErrorKind::LanguageModel
    );
}

#[test]
fn created_ticket_gets_an_address() {
    let reply = TrackerReply::Created {
        key: "TCK-7".to_string(),
        self_url: None,
    };
    match ticket_from_reply("https://acme.atlassian.net/", reply) {
        Ok(ticket) => {
            assert_eq!(ticket.key, "TCK-7");
            assert_eq!(
                ticket.url,
                Some("https://acme.atlassian.net/browse/TCK-7".to_string())
            );
        }
        Err(_) => panic!("no ticket"),
    }
    let reply = TrackerReply::Created {
        key: "TCK-8".to_string(),
        self_url: Some("https://api/issue/10008".to_string()),
    };
    match ticket_from_reply("https://acme.atlassian.net/", reply) {
        Ok(ticket) => assert_eq!(ticket.url, Some("https://api/issue/10008".to_string())),
        Err(_) => panic!("no ticket"),
    }
}

#[test]
fn tracker_failures_are_issue_tracker_errors() {
    let cases = vec![
        (
            TrackerReply::Unreachable("connection refused".to_string()),
            "failed to call Jira: connection refused",
        ),
        (
            TrackerReply::Rejected {
                status: "400 Bad Request".to_string(),
                body: "{\"errors\":{}}".to_string(),
            },
            "Jira responded with 400 Bad Request: {\"errors\":{}}",
        ),
        (
            TrackerReply::Unreadable("missing field `key`".to_string()),
            "failed to parse Jira response: missing field `key`",
        ),
    ];
    for (reply, expected) in cases {
        match ticket_from_reply("https://x", reply) {
            Err(AppError::IssueTracker(message)) => assert_eq!(message, expected),
            _ => panic!("not reported as an issue-tracker error"),
        }
    }
}
