//! The body of the request that creates an issue, with the description as a
//! document of paragraphs.

use vstd::prelude::*;
use crate::text::{
    chars_of, replace_char, replace_char_vec, string_of, texts, trim, trim_vec,
};

verus! {

/// A run of text in a paragraph.
pub struct JiraDocText {
    pub text_type: &'static str,
    pub text: String,
}

/// A node of the document.
pub struct JiraDocNode {
    pub node_type: &'static str,
    pub content: Vec<JiraDocText>,
}

/// The description of an issue as a document.
pub struct JiraDescription {
    pub doc_type: &'static str,
    pub version: u8,
    pub content: Vec<JiraDocNode>,
}

/// The project an issue belongs to.
pub struct JiraProject {
    pub key: String,
}

/// The type of an issue.
pub struct JiraIssueType {
    pub name: String,
}

/// The fields of a new issue.
pub struct JiraCreateIssueFields {
    pub project: JiraProject,
    pub summary: String,
    pub description: JiraDescription,
    pub issuetype: JiraIssueType,
}

/// The body of the request that creates an issue.
pub struct JiraCreateIssueRequest {
    pub fields: JiraCreateIssueFields,
}

/// `s` without any `c`.
pub open spec fn remove_char(s: Seq<char>, c: char) -> Seq<char>
    decreases s.len(),
{
    if s.len() == 0 {
        s
    } else if s.last() == c {
        remove_char(s.drop_last(), c)
    } else {
        remove_char(s.drop_last(), c).push(s.last())
    }
}

/// The pieces of `s` between its blank lines when `cur` is the piece being
/// read. Where more than two line feeds follow each other, the first two
/// separate and the rest opens the next piece.
pub open spec fn pieces_from(s: Seq<char>, cur: Seq<char>) -> Seq<Seq<char>>
    decreases s.len(),
{
    if s.len() == 0 {
        seq![cur]
    } else if s.len() >= 2 && s[0] == '\n' && s[1] == '\n' {
        seq![cur] + pieces_from(s.skip(2), Seq::<char>::empty())
    } else {
        pieces_from(s.drop_first(), cur.push(s[0]))
    }
}

/// Each of `items` trimmed, without those that are blank.
pub open spec fn trimmed_nonblank(items: Seq<Seq<char>>) -> Seq<Seq<char>>
    decreases items.len(),
{
    if items.len() == 0 {
        items
    } else if trim(items.last()).len() == 0 {
        trimmed_nonblank(items.drop_last())
    } else {
        trimmed_nonblank(items.drop_last()).push(trim(items.last()))
    }
}

/// The sections of a description: what stands between blank lines, trimmed,
/// carriage returns set aside.
pub open spec fn sections(description: Seq<char>) -> Seq<Seq<char>> {
    trimmed_nonblank(pieces_from(remove_char(description, '\r'), Seq::<char>::empty()))
}

/// The text of the paragraph made of one section: on one line, trimmed.
pub open spec fn paragraph_text(section: Seq<char>) -> Seq<char> {
    trim(replace_char(section, '\n', ' '))
}

/// The texts of the paragraphs of a description; a description without
/// sections gets one paragraph that asks for one.
pub open spec fn paragraphs(description: Seq<char>) -> Seq<Seq<char>> {
    if sections(description).len() == 0 {
        seq![paragraph_text("Describe the planned work."@)]
    } else {
        Seq::new(
            sections(description).len(),
            |i: int| paragraph_text(sections(description)[i]),
        )
    }
}

/// Whether `node` is a paragraph that holds the one text `text`.
pub open spec fn is_paragraph(node: JiraDocNode, text: Seq<char>) -> bool {
    &&& node.node_type@ == "paragraph"@
    &&& node.content@.len() == 1
    &&& node.content@[0].text_type@ == "text"@
    &&& node.content@[0].text@ == text
}

/// Whether `doc` is the document whose paragraphs hold `texts`, in order.
pub open spec fn is_document(doc: JiraDescription, texts: Seq<Seq<char>>) -> bool {
    &&& doc.doc_type@ == "doc"@
    &&& doc.version == 1
    &&& doc.content@.len() == texts.len()
    &&& forall|i: int| 0 <= i < texts.len() ==> is_paragraph(#[trigger] doc.content@[i], texts[i])
}

impl JiraDocText {
    /// A run of plain text.
    pub fn text(text: String) -> (out: Self)
        ensures
            out.text_type@ == "text"@,
            out.text@ == text@,
    {
        Self { text_type: "text", text }
    }
}

impl JiraDocNode {
    /// A paragraph that holds the one text `text`.
    pub fn paragraph(text: String) -> (out: Self)
        ensures
            is_paragraph(out, text@),
    {
        let mut content: Vec<JiraDocText> = Vec::new();
        content.push(JiraDocText::text(text));
        Self { node_type: "paragraph", content }
    }
}

/// `v` without any `c`.
fn remove_char_vec(v: &Vec<char>, c: char) -> (out: Vec<char>)
    ensures
        out@ == remove_char(v@, c),
{
    let mut out: Vec<char> = Vec::new();
    let mut i: usize = 0;
    assert(v@.subrange(0, 0) == Seq::<char>::empty());
    while i < v.len()
        invariant
            i <= v.len(),
            out@ == remove_char(v@.subrange(0, i as int), c),
        decreases v.len() - i,
    {
        proof {
            let next = v@.subrange(0, i + 1);
            assert(next.drop_last() == v@.subrange(0, i as int));
            assert(next.last() == v@[i as int]);
        }
        if v[i] != c {
            out.push(v[i]);
        }
        i += 1;
    }
    assert(v@.subrange(0, v.len() as int) == v@);
    out
}

/// Splits `v` at its blank lines.
fn split_pieces(v: &Vec<char>) -> (out: Vec<Vec<char>>)
    ensures
        texts(out@) == pieces_from(v@, Seq::<char>::empty()),
{
    let ghost whole = pieces_from(v@, Seq::<char>::empty());
    let mut done: Vec<Vec<char>> = Vec::new();
    let mut cur: Vec<char> = Vec::new();
    let mut i: usize = 0;
    assert(v@.skip(0) == v@);
    assert(texts(done@) + whole == whole);
    while i < v.len()
        invariant
            i <= v.len(),
            whole == texts(done@) + pieces_from(v@.skip(i as int), cur@),
        decreases v.len() - i,
    {
        let ghost rest = v@.skip(i as int);
        proof {
            assert(rest[0] == v@[i as int]);
            assert(rest.drop_first() == v@.skip(i + 1));
        }
        if v[i] == '\n' && i + 1 < v.len() && v[i + 1] == '\n' {
            let ghost before = texts(done@);
            let ghost piece = cur@;
            let ghost tail = pieces_from(v@.skip(i + 2), Seq::<char>::empty());
            proof {
                assert(rest[1] == v@[i + 1]);
                assert(rest.skip(2) == v@.skip(i + 2));
            }
            done.push(cur);
            cur = Vec::new();
            assert(texts(done@) == before + seq![piece]);
            assert(before + (seq![piece] + tail) == (before + seq![piece]) + tail);
            i += 2;
        } else {
            proof {
                if rest.len() >= 2 {
                    assert(rest[1] == v@[i + 1]);
                }
            }
            cur.push(v[i]);
            i += 1;
        }
    }
    let ghost before = texts(done@);
    let ghost piece = cur@;
    done.push(cur);
    assert(texts(done@) == before + seq![piece]);
    done
}

impl JiraDescription {
    /// Lays a description out as a document: one paragraph for each section
    /// between blank lines.
    pub fn from_markdown(description: &str) -> (doc: Self)
        ensures
            is_document(doc, paragraphs(description@)),
    {
        let cleaned = remove_char_vec(&chars_of(description), '\r');
        let pieces = split_pieces(&cleaned);
        let ghost all = texts(pieces@);
        let mut kept: Vec<Vec<char>> = Vec::new();
        let mut i: usize = 0;
        assert(all.take(0) == Seq::<Seq<char>>::empty());
        assert(texts(kept@) == Seq::<Seq<char>>::empty());
        while i < pieces.len()
            invariant
                i <= pieces.len(),
                all == texts(pieces@),
                texts(kept@) == trimmed_nonblank(all.take(i as int)),
            decreases pieces.len() - i,
        {
            proof {
                let next = all.take(i + 1);
                assert(next.drop_last() == all.take(i as int));
                assert(next.last() == pieces@[i as int]@);
            }
            let section = trim_vec(&pieces[i]);
            if section.len() > 0 {
                let ghost so_far = texts(kept@);
                let ghost text = section@;
                kept.push(section);
                assert(texts(kept@) == so_far.push(text));
            }
            i += 1;
        }
        assert(all.take(pieces.len() as int) == all);
        assert(texts(kept@) == sections(description@));
        if kept.len() == 0 {
            kept.push(chars_of("Describe the planned work."));
        }
        let ghost wanted = paragraphs(description@);
        assert(wanted.len() == kept.len());
        let mut content: Vec<JiraDocNode> = Vec::new();
        let mut k: usize = 0;
        while k < kept.len()
            invariant
                k <= kept.len(),
                wanted.len() == kept.len(),
                content.len() == k,
                forall|j: int|
                    0 <= j < kept.len() ==> wanted[j] == paragraph_text(#[trigger] kept@[j]@),
                forall|j: int| 0 <= j < k ==> is_paragraph(#[trigger] content@[j], wanted[j]),
            decreases kept.len() - k,
        {
            let text = trim_vec(&replace_char_vec(&kept[k], '\n', ' '));
            content.push(JiraDocNode::paragraph(string_of(&text)));
            k += 1;
        }
        Self { doc_type: "doc", version: 1, content }
    }
}

impl JiraCreateIssueRequest {
    /// The request for an issue of type `issue_type` in the project
    /// `project_key`, with `summary` as its title and `description` laid
    /// out as a document.
    pub fn new(project_key: &str, issue_type: &str, summary: &str, description: &str) -> (out:
        Self)
        ensures
            out.fields.project.key@ == project_key@,
            out.fields.issuetype.name@ == issue_type@,
            out.fields.summary@ == summary@,
            is_document(out.fields.description, paragraphs(description@)),
    {
        Self {
            fields: JiraCreateIssueFields {
                project: JiraProject { key: project_key.to_owned() },
                summary: summary.to_owned(),
                description: JiraDescription::from_markdown(description),
                issuetype: JiraIssueType { name: issue_type.to_owned() },
            },
        }
    }
}

} // verus!
