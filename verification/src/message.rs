//! Conversation messages and the review documents made from them.

use vstd::prelude::*;

verus! {

/// Who wrote a message.
#[derive(Clone, Copy, Debug, PartialEq, Eq, Structural)]
pub enum Role {
    Human,
    Assistant,
}

/// One message of an agent's transcript.
#[derive(Debug, PartialEq, Eq)]
pub struct Message {
    pub id: String,
    pub role: Role,
    pub text: String,
    /// An RFC 3339 timestamp, when the transcript records one.
    pub at: Option<String>,
}

/// The characters of an optional string.
pub open spec fn opt_view(s: Option<String>) -> Option<Seq<char>> {
    match s {
        Some(t) => Some(t@),
        None => None,
    }
}

/// A copy of an optional string.
pub fn clone_opt_string(s: &Option<String>) -> (r: Option<String>)
    ensures
        r == *s,
{
    match s {
        Some(t) => Some(t.clone()),
        None => None,
    }
}

impl Clone for Message {
    fn clone(&self) -> (r: Self)
        ensures
            r == *self,
    {
        Message {
            id: self.id.clone(),
            role: self.role,
            text: self.text.clone(),
            at: clone_opt_string(&self.at),
        }
    }
}

/// Where a document came from.
#[derive(Debug, PartialEq, Eq)]
pub enum Provenance {
    /// Read from standard input.
    Stdin,
    /// One or more messages of an agent's transcript.
    AgentMessage { host: String, session: Option<String>, message_id: Option<String> },
}

/// A provenance with its strings as character sequences.
pub enum ProvenanceView {
    Stdin,
    AgentMessage { host: Seq<char>, session: Option<Seq<char>>, message_id: Option<Seq<char>> },
}

impl View for Provenance {
    type V = ProvenanceView;

    open spec fn view(&self) -> ProvenanceView {
        match self {
            Provenance::Stdin => ProvenanceView::Stdin,
            Provenance::AgentMessage { host, session, message_id } => ProvenanceView::AgentMessage {
                host: host@,
                session: opt_view(*session),
                message_id: opt_view(*message_id),
            },
        }
    }
}

/// A document to review: its text, the name it is shown under, whether it is
/// transient (never written to the data directory), and its provenance.
#[derive(Debug, PartialEq, Eq)]
pub struct DocumentSource {
    pub content: String,
    pub name: String,
    pub transient: bool,
    pub provenance: Provenance,
}

/// A document source with its strings as character sequences.
pub struct SourceView {
    pub content: Seq<char>,
    pub name: Seq<char>,
    pub transient: bool,
    pub provenance: ProvenanceView,
}

impl View for DocumentSource {
    type V = SourceView;

    open spec fn view(&self) -> SourceView {
        SourceView {
            content: self.content@,
            name: self.name@,
            transient: self.transient,
            provenance: self.provenance@,
        }
    }
}

impl DocumentSource {
    pub fn new(content: String, name: String, transient: bool, provenance: Provenance) -> (r: Self)
        ensures
            r.content == content,
            r.name == name,
            r.transient == transient,
            r.provenance == provenance,
    {
        DocumentSource { content, name, transient, provenance }
    }
}

} // verus!
