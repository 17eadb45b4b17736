//! Reviewing an agent's recent conversation: which message `--print` shows,
//! and the transient documents made of one or more messages.

use vstd::prelude::*;
use vstd::string::*;

use crate::message::{DocumentSource, Message, Provenance, ProvenanceView, Role, SourceView};
use crate::text::{decimal, decimal_string};

verus! {

/// The index of the first assistant message of `s` at or after `from`, or
/// `s.len()` when there is none. Candidates run newest first, so this is the
/// newest assistant message.
pub open spec fn first_assistant_from(s: Seq<Message>, from: int) -> int
    decreases s.len() - from,
{
    if from < 0 || from >= s.len() {
        s.len() as int
    } else if s[from].role == Role::Assistant {
        from
    } else {
        first_assistant_from(s, from + 1)
    }
}

/// The index of the newest assistant message of `s`, or `s.len()`.
pub open spec fn first_assistant(s: Seq<Message>) -> int {
    first_assistant_from(s, 0)
}

/// The index found is an assistant message with no assistant before it; when
/// none is found, no message of `s` is the assistant's.
pub proof fn lemma_first_assistant(s: Seq<Message>, from: int)
    requires
        0 <= from <= s.len(),
    ensures
        from <= first_assistant_from(s, from) <= s.len(),
        first_assistant_from(s, from) < s.len() ==> s[first_assistant_from(s, from)].role
            == Role::Assistant,
        forall|j: int|
            from <= j < first_assistant_from(s, from) ==> #[trigger] s[j].role != Role::Assistant,
    decreases s.len() - from,
{
    if from < s.len() && s[from].role != Role::Assistant {
        lemma_first_assistant(s, from + 1);
    }
}

/// The newest assistant candidate, which `--print` writes out.
pub fn newest_assistant(messages: &[Message]) -> (r: Option<&Message>)
    ensures
        match r {
            Some(m) => first_assistant(messages@) < messages@.len() && *m
                == messages@[first_assistant(messages@)],
            None => first_assistant(messages@) == messages@.len(),
        },
{
    let n = messages.len();
    let mut i: usize = 0;
    while i < n
        invariant
            n == messages@.len(),
            i <= n,
            first_assistant(messages@) == first_assistant_from(messages@, i as int),
        decreases n - i,
    {
        if messages[i].role == Role::Assistant {
            return Some(&messages[i]);
        }
        i = i + 1;
    }
    None
}

/// The heading that introduces a message of `role` in a conversation.
pub open spec fn heading_of(role: Role) -> Seq<char> {
    match role {
        Role::Human => "## You\n\n"@,
        Role::Assistant => "## Assistant\n\n"@,
    }
}

pub proof fn lemma_heading_nonempty(role: Role)
    ensures
        heading_of(role).len() > 0,
{
    reveal_strlit("## You\n\n");
    reveal_strlit("## Assistant\n\n");
}

/// The heading that introduces a message of `role` in a conversation.
pub fn message_heading(role: Role) -> (r: &'static str)
    ensures
        r@ == heading_of(role),
{
    match role {
        Role::Human => "## You\n\n",
        Role::Assistant => "## Assistant\n\n",
    }
}

/// One message as a section of a conversation: its heading, then its text.
pub open spec fn entry_of(m: Message) -> Seq<char> {
    heading_of(m.role) + m.text@
}

/// Messages given newest first, written oldest first, one blank line apart.
pub open spec fn conversation(ms: Seq<Message>) -> Seq<char>
    decreases ms.len(),
{
    if ms.len() == 0 {
        Seq::empty()
    } else if ms.len() == 1 {
        entry_of(ms[0])
    } else {
        conversation(ms.drop_first()) + "\n\n"@ + entry_of(ms[0])
    }
}

/// Candidates run newest first and the conversation oldest first: adding an
/// older candidate to a non-empty selection puts its section first, one blank
/// line before the rest.
pub proof fn law_older_message_comes_first(ms: Seq<Message>, older: Message)
    requires
        ms.len() > 0,
    ensures
        conversation(ms.push(older)) == entry_of(older) + "\n\n"@ + conversation(ms),
    decreases ms.len(),
{
    let all = ms.push(older);
    assert(all.drop_first() =~= ms.drop_first().push(older));
    assert(all[0] == ms[0]);
    if ms.len() == 1 {
        assert(ms.drop_first().push(older) =~= seq![older]);
        assert(conversation(seq![older]) == entry_of(older));
        assert(conversation(ms) == entry_of(ms[0]));
        assert(conversation(all) =~= entry_of(older) + "\n\n"@ + conversation(ms));
    } else {
        law_older_message_comes_first(ms.drop_first(), older);
        assert(conversation(all) =~= entry_of(older) + "\n\n"@ + conversation(ms));
    }
}

/// The document that `messages_source` makes of `ms`.
pub open spec fn messages_source_of(host: Seq<char>, transcript: Seq<char>, ms: Seq<Message>) -> SourceView {
    SourceView {
        content: conversation(ms),
        name: host + " \u{b7} "@ + decimal(ms.len()) + " messages"@,
        transient: true,
        provenance: ProvenanceView::AgentMessage {
            host,
            session: Some(transcript),
            message_id: None,
        },
    }
}

/// A conversation of one message is that message's role heading followed by
/// its whole text, every character of it.
pub proof fn law_one_message_document(host: Seq<char>, transcript: Seq<char>, m: Message)
    ensures
        messages_source_of(host, transcript, seq![m]).content == (if m.role == Role::Human {
            "## You\n\n"@
        } else {
            "## Assistant\n\n"@
        }) + m.text@,
        messages_source_of(host, transcript, seq![m]).content.len() == (if m.role == Role::Human {
            "## You\n\n"@
        } else {
            "## Assistant\n\n"@
        }).len() + m.text@.len(),
        messages_source_of(host, transcript, seq![m]).content.subrange(
            messages_source_of(host, transcript, seq![m]).content.len() - m.text@.len(),
            messages_source_of(host, transcript, seq![m]).content.len() as int,
        ) == m.text@,
{
    let c = messages_source_of(host, transcript, seq![m]).content;
    assert(c.subrange(c.len() - m.text@.len(), c.len() as int) =~= m.text@);
}

/// Adding an older message (candidates run newest first) to a non-empty
/// selection puts its role heading and whole text at the front of the
/// document, one blank line before what was there, and counts one message
/// more in the name.
pub proof fn law_older_message_document(
    host: Seq<char>,
    transcript: Seq<char>,
    ms: Seq<Message>,
    older: Message,
)
    requires
        ms.len() > 0,
    ensures
        messages_source_of(host, transcript, ms.push(older)).content == (if older.role
            == Role::Human {
            "## You\n\n"@
        } else {
            "## Assistant\n\n"@
        }) + older.text@ + "\n\n"@ + messages_source_of(host, transcript, ms).content,
        messages_source_of(host, transcript, ms.push(older)).name == host + " \u{b7} "@ + decimal(
            ms.len() + 1,
        ) + " messages"@,
{
    law_older_message_comes_first(ms, older);
}

/// A single message opens as its raw text, whatever its length, under the
/// name `host · last message`, naming the host, transcript and message.
pub proof fn law_message_document(host: Seq<char>, transcript: Seq<char>, m: Message)
    ensures
        message_source_of(host, transcript, m).content == m.text@,
        message_source_of(host, transcript, m).content.len() == m.text@.len(),
        message_source_of(host, transcript, m).name == host + " \u{b7} last message"@,
        message_source_of(host, transcript, m).transient,
        message_source_of(host, transcript, m).provenance == (ProvenanceView::AgentMessage {
            host,
            session: Some(transcript),
            message_id: Some(m.id@),
        }),
{
}

/// Selected conversation messages as one transient review document.
///
/// `messages` are candidates in newest-first order; the document restores
/// chronological order.
pub fn messages_source(host: &str, transcript: &str, messages: &[Message]) -> (r: DocumentSource)
    ensures
        r@ == messages_source_of(host@, transcript@, messages@),
{
    let n = messages.len();
    let mut content = String::new();
    let mut i = n;
    while i > 0
        invariant
            n == messages@.len(),
            i <= n,
            content@ == conversation(messages@.subrange(i as int, n as int)),
            i < n ==> content@.len() > 0,
        decreases i,
    {
        let ghost before = messages@.subrange(i as int, n as int);
        let m = &messages[i - 1];
        if !content.as_str().is_empty() {
            content.append("\n\n");
        }
        content.append(message_heading(m.role));
        content.append(m.text.as_str());
        proof {
            lemma_heading_nonempty(m.role);
            let after = messages@.subrange(i - 1, n as int);
            assert(after.drop_first() =~= before);
            assert(after[0] == messages@[i - 1]);
        }
        i = i - 1;
    }
    assert(messages@.subrange(0, n as int) =~= messages@);
    let mut name = host.to_owned();
    name.append(" \u{b7} ");
    let count = decimal_string(n);
    name.append(count.as_str());
    name.append(" messages");
    DocumentSource::new(
        content,
        name,
        true,
        Provenance::AgentMessage {
            host: host.to_owned(),
            session: Some(transcript.to_owned()),
            message_id: None,
        },
    )
}

/// The document that `message_source` makes of `m`.
pub open spec fn message_source_of(host: Seq<char>, transcript: Seq<char>, m: Message) -> SourceView {
    SourceView {
        content: m.text@,
        name: host + " \u{b7} last message"@,
        transient: true,
        provenance: ProvenanceView::AgentMessage {
            host,
            session: Some(transcript),
            message_id: Some(m.id@),
        },
    }
}

/// A message as a document: transient, provenance names the host, transcript
/// and message.
pub fn message_source(host: &str, transcript: &str, message: &Message) -> (r: DocumentSource)
    ensures
        r@ == message_source_of(host@, transcript@, *message),
{
    let mut name = host.to_owned();
    name.append(" \u{b7} last message");
    DocumentSource::new(
        message.text.clone(),
        name,
        true,
        Provenance::AgentMessage {
            host: host.to_owned(),
            session: Some(transcript.to_owned()),
            message_id: Some(message.id.clone()),
        },
    )
}

/// Text read from standard input as a transient document.
pub fn stdin_source(text: String) -> (r: DocumentSource)
    ensures
        r.content == text,
        r.name@ == "stdin \u{b7} message"@,
        r.transient,
        r.provenance == Provenance::Stdin,
{
    DocumentSource::new(text, "stdin \u{b7} message".to_owned(), true, Provenance::Stdin)
}

/// What `--print` writes: the newest assistant message on standard output, or
/// a notice on standard error when the transcript has none yet.
pub enum PrintOutcome {
    Stdout(String),
    Stderr(String),
}

/// The notice for a transcript without assistant messages.
pub open spec fn no_assistant_notice(transcript: Seq<char>) -> Seq<char> {
    "plannotator-tui last: transcript "@ + transcript + " has no assistant messages yet"@
}

/// What `--print` writes for the candidates of `transcript`.
pub fn print_newest(transcript: &str, messages: &[Message]) -> (r: PrintOutcome)
    ensures
        first_assistant(messages@) < messages@.len() ==> (r matches PrintOutcome::Stdout(t)
            && t@ == messages@[first_assistant(messages@)].text@),
        first_assistant(messages@) == messages@.len() ==> (r matches PrintOutcome::Stderr(e)
            && e@ == no_assistant_notice(transcript@)),
{
    proof {
        lemma_first_assistant(messages@, 0);
    }
    match newest_assistant(messages) {
        Some(m) => PrintOutcome::Stdout(m.text.clone()),
        None => {
            let mut notice = "plannotator-tui last: transcript ".to_owned();
            notice.append(transcript);
            notice.append(" has no assistant messages yet");
            PrintOutcome::Stderr(notice)
        },
    }
}

/// The line `--print` writes to standard error when no transcript was found;
/// the caller is never failed for it.
pub fn failure_notice(error: &str) -> (r: String)
    ensures
        r@ == "plannotator-tui last: "@ + error@,
{
    let mut notice = "plannotator-tui last: ".to_owned();
    notice.append(error);
    notice
}

/// How looking for the transcript went so far.
pub enum Lookup {
    /// Not looked for yet.
    NotYet,
    /// A transcript was found, with its candidates.
    Found,
    /// No transcript was found; the error, as it reads.
    Failed(String),
}

/// What `last` does next.
pub enum LastAction {
    /// Write standard input back out as it came.
    EchoStdin,
    /// Open standard input as a transient document.
    OpenStdin,
    /// Look for the transcript, then decide again.
    Locate,
    /// Write what `print_newest` gives for the candidates.
    PrintNewest,
    /// Open the candidates, with the picker when there is a choice.
    OpenMessages,
    /// Write this notice to standard error and end successfully.
    Notice(String),
    /// End with the lookup's error.
    Fail,
}

/// The next step of `last`, from whether it reads standard input, whether it
/// prints instead of opening the screen, and how the transcript lookup went.
/// With `--print` it never fails its caller: a failed lookup becomes a notice.
pub fn last_action(stdin: bool, print: bool, lookup: Lookup) -> (r: LastAction)
    ensures
        stdin ==> r == (if print {
            LastAction::EchoStdin
        } else {
            LastAction::OpenStdin
        }),
        !stdin && lookup is NotYet ==> r == LastAction::Locate,
        !stdin && lookup is Found ==> r == (if print {
            LastAction::PrintNewest
        } else {
            LastAction::OpenMessages
        }),
        !stdin && print ==> (lookup matches Lookup::Failed(e) ==> (r matches LastAction::Notice(n)
            && n@ == "plannotator-tui last: "@ + e@)),
        !stdin && !print && lookup is Failed ==> r == LastAction::Fail,
        print ==> !(r is Fail),
{
    if stdin {
        if print {
            LastAction::EchoStdin
        } else {
            LastAction::OpenStdin
        }
    } else {
        match lookup {
            Lookup::NotYet => LastAction::Locate,
            Lookup::Found => if print {
                LastAction::PrintNewest
            } else {
                LastAction::OpenMessages
            },
            Lookup::Failed(error) => if print {
                LastAction::Notice(failure_notice(error.as_str()))
            } else {
                LastAction::Fail
            },
        }
    }
}

} // verus!
