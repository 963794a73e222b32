use vstd::prelude::*;
use crate::chars::{chars_of, owned, string_of};
use crate::email::{EmailBody, EmailId, EmailSummary};
use crate::message::{
    body_and_date, decode_mime_words, decode_subject, decoded_header,
    extract_best_effort_body_and_date, extracted_body_and_date, message_view, parse_message,
    parsed_message_of, subject_prefix, word_prefix, MessageView, ParsedMessage,
};
use crate::text::{normalize_snippet, snippet_of, trim, trim_chars};

verus! {

/// Characters of a message preview.
pub const SNIPPET_CHARS: usize = 140;

/// Envelope fields of one fetched message, as raw header bytes.
#[derive(Debug, Clone)]
pub struct Envelope {
    pub subject: Option<Vec<u8>>,
    pub from_name: Option<Vec<u8>>,
    pub from_mailbox: Option<Vec<u8>>,
    pub from_host: Option<Vec<u8>>,
}

pub open spec fn bytes_view(o: Option<Vec<u8>>) -> Option<Seq<u8>> {
    match o {
        Some(v) => Some(v@),
        None => None,
    }
}

/// `(no subject)`
pub open spec fn no_subject() -> Seq<char> {
    seq!['(', 'n', 'o', ' ', 's', 'u', 'b', 'j', 'e', 'c', 't', ')']
}

/// `(unknown)`
pub open spec fn unknown_sender() -> Seq<char> {
    seq!['(', 'u', 'n', 'k', 'n', 'o', 'w', 'n', ')']
}

/// The subject shown for a message: the decoded envelope subject; where that
/// is absent or blank, the message's own trimmed `Subject` header; else
/// `(no subject)`.
pub open spec fn chosen_subject(envelope: Option<Seq<u8>>, parsed: Option<MessageView>) -> Seq<char> {
    let from_envelope = match envelope {
        Some(s) => decoded_header(subject_prefix(), s),
        None => Seq::empty(),
    };
    if trim(from_envelope).len() > 0 {
        from_envelope
    } else {
        match parsed {
            Some(m) => match m.1 {
                Some(h) => if trim(h).len() > 0 {
                    trim(h)
                } else {
                    no_subject()
                },
                None => no_subject(),
            },
            None => no_subject(),
        }
    }
}

/// The sender shown for a message: the decoded display name; where that is
/// absent or blank, `mailbox@host` (or the mailbox alone when the host is
/// blank); else `(unknown)`.
pub open spec fn chosen_sender(
    name: Option<Seq<u8>>,
    mailbox: Option<Seq<u8>>,
    host: Option<Seq<u8>>,
) -> Seq<char> {
    let n = match name {
        Some(b) => trim(decoded_header(word_prefix(), b)),
        None => Seq::empty(),
    };
    let mb = match mailbox {
        Some(b) => trim(decoded_header(word_prefix(), b)),
        None => Seq::empty(),
    };
    let h = match host {
        Some(b) => trim(decoded_header(word_prefix(), b)),
        None => Seq::empty(),
    };
    if n.len() > 0 {
        n
    } else if mb.len() > 0 {
        if h.len() > 0 {
            mb + seq!['@'] + h
        } else {
            mb
        }
    } else {
        unknown_sender()
    }
}

fn decoded_trimmed(b: &Option<Vec<u8>>) -> (r: Vec<char>)
    ensures
        r@ == match bytes_view(*b) {
            Some(x) => trim(decoded_header(word_prefix(), x)),
            None => Seq::empty(),
        },
{
    match b {
        Some(v) => {
            let d = decode_mime_words(v.as_slice());
            trim_chars(&chars_of(d.as_str()))
        },
        None => Vec::new(),
    }
}

/// The display name of a message's sender; see [`chosen_sender`].
pub fn sender_display_name(envelope: &Envelope) -> (r: String)
    ensures
        r@ == chosen_sender(
            bytes_view(envelope.from_name),
            bytes_view(envelope.from_mailbox),
            bytes_view(envelope.from_host),
        ),
{
    let n = decoded_trimmed(&envelope.from_name);
    if n.len() > 0 {
        return string_of(&n);
    }
    let mut mb = decoded_trimmed(&envelope.from_mailbox);
    if mb.len() > 0 {
        let h = decoded_trimmed(&envelope.from_host);
        if h.len() > 0 {
            let ghost m0 = mb@;
            mb.push('@');
            let mut i: usize = 0;
            while i < h.len()
                invariant
                    0 <= i <= h@.len(),
                    mb@ == m0 + seq!['@'] + h@.subrange(0, i as int),
                decreases h.len() - i,
            {
                mb.push(h[i]);
                assert(h@.subrange(0, i + 1) =~= h@.subrange(0, i as int).push(h@[i as int]));
                assert(mb@ =~= m0 + seq!['@'] + h@.subrange(0, i + 1));
                i = i + 1;
            }
            assert(h@.subrange(0, h@.len() as int) =~= h@);
        }
        return string_of(&mb);
    }
    let r = owned("(unknown)");
    proof {
        reveal_strlit("(unknown)");
        assert(r@ =~= unknown_sender());
    }
    r
}

/// The subject of a message; see [`chosen_subject`].
pub fn subject_line(envelope: &Envelope, parsed: &Option<ParsedMessage>) -> (r: String)
    ensures
        r@ == chosen_subject(
            bytes_view(envelope.subject),
            match parsed {
                Some(m) => Some(message_view(*m)),
                None => None,
            },
        ),
{
    let from_envelope = match &envelope.subject {
        Some(s) => decode_subject(s.as_slice()),
        None => String::new(),
    };
    let t = trim_chars(&chars_of(from_envelope.as_str()));
    if t.len() > 0 {
        return from_envelope;
    }
    if let Some(m) = parsed {
        if let Some(h) = &m.subject {
            let th = trim_chars(&chars_of(h.as_str()));
            if th.len() > 0 {
                return string_of(&th);
            }
        }
    }
    let r = owned("(no subject)");
    proof {
        reveal_strlit("(no subject)");
        assert(r@ =~= no_subject());
    }
    r
}

/// Body text and date of a fetched message, or empty text dated 0 where no
/// body could be fetched.
pub open spec fn fetched_body_and_date(raw: Option<Seq<u8>>) -> (Seq<char>, i64) {
    match raw {
        Some(b) => extracted_body_and_date(b),
        None => (Seq::empty(), 0),
    }
}

/// Builds the cached summary of message `id` from its envelope and, where it
/// could be fetched, its raw bytes: subject and sender with their fallbacks,
/// a preview of at most [`SNIPPET_CHARS`] characters, and the date.
pub fn summarize(id: EmailId, envelope: &Envelope, raw: &Option<Vec<u8>>) -> (r: EmailSummary)
    ensures
        r.id == id,
        r.subject@ == chosen_subject(
            bytes_view(envelope.subject),
            match bytes_view(*raw) {
                Some(b) => parsed_message_of(b),
                None => None,
            },
        ),
        r.from_name@ == chosen_sender(
            bytes_view(envelope.from_name),
            bytes_view(envelope.from_mailbox),
            bytes_view(envelope.from_host),
        ),
        r.snippet@ == snippet_of(fetched_body_and_date(bytes_view(*raw)).0, SNIPPET_CHARS as nat),
        r.date_epoch == fetched_body_and_date(bytes_view(*raw)).1,
{
    let parsed = match raw {
        Some(b) => parse_message(b),
        None => None,
    };
    let subject = subject_line(envelope, &parsed);
    let (body, date_epoch) = match raw {
        Some(b) => match &parsed {
            Some(m) => body_and_date(b, m),
            None => extract_best_effort_body_and_date(b),
        },
        None => (String::new(), 0),
    };
    let snippet = normalize_snippet(body.as_str(), SNIPPET_CHARS);
    let from_name = sender_display_name(envelope);
    EmailSummary { id, from_name, subject, snippet, date_epoch }
}

/// Abstract form of a [`BodyStep`].
pub enum BodyStepView {
    Use(Seq<u8>),
    Retry,
    Missing,
}

/// What to do after one attempt to fetch a message's body.
#[derive(Debug)]
pub enum BodyStep {
    /// The body arrived: use these bytes.
    Use(Vec<u8>),
    /// The body was missing on the first attempt: fetch once more.
    Retry,
    /// The body was missing on the retry too: report the failure.
    Missing,
}

impl View for BodyStep {
    type V = BodyStepView;

    open spec fn view(&self) -> BodyStepView {
        match self {
            BodyStep::Use(b) => BodyStepView::Use(b@),
            BodyStep::Retry => BodyStepView::Retry,
            BodyStep::Missing => BodyStepView::Missing,
        }
    }
}

/// The step after attempt number `attempt` (0 for the first) fetched `fetched`.
pub open spec fn body_step(attempt: nat, fetched: Option<Seq<u8>>) -> BodyStepView {
    match fetched {
        Some(b) => BodyStepView::Use(b),
        None => if attempt == 0 {
            BodyStepView::Retry
        } else {
            BodyStepView::Missing
        },
    }
}

/// Decides what follows a body fetch: a body that is missing on the first
/// attempt is fetched exactly once more; missing again, it is a failure.
pub fn next_body_step(attempt: u32, fetched: Option<Vec<u8>>) -> (r: BodyStep)
    ensures
        r@ == body_step(attempt as nat, bytes_view(fetched)),
{
    match fetched {
        Some(b) => BodyStep::Use(b),
        None => if attempt == 0 {
            BodyStep::Retry
        } else {
            BodyStep::Missing
        },
    }
}

/// A body missing on the first attempt and present on the retry yields the
/// retried content; missing on both attempts, the fetch fails explicitly
/// rather than yielding empty content.
pub proof fn lemma_body_retry(first: Seq<u8>, retried: Seq<u8>)
    ensures
        body_step(0, Some(first)) == BodyStepView::Use(first),
        body_step(0, None) == BodyStepView::Retry,
        body_step(1, Some(retried)) == BodyStepView::Use(retried),
        body_step(1, None) == BodyStepView::Missing,
{
}

/// The plain-text body of message `id` from its fetched raw bytes.
pub fn body_from_raw(id: EmailId, raw: &Vec<u8>) -> (r: EmailBody)
    ensures
        r.id == id,
        r.body@ == extracted_body_and_date(raw@).0,
{
    let (body, _date) = extract_best_effort_body_and_date(raw);
    EmailBody { id, body }
}

} // verus!
