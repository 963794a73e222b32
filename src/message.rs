use vstd::prelude::*;
use mailparse::MailHeaderMap;
use crate::chars::chars_of;
use crate::text::{strip_html_minimal, strip_scan};

verus! {

/// One MIME part as the body extraction reads it: its declared MIME type and
/// its decoded body (absent where decoding failed).
pub struct MimePart {
    pub mimetype: String,
    pub body: Option<String>,
}

/// What body extraction reads from a parsed message: its MIME parts in
/// depth-first pre-order (the message itself first) and its first `Subject`
/// and `Date` header values.
pub struct ParsedMessage {
    pub parts: Vec<MimePart>,
    pub subject: Option<String>,
    pub date: Option<String>,
}

/// Plain-value form of a [`MimePart`]: `(mimetype, body)`.
pub type PartView = (Seq<char>, Option<Seq<char>>);

/// Plain-value form of a [`ParsedMessage`]: `(parts, subject, date)`.
pub type MessageView = (Seq<PartView>, Option<Seq<char>>, Option<Seq<char>>);

pub open spec fn opt_view(o: Option<String>) -> Option<Seq<char>> {
    match o {
        Some(s) => Some(s@),
        None => None,
    }
}

pub open spec fn part_view(p: MimePart) -> PartView {
    (p.mimetype@, opt_view(p.body))
}

pub open spec fn message_view(m: ParsedMessage) -> MessageView {
    (m.parts@.map_values(|p: MimePart| part_view(p)), opt_view(m.subject), opt_view(m.date))
}

/// What mailparse's `parse_mail` makes of `raw` (`None` where it fails).
pub uninterp spec fn parsed_message_of(raw: Seq<u8>) -> Option<MessageView>;

/// The value mailparse's `parse_header` decodes (RFC 2047 encoded words
/// included) from the header line `line` (`None` where it fails).
pub uninterp spec fn header_value_of(line: Seq<u8>) -> Option<Seq<char>>;

/// Seconds since the epoch that mailparse's `dateparse` reads from `date`.
pub uninterp spec fn date_epoch_of(date: Seq<char>) -> Option<i64>;

/// `bytes` read as UTF-8 with invalid sequences replaced (`String::from_utf8_lossy`).
pub uninterp spec fn lossy_text_of(bytes: Seq<u8>) -> Seq<char>;

/// Relies on mailparse's `parse_mail`, `ParsedMail::parts` (depth-first
/// pre-order, the message itself first), `ParsedMail::get_body` and
/// `MailHeaderMap::get_first_value`; the result depends on `raw` alone.
#[verifier::external_body]
pub(crate) fn parse_message(raw: &Vec<u8>) -> (r: Option<ParsedMessage>)
    ensures
        match r {
            Some(m) => parsed_message_of(raw@) == Some(message_view(m)),
            None => parsed_message_of(raw@) is None,
        },
{
    let p = mailparse::parse_mail(raw).ok()?;
    let parts = p.parts().map(|x| MimePart { mimetype: x.ctype.mimetype.clone(), body: x.get_body().ok() }).collect();
    Some(ParsedMessage {
        parts,
        subject: p.headers.get_first_value("Subject"),
        date: p.headers.get_first_value("Date"),
    })
}

/// Relies on mailparse's `parse_header` and `MailHeader::get_value`; the
/// result depends on `line` alone.
#[verifier::external_body]
fn header_value(line: &Vec<u8>) -> (r: Option<String>)
    ensures
        opt_view(r) == header_value_of(line@),
{
    mailparse::parse_header(line).ok().map(|(h, _)| h.get_value())
}

/// Relies on mailparse's `dateparse`; the result depends on `date` alone.
#[verifier::external_body]
fn parse_date(date: &str) -> (r: Option<i64>)
    ensures
        r == date_epoch_of(date@),
{
    mailparse::dateparse(date).ok()
}

/// Relies on `String::from_utf8_lossy`; the result depends on `bytes` alone.
#[verifier::external_body]
fn lossy_text(bytes: &Vec<u8>) -> (r: String)
    ensures
        r@ == lossy_text_of(bytes@),
{
    String::from_utf8_lossy(bytes).into_owned()
}

/// `c` with ASCII upper-case letters made lower-case.
pub open spec fn ascii_lower(c: char) -> char {
    if 'A' <= c <= 'Z' {
        ((c as u8) + 32) as char
    } else {
        c
    }
}

/// `s` with ASCII upper-case letters made lower-case.
pub open spec fn ascii_lowercase(s: Seq<char>) -> Seq<char> {
    s.map_values(|c: char| ascii_lower(c))
}

fn is_mimetype(mimetype: &String, expected: &str) -> (r: bool)
    ensures
        r == (ascii_lowercase(mimetype@) == expected@),
{
    let cs = chars_of(mimetype.as_str());
    let es = chars_of(expected);
    if cs.len() != es.len() {
        proof {
            if ascii_lowercase(mimetype@) == expected@ {
                assert(ascii_lowercase(mimetype@).len() == cs@.len());
            }
        }
        return false;
    }
    let mut i: usize = 0;
    while i < cs.len()
        invariant
            0 <= i <= cs@.len() == es@.len(),
            cs@ == mimetype@,
            es@ == expected@,
            forall|k: int| 0 <= k < i ==> ascii_lower(cs@[k]) == es@[k],
        decreases cs.len() - i,
    {
        let c = cs[i];
        let lc = if 'A' <= c && c <= 'Z' {
            ((c as u8) + 32) as char
        } else {
            c
        };
        if lc != es[i] {
            proof {
                assert(ascii_lowercase(mimetype@)[i as int] != expected@[i as int]);
            }
            return false;
        }
        i = i + 1;
    }
    assert(ascii_lowercase(mimetype@) =~= expected@);
    true
}

/// Index of the first part of MIME type `kind` whose body decoded.
pub open spec fn first_part_of(parts: Seq<PartView>, kind: Seq<char>) -> Option<int> {
    if exists|i: int|
        0 <= i < parts.len() && ascii_lowercase(parts[i].0) == kind && parts[i].1 is Some {
        Some(
            choose|i: int|
                0 <= i < parts.len() && ascii_lowercase(parts[i].0) == kind && parts[i].1 is Some
                    && forall|j: int|
                    0 <= j < i ==> !(ascii_lowercase(parts[j].0) == kind && parts[j].1 is Some),
        )
    } else {
        None
    }
}

/// Readable text of a message's parts: the first `text/plain` part, else the
/// first `text/html` part with its tags stripped.
pub open spec fn readable_text(parts: Seq<PartView>) -> Option<Seq<char>> {
    match first_part_of(parts, "text/plain"@) {
        Some(i) => parts[i].1,
        None => match first_part_of(parts, "text/html"@) {
            Some(i) => Some(strip_scan(parts[i].1->0).0),
            None => None,
        },
    }
}

fn find_part(parts: &Vec<MimePart>, kind: &str) -> (r: Option<usize>)
    ensures
        ({
            let pv = parts@.map_values(|p: MimePart| part_view(p));
            match r {
                Some(i) => first_part_of(pv, kind@) == Some(i as int) && i < parts@.len()
                    && pv[i as int].1 is Some,
                None => first_part_of(pv, kind@) is None,
            }
        }),
{
    let ghost pv = parts@.map_values(|p: MimePart| part_view(p));
    let mut i: usize = 0;
    while i < parts.len()
        invariant
            0 <= i <= parts@.len() == pv.len(),
            pv == parts@.map_values(|p: MimePart| part_view(p)),
            forall|j: int|
                0 <= j < i ==> !(ascii_lowercase(#[trigger] pv[j].0) == kind@ && pv[j].1 is Some),
        decreases parts.len() - i,
    {
        let p = &parts[i];
        assert(pv[i as int] == part_view(*p));
        if p.body.is_some() && is_mimetype(&p.mimetype, kind) {
            proof {
                let w = i as int;
                assert(0 <= w < pv.len() && ascii_lowercase(pv[w].0) == kind@ && pv[w].1 is Some);
                let c = choose|c: int|
                    0 <= c < pv.len() && ascii_lowercase(pv[c].0) == kind@ && pv[c].1 is Some
                        && forall|j: int|
                        0 <= j < c ==> !(ascii_lowercase(pv[j].0) == kind@ && pv[j].1 is Some);
                assert(c == w) by {
                    if c < w {
                    } else if c > w {
                        assert(!(ascii_lowercase(pv[w].0) == kind@ && pv[w].1 is Some));
                    }
                }
            }
            return Some(i);
        }
        i = i + 1;
    }
    None
}

/// Readable text of a message's parts: the first `text/plain` part whose body
/// decoded, else the first such `text/html` part with its tags stripped.
pub fn readable_part_text(parts: &Vec<MimePart>) -> (r: Option<String>)
    ensures
        opt_view(r) == readable_text(parts@.map_values(|p: MimePart| part_view(p))),
{
    let ghost pv = parts@.map_values(|p: MimePart| part_view(p));
    match find_part(parts, "text/plain") {
        Some(i) => {
            assert(pv[i as int] == part_view(parts@[i as int]));
            match &parts[i].body {
                Some(b) => Some(b.clone()),
                None => None,
            }
        },
        None => match find_part(parts, "text/html") {
            Some(i) => {
                assert(pv[i as int] == part_view(parts@[i as int]));
                match &parts[i].body {
                    Some(b) => Some(strip_html_minimal(b.as_str())),
                    None => None,
                }
            },
            None => None,
        },
    }
}

/// Body text and date of a parsed message: the readable text of its parts,
/// else the message's own body, else `raw` read as text; the `Date` header,
/// else 0.
pub open spec fn body_and_date_of(raw: Seq<u8>, m: MessageView) -> (Seq<char>, i64) {
    let body = match readable_text(m.0) {
        Some(t) => t,
        None => if m.0.len() > 0 && m.0[0].1 is Some {
            m.0[0].1->0
        } else {
            lossy_text_of(raw)
        },
    };
    let date = match m.2 {
        Some(d) => match date_epoch_of(d) {
            Some(e) => e,
            None => 0,
        },
        None => 0,
    };
    (body, date)
}

/// Best-effort plain text and date of the message `raw`: see
/// [`body_and_date_of`]; a message that does not parse is read as text, dated 0.
pub open spec fn extracted_body_and_date(raw: Seq<u8>) -> (Seq<char>, i64) {
    match parsed_message_of(raw) {
        Some(m) => body_and_date_of(raw, m),
        None => (lossy_text_of(raw), 0),
    }
}

/// Body text and date of a message already parsed into `m`.
pub fn body_and_date(raw: &Vec<u8>, m: &ParsedMessage) -> (r: (String, i64))
    ensures
        (r.0@, r.1) == body_and_date_of(raw@, message_view(*m)),
{
    let ghost mv = message_view(*m);
    let body = match readable_part_text(&m.parts) {
        Some(t) => t,
        None => if m.parts.len() > 0 && m.parts[0].body.is_some() {
            assert(mv.0[0] == part_view(m.parts@[0]));
            match &m.parts[0].body {
                Some(b) => b.clone(),
                None => lossy_text(raw),
            }
        } else {
            proof {
                if mv.0.len() > 0 {
                    assert(mv.0[0] == part_view(m.parts@[0]));
                }
            }
            lossy_text(raw)
        },
    };
    let date = match &m.date {
        Some(d) => match parse_date(d.as_str()) {
            Some(e) => e,
            None => 0,
        },
        None => 0,
    };
    (body, date)
}

/// Best-effort plain text and date (seconds since the epoch) of the raw
/// message `raw`.
pub fn extract_best_effort_body_and_date(raw: &Vec<u8>) -> (r: (String, i64))
    ensures
        (r.0@, r.1) == extracted_body_and_date(raw@),
{
    match parse_message(raw) {
        Some(m) => body_and_date(raw, &m),
        None => (lossy_text(raw), 0),
    }
}

/// `prefix` followed by `raw` and CRLF: a header line for `parse_header`.
pub open spec fn header_line(prefix: Seq<u8>, raw: Seq<u8>) -> Seq<u8> {
    prefix + raw + seq![13u8, 10u8]
}

/// The decoded value of a header whose raw value is `raw`, read as text where
/// it does not parse.
pub open spec fn decoded_header(prefix: Seq<u8>, raw: Seq<u8>) -> Seq<char> {
    match header_value_of(header_line(prefix, raw)) {
        Some(v) => v,
        None => lossy_text_of(raw),
    }
}

fn decode_with_prefix(prefix: Vec<u8>, raw: &[u8]) -> (r: String)
    ensures
        r@ == decoded_header(prefix@, raw@),
{
    let mut line = prefix;
    let mut i: usize = 0;
    while i < raw.len()
        invariant
            0 <= i <= raw@.len(),
            line@ == prefix@ + raw@.subrange(0, i as int),
        decreases raw.len() - i,
    {
        line.push(raw[i]);
        assert(raw@.subrange(0, i + 1) =~= raw@.subrange(0, i as int).push(raw@[i as int]));
        i = i + 1;
    }
    line.push(13u8);
    line.push(10u8);
    assert(raw@.subrange(0, raw@.len() as int) =~= raw@);
    assert(line@ =~= header_line(prefix@, raw@));
    match header_value(&line) {
        Some(v) => v,
        None => {
            let mut copy: Vec<u8> = Vec::new();
            let mut k: usize = 0;
            while k < raw.len()
                invariant
                    0 <= k <= raw@.len(),
                    copy@ == raw@.subrange(0, k as int),
                decreases raw.len() - k,
            {
                copy.push(raw[k]);
                assert(raw@.subrange(0, k + 1) =~= raw@.subrange(0, k as int).push(raw@[k as int]));
                k = k + 1;
            }
            lossy_text(&copy)
        },
    }
}

/// Bytes of `Subject: `.
pub open spec fn subject_prefix() -> Seq<u8> {
    seq![83u8, 117u8, 98u8, 106u8, 101u8, 99u8, 116u8, 58u8, 32u8]
}

/// Bytes of `X: `.
pub open spec fn word_prefix() -> Seq<u8> {
    seq![88u8, 58u8, 32u8]
}

/// Decodes an envelope subject (RFC 2047 encoded words included).
pub fn decode_subject(raw: &[u8]) -> (r: String)
    ensures
        r@ == decoded_header(subject_prefix(), raw@),
{
    let prefix: Vec<u8> = vec![83u8, 117u8, 98u8, 106u8, 101u8, 99u8, 116u8, 58u8, 32u8];
    assert(prefix@ =~= subject_prefix());
    decode_with_prefix(prefix, raw)
}

/// Decodes RFC 2047 encoded words in a header fragment such as a display name.
pub fn decode_mime_words(raw: &[u8]) -> (r: String)
    ensures
        r@ == decoded_header(word_prefix(), raw@),
{
    let prefix: Vec<u8> = vec![88u8, 58u8, 32u8];
    assert(prefix@ =~= word_prefix());
    decode_with_prefix(prefix, raw)
}

} // verus!
