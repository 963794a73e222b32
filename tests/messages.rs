use rs_mail_client::message::{decode_mime_words, decode_subject, extract_best_effort_body_and_date};
use rs_mail_client::summary::{
    body_from_raw, next_body_step, sender_display_name, summarize, BodyStep, Envelope,
};
use rs_mail_client::text::{
    break_long_tokens, format_body_for_tui, normalize_snippet, strip_html_minimal,
    trim_long_link_lines,
};

fn envelope(subject: Option<&str>, name: Option<&str>, mailbox: Option<&str>, host: Option<&str>) -> Envelope {
    Envelope {
        subject: subject.map(|s| s.as_bytes().to_vec()),
        from_name: name.map(|s| s.as_bytes().to_vec()),
        from_mailbox: mailbox.map(|s| s.as_bytes().to_vec()),
        from_host: host.map(|s| s.as_bytes().to_vec()),
    }
}

#[test]
fn snippet_collapses_lines() {
    assert_eq!(normalize_snippet("  Hello \n\n  world\r\n\t\n", 140), "Hello world");
    assert_eq!(normalize_snippet("", 140), "");
    assert_eq!(normalize_snippet("abcdef\nghi", 8), "abcdef g");
    let long = "x".repeat(300);
    assert_eq!(normalize_snippet(&long, 140).chars().count(), 140);
}

#[test]
fn html_tags_are_stripped() {
    assert_eq!(strip_html_minimal("<p>Hi <b>there</b></p>"), "Hi there");
    assert_eq!(strip_html_minimal("a > b"), "a  b");
}

#[test]
fn long_link_lines_are_cut() {
    let link = format!("see http://{}", "a".repeat(30));
    let out = trim_long_link_lines(&format!("{}\r\nplain\n", link), 10);
    assert_eq!(out, "see http:/…\nplain");
    assert_eq!(trim_long_link_lines("\nb", 10), "\nb");
    assert_eq!(trim_long_link_lines("", 10), "");
}

#[test]
fn long_tokens_are_broken() {
    assert_eq!(break_long_tokens("abcdefg hi", 3), "abc def g hi");
    assert_eq!(format_body_for_tui("short text"), "short text");
    let token = "y".repeat(75);
    assert_eq!(format_body_for_tui(&token), format!("{} {}", "y".repeat(70), "y".repeat(5)));
}

#[test]
fn encoded_subjects_are_decoded() {
    assert_eq!(decode_subject(b"=?UTF-8?B?SGVsbG8=?="), "Hello");
    assert_eq!(decode_subject(b"Plain"), "Plain");
    assert_eq!(decode_mime_words(b"=?utf-8?q?J=C3=BCrgen?="), "J\u{fc}rgen");
}

#[test]
fn plain_part_preferred_over_html() {
    let raw = [
        "Subject: Multi\r\n",
        "Date: Sun, 02 Oct 2016 07:06:22 -0700\r\n",
        "Content-Type: multipart/alternative; boundary=b\r\n",
        "\r\n",
        "--b\r\n",
        "Content-Type: text/html\r\n",
        "\r\n",
        "<p>html body</p>\r\n",
        "--b\r\n",
        "Content-Type: text/plain\r\n",
        "\r\n",
        "plain body\r\n",
        "--b--\r\n",
    ]
    .join("");
    let (body, date) = extract_best_effort_body_and_date(&raw.as_bytes().to_vec());
    assert!(body.starts_with("plain body"));
    assert_eq!(date, 1475417182);
}

#[test]
fn html_fallback_is_tag_stripped() {
    let raw = "Content-Type: text/html\r\n\r\n<p>only <i>html</i></p>\r\n";
    let (body, date) = extract_best_effort_body_and_date(&raw.as_bytes().to_vec());
    assert!(body.starts_with("only html"));
    assert_eq!(date, 0);
}

#[test]
fn summary_fallbacks() {
    let raw = b"Subject:  From headers \r\nDate: Sun, 02 Oct 2016 07:06:22 -0700\r\n\r\nLine one\r\n\r\nLine two\r\n".to_vec();
    let s = summarize(7, &envelope(None, None, Some("bob"), Some("example.org")), &Some(raw));
    assert_eq!(s.id, 7);
    assert_eq!(s.subject, "From headers");
    assert_eq!(s.from_name, "bob@example.org");
    assert_eq!(s.snippet, "Line one Line two");
    assert_eq!(s.date_epoch, 1475417182);

    let s = summarize(8, &envelope(Some("Hi"), Some("Alice"), Some("a"), Some("b")), &None);
    assert_eq!(s.subject, "Hi");
    assert_eq!(s.from_name, "Alice");
    assert_eq!(s.snippet, "");
    assert_eq!(s.date_epoch, 0);

    let s = summarize(9, &envelope(None, None, None, None), &None);
    assert_eq!(s.subject, "(no subject)");
    assert_eq!(s.from_name, "(unknown)");
}

#[test]
fn sender_without_host() {
    assert_eq!(sender_display_name(&envelope(None, Some("  "), Some("carol"), None)), "carol");
}

#[test]
fn body_retry_steps() {
    assert!(matches!(next_body_step(0, None), BodyStep::Retry));
    match next_body_step(1, Some(b"retried".to_vec())) {
        BodyStep::Use(b) => assert_eq!(b, b"retried".to_vec()),
        other => panic!("unexpected step {:?}", other),
    }
    assert!(matches!(next_body_step(1, None), BodyStep::Missing));
    match next_body_step(0, Some(b"first".to_vec())) {
        BodyStep::Use(b) => assert_eq!(b, b"first".to_vec()),
        other => panic!("unexpected step {:?}", other),
    }
}

#[test]
fn body_from_raw_message() {
    let b = body_from_raw(4, &b"Subject: x\r\n\r\nhello\r\n".to_vec());
    assert_eq!(b.id, 4);
    assert!(b.body.starts_with("hello"));
}
