use domain_guard::codec::{split_fields, trim_line_end};
use domain_guard::filter::{decode_line, Event, Filter};
use domain_guard::verdict::{distinct_domains, recipient_domain, sender_allowed};

fn run_filter(input: &[u8]) -> Vec<u8> {
    let mut filter = Filter::new();
    let mut out = Vec::new();
    for line in input.split_inclusive(|&b| b == b'\n') {
        out.extend_from_slice(&filter.handle_line(line));
    }
    out
}

fn run_text(input: &str) -> String {
    String::from_utf8(run_filter(input.as_bytes())).unwrap()
}

#[test]
fn test_config_ready_registers_filters() {
    let stdout = run_text("config|ready\n");
    assert!(stdout.contains("register|report|smtp-in|tx-begin"));
    assert!(stdout.contains("register|report|smtp-in|tx-rcpt"));
    assert!(stdout.contains("register|filter|smtp-in|data-line"));
    assert!(stdout.contains("register|filter|smtp-in|commit"));
    assert!(stdout.contains("register|report|smtp-in|link-disconnect"));
    assert!(stdout.contains("register|ready"));
}

#[test]
fn config_ready_sends_registrations_in_order() {
    assert_eq!(
        run_text("config|ready\n"),
        "register|report|smtp-in|tx-begin\n\
         register|report|smtp-in|tx-rcpt\n\
         register|filter|smtp-in|data-line\n\
         register|filter|smtp-in|commit\n\
         register|report|smtp-in|link-disconnect\n\
         register|ready\n"
    );
}

#[test]
fn other_config_lines_get_no_answer() {
    assert_eq!(run_text("config|subsystem|smtp-in\nconfig\n"), "");
}

#[test]
fn test_data_line_is_echoed() {
    let stdout =
        run_text("config|ready\nfilter|1|0|smtp-in|data-line|sess1|tok1|Hello World\n");
    assert!(stdout.contains("filter-dataline|sess1|tok1|Hello World"));
}

#[test]
fn data_line_echo_is_exact() {
    assert_eq!(
        run_text("filter|1|0|smtp-in|data-line|s1|t1|Hello World\n"),
        "filter-dataline|s1|t1|Hello World\n"
    );
}

#[test]
fn data_line_echo_keeps_pipes_and_empty_fields() {
    assert_eq!(
        run_text("filter|1|0|smtp-in|data-line|s1|t1|a||b|\r\n"),
        "filter-dataline|s1|t1|a||b|\n"
    );
    assert_eq!(
        run_text("filter|1|0|smtp-in|data-line|s1|t1\n"),
        "filter-dataline|s1|t1|\n"
    );
}

#[test]
fn terminator_is_echoed_too() {
    assert_eq!(
        run_text("report|1|0|smtp-in|tx-begin|s1\nfilter|1|0|smtp-in|data-line|s1|t2|.\n"),
        "filter-dataline|s1|t2|.\n"
    );
}

#[test]
fn test_commit_no_session_proceeds() {
    let stdout = run_text("config|ready\nfilter|1|0|smtp-in|commit|sess1|tok1\n");
    assert!(stdout.contains("filter-result|sess1|tok1|proceed"));
}

#[test]
fn commit_without_session_is_exact() {
    assert_eq!(
        run_text("filter|1|0|smtp-in|commit|s1|t1\n"),
        "filter-result|s1|t1|proceed\n"
    );
}

#[test]
fn test_commit_proceeds_when_sender_name_lacks_recipient_domain() {
    let stdout = run_text(
        "config|ready\n\
        report|1|0|smtp-in|tx-begin|sess1\n\
        report|1|0|smtp-in|tx-rcpt|sess1|m1|ok|user@example.com\n\
        filter|1|0|smtp-in|data-line|sess1|tok1|From: Alice <alice@other.com>\n\
        filter|1|0|smtp-in|data-line|sess1|tok2|.\n\
        filter|1|0|smtp-in|commit|sess1|tok3\n",
    );
    assert!(stdout.contains("filter-result|sess1|tok3|proceed"));
}

#[test]
fn test_commit_rejects_when_sender_name_contains_recipient_domain() {
    let stdout = run_text(
        "config|ready\n\
        report|1|0|smtp-in|tx-begin|sess1\n\
        report|1|0|smtp-in|tx-rcpt|sess1|m1|ok|user@evil.com\n\
        filter|1|0|smtp-in|data-line|sess1|tok1|From: User from evil.com <alice@other.com>\n\
        filter|1|0|smtp-in|data-line|sess1|tok2|.\n\
        filter|1|0|smtp-in|commit|sess1|tok3\n",
    );
    assert!(stdout
        .contains("filter-result|sess1|tok3|reject|550 Sender name contains recipient domain"));
}

#[test]
fn test_link_disconnect_removes_session() {
    let stdout = run_text(
        "config|ready\n\
        report|1|0|smtp-in|tx-begin|sess1\n\
        report|1|0|smtp-in|tx-rcpt|sess1|m1|ok|user@evil.com\n\
        report|1|0|smtp-in|link-disconnect|sess1\n\
        filter|1|0|smtp-in|commit|sess1|tok1\n",
    );
    assert!(stdout.contains("filter-result|sess1|tok1|proceed"));
}

fn verdict_for(rcpt: &str, from: &str) -> String {
    let input = format!(
        "report|1|0|smtp-in|tx-begin|s1\n\
         report|1|0|smtp-in|tx-rcpt|s1|m1|ok|{}\n\
         filter|1|0|smtp-in|data-line|s1|t1|From: {}\n\
         filter|1|0|smtp-in|data-line|s1|t2|.\n\
         filter|1|0|smtp-in|commit|s1|t3\n",
        rcpt, from
    );
    let out = run_text(&input);
    out.lines().last().unwrap().to_string()
}

#[test]
fn domain_inside_longer_word_does_not_match() {
    assert_eq!(
        verdict_for("user@ample.com", "\"example.comzzz\" <alice@other.com>"),
        "filter-result|s1|t3|proceed"
    );
}

#[test]
fn standalone_domain_matches() {
    assert_eq!(
        verdict_for("user@ample.com", "Support Team ample.com Security <alice@other.com>"),
        "filter-result|s1|t3|reject|550 Sender name contains recipient domain"
    );
}

#[test]
fn domain_dot_is_not_a_wildcard() {
    assert_eq!(
        verdict_for("user@evil.com", "Team evilXcom <alice@other.com>"),
        "filter-result|s1|t3|proceed"
    );
}

#[test]
fn address_part_of_sender_is_not_checked() {
    assert_eq!(
        verdict_for("user@other.com", "Alice <alice@other.com>"),
        "filter-result|s1|t3|proceed"
    );
}

#[test]
fn failed_recipient_is_not_recorded() {
    let out = run_text(
        "report|1|0|smtp-in|tx-begin|s1\n\
         report|1|0|smtp-in|tx-rcpt|s1|m1|tempfail|user@evil.com\n\
         filter|1|0|smtp-in|data-line|s1|t1|From: evil.com <a@b.org>\n\
         filter|1|0|smtp-in|data-line|s1|t2|.\n\
         filter|1|0|smtp-in|commit|s1|t3\n",
    );
    assert!(out.ends_with("filter-result|s1|t3|proceed\n"));
}

#[test]
fn later_recipient_with_matching_domain_rejects() {
    let out = run_text(
        "report|1|0|smtp-in|tx-begin|s1\n\
         report|1|0|smtp-in|tx-rcpt|s1|m1|ok|a@good.org\n\
         report|1|0|smtp-in|tx-rcpt|s1|m1|ok|b@evil.com\n\
         report|1|0|smtp-in|tx-rcpt|s1|m1|ok|c@evil.com\n\
         filter|1|0|smtp-in|data-line|s1|t1|From: evil.com <a@b.org>\n\
         filter|1|0|smtp-in|commit|s1|t3\n",
    );
    assert!(out.ends_with("filter-result|s1|t3|reject|550 Sender name contains recipient domain\n"));
}

#[test]
fn tx_begin_resets_a_reused_session() {
    let out = run_text(
        "report|1|0|smtp-in|tx-begin|s1\n\
         report|1|0|smtp-in|tx-rcpt|s1|m1|ok|b@evil.com\n\
         report|1|0|smtp-in|tx-begin|s1\n\
         filter|1|0|smtp-in|data-line|s1|t1|From: evil.com <a@b.org>\n\
         filter|1|0|smtp-in|commit|s1|t3\n",
    );
    assert!(out.ends_with("filter-result|s1|t3|proceed\n"));
}

#[test]
fn unparsable_or_senderless_body_proceeds() {
    let out = run_text(
        "report|1|0|smtp-in|tx-begin|s1\n\
         report|1|0|smtp-in|tx-rcpt|s1|m1|ok|b@evil.com\n\
         filter|1|0|smtp-in|data-line|s1|t1|Subject: evil.com\n\
         filter|1|0|smtp-in|commit|s1|t3\n",
    );
    assert!(out.ends_with("filter-result|s1|t3|proceed\n"));
}

#[test]
fn short_and_unknown_lines_are_ignored() {
    assert_eq!(
        run_text(
            "report|1|0|smtp-in|tx-begin\n\
             filter|1|0|smtp-in|commit|s1\n\
             filter|1|0|smtp-in|link-auth|s1|t1\n\
             nonsense\n\
             \n"
        ),
        ""
    );
}

#[test]
fn decode_reads_phases_and_fields() {
    match decode_line(b"report|1|0|smtp-in|tx-rcpt|s9|m1|ok|x@y.z\r\n") {
        Event::TxRcpt { session, status, recipient } => {
            assert_eq!(session, b"s9");
            assert_eq!(status, b"ok");
            assert_eq!(recipient, b"x@y.z");
        }
        _ => panic!("expected a recipient event"),
    }
    assert!(matches!(decode_line(b"report|1|0|smtp-in|tx-rcpt|s9|m1|ok"), Event::Ignored));
    assert!(matches!(decode_line(b"config|ready|extra"), Event::ConfigReady));
}

#[test]
fn split_and_trim() {
    assert_eq!(split_fields(b"a||b"), vec![b"a".to_vec(), b"".to_vec(), b"b".to_vec()]);
    assert_eq!(split_fields(b""), vec![Vec::<u8>::new()]);
    assert_eq!(trim_line_end(b"ab\r\n\n"), 2);
    assert_eq!(trim_line_end(b"\r\n"), 0);
    assert_eq!(trim_line_end(b"a\rb"), 3);
}

#[test]
fn domain_is_after_last_at() {
    assert_eq!(recipient_domain(b"a@b@c.org"), Some(b"c.org".to_vec()));
    assert_eq!(recipient_domain(b"user@"), Some(Vec::new()));
    assert_eq!(recipient_domain(b"nobody"), None);
}

#[test]
fn shared_domain_is_listed_once() {
    let rcpts = vec![
        b"a@x.org".to_vec(),
        b"b@y.org".to_vec(),
        b"c@x.org".to_vec(),
        b"plain".to_vec(),
        b"d@y.org".to_vec(),
    ];
    assert_eq!(distinct_domains(&rcpts), vec![b"x.org".to_vec(), b"y.org".to_vec()]);
}

#[test]
fn sender_allowed_checks_every_name() {
    let rcpts = vec![b"a@evil.com".to_vec()];
    let names = vec![None, Some("Bob".to_string()), Some("evil.com support".to_string())];
    assert!(!sender_allowed(&rcpts, &names));
    let names = vec![None, Some("Bob".to_string())];
    assert!(sender_allowed(&rcpts, &names));
    assert!(sender_allowed(&Vec::new(), &vec![Some("evil.com".to_string())]));
}
