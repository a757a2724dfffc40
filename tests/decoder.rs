use gpterm::event::{decode_payload, DecodeCause, Event};
use gpterm::turn::{trim_bytes, Turn, TurnState};

fn streaming() -> Turn {
    let mut t = Turn::new();
    t.connected();
    t
}

fn run(chunks: &[&[u8]]) -> (Turn, Vec<String>) {
    let mut t = streaming();
    let mut all = Vec::new();
    for c in chunks {
        all.extend(t.feed_chunk(c));
    }
    (t, all)
}

fn envelope(content: &str) -> String {
    format!(
        "data: {{\"id\":\"c1\",\"object\":\"chat.completion.chunk\",\"created\":1700000000,\"model\":\"gpt-3.5-turbo\",\"choices\":[{{\"delta\":{{\"content\":\"{}\"}},\"index\":0,\"finish_reason\":null}}]}}\n\n",
        content
    )
}

#[test]
fn content_delta_then_sentinel() {
    let (t, deltas) = run(&[b"data: {\"delta\":{\"content\":\"Hi\"}}\ndata:", b" [DONE]\n"]);
    assert_eq!(deltas, vec!["Hi".to_string()]);
    assert_eq!(*t.state(), TurnState::Completed);
    assert_eq!(t.text(), "Hi");
    assert_eq!(t.exit_status(), None);
    assert_eq!(t.into_text(), "Hi");
}

#[test]
fn invalid_json_is_a_decode_failure() {
    let (t, deltas) = run(&[b"data: {not valid json}\n"]);
    assert!(deltas.is_empty());
    assert_eq!(
        *t.state(),
        TurnState::DecodeFailure { raw: b"{not valid json}".to_vec(), cause: DecodeCause::Syntax }
    );
    assert_eq!(t.exit_status(), Some(1));
    assert!(t.is_finished());
}

#[test]
fn error_payload_is_a_server_error() {
    let (t, deltas) = run(&[b"data: {\"error\":{\"type\":\"invalid_request_error\"}}\n"]);
    assert!(deltas.is_empty());
    assert_eq!(
        *t.state(),
        TurnState::ServerError { kind: Some("invalid_request_error".to_string()), message: None }
    );
    assert_eq!(t.exit_status(), Some(0));
}

#[test]
fn full_envelopes_accumulate_in_order() {
    let stream = format!("{}{}{}data: [DONE]\n\n", envelope("Hel"), envelope("lo, "), envelope("wörld"));
    let (t, deltas) = run(&[stream.as_bytes()]);
    assert_eq!(deltas, vec!["Hel".to_string(), "lo, ".to_string(), "wörld".to_string()]);
    assert_eq!(t.text(), "Hello, wörld");
    assert_eq!(*t.state(), TurnState::Completed);
}

#[test]
fn every_cut_gives_the_same_deltas() {
    let stream = format!("{}{}{}data: [DONE]\n\n", envelope("Hé"), envelope("llo"), envelope(" ✓"));
    let bytes = stream.as_bytes();
    let (whole, whole_deltas) = run(&[bytes]);
    for cut in 0..=bytes.len() {
        let (t, deltas) = run(&[&bytes[..cut], &bytes[cut..]]);
        assert_eq!(deltas, whole_deltas, "cut at {}", cut);
        assert_eq!(t.text(), whole.text());
        assert_eq!(t.state(), whole.state());
    }
    let singles: Vec<&[u8]> = bytes.chunks(1).collect();
    let (t, deltas) = run(&singles);
    assert_eq!(deltas, whole_deltas);
    assert_eq!(t.text(), "Héllo ✓");
}

#[test]
fn marker_cut_in_the_middle_is_one_marker() {
    let (t, deltas) = run(&[b"data: {\"delta\":{\"content\":\"a\"}}\nda", b"ta: {\"delta\":{\"content\":\"b\"}}\n"]);
    assert_eq!(deltas, vec!["a".to_string(), "b".to_string()]);
    assert_eq!(*t.state(), TurnState::Streaming);
    assert_eq!(t.text(), "ab");
}

#[test]
fn nothing_after_the_sentinel() {
    let (t, deltas) = run(&[
        b"data: {\"delta\":{\"content\":\"x\"}}\ndata: [DONE]\ndata: {\"delta\":{\"content\":\"y\"}}\n",
        b"data: {not json}\n",
    ]);
    assert_eq!(deltas, vec!["x".to_string()]);
    assert_eq!(*t.state(), TurnState::Completed);
    assert_eq!(t.text(), "x");
}

#[test]
fn success_schema_wins_over_error_schema() {
    let both = b"{\"delta\":{\"content\":\"ok\"},\"error\":{\"type\":\"t\"}}".to_vec();
    assert_eq!(decode_payload(both), Event::ContentDelta { text: Some("ok".to_string()) });
    let error = b"{\"error\":{\"message\":\"m\",\"type\":\"t\",\"param\":null,\"code\":\"c\"}}".to_vec();
    assert_eq!(
        decode_payload(error),
        Event::ServerError { kind: Some("t".to_string()), message: Some("m".to_string()) }
    );
}

#[test]
fn cancel_before_any_chunk() {
    let mut t = Turn::new();
    t.cancel();
    assert_eq!(*t.state(), TurnState::Cancelled);
    assert_eq!(t.text(), "");
    let mut u = streaming();
    u.cancel();
    assert_eq!(*u.state(), TurnState::Cancelled);
    assert!(u.feed_chunk(b"data: {\"delta\":{\"content\":\"late\"}}\n").is_empty());
    assert_eq!(u.text(), "");
}

#[test]
fn cancel_keeps_text_and_drops_partial_frame() {
    let mut t = streaming();
    assert_eq!(t.feed_chunk(b"data: {\"delta\":{\"content\":\"so far\"}}\ndata: {\"del"), vec!["so far".to_string()]);
    t.cancel();
    assert_eq!(*t.state(), TurnState::Cancelled);
    assert_eq!(t.text(), "so far");
}

#[test]
fn decoding_again_does_not_append() {
    let payload = b"{\"delta\":{\"content\":\"once\"}}".to_vec();
    let first = decode_payload(payload.clone());
    let second = decode_payload(payload);
    assert_eq!(first, second);
    let (t, deltas) = run(&[b"data: {\"delta\":{\"content\":\"once\"}}\n\n"]);
    assert_eq!(deltas, vec!["once".to_string()]);
    assert_eq!(t.text(), "once");
}

#[test]
fn role_only_and_empty_deltas_do_nothing() {
    let (t, deltas) = run(&[
        b"data: {\"delta\":{\"role\":\"assistant\"}}\n\n",
        b"data: {\"delta\":{\"content\":\"\"},\"finish_reason\":\"stop\"}\n\n",
        b"data: {\"id\":\"a\",\"object\":\"o\",\"created\":1,\"model\":\"m\",\"choices\":[]}\n\n",
    ]);
    assert!(deltas.is_empty());
    assert_eq!(t.text(), "");
    assert_eq!(*t.state(), TurnState::Streaming);
}

#[test]
fn whitespace_frames_are_skipped() {
    let (t, deltas) = run(&[b"\n\n   \r\ndata:   \n data: \t{\"delta\":{\"content\":\"z\"}} \r\n"]);
    assert_eq!(deltas, vec!["z".to_string()]);
    assert_eq!(*t.state(), TurnState::Streaming);
}

#[test]
fn schema_mismatches() {
    for p in [
        &b"[1,2]"[..],
        b"\"text\"",
        b"{\"delta\":{\"content\":5}}",
        b"{\"id\":\"a\",\"object\":\"o\",\"created\":1.5,\"model\":\"m\",\"choices\":[]}",
        b"{\"error\":{\"code\":400}}",
        b"{\"error\":\"nope\"}",
        b"{}",
    ] {
        assert_eq!(
            decode_payload(p.to_vec()),
            Event::DecodeFailure { raw: p.to_vec(), cause: DecodeCause::Schema },
            "{}",
            String::from_utf8_lossy(p)
        );
    }
}

#[test]
fn envelope_with_bad_choice_falls_back() {
    let p = b"{\"id\":\"a\",\"object\":\"o\",\"created\":1,\"model\":\"m\",\"choices\":[{\"delta\":{},\"index\":-1}]}";
    assert_eq!(
        decode_payload(p.to_vec()),
        Event::DecodeFailure { raw: p.to_vec(), cause: DecodeCause::Schema }
    );
    let q = b"{\"id\":\"a\",\"object\":\"o\",\"created\":-3,\"model\":\"m\",\"choices\":[{\"delta\":{\"content\":\"c\",\"role\":null},\"index\":2,\"finish_reason\":\"stop\"},{\"delta\":{\"content\":\"d\"},\"index\":3}]}";
    assert_eq!(decode_payload(q.to_vec()), Event::ContentDelta { text: Some("c".to_string()) });
}

#[test]
fn error_without_type() {
    let (t, _) = run(&[b"data: {\"error\":{\"message\":\"bad key\"}}\n"]);
    assert_eq!(*t.state(), TurnState::ServerError { kind: None, message: Some("bad key".to_string()) });
}

#[test]
fn end_of_stream_and_failures() {
    let mut t = streaming();
    t.feed_chunk(b"data: {\"delta\":{\"content\":\"p\"}}\ndata: {\"partial");
    t.end_of_stream();
    assert_eq!(*t.state(), TurnState::Completed);
    assert_eq!(t.text(), "p");

    let mut u = streaming();
    u.transport_failed();
    assert_eq!(*u.state(), TurnState::TransportError);
    assert_eq!(u.exit_status(), None);

    let mut v = Turn::new();
    assert!(v.feed_chunk(b"data: {\"delta\":{\"content\":\"early\"}}\n").is_empty());
    v.request_failed();
    assert_eq!(*v.state(), TurnState::RequestFailure);
    assert_eq!(v.text(), "");
    v.connected();
    assert_eq!(*v.state(), TurnState::RequestFailure);
}

#[test]
fn trims_ascii_whitespace() {
    assert_eq!(trim_bytes(&b" \t\r\n[DONE] \n".to_vec()), b"[DONE]".to_vec());
    assert_eq!(trim_bytes(&b"   ".to_vec()), Vec::<u8>::new());
    assert_eq!(trim_bytes(&b"a b".to_vec()), b"a b".to_vec());
}

#[test]
fn json_values_are_read_through() {
    let spaced = b" { \"delta\" : { \"content\" : \"a\\nb\\u00e9\" , \"role\" : null } } ".to_vec();
    assert_eq!(decode_payload(spaced), Event::ContentDelta { text: Some("a\nb\u{e9}".to_string()) });
    let big_index = b"{\"id\":\"a\",\"object\":\"o\",\"created\":0,\"model\":\"m\",\"choices\":[{\"delta\":{\"content\":\"k\"},\"index\":18446744073709551615}]}";
    assert_eq!(decode_payload(big_index.to_vec()), Event::ContentDelta { text: Some("k".to_string()) });
    let big_created = b"{\"id\":\"a\",\"object\":\"o\",\"created\":18446744073709551615,\"model\":\"m\",\"choices\":[]}";
    assert_eq!(
        decode_payload(big_created.to_vec()),
        Event::DecodeFailure { raw: big_created.to_vec(), cause: DecodeCause::Schema }
    );
    let truncated = b"{\"delta\":{\"content\":\"x\"".to_vec();
    assert_eq!(
        decode_payload(truncated.clone()),
        Event::DecodeFailure { raw: truncated, cause: DecodeCause::Syntax }
    );
    assert_eq!(
        decode_payload(Vec::new()),
        Event::DecodeFailure { raw: Vec::new(), cause: DecodeCause::Syntax }
    );
}
