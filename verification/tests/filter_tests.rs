use add_metrics_tag::filter::{
    Action, ContextType, DecodeError, HeaderOutcome, HttpHeaders, HttpHeadersRoot, LogLevel,
};

fn propagated(d: &add_metrics_tag::filter::FilterDecision) -> Option<&str> {
    d.outcome.property().map(|s| s.as_str())
}

#[test]
fn factory_declares_http_granularity() {
    let root = HttpHeadersRoot;
    assert_eq!(root.get_type(), Some(ContextType::HttpContext));
}

#[test]
fn factory_binds_context_to_request_id() {
    let root = HttpHeadersRoot;
    let ctx = root.create_http_context(7).unwrap();
    assert_eq!(ctx.context_id, 7);
}

#[test]
fn scenario_alice_is_propagated() {
    let mut ctx = HttpHeaders { context_id: 1 };
    let d = ctx.on_http_request_headers(3, false, Some("QWxpY2U="));
    assert_eq!(d.action, Action::Continue);
    assert_eq!(propagated(&d), Some("Alice"));
    assert_eq!(d.outcome.level(), LogLevel::Info);
}

#[test]
fn scenario_bob_is_trimmed() {
    let mut ctx = HttpHeaders { context_id: 2 };
    let d = ctx.on_http_request_headers(3, false, Some("ICBCb2IgIA=="));
    assert_eq!(d.action, Action::Continue);
    assert_eq!(propagated(&d), Some("Bob"));
}

#[test]
fn scenario_absent_header_writes_nothing() {
    let mut ctx = HttpHeaders { context_id: 3 };
    let d = ctx.on_http_request_headers(0, true, None);
    assert_eq!(d.action, Action::Continue);
    assert!(matches!(d.outcome, HeaderOutcome::Absent));
    assert_eq!(propagated(&d), None);
    assert_eq!(d.outcome.level(), LogLevel::Info);
}

#[test]
fn scenario_malformed_base64_is_an_error() {
    let mut ctx = HttpHeaders { context_id: 4 };
    let d = ctx.on_http_request_headers(3, false, Some("not-base64!!"));
    assert_eq!(d.action, Action::Continue);
    assert!(matches!(
        d.outcome,
        HeaderOutcome::DecodeFailed(DecodeError::MalformedBase64)
    ));
    assert_eq!(propagated(&d), None);
    assert_eq!(d.outcome.level(), LogLevel::Error);
}

#[test]
fn scenario_invalid_utf8_is_an_error() {
    let mut ctx = HttpHeaders { context_id: 5 };
    let d = ctx.on_http_request_headers(3, false, Some("//////8="));
    assert_eq!(d.action, Action::Continue);
    assert!(matches!(
        d.outcome,
        HeaderOutcome::DecodeFailed(DecodeError::InvalidUtf8)
    ));
    assert_eq!(propagated(&d), None);
    assert_eq!(d.outcome.level(), LogLevel::Error);
}

#[test]
fn repeating_the_callback_repeats_the_decision() {
    let mut ctx = HttpHeaders { context_id: 6 };
    let d1 = ctx.on_http_request_headers(3, false, Some("QWxpY2U="));
    let d2 = ctx.on_http_request_headers(3, false, Some("QWxpY2U="));
    assert_eq!(ctx.context_id, 6);
    assert_eq!(d1.action, d2.action);
    assert_eq!(propagated(&d1), propagated(&d2));
    assert_eq!(d1.outcome.level(), d2.outcome.level());
}

fn encode_standard(payload: &str) -> String {
    base64::Engine::encode(&base64::engine::general_purpose::STANDARD, payload.as_bytes())
}

#[test]
fn round_trip_plain_ascii() {
    let header = encode_standard("carol");
    let got = add_metrics_tag::filter::decode_user_name(&header).unwrap();
    assert_eq!(got, "carol");
}

#[test]
fn round_trip_keeps_inner_whitespace() {
    let header = encode_standard("  first  last  ");
    let got = add_metrics_tag::filter::decode_user_name(&header).unwrap();
    assert_eq!(got, "first  last");
}

#[test]
fn round_trip_multibyte_text() {
    let header = encode_standard(" Zoe\u{00E9} \u{00A0}");
    let got = add_metrics_tag::filter::decode_user_name(&header).unwrap();
    assert_eq!(got, "Zoe\u{00E9}");
}

#[test]
fn decode_empty_value_gives_empty_name() {
    assert_eq!(add_metrics_tag::filter::decode_user_name("").unwrap(), "");
}

#[test]
fn decode_all_whitespace_payload_gives_empty_name() {
    // "ICAg" carries three spaces.
    assert_eq!(add_metrics_tag::filter::decode_user_name("ICAg").unwrap(), "");
}

#[test]
fn decode_keeps_inner_space() {
    // "QSBC" carries "A B".
    assert_eq!(add_metrics_tag::filter::decode_user_name("QSBC").unwrap(), "A B");
}

#[test]
fn decode_rejects_missing_padding() {
    assert_eq!(
        add_metrics_tag::filter::decode_user_name("QQ"),
        Err(DecodeError::MalformedBase64)
    );
    assert_eq!(
        add_metrics_tag::filter::decode_user_name("QQ="),
        Err(DecodeError::MalformedBase64)
    );
}

#[test]
fn decode_rejects_nonzero_trailing_bits() {
    // 'R' carries 17: its low four bits are not zero, so "QR==" is not a
    // canonical encoding of any byte.
    assert_eq!(
        add_metrics_tag::filter::decode_user_name("QR=="),
        Err(DecodeError::MalformedBase64)
    );
}

#[test]
fn decode_rejects_padding_in_the_middle() {
    assert_eq!(
        add_metrics_tag::filter::decode_user_name("QQ==QQ=="),
        Err(DecodeError::MalformedBase64)
    );
}

#[test]
fn trim_strips_unicode_whitespace() {
    // The payload surrounds one letter with a no-break space and an em quad.
    let header = encode_standard("\u{00A0}\u{2001}x\u{2001}");
    let got = add_metrics_tag::filter::decode_user_name(&header).unwrap();
    assert_eq!(got, "x");
}

#[test]
fn trim_text_matches_str_trim() {
    for case in ["", "   ", "  a b  ", "\t\nname\r\n", "\u{3000}wide\u{3000}"] {
        assert_eq!(add_metrics_tag::text::trim_text(case), case.trim());
    }
}
