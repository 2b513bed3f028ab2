use immortal_lab::amount::{btc_value_to_sat, canonical_u64, find_byte, parse_u64};
use immortal_lab::direct::{
    check_direct_close, check_incoming_wrap, check_outgoing_wrap, direct_recovery_selection,
    direct_request_document, direct_response_length, direct_response_wraps, frame_direct_request,
    take_direct_record, DirectRecord,
};
use immortal_lab::environment::{
    blurred_time, check_provider_index, exact_topology_health_urls, has_acquired, missing_setting,
    node_prefix, parse_port, request_name, terminal_confirmations, MempoolReply,
};
use immortal_lab::hex::{
    decode_fixed_hex, decode_hex, decode_lower_hex_32, display_txid_wire, hex_nibble, lower_hex,
    require_lower_hex_32,
};
use immortal_lab::http::{
    health_request, keyless_request_head, keyless_response, parse_loopback_http_url,
    relay_authority, verify_health_response, EsploraBroadcastRequest,
};
use immortal_lab::json::{Json, JsonObject};
use immortal_lab::record::{Event, EventTag, RecordKinds};
use immortal_lab::text::{
    contains_text, decimal_text, ends_with, find_char, find_text, head, join, join3, same_text,
    starts_with, trim,
};
use immortal_lab::wire::{
    json_bytes, json_pretty_bytes, json_text, parse_json_bytes, parse_json_text,
};

const KINDS: RecordKinds = RecordKinds {
    rfq: 39_602,
    quote: 39_603,
    order: 39_604,
    contract: 39_605,
    status: 39_606,
    cancel: 39_607,
    close: 39_608,
};

fn refusal<T>(outcome: Result<T, String>) -> String {
    match outcome {
        Ok(_) => panic!("nothing was refused"),
        Err(message) => message,
    }
}

fn document(text: &str) -> Json {
    parse_json_text(text).expect("test document should parse")
}

fn tag(name: &str, value: &str) -> EventTag {
    EventTag {
        name: name.to_owned(),
        values: vec![value.to_owned()],
    }
}

fn record(id: &str, pubkey: &str, kind: u16, tags: Vec<EventTag>) -> Event {
    Event {
        id: id.to_owned(),
        pubkey: pubkey.to_owned(),
        created_at: 1,
        kind,
        tags,
        content: "{}".to_owned(),
        sig: "00".repeat(64),
    }
}

#[test]
fn bytes_are_read_back_from_their_text() {
    let bytes = [0x00, 0x01, 0x9a, 0xbf, 0xff];
    assert_eq!(lower_hex(&bytes), "00019abfff");
    assert_eq!(decode_hex("00019abfff"), Ok(bytes.to_vec()));
    assert_eq!(lower_hex(&[]), "");
}

#[test]
fn hexadecimal_text_is_bounded_and_lowercase() {
    for text in ["", "0", "abc", &"00".repeat(1_000_001)] {
        assert_eq!(
            refusal(decode_hex(text)),
            "hexadecimal artifact is empty, odd, or unbounded"
        );
    }
    for text in ["0A", "0g", "g0", "  ", "\u{e9}"] {
        assert_eq!(
            refusal(decode_hex(text)),
            "hexadecimal artifact is not lowercase"
        );
    }
    assert_eq!(decode_hex(&"ff".repeat(1_000_000)), Ok(vec![0xff; 1_000_000]));
    assert_eq!(hex_nibble(b'0'), Ok(0));
    assert_eq!(hex_nibble(b'f'), Ok(15));
    assert!(hex_nibble(b'F').is_err());
}

#[test]
fn an_identifier_has_thirty_two_bytes() {
    let id = "0a".repeat(32);
    assert_eq!(require_lower_hex_32(&id, "order"), Ok(()));
    assert_eq!(decode_lower_hex_32(&id), Ok([0x0a; 32]));
    for wrong in ["0a".repeat(31), "0a".repeat(33), "0A".repeat(32), "0z".repeat(32)] {
        assert_eq!(
            refusal(require_lower_hex_32(&wrong, "order")),
            "order is not lowercase 32-byte hex"
        );
        assert!(decode_lower_hex_32(&wrong).is_err());
    }
    assert_eq!(
        refusal(decode_lower_hex_32("00")),
        "identity key is not 32-byte lowercase hex"
    );
    assert_eq!(decode_fixed_hex::<2>("beef", "prefix"), Ok(vec![0xbe, 0xef]));
    assert_eq!(
        refusal(decode_fixed_hex::<3>("beef", "prefix")),
        "prefix is not 3 bytes"
    );
}

#[test]
fn a_transaction_identifier_is_shown_backwards() {
    let mut wire = [0u8; 32];
    wire[0] = 0xfe;
    wire[31] = 0x01;
    let mut shown = wire;
    shown.reverse();
    assert_eq!(display_txid_wire(&lower_hex(&shown)), Ok(wire));
    assert_eq!(
        refusal(display_txid_wire("00")),
        "transaction ID is not lowercase 32-byte hex"
    );
}

#[test]
fn an_amount_is_read_back_from_its_decimal_text() {
    for amount in [0, 7, 10, 98_400, u64::MAX] {
        assert_eq!(decimal_text(amount), amount.to_string());
        assert_eq!(canonical_u64(&decimal_text(amount)), Ok(amount));
    }
}

#[test]
fn an_amount_has_one_text_only() {
    for text in ["", "00", "01", "+1", "-1", "1.0", " 1", "1e3"] {
        assert_eq!(refusal(canonical_u64(text)), "amount is not canonical decimal");
    }
    assert_eq!(refusal(canonical_u64("18446744073709551616")), "amount exceeds u64");
    assert_eq!(parse_u64("007"), Some(7));
    assert_eq!(parse_u64("+7"), Some(7));
    assert_eq!(parse_u64(""), None);
    assert_eq!(parse_u64("+"), None);
    assert_eq!(parse_u64("18446744073709551616"), None);
    assert_eq!(find_byte(b"a.b", b'.'), 1);
    assert_eq!(find_byte(b"ab", b'.'), 2);
}

#[test]
fn a_bitcoin_amount_is_counted_in_satoshis() {
    for (text, amount) in [
        ("0", 0),
        ("1", 100_000_000),
        ("0.5", 50_000_000),
        ("0.00001234", 1_234),
        ("0.000984", 98_400),
        ("21.12345678", 2_112_345_678),
    ] {
        assert_eq!(btc_value_to_sat(&document(text)), Ok(amount), "{text}");
    }
    assert_eq!(
        refusal(btc_value_to_sat(&document("-1"))),
        "Bitcoin amount is not a bounded decimal"
    );
    assert_eq!(
        refusal(btc_value_to_sat(&document("0.123456789"))),
        "Bitcoin amount is not a bounded decimal"
    );
    assert_eq!(
        refusal(btc_value_to_sat(&document("0.00000001"))),
        "Bitcoin amount is not a bounded decimal"
    );
    assert_eq!(
        refusal(btc_value_to_sat(&document("184467440738"))),
        "Bitcoin amount exceeds u64 satoshis"
    );
    assert_eq!(
        refusal(btc_value_to_sat(&document("\"1\""))),
        "Bitcoin amount is not numeric"
    );
}

#[test]
fn texts_are_compared_joined_and_searched() {
    assert!(same_text("a", "a") && !same_text("a", "A"));
    assert_eq!(join("ab", "cd"), "abcd");
    assert_eq!(join3("a", "", "\u{e9}"), "a\u{e9}");
    assert!(starts_with("ws://relay", "ws://") && !starts_with("ws:/", "ws://"));
    assert!(ends_with("x/healthz", "/healthz") && !ends_with("healthz", "/healthz"));
    assert_eq!(find_char("\u{e9},b", ','), 1);
    assert_eq!(find_char("abc", ','), 3);
    assert_eq!(head("host:1/path", '/'), "host:1");
    assert_eq!(find_text("xx\r\n\r\nbody", "\r\n\r\n"), Some(2));
    assert!(contains_text("a=b", "=") && !contains_text("ab", "="));
    assert_eq!(trim(" \t\r\n inner text \u{2003}\n"), "inner text");
}

#[test]
fn a_document_is_parsed_and_written_by_the_same_rules() {
    let text = r#"{"b":[1,-2,true,null,"é\n"],"a":{"x":0.25}}"#;
    let parsed = document(text);
    assert_eq!(json_text(&parsed).as_deref(), Some("{\"a\":{\"x\":0.25},\"b\":[1,-2,true,null,\"\u{e9}\\n\"]}"));
    let again = parse_json_bytes(&json_bytes(&parsed).expect("document should encode"))
        .expect("document should parse again");
    assert!(again.same(&parsed));
    assert_eq!(
        json_pretty_bytes(&document("{\"a\":[1]}")),
        Some(b"{\n  \"a\": [\n    1\n  ]\n}".to_vec())
    );
    assert!(parse_json_text("{").is_err());
    assert!(parse_json_text("{} {}").is_err());
    assert!(parse_json_bytes(&[0xff]).is_err());
}

#[test]
fn the_last_of_two_members_of_a_name_counts() {
    let parsed = document(r#"{"a":1,"a":2}"#);
    assert_eq!(parsed.u64_at("a"), Some(2));
    assert_eq!(parsed.as_object().expect("an object").len(), 1);
}

#[test]
fn members_are_kept_by_name() {
    let mut members = JsonObject::new().with_text("t", "x").with_number("n", u64::MAX).with_bool("b", true);
    assert_eq!(members.len(), 3);
    assert_eq!(members.text_at("t"), Some("x"));
    assert_eq!(members.u64_at("n"), Some(u64::MAX));
    assert_eq!(members.bool_at("b"), Some(true));
    assert_eq!(members.u64_at("t"), None);
    assert!(members.says("t", "x") && !members.says("t", "y"));
    assert!(members.is_complete(&vec!["b", "n", "t"]));
    assert!(!members.is_complete(&vec!["b", "n", "t", "z"]));
    let other = JsonObject::new().with_number("n", u64::MAX).with_bool("b", true).with_text("t", "x");
    assert!(members.same(&other));
    members.insert("t", Json::null());
    assert!(members.get("t").expect("a member").is_null());
    assert!(!members.same(&other));
    members.remove("t");
    assert!(!members.contains_key("t") && members.len() == 2);
    assert!(other.includes(&members) && !members.includes(&other));
}

#[test]
fn a_negative_number_is_no_count() {
    assert_eq!(document("-1").as_u64(), None);
    assert_eq!(document("1.0").as_u64(), None);
    assert_eq!(document("18446744073709551615").as_u64(), Some(u64::MAX));
    assert!(!document("1").same(&document("1.0")));
    assert!(document("[1,\"a\"]").same(&document("[1,\"a\"]")));
}

#[test]
fn an_endpoint_of_the_keyless_process_is_local() {
    assert_eq!(
        parse_loopback_http_url("http://127.0.0.1:3002/api/tx"),
        Ok(("127.0.0.1:3002".to_owned(), "/api/tx".to_owned()))
    );
    for (url, message) in [
        ("https://127.0.0.1:1/", "keyless HTTP endpoint must be bounded loopback plaintext"),
        ("http://127.0.0.2:1/", "keyless HTTP endpoint must be bounded loopback plaintext"),
        ("http://127.0.0.1:1", "keyless HTTP endpoint has no path"),
        ("http://127.0.0.1:1@host/", "keyless HTTP endpoint contains forbidden URL syntax"),
        ("http://127.0.0.1:1/a?b", "keyless HTTP endpoint contains forbidden URL syntax"),
        ("http://127.0.0.1:1/a#b", "keyless HTTP endpoint contains forbidden URL syntax"),
        ("http://127.0.0.1:1/a\u{7f}", "keyless HTTP endpoint contains forbidden URL syntax"),
        ("http://127.0.0.1:0/", "keyless HTTP endpoint has an invalid port"),
        ("http://127.0.0.1:65536/", "keyless HTTP endpoint has an invalid port"),
        ("http://127.0.0.1:x/", "keyless HTTP endpoint has an invalid port"),
    ] {
        assert_eq!(refusal(parse_loopback_http_url(url)), message, "{url}");
    }
    let long = format!("http://127.0.0.1:1/{}", "a".repeat(2_048));
    assert!(parse_loopback_http_url(&long).is_err());
    for url in [
        "http://127.0.0.1:3002/api/tx",
        "http://127.0.0.1:00080/",
        "http://127.0.0.1:+65535/a//b@c",
    ] {
        let (authority, path) = parse_loopback_http_url(url).expect("an endpoint");
        assert!(url.ends_with(&path), "{url}");
        assert_eq!(
            parse_loopback_http_url(&format!("http://{authority}{path}")),
            Ok((authority, path)),
            "{url}"
        );
    }
}

#[test]
fn a_transaction_is_posted_and_answered() {
    let request = EsploraBroadcastRequest {
        effect_id: "11".repeat(32),
        method: "POST".to_owned(),
        url: "http://127.0.0.1:3002/api/tx".to_owned(),
        content_type: "text/plain".to_owned(),
        body: "0200".to_owned(),
    };
    assert_eq!(
        keyless_request_head(&request),
        Ok((
            "127.0.0.1:3002".to_owned(),
            "POST /api/tx HTTP/1.1\r\nHost: 127.0.0.1:3002\r\nContent-Type: text/plain\r\nContent-Length: 4\r\nConnection: close\r\n\r\n".to_owned()
        ))
    );
    let id = "ab".repeat(32);
    assert_eq!(
        keyless_response(format!("HTTP/1.1 200 OK\r\nA: b\r\n\r\n {id}\n").as_bytes()),
        Ok(id.clone())
    );
    for (answer, message) in [
        (format!("HTTP/1.1 400 Bad\r\n\r\n{id}"), "keyless Esplora endpoint refused the transaction"),
        (format!("HTTP/1.1 200 OK\r\n{id}"), "keyless HTTP response has no header boundary"),
        (
            "HTTP/1.1 200 OK\r\n\r\nno".to_owned(),
            "keyless response transaction ID is not lowercase 32-byte hex",
        ),
        ("a".repeat(8_193), "keyless HTTP response exceeds its bound"),
    ] {
        assert_eq!(refusal(keyless_response(answer.as_bytes())), message);
    }
    assert_eq!(
        refusal(keyless_response(&[0xff, 0xfe])),
        "keyless HTTP response is not UTF-8"
    );
}

#[test]
fn a_provider_says_that_it_is_ready() {
    assert_eq!(
        health_request("http://127.0.0.1:9091/healthz"),
        Ok((
            "127.0.0.1:9091".to_owned(),
            "GET /healthz HTTP/1.1\r\nHost: 127.0.0.1:9091\r\nConnection: close\r\n\r\n".to_owned()
        ))
    );
    assert_eq!(
        health_request("http://127.0.0.1:9091"),
        Ok((
            "127.0.0.1:9091".to_owned(),
            "GET / HTTP/1.1\r\nHost: 127.0.0.1:9091\r\nConnection: close\r\n\r\n".to_owned()
        ))
    );
    assert_eq!(
        refusal(health_request("ftp://127.0.0.1")),
        "smoke health URL must use plaintext loopback HTTP"
    );
    assert_eq!(verify_health_response(b"HTTP/1.1 200 OK\r\nA: b\r\n\r\nready\n"), Ok(()));
    assert_eq!(
        refusal(verify_health_response(b"HTTP/1.1 200 OK\r\n\r\nready")),
        "provider health endpoint did not report ready"
    );
    assert_eq!(
        refusal(verify_health_response(&[0xc3])),
        "provider health response is not UTF-8"
    );
}

#[test]
fn a_relay_is_reached_at_its_authority() {
    assert_eq!(relay_authority("ws://relay:7777/path"), Ok("relay:7777".to_owned()));
    assert_eq!(relay_authority("ws://relay/path"), Ok("relay:80".to_owned()));
    assert_eq!(
        refusal(relay_authority("wss://relay")),
        "funded smoke accepts only ws:// relay URLs"
    );
}

#[test]
fn settings_are_read_within_their_bounds() {
    assert_eq!(parse_port("65535", "bad port"), Ok(65_535));
    assert_eq!(refusal(parse_port("65536", "bad port")), "bad port");
    assert_eq!(terminal_confirmations("1"), Ok(1));
    assert_eq!(terminal_confirmations("288"), Ok(288));
    for outside in ["0", "289"] {
        assert_eq!(
            refusal(terminal_confirmations(outside)),
            "smoke terminal confirmation count is outside its bound"
        );
    }
    assert_eq!(
        refusal(terminal_confirmations("many")),
        "smoke terminal confirmation count is invalid"
    );
    assert_eq!(check_provider_index(1), Ok(()));
    assert_eq!(
        refusal(check_provider_index(2)),
        "adversarial provider index is outside the two-provider topology"
    );
    assert_eq!(node_prefix("B"), Ok("IMMORTAL_LAB_ADVERSARIAL_BITCOIND_B".to_owned()));
    assert_eq!(refusal(node_prefix("C")), "adversarial bitcoind suffix must be A or B");
    assert_eq!(missing_setting("X"), "X is required for the funded smoke");
}

#[test]
fn two_health_urls_differ_and_are_local() {
    assert_eq!(
        refusal(exact_topology_health_urls("http://127.0.0.1:1/healthz")),
        "funded topology requires exactly two provider health URLs"
    );
    for wrong in [
        "http://127.0.0.1:1/healthz,http://127.0.0.2:1/healthz",
        "http://127.0.0.1:1/healthz,http://127.0.0.1:2/health",
        "http://127.0.0.1:1/healthz,http://127.0.0.1:\n/healthz",
    ] {
        assert_eq!(
            refusal(exact_topology_health_urls(wrong)),
            "funded topology health URLs must be distinct bounded loopback URLs"
        );
    }
}

#[test]
fn the_name_of_a_request_is_bounded() {
    assert_eq!(request_name("mine"), Some("funded-smoke:mine".to_owned()));
    assert_eq!(
        request_name(&"a".repeat(90)),
        Some(format!("funded-smoke:{}", "a".repeat(80)))
    );
    assert_eq!(request_name(&format!("{}\u{e9}", "a".repeat(79))), None);
}

#[test]
fn a_sealed_record_is_dated_shortly_before() {
    assert_eq!(blurred_time(10_000, 0), 10_000);
    assert_eq!(blurred_time(10_000, 255), 7_450);
    assert_eq!(blurred_time(100, 255), 0);
}

#[test]
fn a_lock_waits_for_an_ancestor() {
    let acquired = MempoolReply::Entry(document(r#"{"ancestorcount":2,"depends":["ab"]}"#));
    let alone = MempoolReply::Entry(document(r#"{"ancestorcount":1,"depends":[]}"#));
    assert_eq!(has_acquired(&acquired, true), Ok(true));
    assert_eq!(has_acquired(&alone, false), Ok(false));
    assert_eq!(
        refusal(has_acquired(&alone, true)),
        "zero-conf funding did not acquire an unconfirmed ancestor"
    );
    assert_eq!(has_acquired(&MempoolReply::Absent, false), Ok(false));
    assert_eq!(
        refusal(has_acquired(&MempoolReply::Failed("down".to_owned()), false)),
        "could not inspect zero-conf ancestor state: down"
    );
}

#[test]
fn a_message_is_framed_by_its_length() {
    let framed = frame_direct_request(&vec![7; 0x1_0203]).expect("a bounded request");
    assert_eq!(framed[..4], [0, 1, 2, 3]);
    assert_eq!(framed.len(), 0x1_0207);
    assert_eq!(direct_response_length([0, 1, 2, 3]), Ok(0x1_0203));
    assert_eq!(direct_response_length([0, 0x80, 0, 0]), Ok(8_388_608));
    for wrong in [[0, 0, 0, 0], [0, 0x80, 0, 1], [0xff, 0, 0, 0]] {
        assert_eq!(
            refusal(direct_response_length(wrong)),
            "direct recovery response is empty or exceeds its bound"
        );
    }
    assert_eq!(
        refusal(frame_direct_request(&vec![0; 2_097_153])),
        "direct recovery request exceeds its byte bound"
    );
}

#[test]
fn records_over_the_direct_channel_are_sealed_for_one_party() {
    let sealed = record("1", "x", 1_059, vec![tag("p", "provider")]);
    let bare = record("1", "x", 1_058, vec![tag("p", "provider")]);
    let twice = record("1", "x", 1_059, vec![tag("p", "provider"), tag("p", "provider")]);
    assert_eq!(check_outgoing_wrap(&sealed, "provider"), Ok(()));
    assert_eq!(check_incoming_wrap(&sealed, "provider"), Ok(()));
    for wrong in [&bare, &twice] {
        assert_eq!(
            refusal(check_outgoing_wrap(wrong, "provider")),
            "direct recovery produced a bare or misaddressed record"
        );
        assert_eq!(
            refusal(check_incoming_wrap(wrong, "provider")),
            "direct recovery returned a bare or misaddressed record"
        );
    }
}

#[test]
fn a_direct_request_carries_the_requesters_own_records() {
    let records = vec![
        record("a", "me", KINDS.rfq, vec![]),
        record("b", "me", KINDS.order, vec![]),
        record("c", "them", KINDS.status, vec![]),
        record("d", "me", KINDS.contract, vec![]),
        record("e", "me", KINDS.status, vec![]),
    ];
    assert_eq!(direct_recovery_selection(&records, KINDS, "me"), vec![0, 3, 4]);
    let request = direct_request_document(vec![Json::null()]).expect("one wrap");
    assert!(request.same(&document(
        r#"{"schema":"openagents.immortal.provider-direct-recovery-request.v1","wraps":[null]}"#
    )));
    for count in [0, 33] {
        let wraps: Vec<Json> = (0..count).map(|_| Json::null()).collect();
        assert_eq!(
            refusal(direct_request_document(wraps)),
            "direct recovery request is empty or exceeds its wrap bound"
        );
    }
}

#[test]
fn a_direct_response_has_exactly_its_members() {
    let response = document(
        r#"{"schema":"openagents.immortal.provider-direct-recovery-response.v1","wraps":[1,2]}"#,
    );
    assert_eq!(direct_response_wraps(&response).expect("two wraps").len(), 2);
    for (text, message) in [
        ("[]", "direct recovery response has unknown or missing members"),
        (
            r#"{"schema":"openagents.immortal.provider-direct-recovery-response.v1"}"#,
            "direct recovery response has unknown or missing members",
        ),
        (
            r#"{"schema":"other","wraps":[]}"#,
            "direct recovery response schema is unsupported",
        ),
        (
            r#"{"schema":"openagents.immortal.provider-direct-recovery-response.v1","wraps":1}"#,
            "direct recovery response wraps exceed their bound",
        ),
    ] {
        assert_eq!(refusal(direct_response_wraps(&document(text))), message);
    }
}

#[test]
fn one_close_is_held_back_until_it_is_verified() {
    let status = record("s", "provider", KINDS.status, vec![]);
    let close = || record("c", "provider", KINDS.close, vec![tag("outcome", "refunded")]);
    let other = record("d", "provider", KINDS.close, vec![tag("outcome", "refunded")]);
    assert!(matches!(
        take_direct_record(&status, KINDS, "provider", &None),
        Ok(DirectRecord::Ingest)
    ));
    assert!(matches!(
        take_direct_record(&close(), KINDS, "provider", &None),
        Ok(DirectRecord::HoldClose)
    ));
    assert!(matches!(
        take_direct_record(&close(), KINDS, "provider", &Some(close())),
        Ok(DirectRecord::SameClose)
    ));
    assert_eq!(
        refusal(take_direct_record(&other, KINDS, "provider", &Some(close()))),
        "direct recovery returned conflicting provider Closes"
    );
    assert_eq!(
        refusal(take_direct_record(&status, KINDS, "requester", &None)),
        "direct recovery returned a non-provider record"
    );
    assert_eq!(check_direct_close(&Some(close()), "provider", "refunded"), Ok(()));
    assert_eq!(
        refusal(check_direct_close(&Some(close()), "provider", "completed")),
        "direct recovery returned another provider Close"
    );
    assert_eq!(
        refusal(check_direct_close(&None, "provider", "completed")),
        "direct recovery has no provider Close"
    );
}
