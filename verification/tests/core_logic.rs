//! The verified pieces on concrete values: base64, escaping, JSON reading,
//! the builder.

use aronline::legacy::base64::{decode, value_of};
use aronline::legacy::{read_sending_proof, status_code, LegacyEndpoint, LegacyRoute};
use aronline::{
    build_url, encode, encode_segment, parse_json, trim_trailing_slash, ClientBuilder, JsonValue,
    V3Route, DEFAULT_BASE_URL,
};
use std::time::Duration;

#[test]
fn base64_decodes_each_group_length() {
    assert_eq!(decode("aGVsbG8="), Some(b"hello".to_vec()));
    assert_eq!(decode("aGVsbA=="), Some(b"hell".to_vec()));
    assert_eq!(decode("aGVs"), Some(b"hel".to_vec()));
    assert_eq!(decode("QQ=="), Some(b"A".to_vec()));
    assert_eq!(decode(""), Some(Vec::new()));
}

#[test]
fn base64_padding_only_completes_the_last_group() {
    // `QQ==` is a byte; `QQ=` and `QUJD====` are someone else's text.
    assert_eq!(decode("QQ="), None);
    assert_eq!(decode("QUJD===="), None);
    assert_eq!(decode("QUJD"), Some(b"ABC".to_vec()));
    assert_eq!(decode("Q==="), None);
}

#[test]
fn base64_ignores_whitespace_anywhere() {
    // The whitespace law on a concrete text: the same bytes with and without.
    assert_eq!(decode(" a G\tV\r\ns\x0cbG8 = "), decode("aGVsbG8="));
    assert_eq!(decode("\n\n"), Some(Vec::new()));
}

#[test]
fn base64_refuses_a_byte_outside_the_alphabet() {
    assert_eq!(decode("aGVs-G8="), None);
    assert_eq!(decode("aGVsbG8é"), None);
    assert_eq!(decode("aGVs_G8="), None);
}

#[test]
fn base64_refuses_data_after_the_padding() {
    assert_eq!(decode("QQ==QUJD"), None);
    assert_eq!(decode("QQ=\n=Q"), None);
}

#[test]
fn base64_decodes_what_a_standard_encoder_wrote() {
    // RFC 4648's own examples.
    assert_eq!(decode("Zg=="), Some(b"f".to_vec()));
    assert_eq!(decode("Zm8="), Some(b"fo".to_vec()));
    assert_eq!(decode("Zm9v"), Some(b"foo".to_vec()));
    assert_eq!(decode("Zm9vYg=="), Some(b"foob".to_vec()));
    assert_eq!(decode("Zm9vYmE="), Some(b"fooba".to_vec()));
    assert_eq!(decode("Zm9vYmFy"), Some(b"foobar".to_vec()));
}

#[test]
fn base64_symbol_values() {
    assert_eq!(value_of(b'A'), Some(0));
    assert_eq!(value_of(b'Z'), Some(25));
    assert_eq!(value_of(b'a'), Some(26));
    assert_eq!(value_of(b'z'), Some(51));
    assert_eq!(value_of(b'0'), Some(52));
    assert_eq!(value_of(b'9'), Some(61));
    assert_eq!(value_of(b'+'), Some(62));
    assert_eq!(value_of(b'/'), Some(63));
    assert_eq!(value_of(b'='), None);
    assert_eq!(value_of(b' '), None);
}

#[test]
fn sending_proof_prefers_the_pdf_over_a_message() {
    let proof = read_sending_proof(Some("JVBERi0x".to_owned()), Some("espere".to_owned()))
        .expect("não esperava erro");

    assert_eq!(proof.pdf.as_deref(), Some(&b"%PDF-1"[..]));
    assert_eq!(proof.message, None);
}

#[test]
fn escaping_keeps_the_unreserved_set_and_escapes_the_rest() {
    assert_eq!(encode("AZaz09-_.~"), "AZaz09-_.~");
    assert_eq!(encode("a b/c?d&e=f#g%h"), "a%20b%2Fc%3Fd%26e%3Df%23g%25h");
    // UTF-8, byte by byte, upper-case hex.
    assert_eq!(encode("ção"), "%C3%A7%C3%A3o");
    assert_eq!(encode_segment("../x"), "..%2Fx");
    assert_eq!(encode(""), "");
}

#[test]
fn an_escaped_segment_never_holds_a_separator() {
    let escaped = encode_segment("../../ops/health?x=1#y");

    assert!(!escaped.contains('/'));
    assert!(!escaped.contains('?'));
    assert!(!escaped.contains('#'));
}

#[test]
fn urls_join_the_query_with_question_mark_then_ampersand() {
    assert_eq!(
        build_url("http://h", "/p", &[("a", "1"), ("b", "x y"), ("c", "ç")]),
        "http://h/p?a=1&b=x%20y&c=%C3%A7"
    );
    assert_eq!(build_url("http://h", "/p", &[]), "http://h/p");
}

#[test]
fn trailing_slashes_are_trimmed_and_only_those() {
    assert_eq!(trim_trailing_slash("http://h///"), "http://h");
    assert_eq!(trim_trailing_slash("http://h/a/b"), "http://h/a/b");
    assert_eq!(trim_trailing_slash("///"), "");
    assert_eq!(trim_trailing_slash(""), "");
}

#[test]
fn json_numbers_read_as_u64_only_when_they_are_one() {
    let number = |text: &str| JsonValue::Number(text.to_owned()).as_u64();

    assert_eq!(number("404"), Some(404));
    assert_eq!(number("0"), Some(0));
    assert_eq!(number("18446744073709551615"), Some(u64::MAX));
    assert_eq!(number("18446744073709551616"), None);
    assert_eq!(number("-5"), None);
    assert_eq!(number("404.0"), None);
    assert_eq!(number(""), None);
    assert_eq!(JsonValue::Text("404".to_owned()).as_u64(), None);
}

#[test]
fn parsed_json_carries_numbers_as_their_printed_text() {
    let parsed = parse_json(r#"{"a":404,"b":-1,"c":1.5,"d":"x","e":[true,null]}"#)
        .expect("é JSON");

    assert_eq!(parsed.get("a"), Some(&JsonValue::Number("404".to_owned())));
    assert_eq!(parsed.get("a").and_then(JsonValue::as_u64), Some(404));
    assert_eq!(parsed.get("b").and_then(JsonValue::as_u64), None);
    assert_eq!(parsed.get("c").and_then(JsonValue::as_u64), None);
    assert_eq!(parsed.get("d").and_then(JsonValue::as_str), Some("x"));
    assert_eq!(
        parsed.get("e"),
        Some(&JsonValue::List(vec![JsonValue::Bool(true), JsonValue::Null]))
    );
    assert_eq!(parsed.get("z"), None);
    assert_eq!(JsonValue::Null.get("a"), None);
}

#[test]
fn a_sentence_is_a_string_or_a_list_of_them() {
    let list = JsonValue::List(vec![
        JsonValue::Text("um".to_owned()),
        JsonValue::Null,
        JsonValue::Text("dois".to_owned()),
    ]);

    assert_eq!(list.sentence().as_deref(), Some("um; dois"));
    assert_eq!(JsonValue::Text("só".to_owned()).sentence().as_deref(), Some("só"));
    assert_eq!(JsonValue::List(vec![JsonValue::Null]).sentence(), None);
    assert_eq!(JsonValue::Bool(false).sentence(), None);
}

#[test]
fn status_codes_fall_back_when_they_do_not_fit() {
    let body = |text: &str| parse_json(text).expect("é JSON");

    assert_eq!(status_code(&body(r#"{"statusCode":404}"#), 200), 404);
    assert_eq!(status_code(&body(r#"{"statusCode":65536}"#), 200), 200);
    assert_eq!(status_code(&body(r#"{"statusCode":null}"#), 200), 200);
    assert_eq!(status_code(&body("[]"), 200), 200);
}

#[test]
fn the_default_builder_points_at_production_with_no_credential() {
    let builder = ClientBuilder::default();
    let (v3, legacy) = builder.endpoints();

    assert_eq!(v3.base_url(), DEFAULT_BASE_URL);
    assert_eq!(legacy.base_url(), "https://api.ar-online.com.br");
    assert_eq!(builder.wait(), Duration::from_secs(30));
    assert!(legacy.prepare(&LegacyRoute::Send).is_err());
}

#[test]
fn setting_one_address_leaves_the_other_alone() {
    let builder = ClientBuilder::default()
        .base_url(String::from("http://v3.local/"))
        .timeout(Duration::from_secs(2));
    let (v3, legacy) = builder.endpoints();

    assert_eq!(v3.base_url(), "http://v3.local");
    assert_eq!(legacy.base_url(), "https://api.ar-online.com.br");
    assert_eq!(builder.wait(), Duration::from_secs(2));
}

#[test]
fn every_legacy_route_needs_the_credential() {
    let anonymous = LegacyEndpoint::new("http://h", None);
    let routes = [
        LegacyRoute::Send,
        LegacyRoute::SendingProof("x".to_owned()),
        LegacyRoute::FinalizarRegua("x".to_owned()),
        LegacyRoute::TemplateList(None),
    ];

    for route in routes {
        let failure = anonymous.prepare(&route).expect_err("sem credencial");
        assert_eq!(failure.status, 401);
        assert_eq!(failure.http_status, 0);
    }
}

#[test]
fn base64_without_its_padding_decodes_the_same() {
    // What a standard encoder wrote, with the `=` signs stripped.
    assert_eq!(decode("Zg"), Some(b"f".to_vec()));
    assert_eq!(decode("Zm8"), Some(b"fo".to_vec()));
    assert_eq!(decode("Zm9vYg"), Some(b"foob".to_vec()));
    assert_eq!(decode("Zm9vYmE"), Some(b"fooba".to_vec()));
    assert_eq!(decode("aGVsbG8"), decode("aGVsbG8="));
    // A lone symbol in the last group still encodes nothing.
    assert_eq!(decode("Zm9vY"), None);
}

#[test]
fn each_escaped_byte_adds_two_characters() {
    // One space: three characters plus two.
    assert_eq!(encode("a b").len(), 3 + 2);
    // `ç` is two UTF-8 bytes, both escaped; `a` is not.
    assert_eq!(encode("ça").len(), "ça".len() + 2 * 2);
    assert_eq!(encode("AZaz09-_.~").len(), 10);
}

#[test]
fn the_builder_takes_a_borrowed_string_too() {
    let token = String::from("tok-v3");
    let gateway = String::from("tok-gw");
    let (v3, legacy) = ClientBuilder::default()
        .base_url(&String::from("http://127.0.0.1:9"))
        .token(&token)
        .legacy_base_url("http://127.0.0.1:9")
        .legacy_token(&gateway)
        .endpoints();

    assert_eq!(v3.base_url(), "http://127.0.0.1:9");
    let tags = v3.prepare(&V3Route::Tags).expect("não esperava erro");
    assert_eq!(tags.authorization.as_deref(), Some("Bearer tok-v3"));
    let request = legacy.prepare(&LegacyRoute::Send).expect("não esperava erro");
    assert_eq!(request.authorization, "tok-gw");
    // The strings are still the caller's.
    assert_eq!(token, "tok-v3");
}
