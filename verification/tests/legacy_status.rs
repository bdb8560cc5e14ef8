//! The five status routes, refused or answered.

use aronline::legacy::{refusal, LegacyApiError, LegacyRoute, LegacyShape};
use aronline::parse_json;

#[test]
fn email_de_outra_pessoa_chega_como_o_404_do_gateway() {
    let failure = refusal(404, r#"{"message":"E-mail não encontrado"}"#.to_owned());

    assert_eq!(failure.status, 404);
    assert_eq!(failure.http_status, 404);
    assert_eq!(failure.message, "E-mail não encontrado");
}

#[test]
fn corpo_fora_do_contrato_vira_recusa_com_o_corpo_cru_junto() {
    // Without `description`, which the contract promises on every voice answer.
    let text = r#"{"dateSent":"18/07/2026 01:01:32"}"#;
    let path = LegacyRoute::StatusVoz("c62582cc".to_owned()).path();

    let failure = LegacyApiError::not_json(&path, 200, text, "missing field `description`");

    // A typed failure carrying the body, not a loose serde error.
    assert_eq!(failure.status, 200);
    assert!(failure.message.contains("não é o JSON"));
    assert!(failure.body_json().is_some());
}

#[test]
fn every_status_route_reads_plain_json_under_its_channel() {
    let id = "c62582cc".to_owned();
    let routes = [
        (LegacyRoute::StatusEmail(id.clone()), "/gw/email/c62582cc"),
        (LegacyRoute::StatusSms(id.clone()), "/gw/sms/c62582cc"),
        (LegacyRoute::StatusWhatsapp(id.clone()), "/gw/whatsapp/c62582cc"),
        (LegacyRoute::StatusVoz(id.clone()), "/gw/voz/c62582cc"),
        (LegacyRoute::StatusCarta(id.clone()), "/gw/carta/c62582cc"),
        (LegacyRoute::StatusFull(id), "/gw/full/c62582cc"),
    ];

    for (route, path) in routes {
        assert_eq!(route.path(), path);
        assert_eq!(route.method(), "GET");
        assert_eq!(route.shape(), LegacyShape::Json);
    }
}

#[test]
fn a_body_that_is_not_json_at_all_has_no_json_to_give() {
    let failure = LegacyApiError::not_json("/gw/email/x", 200, "<html>", "expected value");

    assert_eq!(failure.body_json(), None);
    assert!(parse_json("<html>").is_err());
}
