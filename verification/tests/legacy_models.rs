//! The legacy area's types, with no wire in between.

use aronline::legacy::{LegacyApiError, LegacyField, SmsTypeSend};
use aronline::JsonValue;

#[test]
fn o_erro_diz_os_dois_status_e_devolve_o_corpo() {
    let failure = LegacyApiError {
        status: 404,
        http_status: 200,
        message: "Template não encontrado".to_owned(),
        body: Some(r#"{"data":{"error":"Template não encontrado"},"statusCode":404}"#.to_owned()),
    };

    // Both codes show: "200 carrying a 404" is what one wants to see in the log.
    assert_eq!(
        failure.to_string(),
        "aronline legado: 404 (http 200): Template não encontrado"
    );
    assert_eq!(
        failure
            .body_json()
            .and_then(|body| body.get("statusCode").and_then(JsonValue::as_u64)),
        Some(404)
    );
    assert!(failure.to_string().contains("404"));
}

#[test]
fn erro_sem_corpo_nao_inventa_json() {
    let failure = LegacyApiError {
        status: 0,
        http_status: 0,
        message: "sem rede".to_owned(),
        body: None,
    };

    assert_eq!(failure.body_json(), None);
}

#[test]
fn o_campo_do_legado_separa_a_chave_ausente_do_nulo() {
    let ausente: LegacyField<String> = LegacyField::Missing;
    let nulo: LegacyField<String> = LegacyField::Null;
    let presente = LegacyField::Present("18/07/2026 01:01:32".to_owned());

    assert!(ausente.is_missing() && !ausente.is_null());
    assert!(nulo.is_null() && !nulo.is_missing());
    assert!(!presente.is_missing() && !presente.is_null());

    assert_eq!(ausente.value(), None);
    assert_eq!(nulo.clone().into_value(), None);
    assert_eq!(
        presente.value().map(String::as_str),
        Some("18/07/2026 01:01:32")
    );
    assert_eq!(LegacyField::<String>::default(), LegacyField::Missing);
}

#[test]
fn o_tipo_de_envio_do_sms_e_o_codigo_do_legado() {
    assert_eq!(SmsTypeSend::SomenteSeFalhar.as_str(), "1");
    assert_eq!(SmsTypeSend::Sempre.as_str(), "2");
}

#[test]
fn the_error_line_prints_every_digit_of_both_codes() {
    let failure = LegacyApiError {
        status: 65535,
        http_status: 0,
        message: String::new(),
        body: None,
    };

    assert_eq!(failure.to_string(), "aronline legado: 65535 (http 0): ");
}

#[test]
fn into_value_hands_the_present_value_over() {
    let presente = LegacyField::Present(7u8);

    assert_eq!(presente.into_value(), Some(7));
    assert_eq!(LegacyField::<u8>::Null.value(), None);
}
