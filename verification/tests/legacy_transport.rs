//! The legacy transport: its own address, a raw credential, and the send.

use aronline::legacy::{
    refusal, LegacyApiError, LegacyEndpoint, LegacyResult, LegacyRoute, DEFAULT_LEGACY_BASE_URL,
};
use aronline::{parse_json, ClientBuilder, V3Route, DEFAULT_BASE_URL};

fn legacy_refusal<T: std::fmt::Debug>(result: LegacyResult<T>) -> LegacyApiError {
    match result {
        Ok(value) => panic!("esperava uma recusa do gateway, veio Ok({value:?})"),
        Err(failure) => failure,
    }
}

fn legacy_client() -> LegacyEndpoint {
    ClientBuilder::default()
        .legacy_base_url("http://127.0.0.1:9")
        .legacy_token("tok-gw")
        .endpoints()
        .1
}

#[test]
fn o_endereco_do_legado_e_proprio() {
    // Independent of /v3's: two APIs, and pointing one at a test environment
    // cannot drag the other along.
    assert_eq!(DEFAULT_LEGACY_BASE_URL, "https://api.ar-online.com.br");
    assert_ne!(DEFAULT_LEGACY_BASE_URL, DEFAULT_BASE_URL);
}

#[test]
fn manda_o_token_cru_sem_bearer() {
    let request = legacy_client()
        .prepare(&LegacyRoute::Send)
        .expect("não esperava erro");

    // Raw: the gateway wants the JWT without `Bearer`, the opposite of /v3.
    assert_eq!(request.authorization, "tok-gw");
}

#[test]
fn as_duas_credenciais_no_mesmo_cliente_nao_vazam_uma_na_outra() {
    let (v3, legacy) = ClientBuilder::default()
        .base_url("http://127.0.0.1:9")
        .token("tok-v3")
        .legacy_base_url("http://127.0.0.1:9")
        .legacy_token("tok-gw")
        .endpoints();

    let gateway = legacy
        .prepare(&LegacyRoute::StatusVoz("x".to_owned()))
        .expect("não esperava erro");
    assert_eq!(gateway.authorization, "tok-gw");

    let tags = v3.prepare(&V3Route::Tags).expect("não esperava erro");
    assert_eq!(tags.authorization.as_deref(), Some("Bearer tok-v3"));
}

#[test]
fn send_is_a_post_to_gw_email() {
    let request = legacy_client()
        .prepare(&LegacyRoute::Send)
        .expect("não esperava erro");

    assert_eq!(request.method, "POST");
    assert_eq!(request.url, "http://127.0.0.1:9/gw/email");
}

#[test]
fn recusa_do_gateway_vira_erro_com_o_corpo_cru() {
    let body = r#"{"statusCode":400,"message":"O número do destinatário informado é inválido."}"#;

    let failure = refusal(400, body.to_owned());

    assert_eq!(failure.status, 400);
    assert_eq!(failure.http_status, 400);
    assert_eq!(
        failure.message,
        "O número do destinatário informado é inválido."
    );
    assert_eq!(failure.body.as_deref(), Some(body));
}

#[test]
fn o_401_cru_do_gateway_chega_inteiro() {
    let failure = refusal(401, r#"{"message":"Unauthorized","statusCode":401}"#.to_owned());

    assert_eq!(failure.status, 401);
    assert_eq!(failure.http_status, 401);
    assert_eq!(failure.message, "Unauthorized");
}

#[test]
fn sem_a_credencial_do_gateway_falha_antes_do_socket() {
    let anonymous = ClientBuilder::default()
        .legacy_base_url("http://127.0.0.1:9")
        .endpoints()
        .1;

    let failure = legacy_refusal(anonymous.prepare(&LegacyRoute::StatusEmail("x".to_owned())));

    assert_eq!(failure.status, 401);
    // Zero: there was no wire, so there was no wire status.
    assert_eq!(failure.http_status, 0);
    // The message names the missing method -- a gateway 401 would not.
    assert!(failure.message.contains("legacy_token"));
}

#[test]
fn a_credencial_da_v3_nao_serve_para_o_legado() {
    let (_, legacy) = ClientBuilder::default()
        .base_url("http://127.0.0.1:9")
        .token("tok-v3")
        .legacy_base_url("http://127.0.0.1:9")
        .endpoints();

    let failure = legacy_refusal(legacy.prepare(&LegacyRoute::StatusEmail("x".to_owned())));

    assert_eq!(failure.status, 401);
}

#[test]
fn duzentos_que_nao_e_json_vira_erro_do_sdk() {
    let text = "<html>proxy</html>";
    let parser_says = parse_json(text).expect_err("html não é JSON");

    let failure = LegacyApiError::not_json("/gw/email/x", 200, text, &parser_says);

    assert_eq!(failure.status, 200);
    assert!(failure.message.contains("não é o JSON"));
    assert_eq!(failure.body.as_deref(), Some("<html>proxy</html>"));
    assert_eq!(failure.body_json(), None);
}

#[test]
fn quinhentos_e_dois_de_html_falha_com_o_status_e_sem_erro_de_parser() {
    let failure = refusal(502, "<html>bad gateway</html>".to_owned());

    assert_eq!(failure.status, 502);
    assert_eq!(failure.http_status, 502);
    assert!(failure.message.contains("502"));
}

#[test]
fn endereco_inalcancavel_vira_o_mesmo_erro_com_status_zero() {
    let endpoint = ClientBuilder::default()
        .legacy_base_url("http://127.0.0.1:1")
        .legacy_token("tok-gw")
        .endpoints()
        .1;

    let failure = LegacyApiError::unreachable(endpoint.base_url(), "connection refused");

    assert_eq!(failure.status, 0);
    assert_eq!(failure.http_status, 0);
    assert_eq!(failure.body, None);
}

#[test]
fn o_endereco_padrao_do_legado_e_producao() {
    let endpoint = ClientBuilder::default().legacy_token("tok-gw").endpoints().1;

    let failure = LegacyApiError::unreachable(endpoint.base_url(), "timeout");

    assert_eq!(failure.status, 0);
    assert!(failure.message.contains(DEFAULT_LEGACY_BASE_URL));
}

#[test]
fn endereco_malformado_falha_sem_sair_da_maquina() {
    let failure = LegacyApiError::cannot_build("invalid uri character");

    assert_eq!(failure.status, 0);
    assert!(failure.message.contains("montar a chamada"));
}

#[test]
fn resposta_cortada_no_meio_vira_recusa_e_nao_panico() {
    let failure = LegacyApiError::interrupted(200, "/gw/voz/x", "unexpected end of file");

    assert!(failure.message.contains("interrompida no meio"));
}

#[test]
fn laudo_cortado_no_meio_tambem_vira_recusa() {
    let failure = LegacyApiError::interrupted(200, "/gw/email/laudo/x", "unexpected end of file");

    assert!(failure.message.contains("interrompida no meio"));
}

#[test]
fn message_que_nao_e_texto_nem_lista_cai_na_frase_padrao() {
    let failure = refusal(500, r#"{"statusCode":500,"message":{"erro":"objeto"}}"#.to_owned());

    assert_eq!(failure.status, 500);
    assert!(failure.message.contains("sem o corpo de erro esperado"));
}

#[test]
fn escapa_o_id_para_um_id_torto_nao_virar_outro_caminho() {
    let request = legacy_client()
        .prepare(&LegacyRoute::StatusVoz("../full/x".to_owned()))
        .expect("não esperava erro");

    assert_eq!(request.url, "http://127.0.0.1:9/gw/voz/..%2Ffull%2Fx");
}

#[test]
fn a_trailing_slash_on_the_address_is_not_doubled() {
    let endpoint = LegacyEndpoint::new("http://127.0.0.1:9///", Some("tok-gw".to_owned()));

    let request = endpoint.prepare(&LegacyRoute::Send).expect("não esperava erro");

    assert_eq!(request.url, "http://127.0.0.1:9/gw/email");
}

#[test]
fn a_status_code_that_is_not_an_integer_leaves_the_http_status() {
    let failure = refusal(418, r#"{"statusCode":"404","message":"x"}"#.to_owned());

    assert_eq!(failure.status, 418);
    assert_eq!(failure.message, "x");
}

#[test]
fn the_default_sentence_of_a_refusal_names_the_status() {
    let failure = refusal(502, "<html>bad gateway</html>".to_owned());

    assert_eq!(
        failure.message,
        "o gateway respondeu 502 sem o corpo de erro esperado"
    );
}
