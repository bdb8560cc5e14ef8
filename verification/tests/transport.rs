//! The /v3 transport: address, header, envelope and refusal.

use aronline::{
    to_api_error, ApiError, ClientBuilder, Endpoint, ErrorBody, ErrorDetail, V3Route,
    DEFAULT_BASE_URL,
};

fn refusal<T: std::fmt::Debug>(result: Result<T, ApiError>) -> ApiError {
    match result {
        Ok(value) => panic!("esperava uma recusa da API, veio Ok({value:?})"),
        Err(failure) => failure,
    }
}

fn catalog(code: &str, message: &str) -> ErrorBody {
    ErrorBody {
        code: Some(code.to_owned()),
        message: Some(message.to_owned()),
        ..ErrorBody::default()
    }
}

#[test]
fn monta_o_bearer_sozinho() {
    let client = ClientBuilder::default().base_url("http://127.0.0.1:9").token("tok");

    let request = client
        .endpoints()
        .0
        .prepare(&V3Route::Tags)
        .expect("não esperava erro");

    assert_eq!(request.authorization.as_deref(), Some("Bearer tok"));
}

#[test]
fn rota_aberta_nao_manda_credencial() {
    let endpoint = Endpoint::new("http://127.0.0.1:9", Some("tok".to_owned()));

    let request = endpoint
        .prepare(&V3Route::Version)
        .expect("não esperava erro");

    assert_eq!(request.authorization, None);
}

#[test]
fn entrega_direto_quando_a_rota_nao_envelopa() {
    assert!(!V3Route::Freshness.enveloped());
    assert!(!V3Route::Version.enveloped());
    assert!(V3Route::Tags.enveloped());
}

#[test]
fn recusa_quando_a_rota_promete_data_e_nao_entrega() {
    let failure = ApiError::envelope_failure("/v3/tags", ApiError::invalid_response(200, None));

    assert_eq!(failure.code, "invalid_response");
    assert_eq!(
        failure.message,
        "/v3/tags respondeu sem o envelope 'data' que a rota promete"
    );
}

#[test]
fn recusa_carrega_tudo_que_o_corpo_traz() {
    let failure = to_api_error(
        404,
        ErrorBody {
            request_id: Some("req-do-corpo".to_owned()),
            ..catalog("not_found", "Etiqueta não encontrada.")
        },
        Some("req-do-cabecalho".to_owned()),
    );

    assert_eq!(failure.status, 404);
    assert_eq!(failure.code, "not_found");
    assert_eq!(failure.message, "Etiqueta não encontrada.");
    assert_eq!(failure.request_id.as_deref(), Some("req-do-corpo"));
    assert!(!failure.is_retryable());
}

#[test]
fn cai_no_request_id_do_cabecalho() {
    let failure = to_api_error(
        403,
        catalog("forbidden", "sem permissão"),
        Some("req-do-cabecalho".to_owned()),
    );

    assert_eq!(failure.request_id.as_deref(), Some("req-do-cabecalho"));
}

#[test]
fn rate_limited_is_worth_retrying() {
    let failure = to_api_error(429, catalog("rate_limited", "aguarde"), None);

    assert!(failure.is_retryable());
}

#[test]
fn unavailable_is_worth_retrying() {
    let failure = to_api_error(503, catalog("unavailable", "volte depois"), None);

    assert!(failure.is_retryable());
}

#[test]
fn carrega_field_e_details() {
    let failure = to_api_error(
        400,
        ErrorBody {
            field: Some("channel".to_owned()),
            details: vec![ErrorDetail {
                field: "channel".to_owned(),
                code: "invalid_value".to_owned(),
                message: "fora da lista".to_owned(),
            }],
            ..catalog("invalid_value", "fora da lista")
        },
        None,
    );

    assert_eq!(failure.field.as_deref(), Some("channel"));
    assert_eq!(failure.details.len(), 1);
    assert_eq!(failure.details[0].code, "invalid_value");
}

#[test]
fn resposta_que_nao_eh_json_vira_api_error() {
    // A proxy's HTML reads as an error body with nothing filled in.
    let failure = to_api_error(502, ErrorBody::default(), None);

    assert_eq!(failure.status, 502);
    assert_eq!(failure.code, "invalid_response");
    assert_eq!(
        failure.message,
        "a API respondeu 502 sem o corpo de erro esperado"
    );
}

#[test]
fn duzentos_que_nao_eh_json_tambem() {
    let failure = ApiError::invalid_response(200, None);

    assert_eq!(failure.code, "invalid_response");
}

#[test]
fn endereco_fora_do_ar_vira_unreachable() {
    let failure = ApiError::unreachable("http://127.0.0.1:1", "connection refused");

    assert_eq!(failure.status, 0);
    assert_eq!(failure.code, "unreachable");
}

#[test]
fn rota_autenticada_sem_token_falha_antes_de_sair() {
    let anonymous = ClientBuilder::default().base_url("http://127.0.0.1:9");

    let failure = refusal(anonymous.endpoints().0.prepare(&V3Route::Tags));

    assert_eq!(failure.status, 401);
    assert_eq!(failure.code, "unauthenticated");
    assert_eq!(failure.request_id, None);
}

#[test]
fn display_mostra_o_que_o_suporte_pede() {
    let mut failure = ApiError::local(404, "not_found", "sumiu".to_owned());
    failure.request_id = Some("r-9".to_owned());

    assert_eq!(
        failure.to_string(),
        "aronline: not_found (404): sumiu [request_id=r-9]"
    );

    let sem = ApiError::local(401, "unauthenticated", "sem token".to_owned());
    assert_eq!(sem.to_string(), "aronline: unauthenticated (401): sem token");
}

#[test]
fn base_url_padrao_e_producao() {
    let endpoint = ClientBuilder::default().token("tok").endpoints().0;

    let failure = ApiError::unreachable(endpoint.base_url(), "timeout");

    assert_eq!(failure.code, "unreachable");
    assert!(failure.message.contains(DEFAULT_BASE_URL));
}

#[test]
fn another_failure_passes_the_envelope_untouched() {
    let refused = to_api_error(404, catalog("not_found", "sumiu"), None);

    assert_eq!(ApiError::envelope_failure("/v3/tags", refused.clone()), refused);

    let late = ApiError::invalid_response(201, None);
    assert_eq!(ApiError::envelope_failure("/v3/tags", late.clone()), late);
}

#[test]
fn the_unauthenticated_message_names_the_route_and_the_method() {
    let failure = refusal(Endpoint::new("http://x", None).prepare(&V3Route::Tag("1".to_owned())));

    assert_eq!(
        failure.message,
        "/v3/tags/1 exige um token; construa o cliente com Client::builder().token(…)"
    );
}
