//! The sending proof, the laudo and the GET that ends the ladder.

use aronline::legacy::{
    read_sending_proof, refusal, LegacyApiError, LegacyEndpoint, LegacyResult, LegacyRoute,
    LegacyShape, SendingProof,
};
use aronline::{parse_json, JsonValue};

/// What the sending-proof route's body says: its `content` and `message`.
fn wire(body: &str) -> (Option<String>, Option<String>) {
    let parsed = parse_json(body).expect("the fixture is JSON");
    let text = |key: &str| {
        parsed
            .get(key)
            .and_then(JsonValue::as_str)
            .map(str::to_owned)
    };
    (text("content"), text("message"))
}

fn read(body: &str) -> LegacyResult<SendingProof> {
    let (content, message) = wire(body);
    read_sending_proof(content, message)
}

fn legacy_refusal<T: std::fmt::Debug>(result: LegacyResult<T>) -> LegacyApiError {
    match result {
        Ok(value) => panic!("esperava uma recusa do gateway, veio Ok({value:?})"),
        Err(failure) => failure,
    }
}

#[test]
fn comprovante_decodifica_o_base64_e_deixa_o_cru_acessivel() {
    // 'JVBERi0x' is '%PDF-1' -- the start of any real PDF.
    let proof = read(r#"{"content":"JVBERi0x"}"#).expect("não esperava erro");

    assert_eq!(proof.pdf.as_deref(), Some(&b"%PDF-1"[..]));
    assert_eq!(proof.content_base64.as_deref(), Some("JVBERi0x"));
    assert_eq!(proof.message, None);
    assert_eq!(
        LegacyRoute::SendingProof("f6cb58f2".to_owned()).path(),
        "/gw/sending-proof/f6cb58f2"
    );
}

#[test]
fn comprovante_aceita_base64_com_padding_e_quebra_de_linha() {
    // 'JVBERi0xLjQK' with padding and a line break in the middle: same PDF.
    let proof = read("{\"content\":\"JVBE\\nRi0xLjQ=\"}").expect("não esperava erro");

    assert_eq!(proof.pdf.as_deref(), Some(&b"%PDF-1.4"[..]));
}

#[test]
fn comprovante_decodifica_o_alfabeto_inteiro() {
    // `+` and `/` only show up in high bytes, where a hand-written decoder
    // usually goes wrong.
    let proof = read(r#"{"content":"+//+"}"#).expect("não esperava erro");

    assert_eq!(proof.pdf.as_deref(), Some(&[0xFB, 0xFF, 0xFE][..]));
}

#[test]
fn sem_status_de_entrega_vem_mensagem_e_isso_nao_e_erro() {
    let proof = read(
        r#"{"message":"O comprovante para e-mail consultado ainda não possui o status de entrega"}"#,
    )
    .expect("mensagem de espera não é recusa");

    assert_eq!(proof.pdf, None);
    assert_eq!(proof.content_base64, None);
    assert!(proof
        .message
        .expect("esperava a frase do gateway")
        .contains("ainda não possui o status"));
}

#[test]
fn corpo_sem_content_nem_message_resolve_com_os_tres_campos_vazios() {
    let proof = read("{}").expect("não esperava erro");

    assert_eq!(proof.pdf, None);
    assert_eq!(proof.content_base64, None);
    assert_eq!(proof.message, None);
}

#[test]
fn base64_com_caractere_fora_do_alfabeto_vira_erro_do_sdk() {
    let failure = legacy_refusal(read(r#"{"content":"%%%nao-e-base64%%%"}"#));

    // Strict on purpose: a lenient decoder would hand plausible bytes over.
    assert!(failure.message.contains("base64"));
    assert_eq!(failure.body.as_deref(), Some("%%%nao-e-base64%%%"));
}

#[test]
fn base64_de_comprimento_invalido_tambem_vira_erro() {
    // Five symbols: the last group has one symbol, which encodes nothing.
    let cinco = legacy_refusal(read(r#"{"content":"JVBER"}"#));
    assert!(cinco.message.contains("base64"));

    // Padding in the wrong place.
    let padding = legacy_refusal(read(r#"{"content":"JVBE====","message":null}"#));
    assert!(padding.message.contains("base64"));

    // Data after the padding: text cut and glued back together.
    let depois = legacy_refusal(read(r#"{"content":"JVBE=Ri0x"}"#));
    assert!(depois.message.contains("base64"));
}

#[test]
fn the_laudo_is_read_as_a_file_at_its_own_path() {
    let route = LegacyRoute::Laudo("f6cb58f2".to_owned());

    // The one route that answers a file, read as bytes and not as JSON.
    assert_eq!(route.shape(), LegacyShape::Binary);
    assert_eq!(route.path(), "/gw/email/laudo/f6cb58f2");
}

#[test]
fn laudo_de_registro_inexistente_responde_404_em_json() {
    let failure = refusal(
        404,
        r#"{"statusCode":404,"message":"Registro não encontrado"}"#.to_owned(),
    );

    assert_eq!(failure.status, 404);
    assert_eq!(failure.http_status, 404);
    assert_eq!(failure.message, "Registro não encontrado");
}

#[test]
fn laudo_sem_credencial_falha_antes_do_socket() {
    let endpoint = LegacyEndpoint::new("http://127.0.0.1:9", None);

    let failure = legacy_refusal(endpoint.prepare(&LegacyRoute::Laudo("f6cb58f2".to_owned())));

    assert_eq!(failure.status, 401);
    assert_eq!(failure.http_status, 0);
}

#[test]
fn finalizar_regua_e_get_com_efeito_colateral() {
    let endpoint = LegacyEndpoint::new("http://127.0.0.1:9", Some("tok-gw".to_owned()));
    let route = LegacyRoute::FinalizarRegua("f6cb58f2".to_owned());

    let request = endpoint.prepare(&route).expect("não esperava erro");

    // GET, and not POST: that is the old contract.
    assert_eq!(request.method, "GET");
    assert_eq!(route.path(), "/regua-notificacao/finalizar/f6cb58f2");
    assert_eq!(
        request.url,
        "http://127.0.0.1:9/regua-notificacao/finalizar/f6cb58f2"
    );
}
