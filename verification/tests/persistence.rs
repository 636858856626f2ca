use event_relay::persist::{decode_message, http_save_reply, socket_save_reply, SaveOutcome};
use event_relay::routes::{connected_notice, decode_quantity, greeting_page, welcome_message};
use event_relay::routes::{FieldValue, Payload};

fn record_payload(status: &str, content: &str) -> Payload {
    Payload::Object(vec![
        ("status".to_string(), FieldValue::Text(status.to_string())),
        ("content".to_string(), FieldValue::Text(content.to_string())),
    ])
}

#[test]
fn record_decodes_exactly_as_submitted() {
    let message = decode_message(&record_payload("ok", "hi")).expect("a well-formed record");
    assert_eq!(message.status, "ok");
    assert_eq!(message.content, "hi");
}

#[test]
fn malformed_records_are_refused() {
    let missing_content = Payload::Object(vec![(
        "status".to_string(),
        FieldValue::Text("ok".to_string()),
    )]);
    assert!(decode_message(&missing_content).is_none());
    let wrong_type = Payload::Object(vec![
        ("status".to_string(), FieldValue::Int(1)),
        ("content".to_string(), FieldValue::Text("hi".to_string())),
    ]);
    assert!(decode_message(&wrong_type).is_none());
    assert!(decode_message(&Payload::Other).is_none());
}

#[test]
fn extra_fields_are_ignored() {
    let payload = Payload::Object(vec![
        ("status".to_string(), FieldValue::Text("ok".to_string())),
        ("extra".to_string(), FieldValue::Int(9)),
        ("content".to_string(), FieldValue::Text("hi".to_string())),
    ]);
    let message = decode_message(&payload).expect("a well-formed record");
    assert_eq!(message.status, "ok");
    assert_eq!(message.content, "hi");
}

#[test]
fn save_replies_report_the_outcome() {
    assert_eq!(http_save_reply(true), "Mensagem salva com sucesso!");
    assert_eq!(
        http_save_reply(false),
        "Falha ao inserir mensagem no banco de dados."
    );
    assert_eq!(
        socket_save_reply(&SaveOutcome::Saved),
        "Mensagem salva com sucesso!"
    );
    assert_eq!(
        socket_save_reply(&SaveOutcome::StoreFailed),
        "Erro ao salvar a mensagem."
    );
    assert_eq!(
        socket_save_reply(&SaveOutcome::BadPayload),
        "Erro: formato de dados inválido."
    );
}

#[test]
fn quantity_decoding_pins_the_field() {
    let ok = Payload::Object(vec![("numero".to_string(), FieldValue::Int(42))]);
    assert_eq!(decode_quantity(&ok), Some(42));
    let negative = Payload::Object(vec![("numero".to_string(), FieldValue::Int(-7))]);
    assert_eq!(decode_quantity(&negative), Some(-7));
    let too_large = Payload::Object(vec![(
        "numero".to_string(),
        FieldValue::Int(i64::from(i32::MAX) + 1),
    )]);
    assert_eq!(decode_quantity(&too_large), None);
    let first_match_wins = Payload::Object(vec![
        ("numero".to_string(), FieldValue::Int(1)),
        ("numero".to_string(), FieldValue::Int(2)),
    ]);
    assert_eq!(decode_quantity(&first_match_wins), Some(1));
}

#[test]
fn connection_greetings() {
    assert_eq!(welcome_message(), "Conexão estabelecida com sucesso!");
    assert_eq!(connected_notice(), "Um novo usuário conectou!");
    assert!(greeting_page().contains("Bem-vindo"));
}
