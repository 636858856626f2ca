//! Record-persistence handler logic. A client submits a two-field record
//! (status, content) either over HTTP (`POST /save_message`) or as the
//! `salvar_mensagem` connection event; the record is decoded here, the one
//! insert against durable storage is the collaborator's work, and the
//! client-visible reply to each outcome is fixed here. A storage failure is
//! answered with a failure reply and is never fatal to the process.

use vstd::prelude::*;
use crate::routes::{spec_find, FieldValue, Payload};
use crate::routes::find_field;

verus! {

/// One record to persist: inserted into storage exactly as submitted.
pub struct Message {
    /// The record's status field.
    pub status: String,
    /// The record's content field.
    pub content: String,
}

/// The record a payload carries: the string fields `status` and `content`
/// of a JSON object. Anything else is malformed.
pub open spec fn spec_decode_message(payload: Payload) -> Option<Message> {
    match payload {
        Payload::Object(fields) => match (spec_find(fields@, "status"@), spec_find(
            fields@,
            "content"@,
        )) {
            (Some(FieldValue::Text(status)), Some(FieldValue::Text(content))) => Some(
                Message { status, content },
            ),
            _ => None,
        },
        Payload::Other => None,
    }
}

/// Decodes a record payload: `{"status": s, "content": c}` yields the
/// record, with both strings exactly as submitted.
pub fn decode_message(payload: &Payload) -> (message: Option<Message>)
    ensures
        message == spec_decode_message(*payload),
{
    match payload {
        Payload::Object(fields) => {
            let status_key: String = "status".to_owned();
            let content_key: String = "content".to_owned();
            let status_at = find_field(fields, &status_key);
            let content_at = find_field(fields, &content_key);
            match (status_at, content_at) {
                (Some(i), Some(j)) => match (&fields[i].1, &fields[j].1) {
                    (FieldValue::Text(status), FieldValue::Text(content)) => Some(
                        Message { status: status.clone(), content: content.clone() },
                    ),
                    _ => None,
                },
                _ => None,
            }
        },
        Payload::Other => None,
    }
}

/// How one `salvar_mensagem` connection event ended.
pub enum SaveOutcome {
    /// The record was decoded and the storage insert succeeded.
    Saved,
    /// The record was decoded but the storage insert failed.
    StoreFailed,
    /// The payload did not decode to a record; storage was never touched.
    BadPayload,
}

/// The reply sent back on the connection after a `salvar_mensagem` event:
/// a success indicator exactly when the record was stored, and a distinct
/// error for a failed insert and for a malformed payload.
pub fn socket_save_reply(outcome: &SaveOutcome) -> (reply: &'static str)
    ensures
        outcome is Saved ==> reply@ == "Mensagem salva com sucesso!"@,
        outcome is StoreFailed ==> reply@ == "Erro ao salvar a mensagem."@,
        outcome is BadPayload ==> reply@ == "Erro: formato de dados inválido."@,
{
    match outcome {
        SaveOutcome::Saved => "Mensagem salva com sucesso!",
        SaveOutcome::StoreFailed => "Erro ao salvar a mensagem.",
        SaveOutcome::BadPayload => "Erro: formato de dados inválido.",
    }
}

/// The reply body of `POST /save_message`: a success indicator exactly when
/// the storage insert succeeded, a failure indicator otherwise.
pub fn http_save_reply(saved: bool) -> (reply: &'static str)
    ensures
        saved ==> reply@ == "Mensagem salva com sucesso!"@,
        !saved ==> reply@ == "Falha ao inserir mensagem no banco de dados."@,
{
    if saved {
        "Mensagem salva com sucesso!"
    } else {
        "Falha ao inserir mensagem no banco de dados."
    }
}

} // verus!
