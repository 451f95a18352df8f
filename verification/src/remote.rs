//! Requests from remote panels connected over a WebSocket.
use vstd::prelude::*;

use crate::text::{chars_of, eq_chars};
use crate::urls::opt_view;

verus! {

/// The fields of a JSON message that the server reads: `type`, `buttonId` and
/// `profileId`, each when it is a JSON string.
#[derive(Debug)]
pub struct MessageFields {
    pub kind: Option<String>,
    pub button_id: Option<String>,
    pub profile_id: Option<String>,
}

impl View for MessageFields {
    type V = (Option<Seq<char>>, Option<Seq<char>>, Option<Seq<char>>);

    open spec fn view(&self) -> (Option<Seq<char>>, Option<Seq<char>>, Option<Seq<char>>) {
        (opt_view(self.kind), opt_view(self.button_id), opt_view(self.profile_id))
    }
}

/// The string members `type`, `buttonId` and `profileId` (each `None` when absent
/// or not a string) that `serde_json` reads from a message text, or `None` when
/// the text is not JSON.
pub uninterp spec fn json_message_fields(text: Seq<char>) -> Option<(Option<Seq<char>>, Option<Seq<char>>, Option<Seq<char>>)>;

/// Parses a message with `serde_json::from_str` into a `serde_json::Value` and
/// reads its string members `type`, `buttonId` and `profileId`.
#[verifier::external_body]
fn parse_message_fields(text: &str) -> (r: Option<MessageFields>)
    ensures
        match r {
            Some(f) => json_message_fields(text@) == Some(f@),
            None => json_message_fields(text@) is None,
        },
{
    let value: serde_json::Value = serde_json::from_str(text).ok()?;
    Some(MessageFields {
        kind: value["type"].as_str().map(|s| s.to_string()),
        button_id: value["buttonId"].as_str().map(|s| s.to_string()),
        profile_id: value["profileId"].as_str().map(|s| s.to_string()),
    })
}

/// What a remote panel asks for.
#[derive(Debug)]
pub enum ClientRequest {
    /// Run the actions of a button, of the given profile or else the active one.
    TriggerButton { button_id: String, profile_id: Option<String> },
    /// Send the current configuration back.
    GetConfig,
    /// Nothing the server answers.
    Ignore,
}

/// The content of a [`ClientRequest`].
pub enum RequestModel {
    TriggerButton(Seq<char>, Option<Seq<char>>),
    GetConfig,
    Ignore,
}

impl View for ClientRequest {
    type V = RequestModel;

    open spec fn view(&self) -> RequestModel {
        match self {
            ClientRequest::TriggerButton { button_id, profile_id } => RequestModel::TriggerButton(
                button_id@,
                opt_view(*profile_id),
            ),
            ClientRequest::GetConfig => RequestModel::GetConfig,
            ClientRequest::Ignore => RequestModel::Ignore,
        }
    }
}

/// The request a message's fields make: `triggerButton` with a `buttonId`
/// triggers that button; `getConfig` asks for the configuration.
pub open spec fn request_of(fields: Option<(Option<Seq<char>>, Option<Seq<char>>, Option<Seq<char>>)>) -> RequestModel {
    match fields {
        Some((kind, button_id, profile_id)) => if kind == Some("triggerButton"@) {
            match button_id {
                Some(b) => RequestModel::TriggerButton(b, profile_id),
                None => RequestModel::Ignore,
            }
        } else if kind == Some("getConfig"@) {
            RequestModel::GetConfig
        } else {
            RequestModel::Ignore
        },
        None => RequestModel::Ignore,
    }
}

/// The request that a message's fields make.
pub fn classify_message(fields: Option<MessageFields>) -> (r: ClientRequest)
    ensures
        r@ == request_of(
            match fields {
                Some(f) => Some(f@),
                None => None,
            },
        ),
{
    match fields {
        Some(f) => {
            let (trigger, get) = match &f.kind {
                Some(k) => {
                    let kc = chars_of(k.as_str());
                    (eq_chars(&kc, &chars_of("triggerButton")), eq_chars(&kc, &chars_of("getConfig")))
                },
                None => (false, false),
            };
            if trigger {
                match f.button_id {
                    Some(b) => ClientRequest::TriggerButton { button_id: b, profile_id: f.profile_id },
                    None => ClientRequest::Ignore,
                }
            } else if get {
                ClientRequest::GetConfig
            } else {
                ClientRequest::Ignore
            }
        },
        None => ClientRequest::Ignore,
    }
}

/// The request that a text message from a remote panel makes.
pub fn client_request(text: &str) -> (r: ClientRequest)
    ensures
        r@ == request_of(json_message_fields(text@)),
{
    classify_message(parse_message_fields(text))
}

} // verus!
