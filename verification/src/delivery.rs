//! The delivery request and its preparation.
//!
//! The delivery client itself is an external collaborator: a stateless
//! HTTP call to the messaging bridge. This module builds exactly what that
//! call needs — the instance to send through and the request body — and
//! states when preparation is owed to succeed: whenever delivery is
//! enabled and an instance and a recipient are configured.

use vstd::prelude::*;
use crate::config::{OmniConfig, RecipientType};
use crate::message::{format_task_message, spec_task_message};

verus! {

/// The request body for the bridge's send-text endpoint: exactly one of
/// the two addressing fields is set.
#[derive(Debug)]
pub struct SendTextRequest {
    pub phone_number: Option<String>,
    pub user_id: Option<String>,
    pub text: String,
}

impl Clone for SendTextRequest {
    fn clone(&self) -> (res: Self)
        ensures
            res == *self,
    {
        SendTextRequest {
            phone_number: crate::strutil::clone_opt_string(&self.phone_number),
            user_id: crate::strutil::clone_opt_string(&self.user_id),
            text: self.text.clone(),
        }
    }
}

/// The bridge's answer to a send-text request.
#[derive(Debug)]
pub struct SendTextResponse {
    pub success: bool,
    pub message_id: Option<String>,
    pub status: String,
    pub error: Option<String>,
}

/// How a request must address the recipient and what it must carry:
/// addressed by opaque user id when the configuration says so, by phone
/// number otherwise — also when no addressing mode is configured.
pub open spec fn spec_request_shape(
    req: SendTextRequest,
    recipient: String,
    recipient_type: Option<RecipientType>,
    text: Seq<char>,
) -> bool {
    &&& req.text@ == text
    &&& (match recipient_type {
        Option::Some(RecipientType::UserId) => req.user_id == Option::Some(recipient)
            && req.phone_number is None,
        _ => req.phone_number == Option::Some(recipient) && req.user_id is None,
    })
}

/// Build the request body for a recipient under an addressing mode.
pub fn build_send_request(
    recipient: &String,
    recipient_type: &Option<RecipientType>,
    text: String,
) -> (req: SendTextRequest)
    ensures
        spec_request_shape(req, *recipient, *recipient_type, text@),
{
    match recipient_type {
        Option::Some(RecipientType::UserId) => SendTextRequest {
            phone_number: Option::None,
            user_id: Option::Some(recipient.clone()),
            text,
        },
        _ => SendTextRequest {
            phone_number: Option::Some(recipient.clone()),
            user_id: Option::None,
            text,
        },
    }
}

/// Prepare a task notification for delivery under a configuration:
/// nothing to send when delivery is disabled; an error naming the missing
/// field when the instance or the recipient is not configured; otherwise
/// the instance and the request, owed exactly on every enabled and fully
/// addressed configuration.
pub fn prepare_task_notification(
    config: &OmniConfig,
    task_title: &str,
    task_status: &str,
    task_url: Option<&str>,
) -> (r: Result<Option<(String, SendTextRequest)>, String>)
    ensures
        !config.enabled ==> r == Result::<Option<(String, SendTextRequest)>, String>::Ok(
            Option::<(String, SendTextRequest)>::None,
        ),
        config.enabled && config.instance is None ==> (r matches Result::Err(e) && e@
            == "No Omni instance configured"@),
        config.enabled && config.instance is Some && config.recipient is None ==> (r
            matches Result::Err(e) && e@ == "No recipient configured"@),
        config.enabled && config.instance is Some && config.recipient is Some ==> (r
            matches Result::Ok(Option::Some((instance, req))) && instance
            == config.instance.unwrap() && spec_request_shape(
            req,
            config.recipient.unwrap(),
            config.recipient_type,
            spec_task_message(
                task_title@,
                task_status@,
                (match task_url {
                    Option::Some(u) => Option::Some(u@),
                    Option::None => Option::None,
                }),
            ),
        )),
{
    if !config.enabled {
        return Result::Ok(Option::None);
    }
    let instance = match &config.instance {
        Option::Some(i) => i,
        Option::None => {
            return Result::Err("No Omni instance configured".to_owned());
        },
    };
    let recipient = match &config.recipient {
        Option::Some(rc) => rc,
        Option::None => {
            return Result::Err("No recipient configured".to_owned());
        },
    };
    let text = format_task_message(task_title, task_status, task_url);
    let req = build_send_request(recipient, &config.recipient_type, text);
    Result::Ok(Option::Some((instance.clone(), req)))
}

} // verus!
