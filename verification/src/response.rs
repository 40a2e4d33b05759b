use vstd::prelude::*;

verus! {

/// The body of every answer of the webhooks: one message.
#[derive(Debug)]
pub struct MessageResponse {
    pub message: String,
}

impl MessageResponse {
    /// An answer with the given message.
    pub fn new(message: String) -> (response: MessageResponse)
        ensures
            response.message == message,
    {
        Self { message }
    }

    /// The answer to an event that was taken.
    pub fn ok() -> (response: MessageResponse)
        ensures
            response.message@ == "ok"@,
    {
        Self { message: String::from_str("ok") }
    }
}

/// How the handling of one webhook call ended.
#[derive(Debug)]
pub enum WebhookOutcome {
    /// The event was read and handed to the loop.
    Accepted,
    /// The body was no event; the text says why.
    Malformed(String),
    /// The loop takes no more events; the text says why.
    Undeliverable(String),
}

/// What a webhook answers, and whether the service is to shut down.
#[derive(Debug)]
pub struct WebhookReply {
    pub status: u16,
    pub body: MessageResponse,
    pub close: bool,
}

/// The status that a webhook answers with.
pub open spec fn spec_status(outcome: WebhookOutcome) -> u16 {
    match outcome {
        WebhookOutcome::Accepted => 200,
        WebhookOutcome::Malformed(_) => 400,
        WebhookOutcome::Undeliverable(_) => 500,
    }
}

/// The message that a webhook answers with.
pub open spec fn spec_message(outcome: WebhookOutcome) -> Seq<char> {
    match outcome {
        WebhookOutcome::Accepted => "ok"@,
        WebhookOutcome::Malformed(reason) => reason@,
        WebhookOutcome::Undeliverable(reason) => reason@,
    }
}

/// Decides the answer to a webhook call. An event that cannot be delivered
/// means that the loop is gone, so the service shuts down.
pub fn webhook_reply(outcome: WebhookOutcome) -> (reply: WebhookReply)
    ensures
        reply.status == spec_status(outcome),
        reply.body.message@ == spec_message(outcome),
        reply.close == (outcome is Undeliverable),
{
    match outcome {
        WebhookOutcome::Accepted => WebhookReply {
            status: 200,
            body: MessageResponse::ok(),
            close: false,
        },
        WebhookOutcome::Malformed(reason) => WebhookReply {
            status: 400,
            body: MessageResponse::new(reason),
            close: false,
        },
        WebhookOutcome::Undeliverable(reason) => WebhookReply {
            status: 500,
            body: MessageResponse::new(reason),
            close: true,
        },
    }
}

} // verus!
