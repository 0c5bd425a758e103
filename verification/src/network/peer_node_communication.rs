//! The service that takes messages from peers.
//!
//! Serving is the caller's part. What is answered to a message is decided
//! here.

use vstd::prelude::*;
use vstd::string::*;

verus! {

/// A message from a peer.
#[derive(Debug, Clone)]
pub struct MessageRequest {
    pub message: String,
    pub sender_id: String,
    pub recipient_id: String,
    pub timestamp: i64,
}

/// The answer to a message.
#[derive(Debug, Clone)]
pub struct MessageReply {
    pub response: String,
    /// When the message was received, in milliseconds since 1970.
    pub received_timestamp: i64,
    pub success: bool,
    pub error_message: String,
}

/// What is answered to the message `message`.
pub open spec fn response_text(message: Seq<char>) -> Seq<char> {
    "Received your message: "@ + message
}

/// The service.
#[derive(Debug, Default)]
pub struct MyPeerNodeCommunication {}

impl MyPeerNodeCommunication {
    /// The answer to `request`, received at `now_millis`: that the message
    /// was received, without an error.
    pub fn send_message(&self, request: &MessageRequest, now_millis: i64) -> (reply: MessageReply)
        ensures
            reply.response@ == response_text(request.message@),
            reply.received_timestamp == now_millis,
            reply.success,
            reply.error_message@.len() == 0,
    {
        let mut response = "Received your message: ".to_owned();
        response.append(request.message.as_str());
        MessageReply {
            response,
            received_timestamp: now_millis,
            success: true,
            error_message: String::new(),
        }
    }
}

} // verus!
