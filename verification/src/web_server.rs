//! The replies of the HTTP front end.

use vstd::prelude::*;

use crate::status::P2pStatus;

verus! {

/// What a reply carries.
#[derive(Debug, Clone, PartialEq, Eq)]
pub enum ReplyBody {
    /// The status, as JSON.
    Status(P2pStatus),
    /// JSON `null`.
    Null,
    /// Plain text.
    Text(String),
    /// Nothing.
    Empty,
}

/// An HTTP reply: status code and body.
#[derive(Debug, Clone, PartialEq, Eq)]
pub struct HttpReply {
    pub code: u16,
    pub body: ReplyBody,
}

/// How asking the actor for its status went.
#[derive(Debug, Clone, PartialEq, Eq)]
pub enum StatusExchange {
    /// The command could not be sent to the actor.
    SendFailed,
    /// The actor never answered.
    ReceiveFailed,
    /// The actor answered with this status.
    Received(P2pStatus),
}

/// How handing a registration to the actor went.
#[derive(Debug, Clone, PartialEq, Eq)]
pub enum RegisterExchange {
    /// The command could not be sent to the actor.
    SendFailed,
    /// The command was sent, but the user could not be handed over.
    HandOffFailed,
    /// The user was handed over.
    HandedOff,
}

pub const HTTP_OK: u16 = 200;

pub const HTTP_INTERNAL_SERVER_ERROR: u16 = 500;

/// The reply of `GET /status`.
pub fn get_status(exchange: StatusExchange) -> (reply: HttpReply)
    ensures
        match exchange {
            StatusExchange::Received(s) => reply.body matches ReplyBody::Status(b) && b@ == s@ && reply.code == HTTP_OK,
            StatusExchange::SendFailed => reply.body matches ReplyBody::Text(t) && t@ == "P2P actor communication error"@ && reply.code == HTTP_INTERNAL_SERVER_ERROR,
            StatusExchange::ReceiveFailed => reply.body matches ReplyBody::Text(t) && t@ == "Failed to get status from P2P actor"@ && reply.code == HTTP_INTERNAL_SERVER_ERROR,
        },
{
    match exchange {
        StatusExchange::Received(s) => HttpReply { code: HTTP_OK, body: ReplyBody::Status(s) },
        StatusExchange::SendFailed => HttpReply {
            code: HTTP_INTERNAL_SERVER_ERROR,
            body: ReplyBody::Text("P2P actor communication error".to_owned()),
        },
        StatusExchange::ReceiveFailed => HttpReply {
            code: HTTP_INTERNAL_SERVER_ERROR,
            body: ReplyBody::Text("Failed to get status from P2P actor".to_owned()),
        },
    }
}

/// The reply of `POST /register`.
pub fn register_info(exchange: RegisterExchange) -> (reply: HttpReply)
    ensures
        match exchange {
            RegisterExchange::HandedOff => reply.code == HTTP_OK && reply.body is Null,
            RegisterExchange::SendFailed => reply.body matches ReplyBody::Text(t) && t@ == "P2P actor communication error"@ && reply.code == HTTP_INTERNAL_SERVER_ERROR,
            RegisterExchange::HandOffFailed => reply.body matches ReplyBody::Text(t) && t@ == "Failed to get status from P2P actor"@ && reply.code == HTTP_INTERNAL_SERVER_ERROR,
        },
{
    match exchange {
        RegisterExchange::HandedOff => HttpReply { code: HTTP_OK, body: ReplyBody::Null },
        RegisterExchange::SendFailed => HttpReply {
            code: HTTP_INTERNAL_SERVER_ERROR,
            body: ReplyBody::Text("P2P actor communication error".to_owned()),
        },
        RegisterExchange::HandOffFailed => HttpReply {
            code: HTTP_INTERNAL_SERVER_ERROR,
            body: ReplyBody::Text("Failed to get status from P2P actor".to_owned()),
        },
    }
}

/// The reply of `POST /{key}/upload`: success, with nothing in it.
pub fn upload_file() -> (reply: HttpReply)
    ensures
        reply.code == HTTP_OK && reply.body is Empty,
{
    HttpReply { code: HTTP_OK, body: ReplyBody::Empty }
}

/// The reply of `GET /download`: success, with nothing in it.
pub fn download_file() -> (reply: HttpReply)
    ensures
        reply.code == HTTP_OK && reply.body is Empty,
{
    HttpReply { code: HTTP_OK, body: ReplyBody::Empty }
}

} // verus!
