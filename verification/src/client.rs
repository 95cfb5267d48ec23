//! The identity service as this bot sees it: the one request that a sync
//! attempt makes, and what its answer means.

use crate::decimal::{append_decimal, decimal_digits};
use crate::models::{RoleErrorResponse, RoleSuccessResponse};
use vstd::prelude::*;

verus! {

/// Where the identity service lives and how the bot presents itself to it.
pub struct SyncEndpoint {
    /// Scheme and authority, without a trailing slash.
    pub base: String,
    /// The bot-level credential.
    pub credential: String,
}

/// How a request asks.
#[derive(Clone, Copy, Debug, PartialEq, Eq, Structural)]
pub enum Method {
    Get,
    Post,
}

/// A request for the caller to send.
#[derive(Debug, PartialEq, Eq)]
pub struct OutboundRequest {
    pub method: Method,
    pub url: String,
    /// The value of the `Authorization` header, where the request carries
    /// one.
    pub authorization: Option<String>,
}

/// The address that answers for the roles of the user `user_id`.
pub open spec fn sync_url(base: Seq<char>, user_id: u64) -> Seq<char> {
    base + "/api/discord/"@ + decimal_digits(user_id as nat) + "/sync"@
}

/// The `Authorization` header value for a credential.
pub open spec fn bot_authorization(credential: Seq<char>) -> Seq<char> {
    "Bot "@ + credential
}

/// The request of one sync attempt for the user `user_id`: a `GET` under the
/// bot's credential.
pub fn sync_request(endpoint: &SyncEndpoint, user_id: u64) -> (request: OutboundRequest)
    ensures
        request.method == Method::Get,
        request.url@ == sync_url(endpoint.base@, user_id),
        request.authorization matches Some(value) && value@ == bot_authorization(
            endpoint.credential@,
        ),
{
    let mut url = String::from_str(endpoint.base.as_str());
    url.append("/api/discord/");
    append_decimal(&mut url, user_id);
    url.append("/sync");
    let mut authorization = String::from_str("Bot ");
    authorization.append(endpoint.credential.as_str());
    OutboundRequest { method: Method::Get, url, authorization: Some(authorization) }
}

/// The page on which the user `user_id` links their account.
pub open spec fn link_url_of(base: Seq<char>, user_id: u64) -> Seq<char> {
    base + "/hacker/link/discord?snowflake="@ + decimal_digits(user_id as nat)
}

/// The address of the page on which the user `user_id` links their account.
pub fn link_url(endpoint: &SyncEndpoint, user_id: u64) -> (url: String)
    ensures
        url@ == link_url_of(endpoint.base@, user_id),
{
    let mut url = String::from_str(endpoint.base.as_str());
    url.append("/hacker/link/discord?snowflake=");
    append_decimal(&mut url, user_id);
    url
}

/// Whether `status` reports success (the 2xx class).
pub open spec fn is_success(status: u16) -> bool {
    200 <= status < 300
}

/// Whether `status` reports a failure inside the service (the 5xx class).
pub open spec fn is_service_error(status: u16) -> bool {
    500 <= status < 600
}

/// Whether `status` reports success.
pub fn status_is_success(status: u16) -> (success: bool)
    ensures
        success == is_success(status),
{
    200 <= status && status < 300
}

/// Whether `status` reports a failure inside the service.
pub fn status_is_service_error(status: u16) -> (failure: bool)
    ensures
        failure == is_service_error(status),
{
    500 <= status && status < 600
}

/// The answer to a sync request: its status, and its body as read under
/// each of the two schemas. A reading that failed carries the decoder's
/// message.
#[derive(Debug, PartialEq, Eq)]
pub struct SyncReply {
    pub status: u16,
    pub roles: Result<RoleSuccessResponse, String>,
    pub error: Result<RoleErrorResponse, String>,
}

/// What a [`SyncReply`] holds.
pub struct SyncReplyView {
    pub status: u16,
    pub roles: Result<Seq<Seq<char>>, Seq<char>>,
    pub error: Result<Seq<char>, Seq<char>>,
}

impl View for SyncReply {
    type V = SyncReplyView;

    open spec fn view(&self) -> SyncReplyView {
        SyncReplyView {
            status: self.status,
            roles: match self.roles {
                Ok(body) => Ok(body@),
                Err(detail) => Err(detail@),
            },
            error: match self.error {
                Ok(body) => Ok(body@),
                Err(detail) => Err(detail@),
            },
        }
    }
}

/// What the identity service said of a user.
#[derive(Debug, PartialEq, Eq)]
pub enum SyncOutcome {
    /// The roles it asserts, as it wrote them.
    Success { role_ids: Vec<String> },
    /// It failed inside.
    ServiceError,
    /// It refused, or answered success with a body that was none.
    OtherError { message: String },
}

/// What a [`SyncOutcome`] holds.
pub enum SyncOutcomeView {
    Success { role_ids: Seq<Seq<char>> },
    ServiceError,
    OtherError { message: Seq<char> },
}

impl View for SyncOutcome {
    type V = SyncOutcomeView;

    open spec fn view(&self) -> SyncOutcomeView {
        match self {
            SyncOutcome::Success { role_ids } => SyncOutcomeView::Success {
                role_ids: role_ids.deep_view(),
            },
            SyncOutcome::ServiceError => SyncOutcomeView::ServiceError,
            SyncOutcome::OtherError { message } => SyncOutcomeView::OtherError { message: message@ },
        }
    }
}

/// A rejection whose body could not be read: the decoder's message.
#[derive(Debug, PartialEq, Eq)]
pub struct UnreadableRejection {
    pub detail: String,
}

/// The outcome that a reply stands for.
///
/// A success status yields the roles, or the decoder's message where the body
/// held none. A service-error status yields `ServiceError` whatever the body.
/// Any other status yields the service's own message, and nothing where that
/// cannot be read.
pub open spec fn outcome_of(reply: SyncReplyView) -> Result<SyncOutcomeView, Seq<char>> {
    if is_success(reply.status) {
        match reply.roles {
            Ok(role_ids) => Ok(SyncOutcomeView::Success { role_ids }),
            Err(detail) => Ok(SyncOutcomeView::OtherError { message: detail }),
        }
    } else if is_service_error(reply.status) {
        Ok(SyncOutcomeView::ServiceError)
    } else {
        match reply.error {
            Ok(message) => Ok(SyncOutcomeView::OtherError { message }),
            Err(detail) => Err(detail),
        }
    }
}

/// Reads a reply as an outcome.
pub fn interpret_reply(reply: SyncReply) -> (outcome: Result<SyncOutcome, UnreadableRejection>)
    ensures
        match outcome {
            Ok(found) => outcome_of(reply@) == Ok::<SyncOutcomeView, Seq<char>>(found@),
            Err(unread) => outcome_of(reply@) == Err::<SyncOutcomeView, Seq<char>>(unread.detail@),
        },
{
    if status_is_success(reply.status) {
        match reply.roles {
            Ok(body) => Ok(SyncOutcome::Success { role_ids: body.roles }),
            Err(detail) => Ok(SyncOutcome::OtherError { message: detail }),
        }
    } else if status_is_service_error(reply.status) {
        Ok(SyncOutcome::ServiceError)
    } else {
        match reply.error {
            Ok(body) => Ok(SyncOutcome::OtherError { message: body.error }),
            Err(detail) => Err(UnreadableRejection { detail }),
        }
    }
}

} // verus!
