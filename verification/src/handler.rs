//! The decisions of the HTTP handlers: which status and body answer a
//! request, given what the repository answered.

use vstd::prelude::*;
use crate::attachment::{attachment_error_text, attachment_views, Attachment, AttachmentError};
use crate::dto::{
    CreateAttachmentRequest, CreateAttachmentResponse, CreateMessageRequest, CreateMessageResponse,
    GetMessageMetadataResponse, GetMessageWithAttachmentsResponse,
};
use crate::id::is_v7_uuid;
use crate::message::{message_error_text, Message, MessageError, MessageMetadata, MessageWithAttachments};
use crate::repo::{repo_error_text, MessageRepoError};
use crate::time::{is_timestamp, Moment, MAX_TIMESTAMP_SECONDS, NANOS_PER_SECOND};

verus! {

/// HTTP status 200 OK.
pub const STATUS_OK: u16 = 200u16;

/// HTTP status 201 Created.
pub const STATUS_CREATED: u16 = 201u16;

/// HTTP status 400 Bad Request.
pub const STATUS_BAD_REQUEST: u16 = 400u16;

/// HTTP status 404 Not Found.
pub const STATUS_NOT_FOUND: u16 = 404u16;

/// HTTP status 500 Internal Server Error.
pub const STATUS_INTERNAL_SERVER_ERROR: u16 = 500u16;

/// The most attachments a message can have.
pub const MAX_ATTACHMENTS: i64 = 10i64;

/// Why a request failed.
#[derive(Clone, Debug, PartialEq, Eq)]
pub enum HandlerError {
    /// The request is malformed or not allowed; the text says why.
    BadRequest(String),
    /// What the request names does not exist; the text says what.
    NotFound(String),
    /// The service failed; the text says why, and is not shown to the client.
    Server(String),
}

/// The abstract content of a handler error.
pub enum HandlerErrorView {
    BadRequest(Seq<char>),
    NotFound(Seq<char>),
    Server(Seq<char>),
}

impl View for HandlerError {
    type V = HandlerErrorView;

    open spec fn view(&self) -> HandlerErrorView {
        match self {
            HandlerError::BadRequest(s) => HandlerErrorView::BadRequest(s@),
            HandlerError::NotFound(s) => HandlerErrorView::NotFound(s@),
            HandlerError::Server(s) => HandlerErrorView::Server(s@),
        }
    }
}

/// The status and body that answer an error: a server error's own text is
/// replaced by a fixed one.
pub open spec fn error_response(e: HandlerErrorView) -> (u16, Seq<char>) {
    match e {
        HandlerErrorView::BadRequest(s) => (STATUS_BAD_REQUEST, s),
        HandlerErrorView::NotFound(s) => (STATUS_NOT_FOUND, s),
        HandlerErrorView::Server(_) => (STATUS_INTERNAL_SERVER_ERROR, "internal server error"@),
    }
}

impl HandlerError {
    /// The human-readable text of this error.
    pub fn to_string(&self) -> (r: String)
        ensures
            r@ == match self@ {
                HandlerErrorView::BadRequest(s) => s,
                HandlerErrorView::NotFound(s) => s,
                HandlerErrorView::Server(s) => s,
            },
    {
        match self {
            HandlerError::BadRequest(s) => s.clone(),
            HandlerError::NotFound(s) => s.clone(),
            HandlerError::Server(s) => s.clone(),
        }
    }

    /// The status and body of the response that answers this error.
    pub fn into_status_and_body(self) -> (r: (u16, String))
        ensures
            (r.0, r.1@) == error_response(self@),
    {
        match self {
            HandlerError::BadRequest(msg) => (STATUS_BAD_REQUEST, msg),
            HandlerError::NotFound(msg) => (STATUS_NOT_FOUND, msg),
            HandlerError::Server(_) => (STATUS_INTERNAL_SERVER_ERROR, "internal server error".to_owned()),
        }
    }
}

/// The server error for a failed repository call.
fn server_error(e: MessageRepoError) -> (r: HandlerError)
    ensures
        r@ == HandlerErrorView::Server(repo_error_text(e@)),
{
    HandlerError::Server(e.to_string())
}

/// The message a creation request asks for, or the bad-request error that
/// refuses it (see `Message::from_request`).
pub fn prepare_create_message(request: CreateMessageRequest) -> (r: Result<Message, HandlerError>)
    requires
        request.ttl() <= MAX_TIMESTAMP_SECONDS,
    ensures
        exists|fresh_id: u128, now: Moment|
            #![trigger request.message_at(fresh_id, now)]
            {
                &&& is_v7_uuid(fresh_id)
                &&& 0 <= now.secs && now.nanos < NANOS_PER_SECOND
                &&& if is_timestamp(request.expiry(now)) {
                    match request.message_at(fresh_id, now) {
                        Ok(m) => r matches Ok(message) && message@ == m,
                        Err(e) => r matches Err(err) && err@ == HandlerErrorView::BadRequest(
                            message_error_text(e),
                        ),
                    }
                } else {
                    r matches Err(err) && err@ == HandlerErrorView::BadRequest(
                        message_error_text(MessageError::ExpiresAt),
                    )
                }
            },
{
    match Message::from_request(request) {
        Ok(m) => Ok(m),
        Err(e) => Err(HandlerError::BadRequest(e.to_string())),
    }
}

/// The answer to a message creation, given what storing the message answered.
pub fn finish_create_message(stored: Result<u128, MessageRepoError>) -> (r: Result<
    (u16, CreateMessageResponse),
    HandlerError,
>)
    ensures
        match stored {
            Ok(id) => r == Ok::<(u16, CreateMessageResponse), HandlerError>(
                (STATUS_CREATED, CreateMessageResponse { id }),
            ),
            Err(e) => r matches Err(err) && err@ == HandlerErrorView::Server(repo_error_text(e@)),
        },
{
    match stored {
        Ok(id) => Ok((STATUS_CREATED, CreateMessageResponse { id })),
        Err(e) => Err(server_error(e)),
    }
}

/// The answer to a read of a message, given what the consuming read answered.
pub fn finish_get_message(read: Result<Option<MessageWithAttachments>, MessageRepoError>) -> (r: Result<
    (u16, GetMessageWithAttachmentsResponse),
    HandlerError,
>)
    ensures
        match read {
            Ok(Some(found)) => r matches Ok((status, body)) && status == STATUS_OK && body.shows(
                found.message@,
                attachment_views(found.attachments@),
            ),
            Ok(None) => r matches Err(err) && err@ == HandlerErrorView::NotFound(
                "message not found"@,
            ),
            Err(e) => r matches Err(err) && err@ == HandlerErrorView::Server(repo_error_text(e@)),
        },
{
    match read {
        Ok(Some(found)) => Ok(
            (STATUS_OK, GetMessageWithAttachmentsResponse::from_message_with_attachments(found)),
        ),
        Ok(None) => Err(HandlerError::NotFound("message not found".to_owned())),
        Err(e) => Err(server_error(e)),
    }
}

/// The answer to a read of a message's metadata, given what the repository
/// answered.
pub fn finish_get_metadata(read: Result<MessageMetadata, MessageRepoError>) -> (r: Result<
    (u16, GetMessageMetadataResponse),
    HandlerError,
>)
    ensures
        match read {
            Ok(m) => r == Ok::<(u16, GetMessageMetadataResponse), HandlerError>(
                (STATUS_OK, GetMessageMetadataResponse { burn_on_read: m.burn_on_read }),
            ),
            Err(e) => r matches Err(err) && err@ == HandlerErrorView::Server(repo_error_text(e@)),
        },
{
    match read {
        Ok(m) => Ok((STATUS_OK, GetMessageMetadataResponse::from(m))),
        Err(e) => Err(server_error(e)),
    }
}

/// What answered the last repository call of an attachment creation.
pub enum CreateAttachmentEvent {
    /// The number of attachments the message has.
    Counted(Result<i64, MessageRepoError>),
    /// The identifier of the stored attachment.
    Created(Result<u128, MessageRepoError>),
}

/// What to do next in an attachment creation.
pub enum CreateAttachmentAction {
    /// Count the attachments of the message with this identifier.
    CountAttachments(u128),
    /// Store this attachment.
    CreateAttachment(Attachment),
    /// Answer the request with this.
    Respond(Result<(u16, CreateAttachmentResponse), HandlerError>),
}

/// The creation of an attachment of a message: count the message's
/// attachments, refuse where it has the most it may have, build the
/// attachment, store it.
pub struct CreateAttachmentFlow {
    message_id: u128,
    request: Option<CreateAttachmentRequest>,
}

impl CreateAttachmentFlow {
    /// The message the attachment is for.
    pub closed spec fn message_id(self) -> u128 {
        self.message_id
    }

    /// The request, while the count is awaited.
    pub closed spec fn request(self) -> Option<CreateAttachmentRequest> {
        self.request
    }

    /// Whether `event` answers the call this creation waits for.
    pub open spec fn accepts(self, event: CreateAttachmentEvent) -> bool {
        match event {
            CreateAttachmentEvent::Counted(_) => self.request() is Some,
            CreateAttachmentEvent::Created(_) => self.request() is None,
        }
    }

    /// Starts the creation of an attachment of message `message_id`; the
    /// first thing to do is to count its attachments.
    pub fn new(message_id: u128, request: CreateAttachmentRequest) -> (r: (
        CreateAttachmentFlow,
        CreateAttachmentAction,
    ))
        ensures
            r.0.message_id() == message_id,
            r.0.request() == Some(request),
            r.1 == CreateAttachmentAction::CountAttachments(message_id),
    {
        (
            CreateAttachmentFlow { message_id, request: Some(request) },
            CreateAttachmentAction::CountAttachments(message_id),
        )
    }

    /// Decides, from the answer to the last call, what to do next.
    pub fn step(self, event: CreateAttachmentEvent) -> (r: (
        CreateAttachmentFlow,
        CreateAttachmentAction,
    ))
        requires
            self.accepts(event),
        ensures
            r.0.message_id() == self.message_id(),
            r.0.request() is None,
            match event {
                CreateAttachmentEvent::Counted(Err(e)) => r.1 matches CreateAttachmentAction::Respond(
                    Err(err),
                ) && err@ == HandlerErrorView::Server(repo_error_text(e@)),
                CreateAttachmentEvent::Counted(Ok(count)) => {
                    let request = self.request().unwrap();
                    if count >= MAX_ATTACHMENTS {
                        r.1 matches CreateAttachmentAction::Respond(Err(err)) && err@
                            == HandlerErrorView::BadRequest("too many attachments"@)
                    } else if request.ciphertext@.len() == 0 {
                        r.1 matches CreateAttachmentAction::Respond(Err(err)) && err@
                            == HandlerErrorView::BadRequest(
                            attachment_error_text(AttachmentError::EmptyCiphertext),
                        )
                    } else {
                        r.1 matches CreateAttachmentAction::CreateAttachment(a) && exists|
                            fresh_id: u128,
                        |
                            #![trigger request.raw(self.message_id()).built(fresh_id)]
                            is_v7_uuid(fresh_id) && request.raw(self.message_id()).built(fresh_id)
                                == Ok::<crate::attachment::AttachmentView, AttachmentError>(a@)
                    }
                },
                CreateAttachmentEvent::Created(Err(e)) => r.1 matches CreateAttachmentAction::Respond(
                    Err(err),
                ) && err@ == HandlerErrorView::Server(repo_error_text(e@)),
                CreateAttachmentEvent::Created(Ok(id)) => r.1 == CreateAttachmentAction::Respond(
                    Ok((STATUS_CREATED, CreateAttachmentResponse { id })),
                ),
            },
    {
        let CreateAttachmentFlow { message_id, request } = self;
        let done = CreateAttachmentFlow { message_id, request: None };
        match event {
            CreateAttachmentEvent::Counted(Err(e)) => (
                done,
                CreateAttachmentAction::Respond(Err(server_error(e))),
            ),
            CreateAttachmentEvent::Counted(Ok(count)) => {
                if count >= MAX_ATTACHMENTS {
                    return (
                        done,
                        CreateAttachmentAction::Respond(
                            Err(HandlerError::BadRequest("too many attachments".to_owned())),
                        ),
                    );
                }
                let request: CreateAttachmentRequest = request.unwrap();
                let ghost req = request;
                match request.into_core(message_id) {
                    Ok(a) => (done, CreateAttachmentAction::CreateAttachment(a)),
                    Err(e) => {
                        proof {
                            let fresh_id = choose|fresh_id: u128|
                                #![trigger req.raw(message_id).built(fresh_id)]
                                is_v7_uuid(fresh_id) && crate::view_result(
                                    Err::<Attachment, AttachmentError>(e),
                                ) == req.raw(message_id).built(fresh_id);
                            assert(req.ciphertext@.len() == 0);
                        }
                        (done, CreateAttachmentAction::Respond(Err(HandlerError::BadRequest(e.to_string()))))
                    },
                }
            },
            CreateAttachmentEvent::Created(Err(e)) => (
                done,
                CreateAttachmentAction::Respond(Err(server_error(e))),
            ),
            CreateAttachmentEvent::Created(Ok(id)) => (
                done,
                CreateAttachmentAction::Respond(
                    Ok((STATUS_CREATED, CreateAttachmentResponse { id })),
                ),
            ),
        }
    }
}

} // verus!
