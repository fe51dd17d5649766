//! The bodies of the HTTP requests and responses, and how they map to and
//! from domain values.

use vstd::prelude::*;
use vstd::std_specs::convert::FromSpecImpl;
use crate::attachment::{Attachment, AttachmentError, AttachmentView, RawAttachment};
use crate::id::is_v7_uuid;
use crate::message::{
    Message, MessageError, MessageMetadata, MessageView, MessageWithAttachments, RawMessage,
};
use crate::time::{
    add_seconds, is_timestamp, later, Moment, Timestamp, MAX_TIMESTAMP_SECONDS, NANOS_PER_SECOND,
};

verus! {

/// How long a message lives when the request names no lifetime: one hour.
pub const DEFAULT_TTL_SECONDS: u64 = 3600u64;

/// A request to store a new message.
#[derive(Clone, Debug, PartialEq, Eq)]
pub struct CreateMessageRequest {
    pub burn_on_read: bool,
    pub ciphertext: Vec<u8>,
    pub nonce: [u8; 12],
    pub salt: [u8; 16],
    pub ttl_seconds: Option<u64>,
}

impl CreateMessageRequest {
    /// The lifetime the message gets, in seconds.
    pub open spec fn ttl(self) -> int {
        match self.ttl_seconds {
            Some(t) => t as int,
            None => DEFAULT_TTL_SECONDS as int,
        }
    }

    /// The expiry of the message for a request made at `now`.
    pub open spec fn expiry(self, now: Moment) -> Moment {
        add_seconds(now, self.ttl())
    }

    /// The message a request made at `now` asks for, with `fresh_id` as its
    /// identifier: created at `now`, expiring after the lifetime.
    pub open spec fn message_at(self, fresh_id: u128, now: Moment) -> Result<MessageView, MessageError> {
        if !later(self.expiry(now), now) {
            Err(MessageError::ExpiresAt)
        } else if self.ciphertext@.len() == 0 {
            Err(MessageError::EmptyCiphertext)
        } else {
            Ok(
                MessageView {
                    id: fresh_id,
                    created_at: now,
                    expires_at: self.expiry(now),
                    burn_on_read: self.burn_on_read,
                    ciphertext: self.ciphertext@,
                    nonce: self.nonce,
                    salt: self.salt,
                },
            )
        }
    }

    /// The message this request asks for, made at the clock reading `now`
    /// (which is never before the Unix epoch) with identifier `fresh_id`.
    pub fn to_message_at(self, fresh_id: u128, now: Timestamp) -> (r: Result<Message, MessageError>)
        requires
            is_timestamp(self.expiry(now@)),
        ensures
            crate::view_result(r) == self.message_at(fresh_id, now@),
    {
        let ttl: u64 = match self.ttl_seconds {
            Some(t) => t,
            None => DEFAULT_TTL_SECONDS,
        };
        proof {
            use_type_invariant(&now);
        }
        let expires_at: Timestamp = now.checked_add_seconds(ttl as i64).unwrap();
        let raw: RawMessage = RawMessage {
            id: None,
            created_at: Some(now),
            expires_at: Some(expires_at),
            burn_on_read: Some(self.burn_on_read),
            ciphertext: self.ciphertext,
            nonce: self.nonce,
            salt: self.salt,
        };
        raw.build_with(fresh_id, now)
    }
}

impl Message {
    /// The message a creation request asks for: created now, with a fresh
    /// version 7 UUID, expiring after the requested lifetime (one hour by
    /// default). Where the expiry falls outside the representable range for
    /// the clock reading, the result is `Err(MessageError::ExpiresAt)`.
    pub fn from_request(request: CreateMessageRequest) -> (r: Result<Message, MessageError>)
        requires
            request.ttl() <= MAX_TIMESTAMP_SECONDS,
        ensures
            exists|fresh_id: u128, now: Moment|
                #![trigger request.message_at(fresh_id, now)]
                {
                    &&& is_v7_uuid(fresh_id)
                    &&& 0 <= now.secs && now.nanos < NANOS_PER_SECOND
                    &&& if is_timestamp(request.expiry(now)) {
                        crate::view_result(r) == request.message_at(fresh_id, now)
                    } else {
                        r == Err::<Message, MessageError>(MessageError::ExpiresAt)
                    }
                },
    {
        let now: Timestamp = Timestamp::now();
        let fresh_id: u128 = crate::id::new_v7_uuid();
        let ttl: u64 = match request.ttl_seconds {
            Some(t) => t,
            None => DEFAULT_TTL_SECONDS,
        };
        if now.checked_add_seconds(ttl as i64).is_none() {
            let r: Result<Message, MessageError> = Err(MessageError::ExpiresAt);
            proof {
                assert({
                    &&& is_v7_uuid(fresh_id)
                    &&& 0 <= now@.secs && now@.nanos < NANOS_PER_SECOND
                    &&& if is_timestamp(request.expiry(now@)) {
                        crate::view_result(r) == request.message_at(fresh_id, now@)
                    } else {
                        r == Err::<Message, MessageError>(MessageError::ExpiresAt)
                    }
                });
            }
            return r;
        }
        let r: Result<Message, MessageError> = request.to_message_at(fresh_id, now);
        proof {
            assert({
                &&& is_v7_uuid(fresh_id)
                &&& 0 <= now@.secs && now@.nanos < NANOS_PER_SECOND
                &&& if is_timestamp(request.expiry(now@)) {
                    crate::view_result(r) == request.message_at(fresh_id, now@)
                } else {
                    r == Err::<Message, MessageError>(MessageError::ExpiresAt)
                }
            });
        }
        r
    }
}

/// The message a creation request asks for keeps what the request says: the
/// identifier is the fresh one, it is created at `now` and expires the
/// requested number of seconds later (an hour where none is named), and its
/// burn-on-read flag, ciphertext, nonce and salt are the request's. It is
/// refused only for an expiry not after `now` (a lifetime of zero seconds) or
/// an empty ciphertext, and any positive lifetime with a ciphertext is
/// accepted.
pub proof fn lemma_request_message_keeps_request(
    request: CreateMessageRequest,
    fresh_id: u128,
    now: Moment,
)
    ensures
        request.message_at(fresh_id, now) matches Ok(m) ==> {
            &&& m.id == fresh_id
            &&& m.created_at == now
            &&& request.ttl_seconds matches Some(t) ==> m.expires_at == add_seconds(now, t as int)
            &&& request.ttl_seconds is None ==> m.expires_at == add_seconds(now, 3600)
            &&& m.burn_on_read == request.burn_on_read
            &&& m.ciphertext == request.ciphertext@
            &&& m.nonce == request.nonce
            &&& m.salt == request.salt
        },
        request.ttl_seconds == Some(0u64) ==> request.message_at(fresh_id, now) == Err::<
            MessageView,
            MessageError,
        >(MessageError::ExpiresAt),
        request.ttl_seconds != Some(0u64) && request.ciphertext@.len() == 0 ==> request.message_at(
            fresh_id,
            now,
        ) == Err::<MessageView, MessageError>(MessageError::EmptyCiphertext),
        request.ttl_seconds != Some(0u64) && request.ciphertext@.len() > 0 ==> request.message_at(
            fresh_id,
            now,
        ) is Ok,
{
}

/// A request to store a new attachment of a message.
#[derive(Clone, Debug, PartialEq, Eq)]
pub struct CreateAttachmentRequest {
    pub ciphertext: Vec<u8>,
    pub nonce: [u8; 12],
    pub salt: [u8; 16],
}

impl CreateAttachmentRequest {
    /// The fields of the attachment this request asks for under `message_id`.
    pub open spec fn raw(self, message_id: u128) -> RawAttachment {
        RawAttachment {
            id: None,
            message_id,
            ciphertext: self.ciphertext,
            nonce: self.nonce,
            salt: self.salt,
        }
    }

    /// The attachment this request asks for, under the message `message_id`,
    /// with a fresh version 7 UUID.
    pub fn into_core(self, message_id: u128) -> (r: Result<Attachment, AttachmentError>)
        ensures
            exists|fresh_id: u128|
                #![trigger self.raw(message_id).built(fresh_id)]
                is_v7_uuid(fresh_id) && crate::view_result(r) == self.raw(message_id).built(fresh_id),
    {
        let builder = Attachment::builder().message_id(message_id).ciphertext(self.ciphertext).nonce(
            self.nonce,
        ).salt(self.salt);
        proof {
            assert(builder.raw() == self.raw(message_id));
        }
        builder.build()
    }
}

/// The attachment a creation request asks for carries the request's
/// ciphertext, nonce and salt, belongs to the message `message_id` and has
/// the fresh identifier; it is refused exactly when the ciphertext is empty.
pub proof fn lemma_attachment_request_keeps_request(
    request: CreateAttachmentRequest,
    message_id: u128,
    fresh_id: u128,
)
    ensures
        request.raw(message_id).built(fresh_id) matches Ok(a) ==> {
            &&& a.id == fresh_id
            &&& a.message_id == message_id
            &&& a.ciphertext == request.ciphertext@
            &&& a.nonce == request.nonce
            &&& a.salt == request.salt
        },
        request.raw(message_id).built(fresh_id) is Ok <==> request.ciphertext@.len() > 0,
        request.ciphertext@.len() == 0 ==> request.raw(message_id).built(fresh_id) == Err::<
            AttachmentView,
            AttachmentError,
        >(AttachmentError::EmptyCiphertext),
{
}

/// The answer to a message creation: the new message's identifier.
#[derive(Clone, Copy, Debug, PartialEq, Eq, Structural)]
pub struct CreateMessageResponse {
    pub id: u128,
}

/// The answer to an attachment creation: the new attachment's identifier.
#[derive(Clone, Copy, Debug, PartialEq, Eq, Structural)]
pub struct CreateAttachmentResponse {
    pub id: u128,
}

/// The encrypted content of a message as it is handed out.
#[derive(Clone, Debug, PartialEq, Eq)]
pub struct GetMessageResponse {
    pub ciphertext: Vec<u8>,
    pub nonce: [u8; 12],
    pub salt: [u8; 16],
}

impl GetMessageResponse {
    /// Whether this response carries the content of `message`.
    pub open spec fn shows(self, message: MessageView) -> bool {
        &&& self.ciphertext@ == message.ciphertext
        &&& self.nonce == message.nonce
        &&& self.salt == message.salt
    }
}

impl From<Message> for GetMessageResponse {
    fn from(value: Message) -> (r: Self)
        ensures
            r.shows(value@),
    {
        proof {
            Message::lemma_view(&value);
        }
        GetMessageResponse { ciphertext: value.ciphertext, nonce: value.nonce, salt: value.salt }
    }
}

impl FromSpecImpl<Message> for GetMessageResponse {
    open spec fn obeys_from_spec() -> bool {
        true
    }

    closed spec fn from_spec(value: Message) -> GetMessageResponse {
        GetMessageResponse { ciphertext: value.ciphertext, nonce: value.nonce, salt: value.salt }
    }
}

/// The encrypted content of an attachment as it is handed out.
#[derive(Clone, Debug, PartialEq, Eq)]
pub struct GetAttachmentResponse {
    pub id: u128,
    pub ciphertext: Vec<u8>,
    pub nonce: [u8; 12],
    pub salt: [u8; 16],
}

impl GetAttachmentResponse {
    /// Whether this response carries `attachment`.
    pub open spec fn shows(self, attachment: AttachmentView) -> bool {
        &&& self.id == attachment.id
        &&& self.ciphertext@ == attachment.ciphertext
        &&& self.nonce == attachment.nonce
        &&& self.salt == attachment.salt
    }
}

impl From<Attachment> for GetAttachmentResponse {
    fn from(value: Attachment) -> (r: Self)
        ensures
            r.shows(value@),
    {
        proof {
            Attachment::lemma_view(&value);
        }
        GetAttachmentResponse {
            id: value.id,
            ciphertext: value.ciphertext,
            nonce: value.nonce,
            salt: value.salt,
        }
    }
}

impl FromSpecImpl<Attachment> for GetAttachmentResponse {
    open spec fn obeys_from_spec() -> bool {
        true
    }

    closed spec fn from_spec(value: Attachment) -> GetAttachmentResponse {
        GetAttachmentResponse {
            id: value.id,
            ciphertext: value.ciphertext,
            nonce: value.nonce,
            salt: value.salt,
        }
    }
}

/// A message and its attachments as they are handed out.
#[derive(Clone, Debug, PartialEq, Eq)]
pub struct GetMessageWithAttachmentsResponse {
    pub message: GetMessageResponse,
    pub attachments: Vec<GetAttachmentResponse>,
}

impl GetMessageWithAttachmentsResponse {
    /// Whether this response carries `message` and, in order, `attachments`.
    pub open spec fn shows(self, message: MessageView, attachments: Seq<AttachmentView>) -> bool {
        &&& self.message.shows(message)
        &&& self.attachments@.len() == attachments.len()
        &&& forall|i: int|
            0 <= i < attachments.len() ==> #[trigger] self.attachments@[i].shows(attachments[i])
    }

    /// The response for a message read together with its attachments.
    pub fn from_message_with_attachments(value: MessageWithAttachments) -> (r: Self)
        ensures
            r.shows(value.message@, crate::attachment::attachment_views(value.attachments@)),
    {
        let MessageWithAttachments { message, attachments } = value;
        let ghost source = attachments@;
        let mut attachments = attachments;
        let mut out: Vec<GetAttachmentResponse> = Vec::new();
        let mut i: usize = 0;
        let n: usize = attachments.len();
        while attachments.len() > 0
            invariant
                attachments@ == source.skip(i as int),
                n == source.len(),
                i <= n,
                out@.len() == i,
                forall|j: int| 0 <= j < i ==> #[trigger] out@[j].shows(source[j]@),
            decreases attachments@.len(),
        {
            let a: Attachment = attachments.remove(0);
            proof {
                assert(a == source[i as int]);
            }
            out.push(GetAttachmentResponse::from(a));
            i = i + 1;
        }
        GetMessageWithAttachmentsResponse { message: GetMessageResponse::from(message), attachments: out }
    }
}

/// A response that carries a message and its attachments hands out the
/// message's ciphertext, nonce and salt, and every attachment, in order and
/// no other, with its identifier, ciphertext, nonce and salt.
pub proof fn lemma_read_response_hands_out_everything(
    body: GetMessageWithAttachmentsResponse,
    message: MessageView,
    attachments: Seq<AttachmentView>,
)
    requires
        body.shows(message, attachments),
    ensures
        body.message.ciphertext@ == message.ciphertext,
        body.message.nonce == message.nonce,
        body.message.salt == message.salt,
        body.attachments@.len() == attachments.len(),
        forall|i: int|
            0 <= i < attachments.len() ==> {
                let out = #[trigger] body.attachments@[i];
                &&& out.id == attachments[i].id
                &&& out.ciphertext@ == attachments[i].ciphertext
                &&& out.nonce == attachments[i].nonce
                &&& out.salt == attachments[i].salt
            },
{
    assert forall|i: int| 0 <= i < attachments.len() implies {
        let out = #[trigger] body.attachments@[i];
        &&& out.id == attachments[i].id
        &&& out.ciphertext@ == attachments[i].ciphertext
        &&& out.nonce == attachments[i].nonce
        &&& out.salt == attachments[i].salt
    } by {
        assert(body.attachments@[i].shows(attachments[i]));
    }
}

/// What can be read of a message without consuming it, as it is handed out.
#[derive(Clone, Copy, Debug, PartialEq, Eq, Structural)]
pub struct GetMessageMetadataResponse {
    pub burn_on_read: bool,
}

impl From<MessageMetadata> for GetMessageMetadataResponse {
    fn from(value: MessageMetadata) -> (r: Self)
        ensures
            r.burn_on_read == value.burn_on_read,
    {
        GetMessageMetadataResponse { burn_on_read: value.burn_on_read }
    }
}

impl FromSpecImpl<MessageMetadata> for GetMessageMetadataResponse {
    open spec fn obeys_from_spec() -> bool {
        true
    }

    open spec fn from_spec(value: MessageMetadata) -> GetMessageMetadataResponse {
        GetMessageMetadataResponse { burn_on_read: value.burn_on_read }
    }
}

} // verus!
