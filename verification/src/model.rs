//! The records the database stores for messages and attachments, and the
//! conversions between records and domain values.

use vstd::prelude::*;
use vstd::std_specs::convert::{FromSpecImpl, TryFromSpecImpl};
use crate::attachment::{Attachment, AttachmentError, AttachmentView};
use crate::message::{Message, MessageError, MessageMetadata, MessageView};
use crate::time::{later, Timestamp};

verus! {

/// Why a stored message record does not make a message.
#[derive(Clone, Copy, Debug, PartialEq, Eq, Structural)]
pub enum MessageModelError {
    Domain(MessageError),
}

impl MessageModelError {
    /// The human-readable text of this error: that of the domain error.
    pub fn to_string(&self) -> (r: String)
        ensures
            r@ == crate::message::message_error_text(match *self {
                MessageModelError::Domain(e) => e,
            }),
    {
        match self {
            MessageModelError::Domain(e) => e.to_string(),
        }
    }
}

/// A stored message row.
#[derive(Clone, Debug, PartialEq, Eq)]
pub struct MessageModel {
    pub id: u128,
    pub created_at: Timestamp,
    pub expires_at: Timestamp,
    pub burn_on_read: bool,
    pub ciphertext: Vec<u8>,
    pub nonce: [u8; 12],
    pub salt: [u8; 16],
}

impl MessageModel {
    /// The message content this row records.
    pub open spec fn content(self) -> MessageView {
        MessageView {
            id: self.id,
            created_at: self.created_at@,
            expires_at: self.expires_at@,
            burn_on_read: self.burn_on_read,
            ciphertext: self.ciphertext@,
            nonce: self.nonce,
            salt: self.salt,
        }
    }

    /// What reading this row as a message yields.
    pub open spec fn to_message(self) -> Result<MessageView, MessageModelError> {
        if !later(self.expires_at@, self.created_at@) {
            Err(MessageModelError::Domain(MessageError::ExpiresAt))
        } else if self.ciphertext@.len() == 0 {
            Err(MessageModelError::Domain(MessageError::EmptyCiphertext))
        } else {
            Ok(self.content())
        }
    }
}

impl From<Message> for MessageModel {
    fn from(message: Message) -> (r: Self)
        ensures
            r.content() == message@,
    {
        proof {
            Message::lemma_view(&message);
        }
        MessageModel {
            id: message.id,
            created_at: message.created_at,
            expires_at: message.expires_at,
            burn_on_read: message.burn_on_read,
            ciphertext: message.ciphertext,
            nonce: message.nonce,
            salt: message.salt,
        }
    }
}

impl FromSpecImpl<Message> for MessageModel {
    open spec fn obeys_from_spec() -> bool {
        true
    }

    closed spec fn from_spec(message: Message) -> MessageModel {
        MessageModel {
            id: message.id,
            created_at: message.created_at,
            expires_at: message.expires_at,
            burn_on_read: message.burn_on_read,
            ciphertext: message.ciphertext,
            nonce: message.nonce,
            salt: message.salt,
        }
    }
}

impl TryFrom<MessageModel> for Message {
    type Error = MessageModelError;

    fn try_from(value: MessageModel) -> (r: Result<Message, MessageModelError>)
        ensures
            crate::view_result(r) == value.to_message(),
    {
        if !value.expires_at.is_after(&value.created_at) {
            return Err(MessageModelError::Domain(MessageError::ExpiresAt));
        }
        if value.ciphertext.len() == 0 {
            return Err(MessageModelError::Domain(MessageError::EmptyCiphertext));
        }
        Ok(
            Message::assemble(
                value.id,
                value.created_at,
                value.expires_at,
                value.burn_on_read,
                value.ciphertext,
                value.nonce,
                value.salt,
            ),
        )
    }
}

impl TryFromSpecImpl<MessageModel> for Message {
    open spec fn obeys_try_from_spec() -> bool {
        true
    }

    closed spec fn try_from_spec(value: MessageModel) -> Result<Message, MessageModelError> {
        if !later(value.expires_at@, value.created_at@) {
            Err(MessageModelError::Domain(MessageError::ExpiresAt))
        } else if value.ciphertext@.len() == 0 {
            Err(MessageModelError::Domain(MessageError::EmptyCiphertext))
        } else {
            Ok(
                Message {
                    id: value.id,
                    created_at: value.created_at,
                    expires_at: value.expires_at,
                    burn_on_read: value.burn_on_read,
                    ciphertext: value.ciphertext,
                    nonce: value.nonce,
                    salt: value.salt,
                },
            )
        }
    }
}

} // verus!

verus! {

/// Why a stored attachment record does not make an attachment.
#[derive(Clone, Copy, Debug, PartialEq, Eq, Structural)]
pub enum AttachmentModelError {
    Domain(AttachmentError),
}

impl AttachmentModelError {
    /// The human-readable text of this error: that of the domain error.
    pub fn to_string(&self) -> (r: String)
        ensures
            r@ == crate::attachment::attachment_error_text(match *self {
                AttachmentModelError::Domain(e) => e,
            }),
    {
        match self {
            AttachmentModelError::Domain(e) => e.to_string(),
        }
    }
}

/// A stored attachment row.
#[derive(Clone, Debug, PartialEq, Eq)]
pub struct AttachmentModel {
    pub id: u128,
    pub message_id: u128,
    pub ciphertext: Vec<u8>,
    pub nonce: [u8; 12],
    pub salt: [u8; 16],
}

impl AttachmentModel {
    /// The attachment content this row records.
    pub open spec fn content(self) -> AttachmentView {
        AttachmentView {
            id: self.id,
            message_id: self.message_id,
            ciphertext: self.ciphertext@,
            nonce: self.nonce,
            salt: self.salt,
        }
    }

    /// What reading this row as an attachment yields.
    pub open spec fn to_attachment(self) -> Result<AttachmentView, AttachmentModelError> {
        if self.ciphertext@.len() == 0 {
            Err(AttachmentModelError::Domain(AttachmentError::EmptyCiphertext))
        } else {
            Ok(self.content())
        }
    }
}

impl From<Attachment> for AttachmentModel {
    fn from(attachment: Attachment) -> (r: Self)
        ensures
            r.content() == attachment@,
    {
        proof {
            Attachment::lemma_view(&attachment);
        }
        AttachmentModel {
            id: attachment.id,
            message_id: attachment.message_id,
            ciphertext: attachment.ciphertext,
            nonce: attachment.nonce,
            salt: attachment.salt,
        }
    }
}

impl FromSpecImpl<Attachment> for AttachmentModel {
    open spec fn obeys_from_spec() -> bool {
        true
    }

    closed spec fn from_spec(attachment: Attachment) -> AttachmentModel {
        AttachmentModel {
            id: attachment.id,
            message_id: attachment.message_id,
            ciphertext: attachment.ciphertext,
            nonce: attachment.nonce,
            salt: attachment.salt,
        }
    }
}

impl TryFrom<AttachmentModel> for Attachment {
    type Error = AttachmentModelError;

    fn try_from(value: AttachmentModel) -> (r: Result<Attachment, AttachmentModelError>)
        ensures
            crate::view_result(r) == value.to_attachment(),
    {
        if value.ciphertext.len() == 0 {
            return Err(AttachmentModelError::Domain(AttachmentError::EmptyCiphertext));
        }
        Ok(
            Attachment::assemble(
                value.id,
                value.message_id,
                value.ciphertext,
                value.nonce,
                value.salt,
            ),
        )
    }
}

impl TryFromSpecImpl<AttachmentModel> for Attachment {
    open spec fn obeys_try_from_spec() -> bool {
        true
    }

    closed spec fn try_from_spec(value: AttachmentModel) -> Result<Attachment, AttachmentModelError> {
        if value.ciphertext@.len() == 0 {
            Err(AttachmentModelError::Domain(AttachmentError::EmptyCiphertext))
        } else {
            Ok(
                Attachment {
                    id: value.id,
                    message_id: value.message_id,
                    ciphertext: value.ciphertext,
                    nonce: value.nonce,
                    salt: value.salt,
                },
            )
        }
    }
}

/// A stored row that holds only the metadata of a message.
#[derive(Clone, Copy, Debug, PartialEq, Eq, Structural)]
pub struct MessageMetadataModel {
    pub burn_on_read: bool,
}

impl Default for MessageMetadataModel {
    fn default() -> (r: Self)
        ensures
            r.burn_on_read == false,
    {
        MessageMetadataModel { burn_on_read: false }
    }
}

impl From<MessageMetadataModel> for MessageMetadata {
    fn from(value: MessageMetadataModel) -> (r: Self)
        ensures
            r.burn_on_read == value.burn_on_read,
    {
        MessageMetadata { burn_on_read: value.burn_on_read }
    }
}

impl FromSpecImpl<MessageMetadataModel> for MessageMetadata {
    open spec fn obeys_from_spec() -> bool {
        true
    }

    open spec fn from_spec(value: MessageMetadataModel) -> MessageMetadata {
        MessageMetadata { burn_on_read: value.burn_on_read }
    }
}

/// A stored message row read back as a message gives the message that was
/// stored: every message survives being written as a row and read again.
pub proof fn lemma_message_row_round_trip(row: MessageModel, message: MessageView)
    requires
        crate::message::message_valid(message),
        row.content() == message,
    ensures
        row.to_message() == Ok::<MessageView, MessageModelError>(message),
{
}

/// A stored attachment row read back as an attachment gives the attachment
/// that was stored.
pub proof fn lemma_attachment_row_round_trip(row: AttachmentModel, attachment: AttachmentView)
    requires
        crate::attachment::attachment_valid(attachment),
        row.content() == attachment,
    ensures
        row.to_attachment() == Ok::<AttachmentView, AttachmentModelError>(attachment),
{
}

/// A row that reads as a message is written back as the same row content.
pub proof fn lemma_row_message_round_trip(row: MessageModel, message: MessageView)
    requires
        row.to_message() == Ok::<MessageView, MessageModelError>(message),
    ensures
        row.content() == message,
{
}

/// A stored message row reads as the message with the row's fields, or is
/// refused: for an expiry not after the creation time, and otherwise for an
/// empty ciphertext.
pub proof fn lemma_message_row_reads_its_fields(row: MessageModel)
    ensures
        row.to_message() matches Ok(m) ==> {
            &&& m.id == row.id
            &&& m.created_at == row.created_at@
            &&& m.expires_at == row.expires_at@
            &&& m.burn_on_read == row.burn_on_read
            &&& m.ciphertext == row.ciphertext@
            &&& m.nonce == row.nonce
            &&& m.salt == row.salt
        },
        row.to_message() is Ok <==> later(row.expires_at@, row.created_at@) && row.ciphertext@.len()
            > 0,
        !later(row.expires_at@, row.created_at@) ==> row.to_message() == Err::<
            MessageView,
            MessageModelError,
        >(MessageModelError::Domain(MessageError::ExpiresAt)),
{
}

/// A stored attachment row reads as the attachment with the row's fields,
/// or is refused exactly when its ciphertext is empty.
pub proof fn lemma_attachment_row_reads_its_fields(row: AttachmentModel)
    ensures
        row.to_attachment() matches Ok(a) ==> {
            &&& a.id == row.id
            &&& a.message_id == row.message_id
            &&& a.ciphertext == row.ciphertext@
            &&& a.nonce == row.nonce
            &&& a.salt == row.salt
        },
        row.to_attachment() is Ok <==> row.ciphertext@.len() > 0,
{
}

} // verus!
