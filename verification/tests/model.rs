use sectxt::attachment::{Attachment, AttachmentError};
use sectxt::message::{Message, MessageError, MessageMetadata};
use sectxt::model::{AttachmentModel, AttachmentModelError, MessageMetadataModel, MessageModel, MessageModelError};
use sectxt::time::Timestamp;

const DAY: i64 = 86_400;

fn new_id() -> u128 {
    uuid::Uuid::now_v7().as_u128()
}

fn now() -> Timestamp {
    let time = chrono::Utc::now();
    Timestamp::from_parts(time.timestamp(), time.timestamp_subsec_nanos()).unwrap()
}

fn plus(t: Timestamp, secs: i64) -> Timestamp {
    t.checked_add_seconds(secs).unwrap()
}

#[test]
fn test_from_attachment() {
    let attachment = Attachment::builder()
        .id(new_id())
        .message_id(new_id())
        .ciphertext(vec![0; 128])
        .nonce([0; 12])
        .salt([0; 16])
        .build()
        .unwrap();

    let sut = AttachmentModel::from(attachment.clone());
    assert_eq!(sut.id, attachment.id());
    assert_eq!(sut.message_id, attachment.message_id());
    assert_eq!(sut.ciphertext, attachment.ciphertext());
    assert_eq!(sut.nonce, attachment.nonce());
    assert_eq!(sut.salt, attachment.salt());
}

#[test]
fn test_from_attachment_model() {
    let sut = AttachmentModel {
        id: new_id(),
        message_id: new_id(),
        ciphertext: vec![0; 128],
        nonce: [0; 12],
        salt: [0; 16],
    };

    let attachment = Attachment::try_from(sut.clone()).unwrap();
    assert_eq!(attachment.id(), sut.id);
    assert_eq!(attachment.message_id(), sut.message_id);
    assert_eq!(attachment.ciphertext(), sut.ciphertext);
    assert_eq!(attachment.nonce(), sut.nonce);
    assert_eq!(attachment.salt(), sut.salt);
}

#[test]
fn test_from() {
    let id = new_id();
    let message = Message::builder()
        .id(id)
        .burn_on_read(true)
        .ciphertext(vec![0; 128])
        .nonce([0; 12])
        .salt([0; 16])
        .build()
        .unwrap();

    let sut = MessageModel::from(message.clone());
    assert_eq!(sut.id, message.id());
    assert_eq!(sut.created_at, message.created_at());
    assert_eq!(sut.expires_at, message.expires_at());
    assert_eq!(sut.burn_on_read, message.burn_on_read());
    assert_eq!(sut.ciphertext, message.ciphertext());
    assert_eq!(sut.nonce, message.nonce());
    assert_eq!(sut.salt, message.salt());
}

#[test]
fn test_try_from() {
    let now = now();
    let sut = MessageModel {
        id: new_id(),
        created_at: now,
        expires_at: plus(now, 7 * DAY),
        burn_on_read: true,
        ciphertext: vec![0; 128],
        nonce: [0; 12],
        salt: [0; 16],
    };

    let message = Message::try_from(sut.clone()).unwrap();
    assert_eq!(message.id(), sut.id);
    assert_eq!(message.created_at(), sut.created_at);
    assert_eq!(message.expires_at(), sut.expires_at);
    assert_eq!(message.burn_on_read(), sut.burn_on_read);
    assert_eq!(message.ciphertext(), sut.ciphertext);
    assert_eq!(message.nonce(), sut.nonce);
    assert_eq!(message.salt(), sut.salt);
}

#[test]
fn test_try_from_invalid_expires_at() {
    let sut = MessageModel {
        id: new_id(),
        created_at: now(),
        expires_at: plus(now(), -DAY),
        burn_on_read: true,
        ciphertext: vec![0; 128],
        nonce: [0; 12],
        salt: [0; 16],
    };

    let result = Message::try_from(sut);
    assert!(matches!(result, Err(MessageModelError::Domain(MessageError::ExpiresAt))));
}

#[test]
fn message_row_round_trip() {
    let message = Message::builder()
        .burn_on_read(false)
        .ciphertext(vec![5, 6, 7])
        .nonce([1; 12])
        .salt([2; 16])
        .build()
        .unwrap();
    let back = Message::try_from(MessageModel::from(message.clone())).unwrap();
    assert_eq!(back, message);
}

#[test]
fn attachment_row_round_trip() {
    let attachment = Attachment::builder().message_id(3).ciphertext(vec![1]).nonce([0; 12]).salt([0; 16]).build().unwrap();
    let back = Attachment::try_from(AttachmentModel::from(attachment.clone())).unwrap();
    assert_eq!(back, attachment);
}

#[test]
fn message_row_with_empty_ciphertext_is_refused() {
    let now = now();
    let sut = MessageModel {
        id: 1,
        created_at: now,
        expires_at: plus(now, DAY),
        burn_on_read: false,
        ciphertext: vec![],
        nonce: [0; 12],
        salt: [0; 16],
    };
    let result = Message::try_from(sut);
    assert!(matches!(result, Err(MessageModelError::Domain(MessageError::EmptyCiphertext))));
    assert_eq!(MessageModelError::Domain(MessageError::EmptyCiphertext).to_string(), "ciphertext must not be empty");
}

#[test]
fn attachment_row_with_empty_ciphertext_is_refused() {
    let sut = AttachmentModel { id: 1, message_id: 2, ciphertext: vec![], nonce: [0; 12], salt: [0; 16] };
    let result = Attachment::try_from(sut);
    assert!(matches!(result, Err(AttachmentModelError::Domain(AttachmentError::EmptyCiphertext))));
    assert_eq!(AttachmentModelError::Domain(AttachmentError::EmptyCiphertext).to_string(), "ciphertext cannot be empty");
}

#[test]
fn metadata_row_default_and_conversion() {
    assert!(!MessageMetadataModel::default().burn_on_read);
    let m = MessageMetadata::from(MessageMetadataModel { burn_on_read: true });
    assert!(m.burn_on_read);
}
