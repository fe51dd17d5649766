use sectxt::consume::{Consume, ConsumeAction, ConsumeEvent, ConsumeStage};
use sectxt::message::Message;
use sectxt::model::{AttachmentModel, MessageMetadataModel, MessageModel};
use sectxt::repo::{attachments_from_rows, message_from_row, metadata_from_row, MessageRepoError};

fn stored(burn_on_read: bool) -> MessageModel {
    MessageModel::from(
        Message::builder()
            .burn_on_read(burn_on_read)
            .ciphertext(vec![0; 32])
            .nonce([0; 12])
            .salt([0; 16])
            .build()
            .unwrap(),
    )
}

fn attachment_row(message_id: u128, ciphertext: Vec<u8>) -> AttachmentModel {
    AttachmentModel { id: uuid::Uuid::now_v7().as_u128(), message_id, ciphertext, nonce: [0; 12], salt: [0; 16] }
}

fn step(c: Consume, e: ConsumeEvent) -> (Consume, ConsumeAction) {
    c.step(e)
}

#[test]
fn test_consume() {
    let row = stored(false);
    let id = row.id;
    let (c, a) = Consume::new(id);
    assert!(matches!(a, ConsumeAction::OpenTransaction));
    let (c, a) = step(c, ConsumeEvent::TransactionOpened);
    assert!(matches!(a, ConsumeAction::FetchMessage(x) if x == id));
    let (c, a) = step(c, ConsumeEvent::MessageRow(Some(row)));
    assert!(matches!(a, ConsumeAction::FetchAttachments(x) if x == id));
    let (c, a) = step(c, ConsumeEvent::AttachmentRows(vec![]));
    assert!(matches!(a, ConsumeAction::Commit));
    let (c, a) = step(c, ConsumeEvent::Committed);
    assert_eq!(c.stage(), ConsumeStage::Finished);
    match a {
        ConsumeAction::Finish(Ok(Some(found))) => {
            assert_eq!(found.message.ciphertext(), vec![0; 32].as_slice());
            assert_eq!(found.message.nonce(), [0; 12]);
            assert_eq!(found.message.salt(), [0; 16]);
            assert_eq!(found.attachments.len(), 0);
        },
        _ => panic!("expected the message"),
    }
}

#[test]
fn test_consume_attachments() {
    let row = stored(true);
    let id = row.id;
    let (c, _) = Consume::new(id);
    let (c, _) = step(c, ConsumeEvent::TransactionOpened);
    let (c, _) = step(c, ConsumeEvent::MessageRow(Some(row)));
    let rows = vec![attachment_row(id, vec![0; 128]), attachment_row(id, vec![0; 128])];
    let (c, a) = step(c, ConsumeEvent::AttachmentRows(rows));
    assert!(matches!(a, ConsumeAction::DeleteMessage(x) if x == id));
    let (c, a) = step(c, ConsumeEvent::MessageDeleted);
    assert!(matches!(a, ConsumeAction::Commit));
    let (_, a) = step(c, ConsumeEvent::Committed);
    match a {
        ConsumeAction::Finish(Ok(Some(found))) => {
            assert_eq!(found.message.ciphertext(), vec![0; 32].as_slice());
            assert_eq!(found.attachments.len(), 2);
        },
        _ => panic!("expected the message"),
    }
}

#[test]
fn test_consume_burnt() {
    let row = stored(true);
    let id = row.id;
    let (c, _) = Consume::new(id);
    let (c, _) = step(c, ConsumeEvent::TransactionOpened);
    let (c, _) = step(c, ConsumeEvent::MessageRow(Some(row)));
    let (_, a) = step(c, ConsumeEvent::AttachmentRows(vec![]));
    assert!(matches!(a, ConsumeAction::DeleteMessage(x) if x == id));
}

#[test]
fn test_consume_expired() {
    let (c, _) = Consume::new(5);
    let (c, _) = step(c, ConsumeEvent::TransactionOpened);
    let (c, a) = step(c, ConsumeEvent::MessageRow(None));
    assert!(matches!(a, ConsumeAction::Finish(Ok(None))));
    assert_eq!(c.stage(), ConsumeStage::Finished);
}

#[test]
fn consume_database_failure_finishes() {
    let (c, _) = Consume::new(5);
    let (c, a) = step(c, ConsumeEvent::DatabaseFailed("connection lost".to_owned()));
    assert_eq!(c.stage(), ConsumeStage::Finished);
    match a {
        ConsumeAction::Finish(Err(MessageRepoError::Database(text))) => assert_eq!(text, "connection lost"),
        _ => panic!("expected a database error"),
    }
}

#[test]
fn consume_invalid_row_is_a_database_error() {
    let mut row = stored(false);
    row.expires_at = row.created_at;
    let id = row.id;
    let (c, _) = Consume::new(id);
    let (c, _) = step(c, ConsumeEvent::TransactionOpened);
    let (_, a) = step(c, ConsumeEvent::MessageRow(Some(row)));
    match a {
        ConsumeAction::Finish(Err(MessageRepoError::Database(text))) => {
            assert_eq!(text, "expires_at must be greater than created_at")
        },
        _ => panic!("expected a database error"),
    }
}

#[test]
fn unreadable_attachment_rows_are_left_out() {
    let rows = vec![attachment_row(1, vec![1]), attachment_row(1, vec![]), attachment_row(1, vec![3])];
    let ids = (rows[0].id, rows[2].id);
    let out = attachments_from_rows(rows);
    assert_eq!(out.len(), 2);
    assert_eq!(out[0].id(), ids.0);
    assert_eq!(out[1].id(), ids.1);
    assert_eq!(out[1].ciphertext(), &[3]);
}

#[test]
fn message_rows_read_back() {
    assert!(matches!(message_from_row(None), Ok(None)));
    let row = stored(true);
    let id = row.id;
    match message_from_row(Some(row)) {
        Ok(Some(m)) => {
            assert_eq!(m.id(), id);
            assert!(m.burn_on_read());
        },
        _ => panic!("expected the message"),
    }
}

#[test]
fn repo_test_get_metadata() {
    assert!(metadata_from_row(Some(MessageMetadataModel { burn_on_read: true })).burn_on_read);
    assert!(!metadata_from_row(Some(MessageMetadataModel { burn_on_read: false })).burn_on_read);
    assert!(!metadata_from_row(None).burn_on_read);
}

#[test]
fn repo_error_text() {
    assert_eq!(MessageRepoError::Database("a".to_owned()).to_string(), "a");
    assert_eq!(MessageRepoError::Model("b".to_owned()).to_string(), "b");
}
