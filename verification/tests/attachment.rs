use sectxt::attachment::{Attachment, AttachmentError, RawAttachment};

fn create_attachment(message_id: u128) -> Attachment {
    Attachment::builder()
        .message_id(message_id)
        .ciphertext(vec![0; 128])
        .nonce([0; 12])
        .salt([0; 16])
        .build()
        .unwrap()
}

#[test]
fn attachment_test_builder() {
    let message_id = uuid::Uuid::now_v7().as_u128();
    let sut = create_attachment(message_id);
    assert!(sut.id() != 0);
    assert_eq!(sut.message_id(), message_id);
    assert_eq!(sut.ciphertext(), vec![0; 128].as_slice());
    assert_eq!(sut.nonce(), [0; 12]);
    assert_eq!(sut.salt(), [0; 16]);
}

#[test]
fn attachment_test_empty_ciphertext() {
    let sut = Attachment::builder()
        .message_id(uuid::Uuid::now_v7().as_u128())
        .ciphertext(vec![])
        .nonce([0; 12])
        .salt([0; 16])
        .build();

    assert!(matches!(sut, Err(AttachmentError::EmptyCiphertext)));
}

#[test]
fn attachment_builder_generates_version_7_id() {
    let sut = create_attachment(42);
    let id = uuid::Uuid::from_u128(sut.id());
    assert_eq!(id.get_version_num(), 7);
    assert_eq!(id.get_variant(), uuid::Variant::RFC4122);
}

#[test]
fn attachment_builder_keeps_given_id() {
    let sut = Attachment::builder()
        .id(7)
        .message_id(9)
        .ciphertext(vec![1, 2, 3])
        .nonce([4; 12])
        .salt([5; 16])
        .build()
        .unwrap();
    assert_eq!(sut.id(), 7);
    assert_eq!(sut.message_id(), 9);
    assert_eq!(sut.ciphertext(), &[1, 2, 3]);
    assert_eq!(sut.nonce(), [4; 12]);
    assert_eq!(sut.salt(), [5; 16]);
}

#[test]
fn attachment_build_with_id_uses_fresh_id_only_when_none_given() {
    let raw = RawAttachment { id: None, message_id: 1, ciphertext: vec![9], nonce: [0; 12], salt: [0; 16] };
    assert_eq!(raw.build_with_id(55).unwrap().id(), 55);
    let raw = RawAttachment { id: Some(3), message_id: 1, ciphertext: vec![9], nonce: [0; 12], salt: [0; 16] };
    assert_eq!(raw.build_with_id(55).unwrap().id(), 3);
    let raw = RawAttachment { id: Some(3), message_id: 1, ciphertext: vec![], nonce: [0; 12], salt: [0; 16] };
    assert!(matches!(raw.build_with_id(55), Err(AttachmentError::EmptyCiphertext)));
}

#[test]
fn attachment_error_text() {
    assert_eq!(AttachmentError::EmptyCiphertext.to_string(), "ciphertext cannot be empty");
}

#[test]
fn attachment_clone_is_equal() {
    let a = create_attachment(1);
    let b = a.clone();
    assert_eq!(a, b);
}
