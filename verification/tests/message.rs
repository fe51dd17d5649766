use sectxt::message::{Message, MessageError, RawMessage, DEFAULT_LIFETIME_SECONDS};
use sectxt::time::Timestamp;

const DAY: i64 = 86_400;

fn ts(time: chrono::DateTime<chrono::Utc>) -> Timestamp {
    Timestamp::from_parts(time.timestamp(), time.timestamp_subsec_nanos()).unwrap()
}

fn now() -> Timestamp {
    ts(chrono::Utc::now())
}

fn plus(t: Timestamp, secs: i64) -> Timestamp {
    t.checked_add_seconds(secs).unwrap()
}

#[test]
fn message_test_builder() {
    let time = now();
    let sut = Message::builder()
        .created_at(time)
        .expires_at(plus(time, 7 * DAY))
        .burn_on_read(true)
        .ciphertext(vec![0; 128])
        .nonce([0; 12])
        .salt([0; 16])
        .build()
        .unwrap();

    assert_eq!(sut.created_at(), time);
    assert_eq!(sut.expires_at(), plus(time, 7 * DAY));
    assert!(sut.burn_on_read());
    assert_eq!(sut.salt(), [0; 16]);
    assert_eq!(sut.nonce(), [0; 12]);
    assert_eq!(sut.ciphertext(), vec![0; 128].as_slice());

    let time = plus(now(), -7 * DAY);
    let sut = Message::builder()
        .created_at(time)
        .ciphertext(vec![0; 128])
        .nonce([0; 12])
        .salt([0; 16])
        .build()
        .unwrap();

    assert_eq!(sut.created_at(), time);
    assert_eq!(sut.expires_at(), plus(time, 7 * DAY));
    assert!(!sut.burn_on_read());
    assert_eq!(sut.salt(), [0; 16]);
    assert_eq!(sut.nonce(), [0; 12]);
    assert_eq!(sut.ciphertext(), vec![0; 128].as_slice());
}

#[test]
fn test_invalid_expires_at() {
    let sut = Message::builder()
        .created_at(now())
        .expires_at(plus(now(), -DAY))
        .burn_on_read(true)
        .ciphertext(vec![0; 128])
        .nonce([0; 12])
        .salt([0; 16])
        .build();

    assert!(matches!(sut, Err(MessageError::ExpiresAt)));
}

#[test]
fn message_test_empty_ciphertext() {
    let sut = Message::builder()
        .created_at(now())
        .expires_at(plus(now(), 7 * DAY))
        .burn_on_read(true)
        .ciphertext(vec![])
        .nonce([0; 12])
        .salt([0; 16])
        .build();

    assert!(matches!(sut, Err(MessageError::EmptyCiphertext)));
}

#[test]
fn message_builder_defaults() {
    let before = now();
    let sut = Message::builder().ciphertext(vec![1]).nonce([2; 12]).salt([3; 16]).build().unwrap();
    let after = now();
    assert!(!before.is_after(&sut.created_at()) && !sut.created_at().is_after(&after));
    assert_eq!(sut.expires_at(), plus(sut.created_at(), DEFAULT_LIFETIME_SECONDS));
    assert_eq!(sut.expires_at().subsec_nanos(), sut.created_at().subsec_nanos());
    assert!(!sut.burn_on_read());
    let id = uuid::Uuid::from_u128(sut.id());
    assert_eq!(id.get_version_num(), 7);
}

#[test]
fn message_expiry_equal_to_creation_is_refused() {
    let t = now();
    let sut = Message::builder().created_at(t).expires_at(t).ciphertext(vec![1]).nonce([0; 12]).salt([0; 16]).build();
    assert!(matches!(sut, Err(MessageError::ExpiresAt)));
}

#[test]
fn message_expiry_is_checked_before_ciphertext() {
    let t = now();
    let sut = Message::builder().created_at(t).expires_at(t).ciphertext(vec![]).nonce([0; 12]).salt([0; 16]).build();
    assert!(matches!(sut, Err(MessageError::ExpiresAt)));
}

#[test]
fn message_build_with_fills_defaults_exactly() {
    let t = Timestamp::from_parts(1_000, 17).unwrap();
    let raw = RawMessage {
        id: None,
        created_at: None,
        expires_at: None,
        burn_on_read: None,
        ciphertext: vec![1, 2],
        nonce: [7; 12],
        salt: [8; 16],
    };
    let m = raw.build_with(99, t).unwrap();
    assert_eq!(m.id(), 99);
    assert_eq!((m.created_at().secs(), m.created_at().subsec_nanos()), (1_000, 17));
    assert_eq!((m.expires_at().secs(), m.expires_at().subsec_nanos()), (1_000 + 604_800, 17));
    assert!(!m.burn_on_read());
    assert_eq!(m.ciphertext(), &[1, 2]);
}

#[test]
fn message_error_texts() {
    assert_eq!(MessageError::ExpiresAt.to_string(), "expires_at must be greater than created_at");
    assert_eq!(MessageError::EmptyCiphertext.to_string(), "ciphertext must not be empty");
}

#[test]
fn message_keeps_nanosecond_precision() {
    let created = Timestamp::from_parts(100, 5).unwrap();
    let expires = Timestamp::from_parts(100, 6).unwrap();
    let m = Message::builder().created_at(created).expires_at(expires).ciphertext(vec![1]).nonce([0; 12]).salt([0; 16]).build().unwrap();
    assert_eq!(m.created_at().subsec_nanos(), 5);
    assert_eq!(m.expires_at().subsec_nanos(), 6);
    let refused = Message::builder().created_at(expires).expires_at(created).ciphertext(vec![1]).nonce([0; 12]).salt([0; 16]).build();
    assert!(matches!(refused, Err(MessageError::ExpiresAt)));
}

#[test]
fn message_accepts_leap_second_times() {
    let leap = Timestamp::from_parts(59, 1_250_000_000).unwrap();
    let m = Message::builder().created_at(leap).ciphertext(vec![1]).nonce([0; 12]).salt([0; 16]).build().unwrap();
    assert_eq!((m.created_at().secs(), m.created_at().subsec_nanos()), (59, 1_250_000_000));
    assert_eq!((m.expires_at().secs(), m.expires_at().subsec_nanos()), (59 + 604_800, 250_000_000));
    let just_before = Timestamp::from_parts(59, 999_999_999).unwrap();
    let after_leap = Message::builder().created_at(just_before).expires_at(leap).ciphertext(vec![1]).nonce([0; 12]).salt([0; 16]).build();
    assert!(after_leap.is_ok());
    let before_leap = Message::builder().created_at(leap).expires_at(just_before).ciphertext(vec![1]).nonce([0; 12]).salt([0; 16]).build();
    assert!(matches!(before_leap, Err(MessageError::ExpiresAt)));
}
