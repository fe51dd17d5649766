//! Encrypted messages, how they are built, and what a read hands back.

use vstd::prelude::*;
use crate::attachment::Attachment;
use crate::id::{is_v7_uuid, new_v7_uuid};
use crate::time::{
    add_seconds, is_timestamp, later, Moment, Timestamp, NANOS_PER_SECOND, SECONDS_PER_DAY,
};

verus! {

/// How long a message lives when no expiry is given: seven days, in seconds.
pub const DEFAULT_LIFETIME_SECONDS: i64 = 7 * SECONDS_PER_DAY;

/// Why a message could not be built.
#[derive(Clone, Copy, Debug, PartialEq, Eq, Structural)]
pub enum MessageError {
    /// The expiry is not later than the creation time.
    ExpiresAt,
    /// The ciphertext holds no bytes.
    EmptyCiphertext,
}

/// The text that describes each message error.
pub open spec fn message_error_text(e: MessageError) -> Seq<char> {
    match e {
        MessageError::ExpiresAt => "expires_at must be greater than created_at"@,
        MessageError::EmptyCiphertext => "ciphertext must not be empty"@,
    }
}

impl MessageError {
    /// The human-readable text of this error.
    pub fn to_string(&self) -> (r: String)
        ensures
            r@ == message_error_text(*self),
    {
        match self {
            MessageError::ExpiresAt => "expires_at must be greater than created_at".to_owned(),
            MessageError::EmptyCiphertext => "ciphertext must not be empty".to_owned(),
        }
    }
}

/// The abstract content of a message.
pub struct MessageView {
    pub id: u128,
    pub created_at: Moment,
    pub expires_at: Moment,
    pub burn_on_read: bool,
    pub ciphertext: Seq<u8>,
    pub nonce: [u8; 12],
    pub salt: [u8; 16],
}

/// The conditions every message meets: it expires after it was created, and
/// its ciphertext is not empty.
pub open spec fn message_valid(m: MessageView) -> bool {
    &&& later(m.expires_at, m.created_at)
    &&& m.ciphertext.len() > 0
    &&& is_timestamp(m.created_at)
    &&& is_timestamp(m.expires_at)
}

/// An encrypted message.
#[derive(Debug, PartialEq, Eq)]
pub struct Message {
    pub(crate) id: u128,
    pub(crate) created_at: Timestamp,
    pub(crate) expires_at: Timestamp,
    pub(crate) burn_on_read: bool,
    pub(crate) ciphertext: Vec<u8>,
    pub(crate) nonce: [u8; 12],
    pub(crate) salt: [u8; 16],
}

impl View for Message {
    type V = MessageView;

    closed spec fn view(&self) -> MessageView {
        MessageView {
            id: self.id,
            created_at: self.created_at@,
            expires_at: self.expires_at@,
            burn_on_read: self.burn_on_read,
            ciphertext: self.ciphertext@,
            nonce: self.nonce,
            salt: self.salt,
        }
    }
}

impl Clone for Message {
    fn clone(&self) -> (r: Self)
        ensures
            r@ == self@,
    {
        proof {
            use_type_invariant(self);
        }
        Message {
            id: self.id,
            created_at: self.created_at,
            expires_at: self.expires_at,
            burn_on_read: self.burn_on_read,
            ciphertext: self.ciphertext.clone(),
            nonce: self.nonce,
            salt: self.salt,
        }
    }
}

impl Message {
    #[verifier::type_invariant]
    spec fn inv(self) -> bool {
        message_valid(self@)
    }

    /// How the view of a message is made of its fields.
    pub(crate) proof fn lemma_view(m: &Message)
        ensures
            m@ == (MessageView {
                id: m.id,
                created_at: m.created_at@,
                expires_at: m.expires_at@,
                burn_on_read: m.burn_on_read,
                ciphertext: m.ciphertext@,
                nonce: m.nonce,
                salt: m.salt,
            }),
    {
    }

    /// Assembles a message from fields already known to be valid.
    pub(crate) fn assemble(
        id: u128,
        created_at: Timestamp,
        expires_at: Timestamp,
        burn_on_read: bool,
        ciphertext: Vec<u8>,
        nonce: [u8; 12],
        salt: [u8; 16],
    ) -> (r: Message)
        requires
            later(expires_at@, created_at@),
            ciphertext@.len() > 0,
        ensures
            r == (Message { id, created_at, expires_at, burn_on_read, ciphertext, nonce, salt }),
            r@ == (MessageView {
                id,
                created_at: created_at@,
                expires_at: expires_at@,
                burn_on_read,
                ciphertext: ciphertext@,
                nonce,
                salt,
            }),
    {
        proof {
            use_type_invariant(&created_at);
            use_type_invariant(&expires_at);
        }
        Message { id, created_at, expires_at, burn_on_read, ciphertext, nonce, salt }
    }

    /// A builder with no field set yet.
    pub fn builder() -> (r: RawMessageBuilder)
        ensures
            r == RawMessageBuilder::empty(),
    {
        RawMessageBuilder {
            id: None,
            created_at: None,
            expires_at: None,
            burn_on_read: None,
            ciphertext: None,
            nonce: None,
            salt: None,
        }
    }

    pub fn id(&self) -> (r: u128)
        ensures
            r == self@.id,
    {
        self.id
    }

    pub fn created_at(&self) -> (r: Timestamp)
        ensures
            r@ == self@.created_at,
            message_valid(self@),
    {
        proof {
            use_type_invariant(self);
        }
        self.created_at
    }

    pub fn expires_at(&self) -> (r: Timestamp)
        ensures
            r@ == self@.expires_at,
            message_valid(self@),
    {
        proof {
            use_type_invariant(self);
        }
        self.expires_at
    }

    pub fn burn_on_read(&self) -> (r: bool)
        ensures
            r == self@.burn_on_read,
    {
        self.burn_on_read
    }

    pub fn ciphertext(&self) -> (r: &[u8])
        ensures
            r@ == self@.ciphertext,
            message_valid(self@),
    {
        proof {
            use_type_invariant(self);
        }
        self.ciphertext.as_slice()
    }

    pub fn nonce(&self) -> (r: [u8; 12])
        ensures
            r == self@.nonce,
    {
        self.nonce
    }

    pub fn salt(&self) -> (r: [u8; 16])
        ensures
            r == self@.salt,
    {
        self.salt
    }
}

/// A message together with the attachments that belong to it.
#[derive(Clone, Debug, PartialEq, Eq)]
pub struct MessageWithAttachments {
    pub message: Message,
    pub attachments: Vec<Attachment>,
}

/// What can be read of a message without consuming it.
#[derive(Clone, Copy, Debug, PartialEq, Eq, Structural)]
pub struct MessageMetadata {
    pub burn_on_read: bool,
}

/// The fields a message is built from; all but the content may be left for
/// the builder to fill in.
pub struct RawMessage {
    pub id: Option<u128>,
    pub created_at: Option<Timestamp>,
    pub expires_at: Option<Timestamp>,
    pub burn_on_read: Option<bool>,
    pub ciphertext: Vec<u8>,
    pub nonce: [u8; 12],
    pub salt: [u8; 16],
}

impl RawMessage {
    /// The creation time the message gets, where `now` is the clock reading.
    pub open spec fn creation(self, now: Moment) -> Moment {
        match self.created_at {
            Some(t) => t@,
            None => now,
        }
    }

    /// The expiry the message gets, where `now` is the clock reading: seven
    /// days after creation unless given.
    pub open spec fn expiry(self, now: Moment) -> Moment {
        match self.expires_at {
            Some(t) => t@,
            None => add_seconds(self.creation(now), DEFAULT_LIFETIME_SECONDS as int),
        }
    }

    /// Whether the defaults can be filled in: a default expiry must be a
    /// representable instant.
    pub open spec fn defaults_representable(self, now: Moment) -> bool {
        self.expires_at is None ==> is_timestamp(add_seconds(self.creation(now), DEFAULT_LIFETIME_SECONDS as int))
    }

    /// What building yields, where `fresh_id` is the identifier generated for
    /// a message whose `id` is not given and `now` is the clock reading.
    pub open spec fn built(self, fresh_id: u128, now: Moment) -> Result<MessageView, MessageError> {
        if !later(self.expiry(now), self.creation(now)) {
            Err(MessageError::ExpiresAt)
        } else if self.ciphertext@.len() == 0 {
            Err(MessageError::EmptyCiphertext)
        } else {
            Ok(
                MessageView {
                    id: match self.id {
                        Some(id) => id,
                        None => fresh_id,
                    },
                    created_at: self.creation(now),
                    expires_at: self.expiry(now),
                    burn_on_read: match self.burn_on_read {
                        Some(b) => b,
                        None => false,
                    },
                    ciphertext: self.ciphertext@,
                    nonce: self.nonce,
                    salt: self.salt,
                },
            )
        }
    }

    /// Fills in the defaults and checks the fields: `fresh_id` is the
    /// identifier where none is given, and `now` the creation time where none
    /// is given.
    pub fn build_with(self, fresh_id: u128, now: Timestamp) -> (r: Result<Message, MessageError>)
        requires
            self.defaults_representable(now@),
        ensures
            crate::view_result(r) == self.built(fresh_id, now@),
    {
        let id: u128 = match self.id {
            Some(id) => id,
            None => fresh_id,
        };
        let created_at: Timestamp = match self.created_at {
            Some(t) => t,
            None => now,
        };
        let expires_at: Timestamp = match self.expires_at {
            Some(t) => t,
            None => created_at.checked_add_seconds(DEFAULT_LIFETIME_SECONDS).unwrap(),
        };
        let burn_on_read: bool = match self.burn_on_read {
            Some(b) => b,
            None => false,
        };
        if !expires_at.is_after(&created_at) {
            return Err(MessageError::ExpiresAt);
        }
        if self.ciphertext.len() == 0 {
            return Err(MessageError::EmptyCiphertext);
        }
        proof {
            use_type_invariant(&created_at);
            use_type_invariant(&expires_at);
        }
        Ok(
            Message {
                id,
                created_at,
                expires_at,
                burn_on_read,
                ciphertext: self.ciphertext,
                nonce: self.nonce,
                salt: self.salt,
            },
        )
    }
}

/// Building keeps every field that was given and fills in the documented
/// defaults for the others: the fresh identifier, the clock reading `now` as
/// the creation time, an expiry seven days (604800 seconds) after creation,
/// and no burning on read; the ciphertext, nonce and salt are kept as given.
/// It is refused exactly when the expiry is not after the creation time, and
/// otherwise, for an empty ciphertext.
pub proof fn lemma_built_keeps_given_fields(raw: RawMessage, fresh_id: u128, now: Moment)
    ensures
        raw.built(fresh_id, now) matches Ok(m) ==> {
            &&& raw.id matches Some(i) ==> m.id == i
            &&& raw.id is None ==> m.id == fresh_id
            &&& raw.created_at matches Some(c) ==> m.created_at == c@
            &&& raw.created_at is None ==> m.created_at == now
            &&& raw.expires_at matches Some(e) ==> m.expires_at == e@
            &&& raw.expires_at is None ==> m.expires_at == add_seconds(m.created_at, 604800)
            &&& raw.burn_on_read matches Some(b) ==> m.burn_on_read == b
            &&& raw.burn_on_read is None ==> !m.burn_on_read
            &&& m.ciphertext == raw.ciphertext@
            &&& m.nonce == raw.nonce
            &&& m.salt == raw.salt
            &&& later(m.expires_at, m.created_at)
        },
        raw.built(fresh_id, now) is Err ==> {
            let created = match raw.created_at {
                Some(c) => c@,
                None => now,
            };
            let expires = match raw.expires_at {
                Some(e) => e@,
                None => add_seconds(created, 604800),
            };
            ||| !later(expires, created) && raw.built(fresh_id, now) == Err::<
                MessageView,
                MessageError,
            >(MessageError::ExpiresAt)
            ||| later(expires, created) && raw.ciphertext@.len() == 0 && raw.built(fresh_id, now)
                == Err::<MessageView, MessageError>(MessageError::EmptyCiphertext)
        },
        raw.ciphertext@.len() > 0 && raw.created_at is None && raw.expires_at is None ==> raw.built(
            fresh_id,
            now,
        ) is Ok,
{
}

/// Building from the builder keeps what was set on it: an identifier, times
/// or burn-on-read flag that was set is the message's, and the ciphertext,
/// nonce and salt are those set.
pub proof fn lemma_builder_keeps_set_fields(b: RawMessageBuilder, fresh_id: u128, now: Moment)
    requires
        b.is_complete(),
    ensures
        b.raw().built(fresh_id, now) matches Ok(m) ==> {
            &&& b.id matches Some(i) ==> m.id == i
            &&& b.created_at matches Some(c) ==> m.created_at == c@
            &&& b.expires_at matches Some(e) ==> m.expires_at == e@
            &&& b.burn_on_read matches Some(x) ==> m.burn_on_read == x
            &&& m.ciphertext == b.ciphertext.unwrap()@
            &&& m.nonce == b.nonce.unwrap()
            &&& m.salt == b.salt.unwrap()
        },
{
    lemma_built_keeps_given_fields(b.raw(), fresh_id, now);
}

/// Collects the fields of a message one by one.
pub struct RawMessageBuilder {
    pub id: Option<u128>,
    pub created_at: Option<Timestamp>,
    pub expires_at: Option<Timestamp>,
    pub burn_on_read: Option<bool>,
    pub ciphertext: Option<Vec<u8>>,
    pub nonce: Option<[u8; 12]>,
    pub salt: Option<[u8; 16]>,
}

impl RawMessageBuilder {
    pub open spec fn empty() -> RawMessageBuilder {
        RawMessageBuilder {
            id: None,
            created_at: None,
            expires_at: None,
            burn_on_read: None,
            ciphertext: None,
            nonce: None,
            salt: None,
        }
    }

    /// Whether every field without a default has been set.
    pub open spec fn is_complete(self) -> bool {
        &&& self.ciphertext is Some
        &&& self.nonce is Some
        &&& self.salt is Some
    }

    /// The fields collected so far, as the raw message.
    pub open spec fn raw(self) -> RawMessage {
        RawMessage {
            id: self.id,
            created_at: self.created_at,
            expires_at: self.expires_at,
            burn_on_read: self.burn_on_read,
            ciphertext: self.ciphertext.unwrap(),
            nonce: self.nonce.unwrap(),
            salt: self.salt.unwrap(),
        }
    }

    pub fn id(self, id: u128) -> (r: Self)
        ensures
            r == (RawMessageBuilder { id: Some(id), ..self }),
    {
        RawMessageBuilder { id: Some(id), ..self }
    }

    pub fn maybe_id(self, id: Option<u128>) -> (r: Self)
        ensures
            r == (RawMessageBuilder { id, ..self }),
    {
        RawMessageBuilder { id, ..self }
    }

    pub fn created_at(self, created_at: Timestamp) -> (r: Self)
        ensures
            r == (RawMessageBuilder { created_at: Some(created_at), ..self }),
    {
        RawMessageBuilder { created_at: Some(created_at), ..self }
    }

    pub fn maybe_created_at(self, created_at: Option<Timestamp>) -> (r: Self)
        ensures
            r == (RawMessageBuilder { created_at, ..self }),
    {
        RawMessageBuilder { created_at, ..self }
    }

    pub fn expires_at(self, expires_at: Timestamp) -> (r: Self)
        ensures
            r == (RawMessageBuilder { expires_at: Some(expires_at), ..self }),
    {
        RawMessageBuilder { expires_at: Some(expires_at), ..self }
    }

    pub fn maybe_expires_at(self, expires_at: Option<Timestamp>) -> (r: Self)
        ensures
            r == (RawMessageBuilder { expires_at, ..self }),
    {
        RawMessageBuilder { expires_at, ..self }
    }

    pub fn burn_on_read(self, burn_on_read: bool) -> (r: Self)
        ensures
            r == (RawMessageBuilder { burn_on_read: Some(burn_on_read), ..self }),
    {
        RawMessageBuilder { burn_on_read: Some(burn_on_read), ..self }
    }

    pub fn maybe_burn_on_read(self, burn_on_read: Option<bool>) -> (r: Self)
        ensures
            r == (RawMessageBuilder { burn_on_read, ..self }),
    {
        RawMessageBuilder { burn_on_read, ..self }
    }

    pub fn ciphertext(self, ciphertext: Vec<u8>) -> (r: Self)
        ensures
            r == (RawMessageBuilder { ciphertext: Some(ciphertext), ..self }),
    {
        RawMessageBuilder { ciphertext: Some(ciphertext), ..self }
    }

    pub fn nonce(self, nonce: [u8; 12]) -> (r: Self)
        ensures
            r == (RawMessageBuilder { nonce: Some(nonce), ..self }),
    {
        RawMessageBuilder { nonce: Some(nonce), ..self }
    }

    pub fn salt(self, salt: [u8; 16]) -> (r: Self)
        ensures
            r == (RawMessageBuilder { salt: Some(salt), ..self }),
    {
        RawMessageBuilder { salt: Some(salt), ..self }
    }

    /// The collected fields, unchecked.
    pub fn build_raw(self) -> (r: RawMessage)
        requires
            self.is_complete(),
        ensures
            r == self.raw(),
    {
        RawMessage {
            id: self.id,
            created_at: self.created_at,
            expires_at: self.expires_at,
            burn_on_read: self.burn_on_read,
            ciphertext: self.ciphertext.unwrap(),
            nonce: self.nonce.unwrap(),
            salt: self.salt.unwrap(),
        }
    }

    /// Fills in the defaults, checks the fields and makes the message. Where
    /// no `id` was set a fresh version 7 UUID is generated; where no creation
    /// time was set the clock is read; where no expiry was set it is seven
    /// days after creation. Where that default expiry falls outside the
    /// representable range for a clock reading, the result is
    /// `Err(MessageError::ExpiresAt)`.
    pub fn build(self) -> (r: Result<Message, MessageError>)
        requires
            self.is_complete(),
            self.created_at matches Some(c) ==> self.raw().defaults_representable(c@),
        ensures
            exists|fresh_id: u128, now: Moment|
                #![trigger self.raw().built(fresh_id, now)]
                {
                    &&& self.id is None ==> is_v7_uuid(fresh_id)
                    &&& self.created_at is None ==> 0 <= now.secs && now.nanos < NANOS_PER_SECOND
                    &&& if self.raw().defaults_representable(now) {
                        crate::view_result(r) == self.raw().built(fresh_id, now)
                    } else {
                        r == Err::<Message, MessageError>(MessageError::ExpiresAt)
                    }
                },
    {
        let raw = self.build_raw();
        let fresh_id: u128 = match raw.id {
            Some(id) => id,
            None => new_v7_uuid(),
        };
        let now: Timestamp = match raw.created_at {
            Some(t) => t,
            None => Timestamp::now(),
        };
        if raw.expires_at.is_none() && raw.created_at.is_none() {
            if now.checked_add_seconds(DEFAULT_LIFETIME_SECONDS).is_none() {
                let r: Result<Message, MessageError> = Err(MessageError::ExpiresAt);
                proof {
                    assert({
                        &&& self.id is None ==> is_v7_uuid(fresh_id)
                        &&& self.created_at is None ==> 0 <= now@.secs && now@.nanos < NANOS_PER_SECOND
                        &&& if self.raw().defaults_representable(now@) {
                            crate::view_result(r) == self.raw().built(fresh_id, now@)
                        } else {
                            r == Err::<Message, MessageError>(MessageError::ExpiresAt)
                        }
                    });
                }
                return r;
            }
        }
        let r: Result<Message, MessageError> = raw.build_with(fresh_id, now);
        proof {
            assert({
                &&& self.id is None ==> is_v7_uuid(fresh_id)
                &&& self.created_at is None ==> 0 <= now@.secs && now@.nanos < NANOS_PER_SECOND
                &&& if self.raw().defaults_representable(now@) {
                    crate::view_result(r) == self.raw().built(fresh_id, now@)
                } else {
                    r == Err::<Message, MessageError>(MessageError::ExpiresAt)
                }
            });
        }
        r
    }
}

} // verus!
