//! Encrypted attachments of a message, and how they are built.

use vstd::prelude::*;
use crate::id::{is_v7_uuid, lemma_some_v7_uuid, new_v7_uuid};

verus! {

/// Why an attachment could not be built.
#[derive(Clone, Copy, Debug, PartialEq, Eq, Structural)]
pub enum AttachmentError {
    /// The ciphertext holds no bytes.
    EmptyCiphertext,
}

impl AttachmentError {
    /// The human-readable text of this error.
    pub fn to_string(&self) -> (r: String)
        ensures
            r@ == attachment_error_text(*self),
    {
        match self {
            AttachmentError::EmptyCiphertext => "ciphertext cannot be empty".to_owned(),
        }
    }
}

/// The text that describes each attachment error.
pub open spec fn attachment_error_text(e: AttachmentError) -> Seq<char> {
    match e {
        AttachmentError::EmptyCiphertext => "ciphertext cannot be empty"@,
    }
}

/// The abstract content of an attachment.
pub struct AttachmentView {
    pub id: u128,
    pub message_id: u128,
    pub ciphertext: Seq<u8>,
    pub nonce: [u8; 12],
    pub salt: [u8; 16],
}

/// An encrypted attachment that belongs to a message. Its ciphertext is never
/// empty.
#[derive(Debug, PartialEq, Eq)]
pub struct Attachment {
    pub(crate) id: u128,
    pub(crate) message_id: u128,
    pub(crate) ciphertext: Vec<u8>,
    pub(crate) nonce: [u8; 12],
    pub(crate) salt: [u8; 16],
}

impl View for Attachment {
    type V = AttachmentView;

    closed spec fn view(&self) -> AttachmentView {
        AttachmentView {
            id: self.id,
            message_id: self.message_id,
            ciphertext: self.ciphertext@,
            nonce: self.nonce,
            salt: self.salt,
        }
    }
}

/// The views of a sequence of attachments.
pub open spec fn attachment_views(s: Seq<Attachment>) -> Seq<AttachmentView> {
    s.map_values(|a: Attachment| a@)
}

/// The conditions every attachment meets.
pub open spec fn attachment_valid(a: AttachmentView) -> bool {
    a.ciphertext.len() > 0
}

impl Clone for Attachment {
    fn clone(&self) -> (r: Self)
        ensures
            r@ == self@,
    {
        proof {
            use_type_invariant(self);
        }
        Attachment {
            id: self.id,
            message_id: self.message_id,
            ciphertext: self.ciphertext.clone(),
            nonce: self.nonce,
            salt: self.salt,
        }
    }
}

impl Attachment {
    #[verifier::type_invariant]
    spec fn inv(self) -> bool {
        self.ciphertext@.len() > 0
    }

    /// How the view of an attachment is made of its fields.
    pub(crate) proof fn lemma_view(a: &Attachment)
        ensures
            a@ == (AttachmentView {
                id: a.id,
                message_id: a.message_id,
                ciphertext: a.ciphertext@,
                nonce: a.nonce,
                salt: a.salt,
            }),
    {
    }

    /// Assembles an attachment from fields already known to be valid.
    pub(crate) fn assemble(
        id: u128,
        message_id: u128,
        ciphertext: Vec<u8>,
        nonce: [u8; 12],
        salt: [u8; 16],
    ) -> (r: Attachment)
        requires
            ciphertext@.len() > 0,
        ensures
            r == (Attachment { id, message_id, ciphertext, nonce, salt }),
            r@ == (AttachmentView { id, message_id, ciphertext: ciphertext@, nonce, salt }),
    {
        Attachment { id, message_id, ciphertext, nonce, salt }
    }

    /// A builder with no field set yet.
    pub fn builder() -> (r: RawAttachmentBuilder)
        ensures
            r == RawAttachmentBuilder::empty(),
    {
        RawAttachmentBuilder {
            id: None,
            message_id: None,
            ciphertext: None,
            nonce: None,
            salt: None,
        }
    }

    pub fn id(&self) -> (r: u128)
        ensures
            r == self@.id,
    {
        self.id
    }

    pub fn message_id(&self) -> (r: u128)
        ensures
            r == self@.message_id,
    {
        self.message_id
    }

    pub fn ciphertext(&self) -> (r: &[u8])
        ensures
            r@ == self@.ciphertext,
            attachment_valid(self@),
    {
        proof {
            use_type_invariant(self);
        }
        self.ciphertext.as_slice()
    }

    pub fn nonce(&self) -> (r: [u8; 12])
        ensures
            r == self@.nonce,
    {
        self.nonce
    }

    pub fn salt(&self) -> (r: [u8; 16])
        ensures
            r == self@.salt,
    {
        self.salt
    }
}

/// The fields an attachment is built from; `id` may be left for the builder
/// to generate.
pub struct RawAttachment {
    pub id: Option<u128>,
    pub message_id: u128,
    pub ciphertext: Vec<u8>,
    pub nonce: [u8; 12],
    pub salt: [u8; 16],
}

impl RawAttachment {
    /// What building yields, where `fresh_id` is the identifier generated
    /// for an attachment whose `id` is not given.
    pub open spec fn built(self, fresh_id: u128) -> Result<AttachmentView, AttachmentError> {
        if self.ciphertext@.len() == 0 {
            Err(AttachmentError::EmptyCiphertext)
        } else {
            Ok(
                AttachmentView {
                    id: match self.id {
                        Some(id) => id,
                        None => fresh_id,
                    },
                    message_id: self.message_id,
                    ciphertext: self.ciphertext@,
                    nonce: self.nonce,
                    salt: self.salt,
                },
            )
        }
    }

    /// Checks the fields and makes the attachment, with `fresh_id` as its
    /// identifier where none is given.
    pub fn build_with_id(self, fresh_id: u128) -> (r: Result<Attachment, AttachmentError>)
        ensures
            crate::view_result(r) == self.built(fresh_id),
    {
        if self.ciphertext.len() == 0 {
            return Err(AttachmentError::EmptyCiphertext);
        }
        let id: u128 = match self.id {
            Some(id) => id,
            None => fresh_id,
        };
        Ok(
            Attachment {
                id,
                message_id: self.message_id,
                ciphertext: self.ciphertext,
                nonce: self.nonce,
                salt: self.salt,
            },
        )
    }
}

/// Building keeps every field that was given: a given identifier is the
/// attachment's (the fresh one is used only where none is given), and the
/// message identifier, ciphertext, nonce and salt are kept. It is refused
/// exactly when the ciphertext is empty.
pub proof fn lemma_built_keeps_given_fields(raw: RawAttachment, fresh_id: u128)
    ensures
        raw.built(fresh_id) matches Ok(a) ==> {
            &&& raw.id matches Some(i) ==> a.id == i
            &&& raw.id is None ==> a.id == fresh_id
            &&& a.message_id == raw.message_id
            &&& a.ciphertext == raw.ciphertext@
            &&& a.nonce == raw.nonce
            &&& a.salt == raw.salt
        },
        raw.built(fresh_id) is Ok <==> raw.ciphertext@.len() > 0,
        raw.ciphertext@.len() == 0 ==> raw.built(fresh_id) == Err::<AttachmentView, AttachmentError>(
            AttachmentError::EmptyCiphertext,
        ),
{
}

/// Building from the builder keeps what was set on it.
pub proof fn lemma_builder_keeps_set_fields(b: RawAttachmentBuilder, fresh_id: u128)
    requires
        b.is_complete(),
    ensures
        b.raw().built(fresh_id) matches Ok(a) ==> {
            &&& b.id matches Some(i) ==> a.id == i
            &&& a.message_id == b.message_id.unwrap()
            &&& a.ciphertext == b.ciphertext.unwrap()@
            &&& a.nonce == b.nonce.unwrap()
            &&& a.salt == b.salt.unwrap()
        },
{
    lemma_built_keeps_given_fields(b.raw(), fresh_id);
}

/// Collects the fields of an attachment one by one.
pub struct RawAttachmentBuilder {
    pub id: Option<u128>,
    pub message_id: Option<u128>,
    pub ciphertext: Option<Vec<u8>>,
    pub nonce: Option<[u8; 12]>,
    pub salt: Option<[u8; 16]>,
}

impl RawAttachmentBuilder {
    pub open spec fn empty() -> RawAttachmentBuilder {
        RawAttachmentBuilder { id: None, message_id: None, ciphertext: None, nonce: None, salt: None }
    }

    /// Whether every field without a default has been set.
    pub open spec fn is_complete(self) -> bool {
        &&& self.message_id is Some
        &&& self.ciphertext is Some
        &&& self.nonce is Some
        &&& self.salt is Some
    }

    /// The fields collected so far, as the raw attachment.
    pub open spec fn raw(self) -> RawAttachment {
        RawAttachment {
            id: self.id,
            message_id: self.message_id.unwrap(),
            ciphertext: self.ciphertext.unwrap(),
            nonce: self.nonce.unwrap(),
            salt: self.salt.unwrap(),
        }
    }

    pub fn id(self, id: u128) -> (r: Self)
        ensures
            r == (RawAttachmentBuilder { id: Some(id), ..self }),
    {
        RawAttachmentBuilder { id: Some(id), ..self }
    }

    pub fn maybe_id(self, id: Option<u128>) -> (r: Self)
        ensures
            r == (RawAttachmentBuilder { id, ..self }),
    {
        RawAttachmentBuilder { id, ..self }
    }

    pub fn message_id(self, message_id: u128) -> (r: Self)
        ensures
            r == (RawAttachmentBuilder { message_id: Some(message_id), ..self }),
    {
        RawAttachmentBuilder { message_id: Some(message_id), ..self }
    }

    pub fn ciphertext(self, ciphertext: Vec<u8>) -> (r: Self)
        ensures
            r == (RawAttachmentBuilder { ciphertext: Some(ciphertext), ..self }),
    {
        RawAttachmentBuilder { ciphertext: Some(ciphertext), ..self }
    }

    pub fn nonce(self, nonce: [u8; 12]) -> (r: Self)
        ensures
            r == (RawAttachmentBuilder { nonce: Some(nonce), ..self }),
    {
        RawAttachmentBuilder { nonce: Some(nonce), ..self }
    }

    pub fn salt(self, salt: [u8; 16]) -> (r: Self)
        ensures
            r == (RawAttachmentBuilder { salt: Some(salt), ..self }),
    {
        RawAttachmentBuilder { salt: Some(salt), ..self }
    }

    /// The collected fields, unchecked.
    pub fn build_raw(self) -> (r: RawAttachment)
        requires
            self.is_complete(),
        ensures
            r == self.raw(),
    {
        RawAttachment {
            id: self.id,
            message_id: self.message_id.unwrap(),
            ciphertext: self.ciphertext.unwrap(),
            nonce: self.nonce.unwrap(),
            salt: self.salt.unwrap(),
        }
    }

    /// Checks the collected fields and makes the attachment. Where no `id`
    /// was set, a fresh version 7 UUID is generated.
    pub fn build(self) -> (r: Result<Attachment, AttachmentError>)
        requires
            self.is_complete(),
        ensures
            self.id is Some ==> crate::view_result(r) == self.raw().built(self.id.unwrap()),
            self.id is None ==> exists|fresh_id: u128|
                #![trigger self.raw().built(fresh_id)]
                is_v7_uuid(fresh_id) && crate::view_result(r) == self.raw().built(fresh_id),
    {
        let raw = self.build_raw();
        if raw.ciphertext.len() == 0 {
            proof {
                let witness = lemma_some_v7_uuid();
                assert(is_v7_uuid(witness) && crate::view_result(
                    Err::<Attachment, AttachmentError>(AttachmentError::EmptyCiphertext),
                ) == raw.built(witness));
            }
            return Err(AttachmentError::EmptyCiphertext);
        }
        let fresh_id: u128 = match raw.id {
            Some(id) => id,
            None => new_v7_uuid(),
        };
        let r: Result<Attachment, AttachmentError> = raw.build_with_id(fresh_id);
        proof {
            if self.id is None {
                assert(is_v7_uuid(fresh_id) && crate::view_result(r) == self.raw().built(fresh_id));
            }
        }
        r
    }
}

} // verus!
