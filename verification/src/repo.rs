//! The message repository: how stored rows are read back, and the decisions
//! of the consuming read, which hands a message out once and deletes it when
//! it burns on read.

use vstd::prelude::*;
use crate::attachment::{attachment_views, Attachment, AttachmentView};
use crate::message::{message_error_text, Message, MessageMetadata, MessageView, MessageWithAttachments};
use crate::model::{AttachmentModel, MessageMetadataModel, MessageModel, MessageModelError};

verus! {

/// Why a repository operation failed.
#[derive(Clone, Debug, PartialEq, Eq)]
pub enum MessageRepoError {
    /// The database refused or failed the operation; the text says why.
    Database(String),
    /// A stored value did not make a domain value; the text says why.
    Model(String),
}

/// The abstract content of a repository error.
pub enum RepoErrorView {
    Database(Seq<char>),
    Model(Seq<char>),
}

impl View for MessageRepoError {
    type V = RepoErrorView;

    open spec fn view(&self) -> RepoErrorView {
        match self {
            MessageRepoError::Database(s) => RepoErrorView::Database(s@),
            MessageRepoError::Model(s) => RepoErrorView::Model(s@),
        }
    }
}

/// The text of a repository error.
pub open spec fn repo_error_text(e: RepoErrorView) -> Seq<char> {
    match e {
        RepoErrorView::Database(s) => s,
        RepoErrorView::Model(s) => s,
    }
}

impl MessageRepoError {
    /// The human-readable text of this error.
    pub fn to_string(&self) -> (r: String)
        ensures
            r@ == repo_error_text(self@),
    {
        match self {
            MessageRepoError::Database(s) => s.clone(),
            MessageRepoError::Model(s) => s.clone(),
        }
    }
}

/// The attachments that the stored rows `rows` make, in order; rows that do
/// not make an attachment are left out.
pub open spec fn readable_attachments(rows: Seq<AttachmentModel>) -> Seq<AttachmentView>
    decreases rows.len(),
{
    if rows.len() == 0 {
        Seq::empty()
    } else {
        let rest = readable_attachments(rows.drop_last());
        match rows.last().to_attachment() {
            Ok(a) => rest.push(a),
            Err(_) => rest,
        }
    }
}

/// The attachments the stored rows make, in order, leaving out rows that do
/// not make one.
pub fn attachments_from_rows(rows: Vec<AttachmentModel>) -> (r: Vec<Attachment>)
    ensures
        attachment_views(r@) == readable_attachments(rows@),
{
    let ghost source = rows@;
    let mut rows = rows;
    let mut out: Vec<Attachment> = Vec::new();
    let ghost mut taken: int = 0;
    while rows.len() > 0
        invariant
            0 <= taken <= source.len(),
            rows@ == source.skip(taken),
            attachment_views(out@) == readable_attachments(source.take(taken)),
        decreases rows@.len(),
    {
        let row: AttachmentModel = rows.remove(0);
        proof {
            assert(row == source[taken]);
            assert(source.take(taken + 1).drop_last() == source.take(taken));
            assert(source.take(taken + 1).last() == row);
        }
        let ghost before = out@;
        match Attachment::try_from(row) {
            Ok(a) => {
                out.push(a);
                proof {
                    assert(out@.drop_last() == before);
                    assert(attachment_views(out@) == attachment_views(before).push(out@.last()@));
                }
            },
            Err(_) => {},
        }
        proof {
            taken = taken + 1;
        }
    }
    proof {
        assert(source.take(source.len() as int) == source);
    }
    out
}

/// Reading rows keeps every row that makes an attachment, in order: where no
/// row has an empty ciphertext, the attachments read back are the rows, one
/// for one and field for field.
pub proof fn lemma_readable_attachments_keep_every_row(rows: Seq<AttachmentModel>)
    requires
        forall|i: int| 0 <= i < rows.len() ==> #[trigger] rows[i].ciphertext@.len() > 0,
    ensures
        readable_attachments(rows).len() == rows.len(),
        forall|i: int|
            0 <= i < rows.len() ==> {
                let a = #[trigger] readable_attachments(rows)[i];
                &&& a.id == rows[i].id
                &&& a.message_id == rows[i].message_id
                &&& a.ciphertext == rows[i].ciphertext@
                &&& a.nonce == rows[i].nonce
                &&& a.salt == rows[i].salt
            },
    decreases rows.len(),
{
    if rows.len() > 0 {
        let front = rows.drop_last();
        assert forall|i: int| 0 <= i < front.len() implies #[trigger] front[i].ciphertext@.len() > 0 by {
            assert(front[i] == rows[i]);
        }
        lemma_readable_attachments_keep_every_row(front);
        assert(rows[rows.len() - 1].ciphertext@.len() > 0);
        assert forall|i: int| 0 <= i < rows.len() implies {
            let a = #[trigger] readable_attachments(rows)[i];
            &&& a.id == rows[i].id
            &&& a.message_id == rows[i].message_id
            &&& a.ciphertext == rows[i].ciphertext@
            &&& a.nonce == rows[i].nonce
            &&& a.salt == rows[i].salt
        } by {
            if i < front.len() {
                assert(front[i] == rows[i]);
                assert(readable_attachments(rows)[i] == readable_attachments(front)[i]);
            }
        }
    }
}

/// A row with an empty ciphertext reads as no attachment, and any other row
/// as the attachment with its fields.
pub proof fn lemma_readable_attachments_of_one_row(row: AttachmentModel)
    ensures
        row.ciphertext@.len() == 0 ==> readable_attachments(seq![row]) == Seq::<AttachmentView>::empty(),
        row.ciphertext@.len() > 0 ==> readable_attachments(seq![row]) == seq![
            AttachmentView {
                id: row.id,
                message_id: row.message_id,
                ciphertext: row.ciphertext@,
                nonce: row.nonce,
                salt: row.salt,
            },
        ],
{
    reveal_with_fuel(readable_attachments, 2);
    assert(seq![row].drop_last() == Seq::<AttachmentModel>::empty());
}

/// Reading rows in two parts gives what reading them whole gives: each row is
/// read on its own, and the order is kept.
pub proof fn lemma_readable_attachments_append(a: Seq<AttachmentModel>, b: Seq<AttachmentModel>)
    ensures
        readable_attachments(a + b) == readable_attachments(a) + readable_attachments(b),
    decreases b.len(),
{
    if b.len() == 0 {
        assert(a + b == a);
        assert(readable_attachments(a) + readable_attachments(b) == readable_attachments(a));
    } else {
        lemma_readable_attachments_append(a, b.drop_last());
        assert((a + b).drop_last() == a + b.drop_last());
        assert((a + b).last() == b.last());
        let ra = readable_attachments(a);
        let rb = readable_attachments(b.drop_last());
        match b.last().to_attachment() {
            Ok(x) => {
                assert((ra + rb).push(x) == ra + rb.push(x));
            },
            Err(_) => {},
        }
    }
}

/// What reading the stored message row `row` yields: nothing where there is
/// no row, the message where the row makes one, and otherwise a database
/// error with the text of the domain error.
pub open spec fn message_from_row_spec(row: Option<MessageModel>) -> Result<
    Option<MessageView>,
    RepoErrorView,
> {
    match row {
        None => Ok(None),
        Some(row) => match row.to_message() {
            Ok(m) => Ok(Some(m)),
            Err(MessageModelError::Domain(e)) => Err(RepoErrorView::Database(message_error_text(e))),
        },
    }
}

/// Reads a stored message row back as a message.
pub fn message_from_row(row: Option<MessageModel>) -> (r: Result<Option<Message>, MessageRepoError>)
    ensures
        message_from_row_spec(row) == match r {
            Ok(None) => Ok(None),
            Ok(Some(m)) => Ok(Some(m@)),
            Err(e) => Err::<Option<MessageView>, RepoErrorView>(e@),
        },
{
    match row {
        None => Ok(None),
        Some(row) => match Message::try_from(row) {
            Ok(m) => Ok(Some(m)),
            Err(e) => Err(MessageRepoError::Database(e.to_string())),
        },
    }
}

/// The metadata of the stored row `row`; where there is no row, that of a
/// message that does not burn on read.
pub fn metadata_from_row(row: Option<MessageMetadataModel>) -> (r: MessageMetadata)
    ensures
        r.burn_on_read == match row {
            Some(m) => m.burn_on_read,
            None => false,
        },
{
    let model: MessageMetadataModel = match row {
        Some(m) => m,
        None => MessageMetadataModel::default(),
    };
    MessageMetadata::from(model)
}

} // verus!
