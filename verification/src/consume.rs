//! The consuming read of a message, as a sequence of decisions between
//! database calls: open a transaction, fetch the message, fetch its
//! attachments, delete the message where it burns on read, commit.

use vstd::prelude::*;
use crate::attachment::{attachment_views, Attachment, AttachmentView};
use crate::message::{Message, MessageView, MessageWithAttachments};
use crate::model::{AttachmentModel, MessageModel};
use crate::repo::{
    attachments_from_rows, message_from_row, message_from_row_spec, readable_attachments,
    MessageRepoError, RepoErrorView,
};

verus! {

/// Where a consuming read stands: which database call it waits for.
#[derive(Clone, Copy, Debug, PartialEq, Eq, Structural)]
pub enum ConsumeStage {
    OpeningTransaction,
    FetchingMessage,
    FetchingAttachments,
    DeletingMessage,
    Committing,
    Finished,
}

/// What the database answered to the last call.
pub enum ConsumeEvent {
    /// The transaction is open.
    TransactionOpened,
    /// The row of the message, where there is an unexpired one.
    MessageRow(Option<MessageModel>),
    /// The rows of the message's attachments.
    AttachmentRows(Vec<AttachmentModel>),
    /// The message is deleted.
    MessageDeleted,
    /// The transaction is committed.
    Committed,
    /// The call failed; the text says why.
    DatabaseFailed(String),
}

/// What to do next.
pub enum ConsumeAction {
    /// Open a transaction.
    OpenTransaction,
    /// Fetch, and lock, the unexpired message with this identifier.
    FetchMessage(u128),
    /// Fetch, and lock, the attachments of the message with this identifier.
    FetchAttachments(u128),
    /// Delete the message with this identifier, together with its attachments.
    DeleteMessage(u128),
    /// Commit the transaction.
    Commit,
    /// Stop, answering this; an open transaction is rolled back.
    Finish(Result<Option<MessageWithAttachments>, MessageRepoError>),
}

/// The abstract answer of a consuming read.
pub enum ConsumeOutcome {
    Found(MessageView, Seq<AttachmentView>),
    NotFound,
    Failed(RepoErrorView),
}

/// The abstract content of an action.
pub enum ConsumeActionView {
    OpenTransaction,
    FetchMessage(u128),
    FetchAttachments(u128),
    DeleteMessage(u128),
    Commit,
    Finish(ConsumeOutcome),
}

impl View for ConsumeAction {
    type V = ConsumeActionView;

    open spec fn view(&self) -> ConsumeActionView {
        match self {
            ConsumeAction::OpenTransaction => ConsumeActionView::OpenTransaction,
            ConsumeAction::FetchMessage(id) => ConsumeActionView::FetchMessage(*id),
            ConsumeAction::FetchAttachments(id) => ConsumeActionView::FetchAttachments(*id),
            ConsumeAction::DeleteMessage(id) => ConsumeActionView::DeleteMessage(*id),
            ConsumeAction::Commit => ConsumeActionView::Commit,
            ConsumeAction::Finish(r) => ConsumeActionView::Finish(
                match r {
                    Ok(Some(found)) => ConsumeOutcome::Found(
                        found.message@,
                        attachment_views(found.attachments@),
                    ),
                    Ok(None) => ConsumeOutcome::NotFound,
                    Err(e) => ConsumeOutcome::Failed(e@),
                },
            ),
        }
    }
}

/// The abstract state of a consuming read.
pub struct ConsumeView {
    pub id: u128,
    pub stage: ConsumeStage,
    pub message: Option<MessageView>,
    pub attachments: Seq<AttachmentView>,
}

/// The state a consuming read of message `id` starts in.
pub open spec fn consume_start(id: u128) -> ConsumeView {
    ConsumeView {
        id,
        stage: ConsumeStage::OpeningTransaction,
        message: None,
        attachments: Seq::empty(),
    }
}

/// The state once a consuming read of message `id` has finished.
pub open spec fn consume_finished(id: u128) -> ConsumeView {
    ConsumeView { id, stage: ConsumeStage::Finished, message: None, attachments: Seq::empty() }
}

/// Whether `event` answers the call a read in `stage` waits for.
pub open spec fn consume_accepts(stage: ConsumeStage, event: ConsumeEvent) -> bool {
    match event {
        ConsumeEvent::DatabaseFailed(_) => stage != ConsumeStage::Finished,
        ConsumeEvent::TransactionOpened => stage == ConsumeStage::OpeningTransaction,
        ConsumeEvent::MessageRow(_) => stage == ConsumeStage::FetchingMessage,
        ConsumeEvent::AttachmentRows(_) => stage == ConsumeStage::FetchingAttachments,
        ConsumeEvent::MessageDeleted => stage == ConsumeStage::DeletingMessage,
        ConsumeEvent::Committed => stage == ConsumeStage::Committing,
    }
}

/// Whether a stage holds a message that has been read.
pub open spec fn holds_message(stage: ConsumeStage) -> bool {
    stage == ConsumeStage::FetchingAttachments || stage == ConsumeStage::DeletingMessage
        || stage == ConsumeStage::Committing
}

/// The states a consuming read can be in: a read message is held exactly
/// while it waits for the attachments, the deletion or the commit, and the
/// deletion is only ever awaited for a message that burns on read.
pub open spec fn consume_wf(s: ConsumeView) -> bool {
    &&& holds_message(s.stage) <==> s.message is Some
    &&& s.stage == ConsumeStage::DeletingMessage ==> s.message.unwrap().burn_on_read
}

/// One decision of a consuming read: the state it moves to and what to do.
pub open spec fn consume_next(s: ConsumeView, event: ConsumeEvent) -> (ConsumeView, ConsumeActionView) {
    match event {
        ConsumeEvent::DatabaseFailed(text) => (
            consume_finished(s.id),
            ConsumeActionView::Finish(ConsumeOutcome::Failed(RepoErrorView::Database(text@))),
        ),
        ConsumeEvent::TransactionOpened => (
            ConsumeView { stage: ConsumeStage::FetchingMessage, ..s },
            ConsumeActionView::FetchMessage(s.id),
        ),
        ConsumeEvent::MessageRow(row) => match message_from_row_spec(row) {
            Ok(Some(m)) => (
                ConsumeView { stage: ConsumeStage::FetchingAttachments, message: Some(m), ..s },
                ConsumeActionView::FetchAttachments(s.id),
            ),
            Ok(None) => (consume_finished(s.id), ConsumeActionView::Finish(ConsumeOutcome::NotFound)),
            Err(e) => (consume_finished(s.id), ConsumeActionView::Finish(ConsumeOutcome::Failed(e))),
        },
        ConsumeEvent::AttachmentRows(rows) => if s.message.unwrap().burn_on_read {
            (
                ConsumeView {
                    stage: ConsumeStage::DeletingMessage,
                    attachments: readable_attachments(rows@),
                    ..s
                },
                ConsumeActionView::DeleteMessage(s.id),
            )
        } else {
            (
                ConsumeView {
                    stage: ConsumeStage::Committing,
                    attachments: readable_attachments(rows@),
                    ..s
                },
                ConsumeActionView::Commit,
            )
        },
        ConsumeEvent::MessageDeleted => (
            ConsumeView { stage: ConsumeStage::Committing, ..s },
            ConsumeActionView::Commit,
        ),
        ConsumeEvent::Committed => (
            consume_finished(s.id),
            ConsumeActionView::Finish(
                ConsumeOutcome::Found(s.message.unwrap(), s.attachments),
            ),
        ),
    }
}

/// The state and the actions after the decisions on `events`, in order.
pub open spec fn consume_run(s: ConsumeView, events: Seq<ConsumeEvent>) -> (ConsumeView, Seq<
    ConsumeActionView,
>)
    decreases events.len(),
{
    if events.len() == 0 {
        (s, Seq::empty())
    } else {
        let (next, action) = consume_next(s, events[0]);
        let (last, actions) = consume_run(next, events.drop_first());
        (last, seq![action] + actions)
    }
}

/// A consuming read of one message.
pub struct Consume {
    id: u128,
    stage: ConsumeStage,
    message: Option<Message>,
    attachments: Vec<Attachment>,
}

impl View for Consume {
    type V = ConsumeView;

    closed spec fn view(&self) -> ConsumeView {
        ConsumeView {
            id: self.id,
            stage: self.stage,
            message: match self.message {
                Some(m) => Some(m@),
                None => None,
            },
            attachments: attachment_views(self.attachments@),
        }
    }
}

impl Consume {
    #[verifier::type_invariant]
    spec fn inv(self) -> bool {
        &&& holds_message(self.stage) <==> self.message is Some
        &&& self.stage == ConsumeStage::DeletingMessage ==> self.message.unwrap()@.burn_on_read
    }

    /// Starts the consuming read of message `id`; the first thing to do is to
    /// open a transaction.
    pub fn new(id: u128) -> (r: (Consume, ConsumeAction))
        ensures
            r.0@ == consume_start(id),
            r.1@ == ConsumeActionView::OpenTransaction,
    {
        let c = Consume {
            id,
            stage: ConsumeStage::OpeningTransaction,
            message: None,
            attachments: Vec::new(),
        };
        proof {
            assert(attachment_views(c.attachments@) == Seq::<AttachmentView>::empty());
        }
        (c, ConsumeAction::OpenTransaction)
    }

    /// The call this read waits for.
    pub fn stage(&self) -> (r: ConsumeStage)
        ensures
            r == self@.stage,
            consume_wf(self@),
    {
        proof {
            use_type_invariant(self);
        }
        self.stage
    }

    fn finished(id: u128) -> (r: Consume)
        ensures
            r@ == consume_finished(id),
    {
        let c = Consume { id, stage: ConsumeStage::Finished, message: None, attachments: Vec::new() };
        proof {
            assert(attachment_views(c.attachments@) == Seq::<AttachmentView>::empty());
        }
        c
    }

    /// Decides, from the answer to the last call, the next state and what to
    /// do next.
    pub fn step(self, event: ConsumeEvent) -> (r: (Consume, ConsumeAction))
        requires
            consume_accepts(self@.stage, event),
        ensures
            (r.0@, r.1@) == consume_next(self@, event),
            consume_wf(r.0@),
    {
        proof {
            use_type_invariant(&self);
        }
        let Consume { id, stage, message, attachments } = self;
        match event {
            ConsumeEvent::DatabaseFailed(text) => (
                Consume::finished(id),
                ConsumeAction::Finish(Err(MessageRepoError::Database(text))),
            ),
            ConsumeEvent::TransactionOpened => {
                let c = Consume { id, stage: ConsumeStage::FetchingMessage, message, attachments };
                (c, ConsumeAction::FetchMessage(id))
            },
            ConsumeEvent::MessageRow(row) => match message_from_row(row) {
                Ok(Some(m)) => {
                    let c = Consume {
                        id,
                        stage: ConsumeStage::FetchingAttachments,
                        message: Some(m),
                        attachments,
                    };
                    (c, ConsumeAction::FetchAttachments(id))
                },
                Ok(None) => (Consume::finished(id), ConsumeAction::Finish(Ok(None))),
                Err(e) => (Consume::finished(id), ConsumeAction::Finish(Err(e))),
            },
            ConsumeEvent::AttachmentRows(rows) => {
                let m: Message = message.unwrap();
                let read: Vec<Attachment> = attachments_from_rows(rows);
                if m.burn_on_read() {
                    let c = Consume {
                        id,
                        stage: ConsumeStage::DeletingMessage,
                        message: Some(m),
                        attachments: read,
                    };
                    (c, ConsumeAction::DeleteMessage(id))
                } else {
                    let c = Consume {
                        id,
                        stage: ConsumeStage::Committing,
                        message: Some(m),
                        attachments: read,
                    };
                    (c, ConsumeAction::Commit)
                }
            },
            ConsumeEvent::MessageDeleted => {
                let c = Consume { id, stage: ConsumeStage::Committing, message, attachments };
                (c, ConsumeAction::Commit)
            },
            ConsumeEvent::Committed => {
                let m: Message = message.unwrap();
                (
                    Consume::finished(id),
                    ConsumeAction::Finish(
                        Ok(Some(MessageWithAttachments { message: m, attachments })),
                    ),
                )
            },
        }
    }
}

/// Every decision keeps a consuming read in a state it can be in.
pub proof fn lemma_consume_next_wf(s: ConsumeView, event: ConsumeEvent)
    requires
        consume_wf(s),
        consume_accepts(s.stage, event),
    ensures
        consume_wf(consume_next(s, event).0),
{
}

/// A consuming read deletes only the message it reads, and only where that
/// message burns on read: a deletion is decided only on the attachment rows
/// of a message that burns on read.
pub proof fn lemma_consume_deletes_only_burning(s: ConsumeView, event: ConsumeEvent, deleted: u128)
    requires
        consume_wf(s),
        consume_accepts(s.stage, event),
        consume_next(s, event).1 == ConsumeActionView::DeleteMessage(deleted),
    ensures
        deleted == s.id,
        event is AttachmentRows,
        s.message.unwrap().burn_on_read,
{
}

/// A read hands a message out only once the transaction is committed.
pub proof fn lemma_consume_found_only_after_commit(
    s: ConsumeView,
    event: ConsumeEvent,
    m: MessageView,
    attachments: Seq<AttachmentView>,
)
    requires
        consume_wf(s),
        consume_accepts(s.stage, event),
        consume_next(s, event).1 == ConsumeActionView::Finish(ConsumeOutcome::Found(m, attachments)),
    ensures
        event is Committed,
        s.stage == ConsumeStage::Committing,
        s.message == Some(m),
        s.attachments == attachments,
{
}

/// A failed database call ends the read with that failure: nothing is
/// deleted or committed after it.
pub proof fn lemma_consume_failure_ends(s: ConsumeView, text: String)
    requires
        s.stage != ConsumeStage::Finished,
    ensures
        consume_next(s, ConsumeEvent::DatabaseFailed(text)) == (
            consume_finished(s.id),
            ConsumeActionView::Finish(ConsumeOutcome::Failed(RepoErrorView::Database(text@))),
        ),
        forall|e: ConsumeEvent| !consume_accepts(consume_finished(s.id).stage, e),
{
}

/// Reading a message that is not stored, or has expired, finds nothing and
/// changes nothing.
pub proof fn lemma_consume_not_found(id: u128)
    ensures
        consume_run(
            consume_start(id),
            seq![ConsumeEvent::TransactionOpened, ConsumeEvent::MessageRow(None)],
        ) == (
            consume_finished(id),
            seq![
                ConsumeActionView::FetchMessage(id),
                ConsumeActionView::Finish(ConsumeOutcome::NotFound),
            ],
        ),
{
    reveal_with_fuel(consume_run, 3);
}

/// A read of a stored message hands back that message and the attachments
/// its rows make, and deletes the message exactly where it burns on read.
pub proof fn lemma_consume_reads_back(id: u128, row: MessageModel, rows: Vec<AttachmentModel>, m: MessageView)
    requires
        row.to_message() == Ok::<MessageView, crate::model::MessageModelError>(m),
    ensures
        m.burn_on_read ==> consume_run(
            consume_start(id),
            seq![
                ConsumeEvent::TransactionOpened,
                ConsumeEvent::MessageRow(Some(row)),
                ConsumeEvent::AttachmentRows(rows),
                ConsumeEvent::MessageDeleted,
                ConsumeEvent::Committed,
            ],
        ) == (
            consume_finished(id),
            seq![
                ConsumeActionView::FetchMessage(id),
                ConsumeActionView::FetchAttachments(id),
                ConsumeActionView::DeleteMessage(id),
                ConsumeActionView::Commit,
                ConsumeActionView::Finish(ConsumeOutcome::Found(m, readable_attachments(rows@))),
            ],
        ),
        !m.burn_on_read ==> consume_run(
            consume_start(id),
            seq![
                ConsumeEvent::TransactionOpened,
                ConsumeEvent::MessageRow(Some(row)),
                ConsumeEvent::AttachmentRows(rows),
                ConsumeEvent::Committed,
            ],
        ) == (
            consume_finished(id),
            seq![
                ConsumeActionView::FetchMessage(id),
                ConsumeActionView::FetchAttachments(id),
                ConsumeActionView::Commit,
                ConsumeActionView::Finish(ConsumeOutcome::Found(m, readable_attachments(rows@))),
            ],
        ),
{
    reveal_with_fuel(consume_run, 6);
    let s0 = consume_start(id);
    let s1 = consume_next(s0, ConsumeEvent::TransactionOpened).0;
    let s2 = consume_next(s1, ConsumeEvent::MessageRow(Some(row))).0;
    assert(s2.message == Some(m));
}

} // verus!
