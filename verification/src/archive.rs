//! The control loop of an archive run.
//!
//! A run mirrors the labels, then walks the message listing and mirrors
//! each message with its attachments and its wire form. Nothing is fetched
//! that the store already holds: every fetch and every insert follows an
//! existence check that the store answered with no. The first failure ends
//! the run; the next run takes up where this one stopped, because what is
//! stored is skipped.
//!
//! Talking to the remote service and to the store is the caller's work. The
//! loop is given as a function from the stage of the run and the caller's
//! report to the next stage and the next thing to do.

use crate::model::{
    Attachment, AttachmentId, FullMessage, Label, LabelId, LabelList, MessageId, MinimalLabel,
    MinimalMessage, RawMessage, UserProfile,
};
use crate::store::references_of;
use crate::tree::{attachment_refs, extract_attachment_ids, visit_order};
use vstd::prelude::*;

verus! {

/// The number of messages between two reports of progress.
pub const PROGRESS_INTERVAL: u64 = 1000;

/// What the caller reports.
pub enum ArchiveEvent {
    /// The caller is ready to run.
    Start,
    /// The label listing has come.
    Labels(LabelList),
    /// The store answered an existence check.
    Exists(bool),
    /// A label has come in full.
    Label(Label),
    /// The store has taken what it was given.
    Stored,
    /// The owner's profile has come.
    Profile(UserProfile),
    /// The store has counted its messages.
    Count(usize),
    /// The message listing handed over its next stub, or has ended.
    Message(Option<MinimalMessage>),
    /// The store has listed the attachment references of a stored message.
    AttachmentIds(Vec<AttachmentId>),
    /// A message has come in full.
    Full(FullMessage),
    /// An attachment has come.
    Attachment(Attachment),
    /// A message has come in wire format.
    Raw(RawMessage),
    /// What was asked for failed, at the remote service or at the store.
    Failed,
}

/// What the caller has to do next.
pub enum ArchiveAction {
    /// Fetch the label listing.
    ListLabels,
    /// Ask the store whether it holds this label.
    ContainsLabel(LabelId),
    /// Fetch this label in full.
    FetchLabel(LabelId),
    /// Store this label.
    InsertLabel(Label),
    /// Fetch the owner's profile.
    FetchProfile,
    /// Ask the store how many messages it holds.
    CountMessages,
    /// Take the next stub from the message listing; before the first one,
    /// open the listing. `opening` is set once, when the listing is opened,
    /// and holds for the record the number of messages that the remote side
    /// reports and the number that the store holds; `thousands` is set
    /// whenever the number of messages gone through reaches a multiple of the
    /// progress interval.
    NextMessage { opening: Option<(usize, usize)>, thousands: Option<u64> },
    /// Ask the store whether it holds this message.
    ContainsMessage(MessageId),
    /// Ask the store for the attachment references of this stored message.
    AttachmentIds(MessageId),
    /// Fetch this message in full.
    FetchFullMessage(MessageId),
    /// Store this message, whole or not at all.
    InsertMessage(FullMessage),
    /// Ask the store whether it holds this attachment of this message.
    ContainsAttachment(MessageId, AttachmentId),
    /// Fetch this attachment of this message.
    FetchAttachment(MessageId, AttachmentId),
    /// Store this attachment of this message.
    InsertAttachment(MessageId, AttachmentId, Attachment),
    /// Ask the store whether it holds the wire form of this message.
    ContainsRawMessage(MessageId),
    /// Fetch this message in wire format.
    FetchRawMessage(MessageId),
    /// Store the wire form of this message.
    InsertRawMessage(MessageId, Vec<u8>),
    /// The run is complete.
    Finish,
    /// The run has failed: give up and report the failure.
    Abort,
}

impl ArchiveAction {
    /// Whether the action writes to the store.
    pub open spec fn is_insert(self) -> bool {
        self is InsertLabel || self is InsertMessage || self is InsertAttachment
            || self is InsertRawMessage
    }

    /// Whether the action fetches a record in full from the remote service.
    pub open spec fn is_record_fetch(self) -> bool {
        self is FetchLabel || self is FetchFullMessage || self is FetchAttachment
            || self is FetchRawMessage
    }
}

/// The attachments of one message that are gone through in turn. `stub` is
/// the message as the listing named it, `owner` the message that the
/// attachments are stored under.
pub struct Attachments {
    pub stub: MessageId,
    pub owner: MessageId,
    pub queue: Vec<AttachmentId>,
    pub index: usize,
    pub fetched: u64,
}

/// The attachments of one message that are gone through in turn, as a value.
pub struct AttachmentsView {
    pub stub: MessageId,
    pub owner: MessageId,
    pub queue: Seq<AttachmentId>,
    pub index: nat,
    pub fetched: u64,
}

impl View for Attachments {
    type V = AttachmentsView;

    open spec fn view(&self) -> AttachmentsView {
        AttachmentsView {
            stub: self.stub,
            owner: self.owner,
            queue: self.queue@,
            index: self.index as nat,
            fetched: self.fetched,
        }
    }
}

/// The labels that are gone through in turn.
pub struct Labels {
    pub labels: Vec<MinimalLabel>,
    pub index: usize,
}

/// The labels that are gone through in turn, as a value.
pub struct LabelsView {
    pub labels: Seq<MinimalLabel>,
    pub index: nat,
}

impl View for Labels {
    type V = LabelsView;

    open spec fn view(&self) -> LabelsView {
        LabelsView { labels: self.labels@, index: self.index as nat }
    }
}

/// How far a run has come.
pub enum Stage {
    /// Nothing has happened.
    Idle,
    /// The label listing has been asked for.
    ListingLabels,
    /// The store is asked whether it holds the current label.
    CheckingLabel(Labels),
    /// The current label is being fetched in full.
    FetchingLabel(Labels),
    /// The current label is being stored.
    InsertingLabel(Labels),
    /// The owner's profile has been asked for.
    FetchingProfile,
    /// The store is asked for its number of messages.
    CountingStored { total: usize },
    /// The message listing is asked for its next stub.
    AwaitingMessage { fetched: u64 },
    /// The store is asked whether it holds the current message.
    CheckingMessage { stub: MessageId, fetched: u64 },
    /// The store is asked for the attachment references of the current
    /// message, which it holds.
    LoadingAttachmentIds { stub: MessageId, fetched: u64 },
    /// The current message is being fetched in full.
    FetchingFull { stub: MessageId, fetched: u64 },
    /// The current message is being stored.
    InsertingMessage(Attachments),
    /// The store is asked whether it holds the current attachment.
    CheckingAttachment(Attachments),
    /// The current attachment is being fetched.
    FetchingAttachment(Attachments),
    /// The current attachment is being stored.
    InsertingAttachment(Attachments),
    /// The store is asked whether it holds the wire form of the current
    /// message.
    CheckingRaw { stub: MessageId, fetched: u64 },
    /// The wire form of the current message is being fetched.
    FetchingRaw { stub: MessageId, fetched: u64 },
    /// The wire form of the current message is being stored.
    InsertingRaw { fetched: u64 },
    /// The run has ended, complete or not.
    Finished,
}

/// How far a run has come, as a value.
pub enum StageView {
    Idle,
    ListingLabels,
    CheckingLabel(LabelsView),
    FetchingLabel(LabelsView),
    InsertingLabel(LabelsView),
    FetchingProfile,
    CountingStored { total: usize },
    AwaitingMessage { fetched: u64 },
    CheckingMessage { stub: MessageId, fetched: u64 },
    LoadingAttachmentIds { stub: MessageId, fetched: u64 },
    FetchingFull { stub: MessageId, fetched: u64 },
    InsertingMessage(AttachmentsView),
    CheckingAttachment(AttachmentsView),
    FetchingAttachment(AttachmentsView),
    InsertingAttachment(AttachmentsView),
    CheckingRaw { stub: MessageId, fetched: u64 },
    FetchingRaw { stub: MessageId, fetched: u64 },
    InsertingRaw { fetched: u64 },
    Finished,
}

impl View for Stage {
    type V = StageView;

    open spec fn view(&self) -> StageView {
        match *self {
            Stage::Idle => StageView::Idle,
            Stage::ListingLabels => StageView::ListingLabels,
            Stage::CheckingLabel(l) => StageView::CheckingLabel(l@),
            Stage::FetchingLabel(l) => StageView::FetchingLabel(l@),
            Stage::InsertingLabel(l) => StageView::InsertingLabel(l@),
            Stage::FetchingProfile => StageView::FetchingProfile,
            Stage::CountingStored { total } => StageView::CountingStored { total },
            Stage::AwaitingMessage { fetched } => StageView::AwaitingMessage { fetched },
            Stage::CheckingMessage { stub, fetched } => StageView::CheckingMessage {
                stub,
                fetched,
            },
            Stage::LoadingAttachmentIds { stub, fetched } => StageView::LoadingAttachmentIds {
                stub,
                fetched,
            },
            Stage::FetchingFull { stub, fetched } => StageView::FetchingFull { stub, fetched },
            Stage::InsertingMessage(a) => StageView::InsertingMessage(a@),
            Stage::CheckingAttachment(a) => StageView::CheckingAttachment(a@),
            Stage::FetchingAttachment(a) => StageView::FetchingAttachment(a@),
            Stage::InsertingAttachment(a) => StageView::InsertingAttachment(a@),
            Stage::CheckingRaw { stub, fetched } => StageView::CheckingRaw { stub, fetched },
            Stage::FetchingRaw { stub, fetched } => StageView::FetchingRaw { stub, fetched },
            Stage::InsertingRaw { fetched } => StageView::InsertingRaw { fetched },
            Stage::Finished => StageView::Finished,
        }
    }
}

impl StageView {
    /// Whether a record is being fetched in full or stored: the stages that
    /// only a missing record leads into.
    pub open spec fn is_mirroring(self) -> bool {
        ||| self is FetchingLabel
        ||| self is InsertingLabel
        ||| self is FetchingFull
        ||| self is InsertingMessage
        ||| self is FetchingAttachment
        ||| self is InsertingAttachment
        ||| self is FetchingRaw
        ||| self is InsertingRaw
    }
}

/// What follows once the label at `index` is dealt with or when the labels
/// are first gone into: the check of the next label, or, after the last
/// one, the owner's profile.
pub open spec fn next_label(labels: Seq<MinimalLabel>, index: nat) -> (StageView, ArchiveAction) {
    if index < labels.len() {
        (
            StageView::CheckingLabel(LabelsView { labels, index }),
            ArchiveAction::ContainsLabel(labels[index as int].id),
        )
    } else {
        (StageView::FetchingProfile, ArchiveAction::FetchProfile)
    }
}

/// What follows once the attachment at `at.index` is reached: its check, or,
/// after the last one, the check of the message's wire form.
pub open spec fn next_attachment(at: AttachmentsView) -> (StageView, ArchiveAction) {
    if at.index < at.queue.len() {
        (
            StageView::CheckingAttachment(at),
            ArchiveAction::ContainsAttachment(at.owner, at.queue[at.index as int]),
        )
    } else {
        (
            StageView::CheckingRaw { stub: at.stub, fetched: at.fetched },
            ArchiveAction::ContainsRawMessage(at.stub),
        )
    }
}

/// The number of messages gone through after one more, held at the top of
/// its range.
pub open spec fn one_more(fetched: u64) -> u64 {
    if fetched < u64::MAX {
        (fetched + 1) as u64
    } else {
        fetched
    }
}

/// What follows once a message is dealt with: the next stub is asked for,
/// with a report of progress at every full interval.
pub open spec fn message_done(fetched: u64) -> (StageView, ArchiveAction) {
    let n = one_more(fetched);
    (
        StageView::AwaitingMessage { fetched: n },
        ArchiveAction::NextMessage {
            opening: None,
            thousands: if n % PROGRESS_INTERVAL == 0 {
                Some(n / PROGRESS_INTERVAL)
            } else {
                None
            },
        },
    )
}

/// The attachments with the next one as the current one.
pub open spec fn advanced(at: AttachmentsView) -> AttachmentsView {
    AttachmentsView { index: at.index + 1, ..at }
}

/// The stage and the action that follow from a stage and a report.
pub open spec fn archive_step(stage: StageView, event: ArchiveEvent) -> (StageView, ArchiveAction) {
    match (stage, event) {
        (StageView::Idle, ArchiveEvent::Start) => (
            StageView::ListingLabels,
            ArchiveAction::ListLabels,
        ),
        (StageView::ListingLabels, ArchiveEvent::Labels(list)) => next_label(list.labels@, 0),
        (StageView::CheckingLabel(l), ArchiveEvent::Exists(stored)) => if l.index
            >= l.labels.len() {
            (StageView::Finished, ArchiveAction::Abort)
        } else if stored {
            next_label(l.labels, l.index + 1)
        } else {
            (StageView::FetchingLabel(l), ArchiveAction::FetchLabel(l.labels[l.index as int].id))
        },
        (StageView::FetchingLabel(l), ArchiveEvent::Label(label)) => (
            StageView::InsertingLabel(l),
            ArchiveAction::InsertLabel(label),
        ),
        (StageView::InsertingLabel(l), ArchiveEvent::Stored) => if l.index >= l.labels.len() {
            (StageView::Finished, ArchiveAction::Abort)
        } else {
            next_label(l.labels, l.index + 1)
        },
        (StageView::FetchingProfile, ArchiveEvent::Profile(profile)) => (
            StageView::CountingStored { total: profile.messages_total },
            ArchiveAction::CountMessages,
        ),
        (StageView::CountingStored { total }, ArchiveEvent::Count(stored)) => (
            StageView::AwaitingMessage { fetched: 0 },
            ArchiveAction::NextMessage { opening: Some((total, stored)), thousands: None },
        ),
        (StageView::AwaitingMessage { fetched }, ArchiveEvent::Message(next)) => match next {
            Some(message) => (
                StageView::CheckingMessage { stub: message.id, fetched },
                ArchiveAction::ContainsMessage(message.id),
            ),
            None => (StageView::Finished, ArchiveAction::Finish),
        },
        (StageView::CheckingMessage { stub, fetched }, ArchiveEvent::Exists(stored)) => if stored {
            (StageView::LoadingAttachmentIds { stub, fetched }, ArchiveAction::AttachmentIds(stub))
        } else {
            (StageView::FetchingFull { stub, fetched }, ArchiveAction::FetchFullMessage(stub))
        },
        (StageView::LoadingAttachmentIds { stub, fetched }, ArchiveEvent::AttachmentIds(ids)) =>
            next_attachment(
            AttachmentsView { stub, owner: stub, queue: ids@, index: 0, fetched },
        ),
        (StageView::FetchingFull { stub, fetched }, ArchiveEvent::Full(message)) => (
            StageView::InsertingMessage(
                AttachmentsView {
                    stub,
                    owner: message.id,
                    queue: attachment_refs(visit_order(message.payload)),
                    index: 0,
                    fetched,
                },
            ),
            ArchiveAction::InsertMessage(message),
        ),
        (StageView::InsertingMessage(at), ArchiveEvent::Stored) => next_attachment(at),
        (StageView::CheckingAttachment(at), ArchiveEvent::Exists(stored)) => if at.index
            >= at.queue.len() {
            (StageView::Finished, ArchiveAction::Abort)
        } else if stored {
            next_attachment(advanced(at))
        } else {
            (
                StageView::FetchingAttachment(at),
                ArchiveAction::FetchAttachment(at.owner, at.queue[at.index as int]),
            )
        },
        (StageView::FetchingAttachment(at), ArchiveEvent::Attachment(attachment)) => if at.index
            < at.queue.len() {
            (
                StageView::InsertingAttachment(at),
                ArchiveAction::InsertAttachment(at.owner, at.queue[at.index as int], attachment),
            )
        } else {
            (StageView::Finished, ArchiveAction::Abort)
        },
        (StageView::InsertingAttachment(at), ArchiveEvent::Stored) => if at.index
            >= at.queue.len() {
            (StageView::Finished, ArchiveAction::Abort)
        } else {
            next_attachment(advanced(at))
        },
        (StageView::CheckingRaw { stub, fetched }, ArchiveEvent::Exists(stored)) => if stored {
            message_done(fetched)
        } else {
            (StageView::FetchingRaw { stub, fetched }, ArchiveAction::FetchRawMessage(stub))
        },
        (StageView::FetchingRaw { stub, fetched }, ArchiveEvent::Raw(raw)) => (
            StageView::InsertingRaw { fetched },
            ArchiveAction::InsertRawMessage(stub, raw.raw),
        ),
        (StageView::InsertingRaw { fetched }, ArchiveEvent::Stored) => message_done(fetched),
        _ => (StageView::Finished, ArchiveAction::Abort),
    }
}

/// Goes on to the label at `index`, or past the last label.
fn to_next_label(labels: Vec<MinimalLabel>, index: usize) -> (next: (Stage, ArchiveAction))
    ensures
        (next.0@, next.1) == next_label(labels@, index as nat),
{
    if index < labels.len() {
        let id = labels[index].id.clone();
        (Stage::CheckingLabel(Labels { labels, index }), ArchiveAction::ContainsLabel(id))
    } else {
        (Stage::FetchingProfile, ArchiveAction::FetchProfile)
    }
}

/// Goes on to the current attachment, or past the last attachment.
fn to_next_attachment(at: Attachments) -> (next: (Stage, ArchiveAction))
    ensures
        (next.0@, next.1) == next_attachment(at@),
{
    if at.index < at.queue.len() {
        let owner = at.owner.clone();
        let id = at.queue[at.index].clone();
        (Stage::CheckingAttachment(at), ArchiveAction::ContainsAttachment(owner, id))
    } else {
        let stub = at.stub.clone();
        (
            Stage::CheckingRaw { stub: at.stub, fetched: at.fetched },
            ArchiveAction::ContainsRawMessage(stub),
        )
    }
}

/// The attachments with the next one as the current one.
fn advance(at: Attachments) -> (r: Attachments)
    requires
        at.index < at.queue@.len(),
    ensures
        r@ == advanced(at@),
{
    let len = at.queue.len();
    let index: usize = if at.index < len {
        at.index + 1
    } else {
        len
    };
    Attachments { index, ..at }
}

/// Goes on to the next message.
fn to_next_message(fetched: u64) -> (next: (Stage, ArchiveAction))
    ensures
        (next.0@, next.1) == message_done(fetched),
{
    let n: u64 = if fetched < u64::MAX {
        fetched + 1
    } else {
        fetched
    };
    let thousands = if n % PROGRESS_INTERVAL == 0 {
        Some(n / PROGRESS_INTERVAL)
    } else {
        None
    };
    (Stage::AwaitingMessage { fetched: n }, ArchiveAction::NextMessage { opening: None, thousands })
}

/// The attachment references of a message, each one copied.
fn attachment_queue(message: &FullMessage) -> (queue: Vec<AttachmentId>)
    ensures
        queue@ == attachment_refs(visit_order(message.payload)),
{
    let refs = extract_attachment_ids(message);
    let mut queue: Vec<AttachmentId> = Vec::new();
    let mut i: usize = 0;
    while i < refs.len()
        invariant
            i <= refs.len(),
            queue@.len() == i,
            forall|j: int| 0 <= j < i ==> queue@[j] == *refs@[j],
        decreases refs.len() - i,
    {
        queue.push(refs[i].clone());
        i += 1;
    }
    proof {
        assert(queue@ =~= refs@.map_values(|id: &AttachmentId| *id));
    }
    queue
}

impl Stage {
    /// The stage of a run of which nothing has happened.
    pub fn new() -> (stage: Stage)
        ensures
            stage@ == StageView::Idle,
    {
        Stage::Idle
    }

    /// Takes the caller's report and says what to do next.
    pub fn step(self, event: ArchiveEvent) -> (next: (Stage, ArchiveAction))
        ensures
            (next.0@, next.1) == archive_step(self@, event),
    {
        match (self, event) {
            (Stage::Idle, ArchiveEvent::Start) => (Stage::ListingLabels, ArchiveAction::ListLabels),
            (Stage::ListingLabels, ArchiveEvent::Labels(list)) => to_next_label(list.labels, 0),
            (Stage::CheckingLabel(l), ArchiveEvent::Exists(stored)) => {
                if l.index >= l.labels.len() {
                    (Stage::Finished, ArchiveAction::Abort)
                } else if stored {
                    to_next_label(l.labels, l.index + 1)
                } else {
                    let id = l.labels[l.index].id.clone();
                    (Stage::FetchingLabel(l), ArchiveAction::FetchLabel(id))
                }
            },
            (Stage::FetchingLabel(l), ArchiveEvent::Label(label)) => (
                Stage::InsertingLabel(l),
                ArchiveAction::InsertLabel(label),
            ),
            (Stage::InsertingLabel(l), ArchiveEvent::Stored) => {
                if l.index >= l.labels.len() {
                    (Stage::Finished, ArchiveAction::Abort)
                } else {
                    to_next_label(l.labels, l.index + 1)
                }
            },
            (Stage::FetchingProfile, ArchiveEvent::Profile(profile)) => (
                Stage::CountingStored { total: profile.messages_total },
                ArchiveAction::CountMessages,
            ),
            (Stage::CountingStored { total }, ArchiveEvent::Count(stored)) => (
                Stage::AwaitingMessage { fetched: 0 },
                ArchiveAction::NextMessage { opening: Some((total, stored)), thousands: None },
            ),
            (Stage::AwaitingMessage { fetched }, ArchiveEvent::Message(next)) => match next {
                Some(message) => {
                    let id = message.id.clone();
                    (
                        Stage::CheckingMessage { stub: message.id, fetched },
                        ArchiveAction::ContainsMessage(id),
                    )
                },
                None => (Stage::Finished, ArchiveAction::Finish),
            },
            (Stage::CheckingMessage { stub, fetched }, ArchiveEvent::Exists(stored)) => {
                let id = stub.clone();
                if stored {
                    (Stage::LoadingAttachmentIds { stub, fetched }, ArchiveAction::AttachmentIds(id))
                } else {
                    (Stage::FetchingFull { stub, fetched }, ArchiveAction::FetchFullMessage(id))
                }
            },
            (Stage::LoadingAttachmentIds { stub, fetched }, ArchiveEvent::AttachmentIds(ids)) => {
                let owner = stub.clone();
                to_next_attachment(Attachments { stub, owner, queue: ids, index: 0, fetched })
            },
            (Stage::FetchingFull { stub, fetched }, ArchiveEvent::Full(message)) => {
                let queue = attachment_queue(&message);
                let owner = message.id.clone();
                (
                    Stage::InsertingMessage(Attachments { stub, owner, queue, index: 0, fetched }),
                    ArchiveAction::InsertMessage(message),
                )
            },
            (Stage::InsertingMessage(at), ArchiveEvent::Stored) => to_next_attachment(at),
            (Stage::CheckingAttachment(at), ArchiveEvent::Exists(stored)) => {
                if at.index >= at.queue.len() {
                    (Stage::Finished, ArchiveAction::Abort)
                } else if stored {
                    to_next_attachment(advance(at))
                } else {
                    let owner = at.owner.clone();
                    let id = at.queue[at.index].clone();
                    (Stage::FetchingAttachment(at), ArchiveAction::FetchAttachment(owner, id))
                }
            },
            (Stage::FetchingAttachment(at), ArchiveEvent::Attachment(attachment)) => {
                if at.index >= at.queue.len() {
                    (Stage::Finished, ArchiveAction::Abort)
                } else {
                    let owner = at.owner.clone();
                    let id = at.queue[at.index].clone();
                    (
                        Stage::InsertingAttachment(at),
                        ArchiveAction::InsertAttachment(owner, id, attachment),
                    )
                }
            },
            (Stage::InsertingAttachment(at), ArchiveEvent::Stored) => {
                if at.index >= at.queue.len() {
                    (Stage::Finished, ArchiveAction::Abort)
                } else {
                    to_next_attachment(advance(at))
                }
            },
            (Stage::CheckingRaw { stub, fetched }, ArchiveEvent::Exists(stored)) => {
                if stored {
                    to_next_message(fetched)
                } else {
                    let id = stub.clone();
                    (Stage::FetchingRaw { stub, fetched }, ArchiveAction::FetchRawMessage(id))
                }
            },
            (Stage::FetchingRaw { stub, fetched }, ArchiveEvent::Raw(raw)) => (
                Stage::InsertingRaw { fetched },
                ArchiveAction::InsertRawMessage(stub, raw.raw),
            ),
            (Stage::InsertingRaw { fetched }, ArchiveEvent::Stored) => to_next_message(fetched),
            _ => (Stage::Finished, ArchiveAction::Abort),
        }
    }
}

/// Nothing is stored that the store was not asked about first: a record is
/// handed to the store only after it was fetched, and it is fetched only
/// after the store answered no to the check for it.
pub proof fn lemma_insert_follows_negative_check(stage: StageView, event: ArchiveEvent)
    ensures
        archive_step(stage, event).1 is InsertLabel ==> stage is FetchingLabel,
        archive_step(stage, event).1 is InsertMessage ==> stage is FetchingFull,
        archive_step(stage, event).1 is InsertAttachment ==> stage is FetchingAttachment,
        archive_step(stage, event).1 is InsertRawMessage ==> stage is FetchingRaw,
        archive_step(stage, event).0 is FetchingLabel ==> stage is CheckingLabel && event
            == ArchiveEvent::Exists(false),
        archive_step(stage, event).0 is FetchingFull ==> stage is CheckingMessage && event
            == ArchiveEvent::Exists(false),
        archive_step(stage, event).0 is FetchingAttachment ==> stage is CheckingAttachment && event
            == ArchiveEvent::Exists(false),
        archive_step(stage, event).0 is FetchingRaw ==> stage is CheckingRaw && event
            == ArchiveEvent::Exists(false),
        archive_step(stage, event).1.is_record_fetch() <==> archive_step(stage, event).0 is FetchingLabel
            || archive_step(stage, event).0 is FetchingFull || archive_step(
            stage,
            event,
        ).0 is FetchingAttachment || archive_step(stage, event).0 is FetchingRaw,
{
}

/// What is checked is what is fetched and stored: the check, the fetch and
/// the insert of one entity name the same entity.
pub proof fn lemma_check_names_what_is_fetched(stage: StageView)
    ensures
        stage matches StageView::CheckingLabel(l) ==> l.index < l.labels.len() ==> archive_step(
            stage,
            ArchiveEvent::Exists(false),
        ).1 == ArchiveAction::FetchLabel(l.labels[l.index as int].id),
        stage matches StageView::CheckingMessage { stub, fetched } ==> archive_step(
            stage,
            ArchiveEvent::Exists(false),
        ).1 == ArchiveAction::FetchFullMessage(stub),
        stage matches StageView::CheckingAttachment(at) ==> at.index < at.queue.len()
            ==> archive_step(stage, ArchiveEvent::Exists(false)).1 == ArchiveAction::FetchAttachment(
            at.owner,
            at.queue[at.index as int],
        ),
        stage matches StageView::CheckingRaw { stub, fetched } ==> archive_step(
            stage,
            ArchiveEvent::Exists(false),
        ).1 == ArchiveAction::FetchRawMessage(stub),
{
}

/// The first failure ends the run, and a run that has ended stays ended.
pub proof fn lemma_failure_aborts(stage: StageView, event: ArchiveEvent)
    ensures
        archive_step(stage, ArchiveEvent::Failed) == (StageView::Finished, ArchiveAction::Abort),
        archive_step(StageView::Finished, event) == (StageView::Finished, ArchiveAction::Abort),
{
}

/// What the store holds, by key.
pub struct MirrorModel {
    pub labels: Set<Seq<char>>,
    pub messages: Set<Seq<char>>,
    /// For each message held, the attachment references that its rows
    /// record, in the order of the rows.
    pub references: Map<Seq<char>, Seq<Seq<char>>>,
    pub attachments: Set<(Seq<char>, Seq<char>)>,
    pub raw_messages: Set<Seq<char>>,
}

impl MirrorModel {
    /// Whether the store holds already what `action` would store.
    pub open spec fn holds(self, action: ArchiveAction) -> bool {
        match action {
            ArchiveAction::InsertLabel(label) => self.labels.contains(label.id@),
            ArchiveAction::InsertMessage(message) => self.messages.contains(message.id@),
            ArchiveAction::InsertAttachment(owner, id, _) => self.attachments.contains(
                (owner@, id@),
            ),
            ArchiveAction::InsertRawMessage(id, _) => self.raw_messages.contains(id@),
            _ => false,
        }
    }

    /// The store after `action` was answered with `event`: it has grown
    /// where it was asked to store something and did.
    pub open spec fn after(self, action: ArchiveAction, event: ArchiveEvent) -> MirrorModel {
        if event is Stored {
            match action {
                ArchiveAction::InsertLabel(label) => MirrorModel {
                    labels: self.labels.insert(label.id@),
                    ..self
                },
                ArchiveAction::InsertMessage(message) => MirrorModel {
                    messages: self.messages.insert(message.id@),
                    references: self.references.insert(
                        message.id@,
                        references_of(visit_order(message.payload)),
                    ),
                    ..self
                },
                ArchiveAction::InsertAttachment(owner, id, _) => MirrorModel {
                    attachments: self.attachments.insert((owner@, id@)),
                    ..self
                },
                ArchiveAction::InsertRawMessage(id, _) => MirrorModel {
                    raw_messages: self.raw_messages.insert(id@),
                    ..self
                },
                _ => self,
            }
        } else {
            self
        }
    }
}

/// Whether `event` is an answer that `action` may get from a store that
/// holds `model` and tells the truth about it, and from a remote side that
/// hands out the record that it is asked for. Anything may fail.
pub open spec fn is_answer(model: MirrorModel, action: ArchiveAction, event: ArchiveEvent) -> bool {
    event is Failed || match action {
        ArchiveAction::ContainsLabel(id) => event == ArchiveEvent::Exists(
            model.labels.contains(id@),
        ),
        ArchiveAction::ContainsMessage(id) => event == ArchiveEvent::Exists(
            model.messages.contains(id@),
        ),
        ArchiveAction::ContainsAttachment(owner, id) => event == ArchiveEvent::Exists(
            model.attachments.contains((owner@, id@)),
        ),
        ArchiveAction::ContainsRawMessage(id) => event == ArchiveEvent::Exists(
            model.raw_messages.contains(id@),
        ),
        ArchiveAction::FetchLabel(id) => event matches ArchiveEvent::Label(label) && label.id@
            == id@,
        ArchiveAction::FetchFullMessage(id) => event matches ArchiveEvent::Full(message)
            && message.id@ == id@,
        _ => true,
    }
}

/// Whether every report of `events` is an answer to what was asked last,
/// from `action` in `stage` on, over a store that starts as `model`.
pub open spec fn is_truthful(
    stage: StageView,
    action: ArchiveAction,
    model: MirrorModel,
    events: Seq<ArchiveEvent>,
) -> bool
    decreases events.len(),
{
    events.len() == 0 || {
        let next = archive_step(stage, events[0]);
        &&& is_answer(model, action, events[0])
        &&& is_truthful(next.0, next.1, model.after(action, events[0]), events.drop_first())
    }
}

/// The number of times that the store is made to store what it holds
/// already, as `events` come in from `action` in `stage` on, over a store
/// that starts as `model`.
pub open spec fn duplicates(
    stage: StageView,
    action: ArchiveAction,
    model: MirrorModel,
    events: Seq<ArchiveEvent>,
) -> nat
    decreases events.len(),
{
    if events.len() == 0 {
        0
    } else {
        let next = archive_step(stage, events[0]);
        let rest = duplicates(next.0, next.1, model.after(action, events[0]), events.drop_first());
        if action.is_insert() && events[0] is Stored && model.holds(action) {
            rest + 1
        } else {
            rest
        }
    }
}

/// Whether `action` is what `stage` awaits the answer to, with the store
/// holding `model`: a check, a fetch and an insert name the entity that the
/// stage is at, and what is being fetched or stored is not in the store.
pub open spec fn awaits(stage: StageView, action: ArchiveAction, model: MirrorModel) -> bool {
    match stage {
        StageView::CheckingLabel(l) => l.index < l.labels.len() && action
            == ArchiveAction::ContainsLabel(l.labels[l.index as int].id),
        StageView::FetchingLabel(l) => l.index < l.labels.len() && action
            == ArchiveAction::FetchLabel(l.labels[l.index as int].id) && !model.labels.contains(
            l.labels[l.index as int].id@,
        ),
        StageView::InsertingLabel(l) => action is InsertLabel && !model.holds(action),
        StageView::CheckingMessage { stub, fetched } => action == ArchiveAction::ContainsMessage(
            stub,
        ),
        StageView::FetchingFull { stub, fetched } => action == ArchiveAction::FetchFullMessage(stub)
            && !model.messages.contains(stub@),
        StageView::InsertingMessage(at) => action is InsertMessage && !model.holds(action),
        StageView::CheckingAttachment(at) => at.index < at.queue.len() && action
            == ArchiveAction::ContainsAttachment(at.owner, at.queue[at.index as int]),
        StageView::FetchingAttachment(at) => at.index < at.queue.len() && action
            == ArchiveAction::FetchAttachment(at.owner, at.queue[at.index as int])
            && !model.attachments.contains((at.owner@, at.queue[at.index as int]@)),
        StageView::InsertingAttachment(at) => action is InsertAttachment && !model.holds(action),
        StageView::CheckingRaw { stub, fetched } => action == ArchiveAction::ContainsRawMessage(
            stub,
        ),
        StageView::FetchingRaw { stub, fetched } => action == ArchiveAction::FetchRawMessage(stub)
            && !model.raw_messages.contains(stub@),
        StageView::InsertingRaw { fetched } => action is InsertRawMessage && !model.holds(action),
        _ => !action.is_insert(),
    }
}

/// One step of a truthful run: what is asked next is what the next stage
/// awaits, and if the step stored something, the store did not hold it.
pub proof fn lemma_step_keeps_the_store_free_of_duplicates(
    stage: StageView,
    action: ArchiveAction,
    model: MirrorModel,
    event: ArchiveEvent,
)
    requires
        awaits(stage, action, model),
        is_answer(model, action, event),
    ensures
        awaits(
            archive_step(stage, event).0,
            archive_step(stage, event).1,
            model.after(action, event),
        ),
        action.is_insert() ==> !model.holds(action),
{
}

/// Over a store that tells the truth and a remote side that hands out what
/// it is asked for, a run never stores what the store holds already: every
/// insert follows a check of the same entity that the store answered with
/// no, and nothing is stored in between. This holds of a first run and of
/// every run after it, complete or not.
pub proof fn lemma_no_duplicate_is_stored(
    stage: StageView,
    action: ArchiveAction,
    model: MirrorModel,
    events: Seq<ArchiveEvent>,
)
    requires
        awaits(stage, action, model),
        is_truthful(stage, action, model, events),
    ensures
        duplicates(stage, action, model, events) == 0,
    decreases events.len(),
{
    if events.len() > 0 {
        let next = archive_step(stage, events[0]);
        lemma_step_keeps_the_store_free_of_duplicates(stage, action, model, events[0]);
        lemma_no_duplicate_is_stored(
            next.0,
            next.1,
            model.after(action, events[0]),
            events.drop_first(),
        );
    }
}

/// A run starts by asking for the label listing, which is no insert: the
/// law above holds of every run from its start.
pub proof fn lemma_a_run_starts_clean(model: MirrorModel)
    ensures
        archive_step(StageView::Idle, ArchiveEvent::Start) == (
            StageView::ListingLabels,
            ArchiveAction::ListLabels,
        ),
        awaits(StageView::ListingLabels, ArchiveAction::ListLabels, model),
{
}

/// The actions of a run: what the loop asks for as the reports of `events`
/// come in one after the other, from `stage` on.
pub open spec fn actions(stage: StageView, events: Seq<ArchiveEvent>) -> Seq<ArchiveAction>
    decreases events.len(),
{
    if events.len() == 0 {
        Seq::empty()
    } else {
        let next = archive_step(stage, events[0]);
        seq![next.1] + actions(next.0, events.drop_first())
    }
}

/// A run over a store that holds everything stores nothing and fetches no
/// record: where no existence check is answered with no, no action of the
/// run is an insert or the fetch of a record. This is what makes a second
/// run over an unchanged mailbox write nothing.
pub proof fn lemma_resume_inserts_nothing(stage: StageView, events: Seq<ArchiveEvent>)
    requires
        !stage.is_mirroring(),
        forall|i: int| 0 <= i < events.len() ==> #[trigger] events[i] != ArchiveEvent::Exists(false),
    ensures
        forall|i: int|
            0 <= i < actions(stage, events).len() ==> !(#[trigger] actions(stage, events)[i]).is_insert()
                && !actions(stage, events)[i].is_record_fetch(),
    decreases events.len(),
{
    if events.len() > 0 {
        let next = archive_step(stage, events[0]);
        let rest = events.drop_first();
        assert(events[0] != ArchiveEvent::Exists(false));
        assert(!next.0.is_mirroring());
        assert forall|i: int| 0 <= i < rest.len() implies #[trigger] rest[i] != ArchiveEvent::Exists(
            false,
        ) by {
            assert(rest[i] == events[i + 1]);
        }
        lemma_resume_inserts_nothing(next.0, rest);
        let all = actions(stage, events);
        assert forall|i: int| 0 <= i < all.len() implies !(#[trigger] all[i]).is_insert()
            && !all[i].is_record_fetch() by {
            if i > 0 {
                assert(all[i] == actions(next.0, rest)[i - 1]);
            }
        }
    }
}

} // verus!
