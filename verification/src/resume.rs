//! What a run leaves behind, and what the run after it finds.
//!
//! A run is followed here in a model: the store as the sets of what it
//! holds, the remote mailbox as its two listings, and the run as the
//! reports that come in. Over a store that tells the truth about itself, a
//! run that completes leaves everything that the mailbox lists in the
//! store; and a run over such a store stores nothing and changes nothing.

use crate::archive::{
    actions, archive_step, awaits, is_answer, ArchiveAction, ArchiveEvent, AttachmentsView, LabelsView,
    MirrorModel, StageView,
};
use crate::model::{MinimalLabel, MinimalMessage};
use crate::store::{no_part_carries_both, reference_texts, references_of};
use crate::tree::visit_order;
use vstd::prelude::*;

verus! {

/// The remote mailbox, as far as a run reads its listings.
pub struct RemoteModel {
    pub labels: Seq<MinimalLabel>,
    pub messages: Seq<MinimalMessage>,
}

/// A run under way: its stage, what it asked for last, what the store
/// holds, and the number of stubs that the message listing has handed over.
pub struct RunView {
    pub stage: StageView,
    pub action: ArchiveAction,
    pub model: MirrorModel,
    pub listed: nat,
}

/// A run that has just asked for the label listing, over a store that
/// holds `model`.
pub open spec fn start_of_run(model: MirrorModel) -> RunView {
    RunView {
        stage: StageView::ListingLabels,
        action: ArchiveAction::ListLabels,
        model,
        listed: 0,
    }
}

/// The run after `event` has come in.
pub open spec fn run_step(run: RunView, event: ArchiveEvent) -> RunView {
    let next = archive_step(run.stage, event);
    RunView {
        stage: next.0,
        action: next.1,
        model: run.model.after(run.action, event),
        listed: if run.action is NextMessage && event matches ArchiveEvent::Message(Some(_)) {
            run.listed + 1
        } else {
            run.listed
        },
    }
}

/// The run after all of `events` have come in.
pub open spec fn run_end(run: RunView, events: Seq<ArchiveEvent>) -> RunView
    decreases events.len(),
{
    if events.len() == 0 {
        run
    } else {
        run_end(run_step(run, events[0]), events.drop_first())
    }
}

/// Whether `event` is what the run may be told next: the store tells the
/// truth, stores what it is given, and lists for a message the references
/// that it recorded; the remote side serves its listings as they are and
/// the records that it is asked for, and in no message does a part name an
/// attachment and carry inline data as well. Anything may fail.
pub open spec fn is_served(run: RunView, remote: RemoteModel, event: ArchiveEvent) -> bool {
    &&& is_answer(run.model, run.action, event)
    &&& event is Failed || match run.action {
        ArchiveAction::ListLabels => event matches ArchiveEvent::Labels(list) && list.labels@
            == remote.labels,
        ArchiveAction::InsertLabel(_) => event is Stored,
        ArchiveAction::InsertMessage(_) => event is Stored,
        ArchiveAction::InsertAttachment(_, _, _) => event is Stored,
        ArchiveAction::InsertRawMessage(_, _) => event is Stored,
        ArchiveAction::FetchProfile => event is Profile,
        ArchiveAction::CountMessages => event is Count,
        ArchiveAction::NextMessage { opening, thousands } => event == ArchiveEvent::Message(
            if run.listed < remote.messages.len() {
                Some(remote.messages[run.listed as int])
            } else {
                None
            },
        ),
        ArchiveAction::AttachmentIds(id) => event matches ArchiveEvent::AttachmentIds(ids)
            && reference_texts(ids@) == run.model.references[id@],
        ArchiveAction::FetchFullMessage(_) => event matches ArchiveEvent::Full(message)
            && no_part_carries_both(visit_order(message.payload)),
        ArchiveAction::FetchAttachment(_, _) => event is Attachment,
        ArchiveAction::FetchRawMessage(_) => event is Raw,
        _ => true,
    }
}

/// Whether each of `events` is what the run may be told when it comes in.
pub open spec fn is_served_run(run: RunView, remote: RemoteModel, events: Seq<ArchiveEvent>) -> bool
    decreases events.len(),
{
    events.len() == 0 || (is_served(run, remote, events[0]) && is_served_run(
        run_step(run, events[0]),
        remote,
        events.drop_first(),
    ))
}

/// Whether the store holds the first `upto` labels of the listing.
pub open spec fn labels_done(model: MirrorModel, remote: RemoteModel, upto: nat) -> bool {
    forall|j: int|
        0 <= j < upto && j < remote.labels.len() ==> model.labels.contains(
            (#[trigger] remote.labels[j]).id@,
        )
}

/// Whether the store holds the attachments of the first `upto` references
/// that it recorded for the message `id`.
pub open spec fn references_stored(model: MirrorModel, id: Seq<char>, upto: nat) -> bool {
    forall|r: int|
        0 <= r < upto && r < model.references[id].len() ==> model.attachments.contains(
            (id, #[trigger] model.references[id][r]),
        )
}

/// Whether the store holds the message `id` with all that belongs to it:
/// the message, the attachment of every reference recorded for it, and its
/// wire form.
pub open spec fn message_done(model: MirrorModel, id: Seq<char>) -> bool {
    &&& model.messages.contains(id)
    &&& references_stored(model, id, model.references[id].len())
    &&& model.raw_messages.contains(id)
}

/// Whether the store holds the first `upto` messages of the listing with
/// all that belongs to them.
pub open spec fn messages_done(model: MirrorModel, remote: RemoteModel, upto: nat) -> bool {
    forall|i: int|
        0 <= i < upto && i < remote.messages.len() ==> message_done(
            model,
            (#[trigger] remote.messages[i]).id@,
        )
}

/// Whether the store mirrors the mailbox: it holds every label and every
/// message that the mailbox lists, with all that belongs to them.
pub open spec fn is_complete(model: MirrorModel, remote: RemoteModel) -> bool {
    &&& labels_done(model, remote, remote.labels.len())
    &&& messages_done(model, remote, remote.messages.len())
}

/// Whether the run is at the message that the listing handed over last,
/// `id`, with the labels and the messages before it in the store.
pub open spec fn at_message(run: RunView, remote: RemoteModel, id: Seq<char>) -> bool {
    &&& labels_done(run.model, remote, remote.labels.len())
    &&& 1 <= run.listed <= remote.messages.len()
    &&& remote.messages[run.listed - 1].id@ == id
    &&& messages_done(run.model, remote, (run.listed - 1) as nat)
}

/// Whether the run is at the labels, with the labels before the current
/// one in the store.
pub open spec fn at_label(run: RunView, remote: RemoteModel, l: LabelsView) -> bool {
    &&& run.listed == 0
    &&& l.labels == remote.labels
    &&& labels_done(run.model, remote, l.index)
}

/// Whether the run is at the attachments of the message that the listing
/// handed over last, which the store holds, with the attachments before the
/// current one in the store.
pub open spec fn at_attachment(run: RunView, remote: RemoteModel, at: AttachmentsView) -> bool {
    &&& at_message(run, remote, at.stub@)
    &&& at.owner@ == at.stub@
    &&& run.model.messages.contains(at.stub@)
    &&& reference_texts(at.queue) == run.model.references[at.stub@]
    &&& references_stored(run.model, at.stub@, at.index)
}

/// Whether the run is on its course: what it asked for last is what its
/// stage awaits, and the store holds what the run has gone through.
pub open spec fn on_course(run: RunView, remote: RemoteModel) -> bool {
    &&& awaits(run.stage, run.action, run.model)
    &&& run.action is Finish ==> run.stage is Finished
    &&& match run.stage {
        StageView::Idle => run.listed == 0,
        StageView::ListingLabels => run.listed == 0 && run.action == ArchiveAction::ListLabels,
        StageView::CheckingLabel(l) => at_label(run, remote, l),
        StageView::FetchingLabel(l) => at_label(run, remote, l),
        StageView::InsertingLabel(l) => {
            &&& at_label(run, remote, l)
            &&& l.index < l.labels.len()
            &&& run.action matches ArchiveAction::InsertLabel(label)
            &&& label.id@ == l.labels[l.index as int].id@
        },
        StageView::FetchingProfile => run.listed == 0 && labels_done(
            run.model,
            remote,
            remote.labels.len(),
        ),
        StageView::CountingStored { total } => run.listed == 0 && labels_done(
            run.model,
            remote,
            remote.labels.len(),
        ),
        StageView::AwaitingMessage { fetched } => {
            &&& run.action is NextMessage
            &&& run.listed <= remote.messages.len()
            &&& labels_done(run.model, remote, remote.labels.len())
            &&& messages_done(run.model, remote, run.listed)
        },
        StageView::CheckingMessage { stub, fetched } => at_message(run, remote, stub@),
        StageView::FetchingFull { stub, fetched } => at_message(run, remote, stub@),
        StageView::LoadingAttachmentIds { stub, fetched } => {
            &&& at_message(run, remote, stub@)
            &&& run.action == ArchiveAction::AttachmentIds(stub)
            &&& run.model.messages.contains(stub@)
        },
        StageView::InsertingMessage(at) => {
            &&& at_message(run, remote, at.stub@)
            &&& at.owner@ == at.stub@
            &&& at.index == 0
            &&& run.action matches ArchiveAction::InsertMessage(message)
            &&& message.id@ == at.stub@
            &&& reference_texts(at.queue) == references_of(visit_order(message.payload))
        },
        StageView::CheckingAttachment(at) => at_attachment(run, remote, at),
        StageView::FetchingAttachment(at) => at_attachment(run, remote, at),
        StageView::InsertingAttachment(at) => {
            &&& at_attachment(run, remote, at)
            &&& at.index < at.queue.len()
            &&& run.action matches ArchiveAction::InsertAttachment(owner, id, _)
            &&& owner@ == at.stub@
            &&& id@ == at.queue[at.index as int]@
        },
        StageView::CheckingRaw { stub, fetched } => {
            &&& at_message(run, remote, stub@)
            &&& run.model.messages.contains(stub@)
            &&& references_stored(run.model, stub@, run.model.references[stub@].len())
        },
        StageView::FetchingRaw { stub, fetched } => {
            &&& at_message(run, remote, stub@)
            &&& run.model.messages.contains(stub@)
            &&& references_stored(run.model, stub@, run.model.references[stub@].len())
        },
        StageView::InsertingRaw { fetched } => {
            &&& run.action matches ArchiveAction::InsertRawMessage(id, _)
            &&& at_message(run, remote, id@)
            &&& run.model.messages.contains(id@)
            &&& references_stored(run.model, id@, run.model.references[id@].len())
        },
        StageView::Finished => run.action is Finish ==> is_complete(run.model, remote),
    }
}

/// What the store holds, it goes on holding: a message that is in the
/// store with all that belongs to it stays so when the store takes
/// something that it did not hold.
proof fn lemma_done_stays_done(
    model: MirrorModel,
    action: ArchiveAction,
    event: ArchiveEvent,
    id: Seq<char>,
)
    requires
        action is InsertMessage ==> !model.holds(action),
        model.messages.contains(id),
    ensures
        model.after(action, event).references[id] == model.references[id],
        model.after(action, event).messages.contains(id),
        forall|upto: nat|
            references_stored(model, id, upto) ==> #[trigger] references_stored(
                model.after(action, event),
                id,
                upto,
            ),
        message_done(model, id) ==> message_done(model.after(action, event), id),
{
    let later = model.after(action, event);
    assert(later.references[id] == model.references[id]);
    assert forall|upto: nat| references_stored(model, id, upto) implies #[trigger] references_stored(
        later,
        id,
        upto,
    ) by {
        assert forall|r: int| 0 <= r < upto && r < later.references[id].len() implies later.attachments.contains(
            (id, #[trigger] later.references[id][r]),
        ) by {
            assert(model.attachments.contains((id, model.references[id][r])));
        }
    }
}

/// The labels and messages that the store holds of the listings, it goes
/// on holding when it takes something that it did not hold.
proof fn lemma_listed_stays_done(
    model: MirrorModel,
    action: ArchiveAction,
    event: ArchiveEvent,
    remote: RemoteModel,
    labels: nat,
    messages: nat,
)
    requires
        action is InsertMessage ==> !model.holds(action),
        labels_done(model, remote, labels),
        messages_done(model, remote, messages),
    ensures
        labels_done(model.after(action, event), remote, labels),
        messages_done(model.after(action, event), remote, messages),
{
    let later = model.after(action, event);
    assert forall|j: int| 0 <= j < labels && j < remote.labels.len() implies later.labels.contains(
        (#[trigger] remote.labels[j]).id@,
    ) by {
        assert(model.labels.contains(remote.labels[j].id@));
    }
    assert forall|i: int| 0 <= i < messages && i < remote.messages.len() implies message_done(
        later,
        (#[trigger] remote.messages[i]).id@,
    ) by {
        assert(message_done(model, remote.messages[i].id@));
        lemma_done_stays_done(model, action, event, remote.messages[i].id@);
    }
}

/// The number of labels of the listing that a run on its course has seen
/// into the store.
pub open spec fn labels_behind(run: RunView, remote: RemoteModel) -> nat {
    match run.stage {
        StageView::Idle => 0,
        StageView::ListingLabels => 0,
        StageView::CheckingLabel(l) => l.index,
        StageView::FetchingLabel(l) => l.index,
        StageView::InsertingLabel(l) => l.index,
        StageView::Finished => 0,
        _ => remote.labels.len(),
    }
}

/// The number of messages of the listing that a run on its course has seen
/// into the store with all that belongs to them.
pub open spec fn messages_behind(run: RunView) -> nat {
    match run.stage {
        StageView::Idle => 0,
        StageView::ListingLabels => 0,
        StageView::CheckingLabel(_) => 0,
        StageView::FetchingLabel(_) => 0,
        StageView::InsertingLabel(_) => 0,
        StageView::FetchingProfile => 0,
        StageView::CountingStored { total } => 0,
        StageView::Finished => 0,
        StageView::AwaitingMessage { fetched } => run.listed,
        _ => (run.listed - 1) as nat,
    }
}

/// The message that a run on its course is at, where the store holds it.
pub open spec fn message_at(run: RunView) -> Option<Seq<char>> {
    match run.stage {
        StageView::LoadingAttachmentIds { stub, fetched } => Some(stub@),
        StageView::CheckingAttachment(at) => Some(at.stub@),
        StageView::FetchingAttachment(at) => Some(at.stub@),
        StageView::InsertingAttachment(at) => Some(at.stub@),
        StageView::CheckingRaw { stub, fetched } => Some(stub@),
        StageView::FetchingRaw { stub, fetched } => Some(stub@),
        StageView::InsertingRaw { fetched } => match run.action {
            ArchiveAction::InsertRawMessage(id, _) => Some(id@),
            _ => None,
        },
        _ => None,
    }
}

/// One step of a run that is served keeps it on its course.
pub proof fn lemma_step_stays_on_course(run: RunView, remote: RemoteModel, event: ArchiveEvent)
    requires
        on_course(run, remote),
        is_served(run, remote, event),
    ensures
        on_course(run_step(run, event), remote),
{
    let next = run_step(run, event);
    crate::archive::lemma_step_keeps_the_store_free_of_duplicates(
        run.stage,
        run.action,
        run.model,
        event,
    );
    lemma_listed_stays_done(
        run.model,
        run.action,
        event,
        remote,
        labels_behind(run, remote),
        messages_behind(run),
    );
    match message_at(run) {
        Some(id) => {
            lemma_done_stays_done(run.model, run.action, event, id);
        },
        None => {},
    }
    if run.stage is FetchingFull {
        if let ArchiveEvent::Full(message) = event {
            crate::store::lemma_references_are_the_ones_to_fetch(visit_order(message.payload));
        }
    }
}

/// A run that is served stays on its course to its end.
pub proof fn lemma_run_stays_on_course(
    run: RunView,
    remote: RemoteModel,
    events: Seq<ArchiveEvent>,
)
    requires
        on_course(run, remote),
        is_served_run(run, remote, events),
    ensures
        on_course(run_end(run, events), remote),
    decreases events.len(),
{
    if events.len() > 0 {
        lemma_step_stays_on_course(run, remote, events[0]);
        lemma_run_stays_on_course(run_step(run, events[0]), remote, events.drop_first());
    }
}

/// A run that completes leaves a mirror behind: where a run that is served
/// from its start ends by saying that it is complete, the store holds every
/// label and every message that the mailbox lists, with the attachments of
/// all the references recorded for them and with their wire forms. What the
/// store held before does not matter.
pub proof fn lemma_complete_run_leaves_a_mirror(
    model: MirrorModel,
    remote: RemoteModel,
    events: Seq<ArchiveEvent>,
)
    requires
        is_served_run(start_of_run(model), remote, events),
        run_end(start_of_run(model), events).action is Finish,
    ensures
        is_complete(run_end(start_of_run(model), events).model, remote),
{
    lemma_run_stays_on_course(start_of_run(model), remote, events);
}

/// One step of a run over a mirror: every check is answered with yes, so
/// nothing is fetched in full, nothing is stored, and the store stays as it
/// is.
pub proof fn lemma_step_over_a_mirror(run: RunView, remote: RemoteModel, event: ArchiveEvent)
    requires
        on_course(run, remote),
        is_complete(run.model, remote),
        !run.stage.is_mirroring(),
        is_served(run, remote, event),
    ensures
        run_step(run, event).model == run.model,
        !run_step(run, event).stage.is_mirroring(),
        !run_step(run, event).action.is_insert(),
        !run_step(run, event).action.is_record_fetch(),
{
    match run.stage {
        StageView::CheckingLabel(l) => {
            assert(run.model.labels.contains(remote.labels[l.index as int].id@));
        },
        StageView::CheckingMessage { stub, fetched } => {
            assert(message_done(run.model, remote.messages[run.listed - 1].id@));
        },
        StageView::CheckingAttachment(at) => {
            assert(message_done(run.model, remote.messages[run.listed - 1].id@));
            assert(reference_texts(at.queue)[at.index as int] == at.queue[at.index as int]@);
            assert(run.model.attachments.contains(
                (at.stub@, run.model.references[at.stub@][at.index as int]),
            ));
        },
        StageView::CheckingRaw { stub, fetched } => {
            assert(message_done(run.model, remote.messages[run.listed - 1].id@));
        },
        _ => {},
    }
}

/// A run over a mirror stores nothing: where the store holds everything
/// that the mailbox lists, no action of a run that is served is an insert
/// or the fetch of a record, and at its end the store is what it was.
pub proof fn lemma_run_over_a_mirror_stores_nothing(
    run: RunView,
    remote: RemoteModel,
    events: Seq<ArchiveEvent>,
)
    requires
        on_course(run, remote),
        is_complete(run.model, remote),
        !run.stage.is_mirroring(),
        is_served_run(run, remote, events),
    ensures
        run_end(run, events).model == run.model,
        forall|i: int|
            0 <= i < actions(run.stage, events).len() ==> !(#[trigger] actions(
                run.stage,
                events,
            )[i]).is_insert() && !actions(run.stage, events)[i].is_record_fetch(),
    decreases events.len(),
{
    if events.len() > 0 {
        let next = run_step(run, events[0]);
        let rest = events.drop_first();
        lemma_step_stays_on_course(run, remote, events[0]);
        lemma_step_over_a_mirror(run, remote, events[0]);
        lemma_run_over_a_mirror_stores_nothing(next, remote, rest);
        let all = actions(run.stage, events);
        assert forall|i: int| 0 <= i < all.len() implies !(#[trigger] all[i]).is_insert()
            && !all[i].is_record_fetch() by {
            if i > 0 {
                assert(all[i] == actions(next.stage, rest)[i - 1]);
            }
        }
    }
}

/// Running the archive twice against an unchanged mailbox stores nothing
/// the second time. Where a first run, served from its start over whatever
/// the store held, ends by saying that it is complete, a second run over
/// the store that it left, served by the same mailbox, asks for no insert
/// and for no record, whether it completes or fails on the way, and leaves
/// the store as the first run left it.
pub proof fn lemma_second_run_stores_nothing(
    model: MirrorModel,
    remote: RemoteModel,
    first: Seq<ArchiveEvent>,
    second: Seq<ArchiveEvent>,
)
    requires
        is_served_run(start_of_run(model), remote, first),
        run_end(start_of_run(model), first).action is Finish,
        is_served_run(
            start_of_run(run_end(start_of_run(model), first).model),
            remote,
            second,
        ),
    ensures
        run_end(start_of_run(run_end(start_of_run(model), first).model), second).model == run_end(
            start_of_run(model),
            first,
        ).model,
        forall|i: int|
            0 <= i < actions(StageView::ListingLabels, second).len() ==> !(#[trigger] actions(
                StageView::ListingLabels,
                second,
            )[i]).is_insert() && !actions(StageView::ListingLabels, second)[i].is_record_fetch(),
{
    lemma_complete_run_leaves_a_mirror(model, remote, first);
    lemma_run_over_a_mirror_stores_nothing(
        start_of_run(run_end(start_of_run(model), first).model),
        remote,
        second,
    );
}

} // verus!
