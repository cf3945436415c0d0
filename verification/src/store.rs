//! The rows that mirror the remote records in the local relational store.
//!
//! The store itself is a database behind a connection. What is decided here
//! is what goes into it: which rows a record becomes, in which order they are
//! written, and what a stored row means when it is read back. A message is
//! written as one transaction: its row, one row per label, and for each part
//! of its tree a row in the parts table and a row in the body table.

use crate::model::{Attachment, AttachmentId, FullMessage, Header, Label, MessageId, MessagePart};
use crate::oauth::client::AccessTokenUpdate;
use crate::oauth::{AccessToken, OAuthTokens, RefreshToken};
use crate::text::texts;
use crate::time::{rfc3339_text, Timestamp, MAX_SECS, MIN_SECS};
use crate::tree::{deref_parts, visit_order, visit_parts};
use vstd::prelude::*;

verus! {

/// The version of the schema that this library writes.
pub const SCHEMA_VERSION: i32 = 0;

/// Why the store could not be used or a row could not be made or read.
#[derive(Debug, PartialEq, Eq, Clone, Copy, Structural)]
pub enum StoreError {
    /// The store was written under a schema version that is not known here.
    UnrecognizedVersion(i32),
    /// A stored timestamp, in the given column, lies outside the
    /// representable range of dates.
    IntegralValueOutOfRange(usize, i64),
    /// The list of a part's children could not be put into text.
    ChildrenNotSerialized,
}

/// What to do with a store that has just been opened.
#[derive(Debug, PartialEq, Eq, Clone, Copy, Structural)]
pub enum SchemaAction {
    /// The store is new: create the tables and mark them with the version.
    Create,
    /// The store is at the current version: use it as it is.
    Keep,
}

/// What opening a store has to do, given the version marker found in it,
/// `None` where it holds no marker.
pub open spec fn schema_action(found: Option<i32>) -> Result<SchemaAction, StoreError> {
    match found {
        None => Ok(SchemaAction::Create),
        Some(version) => if version == SCHEMA_VERSION {
            Ok(SchemaAction::Keep)
        } else {
            Err(StoreError::UnrecognizedVersion(version))
        },
    }
}

/// Decides what opening a store has to do. The tables are created only where
/// no version marker is found, so creation never runs twice on one store; a
/// marker of an unknown version is an error.
pub fn init_or_migrate_db(found: Option<i32>) -> (r: Result<SchemaAction, StoreError>)
    ensures
        r == schema_action(found),
{
    match found {
        None => Ok(SchemaAction::Create),
        Some(version) => if version == SCHEMA_VERSION {
            Ok(SchemaAction::Keep)
        } else {
            Err(StoreError::UnrecognizedVersion(version))
        },
    }
}

/// Whether a count of matching rows says that the entity is stored.
pub fn row_exists(count: usize) -> (stored: bool)
    ensures
        stored == (count > 0),
{
    count > 0
}

/// The row of the token table.
pub struct TokenRow<'a> {
    pub access_token: &'a str,
    pub refresh_token: &'a str,
    pub expires_at: String,
    pub refresh_token_expires_at: Option<String>,
}

/// The columns of the token table that a refresh rewrites.
pub struct AccessTokenRow<'a> {
    pub access_token: &'a str,
    pub expires_at: String,
}

/// The RFC 3339 text of an instant.
pub open spec fn instant_text(t: Timestamp) -> Seq<char> {
    rfc3339_text(t.spec_secs(), t.spec_nanos())
}

/// The row that holds `tokens`.
pub fn token_row<'a>(tokens: &'a OAuthTokens) -> (row: TokenRow<'a>)
    ensures
        row.access_token@ == tokens.access_token@,
        row.refresh_token@ == tokens.refresh_token@,
        row.expires_at@ == instant_text(tokens.expires_at),
        match tokens.refresh_token_expires_at {
            Some(t) => row.refresh_token_expires_at matches Some(text) && text@ == instant_text(t),
            None => row.refresh_token_expires_at is None,
        },
{
    TokenRow {
        access_token: tokens.access_token.as_str(),
        refresh_token: tokens.refresh_token.as_str(),
        expires_at: tokens.expires_at.to_rfc3339(),
        refresh_token_expires_at: match &tokens.refresh_token_expires_at {
            Some(t) => Some(t.to_rfc3339()),
            None => None,
        },
    }
}

/// The columns that `update` rewrites.
pub fn access_token_row<'a>(update: &'a AccessTokenUpdate) -> (row: AccessTokenRow<'a>)
    ensures
        row.access_token@ == update.access_token@,
        row.expires_at@ == instant_text(update.expires_at),
{
    AccessTokenRow {
        access_token: update.access_token.as_str(),
        expires_at: update.expires_at.to_rfc3339(),
    }
}

/// Whether a stored timestamp, microseconds since the epoch, is a
/// representable instant.
pub open spec fn micros_in_range(micros: i64) -> bool {
    MIN_SECS <= micros as int / 1_000_000 <= MAX_SECS
}

/// Whether `t` is the instant `micros` microseconds after the epoch.
pub open spec fn is_micros(t: Timestamp, micros: i64) -> bool {
    &&& t.spec_secs() == micros as int / 1_000_000
    &&& t.spec_nanos() == (micros as int % 1_000_000) * 1000
}

/// The tokens that a row of the token table holds. The timestamps are read
/// as microseconds since the epoch; one that is no representable instant
/// fails the row, and the error names its column.
pub fn tokens_from_row(
    access_token: String,
    refresh_token: String,
    expires_at: i64,
    refresh_token_expires_at: Option<i64>,
) -> (r: Result<OAuthTokens, StoreError>)
    ensures
        !micros_in_range(expires_at) ==> r == Err::<OAuthTokens, StoreError>(
            StoreError::IntegralValueOutOfRange(2, expires_at),
        ),
        micros_in_range(expires_at) ==> match refresh_token_expires_at {
            Some(micros) => if micros_in_range(micros) {
                &&& r matches Ok(tokens)
                &&& tokens.access_token.0 == access_token
                &&& tokens.refresh_token.0 == refresh_token
                &&& is_micros(tokens.expires_at, expires_at)
                &&& tokens.refresh_token_expires_at matches Some(t)
                &&& is_micros(t, micros)
            } else {
                r == Err::<OAuthTokens, StoreError>(StoreError::IntegralValueOutOfRange(3, micros))
            },
            None => {
                &&& r matches Ok(tokens)
                &&& tokens.access_token.0 == access_token
                &&& tokens.refresh_token.0 == refresh_token
                &&& is_micros(tokens.expires_at, expires_at)
                &&& tokens.refresh_token_expires_at is None
            },
        },
{
    let expires = match Timestamp::from_micros(expires_at) {
        Some(t) => t,
        None => {
            return Err(StoreError::IntegralValueOutOfRange(2, expires_at));
        },
    };
    let refresh_expires = match refresh_token_expires_at {
        Some(micros) => match Timestamp::from_micros(micros) {
            Some(t) => Some(t),
            None => {
                return Err(StoreError::IntegralValueOutOfRange(3, micros));
            },
        },
        None => None,
    };
    Ok(
        OAuthTokens {
            access_token: AccessToken(access_token),
            refresh_token: RefreshToken(refresh_token),
            expires_at: expires,
            refresh_token_expires_at: refresh_expires,
        },
    )
}

/// The row of the label table.
pub struct LabelRow<'a> {
    pub id: &'a str,
    pub name: &'a str,
    pub message_list_visibility: Option<&'static str>,
    pub label_list_visibility: Option<&'static str>,
    pub kind: &'static str,
    pub color_text: Option<&'a str>,
    pub background_color: Option<&'a str>,
}

/// The row that holds `label`. Labels are keyed by their identifier, so a
/// label that is already stored must not be written again.
pub fn label_row<'a>(label: &'a Label) -> (row: LabelRow<'a>)
    ensures
        row.id@ == label.id@,
        row.name@ == label.name@,
        match label.message_list_visibility {
            Some(v) => row.message_list_visibility matches Some(text) && text@ == v.name(),
            None => row.message_list_visibility is None,
        },
        match label.label_list_visibility {
            Some(v) => row.label_list_visibility matches Some(text) && text@ == v.name(),
            None => row.label_list_visibility is None,
        },
        row.kind@ == label.kind.name(),
        match label.color {
            Some(color) => {
                &&& row.color_text matches Some(text) && text@ == color.text_color@
                &&& row.background_color matches Some(text) && text@ == color.background_color@
            },
            None => row.color_text is None && row.background_color is None,
        },
{
    LabelRow {
        id: label.id.as_str(),
        name: label.name.as_str(),
        message_list_visibility: match &label.message_list_visibility {
            Some(v) => Some(v.as_str()),
            None => None,
        },
        label_list_visibility: match &label.label_list_visibility {
            Some(v) => Some(v.as_str()),
            None => None,
        },
        kind: label.kind.as_str(),
        color_text: match &label.color {
            Some(color) => Some(color.text_color.as_str()),
            None => None,
        },
        background_color: match &label.color {
            Some(color) => Some(color.background_color.as_str()),
            None => None,
        },
    }
}

/// The row of the message table.
pub struct MessageRow<'a> {
    pub id: &'a str,
    pub thread_id: &'a str,
    pub snippet: &'a str,
    pub history_id: &'a str,
    pub internal_date: String,
    pub size_estimate: usize,
}

/// A row of the table that joins messages and labels.
pub struct MessageLabelRow<'a> {
    pub message_id: &'a str,
    pub label_id: &'a str,
}

/// A row of the parts table. `children` lists the identifiers of the part's
/// children in the order of the message.
pub struct PartRow<'a> {
    pub message_id: &'a str,
    pub part_id: &'a str,
    pub mime_type: &'a str,
    pub filename: &'a str,
    pub headers: &'a Vec<Header>,
    pub children: Vec<&'a str>,
}

/// A row of the body table.
pub struct PartBodyRow<'a> {
    pub message_id: &'a str,
    pub part_id: &'a str,
    pub attachment_id: Option<&'a str>,
    pub size: usize,
    pub data: Option<&'a Vec<u8>>,
}

/// The two rows that one part becomes.
pub struct PartRows<'a> {
    pub part: PartRow<'a>,
    pub body: PartBodyRow<'a>,
}

/// All the rows that one message becomes, in the order they are written:
/// the message's row, the label rows, then for each part its row in the
/// parts table followed by its row in the body table.
pub struct MessageRows<'a> {
    pub message: MessageRow<'a>,
    pub labels: Vec<MessageLabelRow<'a>>,
    pub parts: Vec<PartRows<'a>>,
}

/// The row of the attachment table.
pub struct AttachmentRow<'a> {
    pub message_id: &'a str,
    pub attachment_id: &'a str,
    pub size: usize,
    pub data: &'a Vec<u8>,
}

/// The row of the table of messages in wire format.
pub struct RawMessageRow<'a> {
    pub message_id: &'a str,
    pub data: &'a [u8],
}

/// The identifiers of a part's children, in the order of the message.
pub open spec fn child_ids(part: MessagePart) -> Seq<Seq<char>> {
    part.parts@.map_values(|child: MessagePart| child.part_id@)
}

/// Whether `rows` are the rows of `part` in the message `message_id`: the
/// part's own fields, the identifiers of its children, and its body with
/// the attachment reference and the inline data as the part holds them.
pub open spec fn is_rows_of(rows: PartRows, message_id: Seq<char>, part: MessagePart) -> bool {
    &&& rows.part.message_id@ == message_id
    &&& rows.part.part_id@ == part.part_id@
    &&& rows.part.mime_type@ == part.mime_type@
    &&& rows.part.filename@ == part.filename@
    &&& *rows.part.headers == part.headers
    &&& texts(rows.part.children@) == child_ids(part)
    &&& rows.body.message_id@ == message_id
    &&& rows.body.part_id@ == part.part_id@
    &&& match part.body.attachment_id {
        Some(id) => rows.body.attachment_id matches Some(text) && text@ == id@,
        None => rows.body.attachment_id is None,
    }
    &&& rows.body.size == part.body.size
    &&& match part.body.data {
        Some(data) => rows.body.data matches Some(stored) && *stored == data,
        None => rows.body.data is None,
    }
}

/// The rows of one part.
fn part_rows<'a>(message_id: &'a str, part: &'a MessagePart) -> (rows: PartRows<'a>)
    ensures
        is_rows_of(rows, message_id@, *part),
{
    let mut children: Vec<&str> = Vec::new();
    let mut i: usize = 0;
    while i < part.parts.len()
        invariant
            i <= part.parts.len(),
            texts(children@) == child_ids(*part).take(i as int),
        decreases part.parts.len() - i,
    {
        let ghost before = texts(children@);
        children.push(part.parts[i].part_id.as_str());
        proof {
            assert(texts(children@) =~= before.push(part.parts@[i as int].part_id@));
            assert(child_ids(*part).take(i as int + 1) =~= child_ids(*part).take(i as int).push(
                part.parts@[i as int].part_id@,
            ));
        }
        i += 1;
    }
    proof {
        assert(child_ids(*part).take(part.parts.len() as int) =~= child_ids(*part));
    }
    PartRows {
        part: PartRow {
            message_id,
            part_id: part.part_id.as_str(),
            mime_type: part.mime_type.as_str(),
            filename: part.filename.as_str(),
            headers: &part.headers,
            children,
        },
        body: PartBodyRow {
            message_id,
            part_id: part.part_id.as_str(),
            attachment_id: match &part.body.attachment_id {
                Some(id) => Some(id.as_str()),
                None => None,
            },
            size: part.body.size,
            data: match &part.body.data {
                Some(data) => Some(data),
                None => None,
            },
        },
    }
}

/// The rows that `message` becomes. The tree of parts is flattened by a walk
/// that keeps its own stack: every part of the tree, however deep it lies,
/// comes out as one pair of rows, in the order of the walk.
pub fn message_rows<'a>(message: &'a FullMessage) -> (rows: MessageRows<'a>)
    ensures
        rows.message.id@ == message.id@,
        rows.message.thread_id@ == message.thread_id@,
        rows.message.snippet@ == message.snippet@,
        rows.message.history_id@ == message.history_id@,
        rows.message.internal_date@ == instant_text(message.internal_date),
        rows.message.size_estimate == message.size_estimate,
        rows.labels@.len() == message.label_ids@.len(),
        forall|i: int|
            0 <= i < rows.labels@.len() ==> (#[trigger] rows.labels@[i]).message_id@ == message.id@
                && rows.labels@[i].label_id@ == message.label_ids@[i]@,
        rows.parts@.len() == visit_order(message.payload).len(),
        forall|i: int|
            0 <= i < rows.parts@.len() ==> is_rows_of(
                #[trigger] rows.parts@[i],
                message.id@,
                visit_order(message.payload)[i],
            ),
{
    let id = message.id.as_str();
    let mut labels: Vec<MessageLabelRow> = Vec::new();
    let mut i: usize = 0;
    while i < message.label_ids.len()
        invariant
            i <= message.label_ids.len(),
            id@ == message.id@,
            labels@.len() == i,
            forall|j: int|
                0 <= j < labels@.len() ==> (#[trigger] labels@[j]).message_id@ == message.id@
                    && labels@[j].label_id@ == message.label_ids@[j]@,
        decreases message.label_ids.len() - i,
    {
        labels.push(MessageLabelRow { message_id: id, label_id: message.label_ids[i].as_str() });
        i += 1;
    }
    let order = visit_parts(&message.payload);
    let mut parts: Vec<PartRows> = Vec::new();
    let mut k: usize = 0;
    while k < order.len()
        invariant
            k <= order.len(),
            id@ == message.id@,
            deref_parts(order@) == visit_order(message.payload),
            parts@.len() == k,
            forall|j: int|
                0 <= j < parts@.len() ==> is_rows_of(
                    #[trigger] parts@[j],
                    message.id@,
                    visit_order(message.payload)[j],
                ),
        decreases order.len() - k,
    {
        proof {
            assert(deref_parts(order@)[k as int] == *order@[k as int]);
        }
        parts.push(part_rows(id, order[k]));
        k += 1;
    }
    proof {
        assert(deref_parts(order@).len() == order@.len());
    }
    MessageRows {
        message: MessageRow {
            id,
            thread_id: message.thread_id.as_str(),
            snippet: message.snippet.as_str(),
            history_id: message.history_id.as_str(),
            internal_date: message.internal_date.to_rfc3339(),
            size_estimate: message.size_estimate,
        },
        labels,
        parts,
    }
}

/// The attachment references that the body rows of a message record, in
/// the order of the rows: what the store lists for the message when its
/// attachments are filled in later.
pub open spec fn recorded_references(rows: Seq<PartRows>) -> Seq<Seq<char>>
    decreases rows.len(),
{
    if rows.len() == 0 {
        Seq::empty()
    } else {
        let before = recorded_references(rows.drop_last());
        match rows.last().body.attachment_id {
            Some(text) => before.push(text@),
            None => before,
        }
    }
}

/// The texts of a list of attachment references.
pub open spec fn reference_texts(ids: Seq<AttachmentId>) -> Seq<Seq<char>> {
    ids.map_values(|id: AttachmentId| id@)
}

/// Whether no part of `order` names an attachment and carries inline data
/// as well.
pub open spec fn no_part_carries_both(order: Seq<MessagePart>) -> bool {
    forall|i: int|
        0 <= i < order.len() ==> !((#[trigger] order[i]).body.attachment_id is Some
            && order[i].body.data is Some)
}

/// The references that the parts of `order` carry, in that order, whether
/// or not a part carries inline data as well: what the rows of a message
/// record.
pub open spec fn references_of(order: Seq<MessagePart>) -> Seq<Seq<char>>
    decreases order.len(),
{
    if order.len() == 0 {
        Seq::empty()
    } else {
        let before = references_of(order.drop_last());
        match order.last().body.attachment_id {
            Some(id) => before.push(id@),
            None => before,
        }
    }
}

/// The rows of a message record the reference of every part that has one.
pub proof fn lemma_rows_record_every_reference(
    rows: Seq<PartRows>,
    message_id: Seq<char>,
    order: Seq<MessagePart>,
)
    requires
        rows.len() == order.len(),
        forall|i: int| 0 <= i < rows.len() ==> is_rows_of(#[trigger] rows[i], message_id, order[i]),
    ensures
        recorded_references(rows) == references_of(order),
    decreases rows.len(),
{
    if rows.len() > 0 {
        let fewer = rows.drop_last();
        let shorter = order.drop_last();
        assert forall|i: int| 0 <= i < fewer.len() implies is_rows_of(
            #[trigger] fewer[i],
            message_id,
            shorter[i],
        ) by {
            assert(fewer[i] == rows[i]);
        }
        lemma_rows_record_every_reference(fewer, message_id, shorter);
        assert(is_rows_of(rows[rows.len() - 1], message_id, order[order.len() - 1]));
    }
}

/// Where no part names an attachment and carries inline data as well, the
/// references that the parts carry are the attachments that have to be
/// fetched.
pub proof fn lemma_references_are_the_ones_to_fetch(order: Seq<MessagePart>)
    requires
        no_part_carries_both(order),
    ensures
        references_of(order) == reference_texts(crate::tree::attachment_refs(order)),
    decreases order.len(),
{
    if order.len() == 0 {
        assert(reference_texts(crate::tree::attachment_refs(order)) =~= Seq::empty());
    } else {
        let shorter = order.drop_last();
        assert forall|i: int| 0 <= i < shorter.len() implies !((
        #[trigger] shorter[i]).body.attachment_id is Some && shorter[i].body.data is Some) by {
            assert(shorter[i] == order[i]);
        }
        lemma_references_are_the_ones_to_fetch(shorter);
        let last = order[order.len() - 1];
        assert(!(last.body.attachment_id is Some && last.body.data is Some));
        let found = crate::tree::attachment_refs(shorter);
        match last.body.attachment_id {
            Some(id) => {
                assert(reference_texts(found.push(id)) =~= reference_texts(found).push(id@));
            },
            None => {},
        }
    }
}

/// Where no part names an attachment and carries inline data as well, the
/// references that the rows of a message record are the attachments that
/// have to be fetched for the message, in the same order: filling in the
/// attachments of a stored message goes through the same attachments as
/// storing them along with the message. A part that does both is recorded
/// with its reference, and has nothing to fetch.
pub proof fn lemma_recorded_references_are_the_found_ones(
    rows: Seq<PartRows>,
    message_id: Seq<char>,
    order: Seq<MessagePart>,
)
    requires
        rows.len() == order.len(),
        forall|i: int| 0 <= i < rows.len() ==> is_rows_of(#[trigger] rows[i], message_id, order[i]),
        no_part_carries_both(order),
    ensures
        recorded_references(rows) == reference_texts(crate::tree::attachment_refs(order)),
{
    lemma_rows_record_every_reference(rows, message_id, order);
    lemma_references_are_the_ones_to_fetch(order);
}

/// The row that holds `attachment`, keyed by message and attachment.
pub fn attachment_row<'a>(
    message_id: &'a MessageId,
    attachment_id: &'a AttachmentId,
    attachment: &'a Attachment,
) -> (row: AttachmentRow<'a>)
    ensures
        row.message_id@ == message_id@,
        row.attachment_id@ == attachment_id@,
        row.size == attachment.size,
        *row.data == attachment.data,
{
    AttachmentRow {
        message_id: message_id.as_str(),
        attachment_id: attachment_id.as_str(),
        size: attachment.size,
        data: &attachment.data,
    }
}

/// The row that holds a message in wire format, keyed by message.
pub fn raw_message_row<'a>(message_id: &'a MessageId, data: &'a [u8]) -> (row: RawMessageRow<'a>)
    ensures
        row.message_id@ == message_id@,
        row.data@ == data@,
{
    RawMessageRow { message_id: message_id.as_str(), data }
}

/// The JSON text of a list of strings.
pub uninterp spec fn json_text_array(items: Seq<Seq<char>>) -> Seq<char>;

/// The serializer's error. Nothing of it is read here.
#[verifier::external_type_specification]
#[verifier::external_body]
pub struct ExJsonError(serde_json::Error);

/// `serde_json::to_string` on a list of strings. The contract claims what
/// the source shows: writing strings and a list into memory has no failing
/// path, so the call succeeds; and the text is a function of the strings
/// alone, to which the contract gives its name.
#[verifier::external_body]
fn json_array(items: &Vec<&str>) -> (r: Result<String, serde_json::Error>)
    ensures
        r is Ok,
        r matches Ok(text) ==> text@ == json_text_array(texts(items@)),
{
    serde_json::to_string(items)
}

/// The column value that the serializer's answer makes.
pub fn children_column(serialized: Result<String, serde_json::Error>) -> (r: Result<
    String,
    StoreError,
>)
    ensures
        match serialized {
            Ok(text) => r == Ok::<String, StoreError>(text),
            Err(_) => r == Err::<String, StoreError>(StoreError::ChildrenNotSerialized),
        },
{
    match serialized {
        Ok(text) => Ok(text),
        Err(_) => Err(StoreError::ChildrenNotSerialized),
    }
}

impl<'a> PartRow<'a> {
    /// The list of children as the text that the parts table stores: a JSON
    /// array of the children's identifiers.
    pub fn children_json(&self) -> (r: Result<String, StoreError>)
        ensures
            r matches Ok(text) && text@ == json_text_array(texts(self.children@)),
    {
        children_column(json_array(&self.children))
    }
}

} // verus!
