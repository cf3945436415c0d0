//! The records exchanged with the remote mailbox service.
//!
//! Identifiers are opaque text issued by the remote side; every identifier
//! type wraps a `String` and is viewed as its sequence of characters.

use crate::time::Timestamp;
use vstd::prelude::*;

verus! {

/// Opaque continuation marker of a paginated listing.
#[derive(Debug)]
pub struct PageToken(pub String);

/// Identifier of a conversation thread.
#[derive(Debug)]
pub struct ThreadId(pub String);

/// Identifier of a point in the mailbox's change history.
#[derive(Debug)]
pub struct HistoryId(pub String);

/// Identifier of a message.
#[derive(Debug)]
pub struct MessageId(pub String);

/// Identifier of a label.
#[derive(Debug)]
pub struct LabelId(pub String);

/// Identifier of a part inside one message.
#[derive(Debug)]
pub struct PartId(pub String);

/// Identifier of an attachment inside one message.
#[derive(Debug)]
pub struct AttachmentId(pub String);

impl View for PageToken {
    type V = Seq<char>;

    open spec fn view(&self) -> Seq<char> {
        self.0@
    }
}

impl View for ThreadId {
    type V = Seq<char>;

    open spec fn view(&self) -> Seq<char> {
        self.0@
    }
}

impl View for HistoryId {
    type V = Seq<char>;

    open spec fn view(&self) -> Seq<char> {
        self.0@
    }
}

impl View for MessageId {
    type V = Seq<char>;

    open spec fn view(&self) -> Seq<char> {
        self.0@
    }
}

impl View for LabelId {
    type V = Seq<char>;

    open spec fn view(&self) -> Seq<char> {
        self.0@
    }
}

impl View for PartId {
    type V = Seq<char>;

    open spec fn view(&self) -> Seq<char> {
        self.0@
    }
}

impl View for AttachmentId {
    type V = Seq<char>;

    open spec fn view(&self) -> Seq<char> {
        self.0@
    }
}

impl PageToken {
    /// The token's text.
    pub fn as_str(&self) -> (s: &str)
        ensures
            s@ == self@,
    {
        self.0.as_str()
    }
}

impl ThreadId {
    /// The identifier's text.
    pub fn as_str(&self) -> (s: &str)
        ensures
            s@ == self@,
    {
        self.0.as_str()
    }
}

impl HistoryId {
    /// The identifier's text.
    pub fn as_str(&self) -> (s: &str)
        ensures
            s@ == self@,
    {
        self.0.as_str()
    }
}

impl MessageId {
    /// The identifier's text.
    pub fn as_str(&self) -> (s: &str)
        ensures
            s@ == self@,
    {
        self.0.as_str()
    }
}

impl LabelId {
    /// The identifier's text.
    pub fn as_str(&self) -> (s: &str)
        ensures
            s@ == self@,
    {
        self.0.as_str()
    }
}

impl PartId {
    /// The identifier's text.
    pub fn as_str(&self) -> (s: &str)
        ensures
            s@ == self@,
    {
        self.0.as_str()
    }
}

impl AttachmentId {
    /// The identifier's text.
    pub fn as_str(&self) -> (s: &str)
        ensures
            s@ == self@,
    {
        self.0.as_str()
    }
}

impl Clone for MessageId {
    fn clone(&self) -> (r: Self)
        ensures
            r == *self,
    {
        MessageId(self.0.clone())
    }
}

impl Clone for PartId {
    fn clone(&self) -> (r: Self)
        ensures
            r == *self,
    {
        PartId(self.0.clone())
    }
}

impl Clone for AttachmentId {
    fn clone(&self) -> (r: Self)
        ensures
            r == *self,
    {
        AttachmentId(self.0.clone())
    }
}

impl Clone for LabelId {
    fn clone(&self) -> (r: Self)
        ensures
            r == *self,
    {
        LabelId(self.0.clone())
    }
}

impl Clone for PageToken {
    fn clone(&self) -> (r: Self)
        ensures
            r == *self,
    {
        PageToken(self.0.clone())
    }
}

impl From<String> for AttachmentId {
    fn from(value: String) -> (r: Self) {
        AttachmentId(value)
    }
}

impl vstd::std_specs::convert::FromSpecImpl<String> for AttachmentId {
    open spec fn obeys_from_spec() -> bool {
        true
    }

    open spec fn from_spec(value: String) -> Self {
        AttachmentId(value)
    }
}

/// One page of a listing, taken apart: its items in listing order and the
/// marker of the page that follows, absent on the last page.
pub struct PageParts<T> {
    pub next_page_token: Option<PageToken>,
    pub items: Vec<T>,
}

/// A page of a cursor-based listing.
pub trait Page<T> {
    /// Takes the page apart.
    fn decompose(self) -> PageParts<T>;
}

/// The mailbox owner's profile.
#[derive(Debug)]
pub struct UserProfile {
    pub email_address: String,
    pub messages_total: usize,
    pub threads_total: usize,
    pub history_id: String,
}

/// A thread with the stubs of its messages.
#[derive(Debug)]
pub struct Thread {
    pub id: ThreadId,
    pub history_id: HistoryId,
    pub messages: Vec<MinimalMessage>,
}

/// The stub of a message, as a listing returns it.
#[derive(Debug)]
pub struct MinimalMessage {
    pub id: MessageId,
    pub thread_id: ThreadId,
}

/// The stub of a thread, as a listing returns it.
#[derive(Debug)]
pub struct MinimalThread {
    pub id: ThreadId,
    pub history_id: HistoryId,
}

/// One page of the thread listing.
#[derive(Debug)]
pub struct ThreadsPage {
    pub threads: Vec<MinimalThread>,
    pub next_page_token: Option<PageToken>,
}

/// One page of the message listing.
#[derive(Debug)]
pub struct MessagesPage {
    pub messages: Vec<MinimalMessage>,
    pub next_page_token: Option<PageToken>,
}

impl Page<MinimalThread> for ThreadsPage {
    fn decompose(self) -> (parts: PageParts<MinimalThread>)
        ensures
            parts.items == self.threads,
            parts.next_page_token == self.next_page_token,
    {
        PageParts { next_page_token: self.next_page_token, items: self.threads }
    }
}

impl Page<MinimalMessage> for MessagesPage {
    fn decompose(self) -> (parts: PageParts<MinimalMessage>)
        ensures
            parts.items == self.messages,
            parts.next_page_token == self.next_page_token,
    {
        PageParts { next_page_token: self.next_page_token, items: self.messages }
    }
}

/// A message in full: its envelope data and the root of its tree of parts.
#[derive(Debug)]
pub struct FullMessage {
    pub id: MessageId,
    pub thread_id: ThreadId,
    pub label_ids: Vec<LabelId>,
    pub snippet: String,
    pub history_id: HistoryId,
    pub internal_date: Timestamp,
    pub size_estimate: usize,
    pub payload: MessagePart,
}

/// A message in wire format, stored independently of its structured form.
#[derive(Debug)]
pub struct RawMessage {
    pub id: MessageId,
    pub thread_id: ThreadId,
    pub label_ids: Vec<LabelId>,
    pub snippet: String,
    pub history_id: HistoryId,
    pub internal_date: Timestamp,
    pub size_estimate: usize,
    pub raw: Vec<u8>,
}

/// One node of a message's MIME tree. `parts` holds the children in the
/// order of the message; nesting depth is up to the sender.
#[derive(Debug)]
pub struct MessagePart {
    pub part_id: PartId,
    pub mime_type: String,
    pub filename: String,
    pub headers: Vec<Header>,
    pub body: MessagePartBody,
    pub parts: Vec<MessagePart>,
}

/// The body of a part: its size and either inline data, a reference to an
/// attachment to fetch separately, or neither.
#[derive(Debug)]
pub struct MessagePartBody {
    pub size: usize,
    pub attachment_id: Option<AttachmentId>,
    pub data: Option<Vec<u8>>,
}

/// The content of an attachment.
#[derive(Debug)]
pub struct Attachment {
    pub size: usize,
    pub data: Vec<u8>,
}

/// One header line of a part.
#[derive(Debug)]
pub struct Header {
    pub name: String,
    pub value: String,
}

impl Clone for Header {
    fn clone(&self) -> (r: Self)
        ensures
            r == *self,
    {
        Header { name: self.name.clone(), value: self.value.clone() }
    }
}

/// A label as the label listing returns it.
#[derive(Debug)]
pub struct MinimalLabel {
    pub id: LabelId,
    pub name: String,
    pub message_list_visibility: Option<MessageListVisibility>,
    pub label_list_visibility: Option<LabelListVisibility>,
    pub kind: LabelType,
}

/// The label listing. It is not paginated.
#[derive(Debug)]
pub struct LabelList {
    pub labels: Vec<MinimalLabel>,
}

/// A label in full.
#[derive(Debug)]
pub struct Label {
    pub id: LabelId,
    pub name: String,
    pub message_list_visibility: Option<MessageListVisibility>,
    pub label_list_visibility: Option<LabelListVisibility>,
    pub kind: LabelType,
    pub color: Option<LabelColor>,
}

/// Whether messages with a label show in the message list.
#[derive(Debug, PartialEq, Eq, Clone, Copy, Structural)]
pub enum MessageListVisibility {
    Show,
    Hide,
}

/// Whether a label shows in the label list.
#[derive(Debug, PartialEq, Eq, Clone, Copy, Structural)]
pub enum LabelListVisibility {
    Show,
    ShowIfUnread,
    Hide,
}

/// Who owns a label.
#[derive(Debug, PartialEq, Eq, Clone, Copy, Structural)]
pub enum LabelType {
    System,
    User,
}

/// The colours of a label.
#[derive(Debug)]
pub struct LabelColor {
    pub text_color: String,
    pub background_color: String,
}

impl MessageListVisibility {
    /// The variant's name in upper snake case.
    pub open spec fn name(self) -> Seq<char> {
        match self {
            MessageListVisibility::Show => "SHOW"@,
            MessageListVisibility::Hide => "HIDE"@,
        }
    }

    /// The variant's name in upper snake case, as the store's enumerated
    /// column type spells it.
    pub fn as_str(&self) -> (s: &'static str)
        ensures
            s@ == self.name(),
    {
        match self {
            MessageListVisibility::Show => "SHOW",
            MessageListVisibility::Hide => "HIDE",
        }
    }
}

impl LabelListVisibility {
    /// The variant's name in upper snake case.
    pub open spec fn name(self) -> Seq<char> {
        match self {
            LabelListVisibility::Show => "SHOW"@,
            LabelListVisibility::ShowIfUnread => "SHOW_IF_UNREAD"@,
            LabelListVisibility::Hide => "HIDE"@,
        }
    }

    /// The variant's name in upper snake case, as the store's enumerated
    /// column type spells it.
    pub fn as_str(&self) -> (s: &'static str)
        ensures
            s@ == self.name(),
    {
        match self {
            LabelListVisibility::Show => "SHOW",
            LabelListVisibility::ShowIfUnread => "SHOW_IF_UNREAD",
            LabelListVisibility::Hide => "HIDE",
        }
    }
}

impl LabelType {
    /// The variant's name in upper snake case.
    pub open spec fn name(self) -> Seq<char> {
        match self {
            LabelType::System => "SYSTEM"@,
            LabelType::User => "USER"@,
        }
    }

    /// The variant's name in upper snake case, as the store's enumerated
    /// column type spells it.
    pub fn as_str(&self) -> (s: &'static str)
        ensures
            s@ == self.name(),
    {
        match self {
            LabelType::System => "SYSTEM",
            LabelType::User => "USER",
        }
    }
}

} // verus!
