//! The requests of the mailbox service: which resource each one names and
//! what it carries.

use crate::http::{GenericClient, Method, Request};
use crate::model::{AttachmentId, LabelId, MessageId, MinimalMessage, PageToken};
use crate::oauth::AccessToken;
use crate::pager::Pager;
use crate::text::{form_view, texts};
use vstd::prelude::*;

verus! {

/// The base address of the mailbox service.
pub const BASE_URL: &'static str = "https://gmail.googleapis.com/gmail/v1";

/// The client of the mailbox service.
pub struct GmailClient {
    pub http_client: GenericClient,
}

/// Whether `request` is a `GET` below the client's base address for the
/// resource at `path`, with `token` as its bearer token and no form.
pub open spec fn is_get(
    request: Request,
    client: GmailClient,
    path: Seq<Seq<char>>,
    token: AccessToken,
) -> bool {
    &&& request.base_url@ == client.http_client.base_url@
    &&& texts(request.path@) == path
    &&& request.method == Method::Get
    &&& request.form is None
    &&& request.access_token == Some(token)
}

impl GmailClient {
    /// A client for the mailbox service at its public address.
    pub fn new() -> (client: GmailClient)
        ensures
            client.http_client.base_url@ == BASE_URL@,
    {
        GmailClient { http_client: GenericClient::new(BASE_URL.to_owned()) }
    }

    /// The request for the owner's profile.
    pub fn profile<'a>(&'a self, token: AccessToken) -> (request: Request<'a>)
        ensures
            is_get(request, *self, seq!["users"@, "me"@, "profile"@], token),
            request.query is None,
    {
        let mut path: Vec<&str> = Vec::new();
        path.push("users");
        path.push("me");
        path.push("profile");
        proof {
            assert(texts(path@) =~= seq!["users"@, "me"@, "profile"@]);
        }
        self.http_client.request(path).access_token(token)
    }

    /// The request for one label in full.
    pub fn label<'a>(&'a self, id: &'a LabelId, token: AccessToken) -> (request: Request<'a>)
        ensures
            is_get(request, *self, seq!["users"@, "me"@, "labels"@, id@], token),
            request.query is None,
    {
        let mut path: Vec<&str> = Vec::new();
        path.push("users");
        path.push("me");
        path.push("labels");
        path.push(id.as_str());
        proof {
            assert(texts(path@) =~= seq!["users"@, "me"@, "labels"@, id@]);
        }
        self.http_client.request(path).access_token(token)
    }

    /// The request for the label listing.
    pub fn list_labels<'a>(&'a self, token: AccessToken) -> (request: Request<'a>)
        ensures
            is_get(request, *self, seq!["users"@, "me"@, "labels"@], token),
            request.query is None,
    {
        let mut path: Vec<&str> = Vec::new();
        path.push("users");
        path.push("me");
        path.push("labels");
        proof {
            assert(texts(path@) =~= seq!["users"@, "me"@, "labels"@]);
        }
        self.http_client.request(path).access_token(token)
    }

    /// The request for one message in the given format: how much of the
    /// record comes back is the format's choice.
    pub fn message<'a>(&'a self, id: &'a MessageId, format: &'a str, token: AccessToken) -> (request:
        Request<'a>)
        ensures
            is_get(request, *self, seq!["users"@, "me"@, "messages"@, id@], token),
            request.query matches Some(query) && form_view(query@) == seq![("format"@, format@)],
    {
        let mut path: Vec<&str> = Vec::new();
        path.push("users");
        path.push("me");
        path.push("messages");
        path.push(id.as_str());
        let mut query: Vec<(&str, &str)> = Vec::new();
        query.push(("format", format));
        proof {
            assert(texts(path@) =~= seq!["users"@, "me"@, "messages"@, id@]);
            assert(form_view(query@) =~= seq![("format"@, format@)]);
        }
        self.http_client.request(path).access_token(token).query(query)
    }

    /// The request for one message as a tree of parts.
    pub fn full_message<'a>(&'a self, id: &'a MessageId, token: AccessToken) -> (request: Request<
        'a,
    >)
        ensures
            is_get(request, *self, seq!["users"@, "me"@, "messages"@, id@], token),
            request.query matches Some(query) && form_view(query@) == seq![("format"@, "full"@)],
    {
        self.message(id, "full", token)
    }

    /// The request for one message in wire format.
    pub fn raw_message<'a>(&'a self, id: &'a MessageId, token: AccessToken) -> (request: Request<
        'a,
    >)
        ensures
            is_get(request, *self, seq!["users"@, "me"@, "messages"@, id@], token),
            request.query matches Some(query) && form_view(query@) == seq![("format"@, "raw"@)],
    {
        self.message(id, "raw", token)
    }

    /// The producer of a stream over the message listing.
    pub fn list_messages(&self) -> (pager: Pager<MinimalMessage>)
        ensures
            pager@ == crate::pager::initial::<MinimalMessage>(),
    {
        Pager::new()
    }

    /// The request for one page of the message listing: the first page
    /// where no cursor is given, the page after the cursor otherwise.
    pub fn list_messages_page<'a>(
        &'a self,
        page_token: Option<&'a PageToken>,
        token: AccessToken,
    ) -> (request: Request<'a>)
        ensures
            is_get(request, *self, seq!["users"@, "me"@, "messages"@], token),
            match page_token {
                Some(cursor) => request.query matches Some(query) && form_view(query@) == seq![
                    ("pageToken"@, cursor@),
                ],
                None => request.query is None,
            },
    {
        let mut path: Vec<&str> = Vec::new();
        path.push("users");
        path.push("me");
        path.push("messages");
        proof {
            assert(texts(path@) =~= seq!["users"@, "me"@, "messages"@]);
        }
        let query = match page_token {
            Some(cursor) => {
                let mut query: Vec<(&str, &str)> = Vec::new();
                query.push(("pageToken", cursor.as_str()));
                proof {
                    assert(form_view(query@) =~= seq![("pageToken"@, cursor@)]);
                }
                Some(query)
            },
            None => None,
        };
        self.http_client.request(path).access_token(token).maybe_query(query)
    }

    /// The request for one attachment of one message.
    pub fn attachment<'a>(
        &'a self,
        message_id: &'a MessageId,
        attachment_id: &'a AttachmentId,
        token: AccessToken,
    ) -> (request: Request<'a>)
        ensures
            is_get(
                request,
                *self,
                seq![
                    "users"@,
                    "me"@,
                    "messages"@,
                    message_id@,
                    "attachments"@,
                    attachment_id@,
                ],
                token,
            ),
            request.query is None,
    {
        let mut path: Vec<&str> = Vec::new();
        path.push("users");
        path.push("me");
        path.push("messages");
        path.push(message_id.as_str());
        path.push("attachments");
        path.push(attachment_id.as_str());
        proof {
            assert(texts(path@) =~= seq![
                "users"@,
                "me"@,
                "messages"@,
                message_id@,
                "attachments"@,
                attachment_id@,
            ]);
        }
        self.http_client.request(path).access_token(token)
    }
}

} // verus!
