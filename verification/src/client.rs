//! The request-building and response-classification half of the API
//! client: endpoint URLs, pagination query parameters, and the success /
//! failure split of a response. The HTTP transport itself, and the JSON
//! decoding of response bodies, are the caller's affair.

use vstd::prelude::*;

use crate::models::MessagingProductContact;
use crate::models::Order;
use crate::text::spec_decimal;
use crate::text::u32_decimal;

verus! {

/// True exactly when an HTTP status code counts as success (2xx).
pub fn status_is_success(status: u16) -> (r: bool)
    ensures
        r == (200 <= status < 300),
{
    200 <= status && status < 300
}

/// A non-success response: the status code and the body text, verbatim.
#[derive(Debug)]
pub struct ApiFailure {
    pub status: u16,
    pub body: String,
}

/// Splits a response into its body on success (2xx) and an [`ApiFailure`]
/// carrying status and body verbatim otherwise.
pub fn classify_response(status: u16, body: String) -> (r: Result<String, ApiFailure>)
    ensures
        200 <= status < 300 ==> (r matches Ok(b) && b == body),
        !(200 <= status < 300) ==> (r matches Err(f) && f.status == status && f.body == body),
{
    if status_is_success(status) {
        Ok(body)
    } else {
        Err(ApiFailure { status, body })
    }
}

// ---------------------------------------------------------------------------
// Endpoint URLs
// ---------------------------------------------------------------------------

/// URL of the OAuth token endpoint under a base URL.
pub fn token_endpoint_url(base_url: &str) -> (r: String)
    ensures
        r@ == base_url@ + "/user/oauth/token"@,
{
    base_url.to_owned().concat("/user/oauth/token")
}

/// URL of the message-send endpoint under a base URL.
pub fn message_endpoint_url(base_url: &str) -> (r: String)
    ensures
        r@ == base_url@ + "/message/whatsapp"@,
{
    base_url.to_owned().concat("/message/whatsapp")
}

/// URL of the conversation-list endpoint under a base URL.
pub fn conversations_endpoint_url(base_url: &str) -> (r: String)
    ensures
        r@ == base_url@ + "/message/conversation"@,
{
    base_url.to_owned().concat("/message/conversation")
}

/// URL of the per-contact conversation-list endpoint under a base URL.
pub fn conversation_messages_endpoint_url(base_url: &str, contact_id: &str) -> (r: String)
    ensures
        r@ == base_url@ + "/message/conversation/messaging-product-contact/"@ + contact_id@,
{
    base_url.to_owned().concat("/message/conversation/messaging-product-contact/").concat(
        contact_id,
    )
}

/// URL of the contact-lookup endpoint under a base URL.
pub fn contact_endpoint_url(base_url: &str) -> (r: String)
    ensures
        r@ == base_url@ + "/messaging-product/contact"@,
{
    base_url.to_owned().concat("/messaging-product/contact")
}

// ---------------------------------------------------------------------------
// Query parameters
// ---------------------------------------------------------------------------

/// The query value of an [`Order`].
pub open spec fn spec_order_str(o: Order) -> Seq<char> {
    if o == Order::Asc {
        "asc"@
    } else {
        "desc"@
    }
}

/// The query parameters of the conversation-list endpoint: `limit` and
/// `offset` in decimal, then the optional creation-time upper bound.
pub open spec fn spec_conversations_query(
    limit: nat,
    offset: nat,
    created_at_leq: Option<Seq<char>>,
) -> Seq<(Seq<char>, Seq<char>)> {
    let base = seq![("limit"@, spec_decimal(limit)), ("offset"@, spec_decimal(offset))];
    if created_at_leq is Some {
        base.push(("created_at_leq"@, created_at_leq->0))
    } else {
        base
    }
}

/// Builds the query of the conversation-list endpoint.
pub fn conversations_query(limit: u32, offset: u32, created_at_leq: Option<&str>) -> (q: Vec<
    (String, String),
>)
    ensures
        q.deep_view() == spec_conversations_query(
            limit as nat,
            offset as nat,
            match created_at_leq {
                Some(d) => Some(d@),
                None => None,
            },
        ),
{
    let mut q: Vec<(String, String)> = Vec::new();
    q.push(("limit".to_owned(), u32_decimal(limit)));
    q.push(("offset".to_owned(), u32_decimal(offset)));
    if let Some(d) = created_at_leq {
        q.push(("created_at_leq".to_owned(), d.to_owned()));
    }
    proof {
        assert(q.deep_view() =~= spec_conversations_query(
            limit as nat,
            offset as nat,
            match created_at_leq {
                Some(d) => Some(d@),
                None => None,
            },
        ));
    }
    q
}

/// The query parameters of the per-contact conversation-list endpoint:
/// `limit` and `offset` in decimal, then the optional creation-time upper
/// bound and the optional orderings, in this order.
pub open spec fn spec_conversation_messages_query(
    limit: nat,
    offset: nat,
    created_at_leq: Option<Seq<char>>,
    created_at_order: Option<Order>,
    updated_at_order: Option<Order>,
) -> Seq<(Seq<char>, Seq<char>)> {
    let base = spec_conversations_query(limit, offset, created_at_leq);
    let with_created = if created_at_order is Some {
        base.push(("created_at"@, spec_order_str(created_at_order->0)))
    } else {
        base
    };
    if updated_at_order is Some {
        with_created.push(("updated_at"@, spec_order_str(updated_at_order->0)))
    } else {
        with_created
    }
}

/// Builds the query of the per-contact conversation-list endpoint.
pub fn conversation_messages_query(
    limit: u32,
    offset: u32,
    created_at_leq: Option<&str>,
    created_at_order: Option<Order>,
    updated_at_order: Option<Order>,
) -> (q: Vec<(String, String)>)
    ensures
        q.deep_view() == spec_conversation_messages_query(
            limit as nat,
            offset as nat,
            match created_at_leq {
                Some(d) => Some(d@),
                None => None,
            },
            created_at_order,
            updated_at_order,
        ),
{
    let mut q = conversations_query(limit, offset, created_at_leq);
    if let Some(o) = created_at_order {
        q.push(("created_at".to_owned(), o.as_str().to_owned()));
    }
    if let Some(o) = updated_at_order {
        q.push(("updated_at".to_owned(), o.as_str().to_owned()));
    }
    proof {
        assert(q.deep_view() =~= spec_conversation_messages_query(
            limit as nat,
            offset as nat,
            match created_at_leq {
                Some(d) => Some(d@),
                None => None,
            },
            created_at_order,
            updated_at_order,
        ));
    }
    q
}

/// Builds the query of the contact-lookup endpoint: the contact id, with a
/// single-element page.
pub fn contact_query(contact_id: &str) -> (q: Vec<(String, String)>)
    ensures
        q.deep_view() =~= seq![
            ("id"@, contact_id@),
            ("limit"@, "1"@),
            ("offset"@, "0"@),
        ],
{
    let mut q: Vec<(String, String)> = Vec::new();
    q.push(("id".to_owned(), contact_id.to_owned()));
    q.push(("limit".to_owned(), "1".to_owned()));
    q.push(("offset".to_owned(), "0".to_owned()));
    q
}

/// The contact a single-contact lookup response resolves to: the last
/// element of the returned page, if any.
pub fn last_listed_contact(contacts: Vec<MessagingProductContact>) -> (r: Option<
    MessagingProductContact,
>)
    ensures
        contacts@.len() == 0 ==> r is None,
        contacts@.len() > 0 ==> (r matches Some(c) && c == contacts@.last()),
{
    let mut contacts = contacts;
    contacts.pop()
}

} // verus!
