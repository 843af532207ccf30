//! The action dispatcher: resolving the acting contact of a conversation,
//! validating the selected rule's action, and building the exact outbound
//! request for each of the three transports. Planning is pure — the network
//! calls themselves are the caller's affair, and are skipped under `mock`.

use vstd::prelude::*;

use crate::models::Action;
use crate::models::Contact;
use crate::models::Conversation;
use crate::models::EmailAction;
use crate::models::Header;
use crate::models::HttpRequestAction;
use crate::models::MessagePayload;
use crate::models::MessagingProductContact;
use crate::models::ReminderRule;
use crate::models::SendWhatsAppMessage;
use crate::models::WacraftMessageAction;
use crate::models::WhatsAppProductDetails;
use crate::rules::select_rule;
use crate::rules::spec_select_rule;
use crate::text::replace_all;
use crate::text::push_char;
use crate::text::spec_replace;

verus! {

// ---------------------------------------------------------------------------
// Errors
// ---------------------------------------------------------------------------

/// The conditions under which a reminder cannot be dispatched.
#[derive(Debug, PartialEq, Eq)]
pub enum ReminderError {
    /// The resolved messaging-product contact has no embedded contact
    /// details.
    MissingContactDetails,
    /// A platform message was requested but the contact has no
    /// platform-specific addressing.
    MissingProductDetails,
    /// An email was requested but the contact has no email address.
    NoEmailAddress,
    /// The webhook's HTTP method is not a valid method token.
    InvalidHttpMethod,
    /// The webhook's JSON body is no longer well-formed after placeholder
    /// substitution.
    InvalidJsonBody,
}

// ---------------------------------------------------------------------------
// Contact resolution
// ---------------------------------------------------------------------------

/// The all-zero placeholder identifier that marks "no real contact".
pub open spec fn spec_nil_uuid() -> Seq<char> {
    "00000000-0000-0000-0000-000000000000"@
}

/// True exactly when `id` is the all-zero sentinel identifier.
pub fn is_nil_uuid(id: &str) -> (b: bool)
    ensures
        b == (id@ == spec_nil_uuid()),
{
    let owned = id.to_owned();
    let nil: String = "00000000-0000-0000-0000-000000000000".to_owned();
    owned == nil
}

/// The contact a conversation resolves to: the recipient-side contact if it
/// is present and real, otherwise the sender-side contact under the same
/// condition, otherwise none (a secondary lookup is then needed).
pub open spec fn spec_resolve_contact(conv: Conversation) -> Option<MessagingProductContact> {
    if conv.to_contact is Some && conv.to_contact->0.id@ != spec_nil_uuid() {
        conv.to_contact
    } else if conv.from_contact is Some && conv.from_contact->0.id@ != spec_nil_uuid() {
        conv.from_contact
    } else {
        None
    }
}

/// Resolves the acting contact of a conversation, guarding against
/// placeholder contact snapshots.
pub fn resolve_conversation_contact(conv: &Conversation) -> (r: Option<&MessagingProductContact>)
    ensures
        r is Some <==> spec_resolve_contact(*conv) is Some,
        r is Some ==> *r->0 == spec_resolve_contact(*conv)->0,
{
    match &conv.to_contact {
        Some(c) if !is_nil_uuid(c.id.as_str()) => Some(c),
        _ => match &conv.from_contact {
            Some(c) if !is_nil_uuid(c.id.as_str()) => Some(c),
            _ => None,
        },
    }
}

// ---------------------------------------------------------------------------
// Placeholder substitution
// ---------------------------------------------------------------------------

/// The contact's email for substitution purposes: the empty string when
/// absent.
pub open spec fn spec_contact_email(c: Contact) -> Seq<char> {
    if c.email is Some {
        c.email->0@
    } else {
        Seq::<char>::empty()
    }
}

/// The result of substituting the three contact placeholders into a
/// template, in the order id, name, email.
pub open spec fn spec_substitute(
    t: Seq<char>,
    id: Seq<char>,
    name: Seq<char>,
    email: Seq<char>,
) -> Seq<char> {
    spec_replace(
        spec_replace(spec_replace(t, "{contact_id}"@, id), "{contact_name}"@, name),
        "{contact_email}"@,
        email,
    )
}

/// Shorthand for substitution with a contact's own fields.
pub open spec fn spec_sub(t: Seq<char>, c: Contact) -> Seq<char> {
    spec_substitute(t, c.id@, c.name@, spec_contact_email(c))
}

/// Substitutes `{contact_id}`, `{contact_name}` and `{contact_email}` in a
/// template by the contact's fields (an absent email becomes empty).
pub fn substitute_placeholders(t: &str, c: &Contact) -> (r: String)
    ensures
        r@ == spec_sub(t@, *c),
{
    proof {
        reveal_strlit("{contact_id}");
        reveal_strlit("{contact_name}");
        reveal_strlit("{contact_email}");
        reveal_strlit("");
    }
    let s1 = replace_all(t, "{contact_id}", c.id.as_str());
    let s2 = replace_all(s1.as_str(), "{contact_name}", c.name.as_str());
    let email: &str = match &c.email {
        Some(e) => e.as_str(),
        None => "",
    };
    proof {
        assert(email@ =~= spec_contact_email(*c));
    }
    replace_all(s2.as_str(), "{contact_email}", email)
}

/// Builds the email body: the template text with `{contact_name}` replaced
/// by the contact's name.
pub fn build_email_body(template_content: &str, contact_name: &str) -> (r: String)
    ensures
        r@ == spec_replace(template_content@, "{contact_name}"@, contact_name@),
{
    proof {
        reveal_strlit("{contact_name}");
    }
    replace_all(template_content, "{contact_name}", contact_name)
}

// ---------------------------------------------------------------------------
// HTTP method validation
// ---------------------------------------------------------------------------

/// ASCII uppercasing of one character.
pub open spec fn spec_upper_char(c: char) -> char {
    if 97 <= c as int && c as int <= 122 {
        (((c as u8) - 32) as char)
    } else {
        c
    }
}

/// ASCII uppercasing of a string.
pub open spec fn spec_upper(s: Seq<char>) -> Seq<char> {
    s.map_values(|c: char| spec_upper_char(c))
}

/// True exactly when `c` may occur in an HTTP method token: an ASCII letter
/// or digit, or one of the fifteen token punctuation characters.
pub open spec fn spec_is_token_char(c: char) -> bool {
    ||| 'A' <= c && c <= 'Z'
    ||| 'a' <= c && c <= 'z'
    ||| '0' <= c && c <= '9'
    ||| c == '!'
    ||| c == '#'
    ||| c == '$'
    ||| c == '%'
    ||| c == '&'
    ||| c == '\''
    ||| c == '*'
    ||| c == '+'
    ||| c == '-'
    ||| c == '.'
    ||| c == '^'
    ||| c == '_'
    ||| c == '`'
    ||| c == '|'
    ||| c == '~'
}

/// True exactly when `s` is a valid HTTP method: non-empty and made of
/// token characters only.
pub open spec fn spec_method_ok(s: Seq<char>) -> bool {
    s.len() > 0 && (forall|i: int| 0 <= i < s.len() ==> spec_is_token_char(s[i]))
}

fn is_token_char(c: char) -> (b: bool)
    ensures
        b == spec_is_token_char(c),
{
    ('A' <= c && c <= 'Z') || ('a' <= c && c <= 'z') || ('0' <= c && c <= '9') || c == '!' || c
        == '#' || c == '$' || c == '%' || c == '&' || c == '\'' || c == '*' || c == '+' || c == '-'
        || c == '.' || c == '^' || c == '_' || c == '`' || c == '|' || c == '~'
}

/// Uppercases a method name and validates it as an HTTP method token;
/// `None` when the result would not be a valid method.
pub fn normalize_method(m: &str) -> (r: Option<String>)
    ensures
        r is Some <==> spec_method_ok(spec_upper(m@)),
        r matches Some(s) ==> s@ == spec_upper(m@),
{
    let n = m.unicode_len();
    if n == 0 {
        return None;
    }
    let mut out = String::new();
    let mut i: usize = 0;
    while i < n
        invariant
            i <= n,
            n == m@.len(),
            out@ =~= spec_upper(m@).take(i as int),
            forall|j: int| 0 <= j < i ==> spec_is_token_char(spec_upper(m@)[j]),
        decreases n - i,
    {
        let c = m.get_char(i);
        let u: char = if 'a' <= c && c <= 'z' {
            ((c as u8) - 32) as char
        } else {
            c
        };
        proof {
            assert(u == spec_upper_char(m@[i as int]));
            assert(spec_upper(m@)[i as int] == spec_upper_char(m@[i as int]));
        }
        if !is_token_char(u) {
            proof {
                assert(!spec_is_token_char(spec_upper(m@)[i as int]));
            }
            return None;
        }
        push_char(&mut out, u);
        i = i + 1;
        proof {
            assert(out@ =~= spec_upper(m@).take(i as int));
        }
    }
    proof {
        assert(spec_upper(m@).take(n as int) =~= spec_upper(m@));
    }
    Some(out)
}

// ---------------------------------------------------------------------------
// JSON body validation
// ---------------------------------------------------------------------------

/// Whether a string parses as a well-formed JSON document; a function of
/// the characters alone.
pub uninterp spec fn json_parses(s: Seq<char>) -> bool;

/// Relies on `serde_json::from_str::<serde_json::Value>`: success depends
/// only on the input text.
#[verifier::external_body]
fn json_text_is_valid(s: &str) -> (b: bool)
    ensures
        b == json_parses(s@),
{
    serde_json::from_str::<serde_json::Value>(s).is_ok()
}

// ---------------------------------------------------------------------------
// Action plans
// ---------------------------------------------------------------------------

/// The prepared email of a matched email action; the caller reads the
/// template file at `template` and sends via SMTP.
#[derive(Debug)]
pub struct EmailPlan {
    /// The contact's email address.
    pub to: String,
    /// The contact's name, substituted into the template body.
    pub contact_name: String,
    pub subject: String,
    /// Path of the template file.
    pub template: String,
}

/// The prepared webhook call of a matched webhook action: method
/// validated, placeholders substituted everywhere, body re-validated.
#[derive(Debug)]
pub struct HttpPlan {
    pub method: String,
    pub url: String,
    pub headers: Vec<Header>,
    pub body: Option<String>,
}

/// What a matched rule's action amounts to, with everything resolved.
#[derive(Debug)]
pub enum ActionPlan {
    /// The rule carries no action: acknowledge and do nothing.
    NoAction,
    /// Send this platform message.
    SendMessage(SendWhatsAppMessage),
    /// Send this email.
    SendEmail(EmailPlan),
    /// Perform this webhook call.
    CallWebhook(HttpPlan),
}

/// The error a webhook action plan runs into, if any: an invalid method is
/// reported first, then a body that substitution made unparsable.
pub open spec fn spec_http_error(a: HttpRequestAction, c: Contact) -> Option<ReminderError> {
    if !spec_method_ok(spec_upper(a.method@)) {
        Some(ReminderError::InvalidHttpMethod)
    } else if a.body is Some && !json_parses(spec_sub(a.body->0@, c)) {
        Some(ReminderError::InvalidJsonBody)
    } else {
        None
    }
}

/// What a correct webhook plan looks like for an action and a contact.
pub open spec fn spec_http_plan_ok(a: HttpRequestAction, c: Contact, p: HttpPlan) -> bool {
    &&& p.method@ == spec_upper(a.method@)
    &&& p.url@ == spec_sub(a.url@, c)
    &&& p.headers@.len() == a.headers@.len()
    &&& forall|i: int|
        0 <= i < a.headers@.len() ==> (#[trigger] p.headers@[i]).name@ == a.headers@[i].name@
            && p.headers@[i].value@ == spec_sub(a.headers@[i].value@, c)
    &&& a.body is None ==> p.body is None
    &&& a.body is Some ==> p.body is Some && p.body->0@ == spec_sub(a.body->0@, c)
}

/// Builds the webhook call of an action: validates the method, substitutes
/// the contact placeholders into URL, header values and body, and rejects a
/// body that no longer parses as JSON.
pub fn plan_http_request(a: &HttpRequestAction, c: &Contact) -> (r: Result<HttpPlan, ReminderError>)
    ensures
        spec_http_error(*a, *c) matches Some(e) ==> r == Err::<HttpPlan, ReminderError>(e),
        spec_http_error(*a, *c) is None ==> (r matches Ok(p) && spec_http_plan_ok(*a, *c, p)),
{
    let method = match normalize_method(a.method.as_str()) {
        Some(mtd) => mtd,
        None => {
            return Err(ReminderError::InvalidHttpMethod);
        },
    };
    let url = substitute_placeholders(a.url.as_str(), c);
    let mut headers: Vec<Header> = Vec::new();
    let mut i: usize = 0;
    while i < a.headers.len()
        invariant
            i <= a.headers@.len(),
            headers@.len() == i,
            forall|j: int|
                0 <= j < i ==> (#[trigger] headers@[j]).name@ == a.headers@[j].name@
                    && headers@[j].value@ == spec_sub(a.headers@[j].value@, *c),
        decreases a.headers@.len() - i,
    {
        let h = Header {
            name: a.headers[i].name.clone(),
            value: substitute_placeholders(a.headers[i].value.as_str(), c),
        };
        headers.push(h);
        i = i + 1;
    }
    let body = match &a.body {
        None => None,
        Some(b) => {
            let sub = substitute_placeholders(b.as_str(), c);
            if !json_text_is_valid(sub.as_str()) {
                return Err(ReminderError::InvalidJsonBody);
            }
            Some(sub)
        },
    };
    Ok(HttpPlan { method, url, headers, body })
}

/// What a correct platform-message plan looks like: addressed to the
/// looked-up contact id, with the rule's payload and the contact's
/// platform address merged in.
pub open spec fn spec_message_plan_ok(
    a: WacraftMessageAction,
    det: WhatsAppProductDetails,
    contact_id: Seq<char>,
    m: SendWhatsAppMessage,
) -> bool {
    &&& m.to_id@ == contact_id
    &&& m.sender_data.to@ == det.wa_id@
    &&& m.sender_data.base.deep_view() == a.sender_data.deep_view()
}

/// What a correct email plan looks like for an action and a contact with
/// an email address.
pub open spec fn spec_email_plan_ok(a: EmailAction, inner: Contact, p: EmailPlan) -> bool {
    &&& inner.email is Some && p.to == inner.email->0
    &&& p.contact_name == inner.name
    &&& p.subject == a.subject
    &&& p.template == a.template
}

/// The error an action runs into for the given contact, if any.
pub open spec fn spec_action_error(
    act: Action,
    ct: MessagingProductContact,
    inner: Contact,
) -> Option<ReminderError> {
    match act {
        Action::WacraftMessage(_) => if ct.product_details is None {
            Some(ReminderError::MissingProductDetails)
        } else {
            None
        },
        Action::Email(_) => if inner.email is None {
            Some(ReminderError::NoEmailAddress)
        } else {
            None
        },
        Action::HttpRequest(a) => spec_http_error(a, inner),
    }
}

/// What a correct plan looks like for each action kind.
pub open spec fn spec_action_plan_ok(
    act: Action,
    ct: MessagingProductContact,
    inner: Contact,
    contact_id: Seq<char>,
    p: ActionPlan,
) -> bool {
    match act {
        Action::WacraftMessage(a) => p matches ActionPlan::SendMessage(m)
            && spec_message_plan_ok(a, ct.product_details->0, contact_id, m),
        Action::Email(a) => p matches ActionPlan::SendEmail(ep) && spec_email_plan_ok(
            a,
            inner,
            ep,
        ),
        Action::HttpRequest(a) => p matches ActionPlan::CallWebhook(hp) && spec_http_plan_ok(
            a,
            inner,
            hp,
        ),
    }
}

/// Validates one action against the resolved contact and builds its plan.
pub fn plan_action(
    act: &Action,
    ct: &MessagingProductContact,
    inner: &Contact,
    contact_id: &str,
) -> (r: Result<ActionPlan, ReminderError>)
    ensures
        spec_action_error(*act, *ct, *inner) matches Some(e) ==> r == Err::<
            ActionPlan,
            ReminderError,
        >(e),
        spec_action_error(*act, *ct, *inner) is None ==> (r matches Ok(p) && spec_action_plan_ok(
            *act,
            *ct,
            *inner,
            contact_id@,
            p,
        )),
{
    match act {
        Action::WacraftMessage(a) => match &ct.product_details {
            None => Err(ReminderError::MissingProductDetails),
            Some(det) => {
                let payload = MessagePayload {
                    base: a.sender_data.clone(),
                    to: det.wa_id.clone(),
                };
                let msg = SendWhatsAppMessage {
                    to_id: contact_id.to_owned(),
                    sender_data: payload,
                };
                Ok(ActionPlan::SendMessage(msg))
            },
        },
        Action::Email(a) => match &inner.email {
            None => Err(ReminderError::NoEmailAddress),
            Some(em) => Ok(
                ActionPlan::SendEmail(
                    EmailPlan {
                        to: em.clone(),
                        contact_name: inner.name.clone(),
                        subject: a.subject.clone(),
                        template: a.template.clone(),
                    },
                ),
            ),
        },
        Action::HttpRequest(a) => match plan_http_request(a, inner) {
            Err(e) => Err(e),
            Ok(p) => Ok(ActionPlan::CallWebhook(p)),
        },
    }
}

// ---------------------------------------------------------------------------
// The full reminder decision
// ---------------------------------------------------------------------------

/// The outcome of planning a reminder for one contact.
#[derive(Debug)]
pub enum ReminderOutcome {
    /// The rule list is empty: nothing to do, not an error.
    NoRules,
    /// No rule's threshold was met: nothing to do, not an error.
    NotInactiveEnough,
    /// A rule matched; `action` is its fully resolved plan and `execute`
    /// says whether the caller is to perform the external call (`false`
    /// under `mock` and for actionless rules).
    Selected { rule_name: String, action: ActionPlan, execute: bool },
}

/// The error planning a reminder runs into, if any.
pub open spec fn spec_reminder_error(
    rules: Seq<ReminderRule>,
    d: int,
    ct: MessagingProductContact,
) -> Option<ReminderError> {
    if rules.len() == 0 {
        None
    } else {
        match spec_select_rule(rules, d) {
            None => None,
            Some(rule) => {
                if ct.contact is None {
                    Some(ReminderError::MissingContactDetails)
                } else {
                    match rule.action {
                        None => None,
                        Some(act) => spec_action_error(act, ct, ct.contact->0),
                    }
                }
            },
        }
    }
}

/// What a correct outcome looks like when no error occurs.
pub open spec fn spec_outcome_ok(
    rules: Seq<ReminderRule>,
    d: int,
    ct: MessagingProductContact,
    contact_id: Seq<char>,
    mock: bool,
    o: ReminderOutcome,
) -> bool {
    if rules.len() == 0 {
        o == ReminderOutcome::NoRules
    } else {
        match spec_select_rule(rules, d) {
            None => o == ReminderOutcome::NotInactiveEnough,
            Some(rule) => o matches ReminderOutcome::Selected { rule_name, action, execute }
                && rule_name == rule.name && execute == (!mock && rule.action is Some) && (
            match rule.action {
                None => action == ActionPlan::NoAction,
                Some(act) => spec_action_plan_ok(act, ct, ct.contact->0, contact_id, action),
            }),
        }
    }
}

/// Plans the reminder for one contact: selects the applicable rule for the
/// conversation's inactivity at `now` and resolves its action against the
/// contact. Pure: it touches no credential state and performs no call;
/// under `mock` the outcome is marked not-to-execute while all resolution
/// and validation still happens.
pub fn plan_reminder(
    rules: &Vec<ReminderRule>,
    conversation: &Conversation,
    ct: &MessagingProductContact,
    contact_id: &str,
    now: i64,
    mock: bool,
) -> (r: Result<ReminderOutcome, ReminderError>)
    requires
        i64::MIN <= now - conversation.updated_at <= i64::MAX,
    ensures
        spec_reminder_error(rules@, now - conversation.updated_at, *ct) matches Some(e) ==> r
            == Err::<ReminderOutcome, ReminderError>(e),
        spec_reminder_error(rules@, now - conversation.updated_at, *ct) is None ==> (r matches Ok(o)
            && spec_outcome_ok(rules@, now - conversation.updated_at, *ct, contact_id@, mock, o)),
{
    if rules.len() == 0 {
        return Ok(ReminderOutcome::NoRules);
    }
    let d = crate::rules::inactivity_seconds(now, conversation.updated_at);
    match select_rule(rules, d) {
        None => Ok(ReminderOutcome::NotInactiveEnough),
        Some(rule) => match &ct.contact {
            None => Err(ReminderError::MissingContactDetails),
            Some(inner) => match &rule.action {
                None => Ok(
                    ReminderOutcome::Selected {
                        rule_name: rule.name.clone(),
                        action: ActionPlan::NoAction,
                        execute: false,
                    },
                ),
                Some(act) => match plan_action(act, ct, inner, contact_id) {
                    Err(e) => Err(e),
                    Ok(p) => Ok(
                        ReminderOutcome::Selected {
                            rule_name: rule.name.clone(),
                            action: p,
                            execute: !mock,
                        },
                    ),
                },
            },
        },
    }
}

/// Mock dispatching is effect-free: any outcome planned with `mock` set is
/// marked not-to-execute, so no external call follows from it; and
/// planning takes no credential state at all, so credentials cannot be
/// mutated by it — running it twice observably does nothing, twice.
pub proof fn lemma_mock_plan_never_executes(
    rules: Seq<ReminderRule>,
    d: int,
    ct: MessagingProductContact,
    contact_id: Seq<char>,
    o: ReminderOutcome,
)
    requires
        spec_outcome_ok(rules, d, ct, contact_id, true, o),
    ensures
        o matches ReminderOutcome::Selected { execute, .. } ==> !execute,
{
}

} // verus!
